//! What a check ends in: the kind of the document, or the kind of its fault.

use vstd::prelude::*;

verus! {

/// The ways in which a stream of bytes fails to be a JSON document.
#[derive(Copy, Clone, Debug, PartialEq, Eq, Structural, Hash)]
pub enum Error {
    /// A control character that no document may hold.
    InvalidCharacter,
    /// `}` right after `{` where no object was opened.
    EmptyCurlyBraces,
    /// `}` that closes no object member.
    OrphanCurlyBrace,
    /// `]` that closes no array.
    OrphanSquareBrace,
    /// The nesting is deeper than the checker was told to follow.
    MaxDepthReached,
    /// A quote where neither a string nor a key can begin or end.
    InvalidQuote,
    /// A comma outside an array or object, or in the wrong place.
    InvalidComma,
    /// A colon that follows no key.
    InvalidColon,
    /// A byte that the grammar does not permit where it stands.
    InvalidState,
    /// The stream ended inside a value or with something still open.
    IncompleteElement,
}

/// The kind of value a JSON document holds at its top level.
#[derive(Debug, Copy, Clone, PartialEq, Eq, Structural, PartialOrd, Ord, Hash)]
pub enum JsonType {
    /// `null`
    Null,
    /// `true` or `false`
    Bool,
    /// a number
    Number,
    /// a string
    String,
    /// an array
    Array,
    /// an object
    Object,
}

impl Error {
    /// The message of each kind of error.
    pub open spec fn spec_message(self) -> Seq<char> {
        match self {
            Error::InvalidCharacter => "invalid character"@,
            Error::EmptyCurlyBraces => "empty curly braces"@,
            Error::OrphanCurlyBrace => "orphan curly brace"@,
            Error::OrphanSquareBrace => "orphan square brace"@,
            Error::MaxDepthReached => "max depth reached"@,
            Error::InvalidQuote => "invalid quote"@,
            Error::InvalidComma => "invalid comma"@,
            Error::InvalidColon => "invalid colon"@,
            Error::InvalidState => "invalid state"@,
            Error::IncompleteElement => "incomplete element"@,
        }
    }

    /// The message of this error, one per kind.
    pub fn message(&self) -> (text: &'static str)
        ensures
            text@ == self.spec_message(),
    {
        match self {
            Error::InvalidCharacter => "invalid character",
            Error::EmptyCurlyBraces => "empty curly braces",
            Error::OrphanCurlyBrace => "orphan curly brace",
            Error::OrphanSquareBrace => "orphan square brace",
            Error::MaxDepthReached => "max depth reached",
            Error::InvalidQuote => "invalid quote",
            Error::InvalidComma => "invalid comma",
            Error::InvalidColon => "invalid colon",
            Error::InvalidState => "invalid state",
            Error::IncompleteElement => "incomplete element",
        }
    }

    /// The message of this error as an owned string.
    pub fn to_string(&self) -> (text: String)
        ensures
            text@ == self.spec_message(),
    {
        self.message().to_owned()
    }
}

} // verus!
