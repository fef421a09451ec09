//! The pushdown automaton as a mathematical object: what a checker is at any
//! moment, and what each byte makes of it. The executable checker is stated
//! against this model, and the laws of the library are proved of it.

use vstd::prelude::*;
use crate::error::{Error, JsonType};
use crate::internals::{spec_classify, spec_transition, Mode, State};

verus! {

/// One configuration of the automaton.
pub struct Automaton {
    /// The current grammar state.
    pub state: State,
    /// The open structures, innermost last, above the `Done` at the bottom.
    pub stack: Seq<Mode>,
    /// The first error met, if any; once set the automaton is inert.
    pub error: Option<Error>,
    /// The kind of the document, from its first significant byte on.
    pub outer_type: Option<JsonType>,
    /// The greatest number of modes that the stack may hold.
    pub max_depth: nat,
}

/// The kind of document that a transition to `next` announces, if it
/// announces one: the first letter of a literal, the first character of a
/// number, an opening quote, bracket or brace.
pub open spec fn announced_type(next: State) -> Option<JsonType> {
    match next {
        State::N1 => Some(JsonType::Null),
        State::T1 | State::F1 => Some(JsonType::Bool),
        State::Mi | State::Ze | State::In => Some(JsonType::Number),
        State::Wq => Some(JsonType::String),
        State::Wos => Some(JsonType::Array),
        State::Woc => Some(JsonType::Object),
        _ => None,
    }
}

/// The states in which a document may end: a value is complete, or a number
/// has been read as far as the digits of its integer part, its decimal point,
/// its fraction or its exponent. A number is thus taken leniently where the
/// stream ends, `235896.` for one; but right after a leading zero, or after a
/// minus sign or an exponent mark, the stream may not end.
pub open spec fn is_final_state(state: State) -> bool {
    state is Ac || state is In || state is Fr || state is Fs || state is E3
}

impl Automaton {
    /// The automaton before the first byte.
    pub open spec fn start(max_depth: nat) -> Automaton {
        Automaton {
            state: State::Go,
            stack: seq![Mode::Done],
            error: None,
            outer_type: None,
            max_depth,
        }
    }

    /// The innermost open structure.
    pub open spec fn top(self) -> Option<Mode> {
        if self.stack.len() > 0 {
            Some(self.stack.last())
        } else {
            None
        }
    }

    /// Whether the stack may grow by one mode.
    pub open spec fn has_room(self) -> bool {
        self.stack.len() < self.max_depth
    }

    /// This automaton in another state.
    pub open spec fn at(self, state: State) -> Automaton {
        Automaton { state, ..self }
    }

    /// This automaton with another bound on its stack.
    pub open spec fn with_bound(self, max_depth: nat) -> Automaton {
        Automaton { max_depth, ..self }
    }

    /// This automaton with `mode` on top of its stack.
    pub open spec fn pushed(self, mode: Mode) -> Automaton {
        Automaton { stack: self.stack.push(mode), ..self }
    }

    /// This automaton without the top of its stack.
    pub open spec fn popped(self) -> Automaton {
        Automaton { stack: self.stack.drop_last(), ..self }
    }

    /// This automaton with the kind of document that `next` announces, unless
    /// a kind is recorded already.
    pub open spec fn noting(self, next: State) -> Automaton {
        if self.outer_type is None {
            Automaton { outer_type: announced_type(next), ..self }
        } else {
            self
        }
    }

    /// What the transition table's answer `next` makes of a running
    /// automaton: a grammar state is adopted, a request is carried out on the
    /// stack, and what cannot be carried out is an error.
    pub open spec fn act(self, next: State) -> Result<Automaton, Error> {
        match next {
            State::Wec => if self.top() == Some(Mode::Key) {
                Ok(self.popped().at(State::Ac))
            } else {
                Err(Error::EmptyCurlyBraces)
            },
            State::Wcu => if self.top() == Some(Mode::Object) {
                Ok(self.popped().at(State::Ac))
            } else {
                Err(Error::OrphanCurlyBrace)
            },
            State::Ws => if self.top() == Some(Mode::Array) {
                Ok(self.popped().at(State::Ac))
            } else {
                Err(Error::OrphanSquareBrace)
            },
            State::Woc => if self.has_room() {
                Ok(self.pushed(Mode::Key).at(State::Ob))
            } else {
                Err(Error::MaxDepthReached)
            },
            State::Wos => if self.has_room() {
                Ok(self.pushed(Mode::Array).at(State::Ar))
            } else {
                Err(Error::MaxDepthReached)
            },
            State::Wq => match self.top() {
                Some(Mode::Done) => if self.has_room() {
                    Ok(self.pushed(Mode::String).at(State::St))
                } else {
                    Err(Error::MaxDepthReached)
                },
                Some(Mode::String) => Ok(self.popped().at(State::Ac)),
                Some(Mode::Key) => Ok(self.at(State::Co)),
                Some(Mode::Array) | Some(Mode::Object) => Ok(self.at(State::Ac)),
                None => Err(Error::InvalidQuote),
            },
            State::Wcm => match self.top() {
                Some(Mode::Object) => if self.popped().has_room() {
                    Ok(self.popped().pushed(Mode::Key).at(State::Ke))
                } else {
                    Err(Error::InvalidComma)
                },
                Some(Mode::Array) => Ok(self.at(State::Va)),
                _ => Err(Error::InvalidComma),
            },
            State::Wcl => if self.top() == Some(Mode::Key) && self.popped().has_room() {
                Ok(self.popped().pushed(Mode::Object).at(State::Va))
            } else {
                Err(Error::InvalidColon)
            },
            State::Invalid => Err(Error::InvalidState),
            state => Ok(self.at(state)),
        }
    }

    /// What one byte makes of a running automaton: the next configuration, or
    /// the error that the byte is. The byte is classified, the transition
    /// table is asked where its class leads, and the answer is acted on; the
    /// kind of document that the answer announces is noted when the byte is
    /// taken.
    pub open spec fn advance(self, byte: u8) -> Result<Automaton, Error> {
        let class = spec_classify(byte);
        if class is Invalid {
            Err(Error::InvalidCharacter)
        } else {
            let next = spec_transition(self.state, class);
            match self.act(next) {
                Ok(moved) => Ok(moved.noting(next)),
                Err(error) => Err(error),
            }
        }
    }

    /// This automaton after it was given one byte. One that has failed stays
    /// as it is; one that fails on this byte keeps the error and changes in
    /// nothing else.
    pub open spec fn feed(self, byte: u8) -> Automaton {
        if self.error is Some {
            self
        } else {
            match self.advance(byte) {
                Ok(next) => next,
                Err(error) => Automaton { error: Some(error), ..self },
            }
        }
    }

    /// This automaton after it was given `bytes`, first to last.
    pub open spec fn feed_all(self, bytes: Seq<u8>) -> Automaton
        decreases bytes.len(),
    {
        if bytes.len() == 0 {
            self
        } else {
            self.feed_all(bytes.drop_last()).feed(bytes.last())
        }
    }

    /// This automaton after its source of bytes has failed: unless it holds
    /// an error already, it now holds `IncompleteElement`.
    pub open spec fn interrupted(self) -> Automaton {
        if self.error is Some {
            self
        } else {
            Automaton { error: Some(Error::IncompleteElement), ..self }
        }
    }

    /// How the automaton stands: the error it holds, if it holds one.
    pub open spec fn status(self) -> Result<(), Error> {
        match self.error {
            Some(error) => Err(error),
            None => Ok(()),
        }
    }

    /// Whether the bytes given so far are a whole document: no error, a state
    /// in which a document may end, and nothing open.
    pub open spec fn accepts(self) -> bool {
        self.error is None && is_final_state(self.state) && self.stack =~= seq![Mode::Done]
    }

    /// The result of the check, were the stream to end here: the error held,
    /// if there is one; the kind of the document, if the bytes are a whole
    /// document; `IncompleteElement` otherwise. (A whole document always has
    /// its kind recorded: see `lemma_accepted_document_has_type`.)
    pub open spec fn outcome(self) -> Result<JsonType, Error> {
        match self.error {
            Some(error) => Err(error),
            None => match self.outer_type {
                Some(outer_type) if self.accepts() => Ok(outer_type),
                _ => Err(Error::IncompleteElement),
            },
        }
    }

    /// The stack is sound: `Done` lies at its bottom and nowhere else; only
    /// on top may a `Key` or a `String` lie, since nothing opens inside them;
    /// and above `Done` there are at most `max_depth - 1` modes.
    pub open spec fn stack_is_sound(self) -> bool {
        &&& self.stack.len() >= 1
        &&& self.stack[0] == Mode::Done
        &&& forall|i: int| 1 <= i < self.stack.len() ==> self.stack[i] != Mode::Done
        &&& forall|i: int|
            0 <= i < self.stack.len() - 1 ==> self.stack[i] != Mode::Key && self.stack[i]
                != Mode::String
        &&& (self.stack.len() == 1 || self.stack.len() <= self.max_depth)
    }

    /// The state fits the top of the stack: at the start nothing is open; a
    /// key and its colon are awaited inside a `Key`; the first value of an
    /// array inside an `Array`; a string is open inside anything but `Done`;
    /// and everywhere else, where a value is awaited, under way or complete,
    /// the top is `Done`, `Array` or `Object`.
    pub open spec fn state_fits_stack(self) -> bool {
        match self.state {
            State::Go => self.stack.len() == 1,
            State::Ob | State::Ke | State::Co => self.top() == Some(Mode::Key),
            State::Ar => self.top() == Some(Mode::Array),
            State::Va => self.top() == Some(Mode::Array) || self.top() == Some(Mode::Object),
            State::St | State::Es | State::U1 | State::U2 | State::U3 | State::U4 => self.top()
                != Some(Mode::Done),
            _ => self.top() == Some(Mode::Done) || self.top() == Some(Mode::Array) || self.top()
                == Some(Mode::Object),
        }
    }

    /// What holds of every configuration that a checker can reach: the state
    /// is a grammar state, the stack is sound, the state fits the stack, and
    /// once the start state is left the kind of the document is recorded.
    pub open spec fn inv(self) -> bool {
        &&& self.state.spec_is_valid()
        &&& self.stack_is_sound()
        &&& self.state_fits_stack()
        &&& (self.state != State::Go ==> self.outer_type is Some)
    }
}

/// The result of checking `bytes` as one document, with no bound on the
/// nesting but the machine's.
pub open spec fn spec_validate(bytes: Seq<u8>) -> Result<JsonType, Error> {
    Automaton::start(usize::MAX as nat).feed_all(bytes).outcome()
}

/// Space, tab, line feed or carriage return: what may stand before a
/// document.
pub open spec fn is_blank_byte(byte: u8) -> bool {
    byte == 0x20 || byte == 0x09 || byte == 0x0a || byte == 0x0d
}

/// The first byte of `bytes` that is not blank, if there is one.
pub open spec fn first_significant(bytes: Seq<u8>) -> Option<u8>
    decreases bytes.len(),
{
    if bytes.len() == 0 {
        None
    } else if is_blank_byte(bytes[0]) {
        first_significant(bytes.skip(1))
    } else {
        Some(bytes[0])
    }
}

/// The kind of document that begins with `byte`: `{` an object, `[` an
/// array, `"` a string, `-` or a digit a number, `t` or `f` a boolean, `n` the
/// null; no other byte begins a document.
pub open spec fn leading_type(byte: u8) -> Option<JsonType> {
    if byte == 0x7b {
        Some(JsonType::Object)
    } else if byte == 0x5b {
        Some(JsonType::Array)
    } else if byte == 0x22 {
        Some(JsonType::String)
    } else if byte == 0x2d || 0x30 <= byte <= 0x39 {
        Some(JsonType::Number)
    } else if byte == 0x74 || byte == 0x66 {
        Some(JsonType::Bool)
    } else if byte == 0x6e {
        Some(JsonType::Null)
    } else {
        None
    }
}

/// `n` opening square brackets.
pub open spec fn opening_brackets(n: nat) -> Seq<u8> {
    Seq::new(n, |i: int| 0x5bu8)
}

/// The stack inside `n` arrays, one in the other.
pub open spec fn nested_arrays(n: nat) -> Seq<Mode> {
    seq![Mode::Done] + Seq::new(n, |i: int| Mode::Array)
}

/// The four bytes `{"":`, which open an object and the value of its first
/// member.
pub open spec fn opening_member() -> Seq<u8> {
    seq![0x7bu8, 0x22u8, 0x22u8, 0x3au8]
}

/// `n` times the bytes `{"":`.
pub open spec fn opening_members(n: nat) -> Seq<u8>
    decreases n,
{
    if n == 0 {
        Seq::<u8>::empty()
    } else {
        opening_members((n - 1) as nat) + opening_member()
    }
}

/// The stack inside the values of `n` objects, one in the other.
pub open spec fn nested_objects(n: nat) -> Seq<Mode> {
    seq![Mode::Done] + Seq::new(n, |i: int| Mode::Object)
}

} // verus!
