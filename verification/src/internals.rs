//! The lookup data of the automaton: character classes, states and stack modes.

use vstd::prelude::*;

verus! {

/// The class a byte belongs to, as far as the JSON grammar can tell bytes apart.
#[derive(Copy, Clone, Debug, PartialEq, Eq, Structural)]
pub enum Class {
    /// space
    CSpace,
    /// tab, line feed, carriage return
    CWhite,
    /// `{`
    CLcurb,
    /// `}`
    CRcurb,
    /// `[`
    CLsqrb,
    /// `]`
    CRsqrb,
    /// `:`
    CColon,
    /// `,`
    CComma,
    /// `"`
    CQuote,
    /// `\`
    CBacks,
    /// `/`
    CSlash,
    /// `+`
    CPlus,
    /// `-`
    CMinus,
    /// `.`
    CPoint,
    /// `0`
    CZero,
    /// `1` to `9`
    CDigit,
    /// `a`
    CLowA,
    /// `b`
    CLowB,
    /// `c`
    CLowC,
    /// `d`
    CLowD,
    /// `e`
    CLowE,
    /// `f`
    CLowF,
    /// `l`
    CLowL,
    /// `n`
    CLowN,
    /// `r`
    CLowR,
    /// `s`
    CLowS,
    /// `t`
    CLowT,
    /// `u`
    CLowU,
    /// `A`, `B`, `C`, `D`, `F`
    CAbcdf,
    /// `E`
    CE,
    /// every other byte that may occur in a document
    CEtc,
    /// a control character that no document may hold
    Invalid,
}

/// The states of the automaton. The first thirty-one are positions in the
/// grammar; the eight that begin with `W` are requests to work on the mode
/// stack; `Invalid` is the sink that every forbidden transition leads to.
#[derive(Copy, Clone, Debug, PartialEq, Eq, Structural)]
pub enum State {
    /// start
    Go,
    /// accept: a value is complete
    Ac,
    /// after `{`
    Ob,
    /// a key is expected
    Ke,
    /// a colon is expected
    Co,
    /// a value is expected
    Va,
    /// after `[`
    Ar,
    /// inside a string
    St,
    /// after a backslash
    Es,
    /// after `\u`
    U1,
    /// after `\u` and one hex digit
    U2,
    /// after `\u` and two hex digits
    U3,
    /// after `\u` and three hex digits
    U4,
    /// after a minus sign
    Mi,
    /// after a leading zero
    Ze,
    /// inside the integer part
    In,
    /// after the decimal point
    Fr,
    /// inside the fraction
    Fs,
    /// after `e` or `E`
    E1,
    /// after the sign of the exponent
    E2,
    /// inside the exponent
    E3,
    /// after `t`
    T1,
    /// after `tr`
    T2,
    /// after `tru`
    T3,
    /// after `f`
    F1,
    /// after `fa`
    F2,
    /// after `fal`
    F3,
    /// after `fals`
    F4,
    /// after `n`
    N1,
    /// after `nu`
    N2,
    /// after `nul`
    N3,
    /// a colon was read
    Wcl,
    /// a comma was read
    Wcm,
    /// a quote opened or closed a string
    Wq,
    /// `[` was read
    Wos,
    /// `{` was read
    Woc,
    /// `]` was read
    Ws,
    /// `}` was read after a value
    Wcu,
    /// `}` was read right after `{`
    Wec,
    /// the sink
    Invalid,
}

/// What the automaton is inside of; the entries of its stack.
#[derive(Copy, Clone, Debug, PartialEq, Eq, Structural)]
pub enum Mode {
    /// inside an array
    Array,
    /// the bottom of the stack: nothing is open
    Done,
    /// inside an object, before the colon of a member
    Key,
    /// inside an object, after the colon of a member
    Object,
    /// inside a string that is the whole document
    String,
}

use Class::{
    CAbcdf, CBacks, CColon, CComma, CDigit, CEtc, CLcurb, CLowA, CLowB, CLowC, CLowD, CLowE, CLowF,
    CLowL, CLowN, CLowR, CLowS, CLowT, CLowU, CLsqrb, CMinus, CPlus, CPoint, CQuote, CRcurb, CRsqrb,
    CSlash, CSpace, CWhite, CZero, CE,
};
use State::{
    Ac, Ar, Co, Es, Fr, Fs, Go, In, Ke, Mi, Ob, St, Va, Wcl, Wcm, Wcu, Wec, Woc, Wos, Wq, Ws, Ze,
    E1, E2, E3, F1, F2, F3, F4, N1, N2, N3, T1, T2, T3, U1, U2, U3, U4,
};

/// In the class table: a control character that no document may hold.
const XX: Class = Class::Invalid;

/// In the transition table: the sink.
const __: State = State::Invalid;

/// The classes of the 128 ASCII characters.
const ASCII_CLASS: [Class; 128] = [
    XX,      XX,      XX,      XX,      XX,      XX,      XX,      XX,
    XX,      CWhite,  CWhite,  XX,      XX,      CWhite,  XX,      XX,
    XX,      XX,      XX,      XX,      XX,      XX,      XX,      XX,
    XX,      XX,      XX,      XX,      XX,      XX,      XX,      XX,
    CSpace,  CEtc,    CQuote,  CEtc,    CEtc,    CEtc,    CEtc,    CEtc,
    CEtc,    CEtc,    CEtc,    CPlus,   CComma,  CMinus,  CPoint,  CSlash,
    CZero,   CDigit,  CDigit,  CDigit,  CDigit,  CDigit,  CDigit,  CDigit,
    CDigit,  CDigit,  CColon,  CEtc,    CEtc,    CEtc,    CEtc,    CEtc,
    CEtc,    CAbcdf,  CAbcdf,  CAbcdf,  CAbcdf,  CE,      CAbcdf,  CEtc,
    CEtc,    CEtc,    CEtc,    CEtc,    CEtc,    CEtc,    CEtc,    CEtc,
    CEtc,    CEtc,    CEtc,    CEtc,    CEtc,    CEtc,    CEtc,    CEtc,
    CEtc,    CEtc,    CEtc,    CLsqrb,  CBacks,  CRsqrb,  CEtc,    CEtc,
    CEtc,    CLowA,   CLowB,   CLowC,   CLowD,   CLowE,   CLowF,   CEtc,
    CEtc,    CEtc,    CEtc,    CEtc,    CLowL,   CEtc,    CLowN,   CEtc,
    CEtc,    CEtc,    CLowR,   CLowS,   CLowT,   CLowU,   CEtc,    CEtc,
    CEtc,    CEtc,    CEtc,    CLcurb,  CEtc,    CRcurb,  CEtc,    CEtc,
];

/// The successor of each grammar state (row) on each class but `Invalid`
/// (column): another grammar state, a request to work on the stack, or the sink.
const STATE_TRANSITION_TABLE: [[State; 31]; 31] = [
    //              sp   ws    {    }    [    ]    :    ,    "    \    /    +    -    .    0  1-9    a    b    c    d    e    f    l    n    r    s    t    u  A-F    E  etc
    /* start  */ [ Go,  Go, Woc,  __, Wos,  __,  __,  __,  Wq,  __,  __,  __,  Mi,  __,  Ze,  In,  __,  __,  __,  __,  __,  F1,  __,  N1,  __,  __,  T1,  __,  __,  __,  __],
    /* accept */ [ Ac,  Ac,  __, Wcu,  __,  Ws,  __, Wcm,  __,  __,  __,  __,  __,  __,  __,  __,  __,  __,  __,  __,  __,  __,  __,  __,  __,  __,  __,  __,  __,  __,  __],
    /* object */ [ Ob,  Ob,  __, Wec,  __,  __,  __,  __,  St,  __,  __,  __,  __,  __,  __,  __,  __,  __,  __,  __,  __,  __,  __,  __,  __,  __,  __,  __,  __,  __,  __],
    /* key    */ [ Ke,  Ke,  __,  __,  __,  __,  __,  __,  St,  __,  __,  __,  __,  __,  __,  __,  __,  __,  __,  __,  __,  __,  __,  __,  __,  __,  __,  __,  __,  __,  __],
    /* colon  */ [ Co,  Co,  __,  __,  __,  __, Wcl,  __,  __,  __,  __,  __,  __,  __,  __,  __,  __,  __,  __,  __,  __,  __,  __,  __,  __,  __,  __,  __,  __,  __,  __],
    /* value  */ [ Va,  Va, Woc,  __, Wos,  __,  __,  __,  St,  __,  __,  __,  Mi,  __,  Ze,  In,  __,  __,  __,  __,  __,  F1,  __,  N1,  __,  __,  T1,  __,  __,  __,  __],
    /* array  */ [ Ar,  Ar, Woc,  __, Wos,  Ws,  __,  __,  St,  __,  __,  __,  Mi,  __,  Ze,  In,  __,  __,  __,  __,  __,  F1,  __,  N1,  __,  __,  T1,  __,  __,  __,  __],
    /* string */ [ St,  __,  St,  St,  St,  St,  St,  St,  Wq,  Es,  St,  St,  St,  St,  St,  St,  St,  St,  St,  St,  St,  St,  St,  St,  St,  St,  St,  St,  St,  St,  St],
    /* escape */ [ __,  __,  __,  __,  __,  __,  __,  __,  St,  St,  St,  __,  __,  __,  __,  __,  __,  St,  __,  __,  __,  St,  __,  St,  St,  __,  St,  U1,  __,  __,  __],
    /* u1     */ [ __,  __,  __,  __,  __,  __,  __,  __,  __,  __,  __,  __,  __,  __,  U2,  U2,  U2,  U2,  U2,  U2,  U2,  U2,  __,  __,  __,  __,  __,  __,  U2,  U2,  __],
    /* u2     */ [ __,  __,  __,  __,  __,  __,  __,  __,  __,  __,  __,  __,  __,  __,  U3,  U3,  U3,  U3,  U3,  U3,  U3,  U3,  __,  __,  __,  __,  __,  __,  U3,  U3,  __],
    /* u3     */ [ __,  __,  __,  __,  __,  __,  __,  __,  __,  __,  __,  __,  __,  __,  U4,  U4,  U4,  U4,  U4,  U4,  U4,  U4,  __,  __,  __,  __,  __,  __,  U4,  U4,  __],
    /* u4     */ [ __,  __,  __,  __,  __,  __,  __,  __,  __,  __,  __,  __,  __,  __,  St,  St,  St,  St,  St,  St,  St,  St,  __,  __,  __,  __,  __,  __,  St,  St,  __],
    /* minus  */ [ __,  __,  __,  __,  __,  __,  __,  __,  __,  __,  __,  __,  __,  __,  Ze,  In,  __,  __,  __,  __,  __,  __,  __,  __,  __,  __,  __,  __,  __,  __,  __],
    /* zero   */ [ Ac,  Ac,  __, Wcu,  __,  Ws,  __, Wcm,  __,  __,  __,  __,  __,  Fr,  __,  __,  __,  __,  __,  __,  E1,  __,  __,  __,  __,  __,  __,  __,  __,  E1,  __],
    /* int    */ [ Ac,  Ac,  __, Wcu,  __,  Ws,  __, Wcm,  __,  __,  __,  __,  __,  Fr,  In,  In,  __,  __,  __,  __,  E1,  __,  __,  __,  __,  __,  __,  __,  __,  E1,  __],
    /* frac   */ [ __,  __,  __,  __,  __,  __,  __,  __,  __,  __,  __,  __,  __,  __,  Fs,  Fs,  __,  __,  __,  __,  __,  __,  __,  __,  __,  __,  __,  __,  __,  __,  __],
    /* fracs  */ [ Ac,  Ac,  __, Wcu,  __,  Ws,  __, Wcm,  __,  __,  __,  __,  __,  __,  Fs,  Fs,  __,  __,  __,  __,  E1,  __,  __,  __,  __,  __,  __,  __,  __,  E1,  __],
    /* e      */ [ __,  __,  __,  __,  __,  __,  __,  __,  __,  __,  __,  E2,  E2,  __,  E3,  E3,  __,  __,  __,  __,  __,  __,  __,  __,  __,  __,  __,  __,  __,  __,  __],
    /* ex     */ [ __,  __,  __,  __,  __,  __,  __,  __,  __,  __,  __,  __,  __,  __,  E3,  E3,  __,  __,  __,  __,  __,  __,  __,  __,  __,  __,  __,  __,  __,  __,  __],
    /* exp    */ [ Ac,  Ac,  __, Wcu,  __,  Ws,  __, Wcm,  __,  __,  __,  __,  __,  __,  E3,  E3,  __,  __,  __,  __,  __,  __,  __,  __,  __,  __,  __,  __,  __,  __,  __],
    /* tr     */ [ __,  __,  __,  __,  __,  __,  __,  __,  __,  __,  __,  __,  __,  __,  __,  __,  __,  __,  __,  __,  __,  __,  __,  __,  T2,  __,  __,  __,  __,  __,  __],
    /* tru    */ [ __,  __,  __,  __,  __,  __,  __,  __,  __,  __,  __,  __,  __,  __,  __,  __,  __,  __,  __,  __,  __,  __,  __,  __,  __,  __,  __,  T3,  __,  __,  __],
    /* true   */ [ __,  __,  __,  __,  __,  __,  __,  __,  __,  __,  __,  __,  __,  __,  __,  __,  __,  __,  __,  __,  Ac,  __,  __,  __,  __,  __,  __,  __,  __,  __,  __],
    /* fa     */ [ __,  __,  __,  __,  __,  __,  __,  __,  __,  __,  __,  __,  __,  __,  __,  __,  F2,  __,  __,  __,  __,  __,  __,  __,  __,  __,  __,  __,  __,  __,  __],
    /* fal    */ [ __,  __,  __,  __,  __,  __,  __,  __,  __,  __,  __,  __,  __,  __,  __,  __,  __,  __,  __,  __,  __,  __,  F3,  __,  __,  __,  __,  __,  __,  __,  __],
    /* fals   */ [ __,  __,  __,  __,  __,  __,  __,  __,  __,  __,  __,  __,  __,  __,  __,  __,  __,  __,  __,  __,  __,  __,  __,  __,  __,  F4,  __,  __,  __,  __,  __],
    /* false  */ [ __,  __,  __,  __,  __,  __,  __,  __,  __,  __,  __,  __,  __,  __,  __,  __,  __,  __,  __,  __,  Ac,  __,  __,  __,  __,  __,  __,  __,  __,  __,  __],
    /* nu     */ [ __,  __,  __,  __,  __,  __,  __,  __,  __,  __,  __,  __,  __,  __,  __,  __,  __,  __,  __,  __,  __,  __,  __,  __,  __,  __,  __,  N2,  __,  __,  __],
    /* nul    */ [ __,  __,  __,  __,  __,  __,  __,  __,  __,  __,  __,  __,  __,  __,  __,  __,  __,  __,  __,  __,  __,  __,  N3,  __,  __,  __,  __,  __,  __,  __,  __],
    /* null   */ [ __,  __,  __,  __,  __,  __,  __,  __,  __,  __,  __,  __,  __,  __,  __,  __,  __,  __,  __,  __,  __,  __,  Ac,  __,  __,  __,  __,  __,  __,  __,  __],
];

impl Class {
    /// The column of this class in the transition table; 31 for `Invalid`,
    /// which has none.
    pub open spec fn spec_index(self) -> usize {
        match self {
            Class::CSpace => 0,
            Class::CWhite => 1,
            Class::CLcurb => 2,
            Class::CRcurb => 3,
            Class::CLsqrb => 4,
            Class::CRsqrb => 5,
            Class::CColon => 6,
            Class::CComma => 7,
            Class::CQuote => 8,
            Class::CBacks => 9,
            Class::CSlash => 10,
            Class::CPlus => 11,
            Class::CMinus => 12,
            Class::CPoint => 13,
            Class::CZero => 14,
            Class::CDigit => 15,
            Class::CLowA => 16,
            Class::CLowB => 17,
            Class::CLowC => 18,
            Class::CLowD => 19,
            Class::CLowE => 20,
            Class::CLowF => 21,
            Class::CLowL => 22,
            Class::CLowN => 23,
            Class::CLowR => 24,
            Class::CLowS => 25,
            Class::CLowT => 26,
            Class::CLowU => 27,
            Class::CAbcdf => 28,
            Class::CE => 29,
            Class::CEtc => 30,
            Class::Invalid => 31,
        }
    }

    #[verifier::when_used_as_spec(spec_index)]
    pub fn index(self) -> (i: usize)
        ensures
            i == self.spec_index(),
            i <= 31,
    {
        match self {
            Class::CSpace => 0,
            Class::CWhite => 1,
            Class::CLcurb => 2,
            Class::CRcurb => 3,
            Class::CLsqrb => 4,
            Class::CRsqrb => 5,
            Class::CColon => 6,
            Class::CComma => 7,
            Class::CQuote => 8,
            Class::CBacks => 9,
            Class::CSlash => 10,
            Class::CPlus => 11,
            Class::CMinus => 12,
            Class::CPoint => 13,
            Class::CZero => 14,
            Class::CDigit => 15,
            Class::CLowA => 16,
            Class::CLowB => 17,
            Class::CLowC => 18,
            Class::CLowD => 19,
            Class::CLowE => 20,
            Class::CLowF => 21,
            Class::CLowL => 22,
            Class::CLowN => 23,
            Class::CLowR => 24,
            Class::CLowS => 25,
            Class::CLowT => 26,
            Class::CLowU => 27,
            Class::CAbcdf => 28,
            Class::CE => 29,
            Class::CEtc => 30,
            Class::Invalid => 31,
        }
    }
}

impl State {
    /// The row of this state in the transition table, for the grammar states;
    /// the others follow.
    pub open spec fn spec_index(self) -> usize {
        match self {
            State::Go => 0,
            State::Ac => 1,
            State::Ob => 2,
            State::Ke => 3,
            State::Co => 4,
            State::Va => 5,
            State::Ar => 6,
            State::St => 7,
            State::Es => 8,
            State::U1 => 9,
            State::U2 => 10,
            State::U3 => 11,
            State::U4 => 12,
            State::Mi => 13,
            State::Ze => 14,
            State::In => 15,
            State::Fr => 16,
            State::Fs => 17,
            State::E1 => 18,
            State::E2 => 19,
            State::E3 => 20,
            State::T1 => 21,
            State::T2 => 22,
            State::T3 => 23,
            State::F1 => 24,
            State::F2 => 25,
            State::F3 => 26,
            State::F4 => 27,
            State::N1 => 28,
            State::N2 => 29,
            State::N3 => 30,
            State::Wcl => 31,
            State::Wcm => 32,
            State::Wq => 33,
            State::Wos => 34,
            State::Woc => 35,
            State::Ws => 36,
            State::Wcu => 37,
            State::Wec => 38,
            State::Invalid => 39,
        }
    }

    #[verifier::when_used_as_spec(spec_index)]
    pub fn index(self) -> (i: usize)
        ensures
            i == self.spec_index(),
            i <= 39,
            self.spec_is_valid() <==> i < 31,
    {
        match self {
            State::Go => 0,
            State::Ac => 1,
            State::Ob => 2,
            State::Ke => 3,
            State::Co => 4,
            State::Va => 5,
            State::Ar => 6,
            State::St => 7,
            State::Es => 8,
            State::U1 => 9,
            State::U2 => 10,
            State::U3 => 11,
            State::U4 => 12,
            State::Mi => 13,
            State::Ze => 14,
            State::In => 15,
            State::Fr => 16,
            State::Fs => 17,
            State::E1 => 18,
            State::E2 => 19,
            State::E3 => 20,
            State::T1 => 21,
            State::T2 => 22,
            State::T3 => 23,
            State::F1 => 24,
            State::F2 => 25,
            State::F3 => 26,
            State::F4 => 27,
            State::N1 => 28,
            State::N2 => 29,
            State::N3 => 30,
            State::Wcl => 31,
            State::Wcm => 32,
            State::Wq => 33,
            State::Wos => 34,
            State::Woc => 35,
            State::Ws => 36,
            State::Wcu => 37,
            State::Wec => 38,
            State::Invalid => 39,
        }
    }

    /// A state is valid when it is a position in the grammar: neither a
    /// request to work on the stack nor the sink.
    pub open spec fn spec_is_valid(self) -> bool {
        !(self is Wcl || self is Wcm || self is Wq || self is Wos || self is Woc || self is Ws
            || self is Wcu || self is Wec || self is Invalid)
    }

    #[verifier::when_used_as_spec(spec_is_valid)]
    pub fn is_valid(self) -> (r: bool)
        ensures
            r == self.spec_is_valid(),
    {
        match self {
            State::Wcl
            | State::Wcm
            | State::Wq
            | State::Wos
            | State::Woc
            | State::Ws
            | State::Wec
            | State::Wcu
            | State::Invalid => false,
            _ => true,
        }
    }
}

/// Space, tab, line feed or carriage return.
pub open spec fn is_blank(class: Class) -> bool {
    class is CSpace || class is CWhite
}

/// A decimal digit.
pub open spec fn is_digit(class: Class) -> bool {
    class is CZero || class is CDigit
}

/// A hexadecimal digit.
pub open spec fn is_hex(class: Class) -> bool {
    is_digit(class) || class is CLowA || class is CLowB || class is CLowC || class is CLowD
        || class is CLowE || class is CLowF || class is CAbcdf || class is CE
}

/// `e` or `E`, which begins an exponent.
pub open spec fn is_exponent_mark(class: Class) -> bool {
    class is CLowE || class is CE
}

/// Where the class that begins a value, other than a string, leads.
pub open spec fn value_start(class: Class) -> State {
    match class {
        CLcurb => Woc,
        CLsqrb => Wos,
        CMinus => Mi,
        CZero => Ze,
        CDigit => In,
        CLowF => F1,
        CLowN => N1,
        CLowT => T1,
        _ => State::Invalid,
    }
}

/// Where a class leads once a value is complete.
pub open spec fn value_end(class: Class) -> State {
    match class {
        CSpace | CWhite => Ac,
        CRcurb => Wcu,
        CRsqrb => Ws,
        CComma => Wcm,
        _ => State::Invalid,
    }
}

/// The class of a byte. Tab, line feed and carriage return are white space,
/// the other control characters are invalid, and every byte from 128 on, like
/// every ASCII character that the grammar gives no part of its own, falls under
/// `CEtc`.
pub open spec fn spec_classify(byte: u8) -> Class {
    if byte >= 0x80 {
        CEtc
    } else if byte == 0x09 || byte == 0x0a || byte == 0x0d {
        CWhite
    } else if byte < 0x20 {
        Class::Invalid
    } else if byte == 0x20 {
        CSpace
    } else if byte == 0x7b {
        CLcurb
    } else if byte == 0x7d {
        CRcurb
    } else if byte == 0x5b {
        CLsqrb
    } else if byte == 0x5d {
        CRsqrb
    } else if byte == 0x3a {
        CColon
    } else if byte == 0x2c {
        CComma
    } else if byte == 0x22 {
        CQuote
    } else if byte == 0x5c {
        CBacks
    } else if byte == 0x2f {
        CSlash
    } else if byte == 0x2b {
        CPlus
    } else if byte == 0x2d {
        CMinus
    } else if byte == 0x2e {
        CPoint
    } else if byte == 0x30 {
        CZero
    } else if 0x31 <= byte <= 0x39 {
        CDigit
    } else if byte == 0x61 {
        CLowA
    } else if byte == 0x62 {
        CLowB
    } else if byte == 0x63 {
        CLowC
    } else if byte == 0x64 {
        CLowD
    } else if byte == 0x65 {
        CLowE
    } else if byte == 0x66 {
        CLowF
    } else if byte == 0x6c {
        CLowL
    } else if byte == 0x6e {
        CLowN
    } else if byte == 0x72 {
        CLowR
    } else if byte == 0x73 {
        CLowS
    } else if byte == 0x74 {
        CLowT
    } else if byte == 0x75 {
        CLowU
    } else if byte == 0x45 {
        CE
    } else if 0x41 <= byte <= 0x46 {
        CAbcdf
    } else {
        CEtc
    }
}

/// The grammar as a transition function: where `state` leads on `class`.
/// Every pair that the grammar does not permit leads to the sink, and so does
/// every pair whose state is no grammar state or whose class is `Invalid`.
pub open spec fn spec_transition(state: State, class: Class) -> State {
    match state {
        Go => if is_blank(class) {
            Go
        } else if class is CQuote {
            Wq
        } else {
            value_start(class)
        },
        Ac => value_end(class),
        Ob => if is_blank(class) {
            Ob
        } else if class is CRcurb {
            Wec
        } else if class is CQuote {
            St
        } else {
            State::Invalid
        },
        Ke => if is_blank(class) {
            Ke
        } else if class is CQuote {
            St
        } else {
            State::Invalid
        },
        Co => if is_blank(class) {
            Co
        } else if class is CColon {
            Wcl
        } else {
            State::Invalid
        },
        Va => if is_blank(class) {
            Va
        } else if class is CQuote {
            St
        } else {
            value_start(class)
        },
        Ar => if is_blank(class) {
            Ar
        } else if class is CQuote {
            St
        } else if class is CRsqrb {
            Ws
        } else {
            value_start(class)
        },
        St => match class {
            CQuote => Wq,
            CBacks => Es,
            CWhite | Class::Invalid => State::Invalid,
            _ => St,
        },
        Es => match class {
            CQuote | CBacks | CSlash | CLowB | CLowF | CLowN | CLowR | CLowT => St,
            CLowU => U1,
            _ => State::Invalid,
        },
        U1 => if is_hex(class) {
            U2
        } else {
            State::Invalid
        },
        U2 => if is_hex(class) {
            U3
        } else {
            State::Invalid
        },
        U3 => if is_hex(class) {
            U4
        } else {
            State::Invalid
        },
        U4 => if is_hex(class) {
            St
        } else {
            State::Invalid
        },
        Mi => match class {
            CZero => Ze,
            CDigit => In,
            _ => State::Invalid,
        },
        Ze => if class is CPoint {
            Fr
        } else if is_exponent_mark(class) {
            E1
        } else {
            value_end(class)
        },
        In => if is_digit(class) {
            In
        } else if class is CPoint {
            Fr
        } else if is_exponent_mark(class) {
            E1
        } else {
            value_end(class)
        },
        Fr => if is_digit(class) {
            Fs
        } else {
            State::Invalid
        },
        Fs => if is_digit(class) {
            Fs
        } else if is_exponent_mark(class) {
            E1
        } else {
            value_end(class)
        },
        E1 => if class is CPlus || class is CMinus {
            E2
        } else if is_digit(class) {
            E3
        } else {
            State::Invalid
        },
        E2 => if is_digit(class) {
            E3
        } else {
            State::Invalid
        },
        E3 => if is_digit(class) {
            E3
        } else {
            value_end(class)
        },
        T1 => if class is CLowR {
            T2
        } else {
            State::Invalid
        },
        T2 => if class is CLowU {
            T3
        } else {
            State::Invalid
        },
        T3 => if class is CLowE {
            Ac
        } else {
            State::Invalid
        },
        F1 => if class is CLowA {
            F2
        } else {
            State::Invalid
        },
        F2 => if class is CLowL {
            F3
        } else {
            State::Invalid
        },
        F3 => if class is CLowS {
            F4
        } else {
            State::Invalid
        },
        F4 => if class is CLowE {
            Ac
        } else {
            State::Invalid
        },
        N1 => if class is CLowU {
            N2
        } else {
            State::Invalid
        },
        N2 => if class is CLowL {
            N3
        } else {
            State::Invalid
        },
        N3 => if class is CLowL {
            Ac
        } else {
            State::Invalid
        },
        _ => State::Invalid,
    }
}

/// Looks up the class of a byte.
#[verifier::when_used_as_spec(spec_classify)]
pub fn classify(byte: u8) -> (class: Class)
    ensures
        class == spec_classify(byte),
{
    if byte >= 128 {
        CEtc
    } else {
        ASCII_CLASS[byte as usize]
    }
}

/// Looks up where `state` leads on `class`.
#[verifier::when_used_as_spec(spec_transition)]
pub fn transition(state: State, class: Class) -> (next: State)
    ensures
        next == spec_transition(state, class),
{
    let row: usize = state.index();
    let column: usize = class.index();
    if row < 31 && column < 31 {
        STATE_TRANSITION_TABLE[row][column]
    } else {
        State::Invalid
    }
}

} // verus!
