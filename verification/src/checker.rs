//! The checker: the automaton in executable form, fed one byte at a time.

use vstd::prelude::*;
use crate::automaton::{spec_validate, Automaton};
use crate::error::{Error, JsonType};
use crate::internals::{classify, transition, Class, Mode, State};
use crate::laws::{
    lemma_failure_is_final, lemma_feed_all_concat, lemma_feed_keeps_inv,
    lemma_plain_bytes_keep_string,
};
use crate::scan::{is_plain_chunk, LANES};
use vstd::slice::slice_subrange;
use vstd::string::StringSliceAdditionalSpecFns;

verus! {

/// A JSON checker. It is given the bytes of a document in order, and says at
/// the first byte that cannot belong to a document what is wrong with it;
/// `finish` then tells whether the bytes given were a whole document, and of
/// which kind. It keeps the current state and the open structures, and carries
/// the value `reader` along untouched, for whoever feeds it from a source.
///
/// Once an error has been met the checker is spent: it answers every further
/// call with that error.
pub struct JsonChecker<R> {
    state: State,
    error: Option<Error>,
    outer_type: Option<JsonType>,
    max_depth: usize,
    stack: Vec<Mode>,
    reader: R,
}

impl<R> JsonChecker<R> {
    /// The configuration of the automaton that this checker is in.
    pub closed spec fn view(&self) -> Automaton {
        Automaton {
            state: self.state,
            stack: self.stack@,
            error: self.error,
            outer_type: self.outer_type,
            max_depth: self.max_depth as nat,
        }
    }

    /// The value that the checker carries along.
    pub closed spec fn inner(&self) -> R {
        self.reader
    }

    /// A checker is well formed when its configuration is one that the
    /// automaton can reach.
    pub open spec fn wf(&self) -> bool {
        self@.inv()
    }

    /// A checker at the start of a document, with no bound on the nesting but
    /// the machine's.
    pub fn new(reader: R) -> (checker: JsonChecker<R>)
        ensures
            checker.wf(),
            checker@ == Automaton::start(usize::MAX as nat),
            checker.inner() == reader,
    {
        JsonChecker::with_max_depth(reader, usize::MAX)
    }

    /// A checker at the start of a document whose stack holds at most
    /// `max_depth` modes, the `Done` at its bottom among them: it follows a
    /// document through `max_depth - 1` levels of nesting and no further.
    pub fn with_max_depth(reader: R, max_depth: usize) -> (checker: JsonChecker<R>)
        ensures
            checker.wf(),
            checker@ == Automaton::start(max_depth as nat),
            checker.inner() == reader,
    {
        let checker = JsonChecker {
            state: State::Go,
            error: None,
            outer_type: None,
            max_depth,
            stack: vec![Mode::Done],
            reader,
        };
        assert(checker@.stack =~= seq![Mode::Done]);
        checker
    }

    /// The innermost open structure.
    fn top(&self) -> (mode: Option<Mode>)
        ensures
            mode == self@.top(),
    {
        let depth: usize = self.stack.len();
        if depth == 0 {
            None
        } else {
            Some(self.stack[depth - 1])
        }
    }

    /// Pushes a mode onto the stack, unless the stack is full; says whether
    /// it did.
    fn push(&mut self, mode: Mode) -> (pushed: bool)
        ensures
            pushed == old(self)@.has_room(),
            pushed ==> final(self)@ == old(self)@.pushed(mode),
            !pushed ==> final(self)@ == old(self)@,
            final(self).inner() == old(self).inner(),
    {
        if self.stack.len() >= self.max_depth {
            return false;
        }
        self.stack.push(mode);
        true
    }

    /// Pops the stack if `mode` is on top of it; says whether it did.
    fn pop(&mut self, mode: Mode) -> (popped: bool)
        ensures
            popped == (old(self)@.top() == Some(mode)),
            popped ==> final(self)@ == old(self)@.popped(),
            !popped ==> final(self)@ == old(self)@,
            final(self).inner() == old(self).inner(),
    {
        if self.top() == Some(mode) {
            self.stack.pop();
            true
        } else {
            false
        }
    }

    /// Puts `to` in the place of `from` on top of the stack, if `from` is
    /// there and the stack, once popped, has room; says whether it did.
    fn flip(&mut self, from: Mode, to: Mode) -> (flipped: bool)
        ensures
            flipped == (old(self)@.top() == Some(from) && old(self)@.popped().has_room()),
            flipped ==> final(self)@ == old(self)@.popped().pushed(to),
            !flipped ==> final(self)@ == old(self)@,
            final(self).inner() == old(self).inner(),
    {
        if self.stack.len() > self.max_depth {
            return false;
        }
        self.pop(from) && self.push(to)
    }

    /// Takes one byte into a checker that holds no error. On an error the
    /// checker is left as it was.
    fn advance(&mut self, next_byte: u8) -> (result: Result<(), Error>)
        requires
            old(self)@.error is None,
        ensures
            match old(self)@.advance(next_byte) {
                Ok(next) => result is Ok && final(self)@ == next,
                Err(error) => result == Err::<(), Error>(error) && final(self)@ == old(self)@,
            },
            final(self).inner() == old(self).inner(),
    {
        // Determine the character's class.
        let next_class = classify(next_byte);
        if next_class == Class::Invalid {
            return Err(Error::InvalidCharacter);
        }
        // Get the next state from the state transition table and perform one
        // of the actions.
        let next_state = transition(self.state, next_class);
        match next_state {
            State::Wec => {
                // Empty }
                if !self.pop(Mode::Key) {
                    return Err(Error::EmptyCurlyBraces);
                }
                self.state = State::Ac;
            },
            State::Wcu => {
                // }
                if !self.pop(Mode::Object) {
                    return Err(Error::OrphanCurlyBrace);
                }
                self.state = State::Ac;
            },
            State::Ws => {
                // ]
                if !self.pop(Mode::Array) {
                    return Err(Error::OrphanSquareBrace);
                }
                self.state = State::Ac;
            },
            State::Woc => {
                // {
                if !self.push(Mode::Key) {
                    return Err(Error::MaxDepthReached);
                }
                self.state = State::Ob;
            },
            State::Wos => {
                // [
                if !self.push(Mode::Array) {
                    return Err(Error::MaxDepthReached);
                }
                self.state = State::Ar;
            },
            State::Wq => {
                // "
                match self.top() {
                    Some(Mode::Done) => {
                        if !self.push(Mode::String) {
                            return Err(Error::MaxDepthReached);
                        }
                        self.state = State::St;
                    },
                    Some(Mode::String) => {
                        self.pop(Mode::String);
                        self.state = State::Ac;
                    },
                    Some(Mode::Key) => {
                        self.state = State::Co;
                    },
                    Some(Mode::Array) | Some(Mode::Object) => {
                        self.state = State::Ac;
                    },
                    None => {
                        return Err(Error::InvalidQuote);
                    },
                }
            },
            State::Wcm => {
                // ,
                match self.top() {
                    Some(Mode::Object) => {
                        // A comma causes a flip from object mode to key mode.
                        if !self.flip(Mode::Object, Mode::Key) {
                            return Err(Error::InvalidComma);
                        }
                        self.state = State::Ke;
                    },
                    Some(Mode::Array) => {
                        self.state = State::Va;
                    },
                    _ => {
                        return Err(Error::InvalidComma);
                    },
                }
            },
            State::Wcl => {
                // :
                // A colon causes a flip from key mode to object mode.
                if !self.flip(Mode::Key, Mode::Object) {
                    return Err(Error::InvalidColon);
                }
                self.state = State::Va;
            },
            State::Invalid => {
                return Err(Error::InvalidState);
            },
            // Or change the state.
            state => {
                self.state = state;
            },
        }
        // Save the type we met if not already saved.
        if self.outer_type.is_none() {
            match next_state {
                State::N1 => {
                    self.outer_type = Some(JsonType::Null);
                },
                State::T1 | State::F1 => {
                    self.outer_type = Some(JsonType::Bool);
                },
                State::Mi | State::Ze | State::In => {
                    self.outer_type = Some(JsonType::Number);
                },
                State::Wq => {
                    self.outer_type = Some(JsonType::String);
                },
                State::Wos => {
                    self.outer_type = Some(JsonType::Array);
                },
                State::Woc => {
                    self.outer_type = Some(JsonType::Object);
                },
                _ => {},
            }
        }
        Ok(())
    }

    /// Gives the checker the next byte of the document. A checker that holds
    /// an error answers with it and does nothing; one that meets an error in
    /// this byte keeps it, and answers with it from now on.
    pub fn next_byte(&mut self, next_byte: u8) -> (result: Result<(), Error>)
        ensures
            final(self)@ == old(self)@.feed(next_byte),
            old(self).wf() ==> final(self).wf(),
            result == final(self)@.status(),
            final(self).inner() == old(self).inner(),
    {
        if let Some(error) = self.error {
            return Err(error);
        }
        // By keeping the error met we fuse the checker: it cannot be used
        // past an invalid byte.
        if let Err(error) = self.advance(next_byte) {
            self.error = Some(error);
            return Err(error);
        }
        proof {
            if old(self).wf() {
                lemma_feed_keeps_inv(old(self)@, next_byte);
            }
        }
        Ok(())
    }

    /// Gives the checker the bytes of `bytes` in order, which comes to the
    /// same as giving them one by one, and stops at the first that is an
    /// error. A checker that holds an error answers with it and does nothing.
    /// The bytes are taken eight at a time: eight plain bytes inside a string
    /// are passed over together, all others go through `next_byte`.
    pub fn next_bytes(&mut self, bytes: &[u8]) -> (result: Result<(), Error>)
        ensures
            final(self)@ == old(self)@.feed_all(bytes@),
            old(self).wf() ==> final(self).wf(),
            result == final(self)@.status(),
            final(self).inner() == old(self).inner(),
    {
        if let Some(error) = self.error {
            proof {
                lemma_failure_is_final(self@, bytes@);
            }
            return Err(error);
        }
        let mut start: usize = 0;
        while start < bytes.len()
            invariant
                start <= bytes@.len(),
                old(self).wf() ==> self.wf(),
                self@ == old(self)@.feed_all(bytes@.take(start as int)),
                self@.error is None,
                self.inner() == old(self).inner(),
            decreases bytes@.len() - start,
        {
            let end: usize = if bytes.len() - start >= LANES {
                start + LANES
            } else {
                bytes.len()
            };
            let chunk = slice_subrange(bytes, start, end);
            proof {
                assert(bytes@.take(end as int) =~= bytes@.take(start as int) + chunk@);
                lemma_feed_all_concat(old(self)@, bytes@.take(start as int), chunk@);
            }
            if chunk.len() == LANES && self.state == State::St && is_plain_chunk(chunk) {
                // None of these bytes ends or escapes the string, so none of
                // them changes the state: they need no processing at all.
                proof {
                    lemma_plain_bytes_keep_string(self@, chunk@);
                }
            } else {
                let ghost before = self@;
                let mut i: usize = 0;
                while i < chunk.len()
                    invariant
                        i <= chunk@.len(),
                        old(self).wf() ==> self.wf(),
                        self@ == before.feed_all(chunk@.take(i as int)),
                        self@.error is None,
                        self.inner() == old(self).inner(),
                        before.feed_all(chunk@) == old(self)@.feed_all(bytes@.take(end as int)),
                        end <= bytes@.len(),
                    decreases chunk@.len() - i,
                {
                    let fed = self.next_byte(chunk[i]);
                    proof {
                        assert(chunk@.take(i + 1).drop_last() =~= chunk@.take(i as int));
                    }
                    if let Err(error) = fed {
                        proof {
                            // What is left of the chunk, and of the bytes
                            // after it, changes nothing any more.
                            assert(chunk@ =~= chunk@.take(i + 1) + chunk@.skip(i + 1));
                            lemma_feed_all_concat(before, chunk@.take(i + 1), chunk@.skip(i + 1));
                            lemma_failure_is_final(self@, chunk@.skip(i + 1));
                            assert(bytes@ =~= bytes@.take(end as int) + bytes@.skip(end as int));
                            lemma_feed_all_concat(
                                old(self)@,
                                bytes@.take(end as int),
                                bytes@.skip(end as int),
                            );
                            lemma_failure_is_final(self@, bytes@.skip(end as int));
                        }
                        return Err(error);
                    }
                    i += 1;
                }
                assert(chunk@.take(i as int) =~= chunk@);
            }
            start = end;
        }
        assert(bytes@.take(start as int) =~= bytes@);
        Ok(())
    }

    /// The error that the checker holds, if it holds one.
    pub fn status(&self) -> (result: Result<(), Error>)
        ensures
            result == self@.status(),
    {
        match self.error {
            Some(error) => Err(error),
            None => Ok(()),
        }
    }

    /// Tells the checker that its source of bytes has failed. The checker is
    /// spent from then on: unless it holds an error already, it holds
    /// `IncompleteElement`. The failure of the source itself is for the caller
    /// to report.
    pub fn interrupt(&mut self)
        ensures
            final(self)@ == old(self)@.interrupted(),
            old(self).wf() ==> final(self).wf(),
            final(self).inner() == old(self).inner(),
    {
        if self.error.is_none() {
            self.error = Some(Error::IncompleteElement);
        }
    }

    /// The value that the checker carries along, to read from or write to.
    pub fn get_mut(&mut self) -> (reader: &mut R)
        ensures
            *reader == old(self).inner(),
            final(self).inner() == *final(reader),
            final(self)@ == old(self)@,
    {
        &mut self.reader
    }

    /// Ends the check: the kind of the document, if the bytes given were a
    /// whole document; the error held, if there is one; `IncompleteElement`
    /// otherwise.
    pub fn finish(self) -> (result: Result<JsonType, Error>)
        ensures
            result == self@.outcome(),
    {
        match self.into_inner() {
            Ok((_, outer_type)) => Ok(outer_type),
            Err(error) => Err(error),
        }
    }

    /// Ends the check as `finish` does, and hands back the value that the
    /// checker carried along with the kind of the document.
    pub fn into_inner(self) -> (result: Result<(R, JsonType), Error>)
        ensures
            match result {
                Ok((reader, outer_type)) => reader == self.inner() && self@.outcome() == Ok::<
                    JsonType,
                    Error,
                >(outer_type),
                Err(error) => self@.outcome() == Err::<JsonType, Error>(error),
            },
    {
        let mut checker = self;
        if let Some(error) = checker.error {
            return Err(error);
        }
        let is_state_final = match checker.state {
            State::Ac | State::In | State::Fr | State::Fs | State::E3 => true,
            _ => false,
        };
        if is_state_final && checker.stack.len() == 1 && checker.pop(Mode::Done) {
            assert(self@.stack =~= seq![Mode::Done]);
            if let Some(outer_type) = checker.outer_type {
                return Ok((checker.reader, outer_type));
            }
        }
        // This method consumes the checker, so there is no one left to keep
        // the error for.
        Err(Error::IncompleteElement)
    }
}

/// Checks that `bytes` are one JSON document, and tells its kind.
pub fn validate_bytes(bytes: &[u8]) -> (result: Result<JsonType, Error>)
    ensures
        result == spec_validate(bytes@),
{
    let mut checker = JsonChecker::new(());
    checker.next_bytes(bytes)?;
    checker.finish()
}

/// Checks that `string` is one JSON document, and tells its kind.
pub fn validate_str(string: &str) -> (result: Result<JsonType, Error>)
    ensures
        result == spec_validate(string.spec_bytes()),
{
    validate_bytes(string.as_bytes())
}

} // verus!
