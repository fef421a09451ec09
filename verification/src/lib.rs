//! A checker of JSON syntax for streams of bytes.
//!
//! The checker keeps nothing of the document in memory: it is a pushdown
//! automaton that is given one byte at a time and holds only its current
//! state and the structures that are open. It says at the first byte that
//! cannot belong to a JSON document what is wrong with it, and at the end of
//! the stream whether the bytes were one whole document, and of which kind:
//! any JSON value is taken for a document, a single string or number as well
//! as an array or object.
//!
//! - `internals` holds the classes of bytes, the states and the transition
//!   table, each with the function it tabulates;
//! - `automaton` states what the checker does as a mathematical model;
//! - `checker` is the checker itself, `JsonChecker`, with `validate_bytes` and
//!   `validate_str` for a document that is in memory as a whole;
//! - `scan` finds the runs of bytes inside strings that need no processing;
//! - `laws` proves what holds of the checker whatever it is fed;
//! - `error` names the kinds of document and of error.

pub mod automaton;
pub mod checker;
pub mod error;
pub mod internals;
pub mod laws;
pub mod scan;

pub use crate::checker::{validate_bytes, validate_str, JsonChecker};
pub use crate::error::{Error, JsonType};
