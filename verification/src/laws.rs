//! What holds of the automaton whatever it is fed.

use vstd::prelude::*;
use crate::automaton::{
    first_significant, is_blank_byte, leading_type, nested_arrays, nested_objects,
    opening_brackets, opening_member, opening_members, Automaton,
};
use crate::error::{Error, JsonType};
use crate::internals::{spec_classify, spec_transition, Mode, State};
use crate::scan::{all_plain, is_plain};

verus! {

/// The automaton before the first byte is in a reachable configuration.
pub proof fn lemma_start_inv(max_depth: nat)
    ensures
        Automaton::start(max_depth).inv(),
{
}

/// A byte leads from a reachable configuration to a reachable configuration.
pub proof fn lemma_feed_keeps_inv(a: Automaton, byte: u8)
    requires
        a.inv(),
    ensures
        a.feed(byte).inv(),
{
}

/// Bytes lead from a reachable configuration to a reachable configuration.
pub proof fn lemma_feed_all_keeps_inv(a: Automaton, bytes: Seq<u8>)
    requires
        a.inv(),
    ensures
        a.feed_all(bytes).inv(),
    decreases bytes.len(),
{
    if bytes.len() > 0 {
        lemma_feed_all_keeps_inv(a, bytes.drop_last());
        lemma_feed_keeps_inv(a.feed_all(bytes.drop_last()), bytes.last());
    }
}

/// To feed one run of bytes and then another is to feed the two as one.
pub proof fn lemma_feed_all_concat(a: Automaton, first: Seq<u8>, rest: Seq<u8>)
    ensures
        a.feed_all(first + rest) == a.feed_all(first).feed_all(rest),
    decreases rest.len(),
{
    if rest.len() == 0 {
        assert(first + rest =~= first);
    } else {
        lemma_feed_all_concat(a, first, rest.drop_last());
        assert((first + rest).drop_last() =~= first + rest.drop_last());
    }
}

/// To feed one byte is to feed the run that holds it alone.
pub proof fn lemma_feed_all_one(a: Automaton, byte: u8)
    ensures
        a.feed_all(seq![byte]) == a.feed(byte),
{
    reveal_with_fuel(Automaton::feed_all, 2);
    assert(seq![byte].drop_last() =~= Seq::<u8>::empty());
}

/// Failure is final: an automaton that holds an error is changed by no
/// byte, and every later question is answered with that error.
pub proof fn lemma_failure_is_final(a: Automaton, later: Seq<u8>)
    requires
        a.error is Some,
    ensures
        a.feed_all(later) == a,
        a.feed_all(later).status() == Err::<(), Error>(a.error.unwrap()),
        a.feed_all(later).outcome() == Err::<JsonType, Error>(a.error.unwrap()),
        a.feed_all(later).interrupted() == a,
    decreases later.len(),
{
    if later.len() > 0 {
        lemma_failure_is_final(a, later.drop_last());
    }
}

/// The plain bytes are the bytes that the grammar takes inside a string
/// without leaving the string state, and no others: every other byte ends the
/// string, begins an escape or is an error there.
pub proof fn lemma_plain_is_what_keeps_string(byte: u8)
    ensures
        is_plain(byte) <==> !(spec_classify(byte) is Invalid) && spec_transition(
            State::St,
            spec_classify(byte),
        ) == State::St,
{
}

/// Inside a string, plain bytes change nothing.
pub proof fn lemma_plain_bytes_keep_string(a: Automaton, bytes: Seq<u8>)
    requires
        a.error is None,
        a.state == State::St,
        all_plain(bytes),
    ensures
        a.feed_all(bytes) == a,
    decreases bytes.len(),
{
    if bytes.len() > 0 {
        lemma_plain_bytes_keep_string(a, bytes.drop_last());
        assert(is_plain(bytes[bytes.len() - 1]));
    }
}

/// To feed a run of bytes is to feed its first byte and then the others.
pub proof fn lemma_feed_all_first(a: Automaton, bytes: Seq<u8>)
    requires
        bytes.len() > 0,
    ensures
        a.feed_all(bytes) == a.feed(bytes[0]).feed_all(bytes.skip(1)),
{
    assert(bytes =~= seq![bytes[0]] + bytes.skip(1));
    lemma_feed_all_concat(a, seq![bytes[0]], bytes.skip(1));
    lemma_feed_all_one(a, bytes[0]);
}

/// The kind of the document is recorded once: no byte changes a kind that
/// is recorded.
pub proof fn lemma_outer_type_is_kept(a: Automaton, bytes: Seq<u8>)
    requires
        a.outer_type is Some,
    ensures
        a.feed_all(bytes).outer_type == a.outer_type,
    decreases bytes.len(),
{
    if bytes.len() > 0 {
        lemma_outer_type_is_kept(a, bytes.drop_last());
    }
}

/// A reachable configuration that accepts has the kind of the document
/// recorded, and the result of the check is that kind; one that does not
/// accept gives an error.
pub proof fn lemma_accepting_has_type(a: Automaton)
    requires
        a.inv(),
    ensures
        a.accepts() ==> a.outer_type is Some && a.outcome() == Ok::<JsonType, Error>(
            a.outer_type.unwrap(),
        ),
        !a.accepts() ==> a.outcome() is Err,
{
}

/// Whatever bytes a checker is given from the start, the check ends in one
/// of two ways: in the kind of the document, exactly when the automaton
/// accepts the bytes, or in an error.
pub proof fn lemma_accepted_document_has_type(max_depth: nat, bytes: Seq<u8>)
    ensures
        Automaton::start(max_depth).feed_all(bytes).accepts() <==> Automaton::start(
            max_depth,
        ).feed_all(bytes).outcome() is Ok,
        Automaton::start(max_depth).feed_all(bytes).accepts() ==> Automaton::start(
            max_depth,
        ).feed_all(bytes).outer_type is Some,
{
    lemma_feed_all_keeps_inv(Automaton::start(max_depth), bytes);
    lemma_accepting_has_type(Automaton::start(max_depth).feed_all(bytes));
}

/// The kind of an accepted document is told by its first byte that is not
/// blank.
pub proof fn lemma_type_is_told_by_first_byte(max_depth: nat, bytes: Seq<u8>)
    requires
        Automaton::start(max_depth).feed_all(bytes).accepts(),
    ensures
        first_significant(bytes) is Some,
        leading_type(first_significant(bytes).unwrap()) == Some(
            Automaton::start(max_depth).feed_all(bytes).outer_type.unwrap(),
        ),
        Automaton::start(max_depth).feed_all(bytes).outcome() == Ok::<JsonType, Error>(
            leading_type(first_significant(bytes).unwrap()).unwrap(),
        ),
    decreases bytes.len(),
{
    let start = Automaton::start(max_depth);
    lemma_accepted_document_has_type(max_depth, bytes);
    if bytes.len() > 0 {
        lemma_feed_all_first(start, bytes);
        let next = start.feed(bytes[0]);
        if is_blank_byte(bytes[0]) {
            assert(next == start);
            lemma_type_is_told_by_first_byte(max_depth, bytes.skip(1));
        } else if next.error is Some {
            lemma_failure_is_final(next, bytes.skip(1));
        } else {
            assert(next.outer_type == leading_type(bytes[0]));
            assert(next.outer_type is Some);
            lemma_outer_type_is_kept(next, bytes.skip(1));
        }
    }
}

/// Determinism: two checkers that were given the same bytes and both accept
/// them tell the same kind of document, whatever depth each may follow.
pub proof fn lemma_same_bytes_same_type(first_depth: nat, second_depth: nat, bytes: Seq<u8>)
    requires
        Automaton::start(first_depth).feed_all(bytes).accepts(),
        Automaton::start(second_depth).feed_all(bytes).accepts(),
    ensures
        Automaton::start(first_depth).feed_all(bytes).outcome() == Automaton::start(
            second_depth,
        ).feed_all(bytes).outcome(),
{
    lemma_type_is_told_by_first_byte(first_depth, bytes);
    lemma_type_is_told_by_first_byte(second_depth, bytes);
}

/// The stack never holds more than `max_depth` modes, but for the `Done`
/// that it begins with.
pub proof fn lemma_stack_is_bounded(max_depth: nat, bytes: Seq<u8>)
    ensures
        Automaton::start(max_depth).feed_all(bytes).stack.len() <= max_depth
            || Automaton::start(max_depth).feed_all(bytes).stack.len() == 1,
        Automaton::start(max_depth).feed_all(bytes).max_depth == max_depth,
{
    lemma_feed_all_keeps_inv(Automaton::start(max_depth), bytes);
    lemma_max_depth_is_kept(Automaton::start(max_depth), bytes);
}

/// No byte changes the bound on the stack.
pub proof fn lemma_max_depth_is_kept(a: Automaton, bytes: Seq<u8>)
    ensures
        a.feed_all(bytes).max_depth == a.max_depth,
    decreases bytes.len(),
{
    if bytes.len() > 0 {
        lemma_max_depth_is_kept(a, bytes.drop_last());
    }
}

/// Where a value may begin, an opening bracket or brace is taken if the
/// stack has room, and the stack grows by one mode; if it has none, the byte
/// is the error `MaxDepthReached`.
pub proof fn lemma_opening_takes_room(a: Automaton, byte: u8)
    requires
        a.error is None,
        byte == 0x5b || byte == 0x7b,
        a.state is Go || a.state is Va || a.state is Ar,
    ensures
        a.has_room() ==> a.feed(byte).error is None && a.feed(byte).stack == a.stack.push(
            if byte == 0x5b {
                Mode::Array
            } else {
                Mode::Key
            },
        ),
        !a.has_room() ==> a.feed(byte) == (Automaton {
            error: Some(Error::MaxDepthReached),
            ..a
        }),
{
}

/// The depth bound: a checker whose stack may hold `max_depth` modes
/// follows opening brackets `max_depth - 1` levels deep, and the next
/// bracket is the error `MaxDepthReached`.
pub proof fn lemma_depth_bound(max_depth: nat, n: nat)
    ensures
        n < max_depth ==> ({
            let a = Automaton::start(max_depth).feed_all(opening_brackets(n));
            &&& a.error is None
            &&& a.stack == nested_arrays(n)
            &&& a.state == (if n == 0 {
                State::Go
            } else {
                State::Ar
            })
        }),
        0 < n && max_depth <= n ==> Automaton::start(max_depth).feed_all(
            opening_brackets(n),
        ).error == Some(Error::MaxDepthReached),
    decreases n,
{
    let start = Automaton::start(max_depth);
    if n == 0 {
        assert(nested_arrays(0) =~= seq![Mode::Done]);
    } else {
        let shorter = (n - 1) as nat;
        lemma_depth_bound(max_depth, shorter);
        assert(opening_brackets(n).drop_last() =~= opening_brackets(shorter));
        let before = start.feed_all(opening_brackets(shorter));
        assert(start.feed_all(opening_brackets(n)) == before.feed(0x5b));
        if shorter < max_depth {
            assert(before.stack.len() == n);
            lemma_max_depth_is_kept(start, opening_brackets(shorter));
            if n < max_depth {
                assert(before.stack.push(Mode::Array) =~= nested_arrays(n));
            }
        }
    }
}

/// To feed the bytes `{"":` is to feed these four bytes one after the other.
pub proof fn lemma_feed_opening_member(a: Automaton)
    ensures
        a.feed_all(opening_member()) == a.feed(0x7b).feed(0x22).feed(0x22).feed(0x3a),
{
    let member = opening_member();
    reveal_with_fuel(Automaton::feed_all, 5);
    assert(member.drop_last() =~= seq![0x7bu8, 0x22u8, 0x22u8]);
    assert(member.drop_last().drop_last() =~= seq![0x7bu8, 0x22u8]);
    assert(member.drop_last().drop_last().drop_last() =~= seq![0x7bu8]);
    assert(member.drop_last().drop_last().drop_last().drop_last() =~= Seq::<u8>::empty());
}

/// The depth bound holds of objects as of arrays: a checker whose stack may
/// hold `max_depth` modes follows the bytes `{"":` `max_depth - 1` levels
/// deep, and the next opening brace is the error `MaxDepthReached`.
pub proof fn lemma_depth_bound_of_objects(max_depth: nat, n: nat)
    ensures
        n < max_depth ==> ({
            let a = Automaton::start(max_depth).feed_all(opening_members(n));
            &&& a.error is None
            &&& a.stack == nested_objects(n)
            &&& a.state == (if n == 0 {
                State::Go
            } else {
                State::Va
            })
        }),
        0 < n && max_depth <= n ==> Automaton::start(max_depth).feed_all(
            opening_members(n),
        ).error == Some(Error::MaxDepthReached),
    decreases n,
{
    let start = Automaton::start(max_depth);
    if n == 0 {
        assert(nested_objects(0) =~= seq![Mode::Done]);
    } else {
        let shorter = (n - 1) as nat;
        lemma_depth_bound_of_objects(max_depth, shorter);
        let before = start.feed_all(opening_members(shorter));
        lemma_feed_all_concat(start, opening_members(shorter), opening_member());
        lemma_feed_opening_member(before);
        lemma_max_depth_is_kept(start, opening_members(shorter));
        if shorter < max_depth {
            assert(before.stack.len() == n);
            if n < max_depth {
                let opened = before.feed(0x7b);
                assert(opened.stack == before.stack.push(Mode::Key));
                assert(opened.stack.drop_last() =~= before.stack);
                assert(before.stack.push(Mode::Object) =~= nested_objects(n));
            }
        }
    }
}

/// Three kinds of error are kept for configurations that no input leads
/// to. A checker that is fed from the start never answers with
/// `EmptyCurlyBraces`, `InvalidQuote` or `InvalidColon`: where the grammar
/// lets `}` follow `{`, or a colon follow a key, the stack holds the `Key`
/// that the brace or colon asks for, and the stack is never empty.
pub proof fn lemma_errors_that_never_occur(max_depth: nat, bytes: Seq<u8>)
    ensures
        Automaton::start(max_depth).feed_all(bytes).error != Some(Error::EmptyCurlyBraces),
        Automaton::start(max_depth).feed_all(bytes).error != Some(Error::InvalidQuote),
        Automaton::start(max_depth).feed_all(bytes).error != Some(Error::InvalidColon),
    decreases bytes.len(),
{
    if bytes.len() > 0 {
        lemma_errors_that_never_occur(max_depth, bytes.drop_last());
        lemma_feed_all_keeps_inv(Automaton::start(max_depth), bytes.drop_last());
    }
}

/// A wider bound on the stack changes nothing, unless the narrower bound
/// was reached: as long as the automaton has not failed with
/// `MaxDepthReached`, it is, but for the bound, what it would be under any
/// wider bound.
pub proof fn lemma_wider_bound_changes_nothing(a: Automaton, wider: nat, bytes: Seq<u8>)
    requires
        a.inv(),
        a.max_depth <= wider,
    ensures
        a.feed_all(bytes).error != Some(Error::MaxDepthReached) ==> a.with_bound(wider).feed_all(
            bytes,
        ) == a.feed_all(bytes).with_bound(wider),
    decreases bytes.len(),
{
    if bytes.len() > 0 {
        lemma_wider_bound_changes_nothing(a, wider, bytes.drop_last());
        lemma_feed_all_keeps_inv(a, bytes.drop_last());
        lemma_max_depth_is_kept(a, bytes.drop_last());
        lemma_wider_bound_changes_no_step(a.feed_all(bytes.drop_last()), wider, bytes.last());
    }
}

/// One byte under a wider bound: see `lemma_wider_bound_changes_nothing`.
pub proof fn lemma_wider_bound_changes_no_step(a: Automaton, wider: nat, byte: u8)
    requires
        a.inv(),
        a.max_depth <= wider,
    ensures
        a.feed(byte).error != Some(Error::MaxDepthReached) ==> a.with_bound(wider).feed(byte)
            == a.feed(byte).with_bound(wider),
{
}

/// The bound on the nesting forbids and does nothing else: the result of a
/// check under a bound is the result under any wider bound, or else the error
/// `MaxDepthReached`.
pub proof fn lemma_bound_only_forbids(max_depth: nat, wider: nat, bytes: Seq<u8>)
    requires
        max_depth <= wider,
    ensures
        Automaton::start(max_depth).feed_all(bytes).outcome() == Automaton::start(wider).feed_all(
            bytes,
        ).outcome() || Automaton::start(max_depth).feed_all(bytes).outcome() == Err::<
            JsonType,
            Error,
        >(Error::MaxDepthReached),
{
    lemma_wider_bound_changes_nothing(Automaton::start(max_depth), wider, bytes);
    assert(Automaton::start(max_depth).with_bound(wider) == Automaton::start(wider));
}

} // verus!
