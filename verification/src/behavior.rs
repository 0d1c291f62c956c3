//! The specification-level account of what one unit of work may do: which
//! progress messages it emits and which outcome it returns, and how those
//! accounts combine under sequential composition.

use vstd::prelude::*;

verus! {

/// The outcome of one computation: success, or failure with its cause.
pub type Outcome = Result<(), Seq<char>>;

/// What one computation may do: a relation between the sequence of progress
/// messages it emits (in order) and the outcome it returns.  A behavior is a
/// relation, not a function, because a computation may act differently from
/// one run to the next (it may wait on a process, inspect the file system,
/// and so on).
pub type Behavior = spec_fn(Seq<Seq<char>>, Outcome) -> bool;

/// The outcome, at the specification level, of an executable result.
pub open spec fn outcome_of(r: Result<(), String>) -> Outcome {
    match r {
        Ok(()) => Ok(()),
        Err(cause) => Err(cause@),
    }
}

/// The behavior of the do-nothing computation: no message, immediate success.
pub open spec fn noop_behavior() -> Behavior {
    |emitted: Seq<Seq<char>>, r: Outcome| emitted.len() == 0 && r is Ok
}

/// The behavior of a computation that emits exactly one fixed message and
/// then succeeds.
pub open spec fn message_behavior(m: Seq<char>) -> Behavior {
    |emitted: Seq<Seq<char>>, r: Outcome| emitted == seq![m] && r is Ok
}

/// The behavior of a computation that emits nothing and fails with a fixed
/// cause.
pub open spec fn fail_behavior(cause: Seq<char>) -> Behavior {
    |emitted: Seq<Seq<char>>, r: Outcome| emitted.len() == 0 && r == Err::<(), Seq<char>>(cause)
}

/// The behavior of running `a` and then, only if it succeeded, `b`: either
/// `a` failed, all messages are `a`'s and the cause is `a`'s, or `a`
/// succeeded after an initial segment of the messages and `b` accounts for
/// the remaining messages and the final outcome.
pub open spec fn then_behavior(a: Behavior, b: Behavior) -> Behavior {
    |emitted: Seq<Seq<char>>, r: Outcome|
        {
            ||| (r is Err && a(emitted, r))
            ||| (exists|i: int|
                0 <= i <= emitted.len() && #[trigger] a(emitted.take(i), Ok(())) && b(
                    emitted.skip(i),
                    r,
                ))
        }
}

/// Take and skip commute with each other across a split point: cutting a
/// prefix of length `i` and then splitting it at `j` gives the same pieces
/// as splitting the whole sequence at `j` and `i`.
proof fn lemma_take_skip_algebra(e: Seq<Seq<char>>, j: int, i: int)
    requires
        0 <= j <= i <= e.len(),
    ensures
        e.take(i).take(j) == e.take(j),
        e.take(i).skip(j) == e.skip(j).take(i - j),
        e.skip(j).skip(i - j) == e.skip(i),
{
    assert(e.take(i).take(j) =~= e.take(j));
    assert(e.take(i).skip(j) =~= e.skip(j).take(i - j));
    assert(e.skip(j).skip(i - j) =~= e.skip(i));
}

/// The do-nothing behavior is a two-sided identity for sequential
/// composition: composing it before or after any behavior `b` gives
/// exactly `b` again, so the composite admits the same message sequences
/// and outcomes as `b` alone.
pub proof fn lemma_noop_identity(b: Behavior)
    ensures
        then_behavior(noop_behavior(), b) == b,
        then_behavior(b, noop_behavior()) == b,
{
    let left = then_behavior(noop_behavior(), b);
    let right = then_behavior(b, noop_behavior());
    assert forall|e: Seq<Seq<char>>, r: Outcome| #[trigger] left(e, r) <==> b(e, r) by {
        assert(e.skip(0) =~= e);
        if left(e, r) {
            if !(r is Err && noop_behavior()(e, r)) {
                let i = choose|i: int|
                    0 <= i <= e.len() && #[trigger] noop_behavior()(e.take(i), Ok(())) && b(
                        e.skip(i),
                        r,
                    );
                assert(e.take(i).len() == i);
            }
        }
        if b(e, r) {
            assert(noop_behavior()(e.take(0), Ok(())));
        }
    }
    assert(left =~= b);
    assert forall|e: Seq<Seq<char>>, r: Outcome| #[trigger] right(e, r) <==> b(e, r) by {
        let n = e.len() as int;
        assert(e.take(n) =~= e);
        if right(e, r) {
            if !(r is Err && b(e, r)) {
                let i = choose|i: int|
                    0 <= i <= e.len() && #[trigger] b(e.take(i), Ok(())) && noop_behavior()(
                        e.skip(i),
                        r,
                    );
                assert(e.skip(i).len() == e.len() - i);
            }
        }
        if b(e, r) && r is Ok {
            match r {
                Ok(u) => {
                    assert(u == ());
                    assert(r == Ok::<(), Seq<char>>(()));
                },
                Err(_) => {},
            }
            assert(b(e.take(n), Ok(())));
            assert(noop_behavior()(e.skip(n), Ok(())));
        }
    }
    assert(right =~= b);
}

/// One direction of associativity: an instance of `(a; b); c` is an
/// instance of `a; (b; c)`.
proof fn lemma_then_assoc_forward(
    a: Behavior,
    b: Behavior,
    c: Behavior,
    e: Seq<Seq<char>>,
    r: Outcome,
)
    requires
        then_behavior(then_behavior(a, b), c)(e, r),
    ensures
        then_behavior(a, then_behavior(b, c))(e, r),
{
    let ab = then_behavior(a, b);
    let bc = then_behavior(b, c);
    if r is Err && ab(e, r) {
        if !(r is Err && a(e, r)) {
            let i = choose|i: int|
                0 <= i <= e.len() && #[trigger] a(e.take(i), Ok(())) && b(e.skip(i), r);
            assert(bc(e.skip(i), r));
        }
    } else {
        let i = choose|i: int|
            0 <= i <= e.len() && #[trigger] ab(e.take(i), Ok(())) && c(e.skip(i), r);
        let et = e.take(i);
        let j = choose|j: int|
            0 <= j <= et.len() && #[trigger] a(et.take(j), Ok(())) && b(et.skip(j), Ok(()));
        lemma_take_skip_algebra(e, j, i);
        assert(a(e.take(j), Ok(())));
        assert(b(e.skip(j).take(i - j), Ok(())));
        assert(c(e.skip(j).skip(i - j), r));
        assert(0 <= i - j <= e.skip(j).len());
        assert(bc(e.skip(j), r));
    }
}

/// The other direction of associativity: an instance of `a; (b; c)` is an
/// instance of `(a; b); c`.
proof fn lemma_then_assoc_backward(
    a: Behavior,
    b: Behavior,
    c: Behavior,
    e: Seq<Seq<char>>,
    r: Outcome,
)
    requires
        then_behavior(a, then_behavior(b, c))(e, r),
    ensures
        then_behavior(then_behavior(a, b), c)(e, r),
{
    let ab = then_behavior(a, b);
    let bc = then_behavior(b, c);
    if r is Err && a(e, r) {
        assert(ab(e, r));
    } else {
        let j = choose|j: int|
            0 <= j <= e.len() && #[trigger] a(e.take(j), Ok(())) && bc(e.skip(j), r);
        let es = e.skip(j);
        if r is Err && b(es, r) {
            assert(ab(e, r));
        } else {
            let k = choose|k: int|
                0 <= k <= es.len() && #[trigger] b(es.take(k), Ok(())) && c(es.skip(k), r);
            lemma_take_skip_algebra(e, j, j + k);
            assert(a(e.take(j + k).take(j), Ok(())));
            assert(b(e.take(j + k).skip(j), Ok(())));
            assert(ab(e.take(j + k), Ok(())));
            assert(c(e.skip(j + k), r));
        }
    }
}

/// Sequential composition is associative: composing three behaviors in
/// either grouping admits exactly the same message sequences and the same
/// final outcomes.
pub proof fn lemma_then_associative(a: Behavior, b: Behavior, c: Behavior)
    ensures
        then_behavior(then_behavior(a, b), c) == then_behavior(a, then_behavior(b, c)),
{
    let lhs = then_behavior(then_behavior(a, b), c);
    let rhs = then_behavior(a, then_behavior(b, c));
    assert forall|e: Seq<Seq<char>>, r: Outcome| #[trigger] lhs(e, r) <==> #[trigger] rhs(e, r) by {
        if lhs(e, r) {
            lemma_then_assoc_forward(a, b, c, e, r);
        }
        if rhs(e, r) {
            lemma_then_assoc_backward(a, b, c, e, r);
        }
    }
    assert(lhs =~= rhs);
}

/// Fail-fast, first stage: if `a` admits only failures, then every
/// instance of `a; b` is an instance of `a` itself — the composite fails
/// with `a`'s cause, all messages are `a`'s, and `b` contributes nothing.
pub proof fn lemma_then_first_fails(a: Behavior, b: Behavior, e: Seq<Seq<char>>, r: Outcome)
    requires
        forall|e2: Seq<Seq<char>>, r2: Outcome| #[trigger] a(e2, r2) ==> r2 is Err,
        then_behavior(a, b)(e, r),
    ensures
        r is Err,
        a(e, r),
{
    if !(r is Err && a(e, r)) {
        let i = choose|i: int|
            0 <= i <= e.len() && #[trigger] a(e.take(i), Ok(())) && b(e.skip(i), r);
        assert(false);
    }
}

/// Fail-fast, second stage: if `a` admits only successes and `a; b`
/// failed, then the failure and its cause are `b`'s, and the messages
/// split so that everything `a` emitted comes before everything `b`
/// emitted.
pub proof fn lemma_then_second_fails(a: Behavior, b: Behavior, e: Seq<Seq<char>>, r: Outcome)
    requires
        forall|e2: Seq<Seq<char>>, r2: Outcome| #[trigger] a(e2, r2) ==> r2 is Ok,
        then_behavior(a, b)(e, r),
        r is Err,
    ensures
        exists|i: int| 0 <= i <= e.len() && #[trigger] a(e.take(i), Ok(())) && b(e.skip(i), r),
{
    if r is Err && a(e, r) {
        assert(r is Ok);
    }
}

} // verus!
