//! Instants and spans, counted in nanoseconds.

use vstd::prelude::*;

verus! {

/// A point in time, as nanoseconds relative to the Unix epoch.
#[derive(Clone, Copy, Debug, PartialEq, Eq, Structural)]
pub struct Timestamp {
    pub nanos: i128,
}

/// A non-negative length of time in nanoseconds.
#[derive(Clone, Copy, Debug, PartialEq, Eq, Structural)]
pub struct Span {
    pub nanos: u128,
}

/// The time elapsed from `then` to `now`, or `None` when `then` lies after `now`.
pub open spec fn elapsed(now: Timestamp, then: Timestamp) -> Option<nat> {
    if then.nanos <= now.nanos {
        Some((now.nanos - then.nanos) as nat)
    } else {
        None
    }
}

/// The age rule: what was modified no later than `now` and no longer than
/// `keep_since` ago is kept.
pub open spec fn kept_by_age(now: Timestamp, modified: Timestamp, keep_since: Span) -> bool {
    modified.nanos <= now.nanos && now.nanos - modified.nanos <= keep_since.nanos
}

/// Time elapsed between two instants; `None` when `then` is in the future of `now`.
pub fn elapsed_since(now: Timestamp, then: Timestamp) -> (age: Option<Span>)
    ensures
        age is Some <==> elapsed(now, then) is Some,
        age is Some ==> age.unwrap().nanos == elapsed(now, then).unwrap(),
{
    if then.nanos > now.nanos {
        None
    } else if then.nanos >= 0 || now.nanos < 0 {
        let d: i128 = now.nanos - then.nanos;
        Some(Span { nanos: d as u128 })
    } else {
        // then < 0 <= now: the difference may exceed i128, but never u128.
        let below: i128 = -(then.nanos + 1);
        let d: u128 = (now.nanos as u128) + (below as u128) + 1u128;
        Some(Span { nanos: d })
    }
}

/// Decides the age rule for one modification time.
pub fn is_recent(now: Timestamp, modified: Timestamp, keep_since: Span) -> (b: bool)
    ensures
        b == kept_by_age(now, modified, keep_since),
{
    match elapsed_since(now, modified) {
        Some(age) => age.nanos <= keep_since.nanos,
        None => false,
    }
}

} // verus!
