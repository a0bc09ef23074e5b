//! The interface that every predicate of a query offers to the evaluator.

use vstd::prelude::*;
use crate::entry::Entry;

verus! {

/// A predicate on entries.
///
/// The evaluator offers each entry it visits to its matchers, together with
/// the context `C` that all of them share. A matcher answers, and may leave
/// a record in the context. Both are fixed by the matcher, the entry and the
/// context as it was found.
pub trait Matcher<C> {
    /// What `matches` answers for `entry` when it finds `context`.
    spec fn accepts(&self, entry: &Entry, context: &C) -> bool;

    /// The context that `matches` leaves behind for `entry` when it finds
    /// `context`.
    spec fn leaves(&self, entry: &Entry, context: &C) -> C;

    /// Offers `file_info` to the matcher.
    fn matches(&self, file_info: &Entry, context: &mut C) -> (matched: bool)
        ensures
            matched == self.accepts(file_info, old(context)),
            *final(context) == self.leaves(file_info, old(context)),
    ;
}

} // verus!
