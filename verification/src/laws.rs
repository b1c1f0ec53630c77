//! The ordering and precedence laws of the simulator, stated over the models
//! that the dispatcher's contracts use and proved once and for all.

use vstd::prelude::*;

use crate::expectation::ExpectedSyscall;
use crate::expectation::command_return;
use crate::expectation::subscribe_return;
use crate::expectation::yield_no_wait_return;
use crate::upcall::PendingUpcall;
use crate::upcall::first_ready;
use crate::upcall::has_ready;

verus! {

/// Law (FIFO consumption): expectations are consumed strictly front to back.
/// Every dispatched syscall replaces the queue by its tail, so after `i`
/// calls against a queue seeded with `s` the queue holds `s` without its
/// first `i` records: the `i`-th call observed `s[i]`, fewer calls than
/// records leave the queue non-empty and detectably so, and one call more
/// than records meets an empty queue, which every dispatcher entry point
/// reports as a violation.
pub proof fn lemma_fifo_consumption(s: Seq<ExpectedSyscall>, i: int)
    requires
        0 <= i <= s.len(),
    ensures
        s.skip(i).len() == s.len() - i,
        i < s.len() ==> s.skip(i)[0] == s[i],
        i < s.len() ==> s.skip(i).drop_first() == s.skip(i + 1),
{
    if i < s.len() {
        assert(s.skip(i).drop_first() =~= s.skip(i + 1));
    }
}

/// Law (override precedence): when an expectation carries an override for
/// its return value, the dispatched call returns exactly that override,
/// regardless of any other condition; for a non-blocking yield in
/// particular, regardless of whether an upcall was delivered.
pub proof fn lemma_override_precedence(e: ExpectedSyscall)
    ensures
        e matches ExpectedSyscall::Command { override_return: Some(o), .. } ==> command_return(e)
            == o,
        e matches ExpectedSyscall::Subscribe { override_return: Some(o), .. } ==> subscribe_return(
            e,
        ) == o,
        e matches ExpectedSyscall::YieldNoWait { override_return: Some(o) } ==> forall|ran: bool|
            #[trigger] yield_no_wait_return(e, ran) == o,
{
}

/// Law (upcall cardinality): with exactly one pending upcall, ready, a
/// delivering yield selects exactly that one, and its removal leaves the
/// registry empty, with nothing ready for a later delivering yield.
pub proof fn lemma_upcall_cardinality(s: Seq<PendingUpcall>)
    requires
        s.len() == 1,
        s[0].ready,
    ensures
        has_ready(s),
        first_ready(s) == 0,
        s.remove(0).len() == 0,
        !has_ready(s.remove(0)),
{
}

} // verus!
