//! What a conditional transaction means, and what the builder guarantees
//! about the transactions it assembles.
//!
//! The store judges each predicate against its own state; here that judgement
//! is an arbitrary function from predicates to truth values, so that every
//! statement holds whatever the state of the store is.

use crate::kv::KeyRangeView;
use crate::txn::TxnCmp;
use crate::txn::TxnResponse;
use crate::wire;
use crate::wire::CompareResult;
use crate::wire::CompareTarget;
use crate::wire::CompareView;
use crate::wire::RequestOpView;
use crate::wire::TargetUnionView;
use crate::wire::TxnRequestView;
use vstd::prelude::*;

verus! {

impl TxnRequestView {
    /// Whether the guard holds: every predicate does, under the judgement
    /// `holds` of single predicates. A guard without predicates holds.
    pub open spec fn guard_holds(self, holds: spec_fn(CompareView) -> bool) -> bool {
        forall|i: int| 0 <= i < self.compare.len() ==> holds(#[trigger] self.compare[i])
    }

    /// The operations that run: the success branch when the guard holds, the
    /// failure branch when it does not.
    pub open spec fn branch_taken(self, holds: spec_fn(CompareView) -> bool) -> Seq<
        RequestOpView,
    > {
        if self.guard_holds(holds) {
            self.success
        } else {
            self.failure
        }
    }
}

/// One of the two branches of a transaction.
pub enum Branch {
    Success,
    Failure,
}

/// One addition of an operation to a branch.
pub struct BranchCall {
    pub branch: Branch,
    pub op: RequestOpView,
}

/// The transaction that results from `req` by making `calls` in their order.
pub open spec fn apply_calls(req: TxnRequestView, calls: Seq<BranchCall>) -> TxnRequestView
    decreases calls.len(),
{
    if calls.len() == 0 {
        req
    } else {
        let before = apply_calls(req, calls.drop_last());
        match calls.last().branch {
            Branch::Success => before.with_success(calls.last().op),
            Branch::Failure => before.with_failure(calls.last().op),
        }
    }
}

/// The operations that `calls` add to `branch`, in the order of the calls.
pub open spec fn ops_added(calls: Seq<BranchCall>, branch: Branch) -> Seq<RequestOpView> {
    calls.filter(|c: BranchCall| c.branch == branch).map_values(|c: BranchCall| c.op)
}

/// Each operator has a code of its own: the operator can be read back from
/// the code.
pub proof fn lemma_operator_code_reads_back(result: CompareResult)
    ensures
        CompareResult::spec_from_code(result.spec_code()) == Some(result),
{
}

/// Each target has a code of its own: the target can be read back from the
/// code.
pub proof fn lemma_target_code_reads_back(target: CompareTarget)
    ensures
        CompareTarget::spec_from_code(target.spec_code()) == Some(target),
{
}

/// Different comparisons are sent as different operators.
pub proof fn lemma_comparisons_stay_apart(a: TxnCmp, b: TxnCmp)
    ensures
        a.compare_result() == b.compare_result() <==> a == b,
{
}

/// Adding a predicate lengthens the guard by one, puts the new predicate
/// last, and leaves the earlier predicates and both branches as they were.
pub proof fn lemma_predicate_is_appended(req: TxnRequestView, predicate: CompareView)
    ensures
        req.with_compare(predicate).compare.len() == req.compare.len() + 1,
        req.with_compare(predicate).compare.last() == predicate,
        req.with_compare(predicate).compare.drop_last() == req.compare,
        req.with_compare(predicate).success == req.success,
        req.with_compare(predicate).failure == req.failure,
{
    assert(req.compare.push(predicate).drop_last() =~= req.compare);
}

/// A predicate on a counter, built from a key range, a comparison and a
/// counter of any size, gives back exactly these: the operator and the target
/// from their codes, the key range, and the counter under the kind that was
/// asked for.
pub proof fn lemma_counter_predicate_reads_back(key_range: KeyRangeView, op: TxnCmp, n: usize)
    ensures
        ({
            let p = CompareView::version(
                key_range.key,
                key_range.range_end,
                op.compare_result(),
                n as int,
            );
            &&& CompareResult::spec_from_code(p.result) == Some(op.compare_result())
            &&& CompareTarget::spec_from_code(p.target) == Some(CompareTarget::Version)
            &&& p.key == key_range.key
            &&& p.range_end == key_range.range_end
            &&& p.target_union == Some(TargetUnionView::Version(n as int))
        }),
        ({
            let p = CompareView::create_revision(
                key_range.key,
                key_range.range_end,
                op.compare_result(),
                n as int,
            );
            &&& CompareResult::spec_from_code(p.result) == Some(op.compare_result())
            &&& CompareTarget::spec_from_code(p.target) == Some(CompareTarget::Create)
            &&& p.key == key_range.key
            &&& p.range_end == key_range.range_end
            &&& p.target_union == Some(TargetUnionView::CreateRevision(n as int))
        }),
        ({
            let p = CompareView::mod_revision(
                key_range.key,
                key_range.range_end,
                op.compare_result(),
                n as int,
            );
            &&& CompareResult::spec_from_code(p.result) == Some(op.compare_result())
            &&& CompareTarget::spec_from_code(p.target) == Some(CompareTarget::Mod)
            &&& p.key == key_range.key
            &&& p.range_end == key_range.range_end
            &&& p.target_union == Some(TargetUnionView::ModRevision(n as int))
        }),
{
}

/// A predicate on the stored value, built from a key range, a comparison and
/// the expected bytes, gives back exactly these.
pub proof fn lemma_value_predicate_reads_back(
    key_range: KeyRangeView,
    op: TxnCmp,
    expected: Seq<u8>,
)
    ensures
        ({
            let p = CompareView::value(
                key_range.key,
                key_range.range_end,
                op.compare_result(),
                expected,
            );
            &&& CompareResult::spec_from_code(p.result) == Some(op.compare_result())
            &&& CompareTarget::spec_from_code(p.target) == Some(CompareTarget::Value)
            &&& p.key == key_range.key
            &&& p.range_end == key_range.range_end
            &&& p.target_union == Some(TargetUnionView::Value(expected))
        }),
{
}

/// Adding an operation to one branch lengthens that branch by one, puts the
/// operation last, and leaves the guard and the other branch as they were.
pub proof fn lemma_branches_are_independent(req: TxnRequestView, op: RequestOpView)
    ensures
        req.with_success(op).success == req.success.push(op),
        req.with_success(op).failure == req.failure,
        req.with_success(op).compare == req.compare,
        req.with_failure(op).failure == req.failure.push(op),
        req.with_failure(op).success == req.success,
        req.with_failure(op).compare == req.compare,
{
}

/// After any run of additions, each branch holds what it held before,
/// followed by the operations added to it, in the order in which they were
/// added; the guard is as it was.
pub proof fn lemma_branches_keep_call_order(req: TxnRequestView, calls: Seq<BranchCall>)
    ensures
        apply_calls(req, calls).success == req.success + ops_added(calls, Branch::Success),
        apply_calls(req, calls).failure == req.failure + ops_added(calls, Branch::Failure),
        apply_calls(req, calls).compare == req.compare,
    decreases calls.len(),
{
    reveal(Seq::filter);
    let on_success = |c: BranchCall| c.branch == Branch::Success;
    let on_failure = |c: BranchCall| c.branch == Branch::Failure;
    let op_of = |c: BranchCall| c.op;
    if calls.len() == 0 {
        assert(calls.filter(on_success) =~= Seq::empty());
        assert(calls.filter(on_failure) =~= Seq::empty());
        assert(req.success + ops_added(calls, Branch::Success) =~= req.success);
        assert(req.failure + ops_added(calls, Branch::Failure) =~= req.failure);
    } else {
        let earlier = calls.drop_last();
        let last = calls.last();
        lemma_branches_keep_call_order(req, earlier);
        match last.branch {
            Branch::Success => {
                assert(calls.filter(on_success) == earlier.filter(on_success).push(last));
                assert(calls.filter(on_failure) == earlier.filter(on_failure));
                assert(calls.filter(on_success).map_values(op_of) =~= earlier.filter(
                    on_success,
                ).map_values(op_of).push(last.op));
                assert(apply_calls(req, calls).success =~= req.success + ops_added(
                    calls,
                    Branch::Success,
                ));
            },
            Branch::Failure => {
                assert(calls.filter(on_failure) == earlier.filter(on_failure).push(last));
                assert(calls.filter(on_success) == earlier.filter(on_success));
                assert(calls.filter(on_failure).map_values(op_of) =~= earlier.filter(
                    on_failure,
                ).map_values(op_of).push(last.op));
                assert(apply_calls(req, calls).failure =~= req.failure + ops_added(
                    calls,
                    Branch::Failure,
                ));
            },
        }
    }
}

/// Additions to one branch alone, however many, leave the other branch as it
/// was.
pub proof fn lemma_other_branch_untouched(req: TxnRequestView, calls: Seq<BranchCall>)
    ensures
        (forall|i: int| 0 <= i < calls.len() ==> (#[trigger] calls[i]).branch == Branch::Success)
            ==> apply_calls(req, calls).failure == req.failure,
        (forall|i: int| 0 <= i < calls.len() ==> (#[trigger] calls[i]).branch == Branch::Failure)
            ==> apply_calls(req, calls).success == req.success,
    decreases calls.len(),
{
    if calls.len() > 0 {
        lemma_other_branch_untouched(req, calls.drop_last());
        let earlier = calls.drop_last();
        assert(forall|i: int| 0 <= i < earlier.len() ==> earlier[i] == calls[i]);
        assert(calls.last() == calls[calls.len() - 1]);
    }
}

/// The order of the predicates does not matter: two transactions with the
/// same predicates in any order, and the same branches, have guards that hold
/// in the same cases and run the same operations.
pub proof fn lemma_predicate_order_is_irrelevant(
    a: TxnRequestView,
    b: TxnRequestView,
    holds: spec_fn(CompareView) -> bool,
)
    requires
        a.compare.to_multiset() == b.compare.to_multiset(),
        a.success == b.success,
        a.failure == b.failure,
    ensures
        a.guard_holds(holds) == b.guard_holds(holds),
        a.branch_taken(holds) == b.branch_taken(holds),
{
    lemma_guard_follows(a, b, holds);
    lemma_guard_follows(b, a, holds);
}

/// If every predicate of `b` occurs in `a` and the guard of `a` holds, the
/// guard of `b` holds.
proof fn lemma_guard_follows(
    a: TxnRequestView,
    b: TxnRequestView,
    holds: spec_fn(CompareView) -> bool,
)
    requires
        a.compare.to_multiset() == b.compare.to_multiset(),
    ensures
        a.guard_holds(holds) ==> b.guard_holds(holds),
{
    a.compare.to_multiset_ensures();
    b.compare.to_multiset_ensures();
    if a.guard_holds(holds) {
        assert forall|j: int| 0 <= j < b.compare.len() implies holds(
            #[trigger] b.compare[j],
        ) by {
            let p = b.compare[j];
            assert(b.compare.contains(p));
            assert(b.compare.to_multiset().count(p) > 0);
            assert(a.compare.contains(p));
            let i = choose|i: int| 0 <= i < a.compare.len() && a.compare[i] == p;
            assert(holds(a.compare[i]));
        }
    }
}

/// The transaction that a new builder stands for has no predicate and two
/// empty branches: its guard holds whatever the store holds, and nothing
/// runs.
pub proof fn lemma_empty_transaction(holds: spec_fn(CompareView) -> bool)
    ensures
        TxnRequestView::empty().compare.len() == 0,
        TxnRequestView::empty().success.len() == 0,
        TxnRequestView::empty().failure.len() == 0,
        TxnRequestView::empty().guard_holds(holds),
        TxnRequestView::empty().branch_taken(holds).len() == 0,
{
}

/// Wrapping a reply changes nothing in it: the wrapper shows the flag of the
/// reply, so a reply that reports the failure branch is shown as no success,
/// and it shows the results of the reply, all of them and no others, in
/// their order.
pub proof fn lemma_reply_is_shown_as_received(raw: wire::TxnResponse, wrapped: TxnResponse)
    requires
        wrapped.message() == raw,
    ensures
        wrapped@ == raw@,
        wrapped@.succeeded == raw.succeeded,
        wrapped@.responses.len() == raw.responses.len(),
        forall|i: int|
            0 <= i < raw.responses.len() ==> wrapped@.responses[i] == (#[trigger] raw.responses[i])@,
{
}

} // verus!
