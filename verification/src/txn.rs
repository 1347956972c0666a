//! The builder for a conditional transaction and the wrapper for its reply.

use crate::kv::DeleteRequest;
use crate::kv::KeyRange;
use crate::kv::PutRequest;
use crate::kv::RangeRequest;
use crate::wire;
use crate::wire::CompareResult;
use crate::wire::CompareView;
use crate::wire::TxnRequestView;
use vstd::prelude::*;
use vstd::std_specs::convert::FromSpecImpl;
use vstd::std_specs::convert::IntoSpec;

verus! {

/// The comparison that a predicate makes between the stored quantity and the
/// expected one.
#[derive(Clone, Copy, Debug, PartialEq, Eq, Structural)]
pub enum TxnCmp {
    Equal,
    NotEqual,
    Greater,
    Less,
}

impl TxnCmp {
    /// The operator that a message names for this comparison.
    pub open spec fn compare_result(self) -> CompareResult {
        match self {
            TxnCmp::Equal => CompareResult::Equal,
            TxnCmp::NotEqual => CompareResult::NotEqual,
            TxnCmp::Greater => CompareResult::Greater,
            TxnCmp::Less => CompareResult::Less,
        }
    }
}

impl From<TxnCmp> for CompareResult {
    fn from(comparison: TxnCmp) -> (out: CompareResult)
        ensures
            out == comparison.compare_result(),
    {
        match comparison {
            TxnCmp::Equal => CompareResult::Equal,
            TxnCmp::NotEqual => CompareResult::NotEqual,
            TxnCmp::Greater => CompareResult::Greater,
            TxnCmp::Less => CompareResult::Less,
        }
    }
}

impl FromSpecImpl<TxnCmp> for CompareResult {
    open spec fn obeys_from_spec() -> bool {
        true
    }

    open spec fn from_spec(comparison: TxnCmp) -> CompareResult {
        comparison.compare_result()
    }
}

/// A conditional transaction under construction.
#[derive(Debug, PartialEq, Eq)]
pub struct TxnRequest {
    proto: wire::TxnRequest,
}

impl View for TxnRequest {
    type V = TxnRequestView;

    open spec fn view(&self) -> TxnRequestView {
        self.message()@
    }
}

/// One operation of a branch.
#[derive(Debug, PartialEq, Eq)]
pub enum TxnOp {
    Range(RangeRequest),
    Put(PutRequest),
    Delete(DeleteRequest),
    Txn(TxnRequest),
}

impl TxnOp {
    /// The message that this operation is sent as.
    pub open spec fn message(self) -> wire::RequestOp {
        wire::RequestOp {
            request: Some(
                match self {
                    TxnOp::Range(req) => wire::Request::RequestRange(req.message()),
                    TxnOp::Put(req) => wire::Request::RequestPut(req.message()),
                    TxnOp::Delete(req) => wire::Request::RequestDeleteRange(req.message()),
                    TxnOp::Txn(req) => wire::Request::RequestTxn(req.message()),
                },
            ),
        }
    }
}

impl View for TxnOp {
    type V = wire::RequestOpView;

    open spec fn view(&self) -> wire::RequestOpView {
        self.message()@
    }
}

impl From<TxnOp> for wire::RequestOp {
    fn from(op: TxnOp) -> (out: wire::RequestOp)
        ensures
            out@ == op@,
    {
        let req = match op {
            TxnOp::Range(req) => wire::Request::RequestRange(req.into()),
            TxnOp::Put(req) => wire::Request::RequestPut(req.into()),
            TxnOp::Delete(req) => wire::Request::RequestDeleteRange(req.into()),
            TxnOp::Txn(req) => wire::Request::RequestTxn(req.into()),
        };
        wire::RequestOp { request: Some(req) }
    }
}

impl FromSpecImpl<TxnOp> for wire::RequestOp {
    open spec fn obeys_from_spec() -> bool {
        true
    }

    open spec fn from_spec(op: TxnOp) -> wire::RequestOp {
        op.message()
    }
}

impl From<RangeRequest> for TxnOp {
    fn from(req: RangeRequest) -> (out: TxnOp)
        ensures
            out == TxnOp::Range(req),
    {
        TxnOp::Range(req)
    }
}

impl FromSpecImpl<RangeRequest> for TxnOp {
    open spec fn obeys_from_spec() -> bool {
        true
    }

    open spec fn from_spec(req: RangeRequest) -> TxnOp {
        TxnOp::Range(req)
    }
}

impl From<PutRequest> for TxnOp {
    fn from(req: PutRequest) -> (out: TxnOp)
        ensures
            out == TxnOp::Put(req),
    {
        TxnOp::Put(req)
    }
}

impl FromSpecImpl<PutRequest> for TxnOp {
    open spec fn obeys_from_spec() -> bool {
        true
    }

    open spec fn from_spec(req: PutRequest) -> TxnOp {
        TxnOp::Put(req)
    }
}

impl From<DeleteRequest> for TxnOp {
    fn from(req: DeleteRequest) -> (out: TxnOp)
        ensures
            out == TxnOp::Delete(req),
    {
        TxnOp::Delete(req)
    }
}

impl FromSpecImpl<DeleteRequest> for TxnOp {
    open spec fn obeys_from_spec() -> bool {
        true
    }

    open spec fn from_spec(req: DeleteRequest) -> TxnOp {
        TxnOp::Delete(req)
    }
}

impl From<TxnRequest> for TxnOp {
    fn from(req: TxnRequest) -> (out: TxnOp)
        ensures
            out == TxnOp::Txn(req),
    {
        TxnOp::Txn(req)
    }
}

impl FromSpecImpl<TxnRequest> for TxnOp {
    open spec fn obeys_from_spec() -> bool {
        true
    }

    open spec fn from_spec(req: TxnRequest) -> TxnOp {
        TxnOp::Txn(req)
    }
}

impl From<TxnRequest> for wire::TxnRequest {
    fn from(req: TxnRequest) -> (out: wire::TxnRequest)
        ensures
            out@ == req@,
    {
        req.proto
    }
}

impl FromSpecImpl<TxnRequest> for wire::TxnRequest {
    open spec fn obeys_from_spec() -> bool {
        true
    }

    open spec fn from_spec(req: TxnRequest) -> wire::TxnRequest {
        req.message()
    }
}

impl TxnRequest {
    /// The message that this transaction is sent as.
    pub closed spec fn message(self) -> wire::TxnRequest {
        self.proto
    }

    /// A transaction with no predicate and two empty branches.
    pub fn new() -> (r: Self)
        ensures
            r@ == TxnRequestView::empty(),
    {
        let r = TxnRequest {
            proto: wire::TxnRequest {
                compare: Vec::new(),
                success: Vec::new(),
                failure: Vec::new(),
            },
        };
        assert(r@.compare =~= Seq::empty());
        assert(r@.success =~= Seq::empty());
        assert(r@.failure =~= Seq::empty());
        r
    }

    /// Adds a predicate to the guard, after those already there.
    fn push_compare(self, predicate: wire::Compare) -> (r: Self)
        ensures
            r@ == self@.with_compare(predicate@),
    {
        let mut this = self;
        this.proto.compare.push(predicate);
        assert(this@.compare =~= self@.compare.push(predicate@));
        assert(this@.success =~= self@.success);
        assert(this@.failure =~= self@.failure);
        this
    }

    /// Adds a predicate on the version counter of the keys in `key_range`.
    pub fn when_version(self, key_range: KeyRange, comparison: TxnCmp, version: usize) -> (r: Self)
        ensures
            r@ == self@.with_compare(
                CompareView::version(
                    key_range@.key,
                    key_range@.range_end,
                    comparison.compare_result(),
                    version as int,
                ),
            ),
    {
        let result: CompareResult = comparison.into();
        self.push_compare(
            wire::Compare {
                result: result.code(),
                target: wire::CompareTarget::Version.code(),
                key: key_range.key,
                range_end: key_range.range_end,
                target_union: Some(wire::TargetUnion::Version(version as u64)),
            },
        )
    }

    /// Adds a predicate on the revision at which the keys in `key_range` were
    /// created.
    pub fn when_create_revision(
        self,
        key_range: KeyRange,
        comparison: TxnCmp,
        revision: usize,
    ) -> (r: Self)
        ensures
            r@ == self@.with_compare(
                CompareView::create_revision(
                    key_range@.key,
                    key_range@.range_end,
                    comparison.compare_result(),
                    revision as int,
                ),
            ),
    {
        let result: CompareResult = comparison.into();
        self.push_compare(
            wire::Compare {
                result: result.code(),
                target: wire::CompareTarget::Create.code(),
                key: key_range.key,
                range_end: key_range.range_end,
                target_union: Some(
                    wire::TargetUnion::CreateRevision(revision as u64),
                ),
            },
        )
    }

    /// Adds a predicate on the revision at which the keys in `key_range` were
    /// last modified.
    pub fn when_mod_revision(self, key_range: KeyRange, comparison: TxnCmp, revision: usize) -> (r: Self)
        ensures
            r@ == self@.with_compare(
                CompareView::mod_revision(
                    key_range@.key,
                    key_range@.range_end,
                    comparison.compare_result(),
                    revision as int,
                ),
            ),
    {
        let result: CompareResult = comparison.into();
        self.push_compare(
            wire::Compare {
                result: result.code(),
                target: wire::CompareTarget::Mod.code(),
                key: key_range.key,
                range_end: key_range.range_end,
                target_union: Some(wire::TargetUnion::ModRevision(revision as u64)),
            },
        )
    }

    /// Adds a predicate on the stored value of the keys in `key_range`, given
    /// the expected bytes.
    pub fn when_value_bytes(self, key_range: KeyRange, comparison: TxnCmp, value: Vec<u8>) -> (r: Self)
        ensures
            r@ == self@.with_compare(
                CompareView::value(
                    key_range@.key,
                    key_range@.range_end,
                    comparison.compare_result(),
                    value@,
                ),
            ),
    {
        let result: CompareResult = comparison.into();
        self.push_compare(
            wire::Compare {
                result: result.code(),
                target: wire::CompareTarget::Value.code(),
                key: key_range.key,
                range_end: key_range.range_end,
                target_union: Some(wire::TargetUnion::Value(value)),
            },
        )
    }

    /// Adds a predicate on the stored value of the keys in `key_range`. The
    /// expected bytes are what `value` converts into.
    pub fn when_value<V>(self, key_range: KeyRange, comparison: TxnCmp, value: V) -> (r: Self) where
        V: Into<Vec<u8>>,
        ensures
            exists|given: Vec<u8>|
                #[trigger] call_ensures(V::into, (value,), given) && r@ == self@.with_compare(
                    CompareView::value(
                        key_range@.key,
                        key_range@.range_end,
                        comparison.compare_result(),
                        given@,
                    ),
                ),
            V::obeys_into_spec() ==> r@ == self@.with_compare(
                CompareView::value(
                    key_range@.key,
                    key_range@.range_end,
                    comparison.compare_result(),
                    value.into_spec()@,
                ),
            ),
    {
        let bytes: Vec<u8> = value.into();
        self.when_value_bytes(key_range, comparison, bytes)
    }

    /// Adds an operation at the end of the branch that runs when every
    /// predicate holds.
    pub fn and_then_op(self, op: TxnOp) -> (r: Self)
        ensures
            r@ == self@.with_success(op@),
    {
        let mut this = self;
        let entry: wire::RequestOp = op.into();
        this.proto.success.push(entry);
        assert(this@.compare =~= self@.compare);
        assert(this@.success =~= self@.success.push(op@));
        assert(this@.failure =~= self@.failure);
        this
    }

    /// Adds an operation at the end of the branch that runs when some
    /// predicate does not hold.
    pub fn or_else_op(self, op: TxnOp) -> (r: Self)
        ensures
            r@ == self@.with_failure(op@),
    {
        let mut this = self;
        let entry: wire::RequestOp = op.into();
        this.proto.failure.push(entry);
        assert(this@.compare =~= self@.compare);
        assert(this@.success =~= self@.success);
        assert(this@.failure =~= self@.failure.push(op@));
        this
    }

    /// Adds what `op` converts into at the end of the branch that runs when
    /// every predicate holds.
    pub fn and_then<O>(self, op: O) -> (r: Self) where
        O: Into<TxnOp>,
        ensures
            exists|added: TxnOp|
                #[trigger] call_ensures(O::into, (op,), added) && r@ == self@.with_success(added@),
            O::obeys_into_spec() ==> r@ == self@.with_success(op.into_spec()@),
    {
        let added: TxnOp = op.into();
        self.and_then_op(added)
    }

    /// Adds what `op` converts into at the end of the branch that runs when
    /// some predicate does not hold.
    pub fn or_else<O>(self, op: O) -> (r: Self) where
        O: Into<TxnOp>,
        ensures
            exists|added: TxnOp|
                #[trigger] call_ensures(O::into, (op,), added) && r@ == self@.with_failure(added@),
            O::obeys_into_spec() ==> r@ == self@.with_failure(op.into_spec()@),
    {
        let added: TxnOp = op.into();
        self.or_else_op(added)
    }
}

/// The reply to a conditional transaction, as received.
#[derive(Debug, PartialEq, Eq)]
pub struct TxnResponse {
    proto: wire::TxnResponse,
}

impl View for TxnResponse {
    type V = wire::TxnResponseView;

    open spec fn view(&self) -> wire::TxnResponseView {
        self.message()@
    }
}

impl From<wire::TxnResponse> for TxnResponse {
    fn from(resp: wire::TxnResponse) -> (out: TxnResponse)
        ensures
            out.message() == resp,
            out@ == resp@,
    {
        TxnResponse { proto: resp }
    }
}

impl FromSpecImpl<wire::TxnResponse> for TxnResponse {
    open spec fn obeys_from_spec() -> bool {
        true
    }

    closed spec fn from_spec(resp: wire::TxnResponse) -> TxnResponse {
        TxnResponse { proto: resp }
    }
}

impl TxnResponse {
    /// The message that was received.
    pub closed spec fn message(self) -> wire::TxnResponse {
        self.proto
    }

    /// Whether every predicate held, so that the success branch ran.
    pub fn is_success(&self) -> (b: bool)
        ensures
            b == self@.succeeded,
    {
        self.proto.succeeded
    }

    /// The results of the operations of the branch that ran, in their order.
    pub fn responses(&self) -> (ops: &Vec<wire::ResponseOp>)
        ensures
            *ops == self.message().responses,
            ops@.len() == self@.responses.len(),
            forall|i: int| 0 <= i < ops@.len() ==> (#[trigger] ops@[i])@ == self@.responses[i],
    {
        &self.proto.responses
    }
}

} // verus!
