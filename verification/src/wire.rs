//! Message shapes exchanged with the store for a conditional transaction.
//!
//! Every shape has a mathematical view: byte strings become `Seq<u8>`, lists
//! become `Seq`, counters and codes become `int`. Contracts elsewhere in the
//! crate are stated over these views.

use vstd::prelude::*;

verus! {

/// How a stored quantity is compared with the expected one.
#[derive(Clone, Copy, Debug, PartialEq, Eq, Structural)]
pub enum CompareResult {
    Equal,
    Greater,
    Less,
    NotEqual,
}

impl CompareResult {
    /// The number that stands for this operator in a message.
    pub open spec fn spec_code(self) -> int {
        match self {
            CompareResult::Equal => 0,
            CompareResult::Greater => 1,
            CompareResult::Less => 2,
            CompareResult::NotEqual => 3,
        }
    }

    /// The operator that a number stands for, if any.
    pub open spec fn spec_from_code(code: int) -> Option<CompareResult> {
        if code == 0 {
            Some(CompareResult::Equal)
        } else if code == 1 {
            Some(CompareResult::Greater)
        } else if code == 2 {
            Some(CompareResult::Less)
        } else if code == 3 {
            Some(CompareResult::NotEqual)
        } else {
            None
        }
    }

    /// The number that stands for this operator in a message.
    pub fn code(self) -> (c: i32)
        ensures
            c == self.spec_code(),
    {
        match self {
            CompareResult::Equal => 0,
            CompareResult::Greater => 1,
            CompareResult::Less => 2,
            CompareResult::NotEqual => 3,
        }
    }

    /// The operator that a number stands for, if any.
    pub fn from_code(code: i32) -> (r: Option<CompareResult>)
        ensures
            r == CompareResult::spec_from_code(code as int),
    {
        if code == 0 {
            Some(CompareResult::Equal)
        } else if code == 1 {
            Some(CompareResult::Greater)
        } else if code == 2 {
            Some(CompareResult::Less)
        } else if code == 3 {
            Some(CompareResult::NotEqual)
        } else {
            None
        }
    }
}

/// Which stored quantity of a key a predicate looks at.
#[derive(Clone, Copy, Debug, PartialEq, Eq, Structural)]
pub enum CompareTarget {
    Version,
    Create,
    Mod,
    Value,
}

impl CompareTarget {
    /// The number that stands for this target in a message.
    pub open spec fn spec_code(self) -> int {
        match self {
            CompareTarget::Version => 0,
            CompareTarget::Create => 1,
            CompareTarget::Mod => 2,
            CompareTarget::Value => 3,
        }
    }

    /// The target that a number stands for, if any.
    pub open spec fn spec_from_code(code: int) -> Option<CompareTarget> {
        if code == 0 {
            Some(CompareTarget::Version)
        } else if code == 1 {
            Some(CompareTarget::Create)
        } else if code == 2 {
            Some(CompareTarget::Mod)
        } else if code == 3 {
            Some(CompareTarget::Value)
        } else {
            None
        }
    }

    /// The number that stands for this target in a message.
    pub fn code(self) -> (c: i32)
        ensures
            c == self.spec_code(),
    {
        match self {
            CompareTarget::Version => 0,
            CompareTarget::Create => 1,
            CompareTarget::Mod => 2,
            CompareTarget::Value => 3,
        }
    }

    /// The target that a number stands for, if any.
    pub fn from_code(code: i32) -> (r: Option<CompareTarget>)
        ensures
            r == CompareTarget::spec_from_code(code as int),
    {
        if code == 0 {
            Some(CompareTarget::Version)
        } else if code == 1 {
            Some(CompareTarget::Create)
        } else if code == 2 {
            Some(CompareTarget::Mod)
        } else if code == 3 {
            Some(CompareTarget::Value)
        } else {
            None
        }
    }
}

/// The expected quantity of a predicate, tagged with its kind. Counters are
/// never negative and are held as given; how a counter is laid out in bytes
/// is left to whoever encodes the message.
#[derive(Debug, PartialEq, Eq)]
pub enum TargetUnion {
    Version(u64),
    CreateRevision(u64),
    ModRevision(u64),
    Value(Vec<u8>),
}

/// What a `TargetUnion` holds, as mathematical values.
pub enum TargetUnionView {
    Version(int),
    CreateRevision(int),
    ModRevision(int),
    Value(Seq<u8>),
}

impl View for TargetUnion {
    type V = TargetUnionView;

    open spec fn view(&self) -> TargetUnionView {
        match self {
            TargetUnion::Version(v) => TargetUnionView::Version(*v as int),
            TargetUnion::CreateRevision(v) => TargetUnionView::CreateRevision(*v as int),
            TargetUnion::ModRevision(v) => TargetUnionView::ModRevision(*v as int),
            TargetUnion::Value(bytes) => TargetUnionView::Value(bytes@),
        }
    }
}

/// One predicate of a transaction's guard.
#[derive(Debug, PartialEq, Eq)]
pub struct Compare {
    /// Code of the comparison operator.
    pub result: i32,
    /// Code of the quantity that is compared.
    pub target: i32,
    /// First key the predicate applies to.
    pub key: Vec<u8>,
    /// End of the key range; empty when the predicate is about `key` alone.
    pub range_end: Vec<u8>,
    /// The expected quantity.
    pub target_union: Option<TargetUnion>,
}

/// What a `Compare` holds, as mathematical values.
pub struct CompareView {
    pub result: int,
    pub target: int,
    pub key: Seq<u8>,
    pub range_end: Seq<u8>,
    pub target_union: Option<TargetUnionView>,
}

impl View for Compare {
    type V = CompareView;

    open spec fn view(&self) -> CompareView {
        CompareView {
            result: self.result as int,
            target: self.target as int,
            key: self.key@,
            range_end: self.range_end@,
            target_union: match self.target_union {
                Some(u) => Some(u@),
                None => None,
            },
        }
    }
}

impl CompareView {
    /// A predicate on the version counter of the keys in a range.
    pub open spec fn version(
        key: Seq<u8>,
        range_end: Seq<u8>,
        result: CompareResult,
        expected: int,
    ) -> CompareView {
        CompareView {
            result: result.spec_code(),
            target: CompareTarget::Version.spec_code(),
            key,
            range_end,
            target_union: Some(TargetUnionView::Version(expected)),
        }
    }

    /// A predicate on the revision at which the keys in a range were created.
    pub open spec fn create_revision(
        key: Seq<u8>,
        range_end: Seq<u8>,
        result: CompareResult,
        expected: int,
    ) -> CompareView {
        CompareView {
            result: result.spec_code(),
            target: CompareTarget::Create.spec_code(),
            key,
            range_end,
            target_union: Some(TargetUnionView::CreateRevision(expected)),
        }
    }

    /// A predicate on the revision at which the keys in a range were last
    /// modified.
    pub open spec fn mod_revision(
        key: Seq<u8>,
        range_end: Seq<u8>,
        result: CompareResult,
        expected: int,
    ) -> CompareView {
        CompareView {
            result: result.spec_code(),
            target: CompareTarget::Mod.spec_code(),
            key,
            range_end,
            target_union: Some(TargetUnionView::ModRevision(expected)),
        }
    }

    /// A predicate on the stored value of the keys in a range.
    pub open spec fn value(
        key: Seq<u8>,
        range_end: Seq<u8>,
        result: CompareResult,
        expected: Seq<u8>,
    ) -> CompareView {
        CompareView {
            result: result.spec_code(),
            target: CompareTarget::Value.spec_code(),
            key,
            range_end,
            target_union: Some(TargetUnionView::Value(expected)),
        }
    }
}

/// A query for the keys in a range.
#[derive(Debug, PartialEq, Eq)]
pub struct RangeRequest {
    pub key: Vec<u8>,
    /// End of the key range; empty when the query is about `key` alone.
    pub range_end: Vec<u8>,
}

/// What a `RangeRequest` holds, as mathematical values.
pub struct RangeRequestView {
    pub key: Seq<u8>,
    pub range_end: Seq<u8>,
}

impl View for RangeRequest {
    type V = RangeRequestView;

    open spec fn view(&self) -> RangeRequestView {
        RangeRequestView { key: self.key@, range_end: self.range_end@ }
    }
}

/// A write of one value under one key.
#[derive(Debug, PartialEq, Eq)]
pub struct PutRequest {
    pub key: Vec<u8>,
    pub value: Vec<u8>,
}

/// What a `PutRequest` holds, as mathematical values.
pub struct PutRequestView {
    pub key: Seq<u8>,
    pub value: Seq<u8>,
}

impl View for PutRequest {
    type V = PutRequestView;

    open spec fn view(&self) -> PutRequestView {
        PutRequestView { key: self.key@, value: self.value@ }
    }
}

/// A deletion of the keys in a range.
#[derive(Debug, PartialEq, Eq)]
pub struct DeleteRangeRequest {
    pub key: Vec<u8>,
    /// End of the key range; empty when only `key` is deleted.
    pub range_end: Vec<u8>,
}

/// What a `DeleteRangeRequest` holds, as mathematical values.
pub struct DeleteRangeRequestView {
    pub key: Seq<u8>,
    pub range_end: Seq<u8>,
}

impl View for DeleteRangeRequest {
    type V = DeleteRangeRequestView;

    open spec fn view(&self) -> DeleteRangeRequestView {
        DeleteRangeRequestView { key: self.key@, range_end: self.range_end@ }
    }
}

/// The payload of one operation in a branch.
#[derive(Debug, PartialEq, Eq)]
pub enum Request {
    RequestRange(RangeRequest),
    RequestPut(PutRequest),
    RequestDeleteRange(DeleteRangeRequest),
    RequestTxn(TxnRequest),
}

/// One operation in a branch.
#[derive(Debug, PartialEq, Eq)]
pub struct RequestOp {
    pub request: Option<Request>,
}

/// A conditional transaction: if every predicate in `compare` holds, the
/// operations in `success` run, else those in `failure`.
#[derive(Debug, PartialEq, Eq)]
pub struct TxnRequest {
    pub compare: Vec<Compare>,
    pub success: Vec<RequestOp>,
    pub failure: Vec<RequestOp>,
}

/// What a `Request` holds, as mathematical values.
pub enum RequestView {
    RequestRange(RangeRequestView),
    RequestPut(PutRequestView),
    RequestDeleteRange(DeleteRangeRequestView),
    RequestTxn(TxnRequestView),
}

/// What a `RequestOp` holds, as mathematical values.
pub struct RequestOpView {
    pub request: Option<RequestView>,
}

/// What a `TxnRequest` holds, as mathematical values.
pub struct TxnRequestView {
    pub compare: Seq<CompareView>,
    pub success: Seq<RequestOpView>,
    pub failure: Seq<RequestOpView>,
}

impl TxnRequestView {
    /// The transaction with no predicate and two empty branches.
    pub open spec fn empty() -> TxnRequestView {
        TxnRequestView { compare: Seq::empty(), success: Seq::empty(), failure: Seq::empty() }
    }

    /// This transaction with one more predicate, placed last.
    pub open spec fn with_compare(self, predicate: CompareView) -> TxnRequestView {
        TxnRequestView { compare: self.compare.push(predicate), ..self }
    }

    /// This transaction with one more operation at the end of the branch that
    /// runs when every predicate holds.
    pub open spec fn with_success(self, op: RequestOpView) -> TxnRequestView {
        TxnRequestView { success: self.success.push(op), ..self }
    }

    /// This transaction with one more operation at the end of the branch that
    /// runs when some predicate does not hold.
    pub open spec fn with_failure(self, op: RequestOpView) -> TxnRequestView {
        TxnRequestView { failure: self.failure.push(op), ..self }
    }
}

impl View for Request {
    type V = RequestView;

    open spec fn view(&self) -> RequestView
        decreases self,
    {
        match self {
            Request::RequestRange(r) => RequestView::RequestRange(r@),
            Request::RequestPut(p) => RequestView::RequestPut(p@),
            Request::RequestDeleteRange(d) => RequestView::RequestDeleteRange(d@),
            Request::RequestTxn(t) => RequestView::RequestTxn(t@),
        }
    }
}

impl View for RequestOp {
    type V = RequestOpView;

    open spec fn view(&self) -> RequestOpView
        decreases self,
    {
        RequestOpView {
            request: match self.request {
                Some(r) => Some(r@),
                None => None,
            },
        }
    }
}

impl View for TxnRequest {
    type V = TxnRequestView;

    // A branch can hold transactions, so the view descends into the operations
    // of both branches; the test on `i` shows that each one is a part of `self`.
    open spec fn view(&self) -> TxnRequestView
        decreases self,
    {
        TxnRequestView {
            compare: Seq::new(self.compare.len() as nat, |i: int| self.compare[i]@),
            success: Seq::new(
                self.success.len() as nat,
                |i: int|
                    if 0 <= i < self.success.len() {
                        self.success[i]@
                    } else {
                        arbitrary()
                    },
            ),
            failure: Seq::new(
                self.failure.len() as nat,
                |i: int|
                    if 0 <= i < self.failure.len() {
                        self.failure[i]@
                    } else {
                        arbitrary()
                    },
            ),
        }
    }
}

/// A key as the store holds it.
#[derive(Debug, PartialEq, Eq)]
pub struct KeyValue {
    pub key: Vec<u8>,
    /// Revision at which the key was created.
    pub create_revision: i64,
    /// Revision at which the key was last modified.
    pub mod_revision: i64,
    /// Number of writes to the key since it was created.
    pub version: i64,
    pub value: Vec<u8>,
}

/// What a `KeyValue` holds, as mathematical values.
pub struct KeyValueView {
    pub key: Seq<u8>,
    pub create_revision: int,
    pub mod_revision: int,
    pub version: int,
    pub value: Seq<u8>,
}

impl View for KeyValue {
    type V = KeyValueView;

    open spec fn view(&self) -> KeyValueView {
        KeyValueView {
            key: self.key@,
            create_revision: self.create_revision as int,
            mod_revision: self.mod_revision as int,
            version: self.version as int,
            value: self.value@,
        }
    }
}

/// The result of a range query.
#[derive(Debug, PartialEq, Eq)]
pub struct RangeResponse {
    /// The keys found, in the order the store returned them.
    pub kvs: Vec<KeyValue>,
    /// Number of keys in the range.
    pub count: i64,
}

/// What a `RangeResponse` holds, as mathematical values.
pub struct RangeResponseView {
    pub kvs: Seq<KeyValueView>,
    pub count: int,
}

impl View for RangeResponse {
    type V = RangeResponseView;

    open spec fn view(&self) -> RangeResponseView {
        RangeResponseView {
            kvs: Seq::new(self.kvs.len() as nat, |i: int| self.kvs[i]@),
            count: self.count as int,
        }
    }
}

/// The result of a write.
#[derive(Debug, PartialEq, Eq)]
pub struct PutResponse {
    /// What the key held before the write, where the store reports it.
    pub prev_kv: Option<KeyValue>,
}

/// What a `PutResponse` holds, as mathematical values.
pub struct PutResponseView {
    pub prev_kv: Option<KeyValueView>,
}

impl View for PutResponse {
    type V = PutResponseView;

    open spec fn view(&self) -> PutResponseView {
        PutResponseView {
            prev_kv: match self.prev_kv {
                Some(kv) => Some(kv@),
                None => None,
            },
        }
    }
}

/// The result of a deletion.
#[derive(Debug, PartialEq, Eq)]
pub struct DeleteRangeResponse {
    /// Number of keys deleted.
    pub deleted: i64,
}

/// What a `DeleteRangeResponse` holds, as mathematical values.
pub struct DeleteRangeResponseView {
    pub deleted: int,
}

impl View for DeleteRangeResponse {
    type V = DeleteRangeResponseView;

    open spec fn view(&self) -> DeleteRangeResponseView {
        DeleteRangeResponseView { deleted: self.deleted as int }
    }
}

/// The payload of the result of one operation.
#[derive(Debug, PartialEq, Eq)]
pub enum Response {
    ResponseRange(RangeResponse),
    ResponsePut(PutResponse),
    ResponseDeleteRange(DeleteRangeResponse),
    ResponseTxn(TxnResponse),
}

/// The result of one operation of the branch that ran.
#[derive(Debug, PartialEq, Eq)]
pub struct ResponseOp {
    pub response: Option<Response>,
}

/// The reply to a conditional transaction.
#[derive(Debug, PartialEq, Eq)]
pub struct TxnResponse {
    /// Whether every predicate held, so that the success branch ran.
    pub succeeded: bool,
    /// The results of the operations of the branch that ran, in their order.
    pub responses: Vec<ResponseOp>,
}

/// What a `Response` holds, as mathematical values.
pub enum ResponseView {
    ResponseRange(RangeResponseView),
    ResponsePut(PutResponseView),
    ResponseDeleteRange(DeleteRangeResponseView),
    ResponseTxn(TxnResponseView),
}

/// What a `ResponseOp` holds, as mathematical values.
pub struct ResponseOpView {
    pub response: Option<ResponseView>,
}

/// What a `TxnResponse` holds, as mathematical values.
pub struct TxnResponseView {
    pub succeeded: bool,
    pub responses: Seq<ResponseOpView>,
}

impl View for Response {
    type V = ResponseView;

    open spec fn view(&self) -> ResponseView
        decreases self,
    {
        match self {
            Response::ResponseRange(r) => ResponseView::ResponseRange(r@),
            Response::ResponsePut(p) => ResponseView::ResponsePut(p@),
            Response::ResponseDeleteRange(d) => ResponseView::ResponseDeleteRange(d@),
            Response::ResponseTxn(t) => ResponseView::ResponseTxn(t@),
        }
    }
}

impl View for ResponseOp {
    type V = ResponseOpView;

    open spec fn view(&self) -> ResponseOpView
        decreases self,
    {
        ResponseOpView {
            response: match self.response {
                Some(r) => Some(r@),
                None => None,
            },
        }
    }
}

impl View for TxnResponse {
    type V = TxnResponseView;

    // A result can be the reply to a nested transaction; the test on `i` shows
    // that each result is a part of `self`.
    open spec fn view(&self) -> TxnResponseView
        decreases self,
    {
        TxnResponseView {
            succeeded: self.succeeded,
            responses: Seq::new(
                self.responses.len() as nat,
                |i: int|
                    if 0 <= i < self.responses.len() {
                        self.responses[i]@
                    } else {
                        arbitrary()
                    },
            ),
        }
    }
}

} // verus!
