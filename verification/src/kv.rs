//! Key ranges and the single operations that a transaction branch can hold.

use crate::wire;
use vstd::prelude::*;
use vstd::std_specs::convert::FromSpecImpl;

verus! {

/// A single key, or the keys from `key` up to but not including `range_end`
/// in lexicographic order. An empty `range_end` means the single key.
#[derive(Debug, PartialEq, Eq)]
pub struct KeyRange {
    pub key: Vec<u8>,
    pub range_end: Vec<u8>,
}

/// What a `KeyRange` holds, as mathematical values.
pub struct KeyRangeView {
    pub key: Seq<u8>,
    pub range_end: Seq<u8>,
}

impl View for KeyRange {
    type V = KeyRangeView;

    open spec fn view(&self) -> KeyRangeView {
        KeyRangeView { key: self.key@, range_end: self.range_end@ }
    }
}

impl KeyRange {
    /// The range that holds `key` alone.
    pub fn key(key: Vec<u8>) -> (r: KeyRange)
        ensures
            r@ == (KeyRangeView { key: key@, range_end: Seq::empty() }),
    {
        KeyRange { key, range_end: Vec::new() }
    }

    /// The keys from `key` up to but not including `range_end`.
    pub fn range(key: Vec<u8>, range_end: Vec<u8>) -> (r: KeyRange)
        ensures
            r@ == (KeyRangeView { key: key@, range_end: range_end@ }),
    {
        KeyRange { key, range_end }
    }
}

/// A query for the keys in a range.
#[derive(Debug, PartialEq, Eq)]
pub struct RangeRequest {
    proto: wire::RangeRequest,
}

impl View for RangeRequest {
    type V = wire::RangeRequestView;

    open spec fn view(&self) -> wire::RangeRequestView {
        self.message()@
    }
}

impl RangeRequest {
    /// The message that this query is sent as.
    pub closed spec fn message(self) -> wire::RangeRequest {
        self.proto
    }

    pub fn new(key_range: KeyRange) -> (r: RangeRequest)
        ensures
            r@ == (wire::RangeRequestView {
                key: key_range@.key,
                range_end: key_range@.range_end,
            }),
    {
        RangeRequest {
            proto: wire::RangeRequest { key: key_range.key, range_end: key_range.range_end },
        }
    }
}

impl From<RangeRequest> for wire::RangeRequest {
    fn from(req: RangeRequest) -> (out: wire::RangeRequest)
        ensures
            out@ == req@,
    {
        req.proto
    }
}

impl FromSpecImpl<RangeRequest> for wire::RangeRequest {
    open spec fn obeys_from_spec() -> bool {
        true
    }

    open spec fn from_spec(req: RangeRequest) -> wire::RangeRequest {
        req.message()
    }
}

/// A write of one value under one key.
#[derive(Debug, PartialEq, Eq)]
pub struct PutRequest {
    proto: wire::PutRequest,
}

impl View for PutRequest {
    type V = wire::PutRequestView;

    open spec fn view(&self) -> wire::PutRequestView {
        self.message()@
    }
}

impl PutRequest {
    /// The message that this write is sent as.
    pub closed spec fn message(self) -> wire::PutRequest {
        self.proto
    }

    pub fn new(key: Vec<u8>, value: Vec<u8>) -> (r: PutRequest)
        ensures
            r@ == (wire::PutRequestView { key: key@, value: value@ }),
    {
        PutRequest { proto: wire::PutRequest { key, value } }
    }
}

impl From<PutRequest> for wire::PutRequest {
    fn from(req: PutRequest) -> (out: wire::PutRequest)
        ensures
            out@ == req@,
    {
        req.proto
    }
}

impl FromSpecImpl<PutRequest> for wire::PutRequest {
    open spec fn obeys_from_spec() -> bool {
        true
    }

    open spec fn from_spec(req: PutRequest) -> wire::PutRequest {
        req.message()
    }
}

/// A deletion of the keys in a range.
#[derive(Debug, PartialEq, Eq)]
pub struct DeleteRequest {
    proto: wire::DeleteRangeRequest,
}

impl View for DeleteRequest {
    type V = wire::DeleteRangeRequestView;

    open spec fn view(&self) -> wire::DeleteRangeRequestView {
        self.message()@
    }
}

impl DeleteRequest {
    /// The message that this deletion is sent as.
    pub closed spec fn message(self) -> wire::DeleteRangeRequest {
        self.proto
    }

    pub fn new(key_range: KeyRange) -> (r: DeleteRequest)
        ensures
            r@ == (wire::DeleteRangeRequestView {
                key: key_range@.key,
                range_end: key_range@.range_end,
            }),
    {
        DeleteRequest {
            proto: wire::DeleteRangeRequest {
                key: key_range.key,
                range_end: key_range.range_end,
            },
        }
    }
}

impl From<DeleteRequest> for wire::DeleteRangeRequest {
    fn from(req: DeleteRequest) -> (out: wire::DeleteRangeRequest)
        ensures
            out@ == req@,
    {
        req.proto
    }
}

impl FromSpecImpl<DeleteRequest> for wire::DeleteRangeRequest {
    open spec fn obeys_from_spec() -> bool {
        true
    }

    open spec fn from_spec(req: DeleteRequest) -> wire::DeleteRangeRequest {
        req.message()
    }
}

} // verus!
