use etcd_txn::kv::{DeleteRequest, KeyRange, PutRequest, RangeRequest};
use etcd_txn::txn::{TxnCmp, TxnOp, TxnRequest};
use etcd_txn::wire;
use etcd_txn::wire::{Compare, CompareResult, CompareTarget, Request, RequestOp, TargetUnion};

fn bytes(s: &str) -> Vec<u8> {
    s.as_bytes().to_vec()
}

fn put_op(key: &str, value: &str) -> RequestOp {
    RequestOp {
        request: Some(Request::RequestPut(wire::PutRequest { key: bytes(key), value: bytes(value) })),
    }
}

fn range_op(key: &str, range_end: &str) -> RequestOp {
    RequestOp {
        request: Some(Request::RequestRange(wire::RangeRequest {
            key: bytes(key),
            range_end: bytes(range_end),
        })),
    }
}

fn delete_op(key: &str, range_end: &str) -> RequestOp {
    RequestOp {
        request: Some(Request::RequestDeleteRange(wire::DeleteRangeRequest {
            key: bytes(key),
            range_end: bytes(range_end),
        })),
    }
}

#[test]
fn empty_builder_gives_empty_message() {
    let msg: wire::TxnRequest = TxnRequest::new().into();
    assert_eq!(msg.compare.len(), 0);
    assert_eq!(msg.success.len(), 0);
    assert_eq!(msg.failure.len(), 0);
    assert_eq!(msg, wire::TxnRequest { compare: vec![], success: vec![], failure: vec![] });
}

#[test]
fn one_predicate_one_put_one_range() {
    let req = TxnRequest::new()
        .when_version(KeyRange::key(bytes("foo")), TxnCmp::Equal, 1)
        .and_then(PutRequest::new(bytes("foo"), bytes("bar")))
        .or_else(RangeRequest::new(KeyRange::key(bytes("foo"))));
    let msg: wire::TxnRequest = req.into();
    assert_eq!(
        msg.compare,
        vec![Compare {
            result: 0,
            target: 0,
            key: bytes("foo"),
            range_end: vec![],
            target_union: Some(TargetUnion::Version(1)),
        }]
    );
    assert_eq!(msg.success, vec![put_op("foo", "bar")]);
    assert_eq!(msg.failure, vec![range_op("foo", "")]);
}

#[test]
fn version_predicate_entry() {
    let msg: wire::TxnRequest = TxnRequest::new()
        .when_version(KeyRange::range(bytes("a"), bytes("c")), TxnCmp::Greater, 7)
        .into();
    assert_eq!(
        msg.compare,
        vec![Compare {
            result: 1,
            target: 0,
            key: bytes("a"),
            range_end: bytes("c"),
            target_union: Some(TargetUnion::Version(7)),
        }]
    );
}

#[test]
fn create_revision_predicate_entry() {
    let msg: wire::TxnRequest = TxnRequest::new()
        .when_create_revision(KeyRange::key(bytes("k")), TxnCmp::Less, 42)
        .into();
    assert_eq!(
        msg.compare,
        vec![Compare {
            result: 2,
            target: 1,
            key: bytes("k"),
            range_end: vec![],
            target_union: Some(TargetUnion::CreateRevision(42)),
        }]
    );
}

#[test]
fn mod_revision_predicate_entry() {
    let msg: wire::TxnRequest = TxnRequest::new()
        .when_mod_revision(KeyRange::key(bytes("k")), TxnCmp::NotEqual, 0)
        .into();
    assert_eq!(
        msg.compare,
        vec![Compare {
            result: 3,
            target: 2,
            key: bytes("k"),
            range_end: vec![],
            target_union: Some(TargetUnion::ModRevision(0)),
        }]
    );
}

#[test]
fn value_predicate_entry() {
    let msg: wire::TxnRequest = TxnRequest::new()
        .when_value(KeyRange::key(bytes("k")), TxnCmp::Equal, "hello")
        .into();
    assert_eq!(
        msg.compare,
        vec![Compare {
            result: 0,
            target: 3,
            key: bytes("k"),
            range_end: vec![],
            target_union: Some(TargetUnion::Value(bytes("hello"))),
        }]
    );
}

#[test]
fn value_predicate_from_bytes_and_from_conversion_agree() {
    let a: wire::TxnRequest = TxnRequest::new()
        .when_value(KeyRange::key(bytes("k")), TxnCmp::Greater, vec![0u8, 255u8, 7u8])
        .into();
    let b: wire::TxnRequest = TxnRequest::new()
        .when_value_bytes(KeyRange::key(bytes("k")), TxnCmp::Greater, vec![0u8, 255u8, 7u8])
        .into();
    assert_eq!(a, b);
    assert_eq!(a.compare[0].target_union, Some(TargetUnion::Value(vec![0, 255, 7])));
}

#[test]
fn empty_value_and_empty_key_are_accepted() {
    let msg: wire::TxnRequest = TxnRequest::new()
        .when_value_bytes(KeyRange::key(vec![]), TxnCmp::Equal, vec![])
        .into();
    assert_eq!(
        msg.compare,
        vec![Compare {
            result: 0,
            target: 3,
            key: vec![],
            range_end: vec![],
            target_union: Some(TargetUnion::Value(vec![])),
        }]
    );
}

fn with_versions(n: usize) -> wire::TxnRequest {
    let mut req = TxnRequest::new();
    for m in 0..n {
        req = req.when_version(KeyRange::key(vec![m as u8]), TxnCmp::Equal, m);
    }
    req.into()
}

#[test]
fn each_predicate_lengthens_the_guard_by_one() {
    for n in 0..5usize {
        let before = with_versions(n);
        let after = with_versions(n + 1);
        assert_eq!(before.compare.len(), n);
        assert_eq!(after.compare.len(), n + 1);
        assert_eq!(after.compare[..n], before.compare[..]);
        assert_eq!(
            after.compare[n],
            Compare {
                result: 0,
                target: 0,
                key: vec![n as u8],
                range_end: vec![],
                target_union: Some(TargetUnion::Version(n as u64)),
            }
        );
        assert!(after.success.is_empty());
        assert!(after.failure.is_empty());
    }
}

#[test]
fn predicates_keep_the_order_of_the_calls() {
    let msg: wire::TxnRequest = TxnRequest::new()
        .when_value(KeyRange::key(bytes("a")), TxnCmp::Equal, "x")
        .when_mod_revision(KeyRange::key(bytes("b")), TxnCmp::Less, 9)
        .when_version(KeyRange::key(bytes("c")), TxnCmp::Greater, 3)
        .when_create_revision(KeyRange::key(bytes("d")), TxnCmp::NotEqual, 4)
        .into();
    let targets: Vec<i32> = msg.compare.iter().map(|c| c.target).collect();
    let results: Vec<i32> = msg.compare.iter().map(|c| c.result).collect();
    let keys: Vec<Vec<u8>> = msg.compare.iter().map(|c| c.key.to_vec()).collect();
    assert_eq!(targets, vec![3, 2, 0, 1]);
    assert_eq!(results, vec![0, 2, 1, 3]);
    assert_eq!(keys, vec![bytes("a"), bytes("b"), bytes("c"), bytes("d")]);
}

#[test]
fn counters_of_any_size_are_recorded_as_given() {
    let above_signed = i64::MAX as u64 + 1;
    let msg: wire::TxnRequest = TxnRequest::new()
        .when_version(KeyRange::key(bytes("k")), TxnCmp::Equal, 0)
        .when_version(KeyRange::key(bytes("k")), TxnCmp::Equal, i64::MAX as usize)
        .when_create_revision(KeyRange::key(bytes("k")), TxnCmp::Equal, usize::MAX)
        .when_mod_revision(KeyRange::key(bytes("k")), TxnCmp::Equal, usize::MAX - 1)
        .when_version(KeyRange::key(bytes("k")), TxnCmp::Equal, above_signed as usize)
        .into();
    assert_eq!(msg.compare[0].target_union, Some(TargetUnion::Version(0)));
    assert_eq!(msg.compare[1].target_union, Some(TargetUnion::Version(i64::MAX as u64)));
    assert_eq!(msg.compare[2].target_union, Some(TargetUnion::CreateRevision(usize::MAX as u64)));
    assert_eq!(msg.compare[3].target_union, Some(TargetUnion::ModRevision(usize::MAX as u64 - 1)));
    assert_eq!(msg.compare[4].target_union, Some(TargetUnion::Version(above_signed as usize as u64)));
    if usize::BITS == 64 {
        assert_eq!(
            msg.compare[2].target_union,
            Some(TargetUnion::CreateRevision(18_446_744_073_709_551_615))
        );
        assert_eq!(
            msg.compare[4].target_union,
            Some(TargetUnion::Version(9_223_372_036_854_775_808))
        );
    }
}

#[test]
fn branches_keep_the_order_of_the_calls() {
    let msg: wire::TxnRequest = TxnRequest::new()
        .and_then(PutRequest::new(bytes("s1"), bytes("v1")))
        .or_else(RangeRequest::new(KeyRange::key(bytes("f1"))))
        .and_then(DeleteRequest::new(KeyRange::range(bytes("s2"), bytes("s9"))))
        .or_else(PutRequest::new(bytes("f2"), bytes("v2")))
        .or_else(DeleteRequest::new(KeyRange::key(bytes("f3"))))
        .and_then(RangeRequest::new(KeyRange::range(bytes("s3"), bytes("s4"))))
        .into();
    assert_eq!(
        msg.success,
        vec![put_op("s1", "v1"), delete_op("s2", "s9"), range_op("s3", "s4")]
    );
    assert_eq!(msg.failure, vec![range_op("f1", ""), put_op("f2", "v2"), delete_op("f3", "")]);
    assert!(msg.compare.is_empty());
}

#[test]
fn success_calls_leave_the_failure_branch_alone() {
    let base = || {
        TxnRequest::new()
            .when_version(KeyRange::key(bytes("k")), TxnCmp::Equal, 1)
            .or_else(PutRequest::new(bytes("f"), bytes("v")))
    };
    let before: wire::TxnRequest = base().into();
    let after: wire::TxnRequest = base()
        .and_then(PutRequest::new(bytes("a"), bytes("b")))
        .and_then(RangeRequest::new(KeyRange::key(bytes("c"))))
        .into();
    assert_eq!(after.failure, before.failure);
    assert_eq!(after.compare, before.compare);
    assert_eq!(after.success.len(), before.success.len() + 2);
}

#[test]
fn failure_calls_leave_the_success_branch_alone() {
    let base = || {
        TxnRequest::new()
            .when_version(KeyRange::key(bytes("k")), TxnCmp::Equal, 1)
            .and_then(PutRequest::new(bytes("s"), bytes("v")))
    };
    let before: wire::TxnRequest = base().into();
    let after: wire::TxnRequest = base()
        .or_else(DeleteRequest::new(KeyRange::key(bytes("a"))))
        .or_else(RangeRequest::new(KeyRange::key(bytes("c"))))
        .into();
    assert_eq!(after.success, before.success);
    assert_eq!(after.compare, before.compare);
    assert_eq!(after.failure.len(), before.failure.len() + 2);
}

#[test]
fn operations_given_as_txn_op_and_by_conversion_agree() {
    let a: wire::TxnRequest = TxnRequest::new()
        .and_then(PutRequest::new(bytes("k"), bytes("v")))
        .or_else(RangeRequest::new(KeyRange::key(bytes("k"))))
        .into();
    let b: wire::TxnRequest = TxnRequest::new()
        .and_then_op(TxnOp::Put(PutRequest::new(bytes("k"), bytes("v"))))
        .or_else_op(TxnOp::Range(RangeRequest::new(KeyRange::key(bytes("k")))))
        .into();
    let c: wire::TxnRequest = TxnRequest::new()
        .and_then(TxnOp::from(PutRequest::new(bytes("k"), bytes("v"))))
        .or_else(TxnOp::from(RangeRequest::new(KeyRange::key(bytes("k")))))
        .into();
    assert_eq!(a, b);
    assert_eq!(a, c);
    assert_eq!(a.success, vec![put_op("k", "v")]);
    assert_eq!(a.failure, vec![range_op("k", "")]);
}

#[test]
fn nested_transaction_is_carried_whole() {
    let inner = || {
        TxnRequest::new()
            .when_value(KeyRange::key(bytes("in")), TxnCmp::NotEqual, "x")
            .and_then(DeleteRequest::new(KeyRange::key(bytes("in"))))
    };
    let inner_msg: wire::TxnRequest = inner().into();
    let msg: wire::TxnRequest = TxnRequest::new()
        .when_version(KeyRange::key(bytes("out")), TxnCmp::Equal, 2)
        .and_then(inner())
        .or_else(TxnOp::Txn(TxnRequest::new()))
        .into();
    assert_eq!(msg.success.len(), 1);
    assert_eq!(msg.success[0], RequestOp { request: Some(Request::RequestTxn(inner_msg)) });
    assert_eq!(
        msg.failure,
        vec![RequestOp {
            request: Some(Request::RequestTxn(wire::TxnRequest {
                compare: vec![],
                success: vec![],
                failure: vec![],
            })),
        }]
    );
}

#[test]
fn txn_op_turns_into_the_matching_message() {
    let range: RequestOp = TxnOp::from(RangeRequest::new(KeyRange::range(bytes("a"), bytes("b")))).into();
    let put: RequestOp = TxnOp::from(PutRequest::new(bytes("k"), bytes("v"))).into();
    let delete: RequestOp = TxnOp::from(DeleteRequest::new(KeyRange::key(bytes("d")))).into();
    let txn: RequestOp = TxnOp::from(TxnRequest::new()).into();
    assert_eq!(range, range_op("a", "b"));
    assert_eq!(put, put_op("k", "v"));
    assert_eq!(delete, delete_op("d", ""));
    assert!(matches!(txn.request, Some(Request::RequestTxn(_))));
}

#[test]
fn single_requests_turn_into_their_messages() {
    let range: wire::RangeRequest = RangeRequest::new(KeyRange::range(bytes("a"), bytes("b"))).into();
    let put: wire::PutRequest = PutRequest::new(bytes("k"), bytes("v")).into();
    let delete: wire::DeleteRangeRequest = DeleteRequest::new(KeyRange::key(bytes("d"))).into();
    assert_eq!(range, wire::RangeRequest { key: bytes("a"), range_end: bytes("b") });
    assert_eq!(put, wire::PutRequest { key: bytes("k"), value: bytes("v") });
    assert_eq!(delete, wire::DeleteRangeRequest { key: bytes("d"), range_end: vec![] });
}

#[test]
fn key_range_constructors() {
    assert_eq!(KeyRange::key(bytes("k")), KeyRange { key: bytes("k"), range_end: vec![] });
    assert_eq!(
        KeyRange::range(bytes("a"), bytes("z")),
        KeyRange { key: bytes("a"), range_end: bytes("z") }
    );
}

#[test]
fn comparisons_turn_into_their_operators() {
    assert_eq!(CompareResult::from(TxnCmp::Equal), CompareResult::Equal);
    assert_eq!(CompareResult::from(TxnCmp::NotEqual), CompareResult::NotEqual);
    assert_eq!(CompareResult::from(TxnCmp::Greater), CompareResult::Greater);
    assert_eq!(CompareResult::from(TxnCmp::Less), CompareResult::Less);
}

#[test]
fn operator_codes() {
    assert_eq!(CompareResult::Equal.code(), 0);
    assert_eq!(CompareResult::Greater.code(), 1);
    assert_eq!(CompareResult::Less.code(), 2);
    assert_eq!(CompareResult::NotEqual.code(), 3);
    for r in [CompareResult::Equal, CompareResult::Greater, CompareResult::Less, CompareResult::NotEqual] {
        assert_eq!(CompareResult::from_code(r.code()), Some(r));
    }
    assert_eq!(CompareResult::from_code(4), None);
    assert_eq!(CompareResult::from_code(-1), None);
}

#[test]
fn target_codes() {
    assert_eq!(CompareTarget::Version.code(), 0);
    assert_eq!(CompareTarget::Create.code(), 1);
    assert_eq!(CompareTarget::Mod.code(), 2);
    assert_eq!(CompareTarget::Value.code(), 3);
    for t in [CompareTarget::Version, CompareTarget::Create, CompareTarget::Mod, CompareTarget::Value] {
        assert_eq!(CompareTarget::from_code(t.code()), Some(t));
    }
    assert_eq!(CompareTarget::from_code(4), None);
    assert_eq!(CompareTarget::from_code(i32::MIN), None);
}

#[test]
fn predicate_reads_back_from_the_message() {
    let msg: wire::TxnRequest = TxnRequest::new()
        .when_mod_revision(KeyRange::range(bytes("a"), bytes("b")), TxnCmp::Less, 17)
        .into();
    let entry = &msg.compare[0];
    assert_eq!(CompareResult::from_code(entry.result), Some(CompareResult::from(TxnCmp::Less)));
    assert_eq!(CompareTarget::from_code(entry.target), Some(CompareTarget::Mod));
    assert_eq!(entry.key, bytes("a"));
    assert_eq!(entry.range_end, bytes("b"));
    assert_eq!(entry.target_union, Some(TargetUnion::ModRevision(17)));
}

fn guard(msg: &wire::TxnRequest, holds: &dyn Fn(&Compare) -> bool) -> bool {
    msg.compare.iter().all(|c| holds(c))
}

#[test]
fn guard_does_not_depend_on_predicate_order() {
    let one: wire::TxnRequest = TxnRequest::new()
        .when_version(KeyRange::key(bytes("a")), TxnCmp::Equal, 1)
        .when_value(KeyRange::key(bytes("b")), TxnCmp::Equal, "x")
        .when_mod_revision(KeyRange::key(bytes("c")), TxnCmp::Less, 5)
        .and_then(PutRequest::new(bytes("k"), bytes("v")))
        .into();
    let other: wire::TxnRequest = TxnRequest::new()
        .when_mod_revision(KeyRange::key(bytes("c")), TxnCmp::Less, 5)
        .when_version(KeyRange::key(bytes("a")), TxnCmp::Equal, 1)
        .when_value(KeyRange::key(bytes("b")), TxnCmp::Equal, "x")
        .and_then(PutRequest::new(bytes("k"), bytes("v")))
        .into();
    assert_ne!(one.compare, other.compare);
    assert_eq!(one.success, other.success);
    assert_eq!(one.failure, other.failure);
    let all_true = |_: &Compare| true;
    let no_value = |c: &Compare| c.target != 3;
    let only_a = |c: &Compare| c.key == b"a".to_vec();
    let none = |_: &Compare| false;
    assert_eq!(guard(&one, &all_true), guard(&other, &all_true));
    assert_eq!(guard(&one, &no_value), guard(&other, &no_value));
    assert_eq!(guard(&one, &only_a), guard(&other, &only_a));
    assert_eq!(guard(&one, &none), guard(&other, &none));
    assert!(guard(&one, &all_true));
    assert!(!guard(&one, &no_value));
}
