use extension_host::authorization::AuthorizationDecision;
use extension_host::graphql_error::{ErrorCode, GraphqlError};
use extension_host::host::error::InternalError;
use extension_host::response::path::{
    propagate_null, DataPartId, ErrorPathSegment, PositionedResponseKey, ResponseKey, ResponseListId,
    ResponseObjectId, ResponseValueId,
};

fn denied(message: &str) -> GraphqlError {
    GraphqlError::new(message.to_string(), ErrorCode::Unauthorized)
}

fn field(key: u16, nullable: bool) -> ResponseValueId {
    ResponseValueId::Field {
        object_id: ResponseObjectId { part_id: DataPartId(0), index: 0 },
        key: PositionedResponseKey { query_position: 0, response_key: ResponseKey(key) },
        nullable,
    }
}

fn item(index: u32, nullable: bool) -> ResponseValueId {
    ResponseValueId::Index { list_id: ResponseListId { part_id: DataPartId(3), index: 1 }, index, nullable }
}

#[test]
fn grant_all_grants_every_item() {
    let verdicts = AuthorizationDecision::GrantAll.resolve(3).unwrap();
    assert_eq!(verdicts.len(), 3);
    for index in 0..3 {
        assert!(verdicts.is_granted(index));
        assert!(verdicts.denial(index).is_none());
    }
}

#[test]
fn deny_all_denies_every_item_with_the_error() {
    let verdicts = AuthorizationDecision::DenyAll(denied("Oh no!")).resolve(4).unwrap();
    assert_eq!(verdicts.len(), 4);
    for index in 0..4 {
        assert!(!verdicts.is_granted(index));
        assert_eq!(verdicts.denial(index).unwrap().message, "Oh no!");
        assert_eq!(verdicts.denial(index).unwrap().code, ErrorCode::Unauthorized);
    }
}

#[test]
fn per_item_with_one_verdict_holds_for_every_item() {
    let verdicts = AuthorizationDecision::PerItem(vec![Err(denied("all"))]).resolve(3).unwrap();
    assert_eq!(verdicts.len(), 3);
    for index in 0..3 {
        assert_eq!(verdicts.denial(index).unwrap().message, "all");
    }
    let verdicts = AuthorizationDecision::PerItem(vec![Ok(())]).resolve(5).unwrap();
    assert_eq!(verdicts.len(), 5);
    assert!((0..5).all(|index| verdicts.is_granted(index)));
}

#[test]
fn per_item_with_a_verdict_for_each_item_keeps_the_order() {
    let decision = AuthorizationDecision::PerItem(vec![Ok(()), Err(denied("second")), Ok(()), Err(denied("fourth"))]);
    let verdicts = decision.resolve(4).unwrap();
    assert_eq!(verdicts.len(), 4);
    assert!(verdicts.is_granted(0));
    assert_eq!(verdicts.denial(1).unwrap().message, "second");
    assert!(verdicts.is_granted(2));
    assert_eq!(verdicts.denial(3).unwrap().message, "fourth");
}

#[test]
fn per_item_of_any_other_length_is_an_internal_error() {
    let short = AuthorizationDecision::PerItem(vec![Ok(()), Ok(())]).resolve(3);
    assert_eq!(short.err(), Some(InternalError::DecisionCardinality { decisions: 2, items: 3 }));
    let long = AuthorizationDecision::PerItem(vec![Ok(()), Ok(()), Ok(())]).resolve(2);
    assert_eq!(long.err(), Some(InternalError::DecisionCardinality { decisions: 3, items: 2 }));
    let empty = AuthorizationDecision::PerItem(Vec::new()).resolve(2);
    assert_eq!(empty.err(), Some(InternalError::DecisionCardinality { decisions: 0, items: 2 }));
}

#[test]
fn no_items_need_no_verdicts() {
    assert_eq!(AuthorizationDecision::PerItem(Vec::new()).resolve(0).unwrap().len(), 0);
    assert_eq!(AuthorizationDecision::PerItem(vec![Ok(())]).resolve(0).unwrap().len(), 0);
    assert_eq!(AuthorizationDecision::GrantAll.resolve(0).unwrap().len(), 0);
    assert_eq!(AuthorizationDecision::DenyAll(denied("x")).resolve(0).unwrap().len(), 0);
}

#[test]
fn one_item_with_one_verdict() {
    let verdicts = AuthorizationDecision::PerItem(vec![Err(denied("only"))]).resolve(1).unwrap();
    assert_eq!(verdicts.len(), 1);
    assert_eq!(verdicts.denial(0).unwrap().message, "only");
}

#[test]
fn response_value_id_size() {
    assert_eq!(std::mem::size_of::<ResponseValueId>(), 16);
    assert_eq!(std::mem::align_of::<ResponseValueId>(), 4);
}

#[test]
fn response_value_id_reads_its_parts() {
    assert!(field(1, true).is_nullable());
    assert!(!field(1, false).is_nullable());
    assert!(item(0, true).is_nullable());
    assert!(!item(0, false).is_nullable());
    assert_eq!(field(1, true).part_id(), DataPartId(0));
    assert_eq!(item(2, true).part_id(), DataPartId(3));
    assert_eq!(field(7, true).path_segment(), ErrorPathSegment::Field(ResponseKey(7)));
    assert_eq!(item(9, true).path_segment(), ErrorPathSegment::Index(9));
}

#[test]
fn denial_of_a_required_field_nulls_the_nearest_nullable_ancestor() {
    // user (nullable) -> pets (required) -> pet 0 (required) -> name (required)
    let path = vec![field(1, true), field(2, false), item(0, false), field(3, false)];
    assert_eq!(propagate_null(&path), Some(0));
}

#[test]
fn denial_of_a_nullable_field_nulls_only_the_field() {
    let path = vec![field(1, true), field(2, false), item(0, true), field(3, true)];
    assert_eq!(propagate_null(&path), Some(3));
    let path = vec![field(1, true), field(2, false), item(0, true), field(3, false)];
    assert_eq!(propagate_null(&path), Some(2));
}

#[test]
fn denial_without_nullable_ancestor_nulls_the_data() {
    let path = vec![field(1, false), item(0, false)];
    assert_eq!(propagate_null(&path), None);
    assert_eq!(propagate_null(&Vec::new()), None);
}
