use extension_host::bitset::BitSet;
use extension_host::registry::dynamo_mutation::DynamoMutationResolver;
use extension_host::registry::relations::{MetaRelation, MetaRelationKind, RelationCombinationError};
use extension_host::registry::bounds::{check_bounds, LengthTestResult};
use extension_host::registry::validators::{DynValidator, LengthValidator};
use extension_host::registry::value::{BaseType, GraphqlValue, Number, Type};
use extension_host::registry::variables::{VariableLookup, VariableResolveDefinition};
use extension_host::text::{bytes_eq, bytes_le, same_text, str_le, to_decimal};

fn named(name: &str) -> Type {
    Type { base: BaseType::Named(name.to_string()), nullable: true }
}

fn list_of(name: &str) -> Type {
    Type { base: BaseType::List(Box::new(named(name))), nullable: true }
}

#[test]
fn test_length_validator() {
    let custom_validator = DynValidator::length(Some(0), None);
    let error = custom_validator.validate("test", &GraphqlValue::String("test".to_string()), None);
    assert!(error.is_none());

    let custom_validator = DynValidator::length(Some(0), Some(1));
    let error = custom_validator.validate("test", &GraphqlValue::String("test".to_string()), None);
    assert_eq!(
        error.as_deref(),
        Some("Invalid value for argument \"test\", length 4 is too long, must be less than 1")
    );

    let custom_validator = DynValidator::length(Some(10), Some(15));
    let error = custom_validator.validate("test", &GraphqlValue::String("test".to_string()), None);
    assert_eq!(
        error.as_deref(),
        Some("Invalid value for argument \"test\", length 4 is too short, must be more than 10")
    );

    let bound = GraphqlValue::String("test".to_string());
    let custom_validator = DynValidator::length(Some(10), Some(15));
    let error = custom_validator.validate("test", &GraphqlValue::Variable("test".to_string()), Some(&bound));
    assert_eq!(
        error.as_deref(),
        Some("Invalid value for argument \"test\", length 4 is too short, must be more than 10")
    );

    let custom_validator = DynValidator::length(Some(10), Some(15));
    let value = GraphqlValue::List(vec![GraphqlValue::String("test".to_string())]);
    let error = custom_validator.validate("test", &value, None);
    assert_eq!(
        error.as_deref(),
        Some("Invalid value for argument \"test\", length 1 is too short, must be more than 10")
    );
}

#[test]
fn length_counts_characters_not_bytes() {
    let validator = LengthValidator::new(Some(3), Some(3));
    assert!(validator.validate("name", &GraphqlValue::String("äöü".to_string()), None).is_none());
    assert!(validator.validate("name", &GraphqlValue::String("äö".to_string()), None).is_some());
}

#[test]
fn values_without_length_pass() {
    let validator = LengthValidator::new(Some(3), Some(3));
    assert!(validator.validate("n", &GraphqlValue::Null, None).is_none());
    assert!(validator.validate("n", &GraphqlValue::Boolean(true), None).is_none());
    assert!(validator.validate("n", &GraphqlValue::Number(Number::PosInt(1)), None).is_none());
    assert!(validator.validate("n", &GraphqlValue::Variable("unbound".to_string()), None).is_none());
}

#[test]
fn bounds_are_inclusive() {
    assert_eq!(check_bounds(3, Some(3), Some(5)), LengthTestResult::InBounds);
    assert_eq!(check_bounds(5, Some(3), Some(5)), LengthTestResult::InBounds);
    assert_eq!(check_bounds(2, Some(3), Some(5)), LengthTestResult::TooShort);
    assert_eq!(check_bounds(6, Some(3), Some(5)), LengthTestResult::TooLong);
    assert_eq!(check_bounds(0, None, None), LengthTestResult::InBounds);
    assert_eq!(check_bounds(usize::MAX, Some(1), None), LengthTestResult::InBounds);
    assert_eq!(check_bounds(4, Some(5), Some(3)), LengthTestResult::TooShort);
    assert_eq!(check_bounds("b", Some("a"), Some("c")), LengthTestResult::InBounds);
    assert_eq!(check_bounds("d", Some("a"), Some("c")), LengthTestResult::TooLong);
    assert_eq!(check_bounds(f64::NAN, Some(1.0), Some(2.0)), LengthTestResult::InBounds);
    assert_eq!(check_bounds(0.5, Some(1.0), Some(2.0)), LengthTestResult::TooShort);
}

#[test]
fn test_bitset() {
    let mut bitset = BitSet::<usize>::with_capacity(129);
    for i in 0..129 {
        assert!(!bitset[i]);
    }

    bitset.set(100, true);
    assert!(!bitset[99]);
    assert!(bitset[100]);
    assert!(!bitset[101]);
}

#[test]
fn bitset_grows_and_lists_its_bits() {
    let mut bitset = BitSet::<usize>::new();
    assert!(bitset.is_empty());
    assert_eq!(bitset.len(), 0);
    bitset.grow(4);
    assert_eq!(bitset.len(), 4);
    bitset.grow(2);
    assert_eq!(bitset.len(), 4);
    assert!(!bitset.put(1));
    assert!(bitset.put(1));
    bitset.push(true);
    bitset.push(false);
    assert_eq!(bitset.len(), 6);
    assert_eq!(bitset.ones(), vec![1, 4]);
    assert_eq!(bitset.zeroes(), vec![0, 2, 3, 5]);
    assert!(bitset.get(4));
    assert!(!bitset.get(5));
    assert!(!bitset.get(600));
    bitset.set(1, false);
    assert_eq!(bitset.ones(), vec![4]);
    bitset.set_all(true);
    assert_eq!(bitset.ones(), vec![0, 1, 2, 3, 4, 5]);
    assert!(bitset.zeroes().is_empty());
    bitset.set_all(false);
    assert!(bitset.ones().is_empty());
    assert_eq!(bitset.len(), 6);
}

#[test]
fn relation_kind_follows_the_shape_of_the_types() {
    assert_eq!(MetaRelationKind::new(&named("A"), &named("B")), MetaRelationKind::OneToOne);
    assert_eq!(MetaRelationKind::new(&named("A"), &list_of("B")), MetaRelationKind::OneToMany);
    assert_eq!(MetaRelationKind::new(&list_of("A"), &named("B")), MetaRelationKind::ManyToOne);
    assert_eq!(MetaRelationKind::new(&list_of("A"), &list_of("B")), MetaRelationKind::ManyToMany);
}

#[test]
fn inverse_swaps_the_ends() {
    assert_eq!(MetaRelationKind::OneToMany.inverse(), MetaRelationKind::ManyToOne);
    assert_eq!(MetaRelationKind::ManyToOne.inverse(), MetaRelationKind::OneToMany);
    assert_eq!(MetaRelationKind::OneToOne.inverse(), MetaRelationKind::OneToOne);
    assert_eq!(MetaRelationKind::ManyToMany.inverse(), MetaRelationKind::ManyToMany);
}

#[test]
fn relation_name_does_not_depend_on_the_order() {
    assert_eq!(MetaRelation::generate_relation_name("Post", "Author"), "AuthorRelatePost");
    assert_eq!(MetaRelation::generate_relation_name("Author", "Post"), "AuthorRelatePost");
    assert_eq!(MetaRelation::generate_relation_name("A", "A"), "ARelateA");
    assert_eq!(MetaRelation::generate_relation_name("Ab", "A"), "ARelateAb");
    assert_eq!(MetaRelation::generate_relation_name("b", "B"), "BRelateb");
}

#[test]
fn new_relation_takes_the_base_types() {
    let relation = MetaRelation::new(None, &named("Author"), &list_of("Post"));
    assert_eq!(relation.name, "AuthorRelatePost");
    assert_eq!(relation.kind, MetaRelationKind::OneToMany);
    assert_eq!(relation.relation, (Some("Author".to_string()), "Post".to_string()));
    assert!(!relation.birectional);
    let relation = MetaRelation::new(Some("published".to_string()), &named("Author"), &named("Post"));
    assert_eq!(relation.name, "published");
    let relation = MetaRelation::base_collection_relation("posts".to_string(), &list_of("Post"));
    assert_eq!(relation.relation, (None, "Post".to_string()));
    assert_eq!(relation.kind, MetaRelationKind::OneToMany);
}

#[test]
fn with_combines_a_relation_with_the_relation_back() {
    let mut forth = MetaRelation::new(None, &named("Author"), &list_of("Post"));
    let back = MetaRelation::new(None, &named("Post"), &list_of("Author"));
    assert!(forth.with(back).is_ok());
    assert_eq!(forth.kind, MetaRelationKind::ManyToMany);
    assert!(forth.birectional);

    let mut forth = MetaRelation::new(None, &named("Author"), &named("Post"));
    let back = MetaRelation::new(None, &named("Post"), &list_of("Author"));
    assert!(forth.with(back).is_ok());
    assert_eq!(forth.kind, MetaRelationKind::ManyToOne);

    let mut forth = MetaRelation::new(None, &named("Author"), &list_of("Post"));
    let back = MetaRelation::new(None, &named("Post"), &named("Author"));
    assert!(forth.with(back).is_ok());
    assert_eq!(forth.kind, MetaRelationKind::OneToMany);
}

#[test]
fn with_rejects_what_does_not_combine() {
    let mut forth = MetaRelation::new(Some("a".to_string()), &named("Author"), &named("Post"));
    let back = MetaRelation::new(Some("b".to_string()), &named("Post"), &named("Author"));
    assert!(matches!(forth.with(back), Err(RelationCombinationError::UndefinedError)));
    assert!(!forth.birectional);

    let mut forth = MetaRelation::new(Some("a".to_string()), &named("Author"), &named("Post"));
    let back = MetaRelation::new(Some("a".to_string()), &named("Post"), &named("Editor"));
    match forth.with(back) {
        Err(RelationCombinationError::MultipleRelationsError { from }) => assert_eq!(from, "Author"),
        _ => panic!("the ends do not match"),
    }

    let mut forth = MetaRelation::base_collection_relation("a".to_string(), &named("Post"));
    let back = MetaRelation::new(Some("a".to_string()), &named("Post"), &named("Author"));
    assert!(matches!(forth.with(back), Err(RelationCombinationError::ImpossibleCombination)));

    let mut forth = MetaRelation::new(Some("a".to_string()), &named("Author"), &named("Post"));
    let back = MetaRelation::base_collection_relation("a".to_string(), &named("Author"));
    assert!(matches!(forth.with(back), Err(RelationCombinationError::ImpossibleCombination)));

    let mut forth = MetaRelation::new(Some("a".to_string()), &list_of("Author"), &named("Post"));
    let back = MetaRelation::new(Some("a".to_string()), &named("Post"), &named("Author"));
    assert!(matches!(forth.with(back), Err(RelationCombinationError::UndefinedError)));
    assert_eq!(forth.kind, MetaRelationKind::ManyToOne);
}

#[test]
fn combination_errors_have_messages() {
    assert_eq!(
        RelationCombinationError::MultipleRelationsError { from: "Author".to_string() }.message(),
        "You have multiple relations starting from `Author`, the relation engine can't define them without a little help. Try using the `@relation` directive."
    );
    assert_eq!(
        RelationCombinationError::ImpossibleCombination.message(),
        "You have an impossible combination ongoing."
    );
    assert_eq!(
        RelationCombinationError::UndefinedError.message(),
        "You have an issue while modelizeing your relations. Try using the `@relation` directive."
    );
}

#[test]
fn variables_name_their_lookup() {
    assert!(matches!(
        VariableResolveDefinition::DebugString("x".to_string()).param(),
        VariableLookup::Known(GraphqlValue::String(text)) if text == "x"
    ));
    assert!(matches!(
        VariableResolveDefinition::InputTypeName("input".to_string()).param(),
        VariableLookup::InputVariable(name) if name == "input"
    ));
    assert!(matches!(
        VariableResolveDefinition::ResolverData("key".to_string()).param(),
        VariableLookup::ResolverData(key) if key == "key"
    ));
    assert!(matches!(
        VariableResolveDefinition::LocalData("id".to_string()).param(),
        VariableLookup::LocalData(name) if name == "id"
    ));
}

#[test]
fn expectations_on_resolved_values() {
    let text = VariableResolveDefinition::expect_string(Some(GraphqlValue::String("a".to_string())), 1, 2);
    assert_eq!(text.unwrap(), "a");
    let error = VariableResolveDefinition::expect_string(Some(GraphqlValue::Null), 1, 2).unwrap_err();
    assert_eq!(error.message, "Internal Error: failed to infer key");
    assert_eq!((error.line, error.column), (1, 2));
    assert!(VariableResolveDefinition::expect_string(None, 0, 0).is_err());

    let object = VariableResolveDefinition::expect_obj(Some(GraphqlValue::Object(Vec::new())), 0, 0);
    assert!(object.unwrap().is_empty());
    assert!(VariableResolveDefinition::expect_obj(Some(GraphqlValue::List(Vec::new())), 0, 0).is_err());

    assert_eq!(VariableResolveDefinition::expect_opt_string(None, 0, 0).unwrap(), None);
    assert_eq!(VariableResolveDefinition::expect_opt_string(Some(GraphqlValue::Null), 0, 0).unwrap(), None);
    assert_eq!(
        VariableResolveDefinition::expect_opt_string(Some(GraphqlValue::String("s".to_string())), 0, 0).unwrap(),
        Some("s".to_string())
    );
    assert!(VariableResolveDefinition::expect_opt_string(Some(GraphqlValue::Boolean(true)), 0, 0).is_err());
}

#[test]
fn expect_opt_int_enforces_the_limit() {
    let number = |n| Some(GraphqlValue::Number(Number::PosInt(n)));
    assert_eq!(VariableResolveDefinition::expect_opt_int(number(5), Some(10), 0, 0).unwrap(), Some(5));
    assert_eq!(VariableResolveDefinition::expect_opt_int(number(10), Some(10), 0, 0).unwrap(), Some(10));
    assert_eq!(VariableResolveDefinition::expect_opt_int(number(11), None, 0, 0).unwrap(), Some(11));
    let error = VariableResolveDefinition::expect_opt_int(number(11), Some(10), 3, 4).unwrap_err();
    assert_eq!(error.message, "Limit Error: the integer must be smaller than 10");
    assert_eq!((error.line, error.column), (3, 4));
    let error =
        VariableResolveDefinition::expect_opt_int(Some(GraphqlValue::Number(Number::NegInt(-1))), None, 0, 0)
            .unwrap_err();
    assert_eq!(error.message, "Internal Error: failed to infer Int");
    assert_eq!(VariableResolveDefinition::expect_opt_int(None, Some(1), 0, 0).unwrap(), None);
    assert_eq!(VariableResolveDefinition::expect_opt_int(Some(GraphqlValue::Null), Some(1), 0, 0).unwrap(), None);
    let error =
        VariableResolveDefinition::expect_opt_int(Some(GraphqlValue::String("1".to_string())), None, 0, 0).unwrap_err();
    assert_eq!(error.message, "Internal Error: failed to infer key");
}

#[test]
fn node_ids_join_type_and_execution() {
    assert_eq!(DynamoMutationResolver::autogenerated_id("Post", "01H"), "Post#01H");
    let resolver = DynamoMutationResolver::DeleteNode { id: VariableResolveDefinition::InputTypeName("id".to_string()) };
    assert!(matches!(resolver.variable(), VariableResolveDefinition::InputTypeName(name) if name == "id"));
}

#[test]
fn decimal_text() {
    assert_eq!(to_decimal(0), "0");
    assert_eq!(to_decimal(9), "9");
    assert_eq!(to_decimal(10), "10");
    assert_eq!(to_decimal(1234567890), "1234567890");
    assert_eq!(to_decimal(u64::MAX), "18446744073709551615");
}

#[test]
fn text_comparisons() {
    assert!(same_text("abc", "abc"));
    assert!(!same_text("abc", "abd"));
    assert!(str_le("", "a"));
    assert!(str_le("a", "a"));
    assert!(str_le("a", "ab"));
    assert!(!str_le("ab", "a"));
    assert!(str_le("Z", "a"));
    assert!(!bytes_le(&[2], &[1, 9]));
    assert!(bytes_eq(&[1, 2], &[1, 2]));
    assert!(!bytes_eq(&[1, 2], &[1]));
    assert!(!bytes_eq(&[1, 2], &[1, 3]));
    assert!(bytes_eq(&[], &[]));
}
