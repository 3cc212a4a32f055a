use pallet_abstractions::declaration::DeclarationItem;
use pallet_abstractions::extract::{
    declaration_position, extract, extract_indexed, ExtractionError, Shortfall,
};
use pallet_abstractions::resolver::{fetch_ident, PathSegment, TypeExpression};
use pallet_abstractions::schema::FieldSchema;

fn alias(name: &str, target: &str) -> DeclarationItem {
    DeclarationItem::type_alias(name, TypeExpression::ident(target))
}

fn pairs(items: &[DeclarationItem], schema: &FieldSchema) -> Vec<(String, String)> {
    let record = extract(items, schema).unwrap();
    (0..record.len())
        .map(|k| (record.name(k).clone(), record.value(k).clone()))
        .collect()
}

fn pair(name: &str, value: &str) -> (String, String) {
    (name.to_string(), value.to_string())
}

fn segment(ident: &str, generic: bool) -> PathSegment {
    PathSegment { ident: ident.to_string(), generic }
}

#[test]
fn example() {
    assert_eq!(1 + 1, 2);
}

#[test]
fn resolves_a_bare_identifier_to_itself() {
    let id = fetch_ident(&TypeExpression::ident("Balance"));
    assert_eq!(id, Some("Balance".to_string()));
}

#[test]
fn resolves_a_qualified_path_to_its_last_segment() {
    let id = fetch_ident(&TypeExpression::path(&["module", "Balance"]));
    assert_eq!(id, Some("Balance".to_string()));
    let id = fetch_ident(&TypeExpression::path(&["a", "b", "c", "Deep"]));
    assert_eq!(id, Some("Deep".to_string()));
}

#[test]
fn does_not_resolve_what_is_not_a_path() {
    assert_eq!(fetch_ident(&TypeExpression::Other), None);
}

#[test]
fn does_not_resolve_an_empty_path_or_an_empty_segment() {
    assert_eq!(fetch_ident(&TypeExpression::path(&[])), None);
    let empty = TypeExpression::Path { self_qualified: false, segments: Vec::new() };
    assert_eq!(fetch_ident(&empty), None);
    assert_eq!(fetch_ident(&TypeExpression::path(&["module", ""])), None);
    assert_eq!(fetch_ident(&TypeExpression::ident("")), None);
}

#[test]
fn path_keeps_its_segments_in_order() {
    match TypeExpression::path(&["a", "b"]) {
        TypeExpression::Path { self_qualified, segments } => {
            assert!(!self_qualified);
            assert_eq!(segments.len(), 2);
            assert_eq!(segments[0].ident, "a");
            assert_eq!(segments[1].ident, "b");
            assert!(!segments[0].generic && !segments[1].generic);
        }
        TypeExpression::Other => panic!("a path was expected"),
    }
}

#[test]
fn does_not_resolve_a_path_with_generic_arguments() {
    let vec_of = TypeExpression::Path {
        self_qualified: false,
        segments: vec![segment("Vec", true)],
    };
    assert_eq!(fetch_ident(&vec_of), None);
    let nested = TypeExpression::Path {
        self_qualified: false,
        segments: vec![segment("std", false), segment("Option", true)],
    };
    assert_eq!(fetch_ident(&nested), None);
    let inner = TypeExpression::Path {
        self_qualified: false,
        segments: vec![segment("Outer", true), segment("Inner", false)],
    };
    assert_eq!(fetch_ident(&inner), None);
    let plain = TypeExpression::Path {
        self_qualified: false,
        segments: vec![segment("std", false), segment("Plain", false)],
    };
    assert_eq!(fetch_ident(&plain), Some("Plain".to_string()));
}

#[test]
fn does_not_resolve_a_path_that_starts_from_a_type() {
    let projected = TypeExpression::Path {
        self_qualified: true,
        segments: vec![segment("Trait", false), segment("Output", false)],
    };
    assert_eq!(fetch_ident(&projected), None);
}

#[test]
fn extracts_two_fields_around_an_irrelevant_item() {
    let schema = FieldSchema::new(&["A", "B"]);
    let items = vec![alias("A", "Foo"), alias("C", "Bar"), alias("B", "Baz")];
    assert_eq!(pairs(&items, &schema), vec![pair("A", "Foo"), pair("B", "Baz")]);
}

#[test]
fn reports_the_missing_field() {
    let schema = FieldSchema::new(&["A", "B"]);
    let items = vec![alias("A", "Foo")];
    assert_eq!(
        extract(&items, &schema).err(),
        Some(ExtractionError::MissingField("B".to_string()))
    );
}

#[test]
fn the_last_declaration_of_a_field_wins() {
    let schema = FieldSchema::new(&["A", "B"]);
    let items = vec![
        alias("A", "First"),
        DeclarationItem::Other,
        alias("B", "Only"),
        alias("Unrelated", "Thing"),
        alias("A", "Second"),
        DeclarationItem::Other,
        alias("A", "Third"),
    ];
    assert_eq!(pairs(&items, &schema), vec![pair("A", "Third"), pair("B", "Only")]);
}

#[test]
fn a_qualified_binding_is_reduced_to_its_last_segment() {
    let schema = FieldSchema::new(&["Balance"]);
    let items = vec![DeclarationItem::type_alias(
        "Balance",
        TypeExpression::path(&["primitives", "Balance"]),
    )];
    assert_eq!(pairs(&items, &schema), vec![pair("Balance", "Balance")]);
}

#[test]
fn a_missing_field_is_found_once_its_declaration_is_appended() {
    let schema = FieldSchema::new(&["A", "B", "C"]);
    let mut items = vec![alias("C", "Sea"), alias("A", "Ay")];
    assert_eq!(
        extract(&items, &schema).err(),
        Some(ExtractionError::MissingField("B".to_string()))
    );
    items.push(alias("B", "Bee"));
    assert_eq!(
        pairs(&items, &schema),
        vec![pair("A", "Ay"), pair("B", "Bee"), pair("C", "Sea")]
    );
}

#[test]
fn the_first_missing_field_in_schema_order_is_reported() {
    let schema = FieldSchema::new(&["A", "B", "C"]);
    assert_eq!(
        extract(&[], &schema).err(),
        Some(ExtractionError::MissingField("A".to_string()))
    );
    let items = vec![alias("A", "Ay")];
    assert_eq!(
        extract(&items, &schema).err(),
        Some(ExtractionError::MissingField("B".to_string()))
    );
    assert_eq!(extract_indexed(&items, &schema).err(), Some(Shortfall::Missing(1)));
    let items = vec![alias("B", "Bee"), alias("A", "Ay")];
    assert_eq!(
        extract(&items, &schema).err(),
        Some(ExtractionError::MissingField("C".to_string()))
    );
    assert_eq!(extract_indexed(&items, &schema).err(), Some(Shortfall::Missing(2)));
}

#[test]
fn the_order_of_distinct_declarations_does_not_matter() {
    let schema = FieldSchema::new(&["A", "B", "C"]);
    let expected = vec![pair("A", "Ay"), pair("B", "Bee"), pair("C", "Sea")];
    let orders: [[usize; 4]; 6] = [
        [0, 1, 2, 3],
        [3, 2, 1, 0],
        [1, 3, 0, 2],
        [2, 0, 3, 1],
        [0, 3, 1, 2],
        [3, 0, 2, 1],
    ];
    for order in orders {
        let items: Vec<DeclarationItem> = order
            .iter()
            .map(|&i| match i {
                0 => alias("A", "Ay"),
                1 => alias("B", "Bee"),
                2 => alias("C", "Sea"),
                _ => alias("Other", "Thing"),
            })
            .collect();
        assert_eq!(pairs(&items, &schema), expected);
    }
}

#[test]
fn an_empty_schema_extracts_from_anything() {
    let schema = FieldSchema::new(&[]);
    let record = extract(&[alias("A", "Foo")], &schema).unwrap();
    assert_eq!(record.len(), 0);
    assert_eq!(extract(&[], &schema).unwrap().len(), 0);
}

#[test]
fn an_unresolvable_binding_of_a_schema_field_fails_the_extraction() {
    let schema = FieldSchema::new(&["A", "B"]);
    let items = vec![
        alias("A", "Foo"),
        DeclarationItem::type_alias("B", TypeExpression::Other),
        alias("B", "Baz"),
    ];
    assert_eq!(
        extract(&items, &schema).err(),
        Some(ExtractionError::UnresolvableTypeExpression("B".to_string()))
    );
    assert_eq!(extract_indexed(&items, &schema).err(), Some(Shortfall::Unresolvable(1)));
}

#[test]
fn an_unresolvable_binding_is_reported_before_a_missing_field() {
    let schema = FieldSchema::new(&["A", "B"]);
    let items = vec![DeclarationItem::type_alias("B", TypeExpression::Other)];
    assert_eq!(
        extract(&items, &schema).err(),
        Some(ExtractionError::UnresolvableTypeExpression("B".to_string()))
    );
}

#[test]
fn an_unresolvable_binding_outside_the_schema_is_passed_over() {
    let schema = FieldSchema::new(&["A"]);
    let items = vec![
        DeclarationItem::type_alias("Tuple", TypeExpression::Other),
        alias("A", "Foo"),
    ];
    assert_eq!(pairs(&items, &schema), vec![pair("A", "Foo")]);
}

#[test]
fn a_record_is_looked_up_by_field_name() {
    let schema = FieldSchema::new(&["A", "B"]);
    let items = vec![alias("B", "Baz"), alias("A", "Foo")];
    let record = extract(&items, &schema).unwrap();
    assert_eq!(record.get("A"), Some(&"Foo".to_string()));
    assert_eq!(record.get("B"), Some(&"Baz".to_string()));
    assert_eq!(record.get("C"), None);
    assert_eq!(record.get(""), None);
}

#[test]
fn a_field_named_twice_in_a_schema_is_bound_twice() {
    let schema = FieldSchema::new(&["A", "A"]);
    let items = vec![alias("A", "Foo")];
    assert_eq!(pairs(&items, &schema), vec![pair("A", "Foo"), pair("A", "Foo")]);
}

#[test]
fn an_error_names_its_field_in_its_message() {
    assert_eq!(
        ExtractionError::MissingField("Balance".to_string()).message(),
        "`type Balance` not specified, but required"
    );
    assert_eq!(
        ExtractionError::UnresolvableTypeExpression("Oracle".to_string()).message(),
        "`type Oracle` does not resolve to a single identifier"
    );
}

#[test]
fn the_domain_schemas_list_their_fields_in_validation_order() {
    assert_eq!(
        FieldSchema::asset().names,
        vec!["TransactionPayment", "Balance", "RuntimeCall", "OracleKey", "Oracle"]
    );
    assert_eq!(FieldSchema::evm().names, vec!["RuntimeCall", "Executive", "Ethereum"]);
    assert_eq!(FieldSchema::asset().len(), 5);
    assert_eq!(FieldSchema::evm().len(), 3);
}

#[test]
fn the_declaration_that_binds_a_field_is_the_last_one_of_its_name() {
    let items = vec![
        alias("A", "First"),
        DeclarationItem::Other,
        alias("B", "Only"),
        alias("A", "Second"),
        DeclarationItem::Other,
    ];
    assert_eq!(declaration_position(&items, "A"), Some(3));
    assert_eq!(declaration_position(&items, "B"), Some(2));
    assert_eq!(declaration_position(&items, "C"), None);
    assert_eq!(declaration_position(&items, ""), None);
    assert_eq!(declaration_position(&[], "A"), None);
    assert_eq!(declaration_position(&items[..1], "A"), Some(0));
}
