use introspect_table::attribute::ColumnAttributes;
use introspect_table::column::{Column, ColumnName, FieldFacts, TypeDef, TypeDefVariant};
use introspect_table::error::TableError;
use introspect_table::primary::PrimaryTypeDefVariant;
use introspect_table::structure::{get_keys_index, KeyType, TableStructure};
use introspect_table::syntax::{Attribute, AttributeArg, Member, Struct};

fn attr(path: &str, args: &[&str]) -> Attribute {
    Attribute {
        path: path.to_string(),
        args: args
            .iter()
            .map(|a| AttributeArg { name: None, value: a.to_string() })
            .collect(),
    }
}

fn member(name: &str, ty: &str, attributes: Vec<Attribute>) -> Member {
    Member { name: name.to_string(), ty: ty.to_string(), attributes }
}

fn facts(selector: &str, descriptor: &str, eligible: bool) -> FieldFacts {
    FieldFacts {
        selector: selector.to_string(),
        encoded_id: None,
        type_def: Some(TypeDefVariant::TypeDef(TypeDef {
            descriptor: descriptor.to_string(),
            primary_eligible: eligible,
        })),
    }
}

fn strings(v: &[&str]) -> Vec<String> {
    v.iter().map(|s| s.to_string()).collect()
}

fn table(name: &str, members: Vec<Member>) -> Struct {
    Struct { name: name.to_string(), members, attributes: vec![] }
}

#[test]
fn scenario_single_key_not_primary_eligible() {
    let item = table(
        "Player",
        vec![
            member("id", "u32", vec![attr("key", &[])]),
            member("name", "felt", vec![]),
            member("score", "u32", vec![]),
        ],
    );
    let fs = vec![facts("0x1", "u32", false), facts("0x2", "felt", false), facts("0x3", "u32", false)];
    let t = TableStructure::iextract(item, fs, &vec![], &strings(&["PrimaryId"])).unwrap();
    assert!(matches!(t.key, KeyType::Custom(1)));
    let members: Vec<&str> = t.columns.iter().map(|c| c.member.as_str()).collect();
    assert_eq!(members, vec!["id", "name", "score"]);
    assert!(t.columns[0].key);
    assert!(!t.columns[1].key && !t.columns[2].key);
    assert_eq!(t.impl_name, "PlayerStructure");
    assert_eq!(t.columns_mod_name, "PlayerColumn");
    assert!(t.attributes.is_empty());
}

#[test]
fn scenario_primary_promotion() {
    let item = table(
        "Item",
        vec![member("id", "PrimaryId", vec![attr("key", &[])]), member("name", "felt", vec![])],
    );
    let fs = vec![facts("0x1", "primary_id", true), facts("0x2", "felt", false)];
    let t = TableStructure::iextract(item, fs, &vec![], &strings(&["PrimaryId"])).unwrap();
    match &t.key {
        KeyType::Primary(p) => {
            assert_eq!(p.member, "id");
            assert_eq!(p.name, "\"id\"");
            assert_eq!(p.ty, "PrimaryId");
            assert_eq!(p.attributes.len(), 1);
            assert!(matches!(&p.type_def, PrimaryTypeDefVariant::TypeDef(d) if d == "primary_id"));
        }
        KeyType::Custom(_) => panic!("expected a primary key"),
    }
    assert_eq!(t.columns.len(), 1);
    assert_eq!(t.columns[0].member, "name");
}

#[test]
fn scenario_key_after_value_fails() {
    let item = table(
        "Pair",
        vec![member("a", "felt", vec![]), member("b", "felt", vec![attr("key", &[])])],
    );
    let fs = vec![facts("0x1", "felt", false), facts("0x2", "felt", false)];
    let r = TableStructure::iextract(item, fs, &vec![], &vec![]);
    assert_eq!(r.err(), Some(TableError::KeysNotFirst));
}

#[test]
fn scenario_id_and_name_overrides() {
    let m = member("value", "felt", vec![attr("id", &["custom"]), attr("name", &["Custom Label"])]);
    let f = FieldFacts {
        selector: "0xabc".to_string(),
        encoded_id: Some("0x637573746f6d".to_string()),
        type_def: Some(TypeDefVariant::Default),
    };
    let c = Column::iextract_with(m, &"Thing".to_string(), f, &vec![]).unwrap();
    assert_eq!(c.id, "0x637573746f6d");
    assert_eq!(c.name, "Custom Label");
    assert_eq!(c.selector, "0xabc");
    assert_eq!(c.member, "value");
    assert_eq!(c.member_impl_name, "Thingvalue");
    assert!(c.attributes.is_empty());
    assert!(!c.key);
}

#[test]
fn scenario_no_keys() {
    let item = table("Log", vec![member("a", "felt", vec![]), member("b", "u8", vec![])]);
    let fs = vec![facts("0x1", "felt", false), facts("0x2", "u8", false)];
    let t = TableStructure::iextract(item, fs, &vec![], &vec![]).unwrap();
    assert!(matches!(t.key, KeyType::Custom(0)));
    assert_eq!(t.columns.len(), 2);
}

#[test]
fn id_defaults_to_selector_and_name_to_quoted_member() {
    let m = member("score", "u32", vec![]);
    let c = Column::iextract_with(m, &"P".to_string(), facts("0xfeed", "u32", false), &vec![]).unwrap();
    assert_eq!(c.id, "0xfeed");
    assert_eq!(c.id, c.selector);
    assert_eq!(c.name, "\"score\"");
    assert_eq!(c.ty, "u32");
}

#[test]
fn selector_is_the_same_whatever_the_attributes() {
    let plain = Column::iextract_with(member("x", "felt", vec![]), &"S".to_string(), facts("0x9", "felt", false), &vec![]).unwrap();
    let mut f = facts("0x9", "felt", false);
    f.encoded_id = Some("0x1".to_string());
    let tagged = Column::iextract_with(
        member("x", "felt", vec![attr("id", &["one"]), attr("name", &["X"])]),
        &"S".to_string(),
        f,
        &vec![],
    )
    .unwrap();
    assert_eq!(plain.selector, tagged.selector);
    assert_ne!(plain.id, tagged.id);
}

#[test]
fn name_with_two_arguments_is_an_arity_error() {
    let m = member("x", "felt", vec![attr("name", &["a", "b"])]);
    let r = Column::iextract_with(m, &"S".to_string(), facts("0x1", "felt", false), &vec![]);
    assert_eq!(r.err(), Some(TableError::AttributeArityError));
}

#[test]
fn named_id_argument_is_an_arity_error() {
    let a = Attribute {
        path: "id".to_string(),
        args: vec![AttributeArg { name: Some("value".to_string()), value: "x".to_string() }],
    };
    let r = ColumnAttributes::extract(vec![a], &vec![]);
    assert_eq!(r.err(), Some(TableError::AttributeArityError));
}

#[test]
fn refused_id_encoding_is_an_encoding_error() {
    let m = member("x", "felt", vec![attr("id", &["far-too-long-for-a-felt-identifier"])]);
    let r = Column::iextract_with(m, &"S".to_string(), facts("0x1", "felt", false), &vec![]);
    assert_eq!(r.err(), Some(TableError::IdentifierEncodingError));
}

#[test]
fn missing_resolver_rule_is_unsupported_type() {
    let f = FieldFacts { selector: "0x1".to_string(), encoded_id: None, type_def: None };
    let r = Column::iextract_with(member("x", "Weird", vec![]), &"S".to_string(), f, &vec![]);
    assert_eq!(r.err(), Some(TableError::UnsupportedType));
}

#[test]
fn ineligible_primary_type_is_a_conversion_error() {
    let item = table("T", vec![member("id", "PrimaryId", vec![attr("key", &[])])]);
    let fs = vec![facts("0x1", "not_primary", false)];
    let r = TableStructure::iextract(item, fs, &vec![], &strings(&["PrimaryId"]));
    assert_eq!(r.err(), Some(TableError::PrimaryConversionError));
}

#[test]
fn column_error_comes_before_key_order() {
    let item = table(
        "T",
        vec![member("a", "felt", vec![attr("name", &[])]), member("b", "felt", vec![attr("key", &[])])],
    );
    let fs = vec![facts("0x1", "felt", false), facts("0x2", "felt", false)];
    let r = TableStructure::iextract(item, fs, &vec![], &vec![]);
    assert_eq!(r.err(), Some(TableError::AttributeArityError));
}

#[test]
fn attributes_sorted_into_overrides_and_residual() {
    let attrs = vec![
        attr("raw", &[]),
        attr("name", &["Label"]),
        attr("index", &["ignored"]),
        attr("key", &[]),
        attr("custom", &["1", "2"]),
        attr("name", &["Second"]),
    ];
    let (ca, residual) = ColumnAttributes::extract(attrs, &strings(&["raw"])).unwrap();
    assert_eq!(ca.type_mod.len(), 1);
    assert_eq!(ca.type_mod[0].path, "raw");
    assert_eq!(ca.name, Some("Second".to_string()));
    assert_eq!(ca.id, None);
    let paths: Vec<&str> = residual.iter().map(|a| a.path.as_str()).collect();
    assert_eq!(paths, vec!["index", "key", "custom"]);
    assert!(residual[0].args.is_empty());
    assert_eq!(residual[2].args.len(), 2);
}

#[test]
fn key_with_arguments_is_not_a_key() {
    let m = member("x", "felt", vec![attr("key", &["1"])]);
    assert!(!m.is_key());
    assert!(member("y", "felt", vec![attr("key", &[])]).is_key());
}

fn keyed_columns(keys: &[bool]) -> Vec<Column> {
    keys.iter()
        .enumerate()
        .map(|(i, k)| {
            let attributes = if *k { vec![attr("key", &[])] } else { vec![] };
            Column::iextract_with(member(&format!("f{i}"), "felt", attributes), &"S".to_string(), facts("0x0", "felt", false), &vec![]).unwrap()
        })
        .collect()
}

#[test]
fn keys_index_counts_leading_keys() {
    assert_eq!(get_keys_index(&keyed_columns(&[])), Ok(0));
    assert_eq!(get_keys_index(&keyed_columns(&[false, false])), Ok(0));
    assert_eq!(get_keys_index(&keyed_columns(&[true, true, false])), Ok(2));
    assert_eq!(get_keys_index(&keyed_columns(&[true, true, true])), Ok(3));
}

#[test]
fn keys_index_rejects_gaps() {
    assert_eq!(get_keys_index(&keyed_columns(&[true, false, true])), Err(TableError::KeysNotFirst));
    assert_eq!(get_keys_index(&keyed_columns(&[false, true])), Err(TableError::KeysNotFirst));
}

#[test]
fn several_keys_stay_columns() {
    let item = table(
        "Pos",
        vec![
            member("x", "u32", vec![attr("key", &[])]),
            member("y", "u32", vec![attr("key", &[])]),
            member("v", "felt", vec![]),
        ],
    );
    let fs = vec![facts("0x1", "u32", false), facts("0x2", "u32", false), facts("0x3", "felt", false)];
    let t = TableStructure::iextract(item, fs, &vec![], &strings(&["u32"])).unwrap();
    assert!(matches!(t.key, KeyType::Custom(2)));
    assert_eq!(t.columns.len(), 3);
}

#[test]
fn column_accessors_and_labels() {
    let c = Column::iextract_with(member("hp", "u8", vec![attr("key", &[])]), &"S".to_string(), facts("0x1", "u8", false), &vec![]).unwrap();
    assert_eq!(c.name(), "\"hp\"");
    assert_eq!(c.field(), "hp");
    assert_eq!(c.ty(), "u8");
    assert_eq!(c.iattributes().len(), 1);
    assert_eq!(ColumnName::Default.label(&"hp".to_string()), "\"hp\"");
    assert_eq!(ColumnName::Custom("Health".to_string()).label(&"hp".to_string()), "Health");
}
