use introspect_table::column::{Column, FieldFacts, TypeDefVariant};
use introspect_table::structure::{KeyType, TableStructure};
use introspect_table::syntax::{Attribute, AttributeArg, Member, Struct};

fn attr(path: &str, args: &[&str]) -> Attribute {
    Attribute {
        path: path.to_string(),
        args: args.iter().map(|a| AttributeArg { name: None, value: a.to_string() }).collect(),
    }
}

fn field(name: &str, ty: &str, key: bool) -> Member {
    let attributes = if key { vec![attr("key", &[])] } else { vec![] };
    Member { name: name.to_string(), ty: ty.to_string(), attributes }
}

fn facts(selector: &str) -> FieldFacts {
    FieldFacts { selector: selector.to_string(), encoded_id: None, type_def: Some(TypeDefVariant::Default) }
}

fn build(name: &str, members: Vec<Member>, primary: &[&str]) -> TableStructure {
    let fs = (0..members.len()).map(|i| facts(&format!("0x{i}"))).collect();
    let item = Struct { name: name.to_string(), members, attributes: vec![] };
    let primary: Vec<String> = primary.iter().map(|s| s.to_string()).collect();
    TableStructure::iextract(item, fs, &vec![], &primary).unwrap()
}

fn column(name: &str, ty: &str) -> Column {
    Column::iextract_with(field(name, ty, false), &"Rec".to_string(), facts("0x5"), &vec![]).unwrap()
}

#[test]
fn column_mod_binds_member_to_id() {
    let mut buf = String::new();
    column("score", "u32").cwrite_column_mod(&mut buf);
    assert_eq!(buf, "pub const score = 0x5;\n");
}

#[test]
fn member_call_with_and_without_self() {
    let c = column("score", "u32");
    let mut a = String::new();
    c.serialize_member_call(&mut a, true);
    assert_eq!(a, "Recscore::serialize_member(self.score, ref data);\n");
    let mut b = String::new();
    c.serialize_member_call(&mut b, false);
    assert_eq!(b, "Recscore::serialize_member(score, ref data);\n");
}

#[test]
fn member_impl_binding() {
    let mut buf = String::new();
    column("score", "u32").cwrite_member_impl(&mut buf, "tbl", "RecStructure");
    assert_eq!(buf, "pub impl Recscore = tbl::MemberImpl<RecStructure, 0x5, u32>;\n");
}

#[test]
fn column_def_with_metadata() {
    let m = Member {
        name: "hp".to_string(),
        ty: "u8".to_string(),
        attributes: vec![
            attr("flag", &[]),
            Attribute {
                path: "range".to_string(),
                args: vec![
                    AttributeArg { name: None, value: "1".to_string() },
                    AttributeArg { name: Some("max".to_string()), value: "9".to_string() },
                ],
            },
        ],
    };
    let c = Column::iextract_with(m, &"Rec".to_string(), facts("0x7"), &vec![]).unwrap();
    let mut buf = String::new();
    c.cwrite_column_def(&mut buf, "tbl");
    assert_eq!(
        buf,
        "tbl::serialise_column::<0x7, _, {[\"hp\", flag, range(1, max: 9)]}, u8>(ref table_def, ref children);\n"
    );
}

#[test]
fn column_mods_namespace() {
    let t = build("Rec", vec![field("a", "felt", false), field("b", "u8", false)], &[]);
    let mut buf = String::new();
    t.cwrite_column_mods(&mut buf);
    assert_eq!(buf, "pub mod RecColumn {\npub const a = 0x0;\npub const b = 0x1;\n}\n");
}

#[test]
fn structure_impl_counts_and_columns() {
    let names: Vec<String> = (0..12).map(|i| format!("c{i}")).collect();
    let members = names.iter().map(|n| field(n, "felt", false)).collect();
    let t = build("Wide", members, &[]);
    let mut buf = String::new();
    t.cwrite_structure_impl(&mut buf, "tbl");
    assert!(buf.starts_with("pub impl WideStructure of tbl::TableStructure {\ntype Primary = ();\nconst ATTRIBUTE_COUNT = 0;\nconst COLUMN_COUNT = 12;\n"));
    assert!(buf.contains("fn serialise_attributes(ref data: Array<felt252>) {\ntbl::serialise_data::<_, {[]}>(ref data);\n}\n"));
    assert!(buf.contains("fn serialize_primary(ref data: Array<felt252>) {\n}\n"));
    assert_eq!(buf.matches("tbl::serialise_column::<").count(), 12);
    let first = buf.find("serialise_column::<0x0,").unwrap();
    let last = buf.find("serialise_column::<0x11,").unwrap();
    assert!(first < last);
    assert!(buf.ends_with("(ref table_def, ref children);\n}\n}\n"));
}

#[test]
fn primary_structure_and_identity() {
    let t = build("Item", vec![field("id", "PrimaryId", true), field("name", "felt", false)], &["PrimaryId"]);
    assert!(matches!(t.key, KeyType::Primary(_)));
    let mut buf = String::new();
    t.cwrite_structure_impl(&mut buf, "tbl");
    assert!(buf.contains("type Primary = PrimaryId;\n"));
    assert!(buf.contains("fn serialize_primary(ref data: Array<felt252>) {\ntbl::serialize_primary::<_, {[\"id\", key]}, PrimaryId>(data);\n}\n"));
    let mut ids = String::new();
    t.cwrite_id_impls(&mut ids, "tbl");
    assert_eq!(
        ids,
        "pub impl ItemRecordPrimary of tbl::RecordPrimary<ItemStructure, Item> {\nfn record_id(self: @Item) -> @ItemStructure::Primary {\nself.id\n}\n}\n"
    );
}

#[test]
fn no_identity_without_keys_and_all_values() {
    let t = build("Log", vec![field("a", "felt", false), field("b", "u8", false)], &[]);
    let mut ids = String::new();
    t.cwrite_id_impls(&mut ids, "tbl");
    assert_eq!(ids, "");
    let mut values = String::new();
    t.cwrite_values_impls(&mut values, "tbl");
    assert_eq!(
        values,
        "pub impl LogRecordValues of tbl::RecordValues<LogStructure, Log> {\nfn serialize_values(self: @Log, ref data: Array<felt252>) {\nLoga::serialize_member(self.a, ref data);\nLogb::serialize_member(self.b, ref data);\n}\n}\n"
    );
}

#[test]
fn values_skip_key_columns() {
    let t = build("P", vec![field("k", "u32", true), field("v", "felt", false), field("w", "u8", false)], &[]);
    let mut values = String::new();
    t.cwrite_values_impls(&mut values, "tbl");
    assert!(!values.contains("self.k"));
    let v = values.find("Pv::serialize_member(self.v").unwrap();
    let w = values.find("Pw::serialize_member(self.w").unwrap();
    assert!(v < w);
}

#[test]
fn single_key_identity() {
    let t = build("P", vec![field("k", "u32", true), field("v", "felt", false)], &[]);
    let text = t.get_single_key_impls("tbl");
    assert_eq!(
        text,
        "pub impl PRecordKey of tbl::RecordKey<PStructure, P, u32> {\nfn record_key(self: @P) -> @u32 {\nself.k\n}\nfn serialize_key(self: @P, ref data: Array<felt252>) {\nPk::serialize_member(self.k, ref data);\n}\n}\n"
    );
    let mut ids = String::new();
    t.cwrite_id_impls(&mut ids, "tbl");
    assert_eq!(ids, text);
}

#[test]
fn composite_key_identity() {
    let t = build("Pos", vec![field("x", "u32", true), field("y", "u64", true), field("v", "felt", false)], &[]);
    let text = t.get_keyed_impls("tbl");
    assert_eq!(
        text,
        "pub impl PosRecordKeys of tbl::RecordKeys<PosStructure, Pos, (u32,u64), (@u32,@u64)> {\nfn record_keys(self: @Pos) -> (@u32,@u64) {\n(self.x,self.y)\n}\nfn serialize_keys(keys: (@u32,@u64), ref data: Array<felt252>) {\nlet (x,y) = keys;\nPosx::serialize_member(x, ref data);\nPosy::serialize_member(y, ref data);\n}\n}\n"
    );
}

#[test]
fn generation_is_repeatable() {
    let t = build("Pos", vec![field("x", "u32", true), field("y", "u64", true), field("v", "felt", false)], &[]);
    let mut a = String::new();
    t.cwrite_table(&mut a, "tbl");
    let mut b = String::new();
    t.cwrite_table(&mut b, "tbl");
    assert_eq!(a, b);
    let mods = a.find("pub mod PosColumn").unwrap();
    let structure = a.find("pub impl PosStructure").unwrap();
    let keys = a.find("pub impl PosRecordKeys").unwrap();
    let values = a.find("pub impl PosRecordValues").unwrap();
    assert!(mods < structure && structure < keys && keys < values);
}
