use vstd::prelude::*;
use vstd::string::StringExecFns;
use crate::column::Column;
use crate::primary::Primary;
use crate::structure::{KeyType, TableStructure};
use crate::syntax::{Attribute, AttributeArg, AttributeArgView, AttributeView, attribute_views};
use crate::text::{join_strings, joined, push_decimal, decimal, string_views};

verus! {

/// The texts of the items of `s`, one after another.
pub open spec fn concat_map<A>(s: Seq<A>, f: spec_fn(A) -> Seq<char>) -> Seq<char>
    decreases s.len(),
{
    if s.len() == 0 {
        Seq::empty()
    } else {
        concat_map(s.drop_last(), f) + f(s.last())
    }
}

/// An argument: its value, after `name: ` when it is named.
pub open spec fn arg_text(a: AttributeArgView) -> Seq<char> {
    match a.name {
        Some(n) => n + ": "@ + a.value,
        None => a.value,
    }
}

/// An attribute: its path, then its arguments in parentheses when it has any.
pub open spec fn attribute_text(a: AttributeView) -> Seq<char> {
    if a.args.len() == 0 {
        a.path
    } else {
        a.path + "("@ + joined(a.args.map_values(|x: AttributeArgView| arg_text(x)), ", "@) + ")"@
    }
}

/// The metadata of a column or primary field: its name, then `, ` and each
/// attribute.
pub open spec fn meta_text(name: Seq<char>, attrs: Seq<AttributeView>) -> Seq<char> {
    name + concat_map(attrs, |a: AttributeView| ", "@ + attribute_text(a))
}

/// The attributes separated by commas.
pub open spec fn attributes_csv(attrs: Seq<AttributeView>) -> Seq<char> {
    joined(attrs.map_values(|a: AttributeView| attribute_text(a)), ","@)
}

pub open spec fn member_call_text(c: Column, with_self: bool) -> Seq<char> {
    c.member_impl_name@ + "::serialize_member("@ + (if with_self {
        "self."@
    } else {
        Seq::empty()
    }) + c.member@ + ", ref data);\n"@
}

pub open spec fn column_mod_text(c: Column) -> Seq<char> {
    "pub const "@ + c.member@ + " = "@ + c.id@ + ";\n"@
}

pub open spec fn column_def_text(c: Column, i_path: Seq<char>) -> Seq<char> {
    i_path + "::serialise_column::<"@ + c.id@ + ", _, {["@ + meta_text(
        c.name@,
        attribute_views(c.attributes@),
    ) + "]}, "@ + c.ty@ + ">(ref table_def, ref children);\n"@
}

pub open spec fn member_impl_text(c: Column, i_path: Seq<char>, struct_impl_name: Seq<char>) -> Seq<
    char,
> {
    "pub impl "@ + c.member_impl_name@ + " = "@ + i_path + "::MemberImpl<"@ + struct_impl_name
        + ", "@ + c.id@ + ", "@ + c.ty@ + ">;\n"@
}

pub open spec fn primary_data_text(p: Primary, i_path: Seq<char>) -> Seq<char> {
    i_path + "::serialize_primary::<_, {["@ + meta_text(p.name@, attribute_views(p.attributes@))
        + "]}, "@ + p.ty@ + ">(data);\n"@
}

fn append_arg(buf: &mut String, a: &AttributeArg)
    ensures
        final(buf)@ == old(buf)@ + arg_text(a@),
{
    match &a.name {
        Some(n) => {
            buf.append(n.as_str());
            buf.append(": ");
        },
        None => {},
    }
    buf.append(a.value.as_str());
    assert(final(buf)@ =~= old(buf)@ + arg_text(a@));
}

/// Appends the text of one attribute.
pub fn cwrite_attribute(buf: &mut String, a: &Attribute)
    ensures
        final(buf)@ == old(buf)@ + attribute_text(a@),
{
    buf.append(a.path.as_str());
    if a.args.len() > 0 {
        let mut parts: Vec<String> = Vec::new();
        let mut i: usize = 0;
        while i < a.args.len()
            invariant
                i <= a.args@.len(),
                string_views(parts@) =~= a@.args.take(i as int).map_values(
                    |x: AttributeArgView| arg_text(x),
                ),
            decreases a.args@.len() - i,
        {
            let mut s = String::new();
            append_arg(&mut s, &a.args[i]);
            let ghost prev = parts@;
            parts.push(s);
            assert(a@.args[i as int] == a.args@[i as int]@);
            assert(string_views(parts@) =~= string_views(prev).push(s@));
            assert(a@.args.take(i + 1) =~= a@.args.take(i as int).push(a@.args[i as int]));
            assert(string_views(parts@) =~= a@.args.take(i + 1).map_values(
                |x: AttributeArgView| arg_text(x),
            ));
            i = i + 1;
        }
        assert(a@.args.take(i as int) =~= a@.args);
        let inner = join_strings(&parts, ", ");
        buf.append("(");
        buf.append(inner.as_str());
        buf.append(")");
    }
    assert(final(buf)@ =~= old(buf)@ + attribute_text(a@));
}

/// Appends the metadata text: the name, then `, ` and each attribute.
pub fn cwrite_meta_data(buf: &mut String, name: &String, attributes: &Vec<Attribute>)
    ensures
        final(buf)@ == old(buf)@ + meta_text(name@, attribute_views(attributes@)),
{
    let ghost attrs = attribute_views(attributes@);
    let ghost f = |a: AttributeView| ", "@ + attribute_text(a);
    buf.append(name.as_str());
    let mut i: usize = 0;
    while i < attributes.len()
        invariant
            i <= attributes@.len(),
            attrs == attribute_views(attributes@),
            f == (|a: AttributeView| ", "@ + attribute_text(a)),
            buf@ == old(buf)@ + name@ + concat_map(attrs.take(i as int), f),
        decreases attributes@.len() - i,
    {
        buf.append(", ");
        cwrite_attribute(buf, &attributes[i]);
        assert(attrs.take(i + 1).drop_last() =~= attrs.take(i as int));
        i = i + 1;
    }
    assert(attrs.take(i as int) =~= attrs);
}

impl Column {
    /// Appends the call that serialises this column's member.
    pub fn serialize_member_call(&self, buf: &mut String, with_self: bool)
        ensures
            final(buf)@ == old(buf)@ + member_call_text(*self, with_self),
    {
        buf.append(self.member_impl_name.as_str());
        buf.append("::serialize_member(");
        if with_self {
            buf.append("self.");
        }
        buf.append(self.member.as_str());
        buf.append(", ref data);\n");
        assert(final(buf)@ =~= old(buf)@ + member_call_text(*self, with_self));
    }

    /// Appends the constant that binds the member name to the column id.
    pub fn cwrite_column_mod(&self, buf: &mut String)
        ensures
            final(buf)@ == old(buf)@ + column_mod_text(*self),
    {
        buf.append("pub const ");
        buf.append(self.member.as_str());
        buf.append(" = ");
        buf.append(self.id.as_str());
        buf.append(";\n");
        assert(final(buf)@ =~= old(buf)@ + column_mod_text(*self));
    }

    /// Appends the column definition call.
    pub fn cwrite_column_def(&self, buf: &mut String, i_path: &str)
        ensures
            final(buf)@ == old(buf)@ + column_def_text(*self, i_path@),
    {
        buf.append(i_path);
        buf.append("::serialise_column::<");
        buf.append(self.id.as_str());
        buf.append(", _, {[");
        cwrite_meta_data(buf, &self.name, &self.attributes);
        buf.append("]}, ");
        buf.append(self.ty.as_str());
        buf.append(">(ref table_def, ref children);\n");
        assert(final(buf)@ =~= old(buf)@ + column_def_text(*self, i_path@));
    }

    /// Appends the binding of this column's member to the structure.
    pub fn cwrite_member_impl(&self, buf: &mut String, i_path: &str, struct_impl_name: &str)
        ensures
            final(buf)@ == old(buf)@ + member_impl_text(*self, i_path@, struct_impl_name@),
    {
        buf.append("pub impl ");
        buf.append(self.member_impl_name.as_str());
        buf.append(" = ");
        buf.append(i_path);
        buf.append("::MemberImpl<");
        buf.append(struct_impl_name);
        buf.append(", ");
        buf.append(self.id.as_str());
        buf.append(", ");
        buf.append(self.ty.as_str());
        buf.append(">;\n");
        assert(final(buf)@ =~= old(buf)@ + member_impl_text(*self, i_path@, struct_impl_name@));
    }
}

impl Primary {
    /// Appends the primary field's serialisation call.
    pub fn cwrite_primary_data(&self, buf: &mut String, i_path: &str)
        ensures
            final(buf)@ == old(buf)@ + primary_data_text(*self, i_path@),
    {
        buf.append(i_path);
        buf.append("::serialize_primary::<_, {[");
        cwrite_meta_data(buf, &self.name, &self.attributes);
        buf.append("]}, ");
        buf.append(self.ty.as_str());
        buf.append(">(data);\n");
        assert(final(buf)@ =~= old(buf)@ + primary_data_text(*self, i_path@));
    }
}

/// The columns namespace: one constant per column, in order.
pub open spec fn column_mods_text(t: TableStructure) -> Seq<char> {
    "pub mod "@ + t.columns_mod_name@ + " {\n"@ + concat_map(
        t.columns@,
        |c: Column| column_mod_text(c),
    ) + "}\n"@
}

/// One member binding per column, in order.
pub open spec fn member_impls_text(t: TableStructure, i_path: Seq<char>) -> Seq<char> {
    concat_map(t.columns@, |c: Column| member_impl_text(c, i_path, t.impl_name@))
}

/// The record's identity type: the primary field's type, or the unit type.
pub open spec fn primary_type_text(k: KeyType) -> Seq<char> {
    match k {
        KeyType::Primary(p) => p.ty@,
        KeyType::Custom(_) => "()"@,
    }
}

/// The body of the primary serialisation routine: empty without a primary field.
pub open spec fn primary_body_text(k: KeyType, i_path: Seq<char>) -> Seq<char> {
    match k {
        KeyType::Primary(p) => primary_data_text(p, i_path),
        KeyType::Custom(_) => Seq::empty(),
    }
}

/// The head of the structure's main implementation block: its identity type
/// and its counts.
pub open spec fn structure_head_text(t: TableStructure, i_path: Seq<char>) -> Seq<char> {
    "pub impl "@ + t.impl_name@ + " of "@ + i_path + "::TableStructure {\n"@ + "type Primary = "@
        + primary_type_text(t.key) + ";\n"@ + "const ATTRIBUTE_COUNT = "@ + decimal(
        t.attributes@.len(),
    ) + ";\n"@ + "const COLUMN_COUNT = "@ + decimal(t.columns@.len()) + ";\n"@
}

/// The attribute and primary serialisation routines.
pub open spec fn structure_routines_text(t: TableStructure, i_path: Seq<char>) -> Seq<char> {
    "fn serialise_attributes(ref data: Array<felt252>) {\n"@ + i_path + "::serialise_data::<_, {["@
        + attributes_csv(attribute_views(t.attributes@)) + "]}>(ref data);\n}\n"@
        + "fn serialize_primary(ref data: Array<felt252>) {\n"@ + primary_body_text(t.key, i_path)
        + "}\n"@
}

/// The column serialisation routine, one definition call per column in order,
/// closing the block.
pub open spec fn structure_columns_text(t: TableStructure, i_path: Seq<char>) -> Seq<char> {
    "fn serialise_columns(ref table_def: Array<felt252>, ref children: ChildDefs) {\n"@
        + concat_map(t.columns@, |c: Column| column_def_text(c, i_path)) + "}\n}\n"@
}

/// The structure's main implementation block.
pub open spec fn structure_impl_text(t: TableStructure, i_path: Seq<char>) -> Seq<char> {
    structure_head_text(t, i_path) + structure_routines_text(t, i_path) + structure_columns_text(
        t,
        i_path,
    )
}

/// The identity accessor of a record with a primary field.
pub open spec fn record_primary_text(t: TableStructure, p: Primary, i_path: Seq<char>) -> Seq<char> {
    "pub impl "@ + t.name@ + "RecordPrimary of "@ + i_path + "::RecordPrimary<"@ + t.impl_name@
        + ", "@ + t.name@ + "> {\n"@ + "fn record_id(self: @"@ + t.name@ + ") -> @"@
        + t.impl_name@ + "::Primary {\n"@ + "self."@ + p.member@ + "\n}\n}\n"@
}

/// The identity implementation of a record with one key column `c`.
pub open spec fn single_key_text(t: TableStructure, c: Column, i_path: Seq<char>) -> Seq<char> {
    "pub impl "@ + t.name@ + "RecordKey of "@ + i_path + "::RecordKey<"@ + t.impl_name@ + ", "@
        + t.name@ + ", "@ + c.ty@ + "> {\n"@ + "fn record_key(self: @"@ + t.name@ + ") -> @"@
        + c.ty@ + " {\n"@ + "self."@ + c.member@ + "\n}\n"@ + "fn serialize_key(self: @"@
        + t.name@ + ", ref data: Array<felt252>) {\n"@ + member_call_text(c, true) + "}\n}\n"@
}

pub open spec fn key_types(keys: Seq<Column>) -> Seq<Seq<char>> {
    keys.map_values(|c: Column| c.ty@)
}

pub open spec fn snapped_key_types(keys: Seq<Column>) -> Seq<Seq<char>> {
    keys.map_values(|c: Column| "@"@ + c.ty@)
}

pub open spec fn key_members(keys: Seq<Column>) -> Seq<Seq<char>> {
    keys.map_values(|c: Column| c.member@)
}

pub open spec fn self_key_members(keys: Seq<Column>) -> Seq<Seq<char>> {
    keys.map_values(|c: Column| "self."@ + c.member@)
}

/// The identity implementation of a record with several key columns `keys`.
pub open spec fn keyed_text(t: TableStructure, keys: Seq<Column>, i_path: Seq<char>) -> Seq<char> {
    let tys = joined(key_types(keys), ","@);
    let snapped = joined(snapped_key_types(keys), ","@);
    "pub impl "@ + t.name@ + "RecordKeys of "@ + i_path + "::RecordKeys<"@ + t.impl_name@ + ", "@
        + t.name@ + ", ("@ + tys + "), ("@ + snapped + ")> {\n"@ + "fn record_keys(self: @"@
        + t.name@ + ") -> ("@ + snapped + ") {\n"@ + "("@ + joined(self_key_members(keys), ","@)
        + ")\n}\n"@ + "fn serialize_keys(keys: ("@ + snapped + "), ref data: Array<felt252>) {\n"@
        + "let ("@ + joined(key_members(keys), ","@) + ") = keys;\n"@ + concat_map(
        keys,
        |c: Column| member_call_text(c, false),
    ) + "}\n}\n"@
}

/// The record-identity implementation that the key type calls for.
pub open spec fn id_impls_text(t: TableStructure, i_path: Seq<char>) -> Seq<char> {
    match t.key {
        KeyType::Primary(p) => record_primary_text(t, p, i_path),
        KeyType::Custom(n) => if n == 0 {
            Seq::empty()
        } else if n == 1 {
            single_key_text(t, t.columns@[0], i_path)
        } else {
            keyed_text(t, t.columns@.take(n as int), i_path)
        },
    }
}

pub open spec fn is_value_column(c: Column) -> bool {
    !c.key
}

/// The columns that are not keys, in declaration order.
pub open spec fn value_columns(cs: Seq<Column>) -> Seq<Column> {
    cs.filter(|c: Column| is_value_column(c))
}

/// The record-values implementation: one serialisation call per non-key column.
pub open spec fn values_text(t: TableStructure, i_path: Seq<char>) -> Seq<char> {
    "pub impl "@ + t.name@ + "RecordValues of "@ + i_path + "::RecordValues<"@ + t.impl_name@
        + ", "@ + t.name@ + "> {\n"@ + "fn serialize_values(self: @"@ + t.name@
        + ", ref data: Array<felt252>) {\n"@ + concat_map(
        value_columns(t.columns@),
        |c: Column| member_call_text(c, true),
    ) + "}\n}\n"@
}

/// All generated text of a table, in its fixed order.
pub open spec fn table_text(t: TableStructure, i_path: Seq<char>) -> Seq<char> {
    column_mods_text(t) + member_impls_text(t, i_path) + structure_impl_text(t, i_path)
        + id_impls_text(t, i_path) + values_text(t, i_path)
}

proof fn lemma_concat_map_push<A>(s: Seq<A>, a: A, f: spec_fn(A) -> Seq<char>)
    ensures
        concat_map(s.push(a), f) == concat_map(s, f) + f(a),
{
    assert(s.push(a).drop_last() =~= s);
}

impl TableStructure {
    /// Appends the columns namespace.
    pub fn cwrite_column_mods(&self, buf: &mut String)
        ensures
            final(buf)@ == old(buf)@ + column_mods_text(*self),
    {
        let ghost f = |c: Column| column_mod_text(c);
        let ghost cs = self.columns@;
        buf.append("pub mod ");
        buf.append(self.columns_mod_name.as_str());
        buf.append(" {\n");
        let ghost mid = buf@;
        let mut i: usize = 0;
        while i < self.columns.len()
            invariant
                i <= cs.len(),
                cs == self.columns@,
                f == (|c: Column| column_mod_text(c)),
                buf@ == mid + concat_map(cs.take(i as int), f),
            decreases cs.len() - i,
        {
            self.columns[i].cwrite_column_mod(buf);
            proof {
                lemma_concat_map_push(cs.take(i as int), cs[i as int], f);
                assert(cs.take(i + 1) =~= cs.take(i as int).push(cs[i as int]));
            }
            i = i + 1;
        }
        assert(cs.take(i as int) =~= cs);
        buf.append("}\n");
        assert(final(buf)@ =~= old(buf)@ + column_mods_text(*self));
    }

    /// Appends one member binding per column.
    pub fn cwrite_member_impls(&self, buf: &mut String, i_path: &str)
        ensures
            final(buf)@ == old(buf)@ + member_impls_text(*self, i_path@),
    {
        let ghost f = |c: Column| member_impl_text(c, i_path@, self.impl_name@);
        let ghost cs = self.columns@;
        let mut i: usize = 0;
        while i < self.columns.len()
            invariant
                i <= cs.len(),
                cs == self.columns@,
                f == (|c: Column| member_impl_text(c, i_path@, self.impl_name@)),
                buf@ == old(buf)@ + concat_map(cs.take(i as int), f),
            decreases cs.len() - i,
        {
            self.columns[i].cwrite_member_impl(buf, i_path, self.impl_name.as_str());
            proof {
                lemma_concat_map_push(cs.take(i as int), cs[i as int], f);
                assert(cs.take(i + 1) =~= cs.take(i as int).push(cs[i as int]));
            }
            i = i + 1;
        }
        assert(cs.take(i as int) =~= cs);
    }
}


/// The texts of a list of attributes.
fn attribute_texts(attributes: &Vec<Attribute>) -> (r: Vec<String>)
    ensures
        string_views(r@) == attribute_views(attributes@).map_values(|a: AttributeView| attribute_text(a)),
{
    let ghost views = attribute_views(attributes@);
    let mut parts: Vec<String> = Vec::new();
    let mut i: usize = 0;
    while i < attributes.len()
        invariant
            i <= attributes@.len(),
            views == attribute_views(attributes@),
            string_views(parts@) =~= views.take(i as int).map_values(|a: AttributeView| attribute_text(a)),
        decreases attributes@.len() - i,
    {
        let mut s = String::new();
        cwrite_attribute(&mut s, &attributes[i]);
        let ghost prev = parts@;
        parts.push(s);
        assert(string_views(parts@) =~= string_views(prev).push(s@));
        assert(views.take(i + 1) =~= views.take(i as int).push(views[i as int]));
        assert(string_views(parts@) =~= views.take(i + 1).map_values(|a: AttributeView| attribute_text(a)));
        i = i + 1;
    }
    assert(views.take(i as int) =~= views);
    parts
}

/// The columns that identify a record under `Custom` keying.
pub open spec fn key_columns(t: TableStructure) -> Seq<Column> {
    match t.key {
        KeyType::Custom(n) => t.columns@.take(n as int),
        KeyType::Primary(_) => Seq::empty(),
    }
}

impl TableStructure {
    fn cwrite_structure_head(&self, buf: &mut String, i_path: &str)
        ensures
            final(buf)@ == old(buf)@ + structure_head_text(*self, i_path@),
    {
        buf.append("pub impl ");
        buf.append(self.impl_name.as_str());
        buf.append(" of ");
        buf.append(i_path);
        buf.append("::TableStructure {\n");
        buf.append("type Primary = ");
        match &self.key {
            KeyType::Primary(p) => buf.append(p.ty.as_str()),
            KeyType::Custom(_) => buf.append("()"),
        }
        buf.append(";\n");
        buf.append("const ATTRIBUTE_COUNT = ");
        push_decimal(buf, self.attributes.len());
        buf.append(";\n");
        buf.append("const COLUMN_COUNT = ");
        push_decimal(buf, self.columns.len());
        buf.append(";\n");
        assert(final(buf)@ =~= old(buf)@ + structure_head_text(*self, i_path@));
    }

    fn cwrite_structure_routines(&self, buf: &mut String, i_path: &str)
        ensures
            final(buf)@ == old(buf)@ + structure_routines_text(*self, i_path@),
    {
        buf.append("fn serialise_attributes(ref data: Array<felt252>) {\n");
        buf.append(i_path);
        buf.append("::serialise_data::<_, {[");
        let texts = attribute_texts(&self.attributes);
        let csv = join_strings(&texts, ",");
        buf.append(csv.as_str());
        buf.append("]}>(ref data);\n}\n");
        buf.append("fn serialize_primary(ref data: Array<felt252>) {\n");
        match &self.key {
            KeyType::Primary(p) => p.cwrite_primary_data(buf, i_path),
            KeyType::Custom(_) => {},
        }
        buf.append("}\n");
        assert(final(buf)@ =~= old(buf)@ + structure_routines_text(*self, i_path@));
    }

    fn cwrite_structure_columns(&self, buf: &mut String, i_path: &str)
        ensures
            final(buf)@ == old(buf)@ + structure_columns_text(*self, i_path@),
    {
        buf.append("fn serialise_columns(ref table_def: Array<felt252>, ref children: ChildDefs) {\n");
        let ghost mid = buf@;
        let ghost f = |c: Column| column_def_text(c, i_path@);
        let ghost cs = self.columns@;
        let mut i: usize = 0;
        while i < self.columns.len()
            invariant
                i <= cs.len(),
                cs == self.columns@,
                f == (|c: Column| column_def_text(c, i_path@)),
                buf@ == mid + concat_map(cs.take(i as int), f),
            decreases cs.len() - i,
        {
            self.columns[i].cwrite_column_def(buf, i_path);
            proof {
                lemma_concat_map_push(cs.take(i as int), cs[i as int], f);
                assert(cs.take(i + 1) =~= cs.take(i as int).push(cs[i as int]));
            }
            i = i + 1;
        }
        assert(cs.take(i as int) =~= cs);
        buf.append("}\n}\n");
        assert(final(buf)@ =~= old(buf)@ + structure_columns_text(*self, i_path@));
    }

    /// Appends the structure's main implementation block.
    pub fn cwrite_structure_impl(&self, buf: &mut String, i_path: &str)
        ensures
            final(buf)@ == old(buf)@ + structure_impl_text(*self, i_path@),
    {
        self.cwrite_structure_head(buf, i_path);
        self.cwrite_structure_routines(buf, i_path);
        self.cwrite_structure_columns(buf, i_path);
        assert(final(buf)@ =~= old(buf)@ + structure_impl_text(*self, i_path@));
    }

    /// The identity implementation for a single leading key column.
    pub fn get_single_key_impls(&self, i_table_path: &str) -> (r: String)
        requires
            self.wf(),
            self.key matches KeyType::Custom(n) && n >= 1,
        ensures
            r@ == single_key_text(*self, self.columns@[0], i_table_path@),
    {
        let key = &self.columns[0];
        let mut buf = String::new();
        buf.append("pub impl ");
        buf.append(self.name.as_str());
        buf.append("RecordKey of ");
        buf.append(i_table_path);
        buf.append("::RecordKey<");
        buf.append(self.impl_name.as_str());
        buf.append(", ");
        buf.append(self.name.as_str());
        buf.append(", ");
        buf.append(key.ty.as_str());
        buf.append("> {\n");
        buf.append("fn record_key(self: @");
        buf.append(self.name.as_str());
        buf.append(") -> @");
        buf.append(key.ty.as_str());
        buf.append(" {\n");
        buf.append("self.");
        buf.append(key.member.as_str());
        buf.append("\n}\n");
        buf.append("fn serialize_key(self: @");
        buf.append(self.name.as_str());
        buf.append(", ref data: Array<felt252>) {\n");
        key.serialize_member_call(&mut buf, true);
        buf.append("}\n}\n");
        assert(buf@ =~= single_key_text(*self, self.columns@[0], i_table_path@));
        buf
    }

    /// The identity implementation for several leading key columns.
    pub fn get_keyed_impls(&self, i_table_path: &str) -> (r: String)
        requires
            self.wf(),
        ensures
            r@ == keyed_text(*self, key_columns(*self), i_table_path@),
    {
        let n: usize = match &self.key {
            KeyType::Custom(n) => *n,
            KeyType::Primary(_) => 0,
        };
        let ghost keys = key_columns(*self);
        assert(keys =~= self.columns@.take(n as int));
        let mut tys: Vec<String> = Vec::new();
        let mut snapped: Vec<String> = Vec::new();
        let mut members: Vec<String> = Vec::new();
        let mut self_members: Vec<String> = Vec::new();
        let mut calls = String::new();
        let ghost g = |c: Column| member_call_text(c, false);
        let mut i: usize = 0;
        while i < n
            invariant
                i <= n <= self.columns@.len(),
                keys == self.columns@.take(n as int),
                g == (|c: Column| member_call_text(c, false)),
                string_views(tys@) =~= key_types(keys.take(i as int)),
                string_views(snapped@) =~= snapped_key_types(keys.take(i as int)),
                string_views(members@) =~= key_members(keys.take(i as int)),
                string_views(self_members@) =~= self_key_members(keys.take(i as int)),
                calls@ == concat_map(keys.take(i as int), g),
            decreases n - i,
        {
            let c = &self.columns[i];
            let ghost prev = (tys@, snapped@, members@, self_members@);
            tys.push(c.ty.clone());
            let mut s = String::new();
            s.append("@");
            s.append(c.ty.as_str());
            snapped.push(s);
            members.push(c.member.clone());
            let mut m = String::new();
            m.append("self.");
            m.append(c.member.as_str());
            self_members.push(m);
            c.serialize_member_call(&mut calls, false);
            proof {
                let k = keys.take(i as int);
                assert(keys.take(i + 1) =~= k.push(*c));
                lemma_concat_map_push(k, *c, g);
                assert(string_views(tys@) =~= string_views(prev.0).push(c.ty@));
                assert(string_views(snapped@) =~= string_views(prev.1).push(s@));
                assert(string_views(members@) =~= string_views(prev.2).push(c.member@));
                assert(string_views(self_members@) =~= string_views(prev.3).push(m@));
                assert(string_views(tys@) =~= key_types(keys.take(i + 1)));
                assert(string_views(snapped@) =~= snapped_key_types(keys.take(i + 1)));
                assert(string_views(members@) =~= key_members(keys.take(i + 1)));
                assert(string_views(self_members@) =~= self_key_members(keys.take(i + 1)));
            }
            i = i + 1;
        }
        assert(keys.take(i as int) =~= keys);
        let tys_text = join_strings(&tys, ",");
        let snapped_text = join_strings(&snapped, ",");
        let members_text = join_strings(&members, ",");
        let self_members_text = join_strings(&self_members, ",");
        let mut buf = String::new();
        buf.append("pub impl ");
        buf.append(self.name.as_str());
        buf.append("RecordKeys of ");
        buf.append(i_table_path);
        buf.append("::RecordKeys<");
        buf.append(self.impl_name.as_str());
        buf.append(", ");
        buf.append(self.name.as_str());
        buf.append(", (");
        buf.append(tys_text.as_str());
        buf.append("), (");
        buf.append(snapped_text.as_str());
        buf.append(")> {\n");
        buf.append("fn record_keys(self: @");
        buf.append(self.name.as_str());
        buf.append(") -> (");
        buf.append(snapped_text.as_str());
        buf.append(") {\n");
        buf.append("(");
        buf.append(self_members_text.as_str());
        buf.append(")\n}\n");
        buf.append("fn serialize_keys(keys: (");
        buf.append(snapped_text.as_str());
        buf.append("), ref data: Array<felt252>) {\n");
        buf.append("let (");
        buf.append(members_text.as_str());
        buf.append(") = keys;\n");
        buf.append(calls.as_str());
        buf.append("}\n}\n");
        assert(buf@ =~= keyed_text(*self, keys, i_table_path@));
        buf
    }
}

impl TableStructure {
    /// Appends the record-identity implementation that the key type calls for;
    /// nothing without key columns.
    pub fn cwrite_id_impls(&self, buf: &mut String, i_path: &str)
        requires
            self.wf(),
        ensures
            final(buf)@ == old(buf)@ + id_impls_text(*self, i_path@),
    {
        match &self.key {
            KeyType::Primary(p) => {
                buf.append("pub impl ");
                buf.append(self.name.as_str());
                buf.append("RecordPrimary of ");
                buf.append(i_path);
                buf.append("::RecordPrimary<");
                buf.append(self.impl_name.as_str());
                buf.append(", ");
                buf.append(self.name.as_str());
                buf.append("> {\n");
                buf.append("fn record_id(self: @");
                buf.append(self.name.as_str());
                buf.append(") -> @");
                buf.append(self.impl_name.as_str());
                buf.append("::Primary {\n");
                buf.append("self.");
                buf.append(p.member.as_str());
                buf.append("\n}\n}\n");
                assert(final(buf)@ =~= old(buf)@ + id_impls_text(*self, i_path@));
            },
            KeyType::Custom(n) => {
                if *n == 0 {
                    assert(final(buf)@ =~= old(buf)@ + id_impls_text(*self, i_path@));
                } else if *n == 1 {
                    let text = self.get_single_key_impls(i_path);
                    buf.append(text.as_str());
                } else {
                    let text = self.get_keyed_impls(i_path);
                    buf.append(text.as_str());
                }
            },
        }
    }

    /// Appends the record-values implementation: one serialisation call per
    /// non-key column, in declaration order.
    pub fn cwrite_values_impls(&self, buf: &mut String, i_path: &str)
        ensures
            final(buf)@ == old(buf)@ + values_text(*self, i_path@),
    {
        buf.append("pub impl ");
        buf.append(self.name.as_str());
        buf.append("RecordValues of ");
        buf.append(i_path);
        buf.append("::RecordValues<");
        buf.append(self.impl_name.as_str());
        buf.append(", ");
        buf.append(self.name.as_str());
        buf.append("> {\n");
        buf.append("fn serialize_values(self: @");
        buf.append(self.name.as_str());
        buf.append(", ref data: Array<felt252>) {\n");
        let ghost mid = buf@;
        let ghost g = |c: Column| member_call_text(c, true);
        let ghost cs = self.columns@;
        let mut i: usize = 0;
        while i < self.columns.len()
            invariant
                i <= cs.len(),
                cs == self.columns@,
                g == (|c: Column| member_call_text(c, true)),
                buf@ == mid + concat_map(value_columns(cs.take(i as int)), g),
            decreases cs.len() - i,
        {
            let c = &self.columns[i];
            proof {
                reveal(Seq::filter);
                assert(cs.take(i + 1).drop_last() =~= cs.take(i as int));
                assert(cs.take(i + 1).last() == *c);
            }
            if !c.key {
                c.serialize_member_call(buf, true);
                proof {
                    lemma_concat_map_push(value_columns(cs.take(i as int)), *c, g);
                }
            }
            i = i + 1;
        }
        assert(cs.take(i as int) =~= cs);
        buf.append("}\n}\n");
        assert(final(buf)@ =~= old(buf)@ + values_text(*self, i_path@));
    }

    /// Appends all generated text of the table: the columns namespace, the
    /// member bindings, the structure implementation, the record-identity
    /// implementation and the record-values implementation.
    pub fn cwrite_table(&self, buf: &mut String, i_path: &str)
        requires
            self.wf(),
        ensures
            final(buf)@ == old(buf)@ + table_text(*self, i_path@),
    {
        self.cwrite_column_mods(buf);
        self.cwrite_member_impls(buf, i_path);
        self.cwrite_structure_impl(buf, i_path);
        self.cwrite_id_impls(buf, i_path);
        self.cwrite_values_impls(buf, i_path);
        assert(final(buf)@ =~= old(buf)@ + table_text(*self, i_path@));
    }
}

/// The record-values emission holds the non-key columns, in declaration
/// order, and no key column.
pub proof fn lemma_values_skip_keys(t: TableStructure, i_path: Seq<char>)
    ensures
        forall|c: Column| #[trigger]
            value_columns(t.columns@).contains(c) <==> (t.columns@.contains(c) && !c.key),
        values_text(t, i_path) == "pub impl "@ + t.name@ + "RecordValues of "@ + i_path
            + "::RecordValues<"@ + t.impl_name@ + ", "@ + t.name@ + "> {\n"@
            + "fn serialize_values(self: @"@ + t.name@ + ", ref data: Array<felt252>) {\n"@
            + concat_map(value_columns(t.columns@), |c: Column| member_call_text(c, true))
            + "}\n}\n"@,
{
    let pred = |c: Column| is_value_column(c);
    assert forall|c: Column| #[trigger]
        value_columns(t.columns@).contains(c) <==> (t.columns@.contains(c) && !c.key) by {
        if value_columns(t.columns@).contains(c) {
            let k = choose|k: int| 0 <= k < value_columns(t.columns@).len() && value_columns(t.columns@)[k] == c;
            t.columns@.lemma_filter_pred(pred, k);
            t.columns@.lemma_filter_contains_rev(pred, c);
        }
        if t.columns@.contains(c) && !c.key {
            let k = choose|k: int| 0 <= k < t.columns@.len() && t.columns@[k] == c;
            t.columns@.lemma_filter_contains(pred, k);
        }
    }
}

/// Generating twice from the same structure and path gives the same text.
pub proof fn lemma_generation_deterministic(t1: TableStructure, t2: TableStructure, i_path: Seq<char>)
    requires
        t1 == t2,
    ensures
        table_text(t1, i_path) == table_text(t2, i_path),
{
}

} // verus!
