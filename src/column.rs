use vstd::prelude::*;
use vstd::string::StringExecFns;
use crate::attribute::{ColumnAttributes, extract_spec};
use crate::error::{TableError, TableResult};
use crate::syntax::{Attribute, Member, attribute_views, is_key_member};
use crate::text::{push_quoted, quoted, string_views};

verus! {

/// A resolved type descriptor, as the type resolver rendered it.
#[derive(Debug, Clone)]
pub struct TypeDef {
    /// The descriptor's text.
    pub descriptor: String,
    /// Whether the descriptor has a primary-eligible counterpart.
    pub primary_eligible: bool,
}

/// The resolved type of a column.
#[derive(Debug, Clone)]
pub enum TypeDefVariant {
    Default,
    TypeDef(TypeDef),
    Fn(String),
}

/// What the outside collaborators computed for one field: the hash of its
/// name, the encoding of its `id(...)` literal if it has one (`None` where the
/// encoder refused it), and the resolved type (`None` where no resolver rule
/// applies).
#[derive(Debug, Clone)]
pub struct FieldFacts {
    pub selector: String,
    pub encoded_id: Option<String>,
    pub type_def: Option<TypeDefVariant>,
}

/// One storage field of a table.
#[derive(Debug, Clone)]
pub struct Column {
    pub id: String,
    pub key: bool,
    pub name: String,
    pub member: String,
    pub selector: String,
    pub attributes: Vec<Attribute>,
    pub ty: String,
    pub type_def: TypeDefVariant,
    pub member_impl_name: String,
}

/// How a column is labelled: after its field, or by an explicit name.
#[derive(Debug, Clone)]
pub enum ColumnName {
    Default,
    Custom(String),
}

impl ColumnName {
    /// The label: the override, or the quoted field name.
    pub fn label(self, member: &String) -> (r: String)
        ensures
            self matches ColumnName::Custom(n) ==> r@ == n@,
            self is Default ==> r@ == quoted(member@),
    {
        match self {
            ColumnName::Custom(n) => n,
            ColumnName::Default => {
                let mut q = String::new();
                push_quoted(&mut q, member.as_str());
                assert(q@ =~= quoted(member@));
                q
            },
        }
    }
}

/// The failure, if any, of building a column from a field.
pub open spec fn column_error(m: Member, f: FieldFacts, paths: Seq<Seq<char>>) -> Option<TableError> {
    match extract_spec(attribute_views(m.attributes@), paths) {
        Err(e) => Some(e),
        Ok(st) => if st.id is Some && f.encoded_id is None {
            Some(TableError::IdentifierEncodingError)
        } else if f.type_def is None {
            Some(TableError::UnsupportedType)
        } else {
            None
        },
    }
}

/// The id of a column: the encoded override when there is one, else the selector.
pub open spec fn column_id(m: Member, f: FieldFacts, paths: Seq<Seq<char>>) -> Seq<char> {
    if extract_spec(attribute_views(m.attributes@), paths)->Ok_0.id is Some {
        f.encoded_id->Some_0@
    } else {
        f.selector@
    }
}

/// The display name of a column: the override when there is one, else the
/// quoted field name.
pub open spec fn column_name(m: Member, paths: Seq<Seq<char>>) -> Seq<char> {
    match extract_spec(attribute_views(m.attributes@), paths)->Ok_0.name {
        Some(n) => n,
        None => quoted(m.name@),
    }
}

/// `c` is the column built from field `m` of the type named `struct_name`.
pub open spec fn column_matches(
    c: Column,
    m: Member,
    struct_name: Seq<char>,
    f: FieldFacts,
    paths: Seq<Seq<char>>,
) -> bool {
    &&& c.selector@ == f.selector@
    &&& c.id@ == column_id(m, f, paths)
    &&& c.name@ == column_name(m, paths)
    &&& c.member@ == m.name@
    &&& c.key == is_key_member(m)
    &&& attribute_views(c.attributes@) == extract_spec(
        attribute_views(m.attributes@),
        paths,
    )->Ok_0.residual
    &&& c.ty@ == m.ty@
    &&& f.type_def == Some(c.type_def)
    &&& c.member_impl_name@ == struct_name + m.name@
}

impl Column {
    /// The column's display name.
    pub fn name(&self) -> (r: &str)
        ensures
            r@ == self.name@,
    {
        self.name.as_str()
    }

    /// The field the column stores.
    pub fn field(&self) -> (r: &str)
        ensures
            r@ == self.member@,
    {
        self.member.as_str()
    }

    /// The declared type text.
    pub fn ty(&self) -> (r: &str)
        ensures
            r@ == self.ty@,
    {
        self.ty.as_str()
    }

    /// The attributes kept for emission.
    pub fn iattributes(&self) -> (r: &Vec<Attribute>)
        ensures
            r@ == self.attributes@,
    {
        &self.attributes
    }

    /// Builds the column for one field of the type named `struct_name`.
    pub fn iextract_with(
        member: Member,
        struct_name: &String,
        facts: FieldFacts,
        type_mod_paths: &Vec<String>,
    ) -> (r: TableResult<Column>)
        ensures
            match column_error(member, facts, string_views(type_mod_paths@)) {
                Some(e) => r == Err::<Column, TableError>(e),
                None => r matches Ok(c) && column_matches(
                    c,
                    member,
                    struct_name@,
                    facts,
                    string_views(type_mod_paths@),
                ),
            },
    {
        let key = member.is_key();
        let Member { name: member_name, ty, attributes } = member;
        let (ca, residual) = match ColumnAttributes::extract(attributes, type_mod_paths) {
            Ok(p) => p,
            Err(e) => return Err(e),
        };
        let FieldFacts { selector, encoded_id, type_def } = facts;
        let id = match ca.id {
            Some(_) => match encoded_id {
                Some(e) => e,
                None => return Err(TableError::IdentifierEncodingError),
            },
            None => selector.clone(),
        };
        let type_def = match type_def {
            Some(t) => t,
            None => return Err(TableError::UnsupportedType),
        };
        let label = match ca.name {
            Some(n) => ColumnName::Custom(n),
            None => ColumnName::Default,
        };
        let name = label.label(&member_name);
        let member_impl_name = struct_name.clone().concat(member_name.as_str());
        Ok(Column {
            id,
            key,
            name,
            member: member_name,
            selector,
            attributes: residual,
            ty,
            type_def,
            member_impl_name,
        })
    }
}

/// A column's selector is the hash computed from its field name alone: two
/// fields of the same name, whatever their attributes, get the same selector.
pub proof fn lemma_selector_ignores_attributes(
    c1: Column,
    m1: Member,
    f1: FieldFacts,
    c2: Column,
    m2: Member,
    f2: FieldFacts,
    struct_name: Seq<char>,
    paths: Seq<Seq<char>>,
)
    requires
        column_matches(c1, m1, struct_name, f1, paths),
        column_matches(c2, m2, struct_name, f2, paths),
        m1.name@ == m2.name@,
        f1.selector@ == f2.selector@,
    ensures
        c1.selector@ == c2.selector@,
        c1.selector@ == f1.selector@,
{
}

/// Without an `id(...)` override, a column's id is its selector.
pub proof fn lemma_id_defaults_to_selector(
    c: Column,
    m: Member,
    f: FieldFacts,
    struct_name: Seq<char>,
    paths: Seq<Seq<char>>,
)
    requires
        column_matches(c, m, struct_name, f, paths),
        extract_spec(attribute_views(m.attributes@), paths)->Ok_0.id is None,
    ensures
        c.id@ == c.selector@,
{
}

} // verus!
