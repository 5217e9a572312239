use vstd::prelude::*;
use crate::column::{Column, TypeDefVariant};
use crate::error::{TableError, TableResult};
use crate::syntax::Attribute;

verus! {

/// The resolved type of a primary field: the primary-eligible counterpart of
/// a column's type.
#[derive(Debug, Clone)]
pub enum PrimaryTypeDefVariant {
    Default,
    TypeDef(String),
    Fn(String),
}

/// Whether a column's type has a primary-eligible counterpart.
pub open spec fn primary_convertible(t: TypeDefVariant) -> bool {
    match t {
        TypeDefVariant::TypeDef(d) => d.primary_eligible,
        _ => true,
    }
}

/// `p` is the primary-eligible counterpart of `t`.
pub open spec fn primary_type_def_matches(p: PrimaryTypeDefVariant, t: TypeDefVariant) -> bool {
    match t {
        TypeDefVariant::Default => p is Default,
        TypeDefVariant::TypeDef(d) => p matches PrimaryTypeDefVariant::TypeDef(s) && s@ == d.descriptor@,
        TypeDefVariant::Fn(f) => p matches PrimaryTypeDefVariant::Fn(s) && s@ == f@,
    }
}

impl PrimaryTypeDefVariant {
    /// The primary-eligible counterpart of a column's type, if it has one.
    pub fn try_from_type_def(t: TypeDefVariant) -> (r: TableResult<PrimaryTypeDefVariant>)
        ensures
            primary_convertible(t) ==> (r matches Ok(p) && primary_type_def_matches(p, t)),
            !primary_convertible(t) ==> r == Err::<PrimaryTypeDefVariant, TableError>(
                TableError::PrimaryConversionError,
            ),
    {
        match t {
            TypeDefVariant::Default => Ok(PrimaryTypeDefVariant::Default),
            TypeDefVariant::TypeDef(d) => if d.primary_eligible {
                Ok(PrimaryTypeDefVariant::TypeDef(d.descriptor))
            } else {
                Err(TableError::PrimaryConversionError)
            },
            TypeDefVariant::Fn(f) => Ok(PrimaryTypeDefVariant::Fn(f)),
        }
    }
}

/// The field that stands for a record's whole identity.
#[derive(Debug, Clone)]
pub struct Primary {
    pub name: String,
    pub member: String,
    pub attributes: Vec<Attribute>,
    pub ty: String,
    pub type_def: PrimaryTypeDefVariant,
}

/// `p` is the column `c` promoted to the record's identity.
pub open spec fn primary_matches(p: Primary, c: Column) -> bool {
    &&& p.name@ == c.name@
    &&& p.member@ == c.member@
    &&& p.attributes@ == c.attributes@
    &&& p.ty@ == c.ty@
    &&& primary_type_def_matches(p.type_def, c.type_def)
}

impl Primary {
    /// The primary field's display name.
    pub fn name(&self) -> (r: &str)
        ensures
            r@ == self.name@,
    {
        self.name.as_str()
    }

    /// The attributes kept for emission.
    pub fn iattributes(&self) -> (r: &Vec<Attribute>)
        ensures
            r@ == self.attributes@,
    {
        &self.attributes
    }

    /// Promotes a column; fails where its type has no primary-eligible counterpart.
    pub fn try_from(column: Column) -> (r: TableResult<Primary>)
        ensures
            primary_convertible(column.type_def) ==> (r matches Ok(p) && primary_matches(p, column)),
            !primary_convertible(column.type_def) ==> r == Err::<Primary, TableError>(
                TableError::PrimaryConversionError,
            ),
    {
        let Column { name, member, attributes, ty, type_def, .. } = column;
        let type_def = match PrimaryTypeDefVariant::try_from_type_def(type_def) {
            Ok(t) => t,
            Err(e) => return Err(e),
        };
        Ok(Primary { name, member, attributes, ty, type_def })
    }
}

} // verus!
