use vstd::prelude::*;

verus! {

/// Failures of schema extraction; any of them aborts the current type.
#[derive(Debug, Clone, Copy, PartialEq, Eq, Structural)]
pub enum TableError {
    /// A key column does not sit in the leading run of key columns.
    KeysNotFirst,
    /// A recognised attribute was given the wrong number or shape of arguments.
    AttributeArityError,
    /// The type and modifier combination has no resolver rule.
    UnsupportedType,
    /// The promoted key column's type has no primary-eligible descriptor.
    PrimaryConversionError,
    /// An `id(...)` literal cannot be encoded as a numeric identifier.
    IdentifierEncodingError,
}

pub type TableResult<T> = Result<T, TableError>;

} // verus!
