// Schema compiler for annotated record types.
//
// A record type's fields become columns (`column`), after their attributes
// are sorted into overrides and pass-through attributes (`attribute`). The
// key fields must lead; a single leading key of a primary-eligible type is
// promoted to the record's primary field (`primary`), and the whole is
// assembled into a `TableStructure` (`structure`). `codegen` renders that
// structure as text.
//
// The outside collaborators (the name hasher, the identifier encoder and the
// type resolver) run before assembly: their results for each field come in
// as a `FieldFacts`.
pub mod error;
pub mod text;
pub mod syntax;
pub mod attribute;
pub mod column;
pub mod primary;
pub mod structure;
pub mod codegen;
