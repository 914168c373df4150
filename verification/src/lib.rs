//! A builder for generating formatted source-code text: callers assemble
//! an in-memory tree of declarations through a fluent API, then render the
//! tree to one formatted document with `Scope::to_string`.
//!
//! The core is the indentation-tracking writer (`formatter::Formatter`)
//! and the import-consolidation pass that renders a scope's `use`
//! statements grouped by visibility, with first-seen order kept at every
//! level.

pub mod formatter;
pub mod text;
pub mod visibility;
pub mod doc;
pub mod lint;
pub mod bound;
pub mod generic_parameter;
pub mod ty;
pub mod block;
pub mod import;
pub mod field;
pub mod fields;
pub mod variant;
pub mod line_break;
pub mod associated_const;
pub mod associated_type;
pub mod type_def;
pub mod function;
pub mod structs;
pub mod enums;
pub mod type_alias;
pub mod traits;
pub mod impls;
pub mod imports_table;
pub mod item;
pub mod module;
pub mod scope;
pub mod files;
pub mod laws;

pub use associated_const::AssociatedConst;
pub use associated_type::AssociatedType;
pub use block::{Block, Body};
pub use bound::Bound;
pub use doc::Doc;
pub use enums::Enum;
pub use field::Field;
pub use fields::Fields;
pub use files::{File, FileCodegenError, Library, LibraryCodegenError};
pub use formatter::Formatter;
pub use function::{Function, SelfArg};
pub use generic_parameter::GenericParameter;
pub use import::Import;
pub use impls::Impl;
pub use item::Item;
pub use line_break::LineBreak;
pub use lint::Lint;
pub use module::Module;
pub use scope::Scope;
pub use structs::Struct;
pub use traits::Trait;
pub use ty::Type;
pub use type_alias::TypeAlias;
pub use type_def::TypeDef;
pub use variant::Variant;
pub use visibility::Vis;
