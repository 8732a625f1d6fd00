//! Decision logic of the `#[auto_enum]` and `#[enum_derive]` attributes.

pub mod text;
pub mod derive_table;
pub mod enum_derive;
pub mod enum_derive_laws;
pub mod ast;
pub mod context;
pub mod scan;
pub mod loop_break;
pub mod last_expr;
pub mod visitor;
pub mod expand;
pub mod type_analysis;
pub mod transpose;
pub mod walk_laws;
pub mod branch_laws;
