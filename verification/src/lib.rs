//! Name resolution and type checking for the Reimer language, together with
//! the byte-level helpers that its generated programs call at run time.

pub mod analyzer;
pub mod ast;
pub mod attributes;
pub mod comptime;
pub mod generics;
pub mod hir;
pub mod list;
pub mod mention;
pub mod numbers;
pub mod purity;
pub mod registry;
pub mod rendering;
pub mod runtime;
pub mod span;
pub mod syntax;
pub mod text;
pub mod types;
pub mod typing;

pub use analyzer::program::{resolve, resolve_library};
