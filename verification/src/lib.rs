//! Code generation for reflection on plain data.
//!
//! Given the declaration of a struct, `derive_dynamic_get` writes accessors
//! that find a field by its name. Given an impl block, `dynamic_methods`
//! writes, for each method, a wrapper that is called with an array of
//! loosely typed values, and the entry that puts the wrapper into a registry
//! of methods keyed by type and name.
//!
//! Declarations come in as plain data (`decl`) and the code goes out as
//! source text. What the text is, for every declaration, is stated by the
//! spec functions beside each generator and proved of it.

pub mod casing;
pub mod decl;
pub mod error;
pub mod fields;
pub mod methods;
pub mod signature;
pub mod text;

pub use casing::to_snake_case;
pub use error::MacroError;
pub use fields::derive_dynamic_get;
pub use methods::dynamic_methods;
