//! Name resolution for fixture declarations.
//!
//! Every declaration gets a default call expression, built from its name and
//! its positional arguments, and composable resolvers map an identifier to the
//! expression that stands for it in generated code.

pub mod parse;
pub mod resolver;
pub mod syntax;
pub mod text;
