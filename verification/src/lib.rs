//! An extension-type plugin for a policy expression language: the `u256`
//! extension adds 256-bit unsigned integer values, with a string constructor
//! and four ordering functions, together with the validator-side schema that
//! mirrors the runtime function signatures.

pub mod digits;
pub mod extension;
pub mod names;
pub mod schema;
pub mod uint256;
pub mod value;
