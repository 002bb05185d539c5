//! SQL scalar functions producing and converting 128-bit identifiers (UUIDs).
//!
//! The library holds the value coercion between a host database's dynamic
//! values and identifiers, the generation of random and time-ordered
//! identifiers, and the table of functions a host registers.
pub mod identifier;
pub mod text;
pub mod codec;
pub mod generate;
pub mod functions;
pub mod registration;
