//! A compiler from API schemas to client code.
//!
//! A schema names structs and endpoints ([`schema`]). From a schema the
//! library generates TypeScript ([`ts`]): an interface for each struct and
//! the class `Client` with an async method for each endpoint; or Rust
//! ([`rs`]): a struct for each struct. Both stand behind one entry
//! ([`Backend`]).
//!
//! A generated client sends the checksum of its schema with every request
//! ([`checksum`]); a server decides by it whether the request comes from a
//! client of its own schema ([`validation`]).
//!
//! Generated code gets its spacing from the token printer of `proc_macro2`
//! ([`tokens`]); that module holds all that the proofs of this library take
//! on trust.

pub mod backend;
pub mod checksum;
pub mod error;
pub mod rs;
pub mod schema;
pub mod search;
pub mod text;
pub mod tokens;
pub mod ts;
pub mod validation;

pub use backend::Backend;
pub use error::Error;
pub use validation::{SchemaMiddleware, ValidationLayer, Verdict};
