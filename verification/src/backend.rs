//! One schema, several languages: the backends behind one entry.

use vstd::prelude::*;
use crate::error::{Error, ErrorView};
use crate::rs::{generated_structs, parse_structs};
use crate::schema::{ApiSchema, ApiSchemaView};
use crate::ts::codegen::{codegen, generated};

verus! {

/// A language that code is generated for.
#[derive(Debug, Clone, Copy, PartialEq, Eq, Structural)]
pub enum Backend {
    /// Interfaces for the structs, and the class `Client` for the endpoints.
    TypeScript,
    /// Structs for the structs.
    Rust,
}

impl Backend {
    /// What the backend gives for a schema.
    pub open spec fn emitted(self, schema: ApiSchemaView) -> Result<Seq<char>, ErrorView> {
        match self {
            Backend::TypeScript => generated(schema),
            Backend::Rust => generated_structs(schema),
        }
    }

    /// Generates the source of a schema in the backend's language.
    pub fn emit(&self, schema: &ApiSchema) -> (made: Result<String, Error>)
        ensures
            match self.emitted(schema@) {
                Ok(expected) => made matches Ok(text) && text@ == expected,
                Err(expected) => made matches Err(error) && error@ == expected,
            },
    {
        match self {
            Backend::TypeScript => codegen(schema),
            Backend::Rust => parse_structs(schema),
        }
    }
}

} // verus!
