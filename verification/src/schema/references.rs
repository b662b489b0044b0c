//! Whether every struct that a schema refers to is one that it defines.
//!
//! A field of a struct, and the input and the output of an endpoint, may
//! name a struct. The schema itself holds such a name unchecked; it is
//! resolved when code is generated.

use vstd::prelude::*;
use crate::schema::keys::keys;
use crate::schema::{
    field_defs_view, ApiSchema, ApiSchemaView, Endpoint, EndpointView, Entries, EntriesView,
    SchemaType, SchemaTypeView,
};
use crate::search::{
    first_some, lemma_first_some_at, lemma_first_some_none, lemma_first_some_place,
};
use crate::text::{optional_name, str_eq};

verus! {

impl ApiSchemaView {
    /// Whether the schema has a struct of the given name.
    pub open spec fn defines(self, name: Seq<char>) -> bool {
        keys(self.structs).contains(name)
    }

    /// The name that a type refers to, where the schema has no struct of
    /// that name.
    pub open spec fn unresolved(self, ty: SchemaTypeView) -> Option<Seq<char>> {
        match ty {
            SchemaTypeView::Struct(name) => if self.defines(name) {
                None
            } else {
                Some(name)
            },
            _ => None,
        }
    }

    /// For each field, in order, the name that it leaves unresolved.
    pub open spec fn unresolved_fields(
        self,
        fields: EntriesView,
    ) -> Seq<Option<Seq<char>>> {
        Seq::new(fields.len(), |i: int| self.unresolved(fields[i].1))
    }

    /// The first name that an endpoint leaves unresolved: that of its
    /// input, else that of its output.
    pub open spec fn unresolved_in_endpoint(self, endpoint: EndpointView) -> Option<Seq<char>> {
        first_some(seq![self.unresolved(endpoint.input), self.unresolved(endpoint.returns)])
    }

    /// For each struct, in order, and then for each endpoint, in order, the
    /// first name that it leaves unresolved.
    pub open spec fn unresolved_places(self) -> Seq<Option<Seq<char>>> {
        Seq::new(
            self.structs.len(),
            |i: int| first_some(self.unresolved_fields(self.structs[i].1)),
        ) + Seq::new(
            self.endpoints.len(),
            |i: int| self.unresolved_in_endpoint(self.endpoints[i].1),
        )
    }

    /// The first name that the schema refers to and does not define.
    pub open spec fn first_unresolved(self) -> Option<Seq<char>> {
        first_some(self.unresolved_places())
    }
}

impl ApiSchemaView {
    /// Whether the types of all the fields resolve.
    pub open spec fn fields_resolve(self, fields: EntriesView) -> bool {
        forall|j: int| 0 <= j < fields.len() ==> self.unresolved(#[trigger] fields[j].1) is None
    }

    /// Whether the input and the output of an endpoint resolve.
    pub open spec fn endpoint_resolves(self, endpoint: EndpointView) -> bool {
        self.unresolved(endpoint.input) is None && self.unresolved(endpoint.returns) is None
    }

    /// Whether every type that the schema mentions resolves: the type of
    /// every field of every struct, and the input and the output of every
    /// endpoint.
    pub open spec fn resolves(self) -> bool {
        &&& forall|i: int|
            0 <= i < self.structs.len() ==> self.fields_resolve((#[trigger] self.structs[i]).1)
        &&& forall|i: int|
            0 <= i < self.endpoints.len() ==> self.endpoint_resolves(
                (#[trigger] self.endpoints[i]).1,
            )
    }
}

/// Fields leave no name unresolved if and only if all their types resolve.
proof fn lemma_fields_resolve(schema: ApiSchemaView, fields: EntriesView)
    ensures
        first_some(schema.unresolved_fields(fields)) is None <==> schema.fields_resolve(fields),
{
    let findings = schema.unresolved_fields(fields);
    lemma_first_some_place(findings);
    if schema.fields_resolve(fields) {
        lemma_first_some_none(findings);
    }
    if first_some(findings) is None {
        assert forall|j: int| 0 <= j < fields.len() implies schema.unresolved(
            #[trigger] fields[j].1,
        ) is None by {
            assert(findings[j] is None);
        }
    }
}

/// An endpoint leaves no name unresolved if and only if its input and its
/// output resolve.
proof fn lemma_endpoint_resolves(schema: ApiSchemaView, endpoint: EndpointView)
    ensures
        schema.unresolved_in_endpoint(endpoint) is None <==> schema.endpoint_resolves(endpoint),
{
    let findings = seq![schema.unresolved(endpoint.input), schema.unresolved(endpoint.returns)];
    lemma_first_some_place(findings);
    if schema.endpoint_resolves(endpoint) {
        lemma_first_some_none(findings);
    }
    if first_some(findings) is None {
        assert(findings[0] is None);
        assert(findings[1] is None);
    }
}

/// A schema leaves no name unresolved if and only if every type that it
/// mentions resolves.
pub proof fn lemma_all_resolved(schema: ApiSchemaView)
    ensures
        schema.first_unresolved() is None <==> schema.resolves(),
{
    let places = schema.unresolved_places();
    let count = schema.structs.len() as int;
    lemma_first_some_place(places);
    assert forall|i: int| 0 <= i < schema.structs.len() implies (places[i] is None
        <==> schema.fields_resolve((#[trigger] schema.structs[i]).1)) by {
        lemma_fields_resolve(schema, schema.structs[i].1);
    }
    assert forall|i: int| 0 <= i < schema.endpoints.len() implies (places[count + i] is None
        <==> schema.endpoint_resolves((#[trigger] schema.endpoints[i]).1)) by {
        lemma_endpoint_resolves(schema, schema.endpoints[i].1);
    }
    if schema.resolves() {
        assert forall|k: int| 0 <= k < places.len() implies places[k] is None by {
            if k >= count {
                assert(places[count + (k - count)] is None);
            }
        }
        lemma_first_some_none(places);
    }
    if schema.first_unresolved() is None {
        assert forall|i: int| 0 <= i < schema.endpoints.len() implies schema.endpoint_resolves(
            (#[trigger] schema.endpoints[i]).1,
        ) by {
            assert(places[count + i] is None);
        }
    }
}

impl ApiSchema {
    /// Whether the schema has a struct of the given name.
    pub fn defines(&self, name: &str) -> (found: bool)
        ensures
            found == self@.defines(name@),
    {
        let ghost names = keys(self@.structs);
        let mut i: usize = 0;
        while i < self.structs.len()
            invariant
                i <= self.structs.len(),
                names == keys(self@.structs),
                forall|k: int| 0 <= k < i ==> names[k] != name@,
            decreases self.structs.len() - i,
        {
            if str_eq(self.structs[i].0.as_str(), name) {
                assert(names[i as int] == name@);
                return true;
            }
            i += 1;
        }
        false
    }

    /// The name that a type refers to, where the schema has no struct of
    /// that name.
    pub fn unresolved(&self, ty: &SchemaType) -> (name: Option<String>)
        ensures
            optional_name(name) == self@.unresolved(ty@),
    {
        match ty {
            SchemaType::Struct(name) => {
                if self.defines(name.as_str()) {
                    None
                } else {
                    Some(name.clone())
                }
            },
            _ => None,
        }
    }

    /// The first name that the fields leave unresolved.
    fn unresolved_in_fields(&self, fields: &Entries) -> (name: Option<String>)
        ensures
            optional_name(name) == first_some(self@.unresolved_fields(field_defs_view(fields@))),
    {
        let ghost findings = self@.unresolved_fields(field_defs_view(fields@));
        let mut i: usize = 0;
        while i < fields.len()
            invariant
                i <= fields.len(),
                findings == self@.unresolved_fields(field_defs_view(fields@)),
                forall|k: int| 0 <= k < i ==> findings[k] is None,
            decreases fields.len() - i,
        {
            let name = self.unresolved(&fields[i].1);
            if name.is_some() {
                proof {
                    lemma_first_some_at(findings, i as int);
                }
                return name;
            }
            i += 1;
        }
        proof {
            lemma_first_some_none(findings);
        }
        None
    }

    /// The first name that an endpoint leaves unresolved.
    fn unresolved_in_endpoint(&self, endpoint: &Endpoint) -> (name: Option<String>)
        ensures
            optional_name(name) == self@.unresolved_in_endpoint(endpoint@),
    {
        let ghost findings = seq![
            self@.unresolved(endpoint@.input),
            self@.unresolved(endpoint@.returns),
        ];
        let input = self.unresolved(&endpoint.input);
        if input.is_some() {
            proof {
                lemma_first_some_at(findings, 0);
            }
            return input;
        }
        let output = self.unresolved(&endpoint.returns);
        proof {
            if output is Some {
                lemma_first_some_at(findings, 1);
            } else {
                lemma_first_some_none(findings);
            }
        }
        output
    }

    /// Looks for a name that the schema refers to and does not define: in
    /// the fields of each struct, in order, and then in the input and the
    /// output of each endpoint, in order.
    pub fn unresolved_reference(&self) -> (name: Option<String>)
        ensures
            optional_name(name) == self@.first_unresolved(),
    {
        let ghost findings = self@.unresolved_places();
        let ghost count = self.structs.len() as int;
        let mut i: usize = 0;
        while i < self.structs.len()
            invariant
                i <= self.structs.len(),
                findings == self@.unresolved_places(),
                forall|k: int| 0 <= k < i ==> findings[k] is None,
            decreases self.structs.len() - i,
        {
            let name = self.unresolved_in_fields(&self.structs[i].1);
            if name.is_some() {
                proof {
                    lemma_first_some_at(findings, i as int);
                }
                return name;
            }
            i += 1;
        }
        let mut j: usize = 0;
        while j < self.endpoints.len()
            invariant
                j <= self.endpoints.len(),
                count == self.structs.len(),
                findings == self@.unresolved_places(),
                forall|k: int| 0 <= k < count + j ==> findings[k] is None,
            decreases self.endpoints.len() - j,
        {
            let name = self.unresolved_in_endpoint(&self.endpoints[j].1);
            proof {
                assert(findings[count + j] == self@.unresolved_in_endpoint(
                    self@.endpoints[j as int].1,
                ));
            }
            if name.is_some() {
                proof {
                    lemma_first_some_at(findings, count + j);
                }
                return name;
            }
            j += 1;
        }
        proof {
            lemma_first_some_none(findings);
        }
        None
    }
}

} // verus!
