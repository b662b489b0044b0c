//! The schema model: structs, endpoints, scalar types and HTTP verbs.

use vstd::prelude::*;
use crate::text::str_eq;

pub mod keys;
pub mod references;

verus! {

/// The type of a struct field, or of an endpoint's input or output.
#[derive(Debug, PartialEq)]
pub enum SchemaType {
    Int,
    Float,
    String,
    Boolean,
    /// A reference, by name, to a struct of the schema.
    Struct(String),
}

/// What a [`SchemaType`] stands for in contracts.
pub enum SchemaTypeView {
    Int,
    Float,
    String,
    Boolean,
    Struct(Seq<char>),
}

impl View for SchemaType {
    type V = SchemaTypeView;

    open spec fn view(&self) -> SchemaTypeView {
        match self {
            SchemaType::Int => SchemaTypeView::Int,
            SchemaType::Float => SchemaTypeView::Float,
            SchemaType::String => SchemaTypeView::String,
            SchemaType::Boolean => SchemaTypeView::Boolean,
            SchemaType::Struct(name) => SchemaTypeView::Struct(name@),
        }
    }
}

impl Clone for SchemaType {
    fn clone(&self) -> (copy: Self)
        ensures
            copy == *self,
    {
        match self {
            SchemaType::Int => SchemaType::Int,
            SchemaType::Float => SchemaType::Float,
            SchemaType::String => SchemaType::String,
            SchemaType::Boolean => SchemaType::Boolean,
            SchemaType::Struct(name) => SchemaType::Struct(name.clone()),
        }
    }
}

impl SchemaTypeView {
    /// The tag that names the type in a schema document; a struct is named
    /// by its name.
    pub open spec fn tag(self) -> Seq<char> {
        match self {
            SchemaTypeView::Int => "int"@,
            SchemaTypeView::Float => "float"@,
            SchemaTypeView::String => "string"@,
            SchemaTypeView::Boolean => "boolean"@,
            SchemaTypeView::Struct(name) => name,
        }
    }

    /// The type that a tag of a schema document names: one of the four
    /// scalar tags, or else a struct of that name.
    pub open spec fn from_tag(tag: Seq<char>) -> SchemaTypeView {
        if tag == "int"@ {
            SchemaTypeView::Int
        } else if tag == "float"@ {
            SchemaTypeView::Float
        } else if tag == "string"@ {
            SchemaTypeView::String
        } else if tag == "boolean"@ {
            SchemaTypeView::Boolean
        } else {
            SchemaTypeView::Struct(tag)
        }
    }
}

impl SchemaType {
    /// The tag that names the type in a schema document.
    pub fn tag(&self) -> (tag: &str)
        ensures
            tag@ == self@.tag(),
    {
        match self {
            SchemaType::Int => "int",
            SchemaType::Float => "float",
            SchemaType::String => "string",
            SchemaType::Boolean => "boolean",
            SchemaType::Struct(name) => name.as_str(),
        }
    }

    /// Reads a type tag of a schema document.
    pub fn from_tag(tag: &str) -> (ty: SchemaType)
        ensures
            ty@ == SchemaTypeView::from_tag(tag@),
    {
        if str_eq(tag, "int") {
            SchemaType::Int
        } else if str_eq(tag, "float") {
            SchemaType::Float
        } else if str_eq(tag, "string") {
            SchemaType::String
        } else if str_eq(tag, "boolean") {
            SchemaType::Boolean
        } else {
            SchemaType::Struct(tag.to_owned())
        }
    }
}

/// A tag names the type that names it: reading a type's tag gives a type
/// with that tag. Reading the tag of a type gives the type back, unless it
/// is a struct under the name of a scalar tag, which no document can name.
pub proof fn lemma_tag_round_trip(tag: Seq<char>, ty: SchemaTypeView)
    ensures
        SchemaTypeView::from_tag(tag).tag() == tag,
        !(ty is Struct) ==> SchemaTypeView::from_tag(ty.tag()) == ty,
        ty matches SchemaTypeView::Struct(name) ==> (SchemaTypeView::from_tag(ty.tag()) == ty
            <==> name != "int"@ && name != "float"@ && name != "string"@ && name != "boolean"@),
{
    reveal_strlit("int");
    reveal_strlit("float");
    reveal_strlit("string");
    reveal_strlit("boolean");
    assert("int"@.len() == 3 && "float"@.len() == 5 && "string"@.len() == 6 && "boolean"@.len()
        == 7);
}

/// An HTTP verb.
#[derive(Debug, Clone, Copy, PartialEq, Eq, Structural)]
pub enum HttpMethod {
    Get,
    Post,
    Patch,
    Delete,
}

impl HttpMethod {
    /// The verb as it is written in a schema document and on the wire.
    pub open spec fn token(self) -> Seq<char> {
        match self {
            HttpMethod::Get => "GET"@,
            HttpMethod::Post => "POST"@,
            HttpMethod::Patch => "PATCH"@,
            HttpMethod::Delete => "DELETE"@,
        }
    }

    /// The verb that a token of a schema document names, if it names one.
    pub open spec fn of_token(token: Seq<char>) -> Option<HttpMethod> {
        if token == "GET"@ {
            Some(HttpMethod::Get)
        } else if token == "POST"@ {
            Some(HttpMethod::Post)
        } else if token == "PATCH"@ {
            Some(HttpMethod::Patch)
        } else if token == "DELETE"@ {
            Some(HttpMethod::Delete)
        } else {
            None
        }
    }

    /// The verb in capital letters.
    pub fn name(&self) -> (name: &'static str)
        ensures
            name@ == self.token(),
    {
        match self {
            HttpMethod::Get => "GET",
            HttpMethod::Post => "POST",
            HttpMethod::Patch => "PATCH",
            HttpMethod::Delete => "DELETE",
        }
    }

    /// Reads a verb of a schema document: one of the four, in capital
    /// letters.
    pub fn from_token(token: &str) -> (method: Option<HttpMethod>)
        ensures
            method == HttpMethod::of_token(token@),
    {
        if str_eq(token, "GET") {
            Some(HttpMethod::Get)
        } else if str_eq(token, "POST") {
            Some(HttpMethod::Post)
        } else if str_eq(token, "PATCH") {
            Some(HttpMethod::Patch)
        } else if str_eq(token, "DELETE") {
            Some(HttpMethod::Delete)
        } else {
            None
        }
    }
}

/// A verb is read from its own name, and from no other token.
pub proof fn lemma_verb_round_trip(method: HttpMethod, token: Seq<char>)
    ensures
        HttpMethod::of_token(method.token()) == Some(method),
        HttpMethod::of_token(token) == Some(method) <==> token == method.token(),
{
    reveal_strlit("GET");
    reveal_strlit("POST");
    reveal_strlit("PATCH");
    reveal_strlit("DELETE");
    assert("GET"@.len() == 3 && "POST"@.len() == 4 && "PATCH"@.len() == 5 && "DELETE"@.len() == 6);
}

/// One network operation. The input is there for every verb, also for those
/// that conventionally carry no body.
#[derive(Debug, PartialEq)]
pub struct Endpoint {
    pub uri: String,
    pub method: HttpMethod,
    pub input: SchemaType,
    pub returns: SchemaType,
}

impl Clone for Endpoint {
    fn clone(&self) -> (copy: Self)
        ensures
            copy == *self,
    {
        Endpoint {
            uri: self.uri.clone(),
            method: self.method,
            input: self.input.clone(),
            returns: self.returns.clone(),
        }
    }
}

/// What an [`Endpoint`] stands for in contracts.
pub struct EndpointView {
    pub uri: Seq<char>,
    pub method: HttpMethod,
    pub input: SchemaTypeView,
    pub returns: SchemaTypeView,
}

impl View for Endpoint {
    type V = EndpointView;

    open spec fn view(&self) -> EndpointView {
        EndpointView {
            uri: self.uri@,
            method: self.method,
            input: self.input@,
            returns: self.returns@,
        }
    }
}

/// The entries of a struct: the names of its fields with their types, in the
/// order of the document.
pub type Entries = Vec<(String, SchemaType)>;

/// The structs of a schema: their names with their entries, in the order of
/// the document.
pub type Structs = Vec<(String, Entries)>;

/// The endpoints of a schema under their names, in the order of the
/// document.
pub type Endpoints = Vec<(String, Endpoint)>;

/// What the entries of a struct stand for in contracts.
pub type EntriesView = Seq<(Seq<char>, SchemaTypeView)>;

/// What a struct of a schema stands for in contracts: its name and its
/// entries.
pub type StructView = (Seq<char>, EntriesView);

/// What the structs of a schema stand for in contracts.
pub type StructsView = Seq<StructView>;

/// What the endpoints of a schema stand for in contracts.
pub type EndpointsView = Seq<(Seq<char>, EndpointView)>;

/// The entries of a struct by their views: field names with their types, in
/// order.
pub open spec fn field_defs_view(entries: Seq<(String, SchemaType)>) -> EntriesView {
    Seq::new(entries.len(), |i: int| (entries[i].0@, entries[i].1@))
}

/// The structs by their views: names with their entries, in order.
pub open spec fn struct_defs_view(structs: Seq<(String, Entries)>) -> StructsView {
    Seq::new(structs.len(), |i: int| (structs[i].0@, field_defs_view(structs[i].1@)))
}

/// The endpoints by their views: names with their endpoints, in order.
pub open spec fn endpoint_defs_view(endpoints: Seq<(String, Endpoint)>) -> EndpointsView {
    Seq::new(endpoints.len(), |i: int| (endpoints[i].0@, endpoints[i].1@))
}

/// A schema: a version, a free-form note on what changed, structs and
/// endpoints.
///
/// Structs, the fields of a struct, and endpoints are mappings from names.
/// Each is held as a list of pairs in the order of the document, which is
/// the order of what is generated; a hash map would keep no order. That no
/// name repeats is what [`ApiSchema::new`] checks and what the generators
/// check again, since the fields are open to all.
#[derive(Debug, PartialEq)]
pub struct ApiSchema {
    pub version: String,
    pub schema_diff: String,
    pub structs: Structs,
    pub endpoints: Endpoints,
}

/// Copies the entries of a struct.
fn clone_entries(entries: &Entries) -> (copy: Entries)
    ensures
        copy@ == entries@,
{
    let mut copy: Entries = Vec::new();
    let mut i: usize = 0;
    while i < entries.len()
        invariant
            i <= entries.len(),
            copy@ == entries@.take(i as int),
        decreases entries.len() - i,
    {
        copy.push((entries[i].0.clone(), entries[i].1.clone()));
        assert(entries@.take(i + 1) == entries@.take(i as int).push(entries@[i as int]));
        i += 1;
    }
    assert(entries@.take(entries.len() as int) == entries@);
    copy
}

/// Copies the structs of a schema.
fn clone_structs(structs: &Structs) -> (copy: Structs)
    ensures
        struct_defs_view(copy@) == struct_defs_view(structs@),
{
    let mut copy: Structs = Vec::new();
    let mut i: usize = 0;
    while i < structs.len()
        invariant
            i <= structs.len(),
            struct_defs_view(copy@) == struct_defs_view(structs@).take(i as int),
        decreases structs.len() - i,
    {
        let ghost before = struct_defs_view(copy@);
        copy.push((structs[i].0.clone(), clone_entries(&structs[i].1)));
        assert(struct_defs_view(copy@) == before.push(struct_defs_view(structs@)[i as int]));
        i += 1;
    }
    assert(struct_defs_view(structs@).take(structs.len() as int) == struct_defs_view(structs@));
    copy
}

/// Copies the endpoints of a schema.
fn clone_endpoints(endpoints: &Endpoints) -> (copy: Endpoints)
    ensures
        copy@ == endpoints@,
{
    let mut copy: Endpoints = Vec::new();
    let mut i: usize = 0;
    while i < endpoints.len()
        invariant
            i <= endpoints.len(),
            copy@ == endpoints@.take(i as int),
        decreases endpoints.len() - i,
    {
        copy.push((endpoints[i].0.clone(), endpoints[i].1.clone()));
        assert(endpoints@.take(i + 1) == endpoints@.take(i as int).push(endpoints@[i as int]));
        i += 1;
    }
    assert(endpoints@.take(endpoints.len() as int) == endpoints@);
    copy
}

impl Clone for ApiSchema {
    fn clone(&self) -> (copy: Self)
        ensures
            copy@ == self@,
    {
        ApiSchema {
            version: self.version.clone(),
            schema_diff: self.schema_diff.clone(),
            structs: clone_structs(&self.structs),
            endpoints: clone_endpoints(&self.endpoints),
        }
    }
}

impl Default for ApiSchema {
    /// The schema without a version, a note, structs or endpoints.
    fn default() -> (schema: Self)
        ensures
            schema@ == (ApiSchemaView {
                version: Seq::empty(),
                schema_diff: Seq::empty(),
                structs: Seq::empty(),
                endpoints: Seq::empty(),
            }),
    {
        let schema = ApiSchema {
            version: String::new(),
            schema_diff: String::new(),
            structs: Vec::new(),
            endpoints: Vec::new(),
        };
        assert(struct_defs_view(schema.structs@) == Seq::<
            StructView,
        >::empty());
        assert(endpoint_defs_view(schema.endpoints@) == Seq::<(Seq<char>, EndpointView)>::empty());
        schema
    }
}

/// What an [`ApiSchema`] stands for in contracts.
pub struct ApiSchemaView {
    pub version: Seq<char>,
    pub schema_diff: Seq<char>,
    pub structs: StructsView,
    pub endpoints: EndpointsView,
}

impl View for ApiSchema {
    type V = ApiSchemaView;

    open spec fn view(&self) -> ApiSchemaView {
        ApiSchemaView {
            version: self.version@,
            schema_diff: self.schema_diff@,
            structs: struct_defs_view(self.structs@),
            endpoints: endpoint_defs_view(self.endpoints@),
        }
    }
}

} // verus!
