//! From a schema to the TypeScript source of its client: an interface for
//! each struct, then the class `Client` with a method for each endpoint.

use vstd::prelude::*;
use vstd::string::*;
use crate::error::{Error, ErrorView};
use crate::schema::{
    endpoint_defs_view, struct_defs_view, ApiSchema, ApiSchemaView, Endpoints, EndpointsView,
    StructView, Structs, StructsView,
};
use crate::ts::class::{method_views, Class, ClassView};
use crate::ts::endpoint::{print_or_keep, printed_or_kept, synthesized};
use crate::ts::field::{Field, FieldView};
use crate::ts::interface::{interface_fields, parse_interface_fields, Interface, InterfaceView};
use crate::ts::method::{Method, MethodBuilder, MethodView};
use crate::ts::types::{TsType, TsTypeView};

verus! {

/// The source of the body of the client's constructor.
pub const CONSTRUCTOR_SOURCE: &'static str = "this.checksum = checksum;";

/// The interface of a struct: of its name, with the fields that its entries
/// give.
pub open spec fn struct_interface(definition: StructView) -> InterfaceView {
    InterfaceView { name: definition.0, fields: interface_fields(definition.1) }
}

/// The interfaces of the structs, one after another, in the order of the
/// structs.
pub open spec fn interfaces_text(structs: StructsView) -> Seq<char>
    decreases structs.len(),
{
    if structs.len() == 0 {
        Seq::empty()
    } else {
        interfaces_text(structs.drop_last()) + struct_interface(structs.last()).text()
    }
}

/// The field of the client that holds the checksum.
pub open spec fn checksum_field() -> FieldView {
    FieldView { name: "checksum"@, ty: TsTypeView::String }
}

/// The constructor of the client, with the given body: it takes the
/// checksum.
pub open spec fn constructor(body: Seq<char>) -> MethodView {
    MethodView { parameters: seq![checksum_field()], body, ..MethodView::named("constructor"@) }
}

/// The class `Client`: the checksum as its field, and the constructor
/// before the given methods.
pub open spec fn client(constructor_body: Seq<char>, methods: Seq<MethodView>) -> ClassView {
    ClassView {
        name: "Client"@,
        fields: seq![checksum_field()],
        methods: seq![constructor(constructor_body)] + methods,
    }
}

/// The methods of the endpoints, in the order of the endpoints.
pub open spec fn endpoint_methods(endpoints: EndpointsView) -> Seq<MethodView> {
    Seq::new(endpoints.len(), |i: int| synthesized(endpoints[i].0, endpoints[i].1))
}

/// The source of a schema's client with the given class.
pub open spec fn emitted(schema: ApiSchemaView, client: ClassView) -> Seq<char> {
    interfaces_text(schema.structs) + client.text()
}

/// What code generation gives for a schema.
///
/// A name that repeats is reported first, then a reference to a struct that
/// the schema does not define; in both cases nothing is generated. Every
/// other schema has its source.
pub open spec fn generated(schema: ApiSchemaView) -> Result<Seq<char>, ErrorView> {
    match schema.first_duplicate() {
        Some(name) => Err(ErrorView::DuplicateKey(name)),
        None => match schema.first_unresolved() {
            Some(name) => Err(ErrorView::UnresolvedReference(name)),
            None => Ok(
                emitted(
                    schema,
                    client(
                        printed_or_kept(CONSTRUCTOR_SOURCE@),
                        endpoint_methods(schema.endpoints),
                    ),
                ),
            ),
        },
    }
}

/// Writes the interfaces of the structs, in the order of the structs.
pub fn render_interfaces(structs: &Structs) -> (contents: String)
    ensures
        contents@ == interfaces_text(struct_defs_view(structs@)),
{
    let ghost views = struct_defs_view(structs@);
    let mut contents = String::new();
    let mut i: usize = 0;
    while i < structs.len()
        invariant
            i <= structs.len(),
            views == struct_defs_view(structs@),
            contents@ == interfaces_text(views.take(i as int)),
        decreases structs.len() - i,
    {
        proof {
            assert(views.take(i + 1).drop_last() == views.take(i as int));
            assert(views.take(i + 1).last() == views[i as int]);
        }
        let mut interface = Interface::new(structs[i].0.as_str());
        let fields = parse_interface_fields(&structs[i].1);
        interface.push_fields(fields);
        assert(interface@ == struct_interface(views[i as int]));
        let code = interface.gen_code();
        contents.append(code.as_str());
        i += 1;
    }
    assert(views.take(structs.len() as int) == views);
    contents
}

/// Makes the class `Client` of a constructor body and the methods of the
/// endpoints.
pub fn client_class(constructor_body: &str, methods: Vec<Method>) -> (class: Class)
    ensures
        class@ == client(constructor_body@, method_views(methods@)),
{
    let mut class = Class::new("Client");
    class.push_field(Field::new("checksum", TsType::String));
    let method = MethodBuilder::new("constructor").add_param("checksum", TsType::String).body(
        constructor_body,
    ).build();
    class.push_method(method);
    class.push_methods(methods);
    assert(class@.fields == seq![checksum_field()]);
    assert(class@.methods == seq![constructor(constructor_body@)] + method_views(methods@));
    class
}

/// Writes the source of a schema's client with the given class: the
/// interfaces of the structs, then the class.
pub fn emit(schema: &ApiSchema, client: &Class) -> (contents: String)
    ensures
        contents@ == emitted(schema@, client@),
{
    let mut contents = render_interfaces(&schema.structs);
    let class = client.render();
    contents.append(class.as_str());
    contents
}

/// Makes the methods of the endpoints, in the order of the endpoints.
pub fn synthesize_methods(endpoints: &Endpoints) -> (methods: Vec<Method>)
    ensures
        method_views(methods@) == endpoint_methods(endpoint_defs_view(endpoints@)),
{
    let ghost views = endpoint_defs_view(endpoints@);
    let mut methods: Vec<Method> = Vec::new();
    let mut i: usize = 0;
    while i < endpoints.len()
        invariant
            i <= endpoints.len(),
            views == endpoint_defs_view(endpoints@),
            methods.len() == i,
            forall|k: int| 0 <= k < i ==> synthesized(views[k].0, views[k].1) == methods@[k]@,
        decreases endpoints.len() - i,
    {
        let method = MethodBuilder::from_endpoint(endpoints[i].0.as_str(), &endpoints[i].1);
        methods.push(method);
        i += 1;
    }
    assert(method_views(methods@) == endpoint_methods(views));
    methods
}

/// Generates the TypeScript source of a schema's client.
pub fn codegen(schema: &ApiSchema) -> (made: Result<String, Error>)
    ensures
        match generated(schema@) {
            Ok(expected) => made matches Ok(contents) && contents@ == expected,
            Err(expected) => made matches Err(error) && error@ == expected,
        },
{
    match schema.duplicate_key() {
        Some(name) => {
            return Err(Error::DuplicateKey(name));
        },
        None => {},
    }
    match schema.unresolved_reference() {
        Some(name) => {
            return Err(Error::UnresolvedReference(name));
        },
        None => {},
    }
    let constructor_body = print_or_keep(CONSTRUCTOR_SOURCE);
    let methods = synthesize_methods(&schema.endpoints);
    let client = client_class(constructor_body.as_str(), methods);
    Ok(emit(schema, &client))
}

/// Generating the client of the same schema twice ends the same way: with
/// the same text, character for character, or with the same failure.
pub proof fn lemma_codegen_stable(
    schema: ApiSchema,
    first: Result<String, Error>,
    second: Result<String, Error>,
)
    requires
        call_ensures(codegen, (&schema,), first),
        call_ensures(codegen, (&schema,), second),
    ensures
        first matches Ok(text) ==> second matches Ok(again) && text@ == again@,
        first matches Err(error) ==> second matches Err(again) && error@ == again@,
{
}

} // verus!
