//! Code generation for Rust: a struct of the schema becomes a struct with
//! one public field for each of its entries.

use vstd::prelude::*;
use vstd::string::*;
use crate::error::{Error, ErrorView};
use crate::schema::{
    field_defs_view, ApiSchema, ApiSchemaView, Entries, EntriesView, SchemaType, SchemaTypeView,
    StructView, StructsView,
};
use crate::tokens::{can_print, print_tokens, printable, printed_tokens};

verus! {

impl SchemaTypeView {
    /// The Rust type that stands for a schema type, as it is written in
    /// source; a struct is written as its name.
    pub open spec fn native(self) -> Seq<char> {
        match self {
            SchemaTypeView::Int => "i32"@,
            SchemaTypeView::Float => "f32"@,
            SchemaTypeView::String => "String"@,
            SchemaTypeView::Boolean => "bool"@,
            SchemaTypeView::Struct(name) => name,
        }
    }
}

/// The source of one field of a struct: public, of the entry's name and the
/// Rust type of the entry's type.
pub open spec fn field_source(entry: (Seq<char>, SchemaTypeView)) -> Seq<char> {
    "pub "@ + entry.0 + ": "@ + entry.1.native()
}

/// The source of the fields of a struct: one for each entry, in order, with
/// commas between them.
pub open spec fn fields_source(entries: EntriesView) -> Seq<char>
    decreases entries.len(),
{
    if entries.len() == 0 {
        Seq::empty()
    } else if entries.len() == 1 {
        field_source(entries.last())
    } else {
        fields_source(entries.drop_last()) + ", "@ + field_source(entries.last())
    }
}

/// The source of a struct: public, of the definition's name, with the
/// fields that its entries give.
pub open spec fn struct_source(definition: StructView) -> Seq<char> {
    "pub struct "@ + definition.0 + " { "@ + fields_source(definition.1) + " } "@
}

/// The source of the structs, one after another, in order.
pub open spec fn structs_source(structs: StructsView) -> Seq<char>
    decreases structs.len(),
{
    if structs.len() == 0 {
        Seq::empty()
    } else {
        structs_source(structs.drop_last()) + struct_source(structs.last())
    }
}

/// What the generation of Rust structs gives for a schema.
///
/// A name that repeats is reported first, then a reference to a struct that
/// the schema does not define; in both cases nothing is generated. Else the
/// structs are made, unless their source holds too many brackets to be
/// printed or the lexer refuses it.
pub open spec fn generated_structs(schema: ApiSchemaView) -> Result<Seq<char>, ErrorView> {
    match schema.first_duplicate() {
        Some(name) => Err(ErrorView::DuplicateKey(name)),
        None => match schema.first_unresolved() {
            Some(name) => Err(ErrorView::UnresolvedReference(name)),
            None => if !printable(structs_source(schema.structs)) {
                Err(ErrorView::TooManyBrackets)
            } else {
                match printed_tokens(structs_source(schema.structs)) {
                    Some(text) => Ok(text),
                    None => Err(ErrorView::Lex),
                }
            },
        },
    }
}

impl SchemaType {
    /// Writes the Rust type that stands for the schema type.
    pub fn parse(&self) -> (source: String)
        ensures
            source@ == self@.native(),
    {
        match self {
            SchemaType::Int => "i32".to_owned(),
            SchemaType::String => "String".to_owned(),
            SchemaType::Boolean => "bool".to_owned(),
            SchemaType::Float => "f32".to_owned(),
            SchemaType::Struct(name) => name.clone(),
        }
    }
}

/// Writes the source of the fields of a struct.
pub fn parse_struct_fields(fields: &Entries) -> (source: String)
    ensures
        source@ == fields_source(field_defs_view(fields@)),
{
    let ghost views = field_defs_view(fields@);
    let mut source = String::new();
    let mut i: usize = 0;
    while i < fields.len()
        invariant
            i <= fields.len(),
            views == field_defs_view(fields@),
            source@ == fields_source(views.take(i as int)),
        decreases fields.len() - i,
    {
        proof {
            assert(views.take(i + 1).drop_last() == views.take(i as int));
            assert(views.take(i + 1).last() == views[i as int]);
        }
        let field_type = fields[i].1.parse();
        let mut field = "pub ".to_owned();
        field.append(fields[i].0.as_str());
        field.append(": ");
        field.append(field_type.as_str());
        if i > 0 {
            source.append(", ");
        }
        source.append(field.as_str());
        i += 1;
    }
    assert(views.take(fields.len() as int) == views);
    source
}

/// Writes the source of the structs of a schema.
pub fn structs_text(schema: &ApiSchema) -> (source: String)
    ensures
        source@ == structs_source(schema@.structs),
{
    let ghost views = schema@.structs;
    let mut source = String::new();
    let mut i: usize = 0;
    while i < schema.structs.len()
        invariant
            i <= schema.structs.len(),
            views == schema@.structs,
            source@ == structs_source(views.take(i as int)),
        decreases schema.structs.len() - i,
    {
        proof {
            assert(views.take(i + 1).drop_last() == views.take(i as int));
            assert(views.take(i + 1).last() == views[i as int]);
        }
        let struct_fields = parse_struct_fields(&schema.structs[i].1);
        let mut one = "pub struct ".to_owned();
        one.append(schema.structs[i].0.as_str());
        one.append(" { ");
        one.append(struct_fields.as_str());
        one.append(" } ");
        source.append(one.as_str());
        i += 1;
    }
    assert(views.take(schema.structs.len() as int) == views);
    source
}

/// Generates the Rust structs of a schema, as the token printer writes
/// them.
///
/// The lexer decides whether the source is accepted; it is refused, for
/// one, where a name holds an unbalanced bracket.
pub fn parse_structs(schema: &ApiSchema) -> (made: Result<String, Error>)
    ensures
        match generated_structs(schema@) {
            Ok(expected) => made matches Ok(text) && text@ == expected,
            Err(expected) => made matches Err(error) && error@ == expected,
        },
{
    match schema.duplicate_key() {
        Some(name) => {
            return Err(Error::DuplicateKey(name));
        },
        None => {},
    }
    match schema.unresolved_reference() {
        Some(name) => {
            return Err(Error::UnresolvedReference(name));
        },
        None => {},
    }
    let source = structs_text(schema);
    if !can_print(source.as_str()) {
        return Err(Error::TooManyBrackets);
    }
    match print_tokens(source.as_str()) {
        Ok(text) => Ok(text),
        Err(refusal) => Err(Error::Lex(refusal)),
    }
}

} // verus!
