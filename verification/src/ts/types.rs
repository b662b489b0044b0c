//! TypeScript types, and the mapping of schema types to them.

use vstd::prelude::*;
use vstd::string::*;
use crate::schema::{SchemaType, SchemaTypeView};

verus! {

/// A TypeScript type.
#[derive(Debug, PartialEq, Eq, PartialOrd, Ord)]
pub enum TsType {
    /// `number`
    Number,
    /// `string`
    String,
    /// `boolean`
    Boolean,
    /// `T[]`
    Array(Box<TsType>),
    /// A type known by its name alone.
    Custom(String),
}

/// What a [`TsType`] stands for in contracts.
pub enum TsTypeView {
    Number,
    String,
    Boolean,
    Array(Box<TsTypeView>),
    Custom(Seq<char>),
}

impl TsType {
    /// The view, by recursion over the item types of arrays.
    pub open spec fn model(self) -> TsTypeView
        decreases self,
    {
        match self {
            TsType::Number => TsTypeView::Number,
            TsType::String => TsTypeView::String,
            TsType::Boolean => TsTypeView::Boolean,
            TsType::Array(item) => TsTypeView::Array(Box::new(item.model())),
            TsType::Custom(name) => TsTypeView::Custom(name@),
        }
    }
}

impl Clone for TsType {
    fn clone(&self) -> (copy: Self)
        ensures
            copy == *self,
        decreases self,
    {
        match self {
            TsType::Number => TsType::Number,
            TsType::String => TsType::String,
            TsType::Boolean => TsType::Boolean,
            TsType::Array(item) => TsType::Array(Box::new((&**item).clone())),
            TsType::Custom(name) => TsType::Custom(name.clone()),
        }
    }
}

impl View for TsType {
    type V = TsTypeView;

    open spec fn view(&self) -> TsTypeView {
        self.model()
    }
}

impl TsTypeView {
    /// The type as it is written in TypeScript source.
    pub open spec fn text(self) -> Seq<char>
        decreases self,
    {
        match self {
            TsTypeView::Number => "number"@,
            TsTypeView::String => "string"@,
            TsTypeView::Boolean => "boolean"@,
            TsTypeView::Array(item) => item.text() + "[]"@,
            TsTypeView::Custom(name) => name,
        }
    }

    /// The TypeScript type that stands for a schema type.
    ///
    /// | schema type | TypeScript type |
    /// |---|---|
    /// | `Int`, `Float` | `Number` |
    /// | `String` | `String` |
    /// | `Boolean` | `Boolean` |
    /// | `Struct(name)` | `Custom(name)` |
    pub open spec fn of(ty: SchemaTypeView) -> TsTypeView {
        match ty {
            SchemaTypeView::Int => TsTypeView::Number,
            SchemaTypeView::Float => TsTypeView::Number,
            SchemaTypeView::String => TsTypeView::String,
            SchemaTypeView::Boolean => TsTypeView::Boolean,
            SchemaTypeView::Struct(name) => TsTypeView::Custom(name),
        }
    }
}

impl TsType {
    /// Writes the type as TypeScript source.
    pub fn render(&self) -> (text: String)
        ensures
            text@ == self@.text(),
        decreases self,
    {
        match self {
            TsType::Number => "number".to_owned(),
            TsType::String => "string".to_owned(),
            TsType::Boolean => "boolean".to_owned(),
            TsType::Array(item) => {
                let mut text = item.render();
                text.append("[]");
                text
            },
            TsType::Custom(name) => name.clone(),
        }
    }
}

impl vstd::std_specs::convert::FromSpecImpl<SchemaType> for TsType {
    open spec fn obeys_from_spec() -> bool {
        true
    }

    open spec fn from_spec(value: SchemaType) -> TsType {
        match value {
            SchemaType::Int => TsType::Number,
            SchemaType::Float => TsType::Number,
            SchemaType::String => TsType::String,
            SchemaType::Boolean => TsType::Boolean,
            SchemaType::Struct(name) => TsType::Custom(name),
        }
    }
}

impl From<SchemaType> for TsType {
    /// The TypeScript type that stands for a schema type. Every schema type
    /// has one; none maps to an array.
    fn from(value: SchemaType) -> (ty: TsType)
        ensures
            ty@ == TsTypeView::of(value@),
    {
        match value {
            SchemaType::Int | SchemaType::Float => TsType::Number,
            SchemaType::String => TsType::String,
            SchemaType::Boolean => TsType::Boolean,
            SchemaType::Struct(name) => TsType::Custom(name),
        }
    }
}

impl<'a> vstd::std_specs::convert::FromSpecImpl<&'a SchemaType> for TsType {
    open spec fn obeys_from_spec() -> bool {
        true
    }

    open spec fn from_spec(value: &'a SchemaType) -> TsType {
        <TsType as vstd::std_specs::convert::FromSpec<SchemaType>>::from_spec(*value)
    }
}

impl<'a> From<&'a SchemaType> for TsType {
    /// As for a schema type that is owned; a struct's name is copied.
    fn from(value: &'a SchemaType) -> (ty: TsType)
        ensures
            ty@ == TsTypeView::of(value@),
    {
        match value {
            SchemaType::Int | SchemaType::Float => TsType::Number,
            SchemaType::String => TsType::String,
            SchemaType::Boolean => TsType::Boolean,
            SchemaType::Struct(name) => TsType::Custom(name.clone()),
        }
    }
}

/// The mapping of schema types is total and stable: every schema type has
/// exactly one TypeScript type, the one that the table of
/// [`TsTypeView::of`] gives, and mapping it again gives that type again. No
/// schema type maps to an array.
pub proof fn lemma_type_mapping(value: SchemaType, first: TsType, second: TsType)
    requires
        call_ensures(<TsType as From<&SchemaType>>::from, (&value,), first),
        call_ensures(<TsType as From<SchemaType>>::from, (value,), second),
    ensures
        first@ == second@,
        first@ == TsTypeView::of(value@),
        value@ is Int || value@ is Float <==> first@ is Number,
        value@ is String <==> first@ is String,
        value@ is Boolean <==> first@ is Boolean,
        value@ is Struct <==> first@ is Custom,
        value@ matches SchemaTypeView::Struct(name) ==> first@ == TsTypeView::Custom(name),
        !(first@ is Array),
{
}

} // verus!
