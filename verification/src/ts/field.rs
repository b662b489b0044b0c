//! A field of an interface or a class, or a parameter of a method.

use vstd::prelude::*;
use vstd::string::*;
use crate::ts::types::{TsType, TsTypeView};

verus! {

/// A name with its type.
#[derive(Debug, PartialEq, Eq, PartialOrd, Ord)]
pub struct Field {
    name: String,
    _type: TsType,
}

/// What a [`Field`] stands for in contracts.
pub struct FieldView {
    pub name: Seq<char>,
    pub ty: TsTypeView,
}

impl FieldView {
    /// The field as it is written in TypeScript source: `name: type`.
    pub open spec fn text(self) -> Seq<char> {
        self.name + ": "@ + self.ty.text()
    }
}

impl View for Field {
    type V = FieldView;

    closed spec fn view(&self) -> FieldView {
        FieldView { name: self.name@, ty: self._type@ }
    }
}

impl Clone for Field {
    fn clone(&self) -> (copy: Self)
        ensures
            copy == *self,
    {
        Field { name: self.name.clone(), _type: self._type.clone() }
    }
}

impl Field {
    /// A field of the given name and type. The name is taken as it is.
    pub fn new(name: &str, _type: TsType) -> (field: Self)
        ensures
            field@ == (FieldView { name: name@, ty: _type@ }),
    {
        Self { name: name.to_owned(), _type }
    }

    /// The field's name.
    pub fn name(&self) -> (name: &str)
        ensures
            name@ == self@.name,
    {
        self.name.as_str()
    }

    /// The field's type.
    pub fn ts_type(&self) -> (ty: &TsType)
        ensures
            ty@ == self@.ty,
    {
        &self._type
    }

    /// Writes the field as TypeScript source.
    pub fn render(&self) -> (text: String)
        ensures
            text@ == self@.text(),
    {
        let mut text = self.name.clone();
        text.append(": ");
        let ty = self._type.render();
        text.append(ty.as_str());
        text
    }
}

/// The views of the fields, in order.
pub open spec fn field_views(fields: Seq<Field>) -> Seq<FieldView> {
    Seq::new(fields.len(), |i: int| fields[i]@)
}

} // verus!
