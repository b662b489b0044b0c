//! A TypeScript interface, and the fields that a struct of the schema gives it.

use vstd::prelude::*;
use vstd::string::*;
use crate::schema::keys::keys;
use crate::schema::{field_defs_view, Entries, EntriesView};
use crate::ts::field::{field_views, Field, FieldView};
use crate::ts::types::{TsType, TsTypeView};

verus! {

/// A TypeScript interface: a name and fields, in the order in which they
/// were pushed.
#[derive(Debug)]
pub struct Interface {
    name: String,
    fields: Vec<Field>,
}

/// What an [`Interface`] stands for in contracts.
pub struct InterfaceView {
    pub name: Seq<char>,
    pub fields: Seq<FieldView>,
}

/// The fields as they stand between the braces of an interface: each one on
/// a line of its own, behind a tab and before a comma.
pub open spec fn interface_lines(fields: Seq<FieldView>) -> Seq<char>
    decreases fields.len(),
{
    if fields.len() == 0 {
        Seq::empty()
    } else {
        interface_lines(fields.drop_last()) + "\t"@ + fields.last().text() + ",\n"@
    }
}

impl InterfaceView {
    /// The interface as it is written in TypeScript source, with the blank
    /// line that follows it.
    pub open spec fn text(self) -> Seq<char> {
        "export interface "@ + self.name + "{\n"@ + interface_lines(self.fields) + "}\n\n"@
    }
}

impl View for Interface {
    type V = InterfaceView;

    closed spec fn view(&self) -> InterfaceView {
        InterfaceView { name: self.name@, fields: field_views(self.fields@) }
    }
}

impl Interface {
    /// An interface of the given name, without fields. The name is taken as
    /// it is.
    pub fn new(name: &str) -> (interface: Self)
        ensures
            interface@ == (InterfaceView { name: name@, fields: Seq::empty() }),
    {
        let interface = Self { name: name.to_owned(), fields: Vec::new() };
        assert(field_views(interface.fields@) == Seq::<FieldView>::empty());
        interface
    }

    /// Adds a field behind those that are there.
    pub fn push_field(&mut self, field: Field)
        ensures
            final(self)@ == (InterfaceView {
                fields: old(self)@.fields.push(field@),
                ..old(self)@
            }),
    {
        self.fields.push(field);
        assert(field_views(self.fields@) == field_views(old(self).fields@).push(field@));
    }

    /// Adds the fields, in their order, behind those that are there.
    pub fn push_fields(&mut self, fields: Vec<Field>)
        ensures
            final(self)@ == (InterfaceView {
                fields: old(self)@.fields + field_views(fields@),
                ..old(self)@
            }),
    {
        let ghost added = fields@;
        let mut rest = fields;
        self.fields.append(&mut rest);
        assert(field_views(self.fields@) == field_views(old(self).fields@) + field_views(added));
    }

    /// Writes the interface as TypeScript source.
    pub fn gen_code(&self) -> (contents: String)
        ensures
            contents@ == self@.text(),
    {
        let ghost views = field_views(self.fields@);
        let mut lines = String::new();
        let mut i: usize = 0;
        while i < self.fields.len()
            invariant
                i <= self.fields.len(),
                views == field_views(self.fields@),
                lines@ == interface_lines(views.take(i as int)),
            decreases self.fields.len() - i,
        {
            proof {
                assert(views.take(i + 1).drop_last() == views.take(i as int));
                assert(views.take(i + 1).last() == self.fields@[i as int]@);
            }
            let field = self.fields[i].render();
            lines.append("\t");
            lines.append(field.as_str());
            lines.append(",\n");
            i += 1;
        }
        assert(views.take(self.fields.len() as int) == views);
        let mut contents = "export interface ".to_owned();
        contents.append(self.name.as_str());
        contents.append("{\n");
        contents.append(lines.as_str());
        contents.append("}\n\n");
        contents
    }
}

/// The fields that the entries of a struct give: for each entry, in the
/// order of the entries, a field of its name with the TypeScript type that
/// stands for its type.
pub open spec fn interface_fields(entries: EntriesView) -> Seq<FieldView> {
    Seq::new(
        entries.len(),
        |i: int| FieldView { name: entries[i].0, ty: TsTypeView::of(entries[i].1) },
    )
}

/// Maps the entries of a struct to the fields of its interface.
pub fn parse_interface_fields(values: &Entries) -> (fields: Vec<Field>)
    ensures
        field_views(fields@) == interface_fields(field_defs_view(values@)),
{
    let mut fields: Vec<Field> = Vec::new();
    let mut i: usize = 0;
    while i < values.len()
        invariant
            i <= values.len(),
            field_views(fields@) == interface_fields(field_defs_view(values@).take(i as int)),
        decreases values.len() - i,
    {
        let ghost before = field_views(fields@);
        let _type = TsType::from(&values[i].1);
        let field = Field::new(values[i].0.as_str(), _type);
        fields.push(field);
        assert(field_views(fields@) == before.push(field@));
        assert(field_views(fields@) == interface_fields(
            field_defs_view(values@).take(i + 1),
        ));
        i += 1;
    }
    assert(field_defs_view(values@).take(values.len() as int) == field_defs_view(values@));
    fields
}

/// The names of the fields, in order.
pub open spec fn field_names(fields: Seq<FieldView>) -> Seq<Seq<char>> {
    Seq::new(fields.len(), |i: int| fields[i].name)
}

/// The fields of a struct's interface are its entries, one for one and in
/// their order: as many, under the same names, each with the TypeScript
/// type that stands for the entry's type; and where no two entries share a
/// name, no two fields do.
pub proof fn lemma_interface_mirrors_struct(entries: EntriesView)
    ensures
        interface_fields(entries).len() == entries.len(),
        field_names(interface_fields(entries)) == keys(entries),
        forall|i: int|
            0 <= i < entries.len() ==> (#[trigger] interface_fields(entries)[i]).ty
                == TsTypeView::of(entries[i].1),
        keys(entries).no_duplicates() ==> field_names(interface_fields(entries)).no_duplicates(),
{
    assert(field_names(interface_fields(entries)) =~= keys(entries));
}

/// Writing the same interface twice gives the same text, character for
/// character.
pub proof fn lemma_interface_text_stable(interface: Interface, first: String, second: String)
    requires
        call_ensures(Interface::gen_code, (&interface,), first),
        call_ensures(Interface::gen_code, (&interface,), second),
    ensures
        first@ == second@,
{
}

} // verus!
