//! A TypeScript class.

use vstd::prelude::*;
use vstd::string::*;
use crate::ts::field::{field_views, Field, FieldView};
use crate::ts::method::{Method, MethodView};

verus! {

/// A TypeScript class: a name, fields and methods, each in the order in
/// which they were pushed.
#[derive(Debug, PartialEq, Eq, PartialOrd, Ord)]
pub struct Class {
    name: String,
    fields: Vec<Field>,
    methods: Vec<Method>,
}

/// What a [`Class`] stands for in contracts.
pub struct ClassView {
    pub name: Seq<char>,
    pub fields: Seq<FieldView>,
    pub methods: Seq<MethodView>,
}

/// The views of the methods, in order.
pub open spec fn method_views(methods: Seq<Method>) -> Seq<MethodView> {
    Seq::new(methods.len(), |i: int| methods[i]@)
}

/// The fields as they stand in a class: each one on a line of its own,
/// behind a tab.
pub open spec fn field_lines(fields: Seq<FieldView>) -> Seq<char>
    decreases fields.len(),
{
    if fields.len() == 0 {
        Seq::empty()
    } else {
        field_lines(fields.drop_last()) + "\t"@ + fields.last().text() + "\n"@
    }
}

/// The methods as they stand in a class: each one behind a tab and before a
/// line break.
pub open spec fn method_lines(methods: Seq<MethodView>) -> Seq<char>
    decreases methods.len(),
{
    if methods.len() == 0 {
        Seq::empty()
    } else {
        method_lines(methods.drop_last()) + "\t"@ + methods.last().text() + "\n"@
    }
}

impl ClassView {
    /// A class of the given name, without fields or methods.
    pub open spec fn named(name: Seq<char>) -> ClassView {
        ClassView { name, fields: Seq::empty(), methods: Seq::empty() }
    }

    /// The class as it is written in TypeScript source: the fields, then the
    /// methods.
    pub open spec fn text(self) -> Seq<char> {
        "export class "@ + self.name + " {\n"@ + field_lines(self.fields) + method_lines(
            self.methods,
        ) + "}"@
    }
}

impl View for Class {
    type V = ClassView;

    closed spec fn view(&self) -> ClassView {
        ClassView {
            name: self.name@,
            fields: field_views(self.fields@),
            methods: method_views(self.methods@),
        }
    }
}

impl Clone for Class {
    fn clone(&self) -> (copy: Self)
        ensures
            copy@ == self@,
    {
        let copy = Class {
            name: self.name.clone(),
            fields: self.fields.clone(),
            methods: self.methods.clone(),
        };
        assert(copy.fields@ == self.fields@);
        assert(method_views(copy.methods@) == method_views(self.methods@));
        copy
    }
}

impl Class {
    /// A class of the given name, without fields or methods. The name is
    /// taken as it is.
    pub fn new(name: &str) -> (class: Self)
        ensures
            class@ == ClassView::named(name@),
    {
        let class = Self { name: name.to_owned(), fields: Vec::new(), methods: Vec::new() };
        assert(field_views(class.fields@) == Seq::<FieldView>::empty());
        assert(method_views(class.methods@) == Seq::<MethodView>::empty());
        class
    }

    /// Adds a field behind those that are there.
    pub fn push_field(&mut self, field: Field)
        ensures
            final(self)@ == (ClassView {
                fields: old(self)@.fields.push(field@),
                ..old(self)@
            }),
    {
        self.fields.push(field);
        assert(field_views(self.fields@) == field_views(old(self).fields@).push(field@));
    }

    /// Adds a method behind those that are there.
    pub fn push_method(&mut self, method: Method)
        ensures
            final(self)@ == (ClassView {
                methods: old(self)@.methods.push(method@),
                ..old(self)@
            }),
    {
        self.methods.push(method);
        assert(method_views(self.methods@) == method_views(old(self).methods@).push(method@));
    }

    /// Adds the methods, in their order, behind those that are there.
    pub fn push_methods(&mut self, methods: Vec<Method>)
        ensures
            final(self)@ == (ClassView {
                methods: old(self)@.methods + method_views(methods@),
                ..old(self)@
            }),
    {
        let ghost added = methods@;
        let mut rest = methods;
        self.methods.append(&mut rest);
        assert(method_views(self.methods@) == method_views(old(self).methods@) + method_views(
            added,
        ));
    }

    /// Writes the class as TypeScript source.
    pub fn render(&self) -> (text: String)
        ensures
            text@ == self@.text(),
    {
        let mut text = "export class ".to_owned();
        text.append(self.name.as_str());
        text.append(" {\n");
        let fields = self.render_fields();
        text.append(fields.as_str());
        let methods = self.render_methods();
        text.append(methods.as_str());
        text.append("}");
        text
    }

    fn render_fields(&self) -> (lines: String)
        ensures
            lines@ == field_lines(self@.fields),
    {
        let ghost views = field_views(self.fields@);
        let mut lines = String::new();
        let mut i: usize = 0;
        while i < self.fields.len()
            invariant
                i <= self.fields.len(),
                views == field_views(self.fields@),
                lines@ == field_lines(views.take(i as int)),
            decreases self.fields.len() - i,
        {
            proof {
                assert(views.take(i + 1).drop_last() == views.take(i as int));
                assert(views.take(i + 1).last() == self.fields@[i as int]@);
            }
            let field = self.fields[i].render();
            lines.append("\t");
            lines.append(field.as_str());
            lines.append("\n");
            i += 1;
        }
        assert(views.take(self.fields.len() as int) == views);
        lines
    }

    fn render_methods(&self) -> (lines: String)
        ensures
            lines@ == method_lines(self@.methods),
    {
        let ghost views = method_views(self.methods@);
        let mut lines = String::new();
        let mut i: usize = 0;
        while i < self.methods.len()
            invariant
                i <= self.methods.len(),
                views == method_views(self.methods@),
                lines@ == method_lines(views.take(i as int)),
            decreases self.methods.len() - i,
        {
            proof {
                assert(views.take(i + 1).drop_last() == views.take(i as int));
                assert(views.take(i + 1).last() == self.methods@[i as int]@);
            }
            let method = self.methods[i].render();
            lines.append("\t");
            lines.append(method.as_str());
            lines.append("\n");
            i += 1;
        }
        assert(views.take(self.methods.len() as int) == views);
        lines
    }
}

/// Writing the same class twice gives the same text, character for
/// character.
pub proof fn lemma_class_text_stable(class: Class, first: String, second: String)
    requires
        call_ensures(Class::render, (&class,), first),
        call_ensures(Class::render, (&class,), second),
    ensures
        first@ == second@,
{
}

} // verus!
