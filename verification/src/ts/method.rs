//! A method of a class, the builder that makes one, and how it is written.

use vstd::prelude::*;
use vstd::string::*;
use crate::ts::field::{field_views, Field, FieldView};
use crate::ts::types::{TsType, TsTypeView};

verus! {

/// A method of a class.
#[derive(Debug, PartialEq, Eq, PartialOrd, Ord)]
pub struct Method {
    is_async: bool,
    identifier: String,
    parameters: Vec<Field>,
    returns: Option<TsType>,
    body: String,
}

/// What a [`Method`], or a [`MethodBuilder`], stands for in contracts.
pub struct MethodView {
    pub is_async: bool,
    pub identifier: Seq<char>,
    pub parameters: Seq<FieldView>,
    pub returns: Option<TsTypeView>,
    pub body: Seq<char>,
}

/// The view of an optional type.
pub open spec fn returns_view(returns: Option<TsType>) -> Option<TsTypeView> {
    match returns {
        Some(ty) => Some(ty@),
        None => None,
    }
}

/// The parameters as they stand between the brackets of a method: each one
/// followed by a comma, the last one too.
pub open spec fn parameter_list(parameters: Seq<FieldView>) -> Seq<char>
    decreases parameters.len(),
{
    if parameters.len() == 0 {
        Seq::empty()
    } else {
        parameter_list(parameters.drop_last()) + parameters.last().text() + ","@
    }
}

/// The body as it stands between the braces of a method: nothing where the
/// body is empty, else two tabs and the body as it is.
pub open spec fn indented(body: Seq<char>) -> Seq<char> {
    if body.len() == 0 {
        body
    } else {
        "\t\t"@ + body
    }
}

impl MethodView {
    /// A method that is not async, takes nothing, returns nothing and has an
    /// empty body.
    pub open spec fn named(identifier: Seq<char>) -> MethodView {
        MethodView {
            is_async: false,
            identifier,
            parameters: Seq::empty(),
            returns: None,
            body: Seq::empty(),
        }
    }

    /// What follows the closing bracket of the parameters, up to and
    /// including the opening brace: the return type, inside `Promise<..>`
    /// for an async method, and a line break; or, with no return type, no
    /// line break.
    pub open spec fn opening(self) -> Seq<char> {
        match self.returns {
            Some(ty) => if self.is_async {
                ": Promise<"@ + ty.text() + "> {\n"@
            } else {
                ": "@ + ty.text() + " {\n"@
            },
            None => " {"@,
        }
    }

    /// The head of the method, up to and including the closing bracket of
    /// the parameters.
    pub open spec fn head(self) -> Seq<char> {
        (if self.is_async {
            "async "@
        } else {
            Seq::empty()
        }) + self.identifier + "("@ + parameter_list(self.parameters) + ")"@
    }

    /// The method as it is written in TypeScript source.
    pub open spec fn text(self) -> Seq<char> {
        self.head() + self.opening() + indented(self.body) + "\n}"@
    }
}

impl View for Method {
    type V = MethodView;

    closed spec fn view(&self) -> MethodView {
        MethodView {
            is_async: self.is_async,
            identifier: self.identifier@,
            parameters: field_views(self.parameters@),
            returns: returns_view(self.returns),
            body: self.body@,
        }
    }
}

impl Clone for Method {
    fn clone(&self) -> (copy: Self)
        ensures
            copy@ == self@,
    {
        let copy = Method {
            is_async: self.is_async,
            identifier: self.identifier.clone(),
            parameters: self.parameters.clone(),
            returns: self.returns.clone(),
            body: self.body.clone(),
        };
        assert(copy.parameters@ == self.parameters@);
        copy
    }
}

impl Method {
    /// Whether the method is async.
    pub fn is_async(&self) -> (is_async: bool)
        ensures
            is_async == self@.is_async,
    {
        self.is_async
    }

    /// The method's body.
    pub fn body(&self) -> (body: &str)
        ensures
            body@ == self@.body,
    {
        self.body.as_str()
    }

    /// The method's name.
    pub fn identifier(&self) -> (identifier: &str)
        ensures
            identifier@ == self@.identifier,
    {
        self.identifier.as_str()
    }

    /// The method's return type, if it has one.
    pub fn return_type(&self) -> (ty: &Option<TsType>)
        ensures
            returns_view(*ty) == self@.returns,
    {
        &self.returns
    }

    /// The method's parameters, in the order in which they were added.
    pub fn parameters(&self) -> (parameters: &[Field])
        ensures
            field_views(parameters@) == self@.parameters,
    {
        self.parameters.as_slice()
    }

    /// Writes the method as TypeScript source.
    pub fn render(&self) -> (text: String)
        ensures
            text@ == self@.text(),
    {
        let mut text = if self.is_async {
            "async ".to_owned()
        } else {
            String::new()
        };
        text.append(self.identifier.as_str());
        text.append("(");
        let list = render_parameters(&self.parameters);
        text.append(list.as_str());
        text.append(")");
        let opening = match &self.returns {
            Some(ty) => {
                let ty_text = ty.render();
                let mut opening = if self.is_async {
                    ": Promise<".to_owned()
                } else {
                    ": ".to_owned()
                };
                opening.append(ty_text.as_str());
                if self.is_async {
                    opening.append("> {\n");
                } else {
                    opening.append(" {\n");
                }
                opening
            },
            None => " {".to_owned(),
        };
        text.append(opening.as_str());
        let body = if self.body.as_str().is_empty() {
            String::new()
        } else {
            let mut body = "\t\t".to_owned();
            body.append(self.body.as_str());
            body
        };
        text.append(body.as_str());
        text.append("\n}");
        text
    }
}

/// Writes the parameters of a method, each followed by a comma.
fn render_parameters(parameters: &Vec<Field>) -> (text: String)
    ensures
        text@ == parameter_list(field_views(parameters@)),
{
    let ghost views = field_views(parameters@);
    let mut text = String::new();
    let mut i: usize = 0;
    while i < parameters.len()
        invariant
            i <= parameters.len(),
            views == field_views(parameters@),
            text@ == parameter_list(views.take(i as int)),
        decreases parameters.len() - i,
    {
        proof {
            assert(views.take(i + 1).drop_last() == views.take(i as int));
            assert(views.take(i + 1).last() == parameters@[i as int]@);
        }
        let one = parameters[i].render();
        text.append(one.as_str());
        text.append(",");
        i += 1;
    }
    assert(views.take(parameters.len() as int) == views);
    text
}

/// Builds a [`Method`] step by step.
///
/// Every step takes the builder and gives it back; `build` takes it for
/// good, so that a finished method cannot be changed through its builder.
#[derive(Debug)]
pub struct MethodBuilder {
    is_async: bool,
    identifier: String,
    parameters: Vec<Field>,
    returns: Option<TsType>,
    body: String,
}

impl View for MethodBuilder {
    type V = MethodView;

    closed spec fn view(&self) -> MethodView {
        MethodView {
            is_async: self.is_async,
            identifier: self.identifier@,
            parameters: field_views(self.parameters@),
            returns: returns_view(self.returns),
            body: self.body@,
        }
    }
}

impl Clone for MethodBuilder {
    fn clone(&self) -> (copy: Self)
        ensures
            copy@ == self@,
    {
        let copy = MethodBuilder {
            is_async: self.is_async,
            identifier: self.identifier.clone(),
            parameters: self.parameters.clone(),
            returns: self.returns.clone(),
            body: self.body.clone(),
        };
        assert(copy.parameters@ == self.parameters@);
        copy
    }
}

impl MethodBuilder {
    /// A builder for a method of the given name. The name is taken as it is.
    pub fn new(identifier: &str) -> (builder: Self)
        ensures
            builder@ == MethodView::named(identifier@),
    {
        let builder = Self {
            identifier: identifier.to_owned(),
            is_async: false,
            parameters: Vec::new(),
            returns: None,
            body: String::new(),
        };
        assert(field_views(builder.parameters@) == Seq::<FieldView>::empty());
        builder
    }

    /// Marks the method as async.
    pub fn is_async(self) -> (builder: Self)
        ensures
            builder@ == (MethodView { is_async: true, ..self@ }),
    {
        let mut builder = self;
        builder.is_async = true;
        builder
    }

    /// Sets the method's return type.
    pub fn return_type(self, _type: TsType) -> (builder: Self)
        ensures
            builder@ == (MethodView { returns: Some(_type@), ..self@ }),
    {
        let mut builder = self;
        builder.returns = Some(_type);
        builder
    }

    /// Adds a parameter behind those that are there.
    pub fn add_param(self, identifier: &str, _type: TsType) -> (builder: Self)
        ensures
            builder@ == (MethodView {
                parameters: self@.parameters.push(FieldView { name: identifier@, ty: _type@ }),
                ..self@
            }),
    {
        let mut builder = self;
        builder.parameters.push(Field::new(identifier, _type));
        assert(field_views(builder.parameters@) == field_views(self.parameters@).push(
            FieldView { name: identifier@, ty: _type@ },
        ));
        builder
    }

    /// Sets the method's body.
    pub fn body(self, body: &str) -> (builder: Self)
        ensures
            builder@ == (MethodView { body: body@, ..self@ }),
    {
        let mut builder = self;
        builder.body = body.to_owned();
        builder
    }

    /// The method that was built.
    pub fn build(self) -> (method: Method)
        ensures
            method@ == self@,
    {
        Method {
            is_async: self.is_async,
            identifier: self.identifier,
            parameters: self.parameters,
            returns: self.returns,
            body: self.body,
        }
    }
}

/// Writing the same method twice gives the same text, character for
/// character.
pub proof fn lemma_method_text_stable(method: Method, first: String, second: String)
    requires
        call_ensures(Method::render, (&method,), first),
        call_ensures(Method::render, (&method,), second),
    ensures
        first@ == second@,
{
}

} // verus!
