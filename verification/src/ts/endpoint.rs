//! The client method that an endpoint of the schema gives.
//!
//! The body of such a method starts as a template: source text with marks
//! where the endpoint's address, verb and output type belong. The template
//! goes through the lexer of `proc_macro2`, whose printer gives the body its
//! spacing; then each mark gives way to what belongs there. What an endpoint
//! brings never meets the lexer, so every endpoint has a method, and a name
//! stands in the body as it is.

use vstd::prelude::*;
use crate::schema::{Endpoint, EndpointView, HttpMethod};
use crate::text::{optional_text, replace_first, replaced};
use crate::tokens::{
    can_print, print_tokens, printable, printed_tokens, quote_string, string_literal,
};
use crate::ts::field::FieldView;
use crate::ts::method::{Method, MethodBuilder, MethodView};
use crate::ts::types::{TsType, TsTypeView};

verus! {

/// The mark where the address belongs, as a string literal.
pub const URI_MARK: &'static str = "__uri__";

/// The mark where the verb belongs, as a string literal.
pub const VERB_MARK: &'static str = "__verb__";

/// The mark where the output type belongs.
pub const TYPE_MARK: &'static str = "__type__";

/// The template of a body that fetches without a verb, which is a `GET`,
/// and without a payload, with the checksum in the header `Api-Checksum`.
/// It has three ways out: it returns the response as a value of the output
/// type, or throws the response as the error it carries, or throws again
/// what the transport threw.
pub const FETCH_TEMPLATE: &'static str =
    "try{ const response = await fetch(__uri__,{ headers:{ \"Api-Checksum\": this.checksum } }); if (response.ok){ const body: __type__ = await response.json(); return body; } else{ const error = await response.json(); throw error; } } catch (err){ throw err; }";

/// The template of a body that fetches with a verb and sends the payload as
/// the body of the request; else as [`FETCH_TEMPLATE`].
pub const SEND_TEMPLATE: &'static str =
    "try{ const response = await fetch(__uri__,{ headers:{ \"Api-Checksum\": this.checksum }, method: __verb__, body: JSON.stringify(payload) }); if (response.ok){ const body: __type__ = await response.json(); return body; } else{ const error = await response.json(); throw error; } } catch (err){ throw err; }";

/// The template of the body for a verb.
pub open spec fn template(method: HttpMethod) -> Seq<char> {
    match method {
        HttpMethod::Get => FETCH_TEMPLATE@,
        _ => SEND_TEMPLATE@,
    }
}

/// A source as the printer writes its tokens; as it is, where it holds too
/// many brackets to be printed or the lexer refuses it.
pub open spec fn printed_or_kept(source: Seq<char>) -> Seq<char> {
    if printable(source) {
        match printed_tokens(source) {
            Some(text) => text,
            None => source,
        }
    } else {
        source
    }
}

/// The verb as a request names it: nothing for `GET`, which is what a
/// request without a verb is, else the verb as a string literal.
pub open spec fn verb_literal(method: HttpMethod) -> Option<Seq<char>> {
    match method {
        HttpMethod::Get => None,
        _ => Some(string_literal(method.token())),
    }
}

/// A printed template with its marks filled: the output type first, then
/// the verb, if there is one, then the address. The marks are filled from
/// the last to the first, so that the first occurrence of a mark is the
/// template's own, whatever was filled in behind it.
pub open spec fn filled(
    printed: Seq<char>,
    uri_literal: Seq<char>,
    verb_literal: Option<Seq<char>>,
    return_type: Seq<char>,
) -> Seq<char> {
    let typed = replaced(printed, TYPE_MARK@, return_type);
    let named = match verb_literal {
        Some(verb) => replaced(typed, VERB_MARK@, verb),
        None => typed,
    };
    replaced(named, URI_MARK@, uri_literal)
}

/// The body of an endpoint's method.
pub open spec fn endpoint_body(endpoint: EndpointView) -> Seq<char> {
    filled(
        printed_or_kept(template(endpoint.method)),
        string_literal(endpoint.uri),
        verb_literal(endpoint.method),
        TsTypeView::of(endpoint.returns).text(),
    )
}

/// The method of an endpoint with a given body: async, of the given name,
/// with the one parameter `payload` of the input's type, returning the
/// output's type.
pub open spec fn endpoint_method(
    name: Seq<char>,
    endpoint: EndpointView,
    body: Seq<char>,
) -> MethodView {
    MethodView {
        is_async: true,
        identifier: name,
        parameters: seq![FieldView { name: "payload"@, ty: TsTypeView::of(endpoint.input) }],
        returns: Some(TsTypeView::of(endpoint.returns)),
        body,
    }
}

/// The method of an endpoint.
pub open spec fn synthesized(name: Seq<char>, endpoint: EndpointView) -> MethodView {
    endpoint_method(name, endpoint, endpoint_body(endpoint))
}

/// Gives a source the printer's spacing. Where the source holds too many
/// brackets to be printed, or the lexer refuses it, it stays as it was
/// written.
pub fn print_or_keep(source: &str) -> (text: String)
    ensures
        text@ == printed_or_kept(source@),
{
    if !can_print(source) {
        return source.to_owned();
    }
    match print_tokens(source) {
        Ok(text) => text,
        Err(_) => source.to_owned(),
    }
}

/// Fills the marks of a printed template.
///
/// `uri_literal` and `verb_literal` are string literals, quotes included;
/// without a verb the mark of the verb is left alone.
pub fn fill_request(
    printed: &str,
    uri_literal: &str,
    verb_literal: Option<&str>,
    return_type: &TsType,
) -> (body: String)
    ensures
        body@ == filled(printed@, uri_literal@, optional_text(verb_literal), return_type@.text()),
{
    let ty = return_type.render();
    let typed = replace_first(printed, TYPE_MARK, ty.as_str());
    let named = match verb_literal {
        Some(verb) => replace_first(typed.as_str(), VERB_MARK, verb),
        None => typed,
    };
    replace_first(named.as_str(), URI_MARK, uri_literal)
}

impl HttpMethod {
    /// Writes the verb as a string literal.
    pub fn literal(&self) -> (literal: String)
        ensures
            literal@ == string_literal(self.token()),
    {
        quote_string(self.name())
    }

    /// The template of the body for this verb.
    pub fn template(&self) -> (source: &'static str)
        ensures
            source@ == template(*self),
    {
        match self {
            HttpMethod::Get => FETCH_TEMPLATE,
            _ => SEND_TEMPLATE,
        }
    }
}

impl MethodBuilder {
    /// The method of an endpoint with the given body.
    pub fn endpoint_method(name: &str, endpoint: &Endpoint, body: &str) -> (method: Method)
        ensures
            method@ == endpoint_method(name@, endpoint@, body@),
    {
        let input_type = TsType::from(&endpoint.input);
        let return_type = TsType::from(&endpoint.returns);
        let method = MethodBuilder::new(name).add_param("payload", input_type).return_type(
            return_type,
        ).is_async().body(body).build();
        assert(method@.parameters == seq![
            FieldView { name: "payload"@, ty: TsTypeView::of(endpoint@.input) },
        ]);
        method
    }

    /// The method that calls an endpoint. Every endpoint has one, whatever
    /// its name, its address and the names of its types are.
    pub fn from_endpoint(name: &str, endpoint: &Endpoint) -> (method: Method)
        ensures
            method@ == synthesized(name@, endpoint@),
    {
        let return_type = TsType::from(&endpoint.returns);
        let uri = quote_string(endpoint.uri.as_str());
        let printed = print_or_keep(endpoint.method.template());
        let body = match endpoint.method {
            HttpMethod::Get => fill_request(printed.as_str(), uri.as_str(), None, &return_type),
            _ => {
                let verb = endpoint.method.literal();
                fill_request(printed.as_str(), uri.as_str(), Some(verb.as_str()), &return_type)
            },
        };
        MethodBuilder::endpoint_method(name, endpoint, body.as_str())
    }
}

} // verus!
