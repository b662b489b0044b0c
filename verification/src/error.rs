//! What can go wrong while code is generated.

use vstd::prelude::*;
use vstd::string::*;

verus! {

/// A failure of code generation.
#[derive(Debug)]
pub enum Error {
    /// A struct, a field of one struct, or an endpoint is named twice; the
    /// name is the one that repeats.
    DuplicateKey(String),
    /// A field or an endpoint refers to a struct that the schema does not
    /// define; the name is the one referred to.
    UnresolvedReference(String),
    /// The source of the Rust structs holds more opening brackets than may
    /// be printed.
    TooManyBrackets,
    /// The lexer refused the source of the Rust structs.
    Lex(proc_macro2::LexError),
}

/// What an [`Error`] stands for in contracts.
pub enum ErrorView {
    DuplicateKey(Seq<char>),
    UnresolvedReference(Seq<char>),
    TooManyBrackets,
    Lex,
}

impl View for Error {
    type V = ErrorView;

    open spec fn view(&self) -> ErrorView {
        match self {
            Error::DuplicateKey(name) => ErrorView::DuplicateKey(name@),
            Error::UnresolvedReference(name) => ErrorView::UnresolvedReference(name@),
            Error::TooManyBrackets => ErrorView::TooManyBrackets,
            Error::Lex(_) => ErrorView::Lex,
        }
    }
}

impl ErrorView {
    /// The failure in words.
    pub open spec fn message(self) -> Seq<char> {
        match self {
            ErrorView::DuplicateKey(name) => "the name `"@ + name + "` is used twice"@,
            ErrorView::UnresolvedReference(name) => "the struct `"@ + name + "` is not defined"@,
            ErrorView::TooManyBrackets => "the names hold too many brackets"@,
            ErrorView::Lex => "cannot parse string into token stream"@,
        }
    }
}

impl Error {
    /// Says in words what failed.
    pub fn message(&self) -> (text: String)
        ensures
            text@ == self@.message(),
    {
        match self {
            Error::DuplicateKey(name) => {
                let mut text = "the name `".to_owned();
                text.append(name.as_str());
                text.append("` is used twice");
                text
            },
            Error::UnresolvedReference(name) => {
                let mut text = "the struct `".to_owned();
                text.append(name.as_str());
                text.append("` is not defined");
                text
            },
            Error::TooManyBrackets => "the names hold too many brackets".to_owned(),
            Error::Lex(_) => "cannot parse string into token stream".to_owned(),
        }
    }
}

} // verus!
