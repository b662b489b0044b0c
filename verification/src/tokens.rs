//! The token lexer and printer of `proc_macro2`, behind contracts.
//!
//! Source text is handed to the lexer; what comes back is the same tokens
//! in the printer's spacing. Of the lexer and the printer nothing is proved:
//! the contracts say what they are relied on for. What is proved is the
//! count of brackets that keeps a source within the printer's depth.
//!
//! The crate is built without its feature `proc-macro`. Without it the
//! crate holds one lexer, one printer and one maker of literals, its own,
//! and none of them reads anything but its argument; with it, a compiler
//! that expands a macro would answer in their place.

use std::str::FromStr;
use vstd::prelude::*;
use vstd::utf8::encode_utf8;

verus! {

/// The most opening brackets that a source may hold to be printed. The
/// printer calls itself once for each bracket that is open inside another,
/// so this bounds the depth of its calls.
pub const MAX_BRACKETS: usize = 128;

/// Whether a byte is an opening bracket: round, square or curly.
pub open spec fn is_open_bracket(byte: u8) -> bool {
    byte == 0x28 || byte == 0x5b || byte == 0x7b
}

/// The number of opening brackets among bytes.
pub open spec fn open_brackets(bytes: Seq<u8>) -> nat
    decreases bytes.len(),
{
    if bytes.len() == 0 {
        0
    } else {
        open_brackets(bytes.drop_last()) + if is_open_bracket(bytes.last()) {
            1nat
        } else {
            0nat
        }
    }
}

/// Whether a source holds no more opening brackets than may be printed.
pub open spec fn printable(source: Seq<char>) -> bool {
    open_brackets(encode_utf8(source)) <= MAX_BRACKETS
}

/// Counts the opening brackets of a source against the limit.
pub fn can_print(source: &str) -> (fits: bool)
    ensures
        fits == printable(source@),
{
    let bytes = source.as_bytes();
    let mut count: usize = 0;
    let mut i: usize = 0;
    while i < bytes.len()
        invariant
            i <= bytes.len(),
            count <= MAX_BRACKETS,
            count == open_brackets(bytes@.take(i as int)),
            bytes@ == encode_utf8(source@),
        decreases bytes.len() - i,
    {
        assert(bytes@.take(i + 1).drop_last() == bytes@.take(i as int));
        let byte = bytes[i];
        if byte == 0x28 || byte == 0x5b || byte == 0x7b {
            if count == MAX_BRACKETS {
                proof {
                    lemma_open_brackets_grow(bytes@, i + 1);
                }
                return false;
            }
            count += 1;
        }
        i += 1;
    }
    assert(bytes@.take(bytes.len() as int) == bytes@);
    true
}

/// A longer start of bytes holds no fewer opening brackets.
proof fn lemma_open_brackets_grow(bytes: Seq<u8>, start: int)
    requires
        0 <= start <= bytes.len(),
    ensures
        open_brackets(bytes.take(start)) <= open_brackets(bytes),
    decreases bytes.len() - start,
{
    if start < bytes.len() {
        assert(bytes.take(start + 1).drop_last() == bytes.take(start));
        lemma_open_brackets_grow(bytes, start + 1);
    } else {
        assert(bytes.take(start) == bytes);
    }
}

/// The refusal of `proc_macro2::TokenStream::from_str`.
#[verifier::external_type_specification]
#[verifier::external_body]
pub struct ExLexError(proc_macro2::LexError);

/// The text that `proc_macro2` prints for the tokens of `source`, or `None`
/// where its lexer refuses `source`.
pub uninterp spec fn printed_tokens(source: Seq<char>) -> Option<Seq<char>>;

/// The source form of the string literal that holds `value`: the characters
/// between double quotes, escaped as `proc_macro2::Literal::string` escapes
/// them.
pub uninterp spec fn string_literal(value: Seq<char>) -> Seq<char>;

/// Lexes `source` with `proc_macro2::TokenStream::from_str` and prints the
/// tokens with the stream's `Display`.
///
/// The contract only names the outcome: the printed text is
/// `printed_tokens(source)`, and the lexer's refusal is its `None`. The
/// lexer keeps its open brackets on the heap; the printer calls itself once
/// for each bracket that is open inside another, which is why a source with
/// too many brackets is kept out.
#[verifier::external_body]
pub(crate) fn print_tokens(source: &str) -> (printed: Result<String, proc_macro2::LexError>)
    requires
        printable(source@),
    ensures
        match printed {
            Ok(text) => printed_tokens(source@) == Some(text@),
            Err(_) => printed_tokens(source@) is None,
        },
{
    match proc_macro2::TokenStream::from_str(source) {
        Ok(tokens) => Ok(tokens.to_string()),
        Err(refusal) => Err(refusal),
    }
}

/// Makes the string literal that holds `value` with
/// `proc_macro2::Literal::string` and prints it.
///
/// The contract only names the outcome: the text is `string_literal(value)`.
#[verifier::external_body]
pub(crate) fn quote_string(value: &str) -> (literal: String)
    ensures
        literal@ == string_literal(value@),
{
    proc_macro2::Literal::string(value).to_string()
}

} // verus!
