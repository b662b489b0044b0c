//! The checksum of a schema: the string that a client sends with every
//! request and that a server compares with its own.
//!
//! Every part of the schema enters the checksum. The structs, the fields of
//! a struct and the endpoints enter it as sums, so that the order in which a
//! document lists them does not change it.
//!
//! The checksum has 64 bits, far fewer than a schema: two schemas can share
//! one. What is proved is that the same schema always has the same
//! checksum, in whatever order it is listed.

use vstd::prelude::*;
use vstd::seq_lib::{commutative_foldr, lemma_fold_right_permutation};
use vstd::string::*;
use vstd::utf8::encode_utf8;
use crate::schema::{
    endpoint_defs_view, field_defs_view, struct_defs_view, ApiSchema, ApiSchemaView, Endpoint,
    EndpointView, Endpoints, Entries, EntriesView, SchemaType, SchemaTypeView, StructView,
    Structs,
};

verus! {

/// The state that a digest starts from (the offset basis of 64-bit FNV).
pub const FNV_OFFSET: u64 = 0xcbf2_9ce4_8422_2325;

/// The factor of a digest's steps (the prime of 64-bit FNV).
pub const FNV_PRIME: u64 = 0x0000_0100_0000_01b3;

/// One step of a digest: the byte is folded into the state, and the state
/// is multiplied within 64 bits.
pub open spec fn mix(state: u64, byte: u64) -> u64 {
    (state ^ byte).wrapping_mul(FNV_PRIME)
}

/// The state after the lowest `count` bytes of a word, the lowest first.
pub open spec fn absorb_bytes(state: u64, word: u64, count: nat) -> u64
    decreases count,
{
    if count == 0 {
        state
    } else {
        absorb_bytes(mix(state, word & 0xff), word >> 8, (count - 1) as nat)
    }
}

/// The state after a word: after its eight bytes, the lowest first. This is
/// how one digest enters another.
pub open spec fn absorb(state: u64, word: u64) -> u64 {
    absorb_bytes(state, word, 8)
}

/// The digest of bytes: FNV-1a over 64 bits.
pub open spec fn bytes_digest(bytes: Seq<u8>) -> u64
    decreases bytes.len(),
{
    if bytes.len() == 0 {
        FNV_OFFSET
    } else {
        mix(bytes_digest(bytes.drop_last()), bytes.last() as u64)
    }
}

/// The digest of a text: that of its bytes in UTF-8.
pub open spec fn text_digest(text: Seq<char>) -> u64 {
    bytes_digest(encode_utf8(text))
}

/// The digest of a field of a struct: of its name and its type.
///
/// A type enters by its tag, as a document names it. A struct under the
/// name of a scalar tag has the tag, and so the digest, of the scalar: no
/// document can tell the two apart.
pub open spec fn field_digest(entry: (Seq<char>, SchemaTypeView)) -> u64 {
    absorb(text_digest(entry.0), text_digest(entry.1.tag()))
}

/// Adds the digest of a field to a sum, within 64 bits.
pub open spec fn add_field() -> spec_fn((Seq<char>, SchemaTypeView), u64) -> u64 {
    |entry: (Seq<char>, SchemaTypeView), sum: u64| field_digest(entry).wrapping_add(sum)
}

/// The digest of a struct: of its name and the sum of its fields' digests.
pub open spec fn struct_digest(definition: StructView) -> u64 {
    absorb(text_digest(definition.0), definition.1.fold_right(add_field(), 0))
}

/// Adds the digest of a struct to a sum, within 64 bits.
pub open spec fn add_struct() -> spec_fn(StructView, u64) -> u64 {
    |definition: StructView, sum: u64| struct_digest(definition).wrapping_add(sum)
}

/// The digest of an endpoint: of its name, its address, its verb, its input
/// and its output, in this order.
pub open spec fn endpoint_digest(entry: (Seq<char>, EndpointView)) -> u64 {
    absorb(
        absorb(
            absorb(
                absorb(text_digest(entry.0), text_digest(entry.1.uri)),
                text_digest(entry.1.method.token()),
            ),
            text_digest(entry.1.input.tag()),
        ),
        text_digest(entry.1.returns.tag()),
    )
}

/// Adds the digest of an endpoint to a sum, within 64 bits.
pub open spec fn add_endpoint() -> spec_fn((Seq<char>, EndpointView), u64) -> u64 {
    |entry: (Seq<char>, EndpointView), sum: u64| endpoint_digest(entry).wrapping_add(sum)
}

/// The digest of a schema: of its version, its note, the sum of its
/// structs' digests and the sum of its endpoints' digests, in this order.
pub open spec fn schema_digest(schema: ApiSchemaView) -> u64 {
    absorb(
        absorb(
            absorb(text_digest(schema.version), text_digest(schema.schema_diff)),
            schema.structs.fold_right(add_struct(), 0),
        ),
        schema.endpoints.fold_right(add_endpoint(), 0),
    )
}

/// A digit of base sixteen.
pub open spec fn hex_digit(value: nat) -> Seq<char> {
    "0123456789abcdef"@.subrange(value as int, value as int + 1)
}

/// The lowest `digits` digits of a number in base sixteen, the highest
/// first.
pub open spec fn hex(value: nat, digits: nat) -> Seq<char>
    decreases digits,
{
    if digits == 0 {
        Seq::empty()
    } else {
        hex(value / 16, (digits - 1) as nat) + hex_digit(value % 16)
    }
}

/// The checksum of a schema: its digest in sixteen digits of base sixteen.
pub open spec fn checksum_text(schema: ApiSchemaView) -> Seq<char> {
    hex(schema_digest(schema) as nat, 16)
}

/// Computes the digest of a text.
pub fn digest(text: &str) -> (state: u64)
    ensures
        state == text_digest(text@),
{
    let bytes = text.as_bytes();
    let mut state: u64 = FNV_OFFSET;
    let mut i: usize = 0;
    while i < bytes.len()
        invariant
            i <= bytes.len(),
            bytes@ == encode_utf8(text@),
            state == bytes_digest(bytes@.take(i as int)),
        decreases bytes.len() - i,
    {
        proof {
            assert(bytes@.take(i + 1).drop_last() == bytes@.take(i as int));
        }
        state = (state ^ (bytes[i] as u64)).wrapping_mul(FNV_PRIME);
        i += 1;
    }
    assert(bytes@.take(bytes.len() as int) == bytes@);
    state
}

/// Folds a word into a state, byte by byte.
pub fn absorb_word(state: u64, word: u64) -> (after: u64)
    ensures
        after == absorb(state, word),
{
    let mut after = state;
    let mut rest = word;
    let mut done: u8 = 0;
    while done < 8
        invariant
            done <= 8,
            absorb_bytes(after, rest, (8 - done) as nat) == absorb(state, word),
        decreases 8 - done,
    {
        after = (after ^ (rest & 0xff)).wrapping_mul(FNV_PRIME);
        rest = rest >> 8;
        done += 1;
    }
    after
}

/// Computes the digest of a type's tag.
fn type_digest(ty: &SchemaType) -> (state: u64)
    ensures
        state == text_digest(ty@.tag()),
{
    digest(ty.tag())
}

/// Computes the sum of the digests of a struct's fields.
fn fields_sum(fields: &Entries) -> (sum: u64)
    ensures
        sum == field_defs_view(fields@).fold_right(add_field(), 0),
{
    let ghost views = field_defs_view(fields@);
    let mut sum: u64 = 0;
    let mut i: usize = fields.len();
    assert(views.take(i as int) == views);
    while i > 0
        invariant
            i <= fields.len(),
            views == field_defs_view(fields@),
            views.fold_right(add_field(), 0) == views.take(i as int).fold_right(add_field(), sum),
        decreases i,
    {
        i -= 1;
        proof {
            assert(views.take(i + 1).drop_last() == views.take(i as int));
            assert(views.take(i + 1).last() == views[i as int]);
        }
        let name = digest(fields[i].0.as_str());
        let ty = type_digest(&fields[i].1);
        let one = absorb_word(name, ty);
        sum = one.wrapping_add(sum);
    }
    sum
}

/// Computes the sum of the digests of the structs.
fn structs_sum(structs: &Structs) -> (sum: u64)
    ensures
        sum == struct_defs_view(structs@).fold_right(add_struct(), 0),
{
    let ghost views = struct_defs_view(structs@);
    let mut sum: u64 = 0;
    let mut i: usize = structs.len();
    assert(views.take(i as int) == views);
    while i > 0
        invariant
            i <= structs.len(),
            views == struct_defs_view(structs@),
            views.fold_right(add_struct(), 0) == views.take(i as int).fold_right(
                add_struct(),
                sum,
            ),
        decreases i,
    {
        i -= 1;
        proof {
            assert(views.take(i + 1).drop_last() == views.take(i as int));
            assert(views.take(i + 1).last() == views[i as int]);
        }
        let name = digest(structs[i].0.as_str());
        let fields = fields_sum(&structs[i].1);
        let one = absorb_word(name, fields);
        sum = one.wrapping_add(sum);
    }
    sum
}

/// Computes the digest of an endpoint.
fn endpoint_sum(name: &str, endpoint: &Endpoint) -> (state: u64)
    ensures
        state == endpoint_digest((name@, endpoint@)),
{
    let mut state = digest(name);
    state = absorb_word(state, digest(endpoint.uri.as_str()));
    state = absorb_word(state, digest(endpoint.method.name()));
    state = absorb_word(state, type_digest(&endpoint.input));
    state = absorb_word(state, type_digest(&endpoint.returns));
    state
}

/// Computes the sum of the digests of the endpoints.
fn endpoints_sum(endpoints: &Endpoints) -> (sum: u64)
    ensures
        sum == endpoint_defs_view(endpoints@).fold_right(add_endpoint(), 0),
{
    let ghost views = endpoint_defs_view(endpoints@);
    let mut sum: u64 = 0;
    let mut i: usize = endpoints.len();
    assert(views.take(i as int) == views);
    while i > 0
        invariant
            i <= endpoints.len(),
            views == endpoint_defs_view(endpoints@),
            views.fold_right(add_endpoint(), 0) == views.take(i as int).fold_right(
                add_endpoint(),
                sum,
            ),
        decreases i,
    {
        i -= 1;
        proof {
            assert(views.take(i + 1).drop_last() == views.take(i as int));
            assert(views.take(i + 1).last() == views[i as int]);
        }
        let one = endpoint_sum(endpoints[i].0.as_str(), &endpoints[i].1);
        sum = one.wrapping_add(sum);
    }
    sum
}

/// A digit of base sixteen.
fn digit(value: u8) -> (text: &'static str)
    requires
        value < 16,
    ensures
        text@ == hex_digit(value as nat),
{
    proof {
        reveal_strlit("0123456789abcdef");
    }
    "0123456789abcdef".substring_ascii(value as usize, value as usize + 1)
}

/// Writes the lowest `digits` digits of a number in base sixteen, the
/// highest first.
pub fn to_hex(value: u64, digits: u8) -> (text: String)
    ensures
        text@ == hex(value as nat, digits as nat),
    decreases digits,
{
    if digits == 0 {
        String::new()
    } else {
        let mut text = to_hex(value / 16, digits - 1);
        text.append(digit((value % 16) as u8));
        text
    }
}

impl ApiSchema {
    /// Computes the checksum of the schema.
    pub fn checksum(&self) -> (text: String)
        ensures
            text@ == checksum_text(self@),
    {
        let mut state = digest(self.version.as_str());
        state = absorb_word(state, digest(self.schema_diff.as_str()));
        state = absorb_word(state, structs_sum(&self.structs));
        state = absorb_word(state, endpoints_sum(&self.endpoints));
        to_hex(state, 16)
    }
}

/// Adding within 64 bits gives the same sum in either order.
proof fn lemma_add_either_order(one: u64, other: u64, sum: u64)
    ensures
        one.wrapping_add(other.wrapping_add(sum)) == other.wrapping_add(one.wrapping_add(sum)),
{
}

/// Computing the checksum of the same schema twice gives the same string.
pub proof fn lemma_checksum_stable(schema: ApiSchema, first: String, second: String)
    requires
        call_ensures(ApiSchema::checksum, (&schema,), first),
        call_ensures(ApiSchema::checksum, (&schema,), second),
    ensures
        first@ == second@,
{
}

/// The digest of a struct does not depend on the order of its fields.
pub proof fn lemma_struct_digest_ignores_order(name: Seq<char>, one: EntriesView, other: EntriesView)
    requires
        one.to_multiset() == other.to_multiset(),
    ensures
        struct_digest((name, one)) == struct_digest((name, other)),
{
    assert(commutative_foldr(add_field())) by {
        assert forall|x: (Seq<char>, SchemaTypeView), y: (Seq<char>, SchemaTypeView), sum: u64|
            #[trigger] add_field()(x, add_field()(y, sum)) == add_field()(
                y,
                add_field()(x, sum),
            ) by {
            lemma_add_either_order(field_digest(x), field_digest(y), sum);
        }
    }
    lemma_fold_right_permutation(one, other, add_field(), 0u64);
}

/// The checksum of a schema does not depend on the order of its structs,
/// nor on that of its endpoints: two schemas with the same version, the
/// same note, the same structs and the same endpoints, in whatever order,
/// have the same checksum.
pub proof fn lemma_checksum_ignores_order(one: ApiSchemaView, other: ApiSchemaView)
    requires
        one.version == other.version,
        one.schema_diff == other.schema_diff,
        one.structs.to_multiset() == other.structs.to_multiset(),
        one.endpoints.to_multiset() == other.endpoints.to_multiset(),
    ensures
        checksum_text(one) == checksum_text(other),
{
    assert(commutative_foldr(add_struct())) by {
        assert forall|x: StructView, y: StructView, sum: u64|
            #[trigger] add_struct()(x, add_struct()(y, sum)) == add_struct()(
                y,
                add_struct()(x, sum),
            ) by {
            lemma_add_either_order(struct_digest(x), struct_digest(y), sum);
        }
    }
    assert(commutative_foldr(add_endpoint())) by {
        assert forall|x: (Seq<char>, EndpointView), y: (Seq<char>, EndpointView), sum: u64|
            #[trigger] add_endpoint()(x, add_endpoint()(y, sum)) == add_endpoint()(
                y,
                add_endpoint()(x, sum),
            ) by {
            lemma_add_either_order(endpoint_digest(x), endpoint_digest(y), sum);
        }
    }
    lemma_fold_right_permutation(one.structs, other.structs, add_struct(), 0u64);
    lemma_fold_right_permutation(one.endpoints, other.endpoints, add_endpoint(), 0u64);
}

/// A number written in base sixteen has as many characters as digits were
/// asked for.
pub proof fn lemma_hex_len(value: nat, digits: nat)
    ensures
        hex(value, digits).len() == digits,
    decreases digits,
{
    if digits > 0 {
        lemma_hex_len(value / 16, (digits - 1) as nat);
        reveal_strlit("0123456789abcdef");
    }
}

/// A checksum has sixteen characters.
pub proof fn lemma_checksum_len(schema: ApiSchemaView)
    ensures
        checksum_text(schema).len() == 16,
{
    lemma_hex_len(schema_digest(schema) as nat, 16);
}

} // verus!
