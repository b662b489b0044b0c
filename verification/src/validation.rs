//! The check that a server makes on every request: does it carry the
//! checksum of the schema that the server was built from?
//!
//! The library decides; handing the request on, or answering it with a
//! refusal, is left to the host.

use vstd::prelude::*;
use vstd::utf8::{encode_utf8, encode_utf8_decode_utf8};
use crate::checksum::checksum_text;
use crate::schema::ApiSchemaView;
use crate::text::{bytes_eq, optional_text, str_eq};

verus! {

/// The name of the header that carries the checksum.
pub const CHECKSUM_HEADER: &'static str = "Api-Schema-Checksum";

/// The status of the answer to a request without the header: bad request.
pub const STATUS_MISSING: u16 = 400;

/// The status of the answer to a request whose checksum is another than the
/// server's: unprocessable entity.
pub const STATUS_MISMATCH: u16 = 422;

/// What becomes of a request.
#[derive(Debug, Clone, Copy, PartialEq, Eq, Structural)]
pub enum Verdict {
    /// The request carries the server's checksum: it is handed on unchanged,
    /// and what comes back is the answer.
    Forward,
    /// The request carries no checksum: it is refused and not handed on.
    RejectMissing,
    /// The request carries another checksum: it is refused and not handed
    /// on.
    RejectMismatch,
}

impl Verdict {
    /// The verdict on a request, from the checksum that the server expects
    /// and the value of the request's checksum header, if it has one.
    pub open spec fn of(expected: Seq<char>, header: Option<Seq<char>>) -> Verdict {
        match header {
            None => Verdict::RejectMissing,
            Some(value) => if value == expected {
                Verdict::Forward
            } else {
                Verdict::RejectMismatch
            },
        }
    }

    /// The verdict on a request, from the checksum that the server expects
    /// and the bytes of the request's checksum header, if it has one. The
    /// bytes of a header need not be text: whatever is not the expected
    /// checksum in UTF-8 is another checksum.
    pub open spec fn of_bytes(expected: Seq<char>, header: Option<Seq<u8>>) -> Verdict {
        match header {
            None => Verdict::RejectMissing,
            Some(bytes) => if bytes == encode_utf8(expected) {
                Verdict::Forward
            } else {
                Verdict::RejectMismatch
            },
        }
    }

    /// The status of the refusal, or `None` where the request is handed on.
    pub open spec fn refusal(self) -> Option<u16> {
        match self {
            Verdict::Forward => None,
            Verdict::RejectMissing => Some(STATUS_MISSING),
            Verdict::RejectMismatch => Some(STATUS_MISMATCH),
        }
    }

    /// Whether the request is handed on.
    pub fn is_forward(&self) -> (forward: bool)
        ensures
            forward == (*self == Verdict::Forward),
    {
        match self {
            Verdict::Forward => true,
            _ => false,
        }
    }

    /// The status to refuse the request with, or `None` where it is handed
    /// on.
    pub fn status(&self) -> (status: Option<u16>)
        ensures
            status == self.refusal(),
    {
        match self {
            Verdict::Forward => None,
            Verdict::RejectMissing => Some(STATUS_MISSING),
            Verdict::RejectMismatch => Some(STATUS_MISMATCH),
        }
    }
}

/// Makes, for each service, the middleware that guards it.
#[derive(Debug)]
pub struct ValidationLayer {
    checksum: String,
}

impl Clone for ValidationLayer {
    fn clone(&self) -> (copy: Self)
        ensures
            copy.expected() == self.expected(),
    {
        ValidationLayer { checksum: self.checksum.clone() }
    }
}

impl ValidationLayer {
    /// The checksum that requests have to carry.
    pub closed spec fn expected(&self) -> Seq<char> {
        self.checksum@
    }

    /// A layer for the given checksum.
    pub fn new(checksum: &str) -> (layer: Self)
        ensures
            layer.expected() == checksum@,
    {
        Self { checksum: checksum.to_owned() }
    }

    /// The middleware that guards `inner` with this layer's checksum.
    pub fn layer<S>(&self, inner: S) -> (middleware: SchemaMiddleware<S>)
        ensures
            middleware.expected() == self.expected(),
            *middleware.service() == inner,
    {
        SchemaMiddleware { inner, checksum: self.checksum.clone() }
    }
}

/// A service with the checksum that requests to it have to carry. The
/// checksum is set once and never changed.
#[derive(Debug)]
pub struct SchemaMiddleware<S> {
    inner: S,
    checksum: String,
}

impl<S: Clone> Clone for SchemaMiddleware<S> {
    /// A copy of the service behind the same checksum.
    fn clone(&self) -> (copy: Self)
        ensures
            copy.expected() == self.expected(),
    {
        SchemaMiddleware { inner: self.inner.clone(), checksum: self.checksum.clone() }
    }
}

impl<S> SchemaMiddleware<S> {
    /// The checksum that requests have to carry.
    pub closed spec fn expected(&self) -> Seq<char> {
        self.checksum@
    }

    /// The service that is guarded.
    pub closed spec fn service(&self) -> &S {
        &self.inner
    }

    /// Decides what becomes of a request, from the value of its checksum
    /// header, if it has one.
    pub fn check(&self, header: Option<&str>) -> (verdict: Verdict)
        ensures
            verdict == Verdict::of(self.expected(), optional_text(header)),
    {
        match header {
            None => Verdict::RejectMissing,
            Some(value) => {
                if str_eq(value, self.checksum.as_str()) {
                    Verdict::Forward
                } else {
                    Verdict::RejectMismatch
                }
            },
        }
    }

    /// Decides what becomes of a request, from the bytes of its checksum
    /// header, if it has one. Every header has a verdict, also one whose
    /// bytes are no text.
    pub fn check_bytes(&self, header: Option<&[u8]>) -> (verdict: Verdict)
        ensures
            verdict == match header {
                None => Verdict::RejectMissing,
                Some(bytes) => if bytes@ == encode_utf8(self.expected()) {
                    Verdict::Forward
                } else {
                    Verdict::RejectMismatch
                },
            },
    {
        match header {
            None => Verdict::RejectMissing,
            Some(bytes) => {
                if bytes_eq(bytes, self.checksum.as_str().as_bytes()) {
                    Verdict::Forward
                } else {
                    Verdict::RejectMismatch
                }
            },
        }
    }

    /// The guarded service.
    pub fn inner(&self) -> (inner: &S)
        ensures
            inner == self.service(),
    {
        &self.inner
    }

    /// The guarded service, to call it. The checksum stays as it is.
    pub fn inner_mut(&mut self) -> (inner: &mut S)
        ensures
            *inner == *old(self).service(),
            *final(self).service() == *final(inner),
            final(self).expected() == old(self).expected(),
    {
        &mut self.inner
    }
}

/// Every request meets exactly one of three ends: it is handed on, it is
/// refused for want of a checksum, or it is refused for another checksum.
/// A request is handed on if and only if it carries the expected checksum,
/// and it is refused with a status if and only if it is not handed on.
pub proof fn lemma_one_verdict<S>(
    middleware: SchemaMiddleware<S>,
    header: Option<&str>,
    verdict: Verdict,
)
    requires
        call_ensures(SchemaMiddleware::<S>::check, (&middleware, header), verdict),
    ensures
        verdict == Verdict::Forward <==> optional_text(header) == Some(middleware.expected()),
        verdict == Verdict::RejectMissing <==> header is None,
        verdict == Verdict::RejectMismatch <==> (header is Some && optional_text(header) != Some(
            middleware.expected(),
        )),
        verdict.refusal() is None <==> verdict == Verdict::Forward,
        verdict == Verdict::RejectMissing ==> verdict.refusal() == Some(STATUS_MISSING),
        verdict == Verdict::RejectMismatch ==> verdict.refusal() == Some(STATUS_MISMATCH),
{
}

/// A header that is text has the same verdict by its bytes as by its
/// characters.
pub proof fn lemma_verdict_of_text(expected: Seq<char>, header: Seq<char>)
    ensures
        Verdict::of_bytes(expected, Some(encode_utf8(header))) == Verdict::of(
            expected,
            Some(header),
        ),
{
    encode_utf8_decode_utf8(expected);
    encode_utf8_decode_utf8(header);
}

/// Every request meets exactly one of three ends by the bytes of its header
/// too, and no bytes are left without one: a request is handed on if and
/// only if its header holds the expected checksum in UTF-8, refused as
/// missing if and only if it has no header, and refused as another checksum
/// otherwise.
pub proof fn lemma_one_verdict_of_bytes<S>(
    middleware: SchemaMiddleware<S>,
    header: Option<&[u8]>,
    verdict: Verdict,
)
    requires
        call_ensures(SchemaMiddleware::<S>::check_bytes, (&middleware, header), verdict),
    ensures
        verdict == Verdict::Forward <==> (header matches Some(bytes) && bytes@ == encode_utf8(
            middleware.expected(),
        )),
        verdict == Verdict::RejectMissing <==> header is None,
        verdict == Verdict::RejectMismatch <==> (header matches Some(bytes) && bytes@
            != encode_utf8(middleware.expected())),
        verdict.refusal() is None <==> verdict == Verdict::Forward,
{
}

/// A server that expects the checksum of its schema hands on a request
/// with the checksum of a client's schema if and only if the two checksums
/// are the same, and refuses it as another checksum if they differ.
pub proof fn lemma_checksum_decides<S>(
    middleware: SchemaMiddleware<S>,
    server: ApiSchemaView,
    client: ApiSchemaView,
    header: &str,
    verdict: Verdict,
)
    requires
        middleware.expected() == checksum_text(server),
        header@ == checksum_text(client),
        call_ensures(SchemaMiddleware::<S>::check, (&middleware, Some(header)), verdict),
    ensures
        verdict == Verdict::Forward <==> checksum_text(server) == checksum_text(client),
        checksum_text(server) != checksum_text(client) ==> verdict == Verdict::RejectMismatch
            && verdict.refusal() == Some(STATUS_MISMATCH),
{
}

} // verus!
