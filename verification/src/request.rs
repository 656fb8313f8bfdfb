//! The parts of a pending request, and the copy of them that a resend needs.

use crate::headers::{
    append_field, field_pairs, gathered, header_fields, lemma_gathered_finite,
    lemma_gathered_prefix, pairs_model, REFUSAL_THRESHOLD,
};
use http::header::{HeaderMap, HeaderValue};
use vstd::prelude::*;

verus! {

/// The version of the protocol that a request speaks.
#[derive(Clone, Copy, Debug, PartialEq, Eq, Structural)]
pub enum HttpVersion {
    /// HTTP/0.9
    Http09,
    /// HTTP/1.0
    Http10,
    /// HTTP/1.1
    Http11,
    /// HTTP/2
    Http2,
    /// HTTP/3
    Http3,
}

/// Why a request could not be copied.
#[derive(Clone, Copy, Debug, PartialEq, Eq, Structural)]
pub enum CloneError {
    /// The header map of the copy refused a field: it would have had to grow
    /// beyond the greatest size that a header map allows itself. Only a map
    /// of `REFUSAL_THRESHOLD` names or more can bring this about. One that
    /// holds as many names as it can may still have taken one more value
    /// for its last name; filled again field by field, it has no room left
    /// for that value.
    HeaderMapFull,
}

/// A pending request as its owner lends it: method, target, version,
/// headers, and a body that can be duplicated.
pub struct RequestParts<'a, B> {
    /// The method, such as `GET`.
    pub method: &'a str,
    /// The target of the request.
    pub uri: &'a str,
    /// The version of the protocol.
    pub version: HttpVersion,
    /// The header fields.
    pub headers: &'a HeaderMap<HeaderValue>,
    /// The body.
    pub body: &'a B,
}

/// A request that owns all its parts, ready to be sent again.
pub struct ClonedRequest<B> {
    /// The method, such as `GET`.
    pub method: String,
    /// The target of the request.
    pub uri: String,
    /// The version of the protocol.
    pub version: HttpVersion,
    /// The header fields.
    pub headers: HeaderMap<HeaderValue>,
    /// The body.
    pub body: B,
}

impl<B: Clone> ClonedRequest<B> {
    /// Whether this request is what copying `source` gives: the same method,
    /// target, version and header fields, and a body that is a clone of the
    /// body of `source`.
    pub open spec fn is_copy_of(self, source: RequestParts<B>) -> bool {
        &&& self.method@ == source.method@
        &&& self.uri@ == source.uri@
        &&& self.version == source.version
        &&& header_fields(self.headers) == header_fields(*source.headers)
        &&& cloned(*source.body, self.body)
    }

    /// Whether the two requests have the same method, target, version and
    /// header fields.
    pub open spec fn same_head(self, other: ClonedRequest<B>) -> bool {
        &&& self.method@ == other.method@
        &&& self.uri@ == other.uri@
        &&& self.version == other.version
        &&& header_fields(self.headers) == header_fields(other.headers)
    }

    /// The parts of this request, lent.
    pub fn parts(&self) -> (parts: RequestParts<'_, B>)
        ensures
            parts.method@ == self.method@,
            parts.uri@ == self.uri@,
            parts.version == self.version,
            *parts.headers == self.headers,
            *parts.body == self.body,
    {
        RequestParts {
            method: self.method.as_str(),
            uri: self.uri.as_str(),
            version: self.version,
            headers: &self.headers,
            body: &self.body,
        }
    }
}

/// A copy of the fields of `headers` in a map of its own. Each field is
/// stored again, in the order in which the map lends them. A map of fewer
/// than `REFUSAL_THRESHOLD` names is always copied; the copy of a larger one
/// fails where the new map refuses a field.
pub fn copy_fields(headers: &HeaderMap<HeaderValue>) -> (copy: Result<
    HeaderMap<HeaderValue>,
    CloneError,
>)
    ensures
        copy matches Ok(fresh) ==> header_fields(fresh) == header_fields(*headers),
        header_fields(*headers).dom().len() < REFUSAL_THRESHOLD ==> copy is Ok,
{
    let pairs = field_pairs(headers);
    let ghost model = pairs_model(pairs@);
    let mut fresh = HeaderMap::new();
    let mut i: usize = 0;
    while i < pairs.len()
        invariant
            i <= pairs.len(),
            model == pairs_model(pairs@),
            gathered(model) == header_fields(*headers),
            header_fields(fresh) == gathered(model.take(i as int)),
        decreases pairs.len() - i,
    {
        let (name, value) = pairs[i];
        proof {
            let longer = model.take(i + 1);
            assert(longer.drop_last() =~= model.take(i as int));
            assert(longer.last() == (crate::headers::pair_model(pairs@[i as int])));
            lemma_gathered_finite(model.take(i as int));
            lemma_gathered_prefix(model, i as int);
        }
        match append_field(&mut fresh, name, value) {
            Ok(_) => {},
            Err(_) => {
                return Err(CloneError::HeaderMapFull);
            },
        }
        i = i + 1;
    }
    proof {
        assert(model.take(i as int) =~= model);
    }
    Ok(fresh)
}

/// Two copies of one request have the same method, target, version and
/// header fields as the request and as each other, and the body of each is a
/// clone of the body of the request.
pub proof fn lemma_copies_agree<B: Clone>(
    source: RequestParts<B>,
    first: ClonedRequest<B>,
    second: ClonedRequest<B>,
)
    requires
        first.is_copy_of(source),
        second.is_copy_of(source),
    ensures
        first.same_head(second),
        cloned(*source.body, first.body),
        cloned(*source.body, second.body),
{
}

/// Where the body is a buffer of bytes, two copies of one request hold the
/// very bytes of the body of the request, and so of each other.
pub proof fn lemma_byte_copies_agree(
    source: RequestParts<Vec<u8>>,
    first: ClonedRequest<Vec<u8>>,
    second: ClonedRequest<Vec<u8>>,
)
    requires
        first.is_copy_of(source),
        second.is_copy_of(source),
    ensures
        first.same_head(second),
        first.body@ == source.body@,
        second.body@ == source.body@,
        first.body@ == second.body@,
{
}

} // verus!
