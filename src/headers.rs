use vstd::prelude::*;

use crate::error::ApiError;

verus! {

/// The canonical JSON media type, as bytes.
pub open spec fn json_media_type() -> Seq<u8> {
    "application/json"@.map_values(|c: char| c as u8)
}

/// The extended-JSON media type, as bytes.
pub open spec fn ejson_media_type() -> Seq<u8> {
    "application/ejson"@.map_values(|c: char| c as u8)
}

/// What the content guard lets through, and how.
#[derive(Debug, Clone, Copy, PartialEq, Eq, Structural)]
pub enum Negotiation {
    /// The declared type is already canonical JSON: forward the request as it is.
    PassThrough,
    /// The declared type is extended JSON: relabel it as canonical JSON, keep the body.
    NormalizeToJson,
}

/// The guard's decision for a declared content type (None: no header at all).
pub open spec fn negotiation_of(h: Option<Seq<u8>>) -> Result<Negotiation, ApiError> {
    match h {
        Some(b) => if b == json_media_type() {
            Ok(Negotiation::PassThrough)
        } else if b == ejson_media_type() {
            Ok(Negotiation::NormalizeToJson)
        } else {
            Err(ApiError::BadRequest)
        },
        None => Err(ApiError::BadRequest),
    }
}

/// The content type a request carries once the guard has let it through.
pub open spec fn forwarded_type(h: Seq<u8>, n: Negotiation) -> Seq<u8> {
    match n {
        Negotiation::PassThrough => h,
        Negotiation::NormalizeToJson => json_media_type(),
    }
}

fn bytes_equal(a: &[u8], b: &[u8]) -> (r: bool)
    ensures
        r == (a@ == b@),
{
    if a.len() != b.len() {
        return false;
    }
    let mut i: usize = 0;
    while i < a.len()
        invariant
            a@.len() == b@.len(),
            i <= a@.len(),
            forall|j: int| 0 <= j < i ==> a@[j] == b@[j],
        decreases a@.len() - i,
    {
        if a[i] != b[i] {
            return false;
        }
        i = i + 1;
    }
    proof {
        assert(a@ =~= b@);
    }
    true
}

fn is_json(h: &[u8]) -> (r: bool)
    ensures
        r == (h@ == json_media_type()),
{
    let lit = "application/json";
    proof {
        reveal_strlit("application/json");
        vstd::string::is_ascii_spec_bytes(lit);
    }
    let b = lit.as_bytes();
    proof {
        assert(b@ =~= json_media_type());
    }
    bytes_equal(h, b)
}

fn is_ejson(h: &[u8]) -> (r: bool)
    ensures
        r == (h@ == ejson_media_type()),
{
    let lit = "application/ejson";
    proof {
        reveal_strlit("application/ejson");
        vstd::string::is_ascii_spec_bytes(lit);
    }
    let b = lit.as_bytes();
    proof {
        assert(b@ =~= ejson_media_type());
    }
    bytes_equal(h, b)
}

/// The content guard: decides from the raw bytes of the request's content-type
/// header (None when the header is absent) whether the request goes on. A
/// value that is not visible ASCII can equal neither media type, so it is
/// rejected like any other value.
pub fn ejson_mw(content_type: Option<&[u8]>) -> (r: Result<Negotiation, ApiError>)
    ensures
        r == negotiation_of(
            match content_type {
                Some(b) => Some(b@),
                None => None,
            },
        ),
{
    match content_type {
        Some(b) => if is_json(b) {
            Ok(Negotiation::PassThrough)
        } else if is_ejson(b) {
            Ok(Negotiation::NormalizeToJson)
        } else {
            Err(ApiError::BadRequest)
        },
        None => Err(ApiError::BadRequest),
    }
}

/// An extended-JSON request is let through, relabelled as canonical JSON, and
/// the relabelled request would itself pass the guard unchanged.
pub proof fn lemma_ejson_is_normalized()
    ensures
        negotiation_of(Some(ejson_media_type())) == Ok::<Negotiation, ApiError>(
            Negotiation::NormalizeToJson,
        ),
        forwarded_type(ejson_media_type(), Negotiation::NormalizeToJson) == json_media_type(),
        negotiation_of(Some(json_media_type())) == Ok::<Negotiation, ApiError>(
            Negotiation::PassThrough,
        ),
{
    reveal_strlit("application/json");
    reveal_strlit("application/ejson");
    assert(json_media_type().len() == 16);
    assert(ejson_media_type().len() == 17);
}

} // verus!
