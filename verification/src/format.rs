//! Content negotiation: the closed set of response formats, the mapping
//! from an accept header value to a format, and the choice of response
//! encoding on the success path.

use vstd::prelude::*;

verus! {

/// The closed enumeration of negotiated response formats. There is no
/// default: a header value outside this set is an error, never a fallback.
#[derive(Debug, Clone, Copy, PartialEq, Eq, Structural)]
pub enum Format {
    /// Structured text (JSON).
    Json,
    /// Self-describing binary map encoding (CBOR).
    Cbor,
    /// Compact packed binary encoding.
    Pack,
    /// Raw octet stream: the result is discarded and the body is empty.
    OctetStream,
    /// The engine's native encoding, preserving full internal fidelity.
    Native,
}

/// How the engine's result is to be serialized once an import succeeded.
/// `Simplified*` encodings apply the engine's lossy display transform first;
/// `Full` preserves the native value; `Empty` discards it.
#[derive(Debug, Clone, Copy, PartialEq, Eq, Structural)]
pub enum Encoding {
    SimplifiedJson,
    SimplifiedCbor,
    SimplifiedPack,
    Empty,
    Full,
}

/// The accept header value that selects each format, as a character
/// sequence.
pub open spec fn spec_media_type(f: Format) -> Seq<char> {
    match f {
        Format::Json => "application/json"@,
        Format::Cbor => "application/cbor"@,
        Format::Pack => "application/pack"@,
        Format::OctetStream => "application/octet-stream"@,
        Format::Native => "application/surrealdb"@,
    }
}

/// The format selected by an accept header value: the unique format whose
/// media type is the given value, and nothing for any other value.
pub open spec fn spec_parse_accept(h: Seq<char>) -> Option<Format> {
    if h == spec_media_type(Format::Json) {
        Some(Format::Json)
    } else if h == spec_media_type(Format::Cbor) {
        Some(Format::Cbor)
    } else if h == spec_media_type(Format::Pack) {
        Some(Format::Pack)
    } else if h == spec_media_type(Format::OctetStream) {
        Some(Format::OctetStream)
    } else if h == spec_media_type(Format::Native) {
        Some(Format::Native)
    } else {
        None
    }
}

/// Maps an accept header value to a response format. Exactly the five
/// media types of the closed set are recognized; anything else is `None`.
pub fn parse_accept(header: &String) -> (r: Option<Format>)
    ensures
        r == spec_parse_accept(header@),
{
    if header.eq(&"application/json".to_owned()) {
        Some(Format::Json)
    } else if header.eq(&"application/cbor".to_owned()) {
        Some(Format::Cbor)
    } else if header.eq(&"application/pack".to_owned()) {
        Some(Format::Pack)
    } else if header.eq(&"application/octet-stream".to_owned()) {
        Some(Format::OctetStream)
    } else if header.eq(&"application/surrealdb".to_owned()) {
        Some(Format::Native)
    } else {
        None
    }
}

/// The media type sent back with a successful response in the given format.
pub fn media_type(f: Format) -> (r: String)
    ensures
        r@ == spec_media_type(f),
{
    match f {
        Format::Json => "application/json".to_owned(),
        Format::Cbor => "application/cbor".to_owned(),
        Format::Pack => "application/pack".to_owned(),
        Format::OctetStream => "application/octet-stream".to_owned(),
        Format::Native => "application/surrealdb".to_owned(),
    }
}

/// The response encoding owed to each negotiated format, and the error owed
/// when no format was negotiated.
pub open spec fn spec_negotiate(accept: Option<Format>) -> Result<Encoding, crate::ImportError> {
    match accept {
        Some(Format::Json) => Ok(Encoding::SimplifiedJson),
        Some(Format::Cbor) => Ok(Encoding::SimplifiedCbor),
        Some(Format::Pack) => Ok(Encoding::SimplifiedPack),
        Some(Format::OctetStream) => Ok(Encoding::Empty),
        Some(Format::Native) => Ok(Encoding::Full),
        None => Err(crate::ImportError::UnsupportedFormat),
    }
}

/// Chooses the response encoding from the negotiated format: a closed
/// tagged dispatch with no default branch. Fails with `UnsupportedFormat`
/// exactly when no format was negotiated.
pub fn negotiate(accept: Option<Format>) -> (r: Result<Encoding, crate::ImportError>)
    ensures
        r == spec_negotiate(accept),
{
    match accept {
        Some(Format::Json) => Ok(Encoding::SimplifiedJson),
        Some(Format::Cbor) => Ok(Encoding::SimplifiedCbor),
        Some(Format::Pack) => Ok(Encoding::SimplifiedPack),
        Some(Format::OctetStream) => Ok(Encoding::Empty),
        Some(Format::Native) => Ok(Encoding::Full),
        None => Err(crate::ImportError::UnsupportedFormat),
    }
}

/// An accept header value outside the enumerated set never reaches an
/// encoding: negotiation of what it parses to is exactly the
/// `UnsupportedFormat` error.
pub proof fn lemma_unrecognized_accept_is_unsupported(h: Seq<char>)
    requires
        spec_parse_accept(h) is None,
    ensures
        spec_negotiate(spec_parse_accept(h)) == Err::<Encoding, crate::ImportError>(
            crate::ImportError::UnsupportedFormat,
        ),
{
}

} // verus!
