use vstd::prelude::*;

verus! {

/// Carries the human-readable description of a failure, so that callers can
/// surface what exactly went wrong (for decode failures this includes the
/// offending value verbatim).
#[derive(Debug)]
pub struct CrunchyrollErrorContext {
    pub message: String,
}

/// The error taxonomy of the client.
///
/// - `Request`: the transport layer failed (connection, TLS, timeout).
///   Never produced by the verified core itself; the surrounding glue maps
///   transport failures into this variant.
/// - `Decode`: a payload did not match the expected schema, or an
///   aggregation bucket carried an unrecognized discriminator.
/// - `Classification`: a url matched none of the known path patterns.
#[derive(Debug)]
pub enum CrunchyrollError {
    Request(CrunchyrollErrorContext),
    Decode(CrunchyrollErrorContext),
    Classification(CrunchyrollErrorContext),
}

} // verus!
