//! The display identity (EDID) of an output, read for diagnostics only.
use vstd::prelude::*;

verus! {

/// Length of a base EDID block.
pub const EDID_BLOCK_LEN: usize = 128;

/// The fixed eight bytes every EDID block starts with.
pub open spec fn edid_header() -> Seq<u8> {
    seq![0x00u8, 0xFFu8, 0xFFu8, 0xFFu8, 0xFFu8, 0xFFu8, 0xFFu8, 0x00u8]
}

/// A base EDID block: long enough, and starting with the fixed header.
pub open spec fn is_edid_block(data: Seq<u8>) -> bool {
    data.len() >= EDID_BLOCK_LEN && data.subrange(0, 8) == edid_header()
}

#[verifier::external_type_specification]
#[verifier::external_body]
pub struct ExEdid(edid::EDID);

/// Relies on edid::parse: it first matches the fixed eight-byte header, then
/// reads fixed-size fields (a header, display parameters, chromaticity,
/// timings and four 18-byte descriptors) that take 128 bytes in all and accept
/// any byte values; so it succeeds exactly on input of a base block's length
/// that starts with the header.
#[verifier::external_body]
fn parse_edid(data: &[u8]) -> (r: Option<edid::EDID>)
    ensures
        r is Some <==> is_edid_block(data@),
{
    match edid::parse(data) {
        nom::IResult::Done(_, value) => Some(value),
        _ => None,
    }
}

/// Why an output's identity could not be read.
#[derive(Clone, Copy, Debug, PartialEq, Eq, Structural)]
pub enum IdentityError {
    /// The output publishes no identity data.
    Missing,
    /// The identity data is not a base EDID block.
    Malformed,
}

/// Parses the identity data an output publishes, if it publishes any.
pub fn get_edid(raw: Option<Vec<u8>>) -> (r: Result<edid::EDID, IdentityError>)
    ensures
        raw is None ==> r matches Err(IdentityError::Missing),
        raw is Some ==> (r is Ok <==> is_edid_block(raw->0@)),
        raw is Some && !is_edid_block(raw->0@) ==> r matches Err(IdentityError::Malformed),
{
    match raw {
        None => Err(IdentityError::Missing),
        Some(bytes) => match parse_edid(bytes.as_slice()) {
            Some(value) => Ok(value),
            None => Err(IdentityError::Malformed),
        },
    }
}

} // verus!
