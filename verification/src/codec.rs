//! The gzip codec: one compressed member per call of the encoder, and a
//! decoder that reads every member of its input.

use std::io::{Read, Write};
use vstd::prelude::*;

verus! {

/// The gzip member that `flate2::write::GzEncoder`, at the default level,
/// makes of `data`.
pub uninterp spec fn gz_encoded(data: Seq<u8>) -> Seq<u8>;

/// What `flate2::read::MultiGzDecoder` reads out of `data`, or `None` where it
/// reports an error.
pub uninterp spec fn gz_decoded(data: Seq<u8>) -> Option<Seq<u8>>;

/// The members of `parts`, each encoded by itself, one after another.
pub open spec fn gz_members(parts: Seq<Seq<u8>>) -> Seq<u8> {
    parts.map_values(|part: Seq<u8>| gz_encoded(part)).flatten()
}

/// `flate2::write::GzEncoder::new` over an empty buffer, `write_all` of the
/// whole input, then `finish`: the result is the member that `gz_encoded`
/// names. Writing into a `Vec` cannot fail.
#[verifier::external_body]
pub(crate) fn gz_encode(data: &[u8]) -> (r: Result<Vec<u8>, std::io::Error>)
    ensures
        r is Ok,
        r matches Ok(bytes) ==> bytes@ == gz_encoded(data@),
{
    let mut encoder = flate2::write::GzEncoder::new(Vec::new(), flate2::Compression::default());
    match encoder.write_all(data) {
        Ok(()) => encoder.finish(),
        Err(e) => Err(e),
    }
}

/// `flate2::read::MultiGzDecoder::new` over the input, then `read_to_end`:
/// the result is what `gz_decoded` names. The decoder reads all members of
/// its input into one stream, so where the input is a run of members that the
/// encoder made, what comes out is their plain data, joined.
#[verifier::external_body]
pub(crate) fn gz_decode(data: &[u8]) -> (r: Result<Vec<u8>, std::io::Error>)
    ensures
        r matches Ok(bytes) ==> gz_decoded(data@) == Some(bytes@),
        r is Err ==> gz_decoded(data@) is None,
        forall|parts: Seq<Seq<u8>>|
            parts.len() > 0 && data@ == #[trigger] gz_members(parts) ==> r is Ok && r->Ok_0@
                == parts.flatten(),
{
    let mut plain = Vec::new();
    match flate2::read::MultiGzDecoder::new(data).read_to_end(&mut plain) {
        Ok(_) => Ok(plain),
        Err(e) => Err(e),
    }
}

} // verus!
