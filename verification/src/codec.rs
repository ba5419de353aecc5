//! The block codec behind the pipeline: the XZ/LZMA stream encoder and
//! decoder of the `xz2` crate, reached only through the trusted items in
//! this module. The encoder always writes into an in-memory buffer; the
//! caller decides where the finished stream goes.

use crate::error::TarballError;
use vstd::prelude::*;

verus! {

/// An XZ encoder writing into an in-memory buffer. The field is opaque;
/// everything known about a sink is phrased over [`enc_fed`] and
/// [`enc_level`].
#[verifier::external_body]
pub struct XzSink {
    inner: xz2::write::XzEncoder<Vec<u8>>,
}

/// The bytes fed to an encoder so far.
pub uninterp spec fn enc_fed(enc: XzSink) -> Seq<u8>;

/// The preset level an encoder was created with.
pub uninterp spec fn enc_level(enc: XzSink) -> u32;

/// The compressed stream the codec produces for the given input at the
/// given preset level; it depends on those two alone.
pub uninterp spec fn xz_bytes(data: Seq<u8>, level: u32) -> Seq<u8>;

/// What decoding a byte stream yields: the content of the stream when it
/// is one complete valid compressed stream, nothing otherwise.
pub uninterp spec fn xz_plain(data: Seq<u8>) -> Option<Seq<u8>>;

/// Relies on `xz2::write::XzEncoder::new`, which panics on a preset
/// outside 0..=9 and otherwise returns an encoder that has seen no input.
#[verifier::external_body]
pub(crate) fn xz_encoder_new(level: u32) -> (enc: XzSink)
    requires
        level <= 9,
    ensures
        enc_fed(enc) == Seq::<u8>::empty(),
        enc_level(enc) == level,
{
    XzSink { inner: xz2::write::XzEncoder::new(Vec::new(), level) }
}

/// Relies on `std::io::Write::write_all` on the encoder: into an
/// in-memory buffer the write path cannot return an error, and the
/// whole buffer is fed to the codec.
#[verifier::external_body]
pub(crate) fn xz_write(enc: &mut XzSink, buf: &[u8]) -> (r: Result<(), TarballError>)
    ensures
        r is Ok,
        r is Ok ==> enc_fed(*final(enc)) == enc_fed(*old(enc)) + buf@ && enc_level(*final(enc))
            == enc_level(*old(enc)),
{
    match std::io::Write::write_all(&mut enc.inner, buf) {
        Ok(()) => Ok(()),
        Err(_) => Err(TarballError::CompressionFailure),
    }
}

/// Relies on `xz2::write::XzEncoder::finish`: flushing into an
/// in-memory buffer cannot fail short of memory exhaustion, and the
/// complete compressed stream comes back, which decodes to exactly the
/// bytes that were fed in.
#[verifier::external_body]
pub(crate) fn xz_finish(enc: XzSink) -> (r: Result<Vec<u8>, TarballError>)
    ensures
        r is Ok,
        r is Ok ==> r->Ok_0@ == xz_bytes(enc_fed(enc), enc_level(enc)) && xz_plain(r->Ok_0@)
            == Some(enc_fed(enc)),
{
    match enc.inner.finish() {
        Ok(v) => Ok(v),
        Err(_) => Err(TarballError::CompressionFailure),
    }
}

/// Relies on `xz2::read::XzDecoder` driven by `read_to_end`: a complete
/// valid compressed stream yields its full content, anything else fails.
#[verifier::external_body]
pub(crate) fn xz_decode(data: &Vec<u8>) -> (r: Result<Vec<u8>, TarballError>)
    ensures
        r is Ok ==> xz_plain(data@) == Some(r->Ok_0@),
        xz_plain(data@) is Some ==> r is Ok,
        r matches Err(e) ==> e == TarballError::ArchiveReadFailure && xz_plain(data@) is None,
{
    let mut decoder = xz2::read::XzDecoder::new(data.as_slice());
    let mut out: Vec<u8> = Vec::new();
    match std::io::Read::read_to_end(&mut decoder, &mut out) {
        Ok(_) => Ok(out),
        Err(_) => Err(TarballError::ArchiveReadFailure),
    }
}

} // verus!
