use tokio::io::AsyncWriteExt;
use vstd::pervasive::unreached;
use vstd::prelude::*;

verus! {

/// The compressed frame that the zstd encoder produces from the given bytes
/// at the given quality level.
pub uninterp spec fn zstd_frame_of(data: Seq<u8>, level: int) -> Seq<u8>;

/// Relies on async_compression's ZstdEncoder (tokio, zstd features): the
/// frame it writes is a function of the input bytes and the quality level
/// alone, levels outside the algorithm's range are clamped, and the sink
/// here is an in-memory buffer, so encoding always yields that frame.
#[verifier::external_body]
fn compress_bytes(data: &Vec<u8>, level: i32) -> (r: Vec<u8>)
    ensures
        r@ == zstd_frame_of(data@, level as int),
{
    let mut enc = async_compression::tokio::write::ZstdEncoder::with_quality(
        Vec::new(),
        async_compression::Level::Precise(level),
    );
    futures::executor::block_on(enc.write_all(data.as_slice()))
        .expect("zstd encoding into memory");
    futures::executor::block_on(enc.shutdown()).expect("zstd finalizing into memory");
    enc.into_inner()
}

/// Relies on async_compression's ZstdDecoder: zstd is lossless, so decoding
/// a frame the encoder produced from some bytes yields exactly those bytes,
/// and decoding fails exactly on input that is no such frame.
#[verifier::external_body]
fn decompress_bytes(data: &Vec<u8>) -> (r: Option<Vec<u8>>)
    ensures
        r is None ==> forall|orig: Seq<u8>, level: int| data@ != zstd_frame_of(orig, level),
        r matches Some(v) ==> forall|orig: Seq<u8>, level: int|
            data@ == zstd_frame_of(orig, level) ==> v@ == orig,
{
    let mut dec = async_compression::tokio::write::ZstdDecoder::new(Vec::new());
    if futures::executor::block_on(dec.write_all(data.as_slice())).is_err() {
        return None;
    }
    if futures::executor::block_on(dec.shutdown()).is_err() {
        return None;
    }
    Some(dec.into_inner())
}

/// Compresses one payload into a self-contained artifact frame,
/// independently decodable without external metadata. Encoding into memory
/// always succeeds and returns exactly the frame for these bytes and level.
pub fn encode_artifact(data: &Vec<u8>, level: i32) -> (r: Vec<u8>)
    ensures
        r@ == zstd_frame_of(data@, level as int),
{
    compress_bytes(data, level)
}

/// Decodes an artifact frame back into the bytes it was encoded from: for a
/// frame the encoder produced, decoding succeeds and yields exactly the
/// original payload, whatever level the frame was encoded at; anything that
/// is no such frame is rejected.
pub fn decode_artifact(frame: &Vec<u8>) -> (r: Option<Vec<u8>>)
    ensures
        r is None ==> forall|orig: Seq<u8>, level: int| frame@ != zstd_frame_of(orig, level),
        r matches Some(v) ==> forall|orig: Seq<u8>, level: int|
            frame@ == zstd_frame_of(orig, level) ==> v@ == orig,
{
    decompress_bytes(frame)
}

/// Round trip: decoding a produced artifact yields byte for byte the payload
/// it was encoded from, at every level.
pub fn encode_decode_round_trip(data: &Vec<u8>, level: i32) -> (r: Vec<u8>)
    ensures
        r@ == data@,
{
    let frame = encode_artifact(data, level);
    match decode_artifact(&frame) {
        Some(v) => v,
        None => unreached(),
    }
}

} // verus!
