use vstd::prelude::*;

verus! {

/// Why a single transfer attempt failed.
///
/// Every failure of one attempt is classified as exactly one of these kinds;
/// the retry controller treats all kinds as equally retryable, an explicit
/// policy choice rather than an oversight.
#[derive(Clone, Copy, PartialEq, Eq, Structural, Debug)]
pub enum TransferError {
    /// Connection, name resolution, or timeout failure before a response arrived.
    Transport,
    /// The endpoint answered with a status outside the success range.
    RemoteStatus { code: u16 },
    /// Creating, writing, or flushing the destination file failed.
    Io,
    /// The compression stream could not be finalized into a valid frame.
    CompressionFinalize,
}

} // verus!
