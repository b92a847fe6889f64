use crate::errors::TransferError;
use vstd::prelude::*;

verus! {

/// The success range of response status codes.
pub open spec fn spec_status_is_success(code: u16) -> bool {
    200 <= code < 300
}

/// Decides whether a response status admits reading the body.
pub fn status_is_success(code: u16) -> (r: bool)
    ensures
        r == spec_status_is_success(code),
{
    200 <= code && code < 300
}

/// Where a single transfer attempt stands.
#[derive(Clone, Copy, PartialEq, Eq, Structural, Debug)]
pub enum TransferPhase {
    /// The request was issued; the response status has not arrived yet.
    AwaitingResponse,
    /// The status was in the success range; body chunks are being piped
    /// through the compressor into the destination file.
    Streaming,
    /// The body ended; the compression stream is being finalized.
    Finalizing,
    /// The finalized bytes are being forced to stable storage.
    Syncing,
    /// The artifact is complete and durable.
    Complete,
    /// The attempt failed.
    Failed,
}

/// One transfer attempt as an explicit state machine.
///
/// The driver performs the network and file work and reports each step's
/// result; the machine decides the next phase and classifies failures. Its
/// transitions guarantee that `Complete` is reached only after the compression
/// stream was finalized and the file was forced to stable storage, so success
/// is never declared over a partially written artifact.
pub struct Transfer {
    phase: TransferPhase,
    error: Option<TransferError>,
    finalized: Ghost<bool>,
    synced: Ghost<bool>,
}

impl Transfer {
    /// The current phase.
    pub closed spec fn phase(&self) -> TransferPhase {
        self.phase
    }

    /// The recorded failure, present exactly in the `Failed` phase.
    pub closed spec fn error(&self) -> Option<TransferError> {
        self.error
    }

    /// Whether the compression stream has been finalized.
    pub closed spec fn finalized(&self) -> bool {
        self.finalized@
    }

    /// Whether the written bytes have been forced to stable storage.
    pub closed spec fn synced(&self) -> bool {
        self.synced@
    }

    /// Validity of the machine: a failure is recorded exactly in the `Failed`
    /// phase, and the late phases are reached only through finalize and sync.
    pub closed spec fn wf(&self) -> bool {
        &&& self.phase is Failed <==> self.error is Some
        &&& self.phase is Syncing ==> self.finalized@
        &&& self.phase is Complete ==> self.finalized@ && self.synced@
    }

    /// The attempt reached a terminal phase.
    pub open spec fn is_terminal(&self) -> bool {
        self.phase() is Complete || self.phase() is Failed
    }

    /// The attempt succeeded.
    pub open spec fn is_success(&self) -> bool {
        self.phase() is Complete
    }

    /// Begin an attempt: the request has been issued.
    pub fn start() -> (r: Transfer)
        ensures
            r.wf(),
            r.phase() is AwaitingResponse,
            r.error() is None,
            !r.finalized(),
            !r.synced(),
    {
        Transfer {
            phase: TransferPhase::AwaitingResponse,
            error: None,
            finalized: Ghost(false),
            synced: Ghost(false),
        }
    }

    /// The response status arrived. A status in the success range admits
    /// streaming the body; any other status fails the attempt at once,
    /// carrying the code, and the body is never read.
    pub fn on_response(&mut self, status: u16)
        requires
            old(self).wf(),
            old(self).phase() is AwaitingResponse,
        ensures
            final(self).wf(),
            final(self).finalized() == old(self).finalized(),
            final(self).synced() == old(self).synced(),
            spec_status_is_success(status) ==> final(self).phase() is Streaming
                && final(self).error() is None,
            !spec_status_is_success(status) ==> final(self).phase() is Failed
                && final(self).error() == Some(TransferError::RemoteStatus { code: status }),
    {
        if status_is_success(status) {
            self.phase = TransferPhase::Streaming;
        } else {
            self.phase = TransferPhase::Failed;
            self.error = Some(TransferError::RemoteStatus { code: status });
        }
    }

    /// The connection failed before a response arrived (transport, name
    /// resolution, or timeout).
    pub fn on_transport_error(&mut self)
        requires
            old(self).wf(),
            old(self).phase() is AwaitingResponse,
        ensures
            final(self).wf(),
            final(self).phase() is Failed,
            final(self).error() == Some(TransferError::Transport),
    {
        self.phase = TransferPhase::Failed;
        self.error = Some(TransferError::Transport);
    }

    /// One body chunk was compressed and written; streaming continues.
    pub fn on_chunk_written(&mut self)
        requires
            old(self).wf(),
            old(self).phase() is Streaming,
        ensures
            final(self).wf(),
            final(self).phase() is Streaming,
            final(self).error() is None,
    {
        self.phase = TransferPhase::Streaming;
    }

    /// Reading the body or writing the file failed mid-stream.
    pub fn on_stream_error(&mut self)
        requires
            old(self).wf(),
            old(self).phase() is Streaming,
        ensures
            final(self).wf(),
            final(self).phase() is Failed,
            final(self).error() == Some(TransferError::Io),
    {
        self.phase = TransferPhase::Failed;
        self.error = Some(TransferError::Io);
    }

    /// The body ended; the compression stream must now be finalized.
    pub fn on_body_end(&mut self)
        requires
            old(self).wf(),
            old(self).phase() is Streaming,
        ensures
            final(self).wf(),
            final(self).phase() is Finalizing,
            final(self).error() is None,
    {
        self.phase = TransferPhase::Finalizing;
    }

    /// The compression stream was finalized, or failed to finalize cleanly.
    pub fn on_finalize(&mut self, ok: bool)
        requires
            old(self).wf(),
            old(self).phase() is Finalizing,
        ensures
            final(self).wf(),
            ok ==> final(self).phase() is Syncing && final(self).error() is None
                && final(self).finalized(),
            !ok ==> final(self).phase() is Failed
                && final(self).error() == Some(TransferError::CompressionFinalize),
    {
        if ok {
            self.phase = TransferPhase::Syncing;
            self.finalized = Ghost(true);
        } else {
            self.phase = TransferPhase::Failed;
            self.error = Some(TransferError::CompressionFinalize);
        }
    }

    /// The durability flush completed, or failed.
    pub fn on_sync(&mut self, ok: bool)
        requires
            old(self).wf(),
            old(self).phase() is Syncing,
        ensures
            final(self).wf(),
            ok ==> final(self).phase() is Complete && final(self).error() is None
                && final(self).is_success(),
            !ok ==> final(self).phase() is Failed
                && final(self).error() == Some(TransferError::Io),
    {
        if ok {
            self.phase = TransferPhase::Complete;
            self.synced = Ghost(true);
        } else {
            self.phase = TransferPhase::Failed;
            self.error = Some(TransferError::Io);
        }
    }

    /// The current phase, for a driver that inspects the machine.
    pub fn current_phase(&self) -> (r: TransferPhase)
        ensures
            r == self.phase(),
    {
        self.phase
    }

    /// The recorded failure, if the attempt failed.
    pub fn failure(&self) -> (r: Option<TransferError>)
        ensures
            r == self.error(),
    {
        self.error
    }
}

/// A successful attempt is durable: the `Complete` phase is reached only
/// after the compression stream was finalized and the written bytes were
/// forced to stable storage, so an artifact is complete and valid exactly
/// when the attempt's outcome is success.
pub proof fn lemma_success_implies_durable(t: &Transfer)
    requires
        t.wf(),
        t.is_success(),
    ensures
        t.finalized(),
        t.synced(),
        t.error() is None,
{
}

} // verus!
