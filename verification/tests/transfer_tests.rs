use dump_core::errors::TransferError;
use dump_core::transfer::{status_is_success, Transfer, TransferPhase};

#[test]
fn status_success_range() {
    assert!(status_is_success(200));
    assert!(status_is_success(204));
    assert!(status_is_success(299));
    assert!(!status_is_success(199));
    assert!(!status_is_success(300));
    assert!(!status_is_success(404));
    assert!(!status_is_success(500));
}

#[test]
fn successful_attempt_walks_every_phase() {
    let mut t = Transfer::start();
    assert_eq!(t.current_phase(), TransferPhase::AwaitingResponse);
    t.on_response(200);
    assert_eq!(t.current_phase(), TransferPhase::Streaming);
    t.on_chunk_written();
    t.on_chunk_written();
    assert_eq!(t.current_phase(), TransferPhase::Streaming);
    t.on_body_end();
    assert_eq!(t.current_phase(), TransferPhase::Finalizing);
    t.on_finalize(true);
    assert_eq!(t.current_phase(), TransferPhase::Syncing);
    t.on_sync(true);
    assert_eq!(t.current_phase(), TransferPhase::Complete);
    assert_eq!(t.failure(), None);
}

#[test]
fn non_success_status_fails_with_the_code() {
    let mut t = Transfer::start();
    t.on_response(404);
    assert_eq!(t.current_phase(), TransferPhase::Failed);
    assert_eq!(t.failure(), Some(TransferError::RemoteStatus { code: 404 }));

    let mut t = Transfer::start();
    t.on_response(500);
    assert_eq!(t.current_phase(), TransferPhase::Failed);
    assert_eq!(t.failure(), Some(TransferError::RemoteStatus { code: 500 }));
}

#[test]
fn transport_failure_before_response() {
    let mut t = Transfer::start();
    t.on_transport_error();
    assert_eq!(t.current_phase(), TransferPhase::Failed);
    assert_eq!(t.failure(), Some(TransferError::Transport));
}

#[test]
fn stream_failure_is_an_io_error() {
    let mut t = Transfer::start();
    t.on_response(200);
    t.on_chunk_written();
    t.on_stream_error();
    assert_eq!(t.current_phase(), TransferPhase::Failed);
    assert_eq!(t.failure(), Some(TransferError::Io));
}

#[test]
fn finalize_failure_is_reported_distinctly() {
    let mut t = Transfer::start();
    t.on_response(200);
    t.on_body_end();
    t.on_finalize(false);
    assert_eq!(t.current_phase(), TransferPhase::Failed);
    assert_eq!(t.failure(), Some(TransferError::CompressionFinalize));
}

#[test]
fn sync_failure_is_an_io_error() {
    let mut t = Transfer::start();
    t.on_response(200);
    t.on_body_end();
    t.on_finalize(true);
    t.on_sync(false);
    assert_eq!(t.current_phase(), TransferPhase::Failed);
    assert_eq!(t.failure(), Some(TransferError::Io));
}
