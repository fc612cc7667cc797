use maviola::broadcast;
use maviola::error::{
    Error, NodeError, RecvError, RecvTimeoutError, SendError, SyncError, TryRecvError,
};
use maviola::unique_id::UniqueId;

#[test]
fn recv_errors_become_sync_errors() {
    assert!(matches!(
        Error::from(RecvError::Disconnected),
        Error::Sync(SyncError::Disconnected)
    ));
    assert!(matches!(
        Error::from(RecvError::Lagged(5)),
        Error::Sync(SyncError::Lagged(5))
    ));
}

#[test]
fn recv_timeout_errors_become_sync_errors() {
    assert!(matches!(
        Error::from(RecvTimeoutError::Timeout),
        Error::Sync(SyncError::Timeout)
    ));
    assert!(matches!(
        Error::from(RecvTimeoutError::Disconnected),
        Error::Sync(SyncError::Disconnected)
    ));
    assert!(matches!(
        Error::from(RecvTimeoutError::Lagged(3)),
        Error::Sync(SyncError::Lagged(3))
    ));
}

#[test]
fn try_recv_errors_become_sync_errors() {
    assert!(matches!(
        Error::from(TryRecvError::Empty),
        Error::Sync(SyncError::Empty)
    ));
    assert!(matches!(
        Error::from(TryRecvError::Disconnected),
        Error::Sync(SyncError::Disconnected)
    ));
    assert!(matches!(
        Error::from(TryRecvError::Lagged(9)),
        Error::Sync(SyncError::Lagged(9))
    ));
}

#[test]
fn send_error_means_disconnected() {
    assert!(matches!(
        Error::from(SendError(42u8)),
        Error::Sync(SyncError::Disconnected)
    ));
}

#[test]
fn node_and_io_errors_are_wrapped() {
    assert!(matches!(
        Error::from(NodeError::Inactive),
        Error::Node(NodeError::Inactive)
    ));
    let io = std::io::Error::new(std::io::ErrorKind::NotFound, "missing");
    assert!(matches!(Error::from(io), Error::Io(_)));
}

#[test]
fn earlier_errors_wrap_try_recv() {
    let err = maviola::errors::Error::from(std::sync::mpsc::TryRecvError::Empty);
    assert!(matches!(
        err,
        maviola::errors::Error::Sync(maviola::errors::SyncError::TryRecv(
            std::sync::mpsc::TryRecvError::Empty
        ))
    ));
}

#[test]
fn broadcast_scope_by_recipient() {
    let a = UniqueId::new(1);
    let b = UniqueId::new(2);
    let all = broadcast::OutgoingFrame::new(());
    assert!(all.should_send_to(a));
    let except = broadcast::OutgoingFrame::scoped((), broadcast::BroadcastScope::Except(a));
    assert!(!except.should_send_to(a));
    assert!(except.should_send_to(b));
    let exact = broadcast::OutgoingFrame::scoped((), broadcast::BroadcastScope::Exact(a));
    assert!(exact.should_send_to(a));
    assert!(!exact.should_send_to(b));
    assert_eq!(*exact.frame(), ());
}
