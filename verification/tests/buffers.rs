use maviola::error::RecvTimeoutError;
use maviola::mpmc::{recv_timeout_result, RecvOutcome};
use maviola::mpsc_rw::MpscReadBuffer;
use maviola::transport::{
    file_reader_check, file_writer_check, sock_client_check, sock_server_check, PathError,
};

#[test]
fn read_buffer_serves_chunks_in_order() {
    let mut buf = MpscReadBuffer::new();
    assert_eq!(buf.read_pending(4), None);
    let out = buf.read_received(vec![1, 2, 3, 4, 5, 6], 4);
    assert_eq!(out, vec![1, 2, 3, 4]);
    assert_eq!(buf.len(), 2);
    assert_eq!(buf.read_pending(4), None);
    let out = buf.read_received(vec![7, 8, 9], 4);
    assert_eq!(out, vec![5, 6, 7, 8]);
    assert_eq!(buf.read_pending(1), Some(vec![9]));
    assert_eq!(buf.len(), 0);
}

#[test]
fn read_buffer_short_chunk_is_read_whole() {
    let mut buf = MpscReadBuffer::new();
    let out = buf.read_received(vec![1, 2], 10);
    assert_eq!(out, vec![1, 2]);
    assert_eq!(buf.len(), 0);
}

#[test]
fn read_buffer_empty_read() {
    let mut buf = MpscReadBuffer::new();
    assert_eq!(buf.read_pending(0), Some(vec![]));
}

#[test]
fn recv_timeout_outcomes() {
    assert_eq!(recv_timeout_result(RecvOutcome::Received(5u8)), Ok(5));
    assert_eq!(
        recv_timeout_result::<u8>(RecvOutcome::Lagged(2)),
        Err(RecvTimeoutError::Lagged(2))
    );
    assert_eq!(
        recv_timeout_result::<u8>(RecvOutcome::Closed),
        Err(RecvTimeoutError::Disconnected)
    );
    assert_eq!(
        recv_timeout_result::<u8>(RecvOutcome::TimedOut),
        Err(RecvTimeoutError::Timeout)
    );
}

#[test]
fn path_rules() {
    assert_eq!(file_reader_check(false, false), Err(PathError::NotFound));
    assert_eq!(file_reader_check(true, false), Err(PathError::NotAFile));
    assert_eq!(file_reader_check(true, true), Ok(()));
    assert_eq!(file_writer_check(true), Err(PathError::AlreadyExists));
    assert_eq!(file_writer_check(false), Ok(()));
    assert_eq!(sock_client_check(false), Err(PathError::NotFound));
    assert_eq!(sock_client_check(true), Ok(()));
    assert_eq!(sock_server_check(true), Err(PathError::AddrInUse));
    assert_eq!(sock_server_check(false), Ok(()));
}
