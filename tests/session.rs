use nix::errno::Errno;
use nix::sys::socket::{recv, socketpair, AddressFamily, MsgFlags, SockFlag, SockType};
use nix::unistd::{close, read};
use rexpect::{
    after_write, close_outcome, hangup_outcome, status_outcome, Error, ProcessStatus, PtyProcess,
    PtySession, SignalFailure,
};

/// A process number above the kernel's largest, so no process has it.
const NO_SUCH_PID: i32 = 1 << 30;

/// A session whose terminal is one end of a socket pair; the other end,
/// returned beside it, plays the child.
fn session_with_peer() -> (PtySession, i32) {
    let (ours, theirs) =
        socketpair(AddressFamily::Unix, SockType::Stream, None, SockFlag::empty()).unwrap();
    let s = PtySession::new(PtyProcess { child_pid: NO_SUCH_PID, pty_master: ours });
    (s, theirs)
}

fn read_peer(fd: i32) -> Vec<u8> {
    let mut buf = vec![0u8; 256];
    let n = read(fd, &mut buf).unwrap();
    buf.truncate(n);
    buf
}

fn peer_has_nothing(fd: i32) -> bool {
    let mut buf = vec![0u8; 16];
    recv(fd, &mut buf, MsgFlags::MSG_DONTWAIT) == Err(Errno::EAGAIN)
}

#[test]
fn sent_line_reaches_terminal() {
    let (mut s, peer) = session_with_peer();
    s.send_line("hans\n").unwrap();
    assert_eq!(read_peer(peer), b"hans\n".to_vec());
    s.exit().unwrap();
    close(peer).unwrap();
}

#[test]
fn no_terminator_is_added() {
    let (mut s, peer) = session_with_peer();
    s.send_line("ha").unwrap();
    assert!(peer_has_nothing(peer));
    s.send_line("ns\nwu").unwrap();
    assert_eq!(read_peer(peer), b"hans\n".to_vec());
    assert!(peer_has_nothing(peer));
    s.flush().unwrap();
    assert_eq!(read_peer(peer), b"wu".to_vec());
    s.exit().unwrap();
    close(peer).unwrap();
}

#[test]
fn several_lines_go_out_together() {
    let (mut s, peer) = session_with_peer();
    s.send_line("a\nb\nc").unwrap();
    assert_eq!(read_peer(peer), b"a\nb\n".to_vec());
    s.send_line("\n").unwrap();
    assert_eq!(read_peer(peer), b"c\n".to_vec());
    s.exit().unwrap();
    close(peer).unwrap();
}

#[test]
fn empty_line_sends_nothing() {
    let (mut s, peer) = session_with_peer();
    s.send_line("").unwrap();
    assert!(peer_has_nothing(peer));
    s.flush().unwrap();
    assert!(peer_has_nothing(peer));
    s.exit().unwrap();
    close(peer).unwrap();
}

#[test]
fn echoed_line_is_read_back() {
    let (mut s, peer) = session_with_peer();
    s.send_line("hans\n").unwrap();
    let got = read_peer(peer);
    nix::unistd::write(peer, &got).unwrap();
    assert_eq!(s.take_line(), None);
    let n = s.read_available().unwrap();
    assert_eq!(n, 5);
    assert_eq!(s.take_line(), Some(b"hans\n".to_vec()));
    assert_eq!(s.take_line(), None);
    s.exit().unwrap();
    close(peer).unwrap();
}

#[test]
fn lines_are_taken_one_at_a_time() {
    let (mut s, peer) = session_with_peer();
    nix::unistd::write(peer, b"one\r\ntwo\nthr").unwrap();
    assert_eq!(s.read_available().unwrap(), 12);
    assert_eq!(s.take_line(), Some(b"one\r\n".to_vec()));
    assert_eq!(s.take_line(), Some(b"two\n".to_vec()));
    assert_eq!(s.take_line(), None);
    nix::unistd::write(peer, b"ee\n").unwrap();
    assert_eq!(s.read_available().unwrap(), 3);
    assert_eq!(s.take_line(), Some(b"three\n".to_vec()));
    s.exit().unwrap();
    close(peer).unwrap();
}

#[test]
fn read_at_end_of_stream_gives_zero() {
    let (mut s, peer) = session_with_peer();
    close(peer).unwrap();
    assert_eq!(s.read_available(), Ok(0));
    assert_eq!(s.take_line(), None);
    s.exit().unwrap();
}

#[test]
fn read_is_limited_to_one_chunk() {
    let (mut s, peer) = session_with_peer();
    let big = vec![b'x'; 3000];
    let mut off = 0;
    while off < big.len() {
        off += nix::unistd::write(peer, &big[off..]).unwrap();
    }
    let n = s.read_available().unwrap();
    assert!(n > 0 && n <= 1024);
    assert_eq!(s.take_line(), None);
    s.exit().unwrap();
    close(peer).unwrap();
}

#[test]
fn exit_closes_the_terminal() {
    let (mut s, peer) = session_with_peer();
    assert!(s.is_open());
    s.exit().unwrap();
    assert!(!s.is_open());
    assert_eq!(read_peer(peer), Vec::<u8>::new());
    close(peer).unwrap();
}

#[test]
fn io_after_exit_fails_cleanly() {
    let (mut s, peer) = session_with_peer();
    s.exit().unwrap();
    assert_eq!(s.send_line("hans\n"), Err(Error::Closed));
    assert_eq!(s.flush(), Err(Error::Closed));
    assert_eq!(s.read_available(), Err(Error::Closed));
    assert_eq!(s.take_line(), None);
    close(peer).unwrap();
}

#[test]
fn exit_twice_is_refused() {
    let (mut s, peer) = session_with_peer();
    assert_eq!(s.exit(), Ok(()));
    assert_eq!(s.exit(), Err(Error::Closed));
    assert!(!s.is_open());
    close(peer).unwrap();
}

#[test]
fn write_to_departed_peer_fails() {
    let (mut s, peer) = session_with_peer();
    close(peer).unwrap();
    let r = s.send_line("hans\n");
    assert_eq!(r, Err(Error::Write(Errno::EPIPE as i32)));
    assert!(s.is_open());
    s.exit().unwrap();
}

#[test]
fn bad_descriptor_fails_reads_and_writes() {
    let mut s = PtySession::new(PtyProcess { child_pid: NO_SUCH_PID, pty_master: 1_000_000 });
    assert_eq!(s.read_available(), Err(Error::Read(Errno::EBADF as i32)));
    assert_eq!(s.send_line("x\n"), Err(Error::Write(Errno::EBADF as i32)));
    assert_eq!(s.exit(), Err(Error::Close(Errno::EBADF as i32)));
    assert!(!s.is_open());
}

#[test]
fn status_of_a_process_that_is_not_our_child_fails() {
    let (mut s, peer) = session_with_peer();
    assert_eq!(s.status(), Err(Error::Status(Errno::ECHILD as i32)));
    s.exit().unwrap();
    assert_eq!(s.status(), Err(Error::Status(Errno::ECHILD as i32)));
    close(peer).unwrap();
}

#[test]
fn process_is_kept() {
    let (mut s, peer) = session_with_peer();
    assert_eq!(s.process().child_pid, NO_SUCH_PID);
    assert!(s.process().pty_master >= 0);
    s.exit().unwrap();
    close(peer).unwrap();
}

#[test]
fn error_context_and_code() {
    assert_eq!(Error::Closed.context(), "session is closed");
    assert_eq!(Error::Write(32).context(), "cannot write line to process");
    assert_eq!(Error::WriteZero.context(), "cannot write line to process");
    assert_eq!(Error::Read(9).context(), "cannot read from process");
    assert_eq!(Error::Status(10).context(), "cannot read status");
    assert_eq!(Error::Signal(1).context(), "failed to exit process");
    assert_eq!(Error::Close(9).context(), "failed to exit process");
    assert_eq!(Error::Closed.os_code(), None);
    assert_eq!(Error::WriteZero.os_code(), None);
    assert_eq!(Error::Write(32).os_code(), Some(32));
    assert_eq!(Error::Signal(1).os_code(), Some(1));
    assert_eq!(Error::Close(9).os_code(), Some(9));
}

#[test]
fn terminal_statuses() {
    assert!(ProcessStatus::Exited(7, 0).is_terminal());
    assert!(ProcessStatus::Signaled(7, 1, false).is_terminal());
    assert!(!ProcessStatus::StillAlive.is_terminal());
    assert!(!ProcessStatus::Stopped(7, 19).is_terminal());
    assert!(!ProcessStatus::Continued(7).is_terminal());
}

#[test]
fn unterminated_line_is_accepted_and_held() {
    let (mut s, peer) = session_with_peer();
    assert_eq!(s.send_line("hans"), Ok(()));
    assert!(peer_has_nothing(peer));
    s.exit().unwrap();
    close(peer).unwrap();
}

#[test]
fn flush_with_nothing_pending_succeeds() {
    let mut s = PtySession::new(PtyProcess { child_pid: NO_SUCH_PID, pty_master: 1_000_000 });
    assert_eq!(s.flush(), Ok(()));
    assert_eq!(s.send_line("no newline"), Ok(()));
    assert_eq!(s.flush(), Err(Error::Write(Errno::EBADF as i32)));
}

#[test]
fn write_steps() {
    assert_eq!(after_write(0, 5, Ok(3)), Ok(3));
    assert_eq!(after_write(3, 5, Ok(2)), Ok(5));
    assert_eq!(after_write(3, 5, Ok(0)), Err(Error::WriteZero));
    assert_eq!(after_write(3, 5, Err(5)), Err(Error::Write(5)));
}

#[test]
fn status_outcomes() {
    assert_eq!(status_outcome(Ok(ProcessStatus::StillAlive)), Ok(ProcessStatus::StillAlive));
    assert_eq!(status_outcome(Ok(ProcessStatus::Exited(42, 3))), Ok(ProcessStatus::Exited(42, 3)));
    assert_eq!(status_outcome(Err(10)), Err(Error::Status(10)));
}

#[test]
fn hangup_and_close_outcomes() {
    assert_eq!(hangup_outcome(Ok(())), None);
    assert_eq!(hangup_outcome(Err(SignalFailure::NoSuchProcess)), None);
    assert_eq!(hangup_outcome(Err(SignalFailure::Os(1))), Some(Error::Signal(1)));
    assert_eq!(close_outcome(Ok(())), Ok(()));
    assert_eq!(close_outcome(Err(9)), Err(Error::Close(9)));
}

#[test]
fn received_bytes_join_the_input() {
    let (mut s, peer) = session_with_peer();
    assert_eq!(s.receive(Ok(b"hal".to_vec())), Ok(3));
    assert_eq!(s.take_line(), None);
    assert_eq!(s.receive(Ok(b"lo\r\n$ ".to_vec())), Ok(6));
    assert_eq!(s.receive(Err(5)), Err(Error::Read(5)));
    assert_eq!(s.take_line(), Some(b"hallo\r\n".to_vec()));
    assert_eq!(s.take_all(), b"$ ".to_vec());
    assert_eq!(s.take_all(), Vec::<u8>::new());
    s.exit().unwrap();
    close(peer).unwrap();
}

#[test]
fn prompt_without_newline_is_read() {
    let (mut s, peer) = session_with_peer();
    nix::unistd::write(peer, b"password: ").unwrap();
    assert_eq!(s.read_available(), Ok(10));
    assert_eq!(s.take_line(), None);
    assert_eq!(s.take_all(), b"password: ".to_vec());
    s.exit().unwrap();
    close(peer).unwrap();
}

#[test]
fn dropping_an_open_session_closes_the_terminal() {
    let (s, peer) = session_with_peer();
    drop(s);
    assert_eq!(read_peer(peer), Vec::<u8>::new());
    close(peer).unwrap();
}
