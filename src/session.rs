//! A session with a program that runs on the slave side of a
//! pseudo-terminal: line-buffered input to it, buffered output from it,
//! status polling and hangup.

use crate::os::{close_fd, hang_up, read_fd, wait_no_hang, write_fd, ProcessStatus, SignalFailure};
use vstd::prelude::*;
use vstd::slice::slice_subrange;
use vstd::string::StringSliceAdditionalSpecFns;

verus! {

/// The byte that ends a line.
pub const NEWLINE: u8 = 10;

/// The most bytes one refill of the input buffer asks for.
pub const READ_CHUNK: usize = 1024;

/// A child process together with the master side of the pseudo-terminal
/// that is its controlling terminal.
#[derive(Debug, Clone, Copy, PartialEq, Eq, Structural)]
pub struct PtyProcess {
    /// The child's process number.
    pub child_pid: i32,
    /// The master descriptor of the child's pseudo-terminal.
    pub pty_master: i32,
}

impl PtyProcess {
    /// A real process number (never 0 or a negative group selector) and a
    /// real descriptor.
    pub open spec fn wf(self) -> bool {
        self.child_pid > 0 && self.pty_master >= 0
    }
}

/// Why a session operation failed. Variants that carry a number carry the
/// errno code of the failed system call.
#[derive(Debug, Clone, Copy, PartialEq, Eq, Structural)]
pub enum Error {
    /// The session has been exited: its terminal is closed.
    Closed,
    /// Writing to the terminal failed.
    Write(i32),
    /// The terminal took none of the bytes offered to it.
    WriteZero,
    /// Reading from the terminal failed.
    Read(i32),
    /// Asking for the child's status failed.
    Status(i32),
    /// Sending the hangup signal failed.
    Signal(i32),
    /// Closing the terminal failed.
    Close(i32),
}

impl Error {
    /// What was being attempted when the error came.
    pub fn context(&self) -> (r: &'static str)
        ensures
            *self == Error::Closed ==> r@ == "session is closed"@,
            self is Write ==> r@ == "cannot write line to process"@,
            *self == Error::WriteZero ==> r@ == "cannot write line to process"@,
            self is Read ==> r@ == "cannot read from process"@,
            self is Status ==> r@ == "cannot read status"@,
            self is Signal ==> r@ == "failed to exit process"@,
            self is Close ==> r@ == "failed to exit process"@,
    {
        match self {
            Error::Closed => "session is closed",
            Error::Write(_) => "cannot write line to process",
            Error::WriteZero => "cannot write line to process",
            Error::Read(_) => "cannot read from process",
            Error::Status(_) => "cannot read status",
            Error::Signal(_) => "failed to exit process",
            Error::Close(_) => "failed to exit process",
        }
    }

    /// The errno code of the system call that failed, where there is one.
    pub fn os_code(&self) -> (r: Option<i32>)
        ensures
            r == match *self {
                Error::Write(c) => Some(c),
                Error::Read(c) => Some(c),
                Error::Status(c) => Some(c),
                Error::Signal(c) => Some(c),
                Error::Close(c) => Some(c),
                _ => None::<i32>,
            },
    {
        match self {
            Error::Write(c) => Some(*c),
            Error::Read(c) => Some(*c),
            Error::Status(c) => Some(*c),
            Error::Signal(c) => Some(*c),
            Error::Close(c) => Some(*c),
            _ => None,
        }
    }
}

/// The abstract state of a session.
pub struct SessionView {
    /// The child and its terminal.
    pub process: PtyProcess,
    /// Whether the terminal is still open (the session not yet exited).
    pub open: bool,
    /// Every byte the terminal has taken, in order.
    pub sent: Seq<u8>,
    /// Bytes accepted for sending that the terminal has not taken yet.
    pub pending: Seq<u8>,
    /// Bytes read from the terminal that the caller has not taken yet.
    pub input: Seq<u8>,
    /// Every process the session has sent SIGHUP to, in order.
    pub hung_up: Seq<i32>,
    /// Every descriptor the session has closed, in order.
    pub closed: Seq<i32>,
}

/// A session with a child process on a pseudo-terminal.
pub struct PtySession {
    process: PtyProcess,
    open: bool,
    pending: Vec<u8>,
    input: Vec<u8>,
    sent: Ghost<Seq<u8>>,
    hung_up: Ghost<Seq<i32>>,
    closed: Ghost<Seq<i32>>,
}

impl View for PtySession {
    type V = SessionView;

    closed spec fn view(&self) -> SessionView {
        SessionView {
            process: self.process,
            open: self.open,
            sent: self.sent@,
            pending: self.pending@,
            input: self.input@,
            hung_up: self.hung_up@,
            closed: self.closed@,
        }
    }
}

/// No byte of `s` ends a line.
pub open spec fn newline_free(s: Seq<u8>) -> bool {
    forall|i: int| 0 <= i < s.len() ==> s[i] != NEWLINE
}

/// The length of the longest prefix of `s` that ends with a newline, or 0.
pub open spec fn complete_len(s: Seq<u8>) -> nat
    decreases s.len(),
{
    if s.len() == 0 {
        0
    } else if s.last() == NEWLINE {
        s.len()
    } else {
        complete_len(s.drop_last())
    }
}

/// Writing out the first `k` pending bytes: the terminal takes a prefix of
/// them, all `k` on success, and no byte is lost or repeated.
pub open spec fn write_out_post(old: SessionView, k: nat, new: SessionView, r: Result<(), Error>) -> bool {
    &&& new.process == old.process
    &&& new.open == old.open
    &&& new.input == old.input
    &&& new.hung_up == old.hung_up
    &&& new.closed == old.closed
    &&& new.sent + new.pending == old.sent + old.pending
    &&& old.sent.len() <= new.sent.len() <= old.sent.len() + k
    &&& k == 0 ==> r is Ok && new == old
    &&& match r {
        Ok(_) => new.sent == old.sent + old.pending.take(k as int),
        Err(e) => e is Write || e == Error::WriteZero,
    }
}

/// `send_line`: on a closed session nothing happens and `Closed` comes
/// back; on an open one the line joins the pending bytes and everything
/// through the last newline is written out.
pub open spec fn send_line_post(old: SessionView, line: Seq<u8>, new: SessionView, r: Result<(), Error>) -> bool {
    if !old.open {
        r == Err::<(), Error>(Error::Closed) && new == old
    } else {
        let mid = SessionView { pending: old.pending + line, ..old };
        write_out_post(mid, complete_len(old.pending + line), new, r)
    }
}

/// `flush`: every pending byte is written out.
pub open spec fn flush_post(old: SessionView, new: SessionView, r: Result<(), Error>) -> bool {
    if !old.open {
        r == Err::<(), Error>(Error::Closed) && new == old
    } else {
        write_out_post(old, old.pending.len(), new, r)
    }
}

/// `read_available`: one read of at most `READ_CHUNK` bytes, appended to
/// the input buffer; 0 bytes means the child's side is gone.
pub open spec fn read_post(old: SessionView, new: SessionView, r: Result<usize, Error>) -> bool {
    if !old.open {
        r == Err::<usize, Error>(Error::Closed) && new == old
    } else {
        match r {
            Ok(n) => n <= READ_CHUNK && exists|data: Seq<u8>|
                data.len() == n && #[trigger] receive_post(old, Ok(data), new, Ok(n as usize)),
            Err(e) => e is Read && new == old,
        }
    }
}

/// `receive`: bytes that came from the terminal join the input buffer, in
/// order; a failed read is reported with its errno code.
pub open spec fn receive_post(
    old: SessionView,
    got: Result<Seq<u8>, i32>,
    new: SessionView,
    r: Result<usize, Error>,
) -> bool {
    match got {
        Ok(data) => r == Ok::<usize, Error>(data.len() as usize) && new == SessionView {
            input: old.input + data,
            ..old
        },
        Err(c) => r == Err::<usize, Error>(Error::Read(c)) && new == old,
    }
}

/// `take_line`: the first complete line of the input buffer is handed out,
/// or nothing when the buffer holds no newline.
pub open spec fn take_line_post(old: SessionView, new: SessionView, r: Option<Seq<u8>>) -> bool {
    &&& new == SessionView { input: new.input, ..old }
    &&& match r {
        None => newline_free(old.input) && new.input == old.input,
        Some(l) => {
            &&& l.len() > 0
            &&& l.last() == NEWLINE
            &&& newline_free(l.drop_last())
            &&& old.input == l + new.input
        },
    }
}

/// `exit`: send the child SIGHUP, then close the terminal. A closed
/// session is left alone; when the signal fails, the session is as it was
/// but for the signal; once the signal went out (or the child was already
/// gone) the master descriptor is closed and the session with it.
pub open spec fn exit_post(old: SessionView, new: SessionView, r: Result<(), Error>) -> bool {
    let signalled = SessionView { hung_up: old.hung_up.push(old.process.child_pid), ..old };
    let ended = SessionView {
        open: false,
        closed: old.closed.push(old.process.pty_master),
        ..signalled
    };
    if !old.open {
        r == Err::<(), Error>(Error::Closed) && new == old
    } else {
        match r {
            Err(Error::Signal(_)) => new == signalled,
            Ok(_) => new == ended,
            Err(Error::Close(_)) => new == ended,
            _ => false,
        }
    }
}

proof fn lemma_complete_len(s: Seq<u8>)
    ensures
        complete_len(s) <= s.len(),
        complete_len(s) > 0 ==> s[complete_len(s) - 1] == NEWLINE,
        newline_free(s.skip(complete_len(s) as int)),
    decreases s.len(),
{
    if s.len() > 0 && s.last() != NEWLINE {
        lemma_complete_len(s.drop_last());
        let k = complete_len(s.drop_last()) as int;
        assert(s.skip(k) =~= s.drop_last().skip(k).push(s.last()));
    }
}

/// A line that ends with a newline reaches the terminal whole: once
/// `send_line` has succeeded with it, nothing is left pending and the
/// terminal has taken the earlier pending bytes and then exactly the line.
pub proof fn law_line_reaches_terminal(
    old: SessionView,
    line: Seq<u8>,
    new: SessionView,
    r: Result<(), Error>,
)
    requires
        send_line_post(old, line, new, r),
        r is Ok,
        line.len() > 0,
        line.last() == NEWLINE,
    ensures
        new.pending == Seq::<u8>::empty(),
        new.sent == old.sent + old.pending + line,
{
    let all = old.pending + line;
    assert(all.last() == NEWLINE);
    assert(complete_len(all) == all.len());
    assert(all.take(all.len() as int) =~= all);
    assert(old.sent + all =~= old.sent + old.pending + line);
    assert((old.sent + all) + new.pending == old.sent + all);
    assert(new.pending =~= Seq::<u8>::empty()) by {
        assert(((old.sent + all) + new.pending).len() == (old.sent + all).len());
    }
}

/// Line buffering holds back no complete line: after a successful
/// `send_line`, no newline is left among the pending bytes, and the
/// terminal has taken every byte before them.
pub proof fn law_only_partial_line_waits(
    old: SessionView,
    line: Seq<u8>,
    new: SessionView,
    r: Result<(), Error>,
)
    requires
        send_line_post(old, line, new, r),
        r is Ok,
    ensures
        newline_free(new.pending),
        new.sent + new.pending == old.sent + old.pending + line,
{
    let all = old.pending + line;
    let k = complete_len(all) as int;
    lemma_complete_len(all);
    assert(old.sent + all =~= old.sent + old.pending + line);
    assert(all =~= all.take(k) + all.skip(k));
    assert(new.pending =~= all.skip(k)) by {
        assert(new.sent + new.pending == (old.sent + all.take(k)) + all.skip(k));
        assert(new.pending =~= (new.sent + new.pending).skip(new.sent.len() as int));
        assert(((old.sent + all.take(k)) + all.skip(k)).skip(new.sent.len() as int) =~= all.skip(k));
    }
}

/// After a successful `exit` the session does no more I/O: sending,
/// flushing and reading all fail with `Error::Closed` and change nothing.
pub proof fn law_no_io_after_exit(
    s0: SessionView,
    s1: SessionView,
    r1: Result<(), Error>,
    line: Seq<u8>,
    s2: SessionView,
    r2: Result<(), Error>,
    s3: SessionView,
    r3: Result<(), Error>,
    s4: SessionView,
    r4: Result<usize, Error>,
)
    requires
        exit_post(s0, s1, r1),
        r1 is Ok,
        send_line_post(s1, line, s2, r2),
        flush_post(s1, s3, r3),
        read_post(s1, s4, r4),
    ensures
        !s1.open,
        r2 == Err::<(), Error>(Error::Closed) && s2 == s1,
        r3 == Err::<(), Error>(Error::Closed) && s3 == s1,
        r4 == Err::<usize, Error>(Error::Closed) && s4 == s1,
{
}

/// The terminal is closed at most once: `exit` on a session that has been
/// exited fails with `Error::Closed` and changes nothing.
pub proof fn law_exit_closes_once(
    s0: SessionView,
    s1: SessionView,
    r1: Result<(), Error>,
    s2: SessionView,
    r2: Result<(), Error>,
)
    requires
        exit_post(s0, s1, r1),
        !(r1 matches Err(Error::Signal(_))),
        exit_post(s1, s2, r2),
    ensures
        !s1.open,
        r2 == Err::<(), Error>(Error::Closed),
        s2 == s1,
{
}

/// A line with no newline is held, and holding it cannot fail: when the
/// pending bytes and the line hold no newline, `send_line` on an open
/// session succeeds, writes nothing and keeps the line pending.
pub proof fn law_partial_line_is_held(
    old: SessionView,
    line: Seq<u8>,
    new: SessionView,
    r: Result<(), Error>,
)
    requires
        send_line_post(old, line, new, r),
        old.open,
        newline_free(old.pending + line),
    ensures
        r is Ok,
        new.sent == old.sent,
        new.pending == old.pending + line,
{
    let all = old.pending + line;
    lemma_complete_len(all);
    if complete_len(all) > 0 {
        let j = complete_len(all) - 1;
        assert(all[j] != NEWLINE);
    }
    assert(complete_len(all) == 0);
    let mid = SessionView { pending: all, ..old };
    assert(write_out_post(mid, 0, new, r));
}

/// What comes in is what is taken: when the input buffer is empty and one
/// read brings exactly one line, `take_line` hands out that very line and
/// leaves the buffer empty.
pub proof fn law_received_line_is_taken(
    s0: SessionView,
    data: Seq<u8>,
    s1: SessionView,
    r1: Result<usize, Error>,
    s2: SessionView,
    r2: Option<Seq<u8>>,
)
    requires
        s0.input.len() == 0,
        data.len() > 0,
        data.last() == NEWLINE,
        newline_free(data.drop_last()),
        receive_post(s0, Ok(data), s1, r1),
        take_line_post(s1, s2, r2),
    ensures
        r2 == Some(data),
        s2.input.len() == 0,
{
    assert(s1.input =~= data);
    match r2 {
        None => {
            assert(data[data.len() - 1] == NEWLINE);
        },
        Some(l) => {
            if l.len() < data.len() {
                assert(data[l.len() - 1] == (l + s2.input)[l.len() - 1]);
                assert(data.drop_last()[l.len() - 1] == NEWLINE);
            }
            assert(l.len() == data.len());
            assert(l =~= data) by {
                assert forall|i: int| 0 <= i < l.len() implies l[i] == data[i] by {
                    assert((l + s2.input)[i] == l[i]);
                }
            }
        },
    }
}

/// The round trip through an echoing child: on a session with nothing
/// pending and nothing unread, a line with one newline, at its end, is sent
/// whole; if the child hands back exactly the bytes the terminal took, the
/// next `take_line` gives that line.
pub proof fn law_echo_round_trip(
    s0: SessionView,
    line: Seq<u8>,
    s1: SessionView,
    r1: Result<(), Error>,
    s2: SessionView,
    r2: Result<usize, Error>,
    s3: SessionView,
    r3: Option<Seq<u8>>,
)
    requires
        s0.pending.len() == 0,
        s0.input.len() == 0,
        line.len() > 0,
        line.last() == NEWLINE,
        newline_free(line.drop_last()),
        send_line_post(s0, line, s1, r1),
        r1 is Ok,
        receive_post(s1, Ok(s1.sent.skip(s0.sent.len() as int)), s2, r2),
        take_line_post(s2, s3, r3),
    ensures
        r3 == Some(line),
        s3.input.len() == 0,
{
    law_line_reaches_terminal(s0, line, s1, r1);
    assert(s0.sent + s0.pending + line =~= s0.sent + line);
    assert(s1.sent.skip(s0.sent.len() as int) =~= line);
    law_received_line_is_taken(s1, line, s2, r2, s3, r3);
}

/// One step of writing out `k` bytes, of which `done` are taken: what the
/// write returned gives the new count, or the error to report. A write that
/// takes nothing ends the writing.
pub fn after_write(done: usize, k: usize, w: Result<usize, i32>) -> (r: Result<usize, Error>)
    requires
        done <= k,
        w matches Ok(n) ==> n <= k - done,
    ensures
        r == match w {
            Ok(n) => if n == 0 {
                Err::<usize, Error>(Error::WriteZero)
            } else {
                Ok::<usize, Error>((done + n) as usize)
            },
            Err(c) => Err::<usize, Error>(Error::Write(c)),
        },
{
    match w {
        Ok(n) => if n == 0 {
            Err(Error::WriteZero)
        } else {
            Ok(done + n)
        },
        Err(c) => Err(Error::Write(c)),
    }
}

/// What a status poll reports: the wait's answer, or `Error::Status` with
/// its errno code.
pub fn status_outcome(w: Result<ProcessStatus, i32>) -> (r: Result<ProcessStatus, Error>)
    ensures
        r == match w {
            Ok(st) => Ok::<ProcessStatus, Error>(st),
            Err(c) => Err::<ProcessStatus, Error>(Error::Status(c)),
        },
{
    match w {
        Ok(st) => Ok(st),
        Err(c) => Err(Error::Status(c)),
    }
}

/// Whether hanging up stops `exit`: a child that is already gone counts as
/// hung up; any other failure is reported as `Error::Signal` with its errno
/// code.
pub fn hangup_outcome(sig: Result<(), SignalFailure>) -> (r: Option<Error>)
    ensures
        r == match sig {
            Err(SignalFailure::Os(c)) => Some(Error::Signal(c)),
            _ => None::<Error>,
        },
{
    match sig {
        Err(SignalFailure::Os(c)) => Some(Error::Signal(c)),
        _ => None,
    }
}

/// What closing the terminal reports: success, or `Error::Close` with the
/// errno code.
pub fn close_outcome(c: Result<(), i32>) -> (r: Result<(), Error>)
    ensures
        r == match c {
            Ok(_) => Ok::<(), Error>(()),
            Err(code) => Err::<(), Error>(Error::Close(code)),
        },
{
    match c {
        Ok(()) => Ok(()),
        Err(code) => Err(Error::Close(code)),
    }
}

impl PtySession {
    /// The session's state is consistent with a real child and terminal.
    pub open spec fn wf(&self) -> bool {
        self@.process.wf()
    }

    /// Takes ownership of a spawned child and its terminal's master side.
    pub fn new(process: PtyProcess) -> (s: PtySession)
        requires
            process.wf(),
        ensures
            s.wf(),
            s@ == (SessionView {
                process,
                open: true,
                sent: Seq::empty(),
                pending: Seq::empty(),
                input: Seq::empty(),
                hung_up: Seq::empty(),
                closed: Seq::empty(),
            }),
    {
        PtySession {
            process,
            open: true,
            pending: Vec::new(),
            input: Vec::new(),
            sent: Ghost(Seq::empty()),
            hung_up: Ghost(Seq::empty()),
            closed: Ghost(Seq::empty()),
        }
    }

    /// The child process and its terminal.
    pub fn process(&self) -> (r: PtyProcess)
        ensures
            r == self@.process,
    {
        self.process
    }

    /// Whether the session is still open (not yet exited).
    pub fn is_open(&self) -> (r: bool)
        ensures
            r == self@.open,
    {
        self.open
    }

    /// Writes the first `k` pending bytes to the terminal, taking partial
    /// writes in turn, and drops from the pending bytes what was taken.
    fn write_out(&mut self, k: usize) -> (r: Result<(), Error>)
        requires
            old(self).wf(),
            k <= old(self)@.pending.len(),
        ensures
            final(self).wf(),
            write_out_post(old(self)@, k as nat, final(self)@, r),
    {
        let mut done: usize = 0;
        let mut failure: Option<Error> = None;
        while done < k && failure.is_none()
            invariant
                done <= k,
                k <= self.pending@.len(),
                self@ == old(self)@,
                failure matches Some(e) ==> (e is Write || e == Error::WriteZero),
                failure is Some ==> done < k,
            decreases k - done + (if failure is None { 1int } else { 0int }),
        {
            let chunk = slice_subrange(self.pending.as_slice(), done, k);
            let written = write_fd(self.process.pty_master, chunk);
            match after_write(done, k, written) {
                Ok(d) => {
                    done = d;
                },
                Err(e) => {
                    failure = Some(e);
                },
            }
        }
        let ghost before = self.pending@;
        let rest = self.pending.split_off(done);
        self.sent = Ghost(self.sent@ + self.pending@);
        self.pending = rest;
        proof {
            assert(before =~= before.take(done as int) + rest@);
            assert(self.sent@ + self.pending@ =~= old(self)@.sent + before);
            if k == 0 {
                assert(self.sent@ =~= old(self)@.sent);
                assert(self.pending@ =~= old(self)@.pending);
                assert(self@ == old(self)@);
            }
            if failure is None {
                assert(done == k);
                assert(before.take(done as int) =~= before.take(k as int));
            }
        }
        match failure {
            None => Ok(()),
            Some(e) => Err(e),
        }
    }

    /// The length of the longest prefix of the pending bytes that ends with
    /// a newline.
    #[verifier::rlimit(20)]
    fn pending_complete_len(&self) -> (k: usize)
        ensures
            k == complete_len(self@.pending),
    {
        let mut i: usize = self.pending.len();
        proof {
            assert(self.pending@.take(i as int) =~= self.pending@);
        }
        while i > 0 && self.pending[i - 1] != NEWLINE
            invariant
                i <= self.pending@.len(),
                complete_len(self.pending@) == complete_len(self.pending@.take(i as int)),
            decreases i,
        {
            proof {
                let t = self.pending@.take(i as int);
                assert(t.last() != NEWLINE);
                assert(t.drop_last() =~= self.pending@.take(i - 1));
                assert(complete_len(t) == complete_len(t.drop_last()));
            }
            i = i - 1;
        }
        proof {
            let t = self.pending@.take(i as int);
            if i == 0 {
                assert(t.len() == 0);
            } else {
                assert(t.last() == NEWLINE);
            }
        }
        i
    }

    /// Sends `line` to the child. No line terminator is added. The terminal
    /// gets everything through the last newline at once; what follows the
    /// last newline waits for more input or for `flush`.
    pub fn send_line(&mut self, line: &str) -> (r: Result<(), Error>)
        requires
            old(self).wf(),
        ensures
            final(self).wf(),
            send_line_post(old(self)@, line.spec_bytes(), final(self)@, r),
    {
        if !self.open {
            return Err(Error::Closed);
        }
        let bytes = line.as_bytes();
        self.pending.extend_from_slice(bytes);
        proof {
            assert(self.pending@ =~= old(self)@.pending + line.spec_bytes());
        }
        let k = self.pending_complete_len();
        proof {
            lemma_complete_len(self.pending@);
        }
        self.write_out(k)
    }

    /// Writes every pending byte to the terminal.
    pub fn flush(&mut self) -> (r: Result<(), Error>)
        requires
            old(self).wf(),
        ensures
            final(self).wf(),
            flush_post(old(self)@, final(self)@, r),
    {
        if !self.open {
            return Err(Error::Closed);
        }
        let k = self.pending.len();
        self.write_out(k)
    }
    /// Reads once from the terminal, at most `READ_CHUNK` bytes, and keeps
    /// what came in the input buffer. Blocks until the child has written
    /// something or its side of the terminal is gone; `Ok(0)` means gone.
    pub fn read_available(&mut self) -> (r: Result<usize, Error>)
        requires
            old(self).wf(),
        ensures
            final(self).wf(),
            read_post(old(self)@, final(self)@, r),
    {
        if !self.open {
            return Err(Error::Closed);
        }
        let got = read_fd(self.process.pty_master, READ_CHUNK);
        let ghost seen = match &got {
            Ok(v) => Ok(v@),
            Err(c) => Err(c),
        };
        let r = self.receive(got);
        proof {
            if let Ok(d) = seen {
                assert(receive_post(old(self)@, Ok(d), self@, r));
            }
        }
        r
    }

    /// Takes in what one read of the terminal returned: the bytes read join
    /// the input buffer and their count comes back; a failed read comes back
    /// as `Error::Read` with its errno code, and nothing changes.
    pub fn receive(&mut self, got: Result<Vec<u8>, i32>) -> (r: Result<usize, Error>)
        requires
            old(self).wf(),
        ensures
            final(self).wf(),
            receive_post(
                old(self)@,
                match got {
                    Ok(v) => Ok(v@),
                    Err(c) => Err(c),
                },
                final(self)@,
                r,
            ),
    {
        match got {
            Ok(mut data) => {
                let n = data.len();
                self.input.append(&mut data);
                Ok(n)
            },
            Err(code) => Err(Error::Read(code)),
        }
    }

    /// Hands out everything read so far and not yet taken, complete line or
    /// not (a prompt, say), and empties the input buffer.
    pub fn take_all(&mut self) -> (r: Vec<u8>)
        requires
            old(self).wf(),
        ensures
            final(self).wf(),
            r@ == old(self)@.input,
            final(self)@ == (SessionView { input: Seq::empty(), ..old(self)@ }),
    {
        let all = self.input.split_off(0);
        proof {
            assert(self.input@ =~= Seq::<u8>::empty());
        }
        all
    }

    /// Hands out the first complete line of what has been read, newline
    /// included, or `None` while no complete line has come in.
    pub fn take_line(&mut self) -> (r: Option<Vec<u8>>)
        requires
            old(self).wf(),
        ensures
            final(self).wf(),
            take_line_post(
                old(self)@,
                final(self)@,
                match r {
                    Some(v) => Some(v@),
                    None => None,
                },
            ),
    {
        let mut i: usize = 0;
        while i < self.input.len() && self.input[i] != NEWLINE
            invariant
                i <= self.input@.len(),
                newline_free(self.input@.take(i as int)),
            decreases self.input@.len() - i,
        {
            proof {
                assert(self.input@.take(i + 1) =~= self.input@.take(i as int).push(self.input@[i as int]));
            }
            i = i + 1;
        }
        if i == self.input.len() {
            proof {
                assert(self.input@.take(i as int) =~= self.input@);
            }
            return None;
        }
        let ghost before = self.input@;
        let rest = self.input.split_off(i + 1);
        let line = self.input.clone();
        self.input = rest;
        proof {
            assert(line@.drop_last() =~= before.take(i as int));
            assert(before =~= line@ + rest@);
        }
        Some(line)
    }

    /// Polls the child's state without waiting: `StillAlive` while nothing
    /// has changed, else how it changed. Once a change to an ended state
    /// has been reported, the child is reaped and later polls fail.
    pub fn status(&self) -> (r: Result<ProcessStatus, Error>)
        requires
            self.wf(),
        ensures
            r matches Ok(st) ==> st.reports_on(self@.process.child_pid),
            r matches Err(e) ==> e is Status,
    {
        status_outcome(wait_no_hang(self.process.child_pid))
    }

    /// Ends the session the way a terminal does on logout: sends the child
    /// SIGHUP, then closes the terminal. A child that is already gone counts
    /// as hung up. The child is not waited for; `status` reaps it. Bytes
    /// still pending are not sent.
    pub fn exit(&mut self) -> (r: Result<(), Error>)
        requires
            old(self).wf(),
        ensures
            final(self).wf(),
            exit_post(old(self)@, final(self)@, r),
    {
        if !self.open {
            return Err(Error::Closed);
        }
        let sig = hang_up(self.process.child_pid);
        self.hung_up = Ghost(self.hung_up@.push(self.process.child_pid));
        if let Some(e) = hangup_outcome(sig) {
            return Err(e);
        }
        let closing = close_fd(self.process.pty_master);
        self.closed = Ghost(self.closed@.push(self.process.pty_master));
        self.open = false;
        close_outcome(closing)
    }
}

/// A session dropped while still open closes its master descriptor, so
/// the terminal is never leaked. The child is not signalled.
impl Drop for PtySession {
    fn drop(&mut self)
        opens_invariants none
        no_unwind
    {
        if self.open {
            let _ = close_fd(self.process.pty_master);
            self.open = false;
        }
    }
}

} // verus!
