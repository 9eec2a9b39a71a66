//! Drive an interactive program through a pseudo-terminal: write input
//! lines to it, collect what it prints, poll its state and hang it up.

mod os;
mod session;

pub use session::{
    after_write, close_outcome, complete_len, exit_post, flush_post, hangup_outcome,
    law_echo_round_trip, law_exit_closes_once, law_line_reaches_terminal, law_no_io_after_exit,
    law_only_partial_line_waits, law_partial_line_is_held, law_received_line_is_taken,
    newline_free, read_post, receive_post, send_line_post, status_outcome, take_line_post,
    write_out_post, Error, PtyProcess, PtySession, SessionView, NEWLINE, READ_CHUNK,
};

pub use os::{ProcessStatus, SignalFailure};

