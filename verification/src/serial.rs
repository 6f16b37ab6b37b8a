//! The read-reconnect pipeline's decision core: the streaming sub-loop's
//! per-event step (framing, dispatch, disconnects, fatal errors, quit) and the
//! outer connection lifecycle machine (probe, connect, stream, disconnect,
//! retry). The process around the library performs the waits, the device reads
//! and the console writes these steps call for, and feeds every outcome back
//! in as an event.

use vstd::prelude::*;

use crate::framer::{
    Buffer, CAPACITY, first_nl, has_line, line_remainder, split_lines, written_len,
};
use crate::state::{ConnectionStatus, ControlState};

verus! {

/// Fixed backoff between failed open attempts, in milliseconds.
pub const BACKOFF_MS: u64 = 500;

/// Fixed sleep between polls when no bytes are available, in milliseconds.
pub const POLL_INTERVAL_MS: u64 = 100;

/// Size of the bounded transfer buffer a single device read fills, in bytes.
pub const TRANSFER_BUFFER_SIZE: usize = 256;

/// What one iteration of the streaming sub-loop observed.
#[derive(Clone, PartialEq, Eq, Debug)]
pub enum StreamEvent {
    /// The shared quit flag was set when this iteration checked it.
    QuitSignal,
    /// No bytes are currently available to read.
    NoData,
    /// A bounded read returned these bytes (at least one).
    Chunk(Vec<u8>),
    /// A read returned zero bytes: a graceful end of the stream.
    EndOfStream,
    /// A read failed with a recoverable timeout.
    TimedOut,
    /// A read failed with any other transport error.
    HardError,
}

/// Why the streaming sub-loop ended.
#[derive(Clone, Copy, PartialEq, Eq, Structural, Debug)]
pub enum ExitReason {
    /// The quit signal was observed.
    QuitRequested,
    /// The stream ended or timed out recoverably; the device should be reopened.
    Disconnected,
    /// A hard transport error: the whole session ends.
    Fatal,
    /// A framed line was not valid text: the read path aborts.
    DecodeFault,
}

/// What the streaming sub-loop must do after handling one event.
#[derive(Clone, PartialEq, Eq, Debug)]
pub enum StreamStep {
    /// Sleep one poll interval, then check again.
    Poll,
    /// Write these framed lines to the console (and the log sink, when
    /// enabled), flush once, and continue streaming.
    Dispatch(Vec<String>),
    /// Leave the sub-loop for the given reason.
    Exit(ExitReason),
}

/// What a byte sequence reads as UTF-8 text: its decoded characters, or
/// nothing when the bytes are not valid UTF-8.
pub uninterp spec fn utf8_view(b: Seq<u8>) -> Option<Seq<char>>;

/// Relies on String::from_utf8: returns the decoded text exactly when the
/// bytes are valid UTF-8, and nothing otherwise.
#[verifier::external_body]
fn decode_utf8(bytes: Vec<u8>) -> (r: Option<String>)
    ensures
        r is Some <==> utf8_view(bytes@) is Some,
        r matches Some(s) ==> utf8_view(bytes@) == Some(s@),
{
    String::from_utf8(bytes).ok()
}

/// The framer's pending bytes once a freshly read chunk of `data` has been
/// written into it: the chunk is truncated to the free space that was left.
pub open spec fn merged_bytes(pending: Seq<u8>, free: int, data: Seq<u8>) -> Seq<u8> {
    pending + data.take(written_len(free, data.len() as int))
}

/// One open connection's streaming state: the line framer, created fresh for
/// every connection attempt and discarded when the attempt ends.
pub struct StreamSession {
    framer: Buffer,
}

impl StreamSession {
    /// The framer stays well-formed.
    pub closed spec fn wf(self) -> bool {
        self.framer.wf()
    }

    /// Bytes read from the device but not yet dispatched as complete lines.
    pub closed spec fn pending(self) -> Seq<u8> {
        self.framer.pending()
    }

    /// Free framer bytes left for the next chunk.
    pub closed spec fn free_space(self) -> int {
        self.framer.free_space()
    }

    /// A session for a freshly opened connection: nothing buffered yet.
    pub fn new() -> (s: StreamSession)
        ensures
            s.wf(),
            s.pending() == Seq::<u8>::empty(),
            s.free_space() == CAPACITY as int,
    {
        StreamSession { framer: Buffer::new() }
    }

    /// Handle one observation of the streaming sub-loop.
    ///
    /// The quit signal exits at once, whatever bytes are still pending, so the
    /// sub-loop stops within one poll interval of the flag being set. A zero
    /// read or a recoverable timeout exits for a reconnect and leaves the
    /// shared state alone. A hard error records NotConnected, sets the quit
    /// flag (a fatal read error ends the whole session), and exits. A chunk is
    /// framed: every complete line is decoded and handed back for dispatch,
    /// the partial tail stays buffered; a line that is not valid text aborts
    /// the read path with the quit flag set instead of being substituted.
    #[verifier::loop_isolation(false)]
    pub fn handle_event(&mut self, control: &mut ControlState, event: StreamEvent) -> (r:
        StreamStep)
        requires
            old(self).wf(),
        ensures
            final(self).wf(),
            event is QuitSignal ==> r == StreamStep::Exit(ExitReason::QuitRequested) && *final(self)
                == *old(self) && *final(control) == *old(control),
            event is NoData ==> r == StreamStep::Poll && *final(self) == *old(self)
                && *final(control) == *old(control),
            (event is EndOfStream || event is TimedOut) ==> r == StreamStep::Exit(
                ExitReason::Disconnected,
            ) && *final(self) == *old(self) && *final(control) == *old(control),
            event is HardError ==> r == StreamStep::Exit(ExitReason::Fatal)
                && *final(self) == *old(self) && final(control).quitting
                && final(control).connection_status == ConnectionStatus::NotConnected
                && final(control).log == old(control).log,
            event matches StreamEvent::Chunk(data) ==> ({
                let merged = merged_bytes(old(self).pending(), old(self).free_space(), data@);
                &&& !(r is Poll)
                &&& (r matches StreamStep::Dispatch(lines) ==> {
                    &&& lines@.len() == split_lines(merged).len()
                    &&& (forall|i: int|
                        0 <= i < lines@.len() ==> Some(#[trigger] lines@[i]@) == utf8_view(
                            split_lines(merged)[i],
                        ))
                    &&& final(self).pending() == line_remainder(merged)
                    &&& final(self).free_space() == CAPACITY as int - line_remainder(merged).len()
                    &&& *final(control) == *old(control)
                })
                &&& (r matches StreamStep::Exit(e) ==> {
                    &&& e == ExitReason::DecodeFault
                    &&& (exists|i: int|
                        0 <= i < split_lines(merged).len() && utf8_view(
                            #[trigger] split_lines(merged)[i],
                        ) is None)
                    &&& final(control).quitting
                    &&& final(control).connection_status == old(control).connection_status
                    &&& final(control).log == old(control).log
                })
            }),
    {
        match event {
            StreamEvent::QuitSignal => StreamStep::Exit(ExitReason::QuitRequested),
            StreamEvent::NoData => StreamStep::Poll,
            StreamEvent::EndOfStream => StreamStep::Exit(ExitReason::Disconnected),
            StreamEvent::TimedOut => StreamStep::Exit(ExitReason::Disconnected),
            StreamEvent::HardError => {
                control.connection_status = ConnectionStatus::NotConnected;
                control.quitting = true;
                StreamStep::Exit(ExitReason::Fatal)
            },
            StreamEvent::Chunk(data) => {
                self.framer.write(data.as_slice(), data.len());
                let ghost merged = merged_bytes(old(self).pending(), old(self).free_space(), data@);
                let ghost fs0 = self.framer.free_space();
                proof {
                    assert(self.framer.pending() == merged);
                }
                let mut lines: Vec<String> = Vec::new();
                let mut done: bool = false;
                let mut fault: bool = false;
                while !done && !fault
                    invariant
                        self.framer.wf(),
                        self.framer.free_space() == fs0,
                        line_remainder(self.framer.pending()) == line_remainder(merged),
                        lines@.len() <= split_lines(merged).len(),
                        forall|i: int|
                            0 <= i < lines@.len() ==> Some(#[trigger] lines@[i]@) == utf8_view(
                                split_lines(merged)[i],
                            ),
                        !fault ==> split_lines(self.framer.pending()) == split_lines(merged).skip(
                            lines@.len() as int,
                        ),
                        done ==> !has_line(self.framer.pending()),
                        fault ==> (exists|i: int|
                            0 <= i < split_lines(merged).len() && utf8_view(
                                #[trigger] split_lines(merged)[i],
                            ) is None),
                    decreases self.framer.pending().len() + (if done || fault {
                        0int
                    } else {
                        1int
                    }),
                {
                    let ghost p_before = self.framer.pending();
                    let ghost n = lines@.len() as int;
                    match self.framer.get_line() {
                        None => {
                            done = true;
                        },
                        Some(line_bytes) => {
                            proof {
                                let k = first_nl(p_before) as int + 1;
                                assert(split_lines(p_before) == seq![p_before.take(k)]
                                    + split_lines(p_before.skip(k)));
                                assert(line_bytes@ == split_lines(p_before)[0]);
                                assert(split_lines(merged).skip(n)[0] == split_lines(merged)[n]);
                                assert(line_bytes@ == split_lines(merged)[n]);
                                assert(split_lines(p_before).skip(1) =~= split_lines(
                                    p_before.skip(k),
                                ));
                                assert(split_lines(self.framer.pending()) =~= split_lines(
                                    merged,
                                ).skip(n + 1));
                            }
                            match decode_utf8(line_bytes) {
                                Some(text) => {
                                    lines.push(text);
                                },
                                None => {
                                    fault = true;
                                },
                            }
                        },
                    }
                }
                if fault {
                    control.quitting = true;
                    return StreamStep::Exit(ExitReason::DecodeFault);
                }
                proof {
                    assert(split_lines(merged).skip(lines@.len() as int).len() == 0);
                    assert(lines@.len() == split_lines(merged).len());
                    assert(self.framer.pending() == line_remainder(merged));
                }
                self.framer.shift_remaining();
                StreamStep::Dispatch(lines)
            },
        }
    }
}

/// Lifecycle phase of a connection attempt.
#[derive(Clone, Copy, PartialEq, Eq, Structural, Debug)]
pub enum ConnectionPhase {
    /// No device open; about to try opening one.
    Probing,
    /// Device open; the streaming sub-loop is running.
    Connected,
    /// The device closed or failed; about to retry.
    Disconnected,
    /// Terminal: the session is over.
    Quitting,
}

/// What the outer loop must do after a lifecycle step.
#[derive(Clone, Copy, PartialEq, Eq, Structural, Debug)]
pub enum SessionAction {
    /// Announce the Connected status and run the streaming sub-loop.
    StartStreaming,
    /// Wait the fixed backoff, then retry the open; announce the NotConnected
    /// status first only when the flag is set (the very first failure).
    Backoff(bool),
    /// Announce the Disconnected status, then try to open again.
    Reconnect,
    /// The session is over: leave the outer loop.
    Shutdown,
}

/// The connection lifecycle machine the outer loop steps through: open
/// attempts retry forever with a fixed backoff, only the first consecutive
/// failure is announced, and a quit (requested or fatal) is terminal.
#[derive(Clone, Copy, PartialEq, Eq, Structural, Debug)]
pub struct SessionMachine {
    pub phase: ConnectionPhase,
    pub first_attempt: bool,
}

impl SessionMachine {
    /// A session starts probing, with its first open attempt still to come.
    pub fn new() -> (m: SessionMachine)
        ensures
            m.phase == ConnectionPhase::Probing,
            m.first_attempt,
    {
        SessionMachine { phase: ConnectionPhase::Probing, first_attempt: true }
    }

    /// Record the outcome of one attempt to open the port. A success starts
    /// streaming; a failure schedules a silent retry, announced only when it
    /// is the very first attempt since the session began (no log spam).
    pub fn on_open_result(&mut self, opened: bool) -> (a: SessionAction)
        requires
            old(self).phase == ConnectionPhase::Probing || old(self).phase
                == ConnectionPhase::Disconnected,
        ensures
            !final(self).first_attempt,
            opened ==> final(self).phase == ConnectionPhase::Connected && a
                == SessionAction::StartStreaming,
            !opened ==> final(self).phase == ConnectionPhase::Probing && a == SessionAction::Backoff(
                old(self).first_attempt,
            ),
    {
        let announce = self.first_attempt;
        self.first_attempt = false;
        if opened {
            self.phase = ConnectionPhase::Connected;
            SessionAction::StartStreaming
        } else {
            self.phase = ConnectionPhase::Probing;
            SessionAction::Backoff(announce)
        }
    }

    /// Record how the streaming sub-loop ended. A plain disconnect schedules a
    /// reconnect; a requested quit, a hard transport error or a decoding fault
    /// ends the whole session, with no retry.
    pub fn on_stream_exit(&mut self, reason: ExitReason) -> (a: SessionAction)
        requires
            old(self).phase == ConnectionPhase::Connected,
        ensures
            final(self).first_attempt == old(self).first_attempt,
            reason == ExitReason::Disconnected ==> final(self).phase
                == ConnectionPhase::Disconnected && a == SessionAction::Reconnect,
            reason != ExitReason::Disconnected ==> final(self).phase == ConnectionPhase::Quitting
                && a == SessionAction::Shutdown,
    {
        match reason {
            ExitReason::Disconnected => {
                self.phase = ConnectionPhase::Disconnected;
                SessionAction::Reconnect
            },
            _ => {
                self.phase = ConnectionPhase::Quitting;
                SessionAction::Shutdown
            },
        }
    }
}

} // verus!
