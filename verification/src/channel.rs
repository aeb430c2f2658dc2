//! The command channel: a message-draining state machine. After an exec
//! request the channel consumes inbound frames, appending data to its
//! output buffer, until the terminal exit-status frame arrives, the
//! connection closes, or the configured output cap is exceeded.

use crate::text::append_bytes;
use vstd::prelude::*;

verus! {

/// One inbound message on the command channel, as plain values. Frame
/// types other than data and exit status are carried as `Other` and
/// ignored, for forward compatibility.
#[derive(Clone, Debug, PartialEq, Eq)]
pub enum Frame {
    /// A chunk of command output.
    Data(Vec<u8>),
    /// The terminal frame carrying the command's exit status.
    ExitStatus(u32),
    /// Any other message type; ignored without a state change.
    Other,
}

/// The states of the channel machine: open and awaiting an exec request,
/// draining inbound frames, or closed.
#[derive(Clone, Copy, Debug, PartialEq, Eq, Structural)]
pub enum ChannelState {
    Open,
    Draining,
    Closed,
}

/// One logical command-execution stream. It owns the accumulated output
/// (append-only while draining, capped at `limit` bytes) and the exit
/// status, absent until the terminal frame is received.
pub struct Channel {
    pub state: ChannelState,
    pub output: Vec<u8>,
    pub exit_status: Option<u32>,
    pub overflowed: bool,
    pub limit: usize,
}

impl Channel {
    /// The channel's internal invariant: the buffer respects the cap, an
    /// open channel is empty, and a recorded exit status or an overflow
    /// implies the channel is closed.
    pub open spec fn wf(&self) -> bool {
        &&& self.output@.len() <= self.limit
        &&& (self.state is Open ==> self.output@.len() == 0 && self.exit_status is None
            && !self.overflowed)
        &&& (self.state is Draining ==> self.exit_status is None && !self.overflowed)
        &&& (self.exit_status is Some ==> self.state is Closed)
        &&& (self.overflowed ==> self.state is Closed && self.exit_status is None)
    }

    /// A fresh open channel with an empty buffer and the given output cap.
    pub fn new(limit: usize) -> (c: Channel)
        ensures
            c.wf(),
            c.state is Open,
            c.output@.len() == 0,
            c.exit_status is None,
            !c.overflowed,
            c.limit == limit,
    {
        Channel { state: ChannelState::Open, output: Vec::new(), exit_status: None, overflowed: false, limit }
    }

    /// The exec request has been transmitted: start draining.
    pub fn exec_requested(&mut self)
        requires
            old(self).wf(),
            old(self).state is Open,
        ensures
            final(self).wf(),
            final(self).state is Draining,
            final(self).output@.len() == 0,
            final(self).exit_status is None,
            !final(self).overflowed,
            final(self).limit == old(self).limit,
    {
        self.state = ChannelState::Draining;
    }

    /// Feeds one inbound frame to a draining channel. Data is appended to
    /// the output (closing with an overflow mark if it would exceed the
    /// cap), an exit-status frame records the status and closes the
    /// channel, and any other frame leaves the channel unchanged. Returns
    /// whether the channel is now closed.
    pub fn on_frame(&mut self, frame: &Frame) -> (done: bool)
        requires
            old(self).wf(),
            old(self).state is Draining,
        ensures
            final(self).wf(),
            final(self).limit == old(self).limit,
            done == (final(self).state is Closed),
            (frame matches Frame::Data(d) && old(self).output@.len() + d@.len()
                <= old(self).limit) ==> {
                &&& final(self).state is Draining
                &&& (frame matches Frame::Data(d) && final(self).output@ == old(self).output@
                    + d@)
                &&& final(self).exit_status is None
                &&& !final(self).overflowed
            },
            (frame matches Frame::Data(d) && old(self).output@.len() + d@.len()
                > old(self).limit) ==> {
                &&& final(self).state is Closed
                &&& final(self).output@ == old(self).output@
                &&& final(self).exit_status is None
                &&& final(self).overflowed
            },
            frame matches Frame::ExitStatus(s) ==> {
                &&& final(self).state is Closed
                &&& final(self).output@ == old(self).output@
                &&& final(self).exit_status == Some(*s)
                &&& !final(self).overflowed
            },
            frame is Other ==> *final(self) == *old(self),
    {
        match frame {
            Frame::Data(d) => {
                if d.len() <= self.limit - self.output.len() {
                    append_bytes(&mut self.output, d);
                    false
                } else {
                    self.state = ChannelState::Closed;
                    self.overflowed = true;
                    true
                }
            },
            Frame::ExitStatus(s) => {
                self.exit_status = Some(*s);
                self.state = ChannelState::Closed;
                true
            },
            Frame::Other => false,
        }
    }

    /// The connection closed before a terminal frame: the channel closes
    /// without an exit status, never silently reporting success.
    pub fn on_eof(&mut self)
        requires
            old(self).wf(),
            old(self).state is Draining,
        ensures
            final(self).wf(),
            final(self).state is Closed,
            final(self).output@ == old(self).output@,
            final(self).exit_status is None,
            !final(self).overflowed,
            final(self).limit == old(self).limit,
    {
        self.state = ChannelState::Closed;
    }
}

/// What draining a frame sequence yields with `room` bytes of buffer
/// capacity left: the accumulated data bytes and the exit status of the
/// first exit-status frame, or `None` when the frames end (or the cap is
/// hit) before an exit-status frame.
pub open spec fn drain_spec(frames: Seq<Frame>, room: nat) -> Option<(Seq<u8>, u32)>
    decreases frames.len(),
{
    if frames.len() == 0 {
        None
    } else {
        match frames[0] {
            Frame::ExitStatus(s) => Some((Seq::empty(), s)),
            Frame::Data(d) => if d@.len() > room {
                None
            } else {
                match drain_spec(frames.drop_first(), (room - d@.len()) as nat) {
                    Some(p) => Some((d@ + p.0, p.1)),
                    None => None,
                }
            },
            Frame::Other => drain_spec(frames.drop_first(), room),
        }
    }
}

/// Whether draining the frames with `room` bytes of capacity left hits
/// the output cap before any exit-status frame.
pub open spec fn drain_overflows(frames: Seq<Frame>, room: nat) -> bool
    decreases frames.len(),
{
    if frames.len() == 0 {
        false
    } else {
        match frames[0] {
            Frame::ExitStatus(s) => false,
            Frame::Data(d) => if d@.len() > room {
                true
            } else {
                drain_overflows(frames.drop_first(), (room - d@.len()) as nat)
            },
            Frame::Other => drain_overflows(frames.drop_first(), room),
        }
    }
}

/// The data-frame payloads of `frames`, concatenated in receipt order.
pub open spec fn data_concat(frames: Seq<Frame>) -> Seq<u8>
    decreases frames.len(),
{
    if frames.len() == 0 {
        Seq::empty()
    } else {
        match frames[0] {
            Frame::Data(d) => d@ + data_concat(frames.drop_first()),
            _ => data_concat(frames.drop_first()),
        }
    }
}

/// Law: success and the cap are exclusive — a drain that completes with
/// an exit status never also hits the output cap.
pub proof fn lemma_drain_success_within_cap(frames: Seq<Frame>, room: nat)
    requires
        drain_spec(frames, room) is Some,
    ensures
        !drain_overflows(frames, room),
    decreases frames.len(),
{
    match frames[0] {
        Frame::ExitStatus(s) => {},
        Frame::Data(d) => {
            lemma_drain_success_within_cap(frames.drop_first(), (room - d@.len()) as nat);
        },
        Frame::Other => {
            lemma_drain_success_within_cap(frames.drop_first(), room);
        },
    }
}

/// Law: a successful drain observes exactly one exit-status frame — the
/// first in the sequence — and returns its status exactly, together with
/// the data frames received before it, concatenated in receipt order.
pub proof fn lemma_drain_first_exit(frames: Seq<Frame>, room: nat)
    requires
        drain_spec(frames, room) is Some,
    ensures
        exists|i: int|
            {
                &&& 0 <= i < frames.len()
                &&& frames[i] is ExitStatus
                &&& forall|j: int| 0 <= j < i ==> !(frames[j] is ExitStatus)
                &&& (frames[i] matches Frame::ExitStatus(s) && drain_spec(frames, room) == Some(
                    (data_concat(frames.take(i)), s),
                ))
            },
    decreases frames.len(),
{
    match frames[0] {
        Frame::ExitStatus(s) => {
            assert(frames.take(0) =~= Seq::<Frame>::empty());
            assert({
                &&& 0 <= 0 < frames.len()
                &&& frames[0] is ExitStatus
                &&& forall|j: int| 0 <= j < 0 ==> !(frames[j] is ExitStatus)
                &&& (frames[0] matches Frame::ExitStatus(s2) && drain_spec(frames, room) == Some(
                    (data_concat(frames.take(0)), s2),
                ))
            });
        },
        Frame::Data(d) => {
            let rest = frames.drop_first();
            let room2 = (room - d@.len()) as nat;
            lemma_drain_first_exit(rest, room2);
            let i = choose|i: int|
                {
                    &&& 0 <= i < rest.len()
                    &&& rest[i] is ExitStatus
                    &&& forall|j: int| 0 <= j < i ==> !(rest[j] is ExitStatus)
                    &&& (rest[i] matches Frame::ExitStatus(s) && drain_spec(rest, room2) == Some(
                        (data_concat(rest.take(i)), s),
                    ))
                };
            assert(frames.take(i + 1).drop_first() =~= rest.take(i));
            assert(data_concat(frames.take(i + 1)) == d@ + data_concat(rest.take(i)));
            assert forall|j: int| 0 <= j < i + 1 implies !(frames[j] is ExitStatus) by {
                if j > 0 {
                    assert(rest[j - 1] == frames[j]);
                    assert(!(rest[j - 1] is ExitStatus));
                }
            }
            assert({
                &&& 0 <= i + 1 < frames.len()
                &&& frames[i + 1] is ExitStatus
                &&& forall|j: int| 0 <= j < i + 1 ==> !(frames[j] is ExitStatus)
                &&& (frames[i + 1] matches Frame::ExitStatus(s) && drain_spec(frames, room)
                    == Some((data_concat(frames.take(i + 1)), s)))
            });
        },
        Frame::Other => {
            let rest = frames.drop_first();
            lemma_drain_first_exit(rest, room);
            let i = choose|i: int|
                {
                    &&& 0 <= i < rest.len()
                    &&& rest[i] is ExitStatus
                    &&& forall|j: int| 0 <= j < i ==> !(rest[j] is ExitStatus)
                    &&& (rest[i] matches Frame::ExitStatus(s) && drain_spec(rest, room) == Some(
                        (data_concat(rest.take(i)), s),
                    ))
                };
            assert(frames.take(i + 1).drop_first() =~= rest.take(i));
            assert(data_concat(frames.take(i + 1)) == data_concat(rest.take(i)));
            assert forall|j: int| 0 <= j < i + 1 implies !(frames[j] is ExitStatus) by {
                if j > 0 {
                    assert(rest[j - 1] == frames[j]);
                    assert(!(rest[j - 1] is ExitStatus));
                }
            }
            assert({
                &&& 0 <= i + 1 < frames.len()
                &&& frames[i + 1] is ExitStatus
                &&& forall|j: int| 0 <= j < i + 1 ==> !(frames[j] is ExitStatus)
                &&& (frames[i + 1] matches Frame::ExitStatus(s) && drain_spec(frames, room)
                    == Some((data_concat(frames.take(i + 1)), s)))
            });
        },
    }
}

} // verus!
