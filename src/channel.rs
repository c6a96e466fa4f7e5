//! The typed command channel between the master and a worker.
//!
//! A channel holds the buffers of one end of a duplex byte stream: bytes
//! received from the peer and not yet cut into messages, and framed messages
//! not yet handed to the stream. Its two type parameters name the messages it
//! sends and receives; the bytes of a message are produced and read by the
//! caller. The stream itself is driven by the caller, which hands received
//! bytes in with `receive` and takes bytes out with `pending_output` and
//! `consume_written`.
use vstd::prelude::*;
use core::marker::PhantomData;
use crate::frame::{FrameParse, lemma_frame_round_trip, PREFIX_LEN, frame, parse_frame, push_bytes, push_frame, read_declared_len};

verus! {

/// Read buffer capacity of the channels between master and workers.
pub const READ_CAPACITY: usize = 10000;

/// Write buffer capacity of the channels between master and workers.
pub const WRITE_CAPACITY: usize = 20000;

/// Why a channel operation did not complete.
#[derive(Debug, PartialEq, Eq, Clone, Copy)]
pub enum ChannelError {
    /// The peer has disconnected and no whole message is left.
    ChannelClosed,
    /// A received frame could not be decoded.
    MalformedFrame,
    /// A frame is larger than the buffer meant to hold it.
    MessageTooLarge,
    /// The frame fits the write buffer, but not beside the bytes still
    /// waiting in it: flush and try again.
    WouldBlock,
}

/// The state of one end of a channel.
pub struct ChannelView {
    pub incoming: Seq<u8>,
    pub outgoing: Seq<u8>,
    pub read_capacity: nat,
    pub write_capacity: nat,
    pub blocking: bool,
    pub peer_closed: bool,
}

/// One end of a channel that sends `Tx` messages and receives `Rx` messages.
pub struct CommandChannel<Tx, Rx> {
    read_buf: Vec<u8>,
    write_buf: Vec<u8>,
    read_capacity: usize,
    write_capacity: usize,
    blocking: bool,
    peer_closed: bool,
    sent: PhantomData<Tx>,
    received: PhantomData<Rx>,
}

/// What writing `payload` does to a channel in state `v`: the new state and the outcome.
pub open spec fn write_outcome(v: ChannelView, payload: Seq<u8>) -> (ChannelView, Result<(), ChannelError>) {
    let size = PREFIX_LEN + payload.len();
    if v.peer_closed {
        (v, Err(ChannelError::ChannelClosed))
    } else if payload.len() > u32::MAX || size > v.write_capacity {
        (v, Err(ChannelError::MessageTooLarge))
    } else if v.outgoing.len() + size > v.write_capacity {
        (v, Err(ChannelError::WouldBlock))
    } else {
        (ChannelView { outgoing: v.outgoing + frame(payload), ..v }, Ok(()))
    }
}

/// What reading a message does to a channel in state `v`: the new state and
/// the outcome, `Ok(None)` when no whole message is there yet.
pub open spec fn read_outcome(v: ChannelView) -> (ChannelView, Result<Option<Seq<u8>>, ChannelError>) {
    match parse_frame(v.incoming, v.read_capacity) {
        FrameParse::TooLarge => (v, Err(ChannelError::MessageTooLarge)),
        FrameParse::Incomplete => if v.peer_closed {
            (v, Err(ChannelError::ChannelClosed))
        } else {
            (v, Ok(None))
        },
        FrameParse::Complete(payload, rest) => (ChannelView { incoming: rest, ..v }, Ok(Some(payload))),
    }
}

impl<Tx, Rx> View for CommandChannel<Tx, Rx> {
    type V = ChannelView;

    closed spec fn view(&self) -> ChannelView {
        ChannelView {
            incoming: self.read_buf@,
            outgoing: self.write_buf@,
            read_capacity: self.read_capacity as nat,
            write_capacity: self.write_capacity as nat,
            blocking: self.blocking,
            peer_closed: self.peer_closed,
        }
    }
}

impl<Tx, Rx> CommandChannel<Tx, Rx> {
    /// Buffers never hold more than their capacity.
    pub open spec fn wf(&self) -> bool {
        &&& self@.incoming.len() <= self@.read_capacity
        &&& self@.outgoing.len() <= self@.write_capacity
    }

    /// A channel with empty buffers, in nonblocking mode, on a connected stream.
    pub fn new(read_capacity: usize, write_capacity: usize) -> (r: Self)
        ensures
            r.wf(),
            r@ == (ChannelView {
                incoming: Seq::empty(),
                outgoing: Seq::empty(),
                read_capacity: read_capacity as nat,
                write_capacity: write_capacity as nat,
                blocking: false,
                peer_closed: false,
            }),
    {
        CommandChannel {
            read_buf: Vec::new(),
            write_buf: Vec::new(),
            read_capacity,
            write_capacity,
            blocking: false,
            peer_closed: false,
            sent: PhantomData,
            received: PhantomData,
        }
    }

    /// Whether the stream under this channel is in blocking mode.
    pub fn is_blocking(&self) -> (r: bool)
        ensures
            r == self@.blocking,
    {
        self.blocking
    }

    /// Records the stream's mode; buffered bytes are kept as they are.
    pub fn set_blocking(&mut self, blocking: bool)
        requires
            old(self).wf(),
        ensures
            final(self).wf(),
            final(self)@ == (ChannelView { blocking, ..old(self)@ }),
    {
        self.blocking = blocking;
    }

    /// Frames `payload` onto the write buffer; refused once the peer is gone.
    pub fn write_message(&mut self, payload: &[u8]) -> (r: Result<(), ChannelError>)
        requires
            old(self).wf(),
        ensures
            final(self).wf(),
            (final(self)@, r) == write_outcome(old(self)@, payload@),
    {
        if self.peer_closed {
            return Err(ChannelError::ChannelClosed);
        }
        let room = self.write_capacity - self.write_buf.len();
        if payload.len() > u32::MAX as usize || payload.len() > self.write_capacity || PREFIX_LEN > self.write_capacity - payload.len() {
            Err(ChannelError::MessageTooLarge)
        } else if PREFIX_LEN + payload.len() > room {
            Err(ChannelError::WouldBlock)
        } else {
            push_frame(&mut self.write_buf, payload);
            Ok(())
        }
    }

    /// The bytes waiting to be written to the stream.
    pub fn pending_output(&self) -> (r: &[u8])
        ensures
            r@ == self@.outgoing,
    {
        self.write_buf.as_slice()
    }

    /// Drops the first `n` waiting bytes, which the stream has accepted.
    pub fn consume_written(&mut self, n: usize)
        requires
            old(self).wf(),
            n <= old(self)@.outgoing.len(),
        ensures
            final(self).wf(),
            final(self)@ == (ChannelView {
                outgoing: old(self)@.outgoing.subrange(n as int, old(self)@.outgoing.len() as int),
                ..old(self)@
            }),
    {
        let rest = self.write_buf.split_off(n);
        self.write_buf = rest;
    }

    /// How many more received bytes the read buffer can take.
    pub fn read_room(&self) -> (r: usize)
        requires
            self.wf(),
        ensures
            r == self@.read_capacity - self@.incoming.len(),
    {
        self.read_capacity - self.read_buf.len()
    }

    /// Appends bytes received from the stream to the read buffer.
    pub fn receive(&mut self, data: &[u8])
        requires
            old(self).wf(),
            old(self)@.incoming.len() + data@.len() <= old(self)@.read_capacity,
        ensures
            final(self).wf(),
            final(self)@ == (ChannelView { incoming: old(self)@.incoming + data@, ..old(self)@ }),
    {
        push_bytes(&mut self.read_buf, data);
    }

    /// Records that the stream reported the end of the peer's data.
    pub fn mark_peer_closed(&mut self)
        requires
            old(self).wf(),
        ensures
            final(self).wf(),
            final(self)@ == (ChannelView { peer_closed: true, ..old(self)@ }),
    {
        self.peer_closed = true;
    }

    /// Cuts the next whole message out of the read buffer; `Ok(None)` when
    /// none has arrived whole yet. Never waits.
    pub fn read_message(&mut self) -> (r: Result<Option<Vec<u8>>, ChannelError>)
        requires
            old(self).wf(),
        ensures
            final(self).wf(),
            final(self)@ == read_outcome(old(self)@).0,
            match (r, read_outcome(old(self)@).1) {
                (Ok(Some(m)), Ok(Some(p))) => m@ == p,
                (Ok(None), Ok(None)) => true,
                (Err(e), Err(f)) => e == f,
                _ => false,
            },
    {
        if self.read_buf.len() < PREFIX_LEN {
            return if self.peer_closed { Err(ChannelError::ChannelClosed) } else { Ok(None) };
        }
        let len = read_declared_len(self.read_buf.as_slice()) as usize;
        if len > self.read_capacity || PREFIX_LEN > self.read_capacity - len {
            return Err(ChannelError::MessageTooLarge);
        }
        let end = PREFIX_LEN + len;
        if self.read_buf.len() < end {
            return if self.peer_closed { Err(ChannelError::ChannelClosed) } else { Ok(None) };
        }
        let ghost buf = self.read_buf@;
        let rest = self.read_buf.split_off(end);
        let mut head = Vec::new();
        std::mem::swap(&mut head, &mut self.read_buf);
        self.read_buf = rest;
        let payload = head.split_off(PREFIX_LEN);
        assert(payload@ =~= buf.subrange(PREFIX_LEN as int, end as int));
        Ok(Some(payload))
    }

    /// The same connection and buffers, carrying other message types from now
    /// on. No byte is sent, received or dropped.
    pub fn reinterpret<Tx2, Rx2>(self) -> (r: CommandChannel<Tx2, Rx2>)
        requires
            self.wf(),
        ensures
            r.wf(),
            r@ == self@,
    {
        CommandChannel {
            read_buf: self.read_buf,
            write_buf: self.write_buf,
            read_capacity: self.read_capacity,
            write_capacity: self.write_capacity,
            blocking: self.blocking,
            peer_closed: self.peer_closed,
            sent: PhantomData,
            received: PhantomData,
        }
    }
}

/// The bytes a channel in state `v` finds after `bytes` arrived from the stream.
pub open spec fn delivered(v: ChannelView, bytes: Seq<u8>) -> ChannelView {
    ChannelView { incoming: v.incoming + bytes, ..v }
}

/// Handshake round trip: a message written on a fresh end whose peer is
/// still there, and delivered to a fresh peer, is read back by that peer as
/// the very same bytes, and nothing is left behind on either side of the frame.
pub proof fn lemma_handshake_round_trip(sender: ChannelView, receiver: ChannelView, payload: Seq<u8>)
    requires
        sender.outgoing.len() == 0,
        !sender.peer_closed,
        receiver.incoming.len() == 0,
        payload.len() <= u32::MAX,
        PREFIX_LEN + payload.len() <= sender.write_capacity,
        PREFIX_LEN + payload.len() <= receiver.read_capacity,
    ensures
        write_outcome(sender, payload).1 == Ok::<(), ChannelError>(()),
        write_outcome(sender, payload).0.outgoing == frame(payload),
        read_outcome(delivered(receiver, write_outcome(sender, payload).0.outgoing)).1
            == Ok::<Option<Seq<u8>>, ChannelError>(Some(payload)),
        read_outcome(delivered(receiver, write_outcome(sender, payload).0.outgoing)).0 == receiver,
{
    assert(sender.outgoing + frame(payload) =~= frame(payload));
    assert(receiver.incoming + frame(payload) =~= frame(payload) + Seq::<u8>::empty());
    lemma_frame_round_trip(payload, Seq::empty(), receiver.read_capacity);
    assert(Seq::<u8>::empty() =~= receiver.incoming);
}

/// A read in nonblocking mode on a live channel that holds no whole frame
/// reports that no message is available and changes nothing.
pub proof fn lemma_nonblocking_read_without_data(v: ChannelView)
    requires
        v.incoming.len() == 0,
        !v.peer_closed,
    ensures
        read_outcome(ChannelView { blocking: false, ..v }) == (
            ChannelView { blocking: false, ..v },
            Ok::<Option<Seq<u8>>, ChannelError>(None),
        ),
{
}

/// A channel whose peer is gone before a whole frame arrived, as when the
/// inherited descriptor is already closed, fails its read with
/// `ChannelClosed` and keeps its state, whatever its mode.
pub proof fn lemma_closed_peer_read_fails(v: ChannelView)
    requires
        v.incoming.len() < PREFIX_LEN,
        v.peer_closed,
    ensures
        read_outcome(v) == (v, Err::<Option<Seq<u8>>, ChannelError>(ChannelError::ChannelClosed)),
{
}

/// Reinterpretation loses and duplicates nothing: a message written before
/// the type change and one written after it (on the reinterpreted channel,
/// whose state is the old one) reach a peer that never changed its types as
/// exactly those two messages, in that order.
pub proof fn lemma_reinterpret_keeps_stream(
    sender: ChannelView,
    reinterpreted: ChannelView,
    receiver: ChannelView,
    first: Seq<u8>,
    second: Seq<u8>,
)
    requires
        sender.outgoing.len() == 0,
        !sender.peer_closed,
        receiver.incoming.len() == 0,
        reinterpreted == write_outcome(sender, first).0,
        first.len() <= u32::MAX,
        second.len() <= u32::MAX,
        2 * PREFIX_LEN + first.len() + second.len() <= sender.write_capacity,
        PREFIX_LEN + first.len() <= receiver.read_capacity,
        PREFIX_LEN + second.len() <= receiver.read_capacity,
    ensures
        write_outcome(sender, first).1 == Ok::<(), ChannelError>(()),
        write_outcome(reinterpreted, second).1 == Ok::<(), ChannelError>(()),
        ({
            let arrived = delivered(receiver, write_outcome(reinterpreted, second).0.outgoing);
            &&& read_outcome(arrived).1 == Ok::<Option<Seq<u8>>, ChannelError>(Some(first))
            &&& read_outcome(read_outcome(arrived).0).1 == Ok::<Option<Seq<u8>>, ChannelError>(Some(second))
            &&& read_outcome(read_outcome(arrived).0).0 == receiver
        }),
{
    assert(sender.outgoing + frame(first) =~= frame(first));
    let bytes = frame(first) + frame(second);
    assert(receiver.incoming + bytes =~= frame(first) + frame(second));
    lemma_frame_round_trip(first, frame(second), receiver.read_capacity);
    assert(frame(second) =~= frame(second) + Seq::<u8>::empty());
    lemma_frame_round_trip(second, Seq::empty(), receiver.read_capacity);
    assert(Seq::<u8>::empty() =~= receiver.incoming);
}

} // verus!
