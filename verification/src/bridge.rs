//! The output bridge: one read from the master end in, one chunk of text out.
//!
//! The bridge is a two-state machine. While it runs, every read that brought
//! bytes becomes one chunk, decoded leniently. A read of zero bytes, or a
//! failed read, closes it for good.

use vstd::prelude::*;
use vstd::utf8::{decode_utf8, decode_utf8_encode_utf8, encode_utf8, valid_utf8};

verus! {

/// The most bytes the bridge asks for in one read.
pub const READ_CAPACITY: usize = 1024;

/// Whether the bridge still reads.
#[derive(Clone, Copy, Debug, PartialEq, Eq, Structural)]
pub enum BridgeState {
    Running,
    Closed,
}

/// Why the bridge reads no more.
#[derive(Clone, Copy, Debug, PartialEq, Eq, Structural)]
pub enum StopReason {
    /// A read returned no bytes: the other end of the terminal is gone.
    EndOfStream,
    /// A read failed.
    ReadFailed { errno: i32 },
    /// The bridge had closed before this read was reported.
    AlreadyClosed,
}

/// A read to perform on the master end.
#[derive(Clone, Copy, Debug, PartialEq, Eq, Structural)]
pub struct ReadRequest {
    pub fd: i32,
    pub capacity: usize,
}

/// What one read on the master end returned.
#[derive(Clone, Debug, PartialEq, Eq)]
pub enum ReadEvent {
    /// The bytes that were read; none at end of stream.
    Data { bytes: Vec<u8> },
    /// The read failed.
    Failed { errno: i32 },
}

/// A read's outcome as a value of the model.
pub enum ReadOutcome {
    Data { bytes: Seq<u8> },
    Failed { errno: i32 },
}

impl View for ReadEvent {
    type V = ReadOutcome;

    open spec fn view(&self) -> ReadOutcome {
        match *self {
            ReadEvent::Data { bytes } => ReadOutcome::Data { bytes: bytes@ },
            ReadEvent::Failed { errno } => ReadOutcome::Failed { errno },
        }
    }
}

/// What the bridge asks of the host after a read.
#[derive(Clone, Debug, PartialEq, Eq)]
pub enum BridgeAction {
    /// Deliver `text` as one output event, then read again.
    Emit { text: String },
    /// Deliver nothing and stop reading.
    Stop { reason: StopReason },
}

/// A bridge action as a value of the model.
pub enum BridgeOutput {
    Emit { text: Seq<char> },
    Stop { reason: StopReason },
}

impl View for BridgeAction {
    type V = BridgeOutput;

    open spec fn view(&self) -> BridgeOutput {
        match *self {
            BridgeAction::Emit { text } => BridgeOutput::Emit { text: text@ },
            BridgeAction::Stop { reason } => BridgeOutput::Stop { reason },
        }
    }
}

/// The text of a lenient decoding of `bytes`, in which every ill-formed
/// stretch is replaced by U+FFFD.
pub uninterp spec fn utf8_lossy(bytes: Seq<u8>) -> Seq<char>;

/// `String::from_utf8_lossy`, made into an owned string. The result is named
/// by [`utf8_lossy`]; of well-formed input it is the plain decoding, since
/// then nothing is replaced.
#[verifier::external_body]
fn from_utf8_lossy(bytes: &[u8]) -> (text: String)
    ensures
        text@ == utf8_lossy(bytes@),
        valid_utf8(bytes@) ==> text@ == decode_utf8(bytes@),
{
    String::from_utf8_lossy(bytes).into_owned()
}

/// The text of the chunk made from the bytes of one read.
pub open spec fn chunk_text(bytes: Seq<u8>) -> Seq<char> {
    if valid_utf8(bytes) {
        decode_utf8(bytes)
    } else {
        utf8_lossy(bytes)
    }
}

/// The state after `outcome` was reported in `state`.
pub open spec fn bridge_state_next(state: BridgeState, outcome: ReadOutcome) -> BridgeState {
    match (state, outcome) {
        (BridgeState::Running, ReadOutcome::Data { bytes }) if bytes.len() > 0 =>
            BridgeState::Running,
        _ => BridgeState::Closed,
    }
}

/// The action that answers `outcome` reported in `state`.
pub open spec fn bridge_output(state: BridgeState, outcome: ReadOutcome) -> BridgeOutput {
    match state {
        BridgeState::Closed => BridgeOutput::Stop { reason: StopReason::AlreadyClosed },
        BridgeState::Running => match outcome {
            ReadOutcome::Data { bytes } => if bytes.len() == 0 {
                BridgeOutput::Stop { reason: StopReason::EndOfStream }
            } else {
                BridgeOutput::Emit { text: chunk_text(bytes) }
            },
            ReadOutcome::Failed { errno } => BridgeOutput::Stop {
                reason: StopReason::ReadFailed { errno },
            },
        },
    }
}

/// Decodes the bytes of one read into the text of one chunk.
pub fn decode_chunk(bytes: &[u8]) -> (text: String)
    ensures
        text@ == chunk_text(bytes@),
{
    from_utf8_lossy(bytes)
}

/// The bridge of one session.
#[derive(Clone, Copy, Debug, PartialEq, Eq, Structural)]
pub struct Bridge {
    pub master_fd: i32,
    pub state: BridgeState,
}

impl Bridge {
    /// A running bridge that drains `master_fd`.
    pub fn new(master_fd: i32) -> (bridge: Bridge)
        ensures
            bridge == (Bridge { master_fd, state: BridgeState::Running }),
    {
        Bridge { master_fd, state: BridgeState::Running }
    }

    /// The read to perform next; none once the bridge has closed.
    pub fn read_request(&self) -> (request: Option<ReadRequest>)
        ensures
            request == match self.state {
                BridgeState::Running => Some(
                    ReadRequest { fd: self.master_fd, capacity: READ_CAPACITY },
                ),
                BridgeState::Closed => None,
            },
    {
        match self.state {
            BridgeState::Running => Some(
                ReadRequest { fd: self.master_fd, capacity: READ_CAPACITY },
            ),
            BridgeState::Closed => None,
        }
    }

    /// Takes the outcome of a read and says what to deliver.
    pub fn on_read(&mut self, event: ReadEvent) -> (action: BridgeAction)
        ensures
            final(self).master_fd == old(self).master_fd,
            final(self).state == bridge_state_next(old(self).state, event@),
            action@ == bridge_output(old(self).state, event@),
    {
        match self.state {
            BridgeState::Closed => BridgeAction::Stop { reason: StopReason::AlreadyClosed },
            BridgeState::Running => match event {
                ReadEvent::Data { bytes } => {
                    if bytes.len() == 0 {
                        self.state = BridgeState::Closed;
                        BridgeAction::Stop { reason: StopReason::EndOfStream }
                    } else {
                        BridgeAction::Emit { text: decode_chunk(bytes.as_slice()) }
                    }
                },
                ReadEvent::Failed { errno } => {
                    self.state = BridgeState::Closed;
                    BridgeAction::Stop { reason: StopReason::ReadFailed { errno } }
                },
            },
        }
    }
}

/// Whether a read brought bytes, so that the bridge goes on.
pub open spec fn carries_data(outcome: ReadOutcome) -> bool {
    outcome matches ReadOutcome::Data { bytes } && bytes.len() > 0
}

/// The bytes a read brought; none if it failed.
pub open spec fn read_bytes(outcome: ReadOutcome) -> Seq<u8> {
    match outcome {
        ReadOutcome::Data { bytes } => bytes,
        ReadOutcome::Failed { .. } => Seq::empty(),
    }
}

/// The state of a bridge that was in `state` and saw `outcomes` one by one.
pub open spec fn state_after(state: BridgeState, outcomes: Seq<ReadOutcome>) -> BridgeState
    decreases outcomes.len(),
{
    if outcomes.len() == 0 {
        state
    } else {
        state_after(bridge_state_next(state, outcomes[0]), outcomes.drop_first())
    }
}

/// The chunks a bridge delivers, in order of delivery, when it starts in
/// `state` and sees `outcomes` one by one.
pub open spec fn emitted(state: BridgeState, outcomes: Seq<ReadOutcome>) -> Seq<Seq<char>>
    decreases outcomes.len(),
{
    if outcomes.len() == 0 {
        Seq::empty()
    } else {
        let rest = emitted(bridge_state_next(state, outcomes[0]), outcomes.drop_first());
        match bridge_output(state, outcomes[0]) {
            BridgeOutput::Emit { text } => seq![text] + rest,
            BridgeOutput::Stop { .. } => rest,
        }
    }
}

/// A closed bridge stays closed and delivers nothing, whatever is reported.
pub proof fn lemma_closed_is_final(outcomes: Seq<ReadOutcome>)
    ensures
        state_after(BridgeState::Closed, outcomes) == BridgeState::Closed,
        emitted(BridgeState::Closed, outcomes) == Seq::<Seq<char>>::empty(),
    decreases outcomes.len(),
{
    if outcomes.len() > 0 {
        lemma_closed_is_final(outcomes.drop_first());
    }
}

/// Once a read brings no bytes or fails, the bridge is closed and no later
/// read adds a chunk: what was delivered is what the reads before it gave.
pub proof fn lemma_nothing_after_close(state: BridgeState, outcomes: Seq<ReadOutcome>, at: int)
    requires
        0 <= at < outcomes.len(),
        !carries_data(outcomes[at]),
    ensures
        state_after(state, outcomes) == BridgeState::Closed,
        emitted(state, outcomes) == emitted(state, outcomes.take(at)),
    decreases at,
{
    let next = bridge_state_next(state, outcomes[0]);
    let tail = outcomes.drop_first();
    if at == 0 {
        lemma_closed_is_final(tail);
        assert(outcomes.take(0).len() == 0);
    } else {
        lemma_nothing_after_close(next, tail, at - 1);
        assert(outcomes.take(at).drop_first() == tail.take(at - 1));
        assert(outcomes.take(at)[0] == outcomes[0]);
    }
}

/// While every read brings bytes, a running bridge delivers one chunk per
/// read, in the order of the reads, and keeps running.
pub proof fn lemma_one_chunk_per_read(outcomes: Seq<ReadOutcome>)
    requires
        forall|i: int| 0 <= i < outcomes.len() ==> carries_data(#[trigger] outcomes[i]),
    ensures
        state_after(BridgeState::Running, outcomes) == BridgeState::Running,
        emitted(BridgeState::Running, outcomes) == outcomes.map_values(
            |outcome: ReadOutcome| chunk_text(read_bytes(outcome)),
        ),
    decreases outcomes.len(),
{
    let chunks = outcomes.map_values(|outcome: ReadOutcome| chunk_text(read_bytes(outcome)));
    if outcomes.len() == 0 {
        assert(emitted(BridgeState::Running, outcomes) =~= chunks);
    } else {
        let tail = outcomes.drop_first();
        assert(carries_data(outcomes[0]));
        assert forall|i: int| 0 <= i < tail.len() implies carries_data(#[trigger] tail[i]) by {
            assert(tail[i] == outcomes[i + 1]);
        }
        lemma_one_chunk_per_read(tail);
        assert(emitted(BridgeState::Running, outcomes) =~= chunks);
    }
}

/// Encoding a concatenation is concatenating the encodings.
pub proof fn lemma_encode_concat(left: Seq<char>, right: Seq<char>)
    ensures
        encode_utf8(left + right) == encode_utf8(left) + encode_utf8(right),
    decreases left.len(),
{
    if left.len() == 0 {
        assert(left + right =~= right);
        assert(encode_utf8(left) + encode_utf8(right) =~= encode_utf8(right));
    } else {
        lemma_encode_concat(left.drop_first(), right);
        assert((left + right).drop_first() =~= left.drop_first() + right);
        assert((left + right)[0] == left[0]);
        assert(encode_utf8(left + right) =~= encode_utf8(left) + encode_utf8(right));
    }
}

/// While every read brings well-formed UTF-8, the chunks delivered, joined
/// in order and encoded again, are exactly the bytes that were read, in the
/// order they were read.
pub proof fn lemma_chunks_reproduce_stream(outcomes: Seq<ReadOutcome>)
    requires
        forall|i: int|
            0 <= i < outcomes.len() ==> carries_data(#[trigger] outcomes[i]) && valid_utf8(
                read_bytes(outcomes[i]),
            ),
    ensures
        encode_utf8(emitted(BridgeState::Running, outcomes).flatten()) == outcomes.map_values(
            |outcome: ReadOutcome| read_bytes(outcome),
        ).flatten(),
    decreases outcomes.len(),
{
    let chunks = emitted(BridgeState::Running, outcomes);
    let reads = outcomes.map_values(|outcome: ReadOutcome| read_bytes(outcome));
    if outcomes.len() == 0 {
        assert(chunks.flatten() =~= Seq::<char>::empty());
        assert(reads.flatten() =~= Seq::<u8>::empty());
    } else {
        let tail = outcomes.drop_first();
        let tail_chunks = emitted(BridgeState::Running, tail);
        let tail_reads = tail.map_values(|outcome: ReadOutcome| read_bytes(outcome));
        let first = read_bytes(outcomes[0]);
        assert(carries_data(outcomes[0]) && valid_utf8(first));
        assert forall|i: int| 0 <= i < tail.len() implies carries_data(#[trigger] tail[i])
            && valid_utf8(read_bytes(tail[i])) by {
            assert(tail[i] == outcomes[i + 1]);
        }
        lemma_chunks_reproduce_stream(tail);
        assert(chunks == seq![chunk_text(first)] + tail_chunks);
        assert(chunks.first() == chunk_text(first));
        assert(chunks.drop_first() =~= tail_chunks);
        assert(chunks.flatten() == decode_utf8(first) + tail_chunks.flatten());
        lemma_encode_concat(decode_utf8(first), tail_chunks.flatten());
        decode_utf8_encode_utf8(first);
        assert(reads.first() == first);
        assert(reads.drop_first() =~= tail_reads);
        assert(reads.flatten() == first + tail_reads.flatten());
    }
}

} // verus!
