//! A live session: the descriptor pair, the child, and where requests go.

use vstd::prelude::*;
use vstd::slice::slice_to_vec;
use vstd::string::StringSliceAdditionalSpecFns;
use vstd::utf8::{encode_utf8, encode_utf8_decode_utf8, encode_utf8_valid_utf8};
use crate::bridge::{
    bridge_output, bridge_state_next, emitted, Bridge, BridgeOutput, BridgeState, ReadOutcome,
};
use crate::size::{set_terminal_size, window_of, SizeRequest, TerminalSize};

verus! {

/// The parent's record of one pseudo-terminal and the shell attached to it.
///
/// `slave_fd` is the number the slave end had when the pair was opened. The
/// parent closes that end once the child holds it, so that the master
/// reports end of stream when the shell exits; the number is kept to name
/// the device, not to reach it. Requests that address the device, a resize
/// among them, therefore go through the master end.
#[derive(Clone, Copy, Debug, PartialEq, Eq, Structural)]
pub struct PtySession {
    pub master_fd: i32,
    pub slave_fd: i32,
    pub child_pid: i32,
}

/// Bytes to write to a descriptor.
#[derive(Clone, Debug, PartialEq, Eq)]
pub struct WriteRequest {
    pub fd: i32,
    pub bytes: Vec<u8>,
}

/// Why input did not reach the shell. The session itself is not affected.
#[derive(Clone, Copy, Debug, PartialEq, Eq, Structural)]
pub enum InputError {
    /// The write failed.
    Failed { errno: i32 },
    /// The write took `written` bytes where `expected` were offered.
    Partial { written: usize, expected: usize },
}

/// The bytes that carry `text` to the shell: its UTF-8 encoding.
pub open spec fn input_bytes(text: Seq<char>) -> Seq<u8> {
    encode_utf8(text)
}

/// What the result of a write means for a request of `expected` bytes:
/// success only if every byte was taken.
pub open spec fn write_result(expected: usize, written: Result<usize, i32>) -> Result<
    (),
    InputError,
> {
    match written {
        Ok(count) => if count == expected {
            Ok(())
        } else {
            Err(InputError::Partial { written: count, expected })
        },
        Err(errno) => Err(InputError::Failed { errno }),
    }
}

impl PtySession {
    pub fn new(master_fd: i32, slave_fd: i32, child_pid: i32) -> (session: PtySession)
        ensures
            session == (PtySession { master_fd, slave_fd, child_pid }),
    {
        PtySession { master_fd, slave_fd, child_pid }
    }

    /// The write that delivers raw `bytes` as if typed at the terminal.
    pub fn write_input(&self, bytes: &[u8]) -> (request: WriteRequest)
        ensures
            request.fd == self.master_fd,
            request.bytes@ == bytes@,
    {
        WriteRequest { fd: self.master_fd, bytes: slice_to_vec(bytes) }
    }

    /// The write that delivers `text` to the shell.
    pub fn submit_input(&self, text: &str) -> (request: WriteRequest)
        ensures
            request.fd == self.master_fd,
            request.bytes@ == input_bytes(text@),
    {
        self.write_input(text.as_bytes())
    }

    /// The ioctl that sets the terminal to `rows` by `cols`.
    pub fn resize(&self, rows: u16, cols: u16) -> (request: SizeRequest)
        ensures
            request.fd == self.master_fd,
            request.size == window_of(TerminalSize { rows, cols }),
    {
        set_terminal_size(self.master_fd, rows, cols)
    }

    /// A running bridge on this session's master end.
    pub fn bridge(&self) -> (bridge: Bridge)
        ensures
            bridge == (Bridge { master_fd: self.master_fd, state: BridgeState::Running }),
    {
        Bridge::new(self.master_fd)
    }
}

/// Reads the result of the write that `request` asked for.
pub fn write_outcome(request: &WriteRequest, written: Result<usize, i32>) -> (outcome: Result<
    (),
    InputError,
>)
    ensures
        outcome == write_result(request.bytes.len(), written),
{
    let expected: usize = request.bytes.len();
    match written {
        Ok(count) => if count == expected {
            Ok(())
        } else {
            Err(InputError::Partial { written: count, expected })
        },
        Err(errno) => Err(InputError::Failed { errno }),
    }
}

/// Input that comes back as it went out is delivered as it was submitted.
/// When a read on the master end brings exactly the bytes that carried
/// `text` to the shell, as the echo of the line discipline does, a running
/// bridge delivers `text` itself as one chunk, and keeps running.
pub proof fn lemma_echo_is_delivered(text: Seq<char>)
    requires
        text.len() > 0,
    ensures
        bridge_output(BridgeState::Running, ReadOutcome::Data { bytes: input_bytes(text) })
            == (BridgeOutput::Emit { text }),
        bridge_state_next(BridgeState::Running, ReadOutcome::Data { bytes: input_bytes(text) })
            == BridgeState::Running,
        emitted(BridgeState::Running, seq![ReadOutcome::Data { bytes: input_bytes(text) }])
            == seq![text],
{
    let bytes = input_bytes(text);
    let outcomes = seq![ReadOutcome::Data { bytes }];
    encode_utf8_valid_utf8(text);
    encode_utf8_decode_utf8(text);
    assert(bytes.len() > 0);
    assert(bridge_output(BridgeState::Running, outcomes[0]) == (BridgeOutput::Emit { text }));
    assert(emitted(BridgeState::Running, outcomes.drop_first()) =~= Seq::<Seq<char>>::empty());
    assert(emitted(BridgeState::Running, outcomes) =~= seq![text]);
}

} // verus!
