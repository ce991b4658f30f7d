use pty_session::bridge::{
    decode_chunk, Bridge, BridgeAction, BridgeState, ReadEvent, ReadRequest, StopReason,
    READ_CAPACITY,
};
use pty_session::session::PtySession;

fn data(bytes: &[u8]) -> ReadEvent {
    ReadEvent::Data { bytes: bytes.to_vec() }
}

fn emit(text: &str) -> BridgeAction {
    BridgeAction::Emit { text: text.to_string() }
}

fn drain(bridge: &mut Bridge, reads: Vec<ReadEvent>) -> Vec<String> {
    let mut chunks = Vec::new();
    for read in reads {
        if let BridgeAction::Emit { text } = bridge.on_read(read) {
            chunks.push(text);
        }
    }
    chunks
}

#[test]
fn running_bridge_asks_for_up_to_1024_bytes() {
    let bridge = Bridge::new(5);
    assert_eq!(bridge.state, BridgeState::Running);
    assert_eq!(bridge.read_request(), Some(ReadRequest { fd: 5, capacity: 1024 }));
    assert_eq!(READ_CAPACITY, 1024);
}

#[test]
fn one_read_gives_one_chunk() {
    let mut bridge = Bridge::new(5);
    assert_eq!(bridge.on_read(data(b"hello")), emit("hello"));
    assert_eq!(bridge.state, BridgeState::Running);
    assert_eq!(bridge.master_fd, 5);
}

#[test]
fn zero_bytes_close_the_bridge() {
    let mut bridge = Bridge::new(5);
    assert_eq!(
        bridge.on_read(data(b"")),
        BridgeAction::Stop { reason: StopReason::EndOfStream }
    );
    assert_eq!(bridge.state, BridgeState::Closed);
    assert_eq!(bridge.read_request(), None);
}

#[test]
fn read_error_closes_the_bridge() {
    let mut bridge = Bridge::new(5);
    assert_eq!(
        bridge.on_read(ReadEvent::Failed { errno: 5 }),
        BridgeAction::Stop { reason: StopReason::ReadFailed { errno: 5 } }
    );
    assert_eq!(bridge.state, BridgeState::Closed);
    assert_eq!(bridge.read_request(), None);
}

#[test]
fn nothing_is_delivered_after_the_shell_exits() {
    let session = PtySession::new(5, 6, 100);
    let exit = session.submit_input("exit\n");
    assert_eq!(exit.bytes, b"exit\n".to_vec());
    let mut bridge = session.bridge();
    let chunks = drain(
        &mut bridge,
        vec![data(b"exit\r\n"), data(b""), data(b"late"), data(b"later")],
    );
    assert_eq!(chunks, vec!["exit\r\n".to_string()]);
    assert_eq!(bridge.state, BridgeState::Closed);
    assert_eq!(
        bridge.on_read(data(b"more")),
        BridgeAction::Stop { reason: StopReason::AlreadyClosed }
    );
    assert_eq!(
        bridge.on_read(ReadEvent::Failed { errno: 5 }),
        BridgeAction::Stop { reason: StopReason::AlreadyClosed }
    );
    assert_eq!(bridge.state, BridgeState::Closed);
}

#[test]
fn chunks_keep_the_order_of_the_reads() {
    let mut bridge = Bridge::new(5);
    let reads = vec![data(b"one "), data(b"two "), data("dr\u{e9}i ".as_bytes()), data(b"four")];
    let chunks = drain(&mut bridge, reads);
    assert_eq!(chunks, vec!["one ", "two ", "dr\u{e9}i ", "four"]);
    assert_eq!(chunks.concat().as_bytes(), "one two dr\u{e9}i four".as_bytes());
    assert_eq!(bridge.state, BridgeState::Running);
}

#[test]
fn ill_formed_bytes_are_replaced() {
    assert_eq!(decode_chunk(&[0x68, 0xff, 0x69]), "h\u{fffd}i");
    assert_eq!(decode_chunk(&[0x80]), "\u{fffd}");
    assert_eq!(decode_chunk(b"plain"), "plain");
    assert_eq!(decode_chunk(&[0xe2, 0x82, 0xac]), "\u{20ac}");
}

#[test]
fn character_split_over_two_reads_is_replaced_in_both() {
    let mut bridge = Bridge::new(5);
    let chunks = drain(&mut bridge, vec![data(&[0x61, 0xc3]), data(&[0xa9, 0x62])]);
    assert_eq!(chunks, vec!["a\u{fffd}", "\u{fffd}b"]);
    assert_eq!(bridge.state, BridgeState::Running);
}

#[test]
fn read_larger_than_the_capacity_is_still_one_chunk() {
    let mut bridge = Bridge::new(5);
    let bytes = vec![b'x'; 2000];
    let expected: String = "x".repeat(2000);
    assert_eq!(bridge.on_read(ReadEvent::Data { bytes }), BridgeAction::Emit { text: expected });
}

#[test]
fn submitted_text_that_is_echoed_comes_back_verbatim() {
    let session = PtySession::new(5, 6, 100);
    let mut bridge = session.bridge();
    for text in ["ls -la\n", "a", "echo 'x y'\t|wc\n", "gr\u{fc}\u{df}e \u{4e16}\u{754c}"] {
        let request = session.submit_input(text);
        assert_eq!(request.fd, 5);
        let echoed = ReadEvent::Data { bytes: request.bytes };
        assert_eq!(bridge.on_read(echoed), emit(text));
    }
}

#[test]
fn echo_hi_shows_hi_and_then_a_prompt() {
    let session = PtySession::new(9, 10, 555);
    let request = session.submit_input("echo hi\n");
    assert_eq!(request.fd, 9);
    assert_eq!(request.bytes, b"echo hi\n".to_vec());
    let mut bridge = session.bridge();
    let chunks = drain(&mut bridge, vec![data(b"echo hi\r\n"), data(b"hi\r\n"), data(b"bash-5.1$ ")]);
    assert_eq!(chunks.len(), 3);
    let output = chunks.concat();
    let hi = output.find("hi\r\n").map(|at| at + 4);
    let prompt = output.rfind("$ ");
    assert!(hi.is_some() && prompt.is_some());
    assert!(hi <= prompt);
    assert_eq!(output, "echo hi\r\nhi\r\nbash-5.1$ ");
}
