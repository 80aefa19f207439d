use rusterm::stream::{ExitCause, LoopNext, ReadOutcome, StreamAction, StreamReader};

fn bytes(s: &str) -> ReadOutcome {
    ReadOutcome::Read(s.as_bytes().to_vec())
}

#[test]
fn bytes_become_output() {
    let mut reader = StreamReader::new();
    assert_eq!(reader.on_read(bytes("hi")), StreamAction::Emit("hi".to_string()));
    assert!(!reader.exited());
}

#[test]
fn text_is_decoded_and_not_handed_back_raw() {
    let mut reader = StreamReader::new();
    let action = reader.on_read(ReadOutcome::Read(vec![0xe2, 0x82, 0xac, 0x21]));
    assert_eq!(action, StreamAction::Emit("\u{20ac}!".to_string()));
}

#[test]
fn invalid_bytes_are_replaced() {
    let mut reader = StreamReader::new();
    let action = reader.on_read(ReadOutcome::Read(vec![b'a', 0xff, b'b']));
    assert_eq!(action, StreamAction::Emit("a\u{fffd}b".to_string()));
}

#[test]
fn no_bytes_end_the_stream() {
    let mut reader = StreamReader::new();
    assert_eq!(reader.on_read(ReadOutcome::Read(vec![])), StreamAction::Exit(ExitCause::Closed));
    assert!(reader.exited());
}

#[test]
fn a_failed_read_ends_the_stream() {
    let mut reader = StreamReader::new();
    assert_eq!(
        reader.on_read(ReadOutcome::Failed("reset".to_string())),
        StreamAction::Exit(ExitCause::Failed("reset".to_string()))
    );
    assert!(reader.exited());
}

#[test]
fn a_read_that_would_block_is_waited_out() {
    let mut reader = StreamReader::new();
    let action = reader.on_read(ReadOutcome::WouldBlock);
    assert_eq!(action, StreamAction::Wait);
    assert_eq!(action.loop_next(), LoopNext::Wait);
    assert!(!reader.exited());
}

#[test]
fn exit_is_published_once_and_last() {
    let reads = vec![
        bytes("a"),
        ReadOutcome::WouldBlock,
        bytes("b"),
        ReadOutcome::Read(vec![]),
        bytes("late"),
        ReadOutcome::Failed("x".to_string()),
        ReadOutcome::Read(vec![]),
    ];
    let mut reader = StreamReader::new();
    let mut published = Vec::new();
    for read in reads {
        match reader.on_read(read) {
            StreamAction::Emit(text) => published.push(format!("out:{}", text)),
            StreamAction::Exit(_) => published.push("exit".to_string()),
            StreamAction::Wait | StreamAction::Stop => {}
        }
    }
    assert_eq!(published, vec!["out:a", "out:b", "exit"]);
}

#[test]
fn output_keeps_the_order_of_arrival() {
    let mut reader = StreamReader::new();
    let mut published = Vec::new();
    for i in 0..50 {
        if i % 7 == 3 {
            assert_eq!(reader.on_read(ReadOutcome::WouldBlock), StreamAction::Wait);
        }
        if let StreamAction::Emit(text) = reader.on_read(bytes(&format!("chunk{}", i))) {
            published.push(text);
        }
    }
    let expected: Vec<String> = (0..50).map(|i| format!("chunk{}", i)).collect();
    assert_eq!(published, expected);
}

#[test]
fn after_the_end_every_read_is_stopped() {
    let mut reader = StreamReader::new();
    reader.on_end(ExitCause::Closed);
    assert_eq!(reader.on_read(bytes("x")), StreamAction::Stop);
    assert_eq!(reader.on_read(ReadOutcome::WouldBlock), StreamAction::Stop);
    assert_eq!(reader.on_text("y".to_string()), StreamAction::Stop);
    assert_eq!(reader.on_end(ExitCause::Failed("z".to_string())), StreamAction::Stop);
    assert!(reader.exited());
}

#[test]
fn how_the_loop_goes_on() {
    assert_eq!(StreamAction::Emit("a".to_string()).loop_next(), LoopNext::ReadOn);
    assert_eq!(StreamAction::Exit(ExitCause::Closed).loop_next(), LoopNext::Leave);
    assert_eq!(StreamAction::Stop.loop_next(), LoopNext::Leave);
}
