use pipe_console::error::ErrorKind;
use pipe_console::named_pipe::OverlappedNext;
use pipe_console::named_pipe::WriteProgress;
use pipe_console::named_pipe::overlapped_issue_step;
use pipe_console::named_pipe::read_buffer_for;
use pipe_console::named_pipe::truncate_to_read;
use pipe_console::named_pipe::write_remainder;
use pipe_console::relay::ChannelReadEvent;
use pipe_console::relay::ChannelToTerminal;
use pipe_console::relay::PumpState;
use pipe_console::relay::TerminalReadEvent;
use pipe_console::relay::run_channel_pump;
use pipe_console::relay::run_terminal_pump;

#[test]
fn terminal_pump_relays_bytes_across_chunk_splits() {
    // The same input, split into chunks three different ways, always reaches
    // the channel as the same byte sequence, in order.
    let whole = vec![TerminalReadEvent::Data(b"abcdef".to_vec())];
    let pairs = vec![
        TerminalReadEvent::Data(b"ab".to_vec()),
        TerminalReadEvent::Data(b"cd".to_vec()),
        TerminalReadEvent::Data(b"ef".to_vec()),
    ];
    let singles = vec![
        TerminalReadEvent::Data(b"a".to_vec()),
        TerminalReadEvent::Data(b"bcde".to_vec()),
        TerminalReadEvent::Data(b"f".to_vec()),
    ];
    for events in [whole, pairs, singles] {
        let r = run_terminal_pump(&events);
        assert_eq!(r.channel_output, b"abcdef".to_vec());
        assert_eq!(r.pump.state, PumpState::Running);
    }
}

#[test]
fn terminal_pump_retries_after_interruption() {
    let events = vec![
        TerminalReadEvent::Data(b"ab".to_vec()),
        TerminalReadEvent::Interrupted,
        TerminalReadEvent::Data(b"cd".to_vec()),
    ];
    let r = run_terminal_pump(&events);
    assert_eq!(r.channel_output, b"abcd".to_vec());
    assert_eq!(r.pump.state, PumpState::Running);
}

#[test]
fn terminal_pump_finishes_on_empty_read() {
    let events = vec![
        TerminalReadEvent::Data(b"ab".to_vec()),
        TerminalReadEvent::Data(Vec::new()),
        TerminalReadEvent::Data(b"never read".to_vec()),
    ];
    let r = run_terminal_pump(&events);
    assert_eq!(r.channel_output, b"ab".to_vec());
    assert_eq!(r.pump.state, PumpState::Finished);
}

#[test]
fn terminal_pump_finishes_on_cancellation() {
    let events = vec![
        TerminalReadEvent::Data(b"ab".to_vec()),
        TerminalReadEvent::Aborted,
        TerminalReadEvent::Data(b"never read".to_vec()),
    ];
    let r = run_terminal_pump(&events);
    assert_eq!(r.channel_output, b"ab".to_vec());
    assert_eq!(r.pump.state, PumpState::Finished);
}

#[test]
fn terminal_pump_ends_with_error_on_failure() {
    let events = vec![
        TerminalReadEvent::Data(b"ab".to_vec()),
        TerminalReadEvent::Failed(ErrorKind::Io),
    ];
    let r = run_terminal_pump(&events);
    assert_eq!(r.channel_output, b"ab".to_vec());
    assert_eq!(r.pump.state, PumpState::FinishedWithError(ErrorKind::Io));
}

#[test]
fn channel_pump_delivers_to_terminal_and_sink_alike() {
    let events = vec![
        ChannelReadEvent::Data(b"he".to_vec()),
        ChannelReadEvent::Empty,
        ChannelReadEvent::Data(b"llo".to_vec()),
    ];
    let r = run_channel_pump(&events, true);
    assert_eq!(r.terminal_output, b"hello".to_vec());
    assert_eq!(r.sink_output, b"hello".to_vec());
    assert_eq!(r.pump.state, PumpState::Running);
}

#[test]
fn channel_pump_without_sink_writes_terminal_only() {
    let events = vec![ChannelReadEvent::Data(b"hello".to_vec())];
    let r = run_channel_pump(&events, false);
    assert_eq!(r.terminal_output, b"hello".to_vec());
    assert_eq!(r.sink_output, Vec::<u8>::new());
}

#[test]
fn no_data_never_ends_the_channel_pump() {
    // A long run of empty probes and zero-length reads only ever backs off;
    // the direction is still running afterwards.
    let mut events = vec![ChannelReadEvent::Empty; 50];
    events.push(ChannelReadEvent::Data(Vec::new()));
    events.extend((0..50).map(|_| ChannelReadEvent::Empty));
    let r = run_channel_pump(&events, true);
    assert_eq!(r.pump.state, PumpState::Running);
    assert!(!r.pump.cancel_requested);
    assert_eq!(r.terminal_output, Vec::<u8>::new());
}

#[test]
fn disconnect_finishes_channel_pump_and_cancels_sibling() {
    let events = vec![
        ChannelReadEvent::Data(b"bye".to_vec()),
        ChannelReadEvent::Disconnected,
        ChannelReadEvent::Data(b"never read".to_vec()),
    ];
    let r = run_channel_pump(&events, true);
    assert_eq!(r.pump.state, PumpState::Finished);
    assert!(r.pump.cancel_requested);
    assert_eq!(r.terminal_output, b"bye".to_vec());
    assert_eq!(r.sink_output, b"bye".to_vec());

    // The cancellation surfaces in the sibling as an aborted read, which ends
    // it gracefully without further local input.
    let sibling = vec![TerminalReadEvent::Aborted];
    let s = run_terminal_pump(&sibling);
    assert_eq!(s.pump.state, PumpState::Finished);
}

#[test]
fn failed_cancellation_ends_channel_pump_with_that_error() {
    let mut pump = ChannelToTerminal::new();
    let data = ChannelReadEvent::Data(b"bye".to_vec());
    let _ = pump.on_read(&data);
    let disconnect = ChannelReadEvent::Disconnected;
    let _ = pump.on_read(&disconnect);
    assert!(pump.cancel_requested);
    assert_eq!(pump.state, PumpState::Finished);
    // The sibling's read could not be unblocked: not a graceful end.
    pump.on_cancel_error(ErrorKind::Io);
    assert_eq!(pump.state, PumpState::FinishedWithError(ErrorKind::Io));
}

#[test]
fn channel_pump_ends_with_error_on_failure() {
    let events = vec![
        ChannelReadEvent::Data(b"x".to_vec()),
        ChannelReadEvent::Failed(ErrorKind::Io),
    ];
    let r = run_channel_pump(&events, true);
    assert_eq!(r.pump.state, PumpState::FinishedWithError(ErrorKind::Io));
    assert!(!r.pump.cancel_requested);
    assert_eq!(r.terminal_output, b"x".to_vec());
}

#[test]
fn ping_pong_round_trip_scenario() {
    // A client attached to endpoint "test-channel" types "ping\n": the
    // terminal-to-channel direction hands exactly those five bytes to the
    // channel's write side.
    let typed = vec![TerminalReadEvent::Data(b"ping\n".to_vec())];
    let outbound = run_terminal_pump(&typed);
    assert_eq!(outbound.channel_output, b"ping\n".to_vec());
    assert_eq!(outbound.channel_output.len(), 5);

    // The listener answers "pong\n": the channel-to-terminal direction writes
    // exactly those bytes to the console, and the redirection sink holds the
    // same contents.
    let answered = vec![ChannelReadEvent::Data(b"pong\n".to_vec())];
    let inbound = run_channel_pump(&answered, true);
    assert_eq!(inbound.terminal_output, b"pong\n".to_vec());
    assert_eq!(inbound.sink_output, b"pong\n".to_vec());
}

#[test]
fn write_remainder_complete() {
    let pending = b"abcd".to_vec();
    match write_remainder(&pending, 4) {
        WriteProgress::Complete => {},
        WriteProgress::Incomplete(rest) => panic!("unexpected remainder {:?}", rest),
    }
}

#[test]
fn write_remainder_partial() {
    let pending = b"abcd".to_vec();
    match write_remainder(&pending, 1) {
        WriteProgress::Complete => panic!("expected a remainder"),
        WriteProgress::Incomplete(rest) => assert_eq!(rest, b"bcd".to_vec()),
    }
}

#[test]
fn write_remainder_nothing_written() {
    let pending = b"abcd".to_vec();
    match write_remainder(&pending, 0) {
        WriteProgress::Complete => panic!("expected a remainder"),
        WriteProgress::Incomplete(rest) => assert_eq!(rest, b"abcd".to_vec()),
    }
}

#[test]
fn pending_operation_waits_anything_else_aborts() {
    assert_eq!(
        overlapped_issue_step(ErrorKind::IoPending),
        OverlappedNext::WaitForCompletion
    );
    assert_eq!(
        overlapped_issue_step(ErrorKind::Disconnected),
        OverlappedNext::Abort(ErrorKind::Disconnected)
    );
    assert_eq!(
        overlapped_issue_step(ErrorKind::Io),
        OverlappedNext::Abort(ErrorKind::Io)
    );
}

#[test]
fn read_buffer_is_sized_to_available_bytes() {
    let buf = read_buffer_for(17);
    assert_eq!(buf.len(), 17);
    assert!(buf.iter().all(|&b| b == 0));
    let empty = read_buffer_for(0);
    assert_eq!(empty.len(), 0);
}

#[test]
fn truncate_keeps_only_the_bytes_read() {
    let mut buf = b"abcdef".to_vec();
    truncate_to_read(&mut buf, 2);
    assert_eq!(buf, b"ab".to_vec());
    let mut all = b"xy".to_vec();
    truncate_to_read(&mut all, 2);
    assert_eq!(all, b"xy".to_vec());
}
