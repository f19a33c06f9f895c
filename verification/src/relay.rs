//! The duplex relay: one directional pump per direction, each a state machine
//! over the events its reads report.
//!
//! The terminal-to-channel pump turns console reads into channel writes; the
//! channel-to-terminal pump turns channel reads into console writes and,
//! when a redirection sink is configured, appends the same bytes to it. The
//! reads and writes themselves are made outside the library, which is handed
//! each outcome as an event and answers with the action to take next. The
//! ghost byte logs in the pump states pin down that each direction forwards
//! exactly the bytes it read, in order.

use vstd::prelude::*;

use crate::error::ErrorKind;

verus! {

/// How long the channel-to-terminal pump sleeps when no data is ready, and
/// the terminal-to-channel pump after an interrupted read, in milliseconds.
pub const POLL_BACKOFF_MILLIS: u64 = 100;

/// The chunk size of one console read, in bytes.
pub const TERMINAL_CHUNK_BYTES: usize = 1024;

/// Where one relay direction stands.
#[derive(Clone, Copy, Debug, PartialEq, Eq, Structural)]
pub enum PumpState {
    /// The direction is still moving bytes.
    Running,
    /// The direction ended gracefully: end of input, cancellation, or the
    /// peer disconnecting.
    Finished,
    /// The direction ended on a fatal failure.
    FinishedWithError(ErrorKind),
}

/// What one console read reported to the terminal-to-channel pump.
#[derive(Clone, Debug)]
pub enum TerminalReadEvent {
    /// The bytes the read filled in; an empty chunk is the natural end of the
    /// input.
    Data(Vec<u8>),
    /// The call was interrupted by an external signal.
    Interrupted,
    /// The pending read was deliberately canceled.
    Aborted,
    /// Any other failure, already classified.
    Failed(ErrorKind),
}

/// What the terminal-to-channel pump asks for next.
#[derive(Debug)]
pub enum TerminalPumpAction {
    /// Write exactly these bytes to the channel, whole.
    Forward(Vec<u8>),
    /// Sleep for `POLL_BACKOFF_MILLIS`, then read again.
    Backoff,
    /// The direction is over; no further work.
    Stop,
}

/// The state the terminal-to-channel pump is in after one read event.
pub open spec fn spec_terminal_step_state(ev: TerminalReadEvent) -> PumpState {
    match ev {
        TerminalReadEvent::Data(b) => if b@.len() == 0 {
            PumpState::Finished
        } else {
            PumpState::Running
        },
        TerminalReadEvent::Interrupted => PumpState::Running,
        TerminalReadEvent::Aborted => PumpState::Finished,
        TerminalReadEvent::Failed(k) => PumpState::FinishedWithError(k),
    }
}

/// The bytes one read event hands on to the channel.
pub open spec fn spec_terminal_chunk(ev: TerminalReadEvent) -> Seq<u8> {
    match ev {
        TerminalReadEvent::Data(b) => b@,
        _ => Seq::empty(),
    }
}

/// The terminal-to-channel pump: reads console chunks and forwards them to
/// the channel verbatim.
pub struct TerminalToChannel {
    /// Where this direction stands.
    pub state: PumpState,
    /// Every byte handed to the channel so far, in order.
    pub forwarded: Ghost<Seq<u8>>,
}

impl TerminalToChannel {
    /// A pump that has moved nothing yet.
    pub fn new() -> (p: TerminalToChannel)
        ensures
            p.state == PumpState::Running,
            p.forwarded@ == Seq::<u8>::empty(),
    {
        TerminalToChannel { state: PumpState::Running, forwarded: Ghost(Seq::empty()) }
    }

    /// Whether the direction is still moving bytes.
    pub fn is_running(&self) -> (b: bool)
        ensures
            b == (self.state is Running),
    {
        match self.state {
            PumpState::Running => true,
            _ => false,
        }
    }

    /// React to one console read: forward a non-empty chunk verbatim, back
    /// off after an interruption, finish on cancellation or on the natural
    /// end of input, and end with the error on any other failure.
    pub fn on_read(&mut self, ev: &TerminalReadEvent) -> (a: TerminalPumpAction)
        requires
            old(self).state == PumpState::Running,
        ensures
            final(self).state == spec_terminal_step_state(*ev),
            final(self).forwarded@ == old(self).forwarded@ + spec_terminal_chunk(*ev),
            a matches TerminalPumpAction::Forward(out) ==> out@ == spec_terminal_chunk(*ev),
            (a is Forward <==> (*ev matches TerminalReadEvent::Data(b) && b@.len() > 0)),
            (a is Backoff <==> *ev is Interrupted),
    {
        match ev {
            TerminalReadEvent::Data(b) => {
                if b.len() == 0 {
                    self.state = PumpState::Finished;
                    TerminalPumpAction::Stop
                } else {
                    self.forwarded = Ghost(self.forwarded@ + b@);
                    TerminalPumpAction::Forward(clone_bytes(b))
                }
            },
            TerminalReadEvent::Interrupted => TerminalPumpAction::Backoff,
            TerminalReadEvent::Aborted => {
                self.state = PumpState::Finished;
                TerminalPumpAction::Stop
            },
            TerminalReadEvent::Failed(k) => {
                self.state = PumpState::FinishedWithError(*k);
                TerminalPumpAction::Stop
            },
        }
    }

    /// A channel write failed: the direction ends with that error.
    pub fn on_write_error(&mut self, k: ErrorKind)
        requires
            old(self).state == PumpState::Running,
        ensures
            final(self).state == PumpState::FinishedWithError(k),
            final(self).forwarded@ == old(self).forwarded@,
    {
        self.state = PumpState::FinishedWithError(k);
    }
}

/// What one channel probe or read reported to the channel-to-terminal pump.
#[derive(Clone, Debug)]
pub enum ChannelReadEvent {
    /// The bytes the read returned.
    Data(Vec<u8>),
    /// No bytes were ready; not an error and never the end of the stream.
    Empty,
    /// The peer closed the endpoint.
    Disconnected,
    /// Any other failure, already classified.
    Failed(ErrorKind),
}

/// What the channel-to-terminal pump asks for next.
#[derive(Debug)]
pub enum ChannelPumpAction {
    /// Write exactly these bytes to the terminal and, if a sink is
    /// configured, append the same bytes to it.
    Deliver(Vec<u8>),
    /// Sleep for `POLL_BACKOFF_MILLIS`, then probe again.
    Backoff,
    /// Cancel the sibling direction's pending console read, then stop: the
    /// peer is gone.
    CancelTerminalRead,
    /// The direction is over; no further work.
    Stop,
}

/// The state the channel-to-terminal pump is in after one read event.
pub open spec fn spec_channel_step_state(ev: ChannelReadEvent) -> PumpState {
    match ev {
        ChannelReadEvent::Data(_) => PumpState::Running,
        ChannelReadEvent::Empty => PumpState::Running,
        ChannelReadEvent::Disconnected => PumpState::Finished,
        ChannelReadEvent::Failed(k) => PumpState::FinishedWithError(k),
    }
}

/// The bytes one read event hands on to the terminal and the sink.
pub open spec fn spec_channel_chunk(ev: ChannelReadEvent) -> Seq<u8> {
    match ev {
        ChannelReadEvent::Data(b) => b@,
        _ => Seq::empty(),
    }
}

/// The channel-to-terminal pump: polls the channel and delivers what arrives
/// to the terminal, teeing it to the redirection sink when one is configured.
pub struct ChannelToTerminal {
    /// Where this direction stands.
    pub state: PumpState,
    /// Whether this pump has asked for the sibling's pending read to be
    /// canceled.
    pub cancel_requested: bool,
    /// Every byte delivered to the terminal so far, in order.
    pub delivered: Ghost<Seq<u8>>,
}

impl ChannelToTerminal {
    /// A pump that has moved nothing yet.
    pub fn new() -> (p: ChannelToTerminal)
        ensures
            p.state == PumpState::Running,
            p.cancel_requested == false,
            p.delivered@ == Seq::<u8>::empty(),
    {
        ChannelToTerminal {
            state: PumpState::Running,
            cancel_requested: false,
            delivered: Ghost(Seq::empty()),
        }
    }

    /// Whether the direction is still moving bytes.
    pub fn is_running(&self) -> (b: bool)
        ensures
            b == (self.state is Running),
    {
        match self.state {
            PumpState::Running => true,
            _ => false,
        }
    }

    /// React to one channel read: deliver arrived bytes verbatim, back off
    /// while no data is ready, finish — after asking for the sibling's read
    /// to be canceled — when the peer disconnected, and end with the error on
    /// any other failure.
    pub fn on_read(&mut self, ev: &ChannelReadEvent) -> (a: ChannelPumpAction)
        requires
            old(self).state == PumpState::Running,
        ensures
            final(self).state == spec_channel_step_state(*ev),
            final(self).delivered@ == old(self).delivered@ + spec_channel_chunk(*ev),
            final(self).cancel_requested == (old(self).cancel_requested || *ev is Disconnected),
            a matches ChannelPumpAction::Deliver(out) ==> out@ == spec_channel_chunk(*ev),
            (a is Deliver <==> (*ev matches ChannelReadEvent::Data(b) && b@.len() > 0)),
            (a is Backoff <==> (*ev is Empty || (*ev matches ChannelReadEvent::Data(b)
                && b@.len() == 0))),
            (a is CancelTerminalRead <==> *ev is Disconnected),
    {
        match ev {
            ChannelReadEvent::Data(b) => {
                if b.len() == 0 {
                    ChannelPumpAction::Backoff
                } else {
                    self.delivered = Ghost(self.delivered@ + b@);
                    ChannelPumpAction::Deliver(clone_bytes(b))
                }
            },
            ChannelReadEvent::Empty => ChannelPumpAction::Backoff,
            ChannelReadEvent::Disconnected => {
                self.state = PumpState::Finished;
                self.cancel_requested = true;
                ChannelPumpAction::CancelTerminalRead
            },
            ChannelReadEvent::Failed(k) => {
                self.state = PumpState::FinishedWithError(*k);
                ChannelPumpAction::Stop
            },
        }
    }

    /// A terminal or sink write failed: the direction ends with that error.
    pub fn on_write_error(&mut self, k: ErrorKind)
        requires
            old(self).state == PumpState::Running,
        ensures
            final(self).state == PumpState::FinishedWithError(k),
            final(self).delivered@ == old(self).delivered@,
            final(self).cancel_requested == old(self).cancel_requested,
    {
        self.state = PumpState::FinishedWithError(k);
    }

    /// The cancellation this pump asked for failed, so the sibling may still
    /// be blocked: the direction ends with that error instead of gracefully.
    pub fn on_cancel_error(&mut self, k: ErrorKind)
        requires
            old(self).cancel_requested,
        ensures
            final(self).state == PumpState::FinishedWithError(k),
            final(self).delivered@ == old(self).delivered@,
            final(self).cancel_requested == old(self).cancel_requested,
    {
        self.state = PumpState::FinishedWithError(k);
    }
}

/// The bytes the terminal-to-channel pump forwards over a whole run of read
/// events, stopping at the first event that ends the direction.
pub open spec fn spec_terminal_forwarded(evs: Seq<TerminalReadEvent>) -> Seq<u8>
    decreases evs.len(),
{
    if evs.len() == 0 {
        Seq::empty()
    } else if spec_terminal_step_state(evs[0]) is Running {
        spec_terminal_chunk(evs[0]) + spec_terminal_forwarded(evs.drop_first())
    } else {
        Seq::empty()
    }
}

/// Where the terminal-to-channel pump stands after a whole run of read events.
pub open spec fn spec_terminal_final(evs: Seq<TerminalReadEvent>) -> PumpState
    decreases evs.len(),
{
    if evs.len() == 0 {
        PumpState::Running
    } else if spec_terminal_step_state(evs[0]) is Running {
        spec_terminal_final(evs.drop_first())
    } else {
        spec_terminal_step_state(evs[0])
    }
}

/// The concatenation of the chunks of a run of console reads, in order.
pub open spec fn spec_terminal_chunks_joined(evs: Seq<TerminalReadEvent>) -> Seq<u8>
    decreases evs.len(),
{
    if evs.len() == 0 {
        Seq::empty()
    } else {
        spec_terminal_chunk(evs[0]) + spec_terminal_chunks_joined(evs.drop_first())
    }
}

/// The outcome of driving the terminal-to-channel pump over a run of events.
pub struct TerminalRunResult {
    /// The pump in its final state.
    pub pump: TerminalToChannel,
    /// Every byte written to the channel, in the order written.
    pub channel_output: Vec<u8>,
}

/// Drive the terminal-to-channel pump over a sequence of read events, as the
/// relay does over live console reads, collecting everything it forwards.
pub fn run_terminal_pump(events: &Vec<TerminalReadEvent>) -> (r: TerminalRunResult)
    ensures
        r.pump.state == spec_terminal_final(events@),
        r.channel_output@ == spec_terminal_forwarded(events@),
        r.pump.forwarded@ == r.channel_output@,
{
    let mut pump = TerminalToChannel::new();
    let mut out: Vec<u8> = Vec::new();
    let mut i: usize = 0;
    proof {
        assert(events@.skip(0) =~= events@);
        assert(out@ + spec_terminal_forwarded(events@) =~= spec_terminal_forwarded(events@));
    }
    while i < events.len()
        invariant
            i <= events@.len(),
            pump.forwarded@ == out@,
            pump.state is Running ==> spec_terminal_forwarded(events@)
                == out@ + spec_terminal_forwarded(events@.skip(i as int)),
            pump.state is Running ==> spec_terminal_final(events@)
                == spec_terminal_final(events@.skip(i as int)),
            !(pump.state is Running) ==> out@ == spec_terminal_forwarded(events@)
                && pump.state == spec_terminal_final(events@),
        decreases events@.len() - i,
    {
        if pump.is_running() {
            let ghost pre_out = out@;
            let ghost s = events@.skip(i as int);
            proof {
                assert(s[0] == events@[i as int]);
                assert(s.drop_first() =~= events@.skip(i as int + 1));
            }
            let a = pump.on_read(&events[i]);
            match a {
                TerminalPumpAction::Forward(b) => {
                    append_bytes(&mut out, &b);
                },
                _ => {},
            }
            proof {
                if spec_terminal_chunk(s[0]).len() == 0 {
                    assert(pre_out + spec_terminal_chunk(s[0]) =~= pre_out);
                }
                assert(out@ == pre_out + spec_terminal_chunk(s[0]));
                if pump.state is Running {
                    assert(pre_out + (spec_terminal_chunk(s[0]) + spec_terminal_forwarded(
                        s.drop_first(),
                    )) =~= (pre_out + spec_terminal_chunk(s[0])) + spec_terminal_forwarded(
                        s.drop_first(),
                    ));
                } else {
                    assert(pre_out + spec_terminal_forwarded(s) =~= out@);
                }
            }
        }
        i = i + 1;
    }
    proof {
        assert(events@.skip(events@.len() as int) =~= Seq::<TerminalReadEvent>::empty());
        if pump.state is Running {
            assert(out@ + spec_terminal_forwarded(events@.skip(events@.len() as int)) =~= out@);
        }
    }
    TerminalRunResult { pump, channel_output: out }
}

/// The bytes the channel-to-terminal pump delivers over a whole run of read
/// events, stopping at the first event that ends the direction.
pub open spec fn spec_channel_delivered(evs: Seq<ChannelReadEvent>) -> Seq<u8>
    decreases evs.len(),
{
    if evs.len() == 0 {
        Seq::empty()
    } else if spec_channel_step_state(evs[0]) is Running {
        spec_channel_chunk(evs[0]) + spec_channel_delivered(evs.drop_first())
    } else {
        Seq::empty()
    }
}

/// Where the channel-to-terminal pump stands after a whole run of read events.
pub open spec fn spec_channel_final(evs: Seq<ChannelReadEvent>) -> PumpState
    decreases evs.len(),
{
    if evs.len() == 0 {
        PumpState::Running
    } else if spec_channel_step_state(evs[0]) is Running {
        spec_channel_final(evs.drop_first())
    } else {
        spec_channel_step_state(evs[0])
    }
}

/// Whether a run of read events makes the channel-to-terminal pump ask for
/// the sibling's pending read to be canceled.
pub open spec fn spec_channel_cancel(evs: Seq<ChannelReadEvent>) -> bool
    decreases evs.len(),
{
    if evs.len() == 0 {
        false
    } else if spec_channel_step_state(evs[0]) is Running {
        spec_channel_cancel(evs.drop_first())
    } else {
        evs[0] is Disconnected
    }
}

/// The concatenation of the chunks of a run of channel reads, in order.
pub open spec fn spec_channel_chunks_joined(evs: Seq<ChannelReadEvent>) -> Seq<u8>
    decreases evs.len(),
{
    if evs.len() == 0 {
        Seq::empty()
    } else {
        spec_channel_chunk(evs[0]) + spec_channel_chunks_joined(evs.drop_first())
    }
}

/// The outcome of driving the channel-to-terminal pump over a run of events.
pub struct ChannelRunResult {
    /// The pump in its final state.
    pub pump: ChannelToTerminal,
    /// Every byte written to the terminal, in the order written.
    pub terminal_output: Vec<u8>,
    /// Every byte appended to the redirection sink, in the order appended;
    /// empty when no sink is configured.
    pub sink_output: Vec<u8>,
}

/// Drive the channel-to-terminal pump over a sequence of read events, as the
/// relay does over live channel reads, collecting what reaches the terminal
/// and what reaches the redirection sink.
pub fn run_channel_pump(events: &Vec<ChannelReadEvent>, tee: bool) -> (r: ChannelRunResult)
    ensures
        r.pump.state == spec_channel_final(events@),
        r.terminal_output@ == spec_channel_delivered(events@),
        r.sink_output@ == (if tee {
            r.terminal_output@
        } else {
            Seq::<u8>::empty()
        }),
        r.pump.delivered@ == r.terminal_output@,
        r.pump.cancel_requested == spec_channel_cancel(events@),
{
    let mut pump = ChannelToTerminal::new();
    let mut term_out: Vec<u8> = Vec::new();
    let mut sink_out: Vec<u8> = Vec::new();
    let mut i: usize = 0;
    proof {
        assert(events@.skip(0) =~= events@);
        assert(term_out@ + spec_channel_delivered(events@) =~= spec_channel_delivered(events@));
    }
    while i < events.len()
        invariant
            i <= events@.len(),
            pump.delivered@ == term_out@,
            sink_out@ == (if tee {
                term_out@
            } else {
                Seq::<u8>::empty()
            }),
            pump.state is Running ==> pump.cancel_requested == false,
            pump.state is Running ==> spec_channel_delivered(events@)
                == term_out@ + spec_channel_delivered(events@.skip(i as int)),
            pump.state is Running ==> spec_channel_final(events@)
                == spec_channel_final(events@.skip(i as int)),
            pump.state is Running ==> spec_channel_cancel(events@)
                == spec_channel_cancel(events@.skip(i as int)),
            !(pump.state is Running) ==> term_out@ == spec_channel_delivered(events@)
                && pump.state == spec_channel_final(events@)
                && pump.cancel_requested == spec_channel_cancel(events@),
        decreases events@.len() - i,
    {
        if pump.is_running() {
            let ghost pre_out = term_out@;
            let ghost s = events@.skip(i as int);
            proof {
                assert(s[0] == events@[i as int]);
                assert(s.drop_first() =~= events@.skip(i as int + 1));
            }
            let a = pump.on_read(&events[i]);
            match a {
                ChannelPumpAction::Deliver(b) => {
                    append_bytes(&mut term_out, &b);
                    if tee {
                        append_bytes(&mut sink_out, &b);
                    }
                },
                _ => {},
            }
            proof {
                if spec_channel_chunk(s[0]).len() == 0 {
                    assert(pre_out + spec_channel_chunk(s[0]) =~= pre_out);
                }
                assert(term_out@ == pre_out + spec_channel_chunk(s[0]));
                if pump.state is Running {
                    assert(pre_out + (spec_channel_chunk(s[0]) + spec_channel_delivered(
                        s.drop_first(),
                    )) =~= (pre_out + spec_channel_chunk(s[0])) + spec_channel_delivered(
                        s.drop_first(),
                    ));
                } else {
                    assert(pre_out + spec_channel_delivered(s) =~= term_out@);
                }
            }
        }
        i = i + 1;
    }
    proof {
        assert(events@.skip(events@.len() as int) =~= Seq::<ChannelReadEvent>::empty());
        if pump.state is Running {
            assert(term_out@ + spec_channel_delivered(events@.skip(events@.len() as int))
                =~= term_out@);
        }
    }
    ChannelRunResult { pump, terminal_output: term_out, sink_output: sink_out }
}

/// Law: over any run of console reads that all return data, the bytes written
/// to the channel are exactly the concatenation of the chunks read, in order —
/// however the input was split into chunks — and the direction keeps running.
pub proof fn lemma_terminal_pump_relays_all_chunks(evs: Seq<TerminalReadEvent>)
    requires
        forall|i: int| 0 <= i < evs.len() ==> ((#[trigger] evs[i])
            matches TerminalReadEvent::Data(b) && b@.len() > 0),
    ensures
        spec_terminal_final(evs) == PumpState::Running,
        spec_terminal_forwarded(evs) == spec_terminal_chunks_joined(evs),
    decreases evs.len(),
{
    if evs.len() > 0 {
        assert((evs[0] matches TerminalReadEvent::Data(b) && b@.len() > 0));
        assert(forall|i: int| 0 <= i < evs.drop_first().len()
            ==> #[trigger] evs.drop_first()[i] == evs[i + 1]);
        lemma_terminal_pump_relays_all_chunks(evs.drop_first());
    }
}

/// Law: over any run of channel reads that all return data or find none ready
/// yet, the bytes delivered to the terminal are exactly the concatenation of
/// the chunks read, in order, and the direction keeps running.
pub proof fn lemma_channel_pump_relays_all_chunks(evs: Seq<ChannelReadEvent>)
    requires
        forall|i: int| 0 <= i < evs.len() ==> ((#[trigger] evs[i]) is Data || evs[i] is Empty),
    ensures
        spec_channel_final(evs) == PumpState::Running,
        spec_channel_delivered(evs) == spec_channel_chunks_joined(evs),
    decreases evs.len(),
{
    if evs.len() > 0 {
        assert(evs[0] is Data || evs[0] is Empty);
        assert(forall|i: int| 0 <= i < evs.drop_first().len()
            ==> #[trigger] evs.drop_first()[i] == evs[i + 1]);
        lemma_channel_pump_relays_all_chunks(evs.drop_first());
    }
}

/// Law: finding no data ready never ends the channel-to-terminal direction;
/// as long as no read reports a disconnect or a failure, the direction is
/// still running, however many empty probes it met.
pub proof fn lemma_no_data_never_ends_channel_pump(evs: Seq<ChannelReadEvent>)
    requires
        forall|i: int| 0 <= i < evs.len() ==> !((#[trigger] evs[i]) is Disconnected)
            && !(evs[i] is Failed),
    ensures
        spec_channel_final(evs) == PumpState::Running,
    decreases evs.len(),
{
    if evs.len() > 0 {
        assert(!(evs[0] is Disconnected) && !(evs[0] is Failed));
        assert(forall|i: int| 0 <= i < evs.drop_first().len()
            ==> #[trigger] evs.drop_first()[i] == evs[i + 1]);
        lemma_no_data_never_ends_channel_pump(evs.drop_first());
    }
}

/// Law: when a running channel-to-terminal pump observes a disconnect, it
/// finishes gracefully, asks for the sibling's pending read to be canceled,
/// and everything read before the disconnect has already been delivered.
pub proof fn lemma_disconnect_finishes_channel_pump(evs: Seq<ChannelReadEvent>)
    requires
        spec_channel_final(evs) == PumpState::Running,
    ensures
        spec_channel_final(evs.push(ChannelReadEvent::Disconnected)) == PumpState::Finished,
        spec_channel_cancel(evs.push(ChannelReadEvent::Disconnected)) == true,
        spec_channel_delivered(evs.push(ChannelReadEvent::Disconnected))
            == spec_channel_delivered(evs),
    decreases evs.len(),
{
    let pushed = evs.push(ChannelReadEvent::Disconnected);
    if evs.len() == 0 {
        assert(pushed[0] is Disconnected);
    } else {
        assert(pushed[0] == evs[0]);
        assert(pushed.drop_first() =~= evs.drop_first().push(ChannelReadEvent::Disconnected));
        lemma_disconnect_finishes_channel_pump(evs.drop_first());
    }
}

/// Law: the cancellation the disconnect triggered actually unblocks the
/// sibling — a running terminal-to-channel pump whose pending read returns
/// the aborted condition finishes gracefully, forwarding nothing further.
pub proof fn lemma_cancel_ends_terminal_pump(evs: Seq<TerminalReadEvent>)
    requires
        spec_terminal_final(evs) == PumpState::Running,
    ensures
        spec_terminal_final(evs.push(TerminalReadEvent::Aborted)) == PumpState::Finished,
        spec_terminal_forwarded(evs.push(TerminalReadEvent::Aborted))
            == spec_terminal_forwarded(evs),
    decreases evs.len(),
{
    let pushed = evs.push(TerminalReadEvent::Aborted);
    if evs.len() == 0 {
        assert(pushed[0] is Aborted);
    } else {
        assert(pushed[0] == evs[0]);
        assert(pushed.drop_first() =~= evs.drop_first().push(TerminalReadEvent::Aborted));
        lemma_cancel_ends_terminal_pump(evs.drop_first());
    }
}

/// Law: once the peer disconnects, the whole relay winds down without further
/// local input. The channel-to-terminal direction finishes gracefully with
/// everything received so far delivered, and asks for the sibling's pending
/// read to be canceled; that cancellation surfaces there as an aborted read,
/// on which the terminal-to-channel direction finishes gracefully too.
pub proof fn lemma_disconnect_shuts_down_relay(
    chan_evs: Seq<ChannelReadEvent>,
    term_evs: Seq<TerminalReadEvent>,
)
    requires
        spec_channel_final(chan_evs) == PumpState::Running,
        spec_terminal_final(term_evs) == PumpState::Running,
    ensures
        spec_channel_final(chan_evs.push(ChannelReadEvent::Disconnected)) == PumpState::Finished,
        spec_channel_cancel(chan_evs.push(ChannelReadEvent::Disconnected)),
        spec_channel_delivered(chan_evs.push(ChannelReadEvent::Disconnected))
            == spec_channel_delivered(chan_evs),
        spec_terminal_final(term_evs.push(TerminalReadEvent::Aborted)) == PumpState::Finished,
        spec_terminal_forwarded(term_evs.push(TerminalReadEvent::Aborted))
            == spec_terminal_forwarded(term_evs),
{
    lemma_disconnect_finishes_channel_pump(chan_evs);
    lemma_cancel_ends_terminal_pump(term_evs);
}

/// Copy a byte buffer.
pub fn clone_bytes(src: &Vec<u8>) -> (out: Vec<u8>)
    ensures
        out@ == src@,
{
    let mut out: Vec<u8> = Vec::new();
    append_bytes(&mut out, src);
    out
}

/// Append a byte buffer to another.
pub fn append_bytes(dst: &mut Vec<u8>, src: &Vec<u8>)
    ensures
        final(dst)@ == old(dst)@ + src@,
{
    proof {
        assert(dst@ + src@.take(0) =~= dst@);
    }
    let mut i: usize = 0;
    while i < src.len()
        invariant
            i <= src@.len(),
            dst@ == old(dst)@ + src@.take(i as int),
        decreases src@.len() - i,
    {
        let byte = src[i];
        proof {
            assert((old(dst)@ + src@.take(i as int)).push(src@[i as int])
                =~= old(dst)@ + src@.take(i as int + 1));
        }
        dst.push(byte);
        i = i + 1;
    }
    proof {
        assert(src@.take(src@.len() as int) =~= src@);
    }
}

} // verus!
