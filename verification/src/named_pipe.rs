//! The pipe-endpoint model: handle ownership and the connect/retry policy.
//!
//! A pipe handle is an opaque operating-system resource. The library carries
//! its raw value and decides what to do with the outcome of each open attempt;
//! opening, duplicating and closing the handle are done outside the library,
//! which is handed the resulting raw values.

use vstd::prelude::*;

use crate::error::ErrorKind;

verus! {

/// How long to sleep between open attempts while waiting for the endpoint to
/// appear, in milliseconds.
pub const CONNECT_RETRY_MILLIS: u64 = 100;

/// An owned raw handle value. Duplicates of one kernel object may be used
/// concurrently without external locking, because the operating system
/// serializes access at the object level; each duplicate is closed
/// independently, by its own owner.
#[derive(Clone, Copy, Debug, PartialEq, Eq, Structural)]
pub struct HandleDesc {
    pub handle: isize,
}

impl HandleDesc {
    /// The raw value of the handle.
    pub fn as_handle(&self) -> (h: isize)
        ensures
            h == self.handle,
    {
        self.handle
    }

    /// Wrap a raw handle value reported by a successful open or duplication.
    pub fn from_handle(h: isize) -> (d: HandleDesc)
        ensures
            d.handle == h,
    {
        HandleDesc { handle: h }
    }
}

/// One end of the named, connection-oriented, duplex byte-stream channel.
/// Each relay direction owns its own duplicate of the underlying handle.
#[derive(Clone, Copy, Debug, PartialEq, Eq, Structural)]
pub struct NamedPipe {
    pub pipe_handle: HandleDesc,
}

impl NamedPipe {
    /// The raw handle value this end carries.
    pub open spec fn handle_id(self) -> isize {
        self.pipe_handle.handle
    }

    /// Wrap the handle of a freshly opened or duplicated endpoint.
    pub fn from_handle(d: HandleDesc) -> (p: NamedPipe)
        ensures
            p.handle_id() == d.handle,
    {
        NamedPipe { pipe_handle: d }
    }

    /// The raw value of the owned handle.
    pub fn as_handle(&self) -> (h: isize)
        ensures
            h == self.handle_id(),
    {
        self.pipe_handle.as_handle()
    }
}

/// What one attempt to open the endpoint reported: the raw handle value on
/// success, or the classified failure.
#[derive(Clone, Copy, Debug, PartialEq, Eq, Structural)]
pub enum ConnectOutcome {
    Opened(isize),
    Error(ErrorKind),
}

/// What to do after one open attempt.
#[derive(Clone, Copy, Debug, PartialEq, Eq, Structural)]
pub enum ConnectDecision {
    /// The endpoint is open; use this channel.
    Connected(NamedPipe),
    /// The endpoint does not exist yet and waiting was requested: sleep for
    /// `CONNECT_RETRY_MILLIS` and try again.
    RetryAfterBackoff,
    /// Give up with this error.
    Fail(ErrorKind),
}

/// The decision taken after one open attempt: a missing endpoint is retried
/// only when waiting was requested, and any other failure aborts at once.
pub open spec fn spec_connect_step(wait: bool, outcome: ConnectOutcome) -> ConnectDecision {
    match outcome {
        ConnectOutcome::Opened(h) => ConnectDecision::Connected(
            NamedPipe { pipe_handle: HandleDesc { handle: h } },
        ),
        ConnectOutcome::Error(k) => {
            if k == ErrorKind::NotFound && wait {
                ConnectDecision::RetryAfterBackoff
            } else {
                ConnectDecision::Fail(k)
            }
        },
    }
}

/// Decide what to do with the outcome of one open attempt.
pub fn connect_step(wait: bool, outcome: ConnectOutcome) -> (d: ConnectDecision)
    ensures
        d == spec_connect_step(wait, outcome),
{
    match outcome {
        ConnectOutcome::Opened(h) => {
            ConnectDecision::Connected(NamedPipe::from_handle(HandleDesc::from_handle(h)))
        },
        ConnectOutcome::Error(k) => {
            if k == ErrorKind::NotFound && wait {
                ConnectDecision::RetryAfterBackoff
            } else {
                ConnectDecision::Fail(k)
            }
        },
    }
}

/// Where a whole connect run stands after a sequence of open attempts.
#[derive(Clone, Copy, Debug, PartialEq, Eq, Structural)]
pub enum ConnectRun {
    /// Some attempt opened the endpoint.
    Connected(NamedPipe),
    /// Every attempt so far asked for another try; the run is still blocked
    /// waiting for the endpoint to appear.
    StillWaiting,
    /// Some attempt aborted the run with this error.
    Failed(ErrorKind),
}

/// Where the connect run stands after the given open attempts, applying
/// `spec_connect_step` to each in turn.
pub open spec fn spec_run_connect(wait: bool, outcomes: Seq<ConnectOutcome>) -> ConnectRun
    decreases outcomes.len(),
{
    if outcomes.len() == 0 {
        ConnectRun::StillWaiting
    } else {
        match spec_connect_step(wait, outcomes[0]) {
            ConnectDecision::Connected(p) => ConnectRun::Connected(p),
            ConnectDecision::Fail(k) => ConnectRun::Failed(k),
            ConnectDecision::RetryAfterBackoff => spec_run_connect(wait, outcomes.drop_first()),
        }
    }
}

/// Drive the connect policy over a sequence of open-attempt outcomes, as the
/// open loop does over live attempts.
pub fn run_connect(wait: bool, outcomes: &Vec<ConnectOutcome>) -> (r: ConnectRun)
    ensures
        r == spec_run_connect(wait, outcomes@),
{
    let mut i: usize = 0;
    proof {
        assert(outcomes@.skip(0) =~= outcomes@);
    }
    while i < outcomes.len()
        invariant
            i <= outcomes@.len(),
            spec_run_connect(wait, outcomes@) == spec_run_connect(wait, outcomes@.skip(i as int)),
        decreases outcomes@.len() - i,
    {
        let outcome = outcomes[i];
        proof {
            assert(outcomes@.skip(i as int)[0] == outcomes@[i as int]);
            assert(outcomes@.skip(i as int).drop_first() =~= outcomes@.skip(i as int + 1));
        }
        match connect_step(wait, outcome) {
            ConnectDecision::Connected(p) => {
                return ConnectRun::Connected(p);
            },
            ConnectDecision::Fail(k) => {
                return ConnectRun::Failed(k);
            },
            ConnectDecision::RetryAfterBackoff => {},
        }
        i = i + 1;
    }
    ConnectRun::StillWaiting
}

/// Law: with waiting requested, a run of open attempts never gives up because
/// the endpoint was missing — a missing endpoint only ever means another try.
pub proof fn lemma_wait_never_fails_not_found(outcomes: Seq<ConnectOutcome>)
    ensures
        spec_run_connect(true, outcomes) != ConnectRun::Failed(ErrorKind::NotFound),
    decreases outcomes.len(),
{
    if outcomes.len() > 0 {
        match spec_connect_step(true, outcomes[0]) {
            ConnectDecision::RetryAfterBackoff => {
                lemma_wait_never_fails_not_found(outcomes.drop_first());
            },
            _ => {},
        }
    }
}

/// Law: against an endpoint that never appears, a waiting run stays blocked
/// forever, however many attempts are made.
pub proof fn lemma_wait_blocks_while_missing(outcomes: Seq<ConnectOutcome>)
    requires
        forall|i: int|
            0 <= i < outcomes.len() ==> outcomes[i] == ConnectOutcome::Error(ErrorKind::NotFound),
    ensures
        spec_run_connect(true, outcomes) == ConnectRun::StillWaiting,
    decreases outcomes.len(),
{
    if outcomes.len() > 0 {
        lemma_wait_blocks_while_missing(outcomes.drop_first());
    }
}

/// Law: without waiting, a missing endpoint fails the very first attempt with
/// the not-found error.
pub proof fn lemma_no_wait_fails_immediately(outcomes: Seq<ConnectOutcome>)
    requires
        outcomes.len() > 0,
        outcomes[0] == ConnectOutcome::Error(ErrorKind::NotFound),
    ensures
        spec_run_connect(false, outcomes) == ConnectRun::Failed(ErrorKind::NotFound),
{
}

/// How an asynchronous operation whose issue call failed goes on.
#[derive(Clone, Copy, Debug, PartialEq, Eq, Structural)]
pub enum OverlappedNext {
    /// The operation is merely pending: block on its completion signal.
    WaitForCompletion,
    /// The operation failed: surface this error.
    Abort(ErrorKind),
}

/// Decide what the failure of an asynchronous issue call means: a pending
/// operation is not an error and is waited for; anything else fails the call.
pub fn overlapped_issue_step(k: ErrorKind) -> (n: OverlappedNext)
    ensures
        (n is WaitForCompletion <==> k is IoPending),
        !(k is IoPending) ==> n == OverlappedNext::Abort(k),
{
    match k {
        ErrorKind::IoPending => OverlappedNext::WaitForCompletion,
        other => OverlappedNext::Abort(other),
    }
}

/// How a channel write that may have been partial goes on.
#[derive(Debug)]
pub enum WriteProgress {
    /// The whole buffer is on the channel.
    Complete,
    /// Only a prefix went out; these remaining bytes must be written next.
    Incomplete(Vec<u8>),
}

/// Guard against a partial write: given how many bytes of `pending` one write
/// call reported written, decide whether the write is done or which remainder
/// must be retried, so that the channel always ends up with the whole buffer.
pub fn write_remainder(pending: &Vec<u8>, written: usize) -> (r: WriteProgress)
    requires
        written <= pending@.len(),
    ensures
        (r is Complete <==> written == pending@.len()),
        r matches WriteProgress::Incomplete(rest) ==> rest@ == pending@.skip(written as int)
            && pending@ == pending@.take(written as int) + rest@,
{
    if written == pending.len() {
        WriteProgress::Complete
    } else {
        let mut rest: Vec<u8> = Vec::new();
        let mut j: usize = written;
        while j < pending.len()
            invariant
                written <= j <= pending@.len(),
                rest@ == pending@.subrange(written as int, j as int),
            decreases pending@.len() - j,
        {
            let byte = pending[j];
            proof {
                assert(pending@.subrange(written as int, j as int).push(pending@[j as int])
                    =~= pending@.subrange(written as int, j as int + 1));
            }
            rest.push(byte);
            j = j + 1;
        }
        proof {
            assert(rest@ =~= pending@.skip(written as int));
            assert(pending@ =~= pending@.take(written as int) + pending@.skip(written as int));
        }
        WriteProgress::Incomplete(rest)
    }
}

/// Size a read destination to the number of bytes the endpoint reports ready,
/// so the read can complete without blocking when data already exists.
pub fn read_buffer_for(avail: u32) -> (buf: Vec<u8>)
    ensures
        buf@.len() == avail as nat,
        forall|i: int| 0 <= i < buf@.len() ==> buf@[i] == 0u8,
{
    let n = avail as usize;
    let mut buf: Vec<u8> = Vec::new();
    let mut i: usize = 0;
    while i < n
        invariant
            i <= n,
            buf@.len() == i as nat,
            forall|j: int| 0 <= j < buf@.len() ==> buf@[j] == 0u8,
        decreases n - i,
    {
        buf.push(0u8);
        i = i + 1;
    }
    buf
}

/// Keep only the bytes a read actually filled in, dropping the unused tail of
/// the destination.
pub fn truncate_to_read(buf: &mut Vec<u8>, n: usize)
    requires
        n <= old(buf)@.len(),
    ensures
        final(buf)@ == old(buf)@.take(n as int),
{
    buf.truncate(n);
    assert(buf@ =~= old(buf)@.take(n as int));
}

} // verus!
