//! Classification of operating-system error codes into the small taxonomy the
//! relay acts on.

use vstd::prelude::*;

verus! {

/// How the relay reacts to an operating-system failure.
///
/// - `NotFound`: the endpoint does not currently exist; recoverable by retry
///   only when waiting was requested.
/// - `IoPending`: an asynchronous operation has not completed yet; not an
///   error, the caller blocks on the completion signal.
/// - `Disconnected`: the peer closed the endpoint; graceful shutdown of the
///   affected direction.
/// - `Interrupted`: a system call was interrupted; transparently retried.
/// - `Aborted`: a blocking operation was deliberately canceled; graceful
///   termination, not an error.
/// - `Io`: any other operating-system failure; fatal to the direction.
#[derive(Clone, Copy, Debug, PartialEq, Eq, Structural)]
pub enum ErrorKind {
    NotFound,
    IoPending,
    Disconnected,
    Interrupted,
    Aborted,
    Io,
}

/// The endpoint name has no current server-side listener.
pub const CODE_FILE_NOT_FOUND: u32 = 2;

/// The far end of the pipe has closed.
pub const CODE_PIPE_NOT_CONNECTED: u32 = 233;

/// A blocking call was canceled from outside.
pub const CODE_OPERATION_ABORTED: u32 = 995;

/// An asynchronous operation is still in flight.
pub const CODE_IO_PENDING: u32 = 997;

/// A system call was interrupted by an external signal (the NTSTATUS value
/// `STATUS_INTERRUPTED`).
pub const CODE_INTERRUPTED: u32 = 0xC000_0515;

/// The high half of an HRESULT that wraps a Win32 error code: the error code
/// stands in the low 16 bits.
pub const HRESULT_WIN32_FACILITY: u32 = 0x8007_0000;

/// The bit an HRESULT carries when it wraps a failing NTSTATUS value: the
/// status is the HRESULT with this bit cleared.
pub const HRESULT_NTSTATUS_BIT: u32 = 0x1000_0000;

/// The plain operating-system code an HRESULT carries.
pub open spec fn spec_os_code_of_hresult(h: u32) -> u32 {
    if h & 0xFFFF_0000 == HRESULT_WIN32_FACILITY {
        h & 0xFFFF
    } else if h & HRESULT_NTSTATUS_BIT != 0 {
        h & !HRESULT_NTSTATUS_BIT
    } else {
        h
    }
}

/// Unwrap the plain operating-system code from an HRESULT, undoing the two
/// encodings a failure is reported in: a Win32 error code stands in the low
/// half under the Win32 facility, and an NTSTATUS has the NT-facility bit
/// added; anything else is taken as it stands.
pub fn os_code_of_hresult(h: u32) -> (c: u32)
    ensures
        c == spec_os_code_of_hresult(h),
{
    if h & 0xFFFF_0000 == HRESULT_WIN32_FACILITY {
        h & 0xFFFF
    } else if h & HRESULT_NTSTATUS_BIT != 0 {
        h & !HRESULT_NTSTATUS_BIT
    } else {
        h
    }
}

/// The classification every raw code falls under.
pub open spec fn spec_classify(code: u32) -> ErrorKind {
    if code == CODE_FILE_NOT_FOUND {
        ErrorKind::NotFound
    } else if code == CODE_PIPE_NOT_CONNECTED {
        ErrorKind::Disconnected
    } else if code == CODE_OPERATION_ABORTED {
        ErrorKind::Aborted
    } else if code == CODE_IO_PENDING {
        ErrorKind::IoPending
    } else if code == CODE_INTERRUPTED {
        ErrorKind::Interrupted
    } else {
        ErrorKind::Io
    }
}

/// Classify a raw operating-system error code.
pub fn classify_os_error(code: u32) -> (k: ErrorKind)
    ensures
        k == spec_classify(code),
{
    if code == CODE_FILE_NOT_FOUND {
        ErrorKind::NotFound
    } else if code == CODE_PIPE_NOT_CONNECTED {
        ErrorKind::Disconnected
    } else if code == CODE_OPERATION_ABORTED {
        ErrorKind::Aborted
    } else if code == CODE_IO_PENDING {
        ErrorKind::IoPending
    } else if code == CODE_INTERRUPTED {
        ErrorKind::Interrupted
    } else {
        ErrorKind::Io
    }
}

} // verus!
