use pipe_console::error::CODE_FILE_NOT_FOUND;
use pipe_console::error::CODE_INTERRUPTED;
use pipe_console::error::CODE_IO_PENDING;
use pipe_console::error::CODE_OPERATION_ABORTED;
use pipe_console::error::CODE_PIPE_NOT_CONNECTED;
use pipe_console::error::ErrorKind;
use pipe_console::error::classify_os_error;
use pipe_console::error::os_code_of_hresult;

#[test]
fn classify_not_found() {
    assert_eq!(classify_os_error(CODE_FILE_NOT_FOUND), ErrorKind::NotFound);
    assert_eq!(classify_os_error(2), ErrorKind::NotFound);
}

#[test]
fn classify_disconnected() {
    assert_eq!(classify_os_error(CODE_PIPE_NOT_CONNECTED), ErrorKind::Disconnected);
    assert_eq!(classify_os_error(233), ErrorKind::Disconnected);
}

#[test]
fn classify_aborted() {
    assert_eq!(classify_os_error(CODE_OPERATION_ABORTED), ErrorKind::Aborted);
    assert_eq!(classify_os_error(995), ErrorKind::Aborted);
}

#[test]
fn classify_io_pending() {
    assert_eq!(classify_os_error(CODE_IO_PENDING), ErrorKind::IoPending);
    assert_eq!(classify_os_error(997), ErrorKind::IoPending);
}

#[test]
fn classify_interrupted() {
    assert_eq!(classify_os_error(CODE_INTERRUPTED), ErrorKind::Interrupted);
    assert_eq!(classify_os_error(0xC000_0515), ErrorKind::Interrupted);
}

#[test]
fn classify_everything_else_is_io() {
    assert_eq!(classify_os_error(0), ErrorKind::Io);
    assert_eq!(classify_os_error(5), ErrorKind::Io);
    assert_eq!(classify_os_error(1234), ErrorKind::Io);
    // A "not implemented" status is a fatal failure, not an interruption.
    assert_eq!(classify_os_error(0xC000_0002), ErrorKind::Io);
    assert_eq!(classify_os_error(u32::MAX), ErrorKind::Io);
}

#[test]
fn hresult_with_win32_facility_unwraps_to_the_error_code() {
    assert_eq!(os_code_of_hresult(0x8007_0002), 2);
    assert_eq!(os_code_of_hresult(0x8007_00E9), 233);
    assert_eq!(os_code_of_hresult(0x8007_03E3), 995);
    assert_eq!(
        classify_os_error(os_code_of_hresult(0x8007_0002)),
        ErrorKind::NotFound
    );
}

#[test]
fn hresult_with_nt_bit_unwraps_to_the_status() {
    // STATUS_INTERRUPTED carried in an HRESULT.
    assert_eq!(os_code_of_hresult(0xD000_0515), 0xC000_0515);
    assert_eq!(
        classify_os_error(os_code_of_hresult(0xD000_0515)),
        ErrorKind::Interrupted
    );
}

#[test]
fn plain_codes_pass_through_the_hresult_decoder() {
    assert_eq!(os_code_of_hresult(0xC000_0515), 0xC000_0515);
    assert_eq!(os_code_of_hresult(2), 2);
    assert_eq!(os_code_of_hresult(0), 0);
}
