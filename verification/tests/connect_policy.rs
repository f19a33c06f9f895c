use pipe_console::error::ErrorKind;
use pipe_console::named_pipe::ConnectDecision;
use pipe_console::named_pipe::ConnectOutcome;
use pipe_console::named_pipe::ConnectRun;
use pipe_console::named_pipe::HandleDesc;
use pipe_console::named_pipe::NamedPipe;
use pipe_console::named_pipe::connect_step;
use pipe_console::named_pipe::run_connect;

#[test]
fn opened_endpoint_connects() {
    let d = connect_step(false, ConnectOutcome::Opened(42));
    match d {
        ConnectDecision::Connected(p) => assert_eq!(p.as_handle(), 42),
        other => panic!("expected a connection, got {:?}", other),
    }
}

#[test]
fn missing_endpoint_without_wait_fails_not_found() {
    let d = connect_step(false, ConnectOutcome::Error(ErrorKind::NotFound));
    assert_eq!(d, ConnectDecision::Fail(ErrorKind::NotFound));
}

#[test]
fn missing_endpoint_with_wait_retries() {
    let d = connect_step(true, ConnectOutcome::Error(ErrorKind::NotFound));
    assert_eq!(d, ConnectDecision::RetryAfterBackoff);
}

#[test]
fn other_error_aborts_even_with_wait() {
    let d = connect_step(true, ConnectOutcome::Error(ErrorKind::Io));
    assert_eq!(d, ConnectDecision::Fail(ErrorKind::Io));
}

#[test]
fn wait_against_never_available_endpoint_stays_blocked() {
    // However many attempts find the endpoint missing, a waiting run never
    // gives up with the not-found error.
    let outcomes = vec![ConnectOutcome::Error(ErrorKind::NotFound); 100];
    let r = run_connect(true, &outcomes);
    assert_eq!(r, ConnectRun::StillWaiting);
}

#[test]
fn no_wait_against_missing_endpoint_fails_on_the_first_attempt() {
    let outcomes = vec![
        ConnectOutcome::Error(ErrorKind::NotFound),
        ConnectOutcome::Opened(7),
    ];
    let r = run_connect(false, &outcomes);
    assert_eq!(r, ConnectRun::Failed(ErrorKind::NotFound));
}

#[test]
fn wait_connects_once_the_endpoint_appears() {
    let outcomes = vec![
        ConnectOutcome::Error(ErrorKind::NotFound),
        ConnectOutcome::Error(ErrorKind::NotFound),
        ConnectOutcome::Opened(7),
    ];
    let r = run_connect(true, &outcomes);
    match r {
        ConnectRun::Connected(p) => assert_eq!(p.as_handle(), 7),
        other => panic!("expected a connection, got {:?}", other),
    }
}

#[test]
fn wait_still_aborts_on_a_real_error() {
    let outcomes = vec![
        ConnectOutcome::Error(ErrorKind::NotFound),
        ConnectOutcome::Error(ErrorKind::Io),
        ConnectOutcome::Opened(7),
    ];
    let r = run_connect(true, &outcomes);
    assert_eq!(r, ConnectRun::Failed(ErrorKind::Io));
}

#[test]
fn handles_wrap_and_unwrap() {
    let d = HandleDesc::from_handle(-3);
    assert_eq!(d.as_handle(), -3);
    let p = NamedPipe::from_handle(d);
    assert_eq!(p.as_handle(), -3);
}
