use relay_http::Controller;
use relay_http::Phase;
use relay_http::ReadOutcome;

#[test]
fn boot_joins_then_waits_then_listens() {
    let mut c = Controller::new();
    assert_eq!(c.current_phase(), Phase::Joining);
    assert!(!c.relay_is_on());
    // association failures are retried without bound
    c.join_attempted(false);
    assert_eq!(c.current_phase(), Phase::Joining);
    c.join_attempted(false);
    assert_eq!(c.current_phase(), Phase::Joining);
    c.join_attempted(true);
    assert_eq!(c.current_phase(), Phase::AwaitingAddress);
    // polls until an address is assigned
    c.address_checked(false);
    assert_eq!(c.current_phase(), Phase::AwaitingAddress);
    c.address_checked(true);
    assert_eq!(c.current_phase(), Phase::Listening);
}

fn reach_listening() -> Controller {
    let mut c = Controller::new();
    c.join_attempted(true);
    c.address_checked(true);
    c
}

#[test]
fn accept_error_keeps_listening() {
    let mut c = reach_listening();
    c.accept_finished(false);
    assert_eq!(c.current_phase(), Phase::Listening);
    c.accept_finished(true);
    assert_eq!(c.current_phase(), Phase::Connected);
}

#[test]
fn one_full_connection_round() {
    let mut c = reach_listening();
    c.accept_finished(true);
    c.read_finished(ReadOutcome::Data);
    assert_eq!(c.current_phase(), Phase::Responding);
    let response = c.respond(b"POST /on HTTP/1.1\r\nHost: x\r\n\r\n");
    assert_eq!(c.current_phase(), Phase::Closing);
    assert!(c.relay_is_on());
    assert_eq!(response.body.as_slice(), b"Powered on!".as_slice());
    c.connection_closed();
    assert_eq!(c.current_phase(), Phase::Listening);
}

#[test]
fn indicator_follows_the_connection() {
    let mut c = reach_listening();
    assert!(!c.indicator_connected());
    c.accept_finished(true);
    assert!(c.indicator_connected());
    c.read_finished(ReadOutcome::Data);
    assert!(c.indicator_connected());
    c.respond(b"POST /status HTTP/1.1\r\n\r\n");
    assert!(c.indicator_connected());
    c.connection_closed();
    assert!(!c.indicator_connected());
}

#[test]
fn zero_byte_read_terminates_the_service() {
    // the documented behavior: a remote close before any byte ends the
    // whole accept loop, not just the connection
    let mut c = reach_listening();
    c.accept_finished(true);
    c.read_finished(ReadOutcome::Closed);
    assert_eq!(c.current_phase(), Phase::Finished);
}

#[test]
fn read_error_terminates_the_service() {
    let mut c = reach_listening();
    c.accept_finished(true);
    c.read_finished(ReadOutcome::Failed);
    assert_eq!(c.current_phase(), Phase::Finished);
}

fn serve(c: &mut Controller, req: &[u8]) -> Vec<u8> {
    c.accept_finished(true);
    c.read_finished(ReadOutcome::Data);
    let response = c.respond(req);
    c.connection_closed();
    response.body
}

#[test]
fn repeated_power_on_is_idempotent() {
    let mut c = reach_listening();
    serve(&mut c, b"POST /on HTTP/1.1\r\n\r\n");
    assert!(c.relay_is_on());
    serve(&mut c, b"POST /on HTTP/1.1\r\n\r\n");
    assert!(c.relay_is_on());
    serve(&mut c, b"POST /on HTTP/1.1\r\n\r\n");
    assert!(c.relay_is_on());
}

#[test]
fn repeated_power_off_is_idempotent() {
    let mut c = reach_listening();
    serve(&mut c, b"POST /on HTTP/1.1\r\n\r\n");
    serve(&mut c, b"POST /off HTTP/1.1\r\n\r\n");
    assert!(!c.relay_is_on());
    serve(&mut c, b"POST /off HTTP/1.1\r\n\r\n");
    assert!(!c.relay_is_on());
}

#[test]
fn status_query_never_mutates_the_relay() {
    let mut c = reach_listening();
    assert!(!c.relay_is_on());
    let body = serve(&mut c, b"POST /status HTTP/1.1\r\n\r\n");
    assert_eq!(body.as_slice(), b"0".as_slice());
    assert!(!c.relay_is_on());
    serve(&mut c, b"POST /on HTTP/1.1\r\n\r\n");
    let body = serve(&mut c, b"POST /status HTTP/1.1\r\n\r\n");
    assert_eq!(body.as_slice(), b"1".as_slice());
    assert!(c.relay_is_on());
}

#[test]
fn status_reports_last_command() {
    let mut c = reach_listening();
    serve(&mut c, b"POST /on HTTP/1.1\r\n\r\n");
    assert_eq!(serve(&mut c, b"POST /status HTTP/1.1\r\n\r\n").as_slice(), b"1".as_slice());
    serve(&mut c, b"POST /off HTTP/1.1\r\n\r\n");
    assert_eq!(serve(&mut c, b"POST /status HTTP/1.1\r\n\r\n").as_slice(), b"0".as_slice());
}

#[test]
fn unknown_requests_leave_the_relay_alone() {
    let mut c = reach_listening();
    serve(&mut c, b"POST /on HTTP/1.1\r\n\r\n");
    let body = serve(&mut c, b"DELETE /on HTTP/1.1\r\n\r\n");
    assert_eq!(body.as_slice(), b"POST /on, /off, /status.".as_slice());
    assert!(c.relay_is_on());
}
