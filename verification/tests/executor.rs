//! The executor's status-to-error mapping, against a stubbed transport.

use alexandria_client::executor::execute;
use alexandria_client::Book;
use alexandria_client::BodyRead;
use alexandria_client::Error;
use alexandria_client::WireOutcome;

fn reply(status: u16, body: &str) -> WireOutcome {
    WireOutcome::Response(status, BodyRead::Text(body.to_string()))
}

#[test]
fn status_200_decodes_the_body() {
    assert_eq!(execute::<bool>(reply(200, "true")), Ok(true));
    assert_eq!(execute::<bool>(reply(200, "false")), Ok(false));
}

#[test]
fn status_401_is_auth_error() {
    assert_eq!(execute::<bool>(reply(401, "")), Err(Error::AuthError));
}

#[test]
fn status_404_is_not_found() {
    assert_eq!(execute::<bool>(reply(404, "")), Err(Error::NotFound));
}

#[test]
fn status_500_is_internal_error() {
    assert_eq!(execute::<bool>(reply(500, "")), Err(Error::InternalError));
}

#[test]
fn status_418_is_api_said_no() {
    assert_eq!(execute::<bool>(reply(418, "true")), Err(Error::ApiSaidNo));
}

#[test]
fn non_200_statuses_win_over_the_body() {
    // the body is ignored for any non-200 status, read or not
    assert_eq!(
        execute::<bool>(WireOutcome::Response(404, BodyRead::Failed)),
        Err(Error::NotFound)
    );
    assert_eq!(execute::<bool>(reply(401, "true")), Err(Error::AuthError));
}

#[test]
fn transport_failures_map_to_their_step() {
    assert_eq!(execute::<bool>(WireOutcome::ConnectFailed), Err(Error::HttpError));
    assert_eq!(execute::<bool>(WireOutcome::StartFailed), Err(Error::HttpError));
    assert_eq!(execute::<bool>(WireOutcome::WriteFailed), Err(Error::IoError));
    assert_eq!(execute::<bool>(WireOutcome::SendFailed), Err(Error::HttpError));
}

#[test]
fn body_read_failure_is_io_error() {
    assert_eq!(
        execute::<bool>(WireOutcome::Response(200, BodyRead::Failed)),
        Err(Error::IoError)
    );
}

#[test]
fn null_body_where_a_value_is_expected_is_got_null() {
    assert_eq!(execute::<bool>(reply(200, "null")), Err(Error::GotNull));
    assert_eq!(execute::<bool>(reply(200, "")), Err(Error::GotNull));
    assert_eq!(execute::<Vec<Book>>(reply(200, "null")), Err(Error::GotNull));
}

#[test]
fn undecodable_body_is_json_error() {
    assert_eq!(execute::<bool>(reply(200, "yes")), Err(Error::JsonError));
    assert_eq!(execute::<Vec<Book>>(reply(200, "garbage")), Err(Error::JsonError));
}
