use objects::responses::{
    check_transport, classify_response, StatusCode, TransportOutcome, BAD_REQUEST, OK,
};

fn status(code: u16) -> StatusCode {
    StatusCode { code }
}

#[test]
fn status_constants() {
    assert_eq!(OK, 200);
    assert_eq!(BAD_REQUEST, 400);
}

#[test]
fn ok_status_with_a_decoded_body_is_the_value() {
    let res = classify_response(TransportOutcome::Response(status(200)), Some("time".to_string()));
    assert_eq!(res, Ok("time".to_string()));
}

#[test]
fn any_other_status_is_that_status() {
    for code in [100u16, 201, 204, 301, 400, 401, 404, 429, 500, 503] {
        let res = classify_response(TransportOutcome::Response(status(code)), Some(1u8));
        assert_eq!(res, Err(status(code)));
    }
}

#[test]
fn a_failure_with_a_status_is_that_status() {
    let res = classify_response(TransportOutcome::Failure(Some(status(502))), Some(1u8));
    assert_eq!(res, Err(status(502)));
}

#[test]
fn a_failure_without_a_status_is_a_bad_request() {
    let res = classify_response(TransportOutcome::Failure(None), Some(1u8));
    assert_eq!(res, Err(status(400)));
    let res = classify_response::<u8>(TransportOutcome::Failure(None), None);
    assert_eq!(res, Err(status(400)));
}

#[test]
fn a_body_that_does_not_decode_is_a_bad_request() {
    let res = classify_response::<u8>(TransportOutcome::Response(status(200)), None);
    assert_eq!(res, Err(status(400)));
}

#[test]
fn a_bad_status_comes_before_a_bad_body() {
    let res = classify_response::<u8>(TransportOutcome::Response(status(500)), None);
    assert_eq!(res, Err(status(500)));
}

#[test]
fn check_transport_says_whether_to_decode() {
    assert_eq!(check_transport(TransportOutcome::Response(status(200))), Ok(()));
    assert_eq!(check_transport(TransportOutcome::Response(status(404))), Err(status(404)));
    assert_eq!(check_transport(TransportOutcome::Failure(Some(status(504)))), Err(status(504)));
    assert_eq!(check_transport(TransportOutcome::Failure(None)), Err(status(400)));
}
