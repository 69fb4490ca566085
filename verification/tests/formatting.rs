use marge::numfmt::{i32_dec, u64_dec};
use marge::response::{HttpOutcome, Response, ResponseType};

#[test]
fn decimal_rendering_of_unsigned_numbers() {
    assert_eq!(u64_dec(0), "0".to_string());
    assert_eq!(u64_dec(7), "7".to_string());
    assert_eq!(u64_dec(10), "10".to_string());
    assert_eq!(u64_dec(8001), "8001".to_string());
    assert_eq!(u64_dec(18446744073709551615), "18446744073709551615".to_string());
}

#[test]
fn decimal_rendering_of_signed_numbers() {
    assert_eq!(i32_dec(8001), "8001".to_string());
    assert_eq!(i32_dec(0), "0".to_string());
    assert_eq!(i32_dec(-443), "-443".to_string());
    assert_eq!(i32_dec(i32::MIN), "-2147483648".to_string());
    assert_eq!(i32_dec(i32::MAX), "2147483647".to_string());
}

#[test]
fn ok_reply_keeps_status_and_body() {
    let r = Response::from_outcome(
        ResponseType::Domains,
        HttpOutcome::Reply {
            code: 200,
            reason: "OK".to_string(),
            body: "{\"x\": 1}".to_string(),
        },
    );
    assert_eq!(r.status(), "200: OK".to_string());
    assert_eq!(r.text(), "{\"x\": 1}".to_string());
}

#[test]
fn non_ok_reply_discards_body() {
    let r = Response::from_outcome(
        ResponseType::Lists,
        HttpOutcome::Reply {
            code: 404,
            reason: "Not Found".to_string(),
            body: "<html>an error page</html>".to_string(),
        },
    );
    assert_eq!(r.status(), "404: Not Found".to_string());
    assert_eq!(r.text(), "Error (see status bar below for details)".to_string());
}

#[test]
fn transport_failure_keeps_description_and_empty_body() {
    let r = Response::from_outcome(
        ResponseType::Members,
        HttpOutcome::Failure { description: "connection refused".to_string() },
    );
    assert_eq!(r.status(), "connection refused".to_string());
    assert_eq!(r.text(), "".to_string());
}
