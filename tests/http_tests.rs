use light_schedule::http::{index, not_found_handler, AutoLogger, ErrorBody, Responses};

#[test]
fn index_reports_up() {
    assert!(index().up);
}

#[test]
fn not_found_body_is_fixed() {
    assert_eq!(not_found_handler(), "{\"error:\": \"In Rust, not found.\"}");
}

#[test]
fn responses_carry_their_payload() {
    match Responses::<u32>::bad(String::from("broken")) {
        Responses::Bad(ErrorBody { error }) => assert_eq!(error, "broken"),
        Responses::Good(_) => panic!("expected a failure"),
    }
    match Responses::good(7u32) {
        Responses::Good(v) => assert_eq!(v, 7),
        Responses::Bad(_) => panic!("expected a success"),
    }
}

#[test]
fn logger_describes_answers() {
    assert_eq!(AutoLogger.name(), "AutoLogger");
    assert_eq!(AutoLogger::body_message(None), "(no body)");
    assert_eq!(AutoLogger::body_message(Some(String::from("{}"))), "{}");
    assert!(AutoLogger::is_ok_status(200));
    assert!(!AutoLogger::is_ok_status(404));
}
