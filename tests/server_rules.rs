use owb_core::server::{
    close_code, reply_text, CommandTarget, ConnectionRejection, QueryParams, ReadFailure,
};

#[test]
fn replies_name_the_queue() {
    assert_eq!(reply_text(Some(CommandTarget::Devices)), "I2C command received and forwarded");
    assert_eq!(reply_text(Some(CommandTarget::Leds)), "LED command received and forwarded");
    assert_eq!(reply_text(None), "Invalid command format");
}

#[test]
fn close_codes() {
    assert_eq!(close_code(ReadFailure::TextIsNotUtf8), 1007);
    assert_eq!(close_code(ReadFailure::ReservedOpcode), 1003);
    assert_eq!(close_code(ReadFailure::ReadFrame), 1002);
    assert_eq!(close_code(ReadFailure::UnexpectedMessageStart), 1002);
    assert_eq!(close_code(ReadFailure::MessageStartsWithContinuation), 1002);
}

#[test]
fn empty_session_id_is_refused() {
    let q = QueryParams { session: String::new() };
    assert_eq!(q.validate().err(), Some(ConnectionRejection::MissingSession));
    let q = QueryParams { session: "abc".to_string() };
    assert_eq!(q.validate().ok().map(|q| q.session), Some("abc".to_string()));
    assert_eq!(ConnectionRejection::MissingSession.message(), "Session ID is required");
    assert_eq!(ConnectionRejection::MissingQuery.message(), "Missing query parameters");
}
