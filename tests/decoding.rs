use ingest_json::decode::{
    classify_field, decode_batch, decode_login_event, pointer_of, read_field, DecodeCause, DecodeError, JsonText,
    LoginField,
};

fn login_payload(id: &str, user: &str) -> Vec<u8> {
    format!(
        r#"{{"metadata":{{"event_id":"{id}","event_ts":"2023-05-04T10:11:12Z","event_type":"login"}},"username":"{user}","user_agent":"Mozilla/5.0","email":"{user}@example.com","ip_address":"10.0.0.1"}}"#
    )
    .into_bytes()
}

#[test]
fn decodes_a_well_formed_event() {
    let event = decode_login_event(&login_payload("e-1", "alice")).unwrap();
    assert_eq!(event.metadata.event_id, "e-1");
    assert_eq!(event.metadata.event_ts, "2023-05-04T10:11:12Z");
    assert_eq!(event.metadata.event_type, "login");
    assert_eq!(event.username, "alice");
    assert_eq!(event.user_agent, "Mozilla/5.0");
    assert_eq!(event.email, "alice@example.com");
    assert_eq!(event.ip_address, "10.0.0.1");
}

#[test]
fn ignores_fields_outside_the_schema() {
    let payload = br#"{"metadata":{"event_id":"x","event_ts":"2023-05-04 10:11:12+02:00","event_type":"login","extra":1},"username":"u","user_agent":"a","email":"e","ip_address":"i","other":[1,2]}"#;
    let event = decode_login_event(payload).unwrap();
    assert_eq!(event.username, "u");
    assert_eq!(event.metadata.event_ts, "2023-05-04 10:11:12+02:00");
}

#[test]
fn reads_one_field_by_pointer() {
    assert_eq!(pointer_of(LoginField::EventType), "/metadata/event_type");
    assert_eq!(read_field(&login_payload("e-9", "bob"), LoginField::Email).unwrap(), "bob@example.com");
    assert_eq!(read_field(b"{}", LoginField::Email), Err(DecodeCause::MissingField(LoginField::Email)));
}

#[test]
fn rejects_a_missing_field() {
    let payload = br#"{"metadata":{"event_id":"x","event_ts":"2023-05-04T10:11:12Z","event_type":"login"},"username":"u","user_agent":"a","ip_address":"i"}"#;
    assert_eq!(decode_login_event(payload).unwrap_err(), DecodeCause::MissingField(LoginField::Email));
}

#[test]
fn rejects_a_missing_metadata_field() {
    let payload = br#"{"metadata":{"event_id":"x","event_ts":"2023-05-04T10:11:12Z"},"username":"u","user_agent":"a","email":"e","ip_address":"i"}"#;
    assert_eq!(decode_login_event(payload).unwrap_err(), DecodeCause::MissingField(LoginField::EventType));
}

#[test]
fn rejects_a_field_of_another_type() {
    let payload = br#"{"metadata":{"event_id":7,"event_ts":"2023-05-04T10:11:12Z","event_type":"login"},"username":"u","user_agent":"a","email":"e","ip_address":"i"}"#;
    assert_eq!(decode_login_event(payload).unwrap_err(), DecodeCause::TypeMismatch(LoginField::EventId));
}

#[test]
fn rejects_a_malformed_payload() {
    assert_eq!(decode_login_event(b"{\"metadata\": ").unwrap_err(), DecodeCause::Malformed);
    assert_eq!(decode_login_event(b"").unwrap_err(), DecodeCause::Malformed);
}

#[test]
fn rejects_an_event_time_that_is_no_date() {
    let payload = br#"{"metadata":{"event_id":"x","event_ts":"yesterday","event_type":"login"},"username":"u","user_agent":"a","email":"e","ip_address":"i"}"#;
    assert_eq!(decode_login_event(payload).unwrap_err(), DecodeCause::InvalidTimestamp);
}

#[test]
fn first_failing_field_decides_the_cause() {
    let payload = br#"{"metadata":{"event_ts":"2023-05-04T10:11:12Z"},"username":3}"#;
    assert_eq!(decode_login_event(payload).unwrap_err(), DecodeCause::MissingField(LoginField::EventId));
}

#[test]
fn decodes_a_batch_in_order() {
    let batch = vec![login_payload("a", "u1"), login_payload("b", "u2"), login_payload("c", "u3")];
    let events = decode_batch(&batch).unwrap();
    assert_eq!(events.len(), 3);
    assert_eq!(events[0].metadata.event_id, "a");
    assert_eq!(events[1].username, "u2");
    assert_eq!(events[2].email, "u3@example.com");
}

#[test]
fn empty_batch_decodes_to_nothing() {
    assert_eq!(decode_batch(&vec![]).unwrap().len(), 0);
}

#[test]
fn batch_with_one_bad_record_is_rejected_whole() {
    let bad = br#"{"metadata":{"event_id":"x","event_ts":"2023-05-04T10:11:12Z","event_type":"login"},"user_agent":"a","email":"e","ip_address":"i"}"#.to_vec();
    let batch = vec![login_payload("a", "u1"), bad, login_payload("c", "u3")];
    assert_eq!(
        decode_batch(&batch).unwrap_err(),
        DecodeError { index: 1, cause: DecodeCause::MissingField(LoginField::Username) }
    );
}

#[test]
fn classifies_what_a_pointer_found() {
    assert_eq!(classify_field(LoginField::Email, JsonText::Text("a@b.c".to_string())), Ok("a@b.c".to_string()));
    assert_eq!(classify_field(LoginField::Email, JsonText::Missing), Err(DecodeCause::MissingField(LoginField::Email)));
    assert_eq!(classify_field(LoginField::IpAddress, JsonText::NotText), Err(DecodeCause::TypeMismatch(LoginField::IpAddress)));
    assert_eq!(classify_field(LoginField::Username, JsonText::Malformed), Err(DecodeCause::Malformed));
}
