use vstd::prelude::*;

verus! {

/// What a payload holds at one JSON pointer.
#[derive(Clone, Debug)]
pub enum JsonText {
    /// The payload is not a JSON document.
    Malformed,
    /// The document has nothing at the pointer.
    Missing,
    /// The document holds something other than a string there.
    NotText,
    /// The string held there.
    Text(String),
}

pub enum JsonTextView {
    Malformed,
    Missing,
    NotText,
    Text(Seq<char>),
}

impl View for JsonText {
    type V = JsonTextView;

    open spec fn view(&self) -> JsonTextView {
        match self {
            JsonText::Malformed => JsonTextView::Malformed,
            JsonText::Missing => JsonTextView::Missing,
            JsonText::NotText => JsonTextView::NotText,
            JsonText::Text(s) => JsonTextView::Text(s@),
        }
    }
}

/// What serde_json finds at `pointer` in the document encoded by `payload`.
pub uninterp spec fn json_text_at(payload: Seq<u8>, pointer: Seq<char>) -> JsonTextView;

/// Whether chrono reads `text` as a UTC date and time.
pub uninterp spec fn is_utc_timestamp(text: Seq<char>) -> bool;

/// Relies on `serde_json::from_slice` to parse the payload into a
/// `serde_json::Value`, and on `Value::pointer` to find the value at `pointer`.
#[verifier::external_body]
fn text_at(payload: &[u8], pointer: &str) -> (r: JsonText)
    ensures
        r@ == json_text_at(payload@, pointer@),
{
    match serde_json::from_slice::<serde_json::Value>(payload) {
        Err(_) => JsonText::Malformed,
        Ok(doc) => match doc.pointer(pointer) {
            None => JsonText::Missing,
            Some(serde_json::Value::String(s)) => JsonText::Text(s.clone()),
            Some(_) => JsonText::NotText,
        },
    }
}

/// Relies on chrono's `FromStr` for `DateTime<Utc>` (a relaxed RFC 3339) to
/// accept or refuse the text.
#[verifier::external_body]
fn parses_as_utc_timestamp(text: &str) -> (r: bool)
    ensures
        r == is_utc_timestamp(text@),
{
    text.parse::<chrono::DateTime<chrono::Utc>>().is_ok()
}

/// The fields of a login event, in schema order.
#[derive(PartialEq, Eq, Structural, Clone, Copy, Debug)]
pub enum LoginField {
    EventId,
    EventTs,
    EventType,
    Username,
    UserAgent,
    Email,
    IpAddress,
}

/// The JSON pointer of a field in a login-event payload.
pub open spec fn field_pointer(f: LoginField) -> Seq<char> {
    match f {
        LoginField::EventId => "/metadata/event_id"@,
        LoginField::EventTs => "/metadata/event_ts"@,
        LoginField::EventType => "/metadata/event_type"@,
        LoginField::Username => "/username"@,
        LoginField::UserAgent => "/user_agent"@,
        LoginField::Email => "/email"@,
        LoginField::IpAddress => "/ip_address"@,
    }
}

/// The JSON pointer of a field in a login-event payload.
pub fn pointer_of(f: LoginField) -> (r: &'static str)
    ensures
        r@ == field_pointer(f),
{
    match f {
        LoginField::EventId => "/metadata/event_id",
        LoginField::EventTs => "/metadata/event_ts",
        LoginField::EventType => "/metadata/event_type",
        LoginField::Username => "/username",
        LoginField::UserAgent => "/user_agent",
        LoginField::Email => "/email",
        LoginField::IpAddress => "/ip_address",
    }
}

/// Why one payload could not be decoded.
#[derive(PartialEq, Eq, Structural, Clone, Copy, Debug)]
pub enum DecodeCause {
    /// The payload is not a JSON document.
    Malformed,
    /// A required field is absent.
    MissingField(LoginField),
    /// A field holds something other than a string.
    TypeMismatch(LoginField),
    /// The event time is not a date and time.
    InvalidTimestamp,
}

/// A payload of a batch that could not be decoded, and why.
#[derive(PartialEq, Eq, Structural, Clone, Copy, Debug)]
pub struct DecodeError {
    pub index: usize,
    pub cause: DecodeCause,
}

/// The metadata block of an event.
#[derive(Clone, Debug)]
pub struct EventMetadata {
    pub event_id: String,
    pub event_ts: String,
    pub event_type: String,
}

/// A decoded login event.
#[derive(Clone, Debug)]
pub struct LoginEvent {
    pub metadata: EventMetadata,
    pub username: String,
    pub user_agent: String,
    pub email: String,
    pub ip_address: String,
}

pub struct LoginEventView {
    pub event_id: Seq<char>,
    pub event_ts: Seq<char>,
    pub event_type: Seq<char>,
    pub username: Seq<char>,
    pub user_agent: Seq<char>,
    pub email: Seq<char>,
    pub ip_address: Seq<char>,
}

impl View for LoginEvent {
    type V = LoginEventView;

    open spec fn view(&self) -> LoginEventView {
        LoginEventView {
            event_id: self.metadata.event_id@,
            event_ts: self.metadata.event_ts@,
            event_type: self.metadata.event_type@,
            username: self.username@,
            user_agent: self.user_agent@,
            email: self.email@,
            ip_address: self.ip_address@,
        }
    }
}

/// The text of field `f`, given what its pointer found, or why it cannot be had.
pub open spec fn classify_spec(f: LoginField, found: JsonTextView) -> Result<Seq<char>, DecodeCause> {
    match found {
        JsonTextView::Malformed => Err(DecodeCause::Malformed),
        JsonTextView::Missing => Err(DecodeCause::MissingField(f)),
        JsonTextView::NotText => Err(DecodeCause::TypeMismatch(f)),
        JsonTextView::Text(s) => Ok(s),
    }
}

/// The text of one field of a payload, or why it cannot be had.
pub open spec fn field_text(payload: Seq<u8>, f: LoginField) -> Result<Seq<char>, DecodeCause> {
    classify_spec(f, json_text_at(payload, field_pointer(f)))
}

/// A payload decoded as a login event: the fields are read in schema order and
/// the first one that fails decides the cause; the event time must also read
/// as a date and time.
pub open spec fn decode_spec(p: Seq<u8>) -> Result<LoginEventView, DecodeCause> {
    match field_text(p, LoginField::EventId) {
        Err(c) => Err(c),
        Ok(event_id) => match field_text(p, LoginField::EventTs) {
            Err(c) => Err(c),
            Ok(event_ts) => if !is_utc_timestamp(event_ts) {
                Err(DecodeCause::InvalidTimestamp)
            } else {
                match field_text(p, LoginField::EventType) {
                    Err(c) => Err(c),
                    Ok(event_type) => match field_text(p, LoginField::Username) {
                        Err(c) => Err(c),
                        Ok(username) => match field_text(p, LoginField::UserAgent) {
                            Err(c) => Err(c),
                            Ok(user_agent) => match field_text(p, LoginField::Email) {
                                Err(c) => Err(c),
                                Ok(email) => match field_text(p, LoginField::IpAddress) {
                                    Err(c) => Err(c),
                                    Ok(ip_address) => Ok(
                                        LoginEventView {
                                            event_id,
                                            event_ts,
                                            event_type,
                                            username,
                                            user_agent,
                                            email,
                                            ip_address,
                                        },
                                    ),
                                },
                            },
                        },
                    },
                }
            },
        },
    }
}

/// Turns what the pointer of field `f` found into the field's text, or into
/// the cause that stops decoding.
pub fn classify_field(f: LoginField, found: JsonText) -> (r: Result<String, DecodeCause>)
    ensures
        match classify_spec(f, found@) {
            Ok(s) => r is Ok && r->Ok_0@ == s,
            Err(c) => r == Err::<String, DecodeCause>(c),
        },
{
    match found {
        JsonText::Malformed => Err(DecodeCause::Malformed),
        JsonText::Missing => Err(DecodeCause::MissingField(f)),
        JsonText::NotText => Err(DecodeCause::TypeMismatch(f)),
        JsonText::Text(s) => Ok(s),
    }
}

/// Reads the text of one field of a payload.
pub fn read_field(payload: &[u8], f: LoginField) -> (r: Result<String, DecodeCause>)
    ensures
        match field_text(payload@, f) {
            Ok(s) => r is Ok && r->Ok_0@ == s,
            Err(c) => r == Err::<String, DecodeCause>(c),
        },
{
    classify_field(f, text_at(payload, pointer_of(f)))
}

/// Decodes one payload into a login event.
pub fn decode_login_event(payload: &[u8]) -> (r: Result<LoginEvent, DecodeCause>)
    ensures
        match decode_spec(payload@) {
            Ok(e) => r is Ok && r->Ok_0@ == e,
            Err(c) => r == Err::<LoginEvent, DecodeCause>(c),
        },
{
    let event_id = match read_field(payload, LoginField::EventId) {
        Ok(s) => s,
        Err(c) => return Err(c),
    };
    let event_ts = match read_field(payload, LoginField::EventTs) {
        Ok(s) => s,
        Err(c) => return Err(c),
    };
    if !parses_as_utc_timestamp(event_ts.as_str()) {
        return Err(DecodeCause::InvalidTimestamp);
    }
    let event_type = match read_field(payload, LoginField::EventType) {
        Ok(s) => s,
        Err(c) => return Err(c),
    };
    let username = match read_field(payload, LoginField::Username) {
        Ok(s) => s,
        Err(c) => return Err(c),
    };
    let user_agent = match read_field(payload, LoginField::UserAgent) {
        Ok(s) => s,
        Err(c) => return Err(c),
    };
    let email = match read_field(payload, LoginField::Email) {
        Ok(s) => s,
        Err(c) => return Err(c),
    };
    let ip_address = match read_field(payload, LoginField::IpAddress) {
        Ok(s) => s,
        Err(c) => return Err(c),
    };
    Ok(LoginEvent {
        metadata: EventMetadata { event_id, event_ts, event_type },
        username,
        user_agent,
        email,
        ip_address,
    })
}

/// Decodes a whole batch. Either every payload decodes, and the events come in
/// payload order, or the batch is refused at the first payload that does not.
pub fn decode_batch(payloads: &Vec<Vec<u8>>) -> (r: Result<Vec<LoginEvent>, DecodeError>)
    ensures
        r is Ok <==> forall|i: int| 0 <= i < payloads@.len() ==> (#[trigger] decode_spec(payloads@[i]@)) is Ok,
        r is Ok ==> r->Ok_0@.len() == payloads@.len() && forall|i: int|
            0 <= i < payloads@.len() ==> r->Ok_0@[i]@ == (#[trigger] decode_spec(payloads@[i]@))->Ok_0,
        r is Err ==> {
            let e = r->Err_0;
            &&& e.index < payloads@.len()
            &&& decode_spec(payloads@[e.index as int]@) == Err::<LoginEventView, DecodeCause>(e.cause)
            &&& forall|j: int| 0 <= j < e.index ==> (#[trigger] decode_spec(payloads@[j]@)) is Ok
        },
{
    let mut events: Vec<LoginEvent> = Vec::new();
    let mut i: usize = 0;
    while i < payloads.len()
        invariant
            i <= payloads@.len(),
            events@.len() == i,
            forall|j: int| 0 <= j < i ==> (#[trigger] decode_spec(payloads@[j]@)) is Ok,
            forall|j: int| 0 <= j < i ==> events@[j]@ == (#[trigger] decode_spec(payloads@[j]@))->Ok_0,
        decreases payloads@.len() - i,
    {
        match decode_login_event(payloads[i].as_slice()) {
            Ok(e) => events.push(e),
            Err(cause) => return Err(DecodeError { index: i, cause }),
        }
        i = i + 1;
    }
    Ok(events)
}

} // verus!
