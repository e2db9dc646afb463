use road_trip_backend::codec::{
    collect_parts, decode_event, decode_fields, encode_event, fields_of, literal, lookup,
    write_object,
};
use road_trip_backend::event::WebSocketEvent;
use road_trip_backend::json::{JsonField, JsonValue};
use road_trip_backend::parts::{assemble, no_parts, DecodeError, EventParts, Slot};

const ROOM: u128 = 0x550e8400_e29b_41d4_a716_446655440000;
const USER: u128 = 0x11111111_2222_4333_8444_555555555555;
const CALL: u128 = 0x0000000a_000b_400c_800d_00000000000e;
const MESSAGE: u128 = 0xffffffff_ffff_4fff_bfff_ffffffffffff;

const ROOM_TEXT: &str = "550e8400-e29b-41d4-a716-446655440000";
const USER_TEXT: &str = "11111111-2222-4333-8444-555555555555";
const CALL_TEXT: &str = "0000000a-000b-400c-800d-00000000000e";
const MESSAGE_TEXT: &str = "ffffffff-ffff-4fff-bfff-ffffffffffff";

fn field(name: &str, value: JsonValue) -> JsonField {
    JsonField { name: name.to_string(), value }
}

fn text(value: &str) -> JsonValue {
    JsonValue::Text(value.to_string())
}

fn every_variant() -> Vec<(WebSocketEvent, String)> {
    vec![
        (
            WebSocketEvent::JoinRoom { room_id: ROOM },
            format!("{{\"type\":\"join-room\",\"room_id\":\"{}\"}}", ROOM_TEXT),
        ),
        (
            WebSocketEvent::LeaveRoom { room_id: ROOM },
            format!("{{\"type\":\"leave-room\",\"room_id\":\"{}\"}}", ROOM_TEXT),
        ),
        (
            WebSocketEvent::LocationUpdate {
                room_id: ROOM,
                user_id: USER,
                latitude: "48.8566".to_string(),
                longitude: "-122.5".to_string(),
            },
            format!(
                "{{\"type\":\"location-update\",\"room_id\":\"{}\",\"user_id\":\"{}\",\"latitude\":48.8566,\"longitude\":-122.5}}",
                ROOM_TEXT, USER_TEXT
            ),
        ),
        (
            WebSocketEvent::NewMessage {
                room_id: ROOM,
                message_id: MESSAGE,
                user_id: USER,
                text: Some("hi".to_string()),
                image_url: None,
                message_type: "text".to_string(),
            },
            format!(
                "{{\"type\":\"new-message\",\"room_id\":\"{}\",\"message_id\":\"{}\",\"user_id\":\"{}\",\"text\":\"hi\",\"image_url\":null,\"message_type\":\"text\"}}",
                ROOM_TEXT, MESSAGE_TEXT, USER_TEXT
            ),
        ),
        (
            WebSocketEvent::NewMessage {
                room_id: ROOM,
                message_id: MESSAGE,
                user_id: USER,
                text: None,
                image_url: Some("https://example.org/a.png".to_string()),
                message_type: "image".to_string(),
            },
            format!(
                "{{\"type\":\"new-message\",\"room_id\":\"{}\",\"message_id\":\"{}\",\"user_id\":\"{}\",\"text\":null,\"image_url\":\"https://example.org/a.png\",\"message_type\":\"image\"}}",
                ROOM_TEXT, MESSAGE_TEXT, USER_TEXT
            ),
        ),
        (
            WebSocketEvent::UserJoined { room_id: ROOM, user_id: USER },
            format!("{{\"type\":\"user-joined\",\"room_id\":\"{}\",\"user_id\":\"{}\"}}", ROOM_TEXT, USER_TEXT),
        ),
        (
            WebSocketEvent::UserLeft { room_id: ROOM, user_id: USER },
            format!("{{\"type\":\"user-left\",\"room_id\":\"{}\",\"user_id\":\"{}\"}}", ROOM_TEXT, USER_TEXT),
        ),
        (
            WebSocketEvent::Typing { room_id: ROOM, user_id: USER },
            format!("{{\"type\":\"typing\",\"room_id\":\"{}\",\"user_id\":\"{}\"}}", ROOM_TEXT, USER_TEXT),
        ),
        (
            WebSocketEvent::UserTyping { room_id: ROOM, user_id: USER },
            format!("{{\"type\":\"user-typing\",\"room_id\":\"{}\",\"user_id\":\"{}\"}}", ROOM_TEXT, USER_TEXT),
        ),
        (
            WebSocketEvent::VoiceCallInitiate { room_id: ROOM, initiator_id: USER },
            format!(
                "{{\"type\":\"voice-call-initiate\",\"room_id\":\"{}\",\"initiator_id\":\"{}\"}}",
                ROOM_TEXT, USER_TEXT
            ),
        ),
        (
            WebSocketEvent::VoiceCallAccept { call_id: CALL, user_id: USER },
            format!("{{\"type\":\"voice-call-accept\",\"call_id\":\"{}\",\"user_id\":\"{}\"}}", CALL_TEXT, USER_TEXT),
        ),
        (
            WebSocketEvent::VoiceCallReject { call_id: CALL, user_id: USER },
            format!("{{\"type\":\"voice-call-reject\",\"call_id\":\"{}\",\"user_id\":\"{}\"}}", CALL_TEXT, USER_TEXT),
        ),
        (
            WebSocketEvent::VoiceCallEnd { call_id: CALL, user_id: USER },
            format!("{{\"type\":\"voice-call-end\",\"call_id\":\"{}\",\"user_id\":\"{}\"}}", CALL_TEXT, USER_TEXT),
        ),
        (
            WebSocketEvent::VoiceOffer { call_id: CALL, offer: "v=0".to_string() },
            format!("{{\"type\":\"voice-offer\",\"call_id\":\"{}\",\"offer\":\"v=0\"}}", CALL_TEXT),
        ),
        (
            WebSocketEvent::VoiceAnswer { call_id: CALL, answer: "v=1".to_string() },
            format!("{{\"type\":\"voice-answer\",\"call_id\":\"{}\",\"answer\":\"v=1\"}}", CALL_TEXT),
        ),
        (
            WebSocketEvent::IceCandidate { call_id: CALL, candidate: "candidate:1".to_string() },
            format!("{{\"type\":\"ice-candidate\",\"call_id\":\"{}\",\"candidate\":\"candidate:1\"}}", CALL_TEXT),
        ),
        (
            WebSocketEvent::VoiceCallIncoming { call_id: CALL, room_id: ROOM, initiator_id: USER },
            format!(
                "{{\"type\":\"voice-call-incoming\",\"call_id\":\"{}\",\"room_id\":\"{}\",\"initiator_id\":\"{}\"}}",
                CALL_TEXT, ROOM_TEXT, USER_TEXT
            ),
        ),
        (
            WebSocketEvent::VoiceCallAccepted { call_id: CALL, room_id: ROOM, user_id: USER },
            format!(
                "{{\"type\":\"voice-call-accepted\",\"call_id\":\"{}\",\"room_id\":\"{}\",\"user_id\":\"{}\"}}",
                CALL_TEXT, ROOM_TEXT, USER_TEXT
            ),
        ),
        (
            WebSocketEvent::VoiceCallRejected { call_id: CALL, room_id: ROOM, user_id: USER },
            format!(
                "{{\"type\":\"voice-call-rejected\",\"call_id\":\"{}\",\"room_id\":\"{}\",\"user_id\":\"{}\"}}",
                CALL_TEXT, ROOM_TEXT, USER_TEXT
            ),
        ),
        (
            WebSocketEvent::VoiceCallEnded { call_id: CALL, room_id: ROOM, user_id: USER },
            format!(
                "{{\"type\":\"voice-call-ended\",\"call_id\":\"{}\",\"room_id\":\"{}\",\"user_id\":\"{}\"}}",
                CALL_TEXT, ROOM_TEXT, USER_TEXT
            ),
        ),
    ]
}

#[test]
fn every_variant_is_written_with_its_tag_and_fields() {
    for (event, wire) in every_variant() {
        assert_eq!(encode_event(&event), wire);
    }
}

#[test]
fn every_variant_is_read_from_its_text() {
    for (event, wire) in every_variant() {
        assert_eq!(decode_event(&wire), Ok(event));
    }
}

#[test]
fn what_is_written_reads_back() {
    for (event, _) in every_variant() {
        assert_eq!(decode_event(&encode_event(&event)), Ok(event.clone()));
        assert_eq!(assemble(event.tag(), event.parts()), Ok(event));
    }
}

#[test]
fn strings_are_escaped_when_written() {
    let event = WebSocketEvent::VoiceOffer { call_id: CALL, offer: "a\"b\\c\nd\u{e9}".to_string() };
    let wire = format!(
        "{{\"type\":\"voice-offer\",\"call_id\":\"{}\",\"offer\":\"a\\\"b\\\\c\\nd\u{e9}\"}}",
        CALL_TEXT
    );
    assert_eq!(encode_event(&event), wire);
    assert_eq!(decode_event(&wire), Ok(event));
}

#[test]
fn text_that_is_no_object_is_malformed() {
    for wire in ["", "not json", "[1,2]", "\"join-room\"", "null", "42", "{\"type\":\"join-room\"", "{} {}"] {
        assert_eq!(decode_event(wire), Err(DecodeError::Malformed));
    }
}

#[test]
fn unknown_or_missing_tag_is_refused() {
    for wire in [
        "{}",
        "{\"room_id\":\"550e8400-e29b-41d4-a716-446655440000\"}",
        "{\"type\":\"shout\",\"room_id\":\"550e8400-e29b-41d4-a716-446655440000\"}",
        "{\"type\":\"JOIN-ROOM\",\"room_id\":\"550e8400-e29b-41d4-a716-446655440000\"}",
        "{\"type\":\"join-room \",\"room_id\":\"550e8400-e29b-41d4-a716-446655440000\"}",
        "{\"type\":\"\"}",
        "{\"type\":7}",
        "{\"type\":null}",
        "{\"type\":[\"join-room\"]}",
    ] {
        assert_eq!(decode_event(wire), Err(DecodeError::UnknownType));
    }
}

#[test]
fn missing_or_ill_typed_field_is_refused() {
    for wire in [
        "{\"type\":\"join-room\"}",
        "{\"type\":\"join-room\",\"room_id\":null}",
        "{\"type\":\"join-room\",\"room_id\":5}",
        "{\"type\":\"join-room\",\"room_id\":\"not-a-uuid\"}",
        "{\"type\":\"join-room\",\"room\":\"550e8400-e29b-41d4-a716-446655440000\"}",
        "{\"type\":\"typing\",\"room_id\":\"550e8400-e29b-41d4-a716-446655440000\"}",
        "{\"type\":\"voice-offer\",\"call_id\":\"550e8400-e29b-41d4-a716-446655440000\"}",
        "{\"type\":\"voice-offer\",\"call_id\":\"550e8400-e29b-41d4-a716-446655440000\",\"offer\":null}",
        "{\"type\":\"voice-offer\",\"call_id\":\"550e8400-e29b-41d4-a716-446655440000\",\"offer\":{\"sdp\":\"x\"}}",
        "{\"type\":\"voice-answer\",\"call_id\":\"550e8400-e29b-41d4-a716-446655440000\",\"offer\":\"x\"}",
        "{\"type\":\"location-update\",\"room_id\":\"550e8400-e29b-41d4-a716-446655440000\",\"user_id\":\"11111111-2222-4333-8444-555555555555\",\"latitude\":\"1.0\",\"longitude\":2.0}",
        "{\"type\":\"location-update\",\"room_id\":\"550e8400-e29b-41d4-a716-446655440000\",\"user_id\":\"11111111-2222-4333-8444-555555555555\",\"latitude\":1.0}",
        "{\"type\":\"new-message\",\"room_id\":\"550e8400-e29b-41d4-a716-446655440000\",\"message_id\":\"ffffffff-ffff-4fff-bfff-ffffffffffff\",\"user_id\":\"11111111-2222-4333-8444-555555555555\",\"text\":\"hi\"}",
        "{\"type\":\"new-message\",\"room_id\":\"550e8400-e29b-41d4-a716-446655440000\",\"message_id\":\"ffffffff-ffff-4fff-bfff-ffffffffffff\",\"user_id\":\"11111111-2222-4333-8444-555555555555\",\"text\":5,\"message_type\":\"text\"}",
    ] {
        assert_eq!(decode_event(wire), Err(DecodeError::InvalidField));
    }
}

#[test]
fn fields_that_the_variant_does_not_declare_are_passed_over() {
    let wire = "{\"extra\":[1,2,{\"a\":null}],\"user_id\":17,\"type\":\"join-room\",\"text\":false,\"room_id\":\"550e8400-e29b-41d4-a716-446655440000\"}";
    assert_eq!(decode_event(wire), Ok(WebSocketEvent::JoinRoom { room_id: ROOM }));
}

#[test]
fn text_and_image_of_a_message_may_be_left_out() {
    let wire = format!(
        "{{\"type\":\"new-message\",\"room_id\":\"{}\",\"message_id\":\"{}\",\"user_id\":\"{}\",\"message_type\":\"text\"}}",
        ROOM_TEXT, MESSAGE_TEXT, USER_TEXT
    );
    assert_eq!(
        decode_event(&wire),
        Ok(WebSocketEvent::NewMessage {
            room_id: ROOM,
            message_id: MESSAGE,
            user_id: USER,
            text: None,
            image_url: None,
            message_type: "text".to_string(),
        })
    );
}

#[test]
fn identifiers_are_read_in_every_form_of_a_uuid() {
    for form in [
        "550e8400-e29b-41d4-a716-446655440000",
        "550E8400-E29B-41D4-A716-446655440000",
        "550e8400e29b41d4a716446655440000",
        "urn:uuid:550e8400-e29b-41d4-a716-446655440000",
        "{550e8400-e29b-41d4-a716-446655440000}",
    ] {
        let wire = format!("{{\"type\":\"leave-room\",\"room_id\":\"{}\"}}", form);
        assert_eq!(decode_event(&wire), Ok(WebSocketEvent::LeaveRoom { room_id: ROOM }));
    }
    let wire = "{\"type\":\"leave-room\",\"room_id\":\"00000000-0000-0000-0000-000000000000\"}";
    assert_eq!(decode_event(wire), Ok(WebSocketEvent::LeaveRoom { room_id: 0 }));
    let wire = "{\"type\":\"leave-room\",\"room_id\":\"ffffffff-ffff-ffff-ffff-ffffffffffff\"}";
    assert_eq!(decode_event(wire), Ok(WebSocketEvent::LeaveRoom { room_id: u128::MAX }));
}

#[test]
fn numbers_are_kept_as_their_decimal_text() {
    let wire = format!(
        "{{\"type\":\"location-update\",\"room_id\":\"{}\",\"user_id\":\"{}\",\"latitude\":10,\"longitude\":-0.5e1}}",
        ROOM_TEXT, USER_TEXT
    );
    assert_eq!(
        decode_event(&wire),
        Ok(WebSocketEvent::LocationUpdate {
            room_id: ROOM,
            user_id: USER,
            latitude: "10".to_string(),
            longitude: format!("{:?}", -5.0f64),
        })
    );
}

#[test]
fn lookup_finds_the_first_member_of_a_name() {
    let fields = vec![
        field("a", JsonValue::Bool(true)),
        field("b", JsonValue::Null),
        field("a", JsonValue::Bool(false)),
    ];
    assert_eq!(lookup(&fields, "a"), Some(&JsonValue::Bool(true)));
    assert_eq!(lookup(&fields, "b"), Some(&JsonValue::Null));
    assert_eq!(lookup(&fields, "c"), None);
    assert_eq!(lookup(&Vec::new(), "a"), None);
}

#[test]
fn parts_are_collected_by_name() {
    let fields = vec![
        field("room_id", text(ROOM_TEXT)),
        field("user_id", JsonValue::Null),
        field("call_id", text("nope")),
        field("message_id", JsonValue::Number("4".to_string())),
        field("latitude", JsonValue::Number("1.25".to_string())),
        field("longitude", text("1.25")),
        field("text", text("hello")),
        field("image_url", JsonValue::Null),
        field("message_type", JsonValue::Array),
        field("offer", JsonValue::Object),
        field("answer", JsonValue::Bool(true)),
    ];
    assert_eq!(
        collect_parts(&fields),
        EventParts {
            call_id: Slot::Wrong,
            room_id: Slot::Given(ROOM),
            message_id: Slot::Wrong,
            user_id: Slot::Null,
            initiator_id: Slot::Absent,
            latitude: Slot::Given("1.25".to_string()),
            longitude: Slot::Wrong,
            text: Slot::Given("hello".to_string()),
            image_url: Slot::Null,
            message_type: Slot::Wrong,
            offer: Slot::Wrong,
            answer: Slot::Wrong,
            candidate: Slot::Absent,
        }
    );
}

#[test]
fn fields_decode_without_a_text() {
    let fields = vec![field("type", text("user-left")), field("room_id", text(ROOM_TEXT)), field("user_id", text(USER_TEXT))];
    assert_eq!(decode_fields(&fields), Ok(WebSocketEvent::UserLeft { room_id: ROOM, user_id: USER }));
    let fields = vec![field("room_id", text(ROOM_TEXT))];
    assert_eq!(decode_fields(&fields), Err(DecodeError::UnknownType));
    let fields = vec![field("type", text("user-left")), field("room_id", text(ROOM_TEXT))];
    assert_eq!(decode_fields(&fields), Err(DecodeError::InvalidField));
}

#[test]
fn assemble_takes_what_the_variant_declares() {
    let mut parts = no_parts();
    assert_eq!(assemble("join-room", parts.clone()), Err(DecodeError::InvalidField));
    parts.room_id = Slot::Given(ROOM);
    assert_eq!(assemble("join-room", parts.clone()), Ok(WebSocketEvent::JoinRoom { room_id: ROOM }));
    assert_eq!(assemble("leave-room", parts.clone()), Ok(WebSocketEvent::LeaveRoom { room_id: ROOM }));
    assert_eq!(assemble("typing", parts.clone()), Err(DecodeError::InvalidField));
    assert_eq!(assemble("join_room", parts.clone()), Err(DecodeError::UnknownType));
    parts.user_id = Slot::Given(USER);
    parts.call_id = Slot::Given(CALL);
    parts.offer = Slot::Given("o".to_string());
    assert_eq!(assemble("typing", parts.clone()), Ok(WebSocketEvent::Typing { room_id: ROOM, user_id: USER }));
    assert_eq!(
        assemble("voice-call-ended", parts.clone()),
        Ok(WebSocketEvent::VoiceCallEnded { call_id: CALL, room_id: ROOM, user_id: USER })
    );
    assert_eq!(
        assemble("voice-offer", parts.clone()),
        Ok(WebSocketEvent::VoiceOffer { call_id: CALL, offer: "o".to_string() })
    );
    assert_eq!(assemble("voice-answer", parts.clone()), Err(DecodeError::InvalidField));
    parts.text = Slot::Wrong;
    parts.message_id = Slot::Given(MESSAGE);
    parts.message_type = Slot::Given("text".to_string());
    assert_eq!(assemble("new-message", parts.clone()), Err(DecodeError::InvalidField));
    parts.text = Slot::Absent;
    parts.image_url = Slot::Null;
    assert_eq!(
        assemble("new-message", parts),
        Ok(WebSocketEvent::NewMessage {
            room_id: ROOM,
            message_id: MESSAGE,
            user_id: USER,
            text: None,
            image_url: None,
            message_type: "text".to_string(),
        })
    );
}

#[test]
fn slots_give_required_and_optional_values() {
    assert_eq!(Slot::Given(3u128).required(), Ok(3));
    assert_eq!(Slot::<u128>::Absent.required(), Err(DecodeError::InvalidField));
    assert_eq!(Slot::<u128>::Null.required(), Err(DecodeError::InvalidField));
    assert_eq!(Slot::<u128>::Wrong.required(), Err(DecodeError::InvalidField));
    assert_eq!(Slot::Given(3u128).optional(), Ok(Some(3)));
    assert_eq!(Slot::<u128>::Absent.optional(), Ok(None));
    assert_eq!(Slot::<u128>::Null.optional(), Ok(None));
    assert_eq!(Slot::<u128>::Wrong.optional(), Err(DecodeError::InvalidField));
}

#[test]
fn members_are_listed_and_written_as_an_object() {
    assert_eq!(write_object(&Vec::new()), "{}");
    let one = vec![field("a", JsonValue::Number("1".to_string()))];
    assert_eq!(write_object(&one), "{\"a\":1}");
    let more = vec![
        field("a", JsonValue::Number("1".to_string())),
        field("b", text("x")),
        field("c\"", JsonValue::Null),
        field("d", JsonValue::Bool(true)),
        field("e", JsonValue::Bool(false)),
        field("f", JsonValue::Array),
        field("g", JsonValue::Object),
    ];
    assert_eq!(
        write_object(&more),
        "{\"a\":1,\"b\":\"x\",\"c\\\"\":null,\"d\":true,\"e\":false,\"f\":[],\"g\":{}}"
    );
    assert_eq!(literal(&text("a\nb")), "\"a\\nb\"");
    assert_eq!(literal(&JsonValue::Number("-1.5".to_string())), "-1.5");
    let mut parts = no_parts();
    parts.room_id = Slot::Given(ROOM);
    parts.text = Slot::Null;
    parts.offer = Slot::Wrong;
    parts.latitude = Slot::Given("2.5".to_string());
    parts.candidate = Slot::Given("c\"".to_string());
    let listed = fields_of("tag", &parts);
    assert_eq!(
        listed,
        vec![
            field("type", text("tag")),
            field("room_id", text(ROOM_TEXT)),
            field("latitude", JsonValue::Number("2.5".to_string())),
            field("text", JsonValue::Null),
            field("candidate", text("c\"")),
        ]
    );
    assert_eq!(
        write_object(&listed),
        format!(
            "{{\"type\":\"tag\",\"room_id\":\"{}\",\"latitude\":2.5,\"text\":null,\"candidate\":\"c\\\"\"}}",
            ROOM_TEXT
        )
    );
}

#[test]
fn members_that_are_written_are_collected_again() {
    for (event, _) in every_variant() {
        let listed = fields_of(event.tag(), &event.parts());
        assert_eq!(collect_parts(&listed), event.parts());
        assert_eq!(decode_fields(&listed), Ok(event));
    }
}

#[test]
fn control_characters_are_written_by_their_escapes() {
    let mut text = String::new();
    let mut escaped = String::new();
    for code in 0u32..0x80 {
        let c = char::from_u32(code).unwrap();
        text.push(c);
        match code {
            0x08 => escaped.push_str("\\b"),
            0x09 => escaped.push_str("\\t"),
            0x0a => escaped.push_str("\\n"),
            0x0c => escaped.push_str("\\f"),
            0x0d => escaped.push_str("\\r"),
            0x22 => escaped.push_str("\\\""),
            0x5c => escaped.push_str("\\\\"),
            0x00..=0x1f => {
                escaped.push_str("\\u00");
                escaped.push(char::from_digit(code / 16, 16).unwrap());
                escaped.push(char::from_digit(code % 16, 16).unwrap());
            }
            _ => escaped.push(c),
        }
    }
    text.push_str("\u{7f}\u{80}\u{2028}\u{1F600}");
    escaped.push_str("\u{7f}\u{80}\u{2028}\u{1F600}");
    let event = WebSocketEvent::IceCandidate { call_id: 0, candidate: text };
    let wire = format!(
        "{{\"type\":\"ice-candidate\",\"call_id\":\"00000000-0000-0000-0000-000000000000\",\"candidate\":\"{}\"}}",
        escaped
    );
    assert_eq!(encode_event(&event), wire);
    assert_eq!(decode_event(&wire), Ok(event));
}

#[test]
fn identifiers_are_written_as_hyphenated_lower_case_uuids() {
    let cases: [(u128, &str); 5] = [
        (0, "00000000-0000-0000-0000-000000000000"),
        (1, "00000000-0000-0000-0000-000000000001"),
        (u128::MAX, "ffffffff-ffff-ffff-ffff-ffffffffffff"),
        (0x0123_4567_89ab_cdef_fedc_ba98_7654_3210, "01234567-89ab-cdef-fedc-ba9876543210"),
        (0xa000_0000_0000_0000_0000_0000_0000_000b, "a0000000-0000-0000-0000-00000000000b"),
    ];
    for (id, text) in cases {
        let wire = format!("{{\"type\":\"leave-room\",\"room_id\":\"{}\"}}", text);
        assert_eq!(encode_event(&WebSocketEvent::LeaveRoom { room_id: id }), wire);
        assert_eq!(decode_event(&wire), Ok(WebSocketEvent::LeaveRoom { room_id: id }));
    }
}

fn hex_number(digits: &[char]) -> Option<u128> {
    let mut number: u128 = 0;
    for c in digits {
        number = number.checked_mul(16)? + c.to_digit(16)? as u128;
    }
    Some(number)
}

fn hyphenated(text: &[char]) -> Option<u128> {
    if text.len() != 36 || [8, 13, 18, 23].iter().any(|&i| text[i] != '-') {
        return None;
    }
    let digits: Vec<char> =
        text.iter().enumerate().filter(|(i, _)| ![8, 13, 18, 23].contains(i)).map(|(_, c)| *c).collect();
    hex_number(&digits)
}

fn uuid_by_the_rules(text: &str) -> Option<u128> {
    let chars: Vec<char> = text.chars().collect();
    match chars.len() {
        32 => hex_number(&chars),
        36 => hyphenated(&chars),
        38 if chars[0] == '{' && chars[37] == '}' => hyphenated(&chars[1..37]),
        45 if chars[..9].iter().collect::<String>().eq_ignore_ascii_case("urn:uuid:")
            && chars[..9].iter().all(|c| c.is_ascii()) =>
        {
            hyphenated(&chars[9..])
        }
        _ => None,
    }
}

#[test]
fn identifiers_are_read_by_the_rules_of_the_four_forms() {
    let good = "550e8400-e29b-41d4-a716-446655440000";
    let mut texts: Vec<String> = vec![
        String::new(),
        good.to_string(),
        good.to_uppercase(),
        good.replace('-', ""),
        format!("{{{}}}", good),
        format!("urn:uuid:{}", good),
        format!("URN:UUID:{}", good),
        format!("Urn:Uuid:{}", good.to_uppercase()),
        format!("urn-uuid:{}", good),
        format!("urn:uuid;{}", good),
        format!("xrn:uuid:{}", good),
        format!("({})", good),
        format!("{{{}", good),
        format!("{}}}", good),
        format!("{{{}]", good),
        format!("{{{}}}", good.replace('-', "")),
        format!("urn:uuid:{}", good.replace('-', "")),
        format!(" {}", good),
        format!("{} ", good),
        "550e8400e29b-41d4-a716-4466-55440000".to_string(),
        "550e8400-e29b-41d4-a716-44665544000".to_string(),
        "550e8400-e29b-41d4-a716-4466554400000".to_string(),
        "550e8400-e29b-41d4-a716-44665544000g".to_string(),
        "550e8400-e29b-41d4-a716-44665544000G".to_string(),
        "550e8400-e29b-41d4-a716+446655440000".to_string(),
        "550e8400_e29b_41d4_a716_446655440000".to_string(),
        "550e8400-e29b-41d4-a716-4466554400é".to_string(),
        "550e8400-e29b-41d4-a716-44665544é".to_string(),
        "é50e8400e29b41d4a716446655440000".to_string(),
        "550e8400e29b41d4a71644665544é".to_string(),
        "550e8400e29b41d4a7164466554400íí".to_string(),
        "----------------------------------".to_string(),
        "--------------------------------".to_string(),
        "+50e8400e29b41d4a716446655440000".to_string(),
        "0x0e8400e29b41d4a716446655440000".to_string(),
        "ａ50e8400e29b41d4a716446655440000".to_string(),
        "٠50e8400e29b41d4a716446655440000".to_string(),
        "urn:uuid:urn:uuid:550e8400-e29b-41d4-a716-44".to_string(),
        "ſrn:uuid:550e8400-e29b-41d4-a716-446655440000".to_string(),
        "urn:uuıd:550e8400-e29b-41d4-a716-446655440000".to_string(),
    ];
    let mut seed: u64 = 0x2545_f491_4f6c_dd1d;
    let alphabet: Vec<char> = "0123456789abcdefABCDEFgG-{}:urnid xé".chars().collect();
    for base in [good.to_string(), good.replace('-', ""), format!("{{{}}}", good), format!("urn:uuid:{}", good)] {
        for _ in 0..300 {
            let mut chars: Vec<char> = base.chars().collect();
            seed ^= seed << 13;
            seed ^= seed >> 7;
            seed ^= seed << 17;
            let at = (seed % chars.len() as u64) as usize;
            let with = alphabet[((seed >> 20) % alphabet.len() as u64) as usize];
            chars[at] = with;
            texts.push(chars.into_iter().collect());
        }
    }
    let mut taken = 0;
    for text in texts {
        let expected = uuid_by_the_rules(&text);
        let fields = vec![
            field("type", JsonValue::Text("leave-room".to_string())),
            field("room_id", JsonValue::Text(text.clone())),
        ];
        let decoded = decode_fields(&fields);
        match expected {
            Some(id) => {
                taken += 1;
                assert_eq!(decoded, Ok(WebSocketEvent::LeaveRoom { room_id: id }), "{:?}", text);
            }
            None => assert_eq!(decoded, Err(DecodeError::InvalidField), "{:?}", text),
        }
    }
    assert!(taken > 300);
}
