//! The wire format: one JSON object per envelope. The member `type` holds
//! the tag; the other members are the fields of the variant, identifiers as
//! UUID strings.
//!
//! Reading goes from the text to the members of the object, from the
//! members to the parts by name, and from the parts to the envelope. Writing
//! goes the same way back.

use vstd::prelude::*;
use vstd::string::StringExecFns;
use crate::event::{EventView, WebSocketEvent};
use crate::ident::{
    id_text, lemma_uuid_text_reads_back, parse_id, spec_uuid_of_text, spec_uuid_text,
};
use crate::json::{
    fields_view, json_object_fields, parse_object, quote, spec_json_string_literal, JsonField,
    JsonFieldView, JsonValue, JsonValueView,
};
use crate::parts::{
    assemble, decoded_view, lemma_assemble_inverts_parts, spec_assemble, spec_parts, spec_tag,
    DecodeError, EventParts, EventPartsView, Slot,
};
use crate::text::same_text;

verus! {

/// What the first member of the given name holds.
pub open spec fn spec_lookup(fields: Seq<JsonFieldView>, name: Seq<char>) -> Option<JsonValueView>
    decreases fields.len(),
{
    if fields.len() == 0 {
        None
    } else if fields[0].name == name {
        Some(fields[0].value)
    } else {
        spec_lookup(fields.skip(1), name)
    }
}

/// The slot of an identifier: given where the member is a string that
/// reads as a UUID.
pub open spec fn spec_id_slot(found: Option<JsonValueView>) -> Slot<u128> {
    match found {
        None => Slot::Absent,
        Some(JsonValueView::Null) => Slot::Null,
        Some(JsonValueView::Text(text)) => match spec_uuid_of_text(text) {
            Some(id) => Slot::Given(id),
            None => Slot::Wrong,
        },
        Some(_) => Slot::Wrong,
    }
}

/// The slot of a string: given where the member is a string.
pub open spec fn spec_text_slot(found: Option<JsonValueView>) -> Slot<Seq<char>> {
    match found {
        None => Slot::Absent,
        Some(JsonValueView::Null) => Slot::Null,
        Some(JsonValueView::Text(text)) => Slot::Given(text),
        Some(_) => Slot::Wrong,
    }
}

/// The slot of a number: given, as its decimal text, where the member is a
/// number.
pub open spec fn spec_number_slot(found: Option<JsonValueView>) -> Slot<Seq<char>> {
    match found {
        None => Slot::Absent,
        Some(JsonValueView::Null) => Slot::Null,
        Some(JsonValueView::Number(text)) => Slot::Given(text),
        Some(_) => Slot::Wrong,
    }
}

/// The parts that the members of an object hold, each looked up under its
/// name.
pub open spec fn spec_collect(fields: Seq<JsonFieldView>) -> EventPartsView {
    EventPartsView {
        call_id: spec_id_slot(spec_lookup(fields, "call_id"@)),
        room_id: spec_id_slot(spec_lookup(fields, "room_id"@)),
        message_id: spec_id_slot(spec_lookup(fields, "message_id"@)),
        user_id: spec_id_slot(spec_lookup(fields, "user_id"@)),
        initiator_id: spec_id_slot(spec_lookup(fields, "initiator_id"@)),
        latitude: spec_number_slot(spec_lookup(fields, "latitude"@)),
        longitude: spec_number_slot(spec_lookup(fields, "longitude"@)),
        text: spec_text_slot(spec_lookup(fields, "text"@)),
        image_url: spec_text_slot(spec_lookup(fields, "image_url"@)),
        message_type: spec_text_slot(spec_lookup(fields, "message_type"@)),
        offer: spec_text_slot(spec_lookup(fields, "offer"@)),
        answer: spec_text_slot(spec_lookup(fields, "answer"@)),
        candidate: spec_text_slot(spec_lookup(fields, "candidate"@)),
    }
}

/// The envelope that the members of an object stand for: the member `type`
/// must be a string, and it and the parts must build an envelope.
pub open spec fn spec_decode_fields(fields: Seq<JsonFieldView>) -> Result<EventView, DecodeError> {
    match spec_text_slot(spec_lookup(fields, "type"@)) {
        Slot::Given(tag) => spec_assemble(tag, spec_collect(fields)),
        _ => Err(DecodeError::UnknownType),
    }
}

/// The envelope that a text stands for.
pub open spec fn spec_decode(text: Seq<char>) -> Result<EventView, DecodeError> {
    match json_object_fields(text) {
        Some(fields) => spec_decode_fields(fields),
        None => Err(DecodeError::Malformed),
    }
}

/// The view of what a lookup found.
pub open spec fn found_view(found: Option<&JsonValue>) -> Option<JsonValueView> {
    match found {
        Some(value) => Some(value@),
        None => None,
    }
}

/// Finds the first member of the given name.
pub fn lookup<'a>(fields: &'a Vec<JsonField>, name: &str) -> (found: Option<&'a JsonValue>)
    ensures
        found_view(found) == spec_lookup(fields_view(fields@), name@),
{
    let ghost all = fields_view(fields@);
    let mut i: usize = 0;
    proof {
        assert(all.skip(0) =~= all);
    }
    while i < fields.len()
        invariant
            i <= fields.len(),
            all == fields_view(fields@),
            spec_lookup(all, name@) == spec_lookup(all.skip(i as int), name@),
        decreases fields.len() - i,
    {
        if same_text(fields[i].name.as_str(), name) {
            return Some(&fields[i].value);
        }
        proof {
            assert(all.skip(i as int).skip(1) =~= all.skip(i + 1));
        }
        i += 1;
    }
    None
}

fn id_slot(found: Option<&JsonValue>) -> (slot: Slot<u128>)
    ensures
        slot == spec_id_slot(found_view(found)),
{
    match found {
        None => Slot::Absent,
        Some(JsonValue::Null) => Slot::Null,
        Some(JsonValue::Text(text)) => match parse_id(text.as_str()) {
            Some(id) => Slot::Given(id),
            None => Slot::Wrong,
        },
        Some(_) => Slot::Wrong,
    }
}

fn text_slot(found: Option<&JsonValue>) -> (slot: Slot<String>)
    ensures
        crate::parts::slot_chars(slot) == spec_text_slot(found_view(found)),
{
    match found {
        None => Slot::Absent,
        Some(JsonValue::Null) => Slot::Null,
        Some(JsonValue::Text(text)) => Slot::Given(text.clone()),
        Some(_) => Slot::Wrong,
    }
}

fn number_slot(found: Option<&JsonValue>) -> (slot: Slot<String>)
    ensures
        crate::parts::slot_chars(slot) == spec_number_slot(found_view(found)),
{
    match found {
        None => Slot::Absent,
        Some(JsonValue::Null) => Slot::Null,
        Some(JsonValue::Number(text)) => Slot::Given(text.clone()),
        Some(_) => Slot::Wrong,
    }
}

/// Looks every field of the protocol up among the members of an object.
pub fn collect_parts(fields: &Vec<JsonField>) -> (parts: EventParts)
    ensures
        parts@ == spec_collect(fields_view(fields@)),
{
    EventParts {
        call_id: id_slot(lookup(fields, "call_id")),
        room_id: id_slot(lookup(fields, "room_id")),
        message_id: id_slot(lookup(fields, "message_id")),
        user_id: id_slot(lookup(fields, "user_id")),
        initiator_id: id_slot(lookup(fields, "initiator_id")),
        latitude: number_slot(lookup(fields, "latitude")),
        longitude: number_slot(lookup(fields, "longitude")),
        text: text_slot(lookup(fields, "text")),
        image_url: text_slot(lookup(fields, "image_url")),
        message_type: text_slot(lookup(fields, "message_type")),
        offer: text_slot(lookup(fields, "offer")),
        answer: text_slot(lookup(fields, "answer")),
        candidate: text_slot(lookup(fields, "candidate")),
    }
}

/// Builds the envelope that the members of an object stand for.
pub fn decode_fields(fields: &Vec<JsonField>) -> (decoded: Result<WebSocketEvent, DecodeError>)
    ensures
        decoded_view(decoded) == spec_decode_fields(fields_view(fields@)),
{
    match text_slot(lookup(fields, "type")) {
        Slot::Given(tag) => assemble(tag.as_str(), collect_parts(fields)),
        _ => Err(DecodeError::UnknownType),
    }
}

/// Reads one envelope from a text.
pub fn decode_event(text: &str) -> (decoded: Result<WebSocketEvent, DecodeError>)
    ensures
        decoded_view(decoded) == spec_decode(text@),
{
    match parse_object(text) {
        Some(fields) => decode_fields(&fields),
        None => Err(DecodeError::Malformed),
    }
}

/// The view of an optional value.
pub open spec fn value_view(value: Option<JsonValue>) -> Option<JsonValueView> {
    match value {
        Some(v) => Some(v@),
        None => None,
    }
}

/// What is written for an identifier: its UUID as a string.
pub open spec fn spec_id_value(slot: Slot<u128>) -> Option<JsonValueView> {
    match slot {
        Slot::Given(id) => Some(JsonValueView::Text(spec_uuid_text(id))),
        Slot::Null => Some(JsonValueView::Null),
        _ => None,
    }
}

/// What is written for a string.
pub open spec fn spec_text_value(slot: Slot<Seq<char>>) -> Option<JsonValueView> {
    match slot {
        Slot::Given(text) => Some(JsonValueView::Text(text)),
        Slot::Null => Some(JsonValueView::Null),
        _ => None,
    }
}

/// What is written for a number: the decimal text that is held.
pub open spec fn spec_number_value(slot: Slot<Seq<char>>) -> Option<JsonValueView> {
    match slot {
        Slot::Given(text) => Some(JsonValueView::Number(text)),
        Slot::Null => Some(JsonValueView::Null),
        _ => None,
    }
}

/// A list of members with one more at its end, where there is a value for
/// it.
pub open spec fn spec_with(
    fields: Seq<JsonFieldView>,
    name: Seq<char>,
    value: Option<JsonValueView>,
) -> Seq<JsonFieldView> {
    match value {
        Some(value) => fields.push(JsonFieldView { name, value }),
        None => fields,
    }
}

/// The members of the object that is written for a tag and a set of parts:
/// the tag first, then every part that is given or `null`, in a fixed order.
pub open spec fn spec_fields(tag: Seq<char>, parts: EventPartsView) -> Seq<JsonFieldView> {
    let m = seq![JsonFieldView { name: "type"@, value: JsonValueView::Text(tag) }];
    let m = spec_with(m, "call_id"@, spec_id_value(parts.call_id));
    let m = spec_with(m, "room_id"@, spec_id_value(parts.room_id));
    let m = spec_with(m, "message_id"@, spec_id_value(parts.message_id));
    let m = spec_with(m, "user_id"@, spec_id_value(parts.user_id));
    let m = spec_with(m, "initiator_id"@, spec_id_value(parts.initiator_id));
    let m = spec_with(m, "latitude"@, spec_number_value(parts.latitude));
    let m = spec_with(m, "longitude"@, spec_number_value(parts.longitude));
    let m = spec_with(m, "text"@, spec_text_value(parts.text));
    let m = spec_with(m, "image_url"@, spec_text_value(parts.image_url));
    let m = spec_with(m, "message_type"@, spec_text_value(parts.message_type));
    let m = spec_with(m, "offer"@, spec_text_value(parts.offer));
    let m = spec_with(m, "answer"@, spec_text_value(parts.answer));
    spec_with(m, "candidate"@, spec_text_value(parts.candidate))
}

/// A value as it is written. Of an array and of an object only the kind is
/// held, and they are written empty.
pub open spec fn spec_literal(value: JsonValueView) -> Seq<char> {
    match value {
        JsonValueView::Null => "null"@,
        JsonValueView::Bool(flag) => if flag {
            "true"@
        } else {
            "false"@
        },
        JsonValueView::Number(text) => text,
        JsonValueView::Text(text) => spec_json_string_literal(text),
        JsonValueView::Array => "[]"@,
        JsonValueView::Object => "{}"@,
    }
}

/// One member as it is written: the name as a string, a colon, the value.
pub open spec fn spec_member_text(field: JsonFieldView) -> Seq<char> {
    spec_json_string_literal(field.name) + ":"@ + spec_literal(field.value)
}

/// Members as they are written, with commas between them.
pub open spec fn spec_joined(fields: Seq<JsonFieldView>) -> Seq<char>
    decreases fields.len(),
{
    if fields.len() == 0 {
        Seq::<char>::empty()
    } else if fields.len() == 1 {
        spec_member_text(fields[0])
    } else {
        spec_joined(fields.drop_last()) + ","@ + spec_member_text(fields.last())
    }
}

/// An object as it is written: the members between braces.
pub open spec fn spec_object_text(fields: Seq<JsonFieldView>) -> Seq<char> {
    "{"@ + spec_joined(fields) + "}"@
}

/// The text that is written for an envelope.
pub open spec fn spec_encode(event: EventView) -> Seq<char> {
    spec_object_text(spec_fields(spec_tag(event), spec_parts(event)))
}

fn id_value(slot: &Slot<u128>) -> (value: Option<JsonValue>)
    ensures
        value_view(value) == spec_id_value(*slot),
{
    match slot {
        Slot::Given(id) => Some(JsonValue::Text(id_text(*id))),
        Slot::Null => Some(JsonValue::Null),
        _ => None,
    }
}

fn text_value(slot: &Slot<String>) -> (value: Option<JsonValue>)
    ensures
        value_view(value) == spec_text_value(crate::parts::slot_chars(*slot)),
{
    match slot {
        Slot::Given(text) => Some(JsonValue::Text(text.clone())),
        Slot::Null => Some(JsonValue::Null),
        _ => None,
    }
}

fn number_value(slot: &Slot<String>) -> (value: Option<JsonValue>)
    ensures
        value_view(value) == spec_number_value(crate::parts::slot_chars(*slot)),
{
    match slot {
        Slot::Given(text) => Some(JsonValue::Number(text.clone())),
        Slot::Null => Some(JsonValue::Null),
        _ => None,
    }
}

fn with(fields: &mut Vec<JsonField>, name: &str, value: Option<JsonValue>)
    ensures
        fields_view(final(fields)@) == spec_with(fields_view(old(fields)@), name@, value_view(value)),
{
    match value {
        Some(value) => {
            let field = JsonField { name: name.to_owned(), value };
            fields.push(field);
            assert(fields_view(fields@) =~= fields_view(old(fields)@).push(field@));
        },
        None => {},
    }
}

/// Lists the members of the object that is written for a tag and a set of
/// parts.
pub fn fields_of(tag: &str, parts: &EventParts) -> (fields: Vec<JsonField>)
    ensures
        fields_view(fields@) == spec_fields(tag@, parts@),
{
    let mut fields: Vec<JsonField> = Vec::new();
    let first = JsonField { name: "type".to_owned(), value: JsonValue::Text(tag.to_owned()) };
    fields.push(first);
    assert(fields_view(fields@) =~= seq![first@]);
    with(&mut fields, "call_id", id_value(&parts.call_id));
    with(&mut fields, "room_id", id_value(&parts.room_id));
    with(&mut fields, "message_id", id_value(&parts.message_id));
    with(&mut fields, "user_id", id_value(&parts.user_id));
    with(&mut fields, "initiator_id", id_value(&parts.initiator_id));
    with(&mut fields, "latitude", number_value(&parts.latitude));
    with(&mut fields, "longitude", number_value(&parts.longitude));
    with(&mut fields, "text", text_value(&parts.text));
    with(&mut fields, "image_url", text_value(&parts.image_url));
    with(&mut fields, "message_type", text_value(&parts.message_type));
    with(&mut fields, "offer", text_value(&parts.offer));
    with(&mut fields, "answer", text_value(&parts.answer));
    with(&mut fields, "candidate", text_value(&parts.candidate));
    fields
}

/// Writes a value.
pub fn literal(value: &JsonValue) -> (text: String)
    ensures
        text@ == spec_literal(value@),
{
    match value {
        JsonValue::Null => "null".to_owned(),
        JsonValue::Bool(flag) => if *flag {
            "true".to_owned()
        } else {
            "false".to_owned()
        },
        JsonValue::Number(text) => text.clone(),
        JsonValue::Text(text) => quote(text.as_str()),
        JsonValue::Array => "[]".to_owned(),
        JsonValue::Object => "{}".to_owned(),
    }
}

/// Writes a list of members as one JSON object.
pub fn write_object(fields: &Vec<JsonField>) -> (text: String)
    ensures
        text@ == spec_object_text(fields_view(fields@)),
{
    let ghost all = fields_view(fields@);
    let mut text = "{".to_owned();
    let mut i: usize = 0;
    while i < fields.len()
        invariant
            i <= fields.len(),
            all == fields_view(fields@),
            text@ == "{"@ + spec_joined(all.take(i as int)),
        decreases fields.len() - i,
    {
        if i > 0 {
            text.append(",");
        }
        let name = quote(fields[i].name.as_str());
        text.append(name.as_str());
        text.append(":");
        let value = literal(&fields[i].value);
        text.append(value.as_str());
        proof {
            let done = all.take(i + 1);
            assert(done.drop_last() =~= all.take(i as int));
            assert(done.last() == all[i as int]);
            assert(text@ =~= "{"@ + spec_joined(done));
        }
        i += 1;
    }
    proof {
        assert(all.take(i as int) =~= all);
    }
    text.append("}");
    text
}

/// Writes one envelope as a text.
pub fn encode_event(event: &WebSocketEvent) -> (text: String)
    ensures
        text@ == spec_encode(event@),
{
    let parts = event.parts();
    let fields = fields_of(event.tag(), &parts);
    write_object(&fields)
}

/// What a lookup finds in a list with one more member at its end: what it
/// found in the list, or else the new member where it has the name.
pub open spec fn spec_or_named(
    found: Option<JsonValueView>,
    name: Seq<char>,
    value: Option<JsonValueView>,
    target: Seq<char>,
) -> Option<JsonValueView> {
    match found {
        Some(v) => Some(v),
        None => if name == target {
            value
        } else {
            None
        },
    }
}

/// Looking a name up in a list with one more member at its end.
pub proof fn lemma_lookup_with(
    fields: Seq<JsonFieldView>,
    name: Seq<char>,
    value: Option<JsonValueView>,
    target: Seq<char>,
)
    ensures
        spec_lookup(spec_with(fields, name, value), target) == spec_or_named(
            spec_lookup(fields, target),
            name,
            value,
            target,
        ),
    decreases fields.len(),
{
    match value {
        Some(v) => {
            let added = JsonFieldView { name, value: v };
            let longer = fields.push(added);
            assert(spec_with(fields, name, value) == longer);
            if fields.len() == 0 {
                assert(longer.len() == 1 && longer[0] == added);
                assert(longer.skip(1) =~= Seq::<JsonFieldView>::empty());
                assert(spec_lookup(longer.skip(1), target) is None);
                assert(spec_lookup(fields, target) is None);
            } else {
                assert(longer[0] == fields[0]);
                assert(longer.skip(1) =~= fields.skip(1).push(added));
                lemma_lookup_with(fields.skip(1), name, value, target);
                assert(spec_with(fields.skip(1), name, value) == longer.skip(1));
                if fields[0].name != target {
                    assert(spec_lookup(longer, target) == spec_lookup(longer.skip(1), target));
                    assert(spec_lookup(fields, target) == spec_lookup(fields.skip(1), target));
                }
            }
        },
        None => {},
    }
}

/// The names of the members, told apart by their lengths and, where these
/// agree, by a character.
proof fn lemma_name_shapes()
    ensures
        "type"@.len() == 4 && "type"@[1] == 'y',
        "call_id"@.len() == 7 && "call_id"@[0] == 'c',
        "room_id"@.len() == 7 && "room_id"@[0] == 'r',
        "message_id"@.len() == 10,
        "user_id"@.len() == 7 && "user_id"@[0] == 'u',
        "initiator_id"@.len() == 12 && "initiator_id"@[0] == 'i',
        "latitude"@.len() == 8,
        "longitude"@.len() == 9 && "longitude"@[0] == 'l',
        "text"@.len() == 4 && "text"@[1] == 'e',
        "image_url"@.len() == 9 && "image_url"@[0] == 'i',
        "message_type"@.len() == 12 && "message_type"@[0] == 'm',
        "offer"@.len() == 5,
        "answer"@.len() == 6,
        "candidate"@.len() == 9 && "candidate"@[0] == 'c',
{
    reveal_strlit("type");
    reveal_strlit("call_id");
    reveal_strlit("room_id");
    reveal_strlit("message_id");
    reveal_strlit("user_id");
    reveal_strlit("initiator_id");
    reveal_strlit("latitude");
    reveal_strlit("longitude");
    reveal_strlit("text");
    reveal_strlit("image_url");
    reveal_strlit("message_type");
    reveal_strlit("offer");
    reveal_strlit("answer");
    reveal_strlit("candidate");
}

/// What a lookup finds among the members that are written for a tag and a
/// set of parts: the first member of the name.
pub open spec fn spec_first_named(tag: Seq<char>, parts: EventPartsView, target: Seq<char>) -> Option<JsonValueView> {
    let found = if "type"@ == target {
        Some(JsonValueView::Text(tag))
    } else {
        None
    };
    let found = spec_or_named(found, "call_id"@, spec_id_value(parts.call_id), target);
    let found = spec_or_named(found, "room_id"@, spec_id_value(parts.room_id), target);
    let found = spec_or_named(found, "message_id"@, spec_id_value(parts.message_id), target);
    let found = spec_or_named(found, "user_id"@, spec_id_value(parts.user_id), target);
    let found = spec_or_named(found, "initiator_id"@, spec_id_value(parts.initiator_id), target);
    let found = spec_or_named(found, "latitude"@, spec_number_value(parts.latitude), target);
    let found = spec_or_named(found, "longitude"@, spec_number_value(parts.longitude), target);
    let found = spec_or_named(found, "text"@, spec_text_value(parts.text), target);
    let found = spec_or_named(found, "image_url"@, spec_text_value(parts.image_url), target);
    let found = spec_or_named(found, "message_type"@, spec_text_value(parts.message_type), target);
    let found = spec_or_named(found, "offer"@, spec_text_value(parts.offer), target);
    let found = spec_or_named(found, "answer"@, spec_text_value(parts.answer), target);
    let found = spec_or_named(found, "candidate"@, spec_text_value(parts.candidate), target);
    found
}

/// Looking a name up among the members that are written for a tag and a
/// set of parts.
pub proof fn lemma_lookup_in_fields(tag: Seq<char>, parts: EventPartsView, target: Seq<char>)
    ensures
        spec_lookup(spec_fields(tag, parts), target) == spec_first_named(tag, parts, target),
{
    let m = seq![JsonFieldView { name: "type"@, value: JsonValueView::Text(tag) }];
    assert(spec_lookup(m, target) == (if "type"@ == target {
        Some(JsonValueView::Text(tag))
    } else {
        None::<JsonValueView>
    })) by {
        assert(m.len() == 1 && m[0].name == "type"@ && m[0].value == JsonValueView::Text(tag));
        assert(m.skip(1) =~= Seq::<JsonFieldView>::empty());
        assert(spec_lookup(m.skip(1), target) is None);
    }
    lemma_lookup_with(m, "call_id"@, spec_id_value(parts.call_id), target);
    let m = spec_with(m, "call_id"@, spec_id_value(parts.call_id));
    lemma_lookup_with(m, "room_id"@, spec_id_value(parts.room_id), target);
    let m = spec_with(m, "room_id"@, spec_id_value(parts.room_id));
    lemma_lookup_with(m, "message_id"@, spec_id_value(parts.message_id), target);
    let m = spec_with(m, "message_id"@, spec_id_value(parts.message_id));
    lemma_lookup_with(m, "user_id"@, spec_id_value(parts.user_id), target);
    let m = spec_with(m, "user_id"@, spec_id_value(parts.user_id));
    lemma_lookup_with(m, "initiator_id"@, spec_id_value(parts.initiator_id), target);
    let m = spec_with(m, "initiator_id"@, spec_id_value(parts.initiator_id));
    lemma_lookup_with(m, "latitude"@, spec_number_value(parts.latitude), target);
    let m = spec_with(m, "latitude"@, spec_number_value(parts.latitude));
    lemma_lookup_with(m, "longitude"@, spec_number_value(parts.longitude), target);
    let m = spec_with(m, "longitude"@, spec_number_value(parts.longitude));
    lemma_lookup_with(m, "text"@, spec_text_value(parts.text), target);
    let m = spec_with(m, "text"@, spec_text_value(parts.text));
    lemma_lookup_with(m, "image_url"@, spec_text_value(parts.image_url), target);
    let m = spec_with(m, "image_url"@, spec_text_value(parts.image_url));
    lemma_lookup_with(m, "message_type"@, spec_text_value(parts.message_type), target);
    let m = spec_with(m, "message_type"@, spec_text_value(parts.message_type));
    lemma_lookup_with(m, "offer"@, spec_text_value(parts.offer), target);
    let m = spec_with(m, "offer"@, spec_text_value(parts.offer));
    lemma_lookup_with(m, "answer"@, spec_text_value(parts.answer), target);
    let m = spec_with(m, "answer"@, spec_text_value(parts.answer));
    lemma_lookup_with(m, "candidate"@, spec_text_value(parts.candidate), target);
    let m = spec_with(m, "candidate"@, spec_text_value(parts.candidate));
}

/// Every member that is written is found again under its name: the tag
/// under `type`, and each part that is given or `null` under its own.
pub proof fn lemma_fields_hold_parts(tag: Seq<char>, parts: EventPartsView)
    ensures
        spec_lookup(spec_fields(tag, parts), "type"@) == Some(JsonValueView::Text(tag)),
        spec_lookup(spec_fields(tag, parts), "call_id"@) == spec_id_value(parts.call_id),
        spec_lookup(spec_fields(tag, parts), "room_id"@) == spec_id_value(parts.room_id),
        spec_lookup(spec_fields(tag, parts), "message_id"@) == spec_id_value(parts.message_id),
        spec_lookup(spec_fields(tag, parts), "user_id"@) == spec_id_value(parts.user_id),
        spec_lookup(spec_fields(tag, parts), "initiator_id"@) == spec_id_value(parts.initiator_id),
        spec_lookup(spec_fields(tag, parts), "latitude"@) == spec_number_value(parts.latitude),
        spec_lookup(spec_fields(tag, parts), "longitude"@) == spec_number_value(parts.longitude),
        spec_lookup(spec_fields(tag, parts), "text"@) == spec_text_value(parts.text),
        spec_lookup(spec_fields(tag, parts), "image_url"@) == spec_text_value(parts.image_url),
        spec_lookup(spec_fields(tag, parts), "message_type"@) == spec_text_value(parts.message_type),
        spec_lookup(spec_fields(tag, parts), "offer"@) == spec_text_value(parts.offer),
        spec_lookup(spec_fields(tag, parts), "answer"@) == spec_text_value(parts.answer),
        spec_lookup(spec_fields(tag, parts), "candidate"@) == spec_text_value(parts.candidate),
{
    lemma_name_shapes();
    lemma_lookup_in_fields(tag, parts, "type"@);
    lemma_lookup_in_fields(tag, parts, "call_id"@);
    lemma_lookup_in_fields(tag, parts, "room_id"@);
    lemma_lookup_in_fields(tag, parts, "message_id"@);
    lemma_lookup_in_fields(tag, parts, "user_id"@);
    lemma_lookup_in_fields(tag, parts, "initiator_id"@);
    lemma_lookup_in_fields(tag, parts, "latitude"@);
    lemma_lookup_in_fields(tag, parts, "longitude"@);
    lemma_lookup_in_fields(tag, parts, "text"@);
    lemma_lookup_in_fields(tag, parts, "image_url"@);
    lemma_lookup_in_fields(tag, parts, "message_type"@);
    lemma_lookup_in_fields(tag, parts, "offer"@);
    lemma_lookup_in_fields(tag, parts, "answer"@);
    lemma_lookup_in_fields(tag, parts, "candidate"@);
}

/// No slot of the parts holds something of the wrong type.
pub open spec fn spec_well_typed(parts: EventPartsView) -> bool {
    &&& !(parts.call_id is Wrong)
    &&& !(parts.room_id is Wrong)
    &&& !(parts.message_id is Wrong)
    &&& !(parts.user_id is Wrong)
    &&& !(parts.initiator_id is Wrong)
    &&& !(parts.latitude is Wrong)
    &&& !(parts.longitude is Wrong)
    &&& !(parts.text is Wrong)
    &&& !(parts.image_url is Wrong)
    &&& !(parts.message_type is Wrong)
    &&& !(parts.offer is Wrong)
    &&& !(parts.answer is Wrong)
    &&& !(parts.candidate is Wrong)
}

/// Parts that are written as members are collected again as they were.
pub proof fn lemma_collect_inverts_fields(tag: Seq<char>, parts: EventPartsView)
    requires
        spec_well_typed(parts),
    ensures
        spec_text_slot(spec_lookup(spec_fields(tag, parts), "type"@)) == Slot::Given(tag),
        spec_collect(spec_fields(tag, parts)) == parts,
{
    lemma_fields_hold_parts(tag, parts);
    match parts.call_id {
        Slot::Given(id) => lemma_uuid_text_reads_back(id),
        _ => {},
    }
    match parts.room_id {
        Slot::Given(id) => lemma_uuid_text_reads_back(id),
        _ => {},
    }
    match parts.message_id {
        Slot::Given(id) => lemma_uuid_text_reads_back(id),
        _ => {},
    }
    match parts.user_id {
        Slot::Given(id) => lemma_uuid_text_reads_back(id),
        _ => {},
    }
    match parts.initiator_id {
        Slot::Given(id) => lemma_uuid_text_reads_back(id),
        _ => {},
    }
}

/// The parts of an envelope hold nothing of the wrong type.
pub proof fn lemma_parts_are_well_typed(event: EventView)
    ensures
        spec_well_typed(spec_parts(event)),
{
}

/// The members that are written for an envelope stand for that envelope:
/// reading them gives the envelope back.
pub proof fn lemma_written_fields_read_back(event: EventView)
    ensures
        spec_decode_fields(spec_fields(spec_tag(event), spec_parts(event))) == Ok::<
            EventView,
            DecodeError,
        >(event),
{
    let tag = spec_tag(event);
    let parts = spec_parts(event);
    let fields = spec_fields(tag, parts);
    lemma_parts_are_well_typed(event);
    lemma_collect_inverts_fields(tag, parts);
    lemma_assemble_inverts_parts(event);
    assert(spec_decode_fields(fields) == spec_assemble(tag, spec_collect(fields)));
}

} // verus!
