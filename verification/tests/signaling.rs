use road_trip_backend::clock::Timestamp;
use road_trip_backend::voice_call::{CallRecord, CallStatus, SignalingError};
use road_trip_backend::voice_call_signaling::VoiceCallSignalingService;

const ROOM: u128 = 10;
const OTHER_ROOM: u128 = 11;
const ALICE: u128 = 1;
const BOB: u128 = 2;

fn at(seconds: i64) -> Timestamp {
    Timestamp { seconds, nanos: 500 }
}

fn same(a: &CallRecord, b: &CallRecord) -> bool {
    a.id == b.id
        && a.room_id == b.room_id
        && a.initiator_id == b.initiator_id
        && a.status == b.status
        && a.start_time == b.start_time
        && a.end_time == b.end_time
}

#[test]
fn placed_call_rings_and_can_be_accepted() {
    let mut calls = VoiceCallSignalingService::new();
    let placed = calls.initiate_call_at(ROOM, ALICE, 100, at(5)).unwrap();
    let expected = CallRecord {
        id: 100,
        room_id: ROOM,
        initiator_id: ALICE,
        status: CallStatus::Ringing,
        start_time: at(5),
        end_time: None,
    };
    assert!(same(&placed, &expected));
    assert!(same(&calls.get_call(100).unwrap(), &expected));
    let accepted = calls.accept_call(100).unwrap();
    let expected = CallRecord { status: CallStatus::Active, ..expected };
    assert!(same(&accepted, &expected));
    assert!(same(&calls.get_call(100).unwrap(), &expected));
    assert!(same(&calls.get_active_call_in_room(ROOM).unwrap(), &expected));
}

#[test]
fn accepting_twice_or_after_the_end_is_refused() {
    let mut calls = VoiceCallSignalingService::new();
    calls.initiate_call_at(ROOM, ALICE, 100, at(5)).unwrap();
    calls.accept_call(100).unwrap();
    assert_eq!(calls.accept_call(100).map(|c| c.id), Err(SignalingError::InvalidTransition));
    assert_eq!(calls.end_call_at(100, at(9)), Ok(()));
    assert_eq!(calls.accept_call(100).map(|c| c.id), Err(SignalingError::InvalidTransition));
    let record = calls.get_call(100).unwrap();
    assert_eq!(record.status, CallStatus::Ended);
    assert_eq!(record.end_time, Some(at(9)));
}

#[test]
fn second_end_is_refused_and_keeps_the_first_time() {
    let mut calls = VoiceCallSignalingService::new();
    calls.initiate_call_at(ROOM, ALICE, 100, at(5)).unwrap();
    assert_eq!(calls.end_call_at(100, at(7)), Ok(()));
    assert_eq!(calls.end_call_at(100, at(8)), Err(SignalingError::InvalidTransition));
    assert_eq!(calls.reject_call_at(100, at(9)), Err(SignalingError::InvalidTransition));
    let record = calls.get_call(100).unwrap();
    assert_eq!(record.status, CallStatus::Ended);
    assert_eq!(record.start_time, at(5));
    assert_eq!(record.end_time, Some(at(7)));
}

#[test]
fn rejecting_ends_a_ringing_call() {
    let mut calls = VoiceCallSignalingService::new();
    calls.initiate_call_at(ROOM, ALICE, 100, at(5)).unwrap();
    assert_eq!(calls.reject_call_at(100, at(6)), Ok(()));
    let record = calls.get_call(100).unwrap();
    assert_eq!(record.status, CallStatus::Ended);
    assert_eq!(record.end_time, Some(at(6)));
    assert!(calls.get_active_call_in_room(ROOM).is_none());
}

#[test]
fn unknown_call_is_not_found() {
    let mut calls = VoiceCallSignalingService::new();
    assert_eq!(calls.get_call(1).map(|c| c.id), Err(SignalingError::NotFound));
    assert_eq!(calls.accept_call(1).map(|c| c.id), Err(SignalingError::NotFound));
    assert_eq!(calls.end_call_at(1, at(1)), Err(SignalingError::NotFound));
    assert_eq!(calls.reject_call_at(1, at(1)), Err(SignalingError::NotFound));
    assert_eq!(calls.end_call(1), Err(SignalingError::NotFound));
    assert_eq!(calls.reject_call(1), Err(SignalingError::NotFound));
    assert!(calls.get_active_call_in_room(ROOM).is_none());
}

#[test]
fn a_room_has_one_open_call_at_a_time() {
    let mut calls = VoiceCallSignalingService::new();
    calls.initiate_call_at(ROOM, ALICE, 100, at(5)).unwrap();
    assert_eq!(
        calls.initiate_call_at(ROOM, BOB, 101, at(6)).map(|c| c.id),
        Err(SignalingError::InvalidTransition)
    );
    assert_eq!(calls.get_call(101).map(|c| c.id), Err(SignalingError::NotFound));
    assert_eq!(calls.initiate_call_at(OTHER_ROOM, BOB, 101, at(6)).map(|c| c.id), Ok(101));
    calls.accept_call(100).unwrap();
    assert_eq!(
        calls.initiate_call_at(ROOM, BOB, 102, at(7)).map(|c| c.id),
        Err(SignalingError::InvalidTransition)
    );
    calls.end_call_at(100, at(8)).unwrap();
    assert!(calls.get_active_call_in_room(ROOM).is_none());
    assert_eq!(calls.initiate_call_at(ROOM, BOB, 102, at(9)).map(|c| c.id), Ok(102));
    assert_eq!(calls.get_active_call_in_room(ROOM).map(|c| c.id), Some(102));
    assert_eq!(calls.get_active_call_in_room(OTHER_ROOM).map(|c| c.id), Some(101));
    assert_eq!(calls.get_call(100).unwrap().status, CallStatus::Ended);
}

#[test]
fn an_id_names_one_call_for_good() {
    let mut calls = VoiceCallSignalingService::new();
    calls.initiate_call_at(ROOM, ALICE, 100, at(5)).unwrap();
    assert_eq!(
        calls.initiate_call_at(OTHER_ROOM, BOB, 100, at(6)).map(|c| c.id),
        Err(SignalingError::InvalidTransition)
    );
    calls.end_call_at(100, at(7)).unwrap();
    assert_eq!(
        calls.initiate_call_at(OTHER_ROOM, BOB, 100, at(8)).map(|c| c.id),
        Err(SignalingError::InvalidTransition)
    );
    let record = calls.get_call(100).unwrap();
    assert_eq!(record.room_id, ROOM);
    assert_eq!(record.initiator_id, ALICE);
    assert!(calls.get_active_call_in_room(OTHER_ROOM).is_none());
}

#[test]
fn calls_placed_by_the_clock_get_fresh_ids_and_the_present_time() {
    let mut calls = VoiceCallSignalingService::new();
    let first = calls.initiate_call(ROOM, ALICE).unwrap();
    let second = calls.initiate_call(OTHER_ROOM, BOB).unwrap();
    assert_ne!(first.id, second.id);
    assert_eq!(uuid::Uuid::from_u128(first.id).get_version_num(), 4);
    assert_eq!(first.status, CallStatus::Ringing);
    assert_eq!(first.room_id, ROOM);
    assert_eq!(first.initiator_id, ALICE);
    let now = chrono::Utc::now().timestamp();
    assert!(first.start_time.seconds <= now && now - first.start_time.seconds < 60);
    assert!(first.start_time.nanos < 2_000_000_000);
    assert_eq!(
        calls.initiate_call(ROOM, BOB).map(|c| c.id),
        Err(SignalingError::InvalidTransition)
    );
    assert_eq!(calls.end_call(first.id), Ok(()));
    let ended = calls.get_call(first.id).unwrap();
    let end = ended.end_time.unwrap();
    assert!(end.seconds >= first.start_time.seconds && end.seconds <= chrono::Utc::now().timestamp());
    assert_eq!(calls.reject_call(second.id), Ok(()));
    assert_eq!(calls.get_call(second.id).unwrap().status, CallStatus::Ended);
}

#[test]
fn records_move_through_their_transitions() {
    let ringing = CallRecord::ringing(1, ROOM, ALICE, at(1));
    assert!(ringing.status.open());
    let active = ringing.accept().unwrap();
    assert_eq!(active.status, CallStatus::Active);
    assert!(active.status.open());
    assert_eq!(active.accept().map(|c| c.id), Err(SignalingError::InvalidTransition));
    let ended = active.end(at(3)).unwrap();
    assert_eq!(ended.status, CallStatus::Ended);
    assert!(!ended.status.open());
    assert_eq!(ended.end_time, Some(at(3)));
    assert_eq!(ended.start_time, at(1));
    assert_eq!(ended.end(at(4)).map(|c| c.id), Err(SignalingError::InvalidTransition));
    assert_eq!(ended.accept().map(|c| c.id), Err(SignalingError::InvalidTransition));
    let declined = ringing.end(at(2)).unwrap();
    assert_eq!(declined.status, CallStatus::Ended);
    assert_eq!(declined.end_time, Some(at(2)));
}

#[test]
fn records_from_storage_are_taken_in_under_the_rules() {
    let mut calls = VoiceCallSignalingService::new();
    let record = |id: u128, status: CallStatus| CallRecord {
        id,
        room_id: ROOM,
        initiator_id: ALICE,
        status,
        start_time: at(1),
        end_time: if status == CallStatus::Ended { Some(at(2)) } else { None },
    };
    assert!(same(&calls.restore_call(record(1, CallStatus::Ended)).unwrap(), &record(1, CallStatus::Ended)));
    assert!(calls.restore_call(record(2, CallStatus::Active)).is_ok());
    assert_eq!(
        calls.restore_call(record(3, CallStatus::Ringing)).map(|c| c.id),
        Err(SignalingError::InvalidTransition)
    );
    assert_eq!(
        calls.restore_call(record(1, CallStatus::Ended)).map(|c| c.id),
        Err(SignalingError::InvalidTransition)
    );
    assert!(calls.restore_call(record(4, CallStatus::Ended)).is_ok());
    assert_eq!(calls.get_active_call_in_room(ROOM).map(|c| c.id), Some(2));
    assert_eq!(calls.get_call(3).map(|c| c.id), Err(SignalingError::NotFound));
    assert_eq!(calls.get_call(4).unwrap().end_time, Some(at(2)));
    assert_eq!(calls.end_call_at(2, at(9)), Ok(()));
    assert!(calls.restore_call(record(3, CallStatus::Ringing)).is_ok());
}

#[test]
fn statuses_are_stored_under_their_names() {
    for status in [CallStatus::Ringing, CallStatus::Active, CallStatus::Ended] {
        assert_eq!(CallStatus::from_name(status.name()), Some(status));
    }
    assert_eq!(CallStatus::Ringing.name(), "ringing");
    assert_eq!(CallStatus::Active.name(), "active");
    assert_eq!(CallStatus::Ended.name(), "ended");
    assert_eq!(CallStatus::from_name("Ringing"), None);
    assert_eq!(CallStatus::from_name(""), None);
    assert_eq!(CallStatus::from_name("closed"), None);
}
