//! Voice-call signaling: the table of call records and the operations that
//! create a call and move it through its life.
//!
//! The table keeps every record for good. Two rules hold of it at all times:
//! a record is filed under its own id, and a room has at most one call that
//! is ringing or active.

use std::collections::HashMap;
use vstd::prelude::*;
use crate::clock::{current_time, Timestamp};
use crate::ident::fresh_id;
use crate::voice_call::{CallRecord, CallStatus, SignalingError};

verus! {

/// `id` names an open call of `room`.
pub open spec fn is_open_call_in(calls: Map<u128, CallRecord>, id: u128, room: u128) -> bool {
    &&& calls.contains_key(id)
    &&& calls[id].room_id == room
    &&& calls[id].status.is_open()
}

/// The open call of a room, if it has one.
pub open spec fn open_call_in(calls: Map<u128, CallRecord>, room: u128) -> Option<CallRecord> {
    if exists|id: u128| is_open_call_in(calls, id, room) {
        Some(calls[choose|id: u128| is_open_call_in(calls, id, room)])
    } else {
        None
    }
}

/// The two rules of the table.
pub open spec fn table_ok(calls: Map<u128, CallRecord>) -> bool {
    &&& forall|id: u128| #[trigger] calls.contains_key(id) ==> calls[id].id == id
    &&& forall|a: u128, b: u128, room: u128|
        is_open_call_in(calls, a, room) && is_open_call_in(calls, b, room) ==> a == b
}

/// The table after an operation that came back with `outcome`: a record
/// that was created or changed is filed under its id, a refusal changes
/// nothing.
pub open spec fn filed(calls: Map<u128, CallRecord>, outcome: Result<CallRecord, SignalingError>) -> Map<u128, CallRecord> {
    match outcome {
        Ok(record) => calls.insert(record.id, record),
        Err(_) => calls,
    }
}

/// Placing a call: refused when the id is taken or the room already has an
/// open call, else a ringing record.
pub open spec fn spec_initiate(
    calls: Map<u128, CallRecord>,
    room_id: u128,
    initiator_id: u128,
    call_id: u128,
    now: Timestamp,
) -> Result<CallRecord, SignalingError> {
    if calls.contains_key(call_id) || open_call_in(calls, room_id) is Some {
        Err(SignalingError::InvalidTransition)
    } else {
        Ok(CallRecord::spec_ringing(call_id, room_id, initiator_id, now))
    }
}

/// Taking a record that was made elsewhere into the table: refused when
/// its id is taken, or when it is open and its room already has an open
/// call.
pub open spec fn spec_restore(calls: Map<u128, CallRecord>, record: CallRecord) -> Result<CallRecord, SignalingError> {
    if calls.contains_key(record.id) || (record.status.is_open() && open_call_in(
        calls,
        record.room_id,
    ) is Some) {
        Err(SignalingError::InvalidTransition)
    } else {
        Ok(record)
    }
}

/// Looking a call up.
pub open spec fn spec_get(calls: Map<u128, CallRecord>, call_id: u128) -> Result<CallRecord, SignalingError> {
    if calls.contains_key(call_id) {
        Ok(calls[call_id])
    } else {
        Err(SignalingError::NotFound)
    }
}

/// Accepting a call: unknown ids are not found, a ringing call becomes
/// active, any other call refuses.
pub open spec fn spec_accept(calls: Map<u128, CallRecord>, call_id: u128) -> Result<CallRecord, SignalingError> {
    match spec_get(calls, call_id) {
        Ok(record) => record.spec_accept(),
        Err(e) => Err(e),
    }
}

/// Ending a call: unknown ids are not found, an open call becomes ended and
/// is stamped with `now`, an ended call refuses.
pub open spec fn spec_end(calls: Map<u128, CallRecord>, call_id: u128, now: Timestamp) -> Result<CallRecord, SignalingError> {
    match spec_get(calls, call_id) {
        Ok(record) => record.spec_end(now),
        Err(e) => Err(e),
    }
}

/// An attempt to end a call at `now` took the table from `before` to
/// `after` and reported `ended`: the table is that of `spec_end`, and the
/// report is its error, or `Ok` where it gave a record.
pub open spec fn ends_as(
    before: Map<u128, CallRecord>,
    after: Map<u128, CallRecord>,
    call_id: u128,
    now: Timestamp,
    ended: Result<(), SignalingError>,
) -> bool {
    &&& after == filed(before, spec_end(before, call_id, now))
    &&& match spec_end(before, call_id, now) {
        Ok(_) => ended is Ok,
        Err(e) => ended == Err::<(), SignalingError>(e),
    }
}

/// Every record of `before` is still in `after`, under the same id, for the
/// same room and initiator, and its status has not moved backwards.
pub open spec fn history_kept(before: Map<u128, CallRecord>, after: Map<u128, CallRecord>) -> bool {
    forall|id: u128| #[trigger] before.contains_key(id) ==> {
        &&& after.contains_key(id)
        &&& after[id].room_id == before[id].room_id
        &&& after[id].initiator_id == before[id].initiator_id
        &&& after[id].start_time == before[id].start_time
        &&& after[id].status == before[id].status || before[id].status.may_become(after[id].status)
    }
}

/// The signaling service: the table of calls, with an index from each room
/// to its open call.
pub struct VoiceCallSignalingService {
    calls: HashMap<u128, CallRecord>,
    open_calls: HashMap<u128, u128>,
}

impl View for VoiceCallSignalingService {
    type V = Map<u128, CallRecord>;

    closed spec fn view(&self) -> Map<u128, CallRecord> {
        self.calls@
    }
}

impl VoiceCallSignalingService {
    /// The table obeys its two rules and the room index agrees with it.
    pub closed spec fn wf(&self) -> bool {
        &&& table_ok(self.calls@)
        &&& forall|room: u128| #[trigger]
            self.open_calls@.contains_key(room) ==> is_open_call_in(
                self.calls@,
                self.open_calls@[room],
                room,
            )
        &&& forall|id: u128| #[trigger]
            self.calls@.contains_key(id) && self.calls@[id].status.is_open() ==> {
                &&& self.open_calls@.contains_key(self.calls@[id].room_id)
                &&& self.open_calls@[self.calls@[id].room_id] == id
            }
    }

    /// A well-formed service holds a table that obeys the two rules.
    pub proof fn lemma_wf_table(&self)
        requires
            self.wf(),
        ensures
            table_ok(self@),
    {
    }

    /// A service with no calls.
    pub fn new() -> (service: Self)
        ensures
            service.wf(),
            service@ == Map::<u128, CallRecord>::empty(),
    {
        VoiceCallSignalingService { calls: HashMap::new(), open_calls: HashMap::new() }
    }

    /// The open call of a room, if it has one.
    pub fn get_active_call_in_room(&self, room_id: u128) -> (found: Option<CallRecord>)
        requires
            self.wf(),
        ensures
            found == open_call_in(self@, room_id),
    {
        broadcast use vstd::std_specs::hash::group_hash_axioms;
        match self.open_calls.get(&room_id) {
            Some(call_id) => {
                let call_id = *call_id;
                assert(is_open_call_in(self.calls@, call_id, room_id));
                let found = self.calls.get(&call_id);
                match found {
                    Some(record) => Some(*record),
                    None => None,
                }
            },
            None => {
                assert(forall|id: u128| !is_open_call_in(self.calls@, id, room_id));
                None
            },
        }
    }

    /// The call with the given id.
    pub fn get_call(&self, call_id: u128) -> (found: Result<CallRecord, SignalingError>)
        ensures
            found == spec_get(self@, call_id),
    {
        broadcast use vstd::std_specs::hash::group_hash_axioms;
        match self.calls.get(&call_id) {
            Some(record) => Ok(*record),
            None => Err(SignalingError::NotFound),
        }
    }

    /// Places a call in a room under the given id, at the given time.
    pub fn initiate_call_at(
        &mut self,
        room_id: u128,
        initiator_id: u128,
        call_id: u128,
        now: Timestamp,
    ) -> (placed: Result<CallRecord, SignalingError>)
        requires
            old(self).wf(),
        ensures
            final(self).wf(),
            placed == spec_initiate(old(self)@, room_id, initiator_id, call_id, now),
            final(self)@ == filed(old(self)@, placed),
    {
        broadcast use vstd::std_specs::hash::group_hash_axioms;
        let busy = self.get_active_call_in_room(room_id);
        if self.calls.contains_key(&call_id) || busy.is_some() {
            return Err(SignalingError::InvalidTransition);
        }
        let record = CallRecord::ringing(call_id, room_id, initiator_id, now);
        proof {
            lemma_initiate_keeps_table_ok(self.calls@, room_id, initiator_id, call_id, now);
            assert(forall|id: u128| !is_open_call_in(self.calls@, id, room_id));
        }
        self.calls.insert(call_id, record);
        self.open_calls.insert(room_id, call_id);
        Ok(record)
    }

    /// Takes a record that was made elsewhere, such as one read back from
    /// storage, into the table.
    pub fn restore_call(&mut self, record: CallRecord) -> (restored: Result<CallRecord, SignalingError>)
        requires
            old(self).wf(),
        ensures
            final(self).wf(),
            restored == spec_restore(old(self)@, record),
            final(self)@ == filed(old(self)@, restored),
    {
        broadcast use vstd::std_specs::hash::group_hash_axioms;
        if self.calls.contains_key(&record.id) {
            return Err(SignalingError::InvalidTransition);
        }
        if record.status.open() {
            let busy = self.get_active_call_in_room(record.room_id);
            if busy.is_some() {
                return Err(SignalingError::InvalidTransition);
            }
            proof {
                lemma_restore_keeps_table_ok(self.calls@, record);
                assert(forall|id: u128| !is_open_call_in(self.calls@, id, record.room_id));
            }
            self.calls.insert(record.id, record);
            self.open_calls.insert(record.room_id, record.id);
        } else {
            proof {
                lemma_restore_keeps_table_ok(self.calls@, record);
            }
            self.calls.insert(record.id, record);
        }
        Ok(record)
    }

    /// Places a call in a room, under a fresh random id and at the present
    /// time. Whatever id and time came up, the outcome is that of
    /// `initiate_call_at` with them.
    pub fn initiate_call(&mut self, room_id: u128, initiator_id: u128) -> (placed: Result<CallRecord, SignalingError>)
        requires
            old(self).wf(),
        ensures
            final(self).wf(),
            exists|call_id: u128, now: Timestamp|
                placed == spec_initiate(old(self)@, room_id, initiator_id, call_id, now),
            final(self)@ == filed(old(self)@, placed),
    {
        let call_id = fresh_id();
        let now = current_time();
        self.initiate_call_at(room_id, initiator_id, call_id, now)
    }

    /// Accepts a ringing call.
    pub fn accept_call(&mut self, call_id: u128) -> (accepted: Result<CallRecord, SignalingError>)
        requires
            old(self).wf(),
        ensures
            final(self).wf(),
            accepted == spec_accept(old(self)@, call_id),
            final(self)@ == filed(old(self)@, accepted),
    {
        broadcast use vstd::std_specs::hash::group_hash_axioms;
        let found = self.get_call(call_id);
        match found {
            Err(e) => Err(e),
            Ok(record) => {
                match record.accept() {
                    Err(e) => Err(e),
                    Ok(next) => {
                        proof {
                            lemma_accept_keeps_table_ok(self.calls@, call_id);
                        }
                        self.calls.insert(call_id, next);
                        Ok(next)
                    },
                }
            },
        }
    }

    /// Ends an open call at the given time.
    pub fn end_call_at(&mut self, call_id: u128, now: Timestamp) -> (ended: Result<(), SignalingError>)
        requires
            old(self).wf(),
        ensures
            final(self).wf(),
            ends_as(old(self)@, final(self)@, call_id, now, ended),
    {
        broadcast use vstd::std_specs::hash::group_hash_axioms;
        let found = self.get_call(call_id);
        match found {
            Err(e) => Err(e),
            Ok(record) => {
                match record.end(now) {
                    Err(e) => Err(e),
                    Ok(next) => {
                        proof {
                            lemma_end_keeps_table_ok(self.calls@, call_id, now);
                        }
                        self.calls.insert(call_id, next);
                        self.open_calls.remove(&record.room_id);
                        Ok(())
                    },
                }
            },
        }
    }

    /// Ends an open call at the present time. Whatever time came up, the
    /// outcome is that of `end_call_at` with it.
    pub fn end_call(&mut self, call_id: u128) -> (ended: Result<(), SignalingError>)
        requires
            old(self).wf(),
        ensures
            final(self).wf(),
            exists|now: Timestamp| ends_as(old(self)@, final(self)@, call_id, now, ended),
    {
        let now = current_time();
        self.end_call_at(call_id, now)
    }

    /// Declines a call at the given time: the same as ending it.
    pub fn reject_call_at(&mut self, call_id: u128, now: Timestamp) -> (ended: Result<(), SignalingError>)
        requires
            old(self).wf(),
        ensures
            final(self).wf(),
            ends_as(old(self)@, final(self)@, call_id, now, ended),
    {
        self.end_call_at(call_id, now)
    }

    /// Declines a call at the present time: the same as ending it.
    pub fn reject_call(&mut self, call_id: u128) -> (ended: Result<(), SignalingError>)
        requires
            old(self).wf(),
        ensures
            final(self).wf(),
            exists|now: Timestamp| ends_as(old(self)@, final(self)@, call_id, now, ended),
    {
        self.end_call(call_id)
    }
}

/// Placing a call keeps the rules of the table: the new call is the only
/// open one of its room.
pub proof fn lemma_initiate_keeps_table_ok(
    calls: Map<u128, CallRecord>,
    room_id: u128,
    initiator_id: u128,
    call_id: u128,
    now: Timestamp,
)
    requires
        table_ok(calls),
    ensures
        table_ok(filed(calls, spec_initiate(calls, room_id, initiator_id, call_id, now))),
        history_kept(calls, filed(calls, spec_initiate(calls, room_id, initiator_id, call_id, now))),
{
    let outcome = spec_initiate(calls, room_id, initiator_id, call_id, now);
    let after = filed(calls, outcome);
    if outcome is Ok {
        assert(forall|id: u128| !is_open_call_in(calls, id, room_id));
        assert forall|a: u128, b: u128, room: u128|
            is_open_call_in(after, a, room) && is_open_call_in(after, b, room) implies a == b by {
            if a != call_id {
                assert(is_open_call_in(calls, a, room));
            }
            if b != call_id {
                assert(is_open_call_in(calls, b, room));
            }
        }
    }
}

/// Taking a record in keeps the rules of the table.
pub proof fn lemma_restore_keeps_table_ok(calls: Map<u128, CallRecord>, record: CallRecord)
    requires
        table_ok(calls),
    ensures
        table_ok(filed(calls, spec_restore(calls, record))),
        history_kept(calls, filed(calls, spec_restore(calls, record))),
{
    let outcome = spec_restore(calls, record);
    let after = filed(calls, outcome);
    if outcome is Ok {
        if record.status.is_open() {
            assert(forall|id: u128| !is_open_call_in(calls, id, record.room_id));
        }
        assert forall|a: u128, b: u128, room: u128|
            is_open_call_in(after, a, room) && is_open_call_in(after, b, room) implies a == b by {
            if a != record.id {
                assert(is_open_call_in(calls, a, room));
            }
            if b != record.id {
                assert(is_open_call_in(calls, b, room));
            }
        }
    }
}

/// Accepting a call keeps the rules of the table.
pub proof fn lemma_accept_keeps_table_ok(calls: Map<u128, CallRecord>, call_id: u128)
    requires
        table_ok(calls),
    ensures
        table_ok(filed(calls, spec_accept(calls, call_id))),
        history_kept(calls, filed(calls, spec_accept(calls, call_id))),
{
    let after = filed(calls, spec_accept(calls, call_id));
    assert forall|a: u128, b: u128, room: u128|
        is_open_call_in(after, a, room) && is_open_call_in(after, b, room) implies a == b by {
        assert(is_open_call_in(calls, a, room));
        assert(is_open_call_in(calls, b, room));
    }
}

/// Ending a call keeps the rules of the table.
pub proof fn lemma_end_keeps_table_ok(calls: Map<u128, CallRecord>, call_id: u128, now: Timestamp)
    requires
        table_ok(calls),
    ensures
        table_ok(filed(calls, spec_end(calls, call_id, now))),
        history_kept(calls, filed(calls, spec_end(calls, call_id, now))),
{
    let after = filed(calls, spec_end(calls, call_id, now));
    assert forall|a: u128, b: u128, room: u128|
        is_open_call_in(after, a, room) && is_open_call_in(after, b, room) implies a == b by {
        assert(is_open_call_in(calls, a, room));
        assert(is_open_call_in(calls, b, room));
    }
}


/// In a table that obeys its rules, any open call of a room is the open call
/// of that room.
pub proof fn lemma_one_open_call_per_room(calls: Map<u128, CallRecord>, call_id: u128, room_id: u128)
    requires
        table_ok(calls),
        is_open_call_in(calls, call_id, room_id),
    ensures
        open_call_in(calls, room_id) == Some(calls[call_id]),
{
    let chosen = choose|id: u128| is_open_call_in(calls, id, room_id);
    assert(is_open_call_in(calls, chosen, room_id));
}

/// A call that was placed can be accepted: it rang and is then active.
pub proof fn lemma_initiate_then_accept(
    calls: Map<u128, CallRecord>,
    room_id: u128,
    initiator_id: u128,
    call_id: u128,
    now: Timestamp,
)
    requires
        spec_initiate(calls, room_id, initiator_id, call_id, now) is Ok,
    ensures
        spec_initiate(calls, room_id, initiator_id, call_id, now)->Ok_0.status == CallStatus::Ringing,
        spec_accept(
            filed(calls, spec_initiate(calls, room_id, initiator_id, call_id, now)),
            call_id,
        ) == Ok::<CallRecord, SignalingError>(
            CallRecord {
                status: CallStatus::Active,
                ..CallRecord::spec_ringing(call_id, room_id, initiator_id, now)
            },
        ),
{
}

/// An ended call cannot be accepted, and the attempt leaves the table as it
/// was.
pub proof fn lemma_accept_ended_is_refused(calls: Map<u128, CallRecord>, call_id: u128)
    requires
        calls.contains_key(call_id),
        calls[call_id].status == CallStatus::Ended,
    ensures
        spec_accept(calls, call_id) == Err::<CallRecord, SignalingError>(SignalingError::InvalidTransition),
        filed(calls, spec_accept(calls, call_id)) == calls,
{
}

/// A call can be ended once: a second attempt is refused and the time of the
/// first stays on the record.
pub proof fn lemma_end_twice_is_refused(
    calls: Map<u128, CallRecord>,
    call_id: u128,
    first: Timestamp,
    second: Timestamp,
)
    requires
        table_ok(calls),
        spec_end(calls, call_id, first) is Ok,
    ensures
        spec_end(filed(calls, spec_end(calls, call_id, first)), call_id, second) == Err::<
            CallRecord,
            SignalingError,
        >(SignalingError::InvalidTransition),
        filed(
            filed(calls, spec_end(calls, call_id, first)),
            spec_end(filed(calls, spec_end(calls, call_id, first)), call_id, second),
        )[call_id].end_time == Some(first),
{
}

/// No operation leads out of `Ended`: an ended call refuses to be accepted
/// and to be ended.
pub proof fn lemma_ended_is_final(record: CallRecord, now: Timestamp)
    requires
        record.status == CallStatus::Ended,
    ensures
        record.spec_accept() is Err,
        record.spec_end(now) is Err,
        forall|next: CallStatus| !record.status.may_become(next),
{
}

/// Whatever accepting or ending returns, the call has moved forward: from
/// ringing to active, or from ringing or active to ended.
pub proof fn lemma_transitions_move_forward(record: CallRecord, now: Timestamp)
    ensures
        record.spec_accept() matches Ok(next) ==> record.status == CallStatus::Ringing && next.status
            == CallStatus::Active,
        record.spec_end(now) matches Ok(next) ==> record.status.is_open() && next.status
            == CallStatus::Ended && record.status.may_become(next.status),
{
}

} // verus!
