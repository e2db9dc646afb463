//! The record of one voice call and the transitions it may take.

use vstd::prelude::*;
use crate::clock::Timestamp;
use crate::text::same_text;

verus! {

/// Where a call stands in its life. A call starts ringing and only moves
/// forward: ringing to active, ringing to ended, active to ended.
#[derive(Clone, Copy, Debug, PartialEq, Eq, Structural)]
pub enum CallStatus {
    Ringing,
    Active,
    Ended,
}

/// Why a signaling operation was refused.
#[derive(Clone, Copy, Debug, PartialEq, Eq, Structural)]
pub enum SignalingError {
    /// No call has the given id.
    NotFound,
    /// The call's status does not allow the operation.
    InvalidTransition,
}

/// One voice call.
#[derive(Clone, Copy, Debug)]
pub struct CallRecord {
    pub id: u128,
    pub room_id: u128,
    pub initiator_id: u128,
    pub status: CallStatus,
    pub start_time: Timestamp,
    pub end_time: Option<Timestamp>,
}

impl CallStatus {
    /// The name under which a status is stored.
    pub open spec fn spec_name(self) -> Seq<char> {
        match self {
            CallStatus::Ringing => "ringing"@,
            CallStatus::Active => "active"@,
            CallStatus::Ended => "ended"@,
        }
    }

    /// The status that a stored name stands for.
    pub open spec fn spec_from_name(name: Seq<char>) -> Option<CallStatus> {
        if name == "ringing"@ {
            Some(CallStatus::Ringing)
        } else if name == "active"@ {
            Some(CallStatus::Active)
        } else if name == "ended"@ {
            Some(CallStatus::Ended)
        } else {
            None
        }
    }

    /// The name under which the status is stored.
    pub fn name(self) -> (name: &'static str)
        ensures
            name@ == self.spec_name(),
    {
        match self {
            CallStatus::Ringing => "ringing",
            CallStatus::Active => "active",
            CallStatus::Ended => "ended",
        }
    }

    /// The status that a stored name stands for.
    pub fn from_name(name: &str) -> (status: Option<CallStatus>)
        ensures
            status == Self::spec_from_name(name@),
    {
        if same_text(name, "ringing") {
            Some(CallStatus::Ringing)
        } else if same_text(name, "active") {
            Some(CallStatus::Active)
        } else if same_text(name, "ended") {
            Some(CallStatus::Ended)
        } else {
            None
        }
    }

    /// A status is found again under its name.
    pub proof fn lemma_name_names_the_status(self)
        ensures
            Self::spec_from_name(self.spec_name()) == Some(self),
    {
        reveal_strlit("ringing");
        reveal_strlit("active");
        reveal_strlit("ended");
        assert("ringing"@.len() == 7);
        assert("active"@.len() == 6);
        assert("ended"@.len() == 5);
    }

    /// A call is open while it rings or is active.
    pub open spec fn is_open(self) -> bool {
        self != CallStatus::Ended
    }

    /// The position of a status in the order in which a call passes through
    /// them.
    pub open spec fn rank(self) -> nat {
        match self {
            CallStatus::Ringing => 0,
            CallStatus::Active => 1,
            CallStatus::Ended => 2,
        }
    }

    /// Whether a call may move from `self` to `next`.
    pub open spec fn may_become(self, next: CallStatus) -> bool {
        self.rank() < next.rank()
    }

    /// Whether a call in this status is open.
    #[verifier::when_used_as_spec(is_open)]
    pub fn open(self) -> (r: bool)
        ensures
            r == self.is_open(),
    {
        match self {
            CallStatus::Ended => false,
            _ => true,
        }
    }
}

impl CallRecord {
    /// The record of a call that has just been placed.
    pub open spec fn spec_ringing(id: u128, room_id: u128, initiator_id: u128, now: Timestamp) -> CallRecord {
        CallRecord { id, room_id, initiator_id, status: CallStatus::Ringing, start_time: now, end_time: None }
    }

    /// What accepting does to a call: a ringing call becomes active, any
    /// other call is left alone and the attempt is refused.
    pub open spec fn spec_accept(self) -> Result<CallRecord, SignalingError> {
        if self.status == CallStatus::Ringing {
            Ok(CallRecord { status: CallStatus::Active, ..self })
        } else {
            Err(SignalingError::InvalidTransition)
        }
    }

    /// What ending does to a call: an open call becomes ended and is stamped
    /// with the time, an ended call refuses.
    pub open spec fn spec_end(self, now: Timestamp) -> Result<CallRecord, SignalingError> {
        if self.status.is_open() {
            Ok(CallRecord { status: CallStatus::Ended, end_time: Some(now), ..self })
        } else {
            Err(SignalingError::InvalidTransition)
        }
    }

    /// The record of a call that has just been placed.
    pub fn ringing(id: u128, room_id: u128, initiator_id: u128, now: Timestamp) -> (r: CallRecord)
        ensures
            r == Self::spec_ringing(id, room_id, initiator_id, now),
    {
        CallRecord { id, room_id, initiator_id, status: CallStatus::Ringing, start_time: now, end_time: None }
    }

    /// Accepts the call: a ringing call becomes active.
    pub fn accept(self) -> (r: Result<CallRecord, SignalingError>)
        ensures
            r == self.spec_accept(),
    {
        match self.status {
            CallStatus::Ringing => Ok(CallRecord { status: CallStatus::Active, ..self }),
            _ => Err(SignalingError::InvalidTransition),
        }
    }

    /// Ends the call: an open call becomes ended and is stamped.
    pub fn end(self, now: Timestamp) -> (r: Result<CallRecord, SignalingError>)
        ensures
            r == self.spec_end(now),
    {
        match self.status {
            CallStatus::Ended => Err(SignalingError::InvalidTransition),
            _ => Ok(CallRecord { status: CallStatus::Ended, end_time: Some(now), ..self }),
        }
    }
}

} // verus!
