use vstd::prelude::*;

verus! {

/// Identifies one call instance within a session.
pub type CallId = u64;

/// Identifies one device of a peer.
pub type DeviceId = u32;

/// Identifies a remote party.
pub type PeerId = String;

/// Identifies a group member.
pub type UserId = Vec<u8>;

/// Identifies a group.
pub type GroupId = Vec<u8>;

/// A measured audio level.
pub type AudioLevel = u16;

#[derive(Clone, Copy, Debug, PartialEq, Eq, Structural)]
pub enum CallMediaType {
    Audio,
    Video,
}

impl CallMediaType {
    /// The media type's number on the host boundary.
    pub open spec fn spec_code(self) -> i32 {
        match self {
            CallMediaType::Audio => 0,
            CallMediaType::Video => 1,
        }
    }

    pub fn code(self) -> (r: i32)
        ensures
            r == self.spec_code(),
    {
        match self {
            CallMediaType::Audio => 0,
            CallMediaType::Video => 1,
        }
    }

    /// The media type the host means by `offer_type`: `1` is video, and
    /// every other number falls back to audio.
    pub open spec fn spec_from_offer_type(offer_type: i32) -> CallMediaType {
        if offer_type == 1 {
            CallMediaType::Video
        } else {
            CallMediaType::Audio
        }
    }

    pub fn from_offer_type(offer_type: i32) -> (r: CallMediaType)
        ensures
            r == CallMediaType::spec_from_offer_type(offer_type),
    {
        match offer_type {
            1 => CallMediaType::Video,
            _ => CallMediaType::Audio,
        }
    }
}

/// State of a one-to-one call as the engine reports it.
#[derive(Clone, Copy, Debug, PartialEq, Eq, Structural)]
pub enum CallState {
    Incoming(CallMediaType),
    Outgoing(CallMediaType),
    Ringing,
    Connecting,
    Connected,
    Concluded,
    /// Ended, with the engine's reason number.
    Ended(i32),
}

#[derive(Clone, Copy, Debug, PartialEq, Eq, Structural)]
pub enum HangupType {
    Normal,
    AcceptedOnAnotherDevice,
    DeclinedOnAnotherDevice,
    BusyOnAnotherDevice,
    NeedPermission,
}

impl HangupType {
    /// The hangup type's number on the host boundary.
    pub open spec fn spec_code(self) -> i32 {
        match self {
            HangupType::Normal => 0,
            HangupType::AcceptedOnAnotherDevice => 1,
            HangupType::DeclinedOnAnotherDevice => 2,
            HangupType::BusyOnAnotherDevice => 3,
            HangupType::NeedPermission => 4,
        }
    }

    pub fn code(self) -> (r: i32)
        ensures
            r == self.spec_code(),
    {
        match self {
            HangupType::Normal => 0,
            HangupType::AcceptedOnAnotherDevice => 1,
            HangupType::DeclinedOnAnotherDevice => 2,
            HangupType::BusyOnAnotherDevice => 3,
            HangupType::NeedPermission => 4,
        }
    }
}

/// A hangup: its reason and the device it concerns, if any.
#[derive(Clone, Copy, Debug, PartialEq, Eq, Structural)]
pub struct Hangup {
    pub hangup_type: HangupType,
    pub device_id: Option<DeviceId>,
}

/// One ICE candidate, an opaque payload passed through unchanged.
#[derive(Clone, Debug, PartialEq, Eq)]
pub struct IceCandidate {
    pub opaque: Vec<u8>,
}

/// The payloads of a sequence of candidates, in order.
pub open spec fn candidate_payloads(s: Seq<IceCandidate>) -> Seq<Seq<u8>> {
    Seq::new(s.len(), |i: int| s[i].opaque@)
}

#[derive(Clone, Debug, PartialEq, Eq)]
pub struct Offer {
    pub call_media_type: CallMediaType,
    pub opaque: Vec<u8>,
}

#[derive(Clone, Debug, PartialEq, Eq)]
pub struct Answer {
    pub opaque: Vec<u8>,
}

#[derive(Clone, Debug, PartialEq, Eq)]
pub struct Ice {
    pub candidates: Vec<IceCandidate>,
}

/// A signaling message the engine asks to have sent to a peer.
#[derive(Clone, Debug, PartialEq, Eq)]
pub enum Message {
    Offer(Offer),
    Answer(Answer),
    Ice(Ice),
    Hangup(Hangup),
    Busy,
}

#[derive(Clone, Copy, Debug, PartialEq, Eq, Structural)]
pub enum SignalingMessageUrgency {
    Droppable,
    HandleImmediately,
}

} // verus!
