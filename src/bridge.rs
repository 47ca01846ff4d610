use vstd::prelude::*;

use crate::codec::{
    encode_slots, kept_count, payloads_fit, payloads_refused, CodecError, JArrayByte,
    JArrayByte2D, PAYLOAD_CAPACITY, RECORD_CAPACITY,
};
use crate::signaling::{
    candidate_payloads, AudioLevel, CallId, CallMediaType, CallState, DeviceId, GroupId, Hangup, Message, PeerId,
    SignalingMessageUrgency, UserId,
};

verus! {

/// Second field of every status tuple. Its meaning beyond "an event
/// happened" is not settled, so a reporter can be built with another value.
pub const STATUS_FLAG: u64 = 1;

/// Status code of a hangup to send.
pub const HANGUP_CODE: i32 = 11;

/// Status code of a change of the remote video state.
pub const REMOTE_VIDEO_CODE: i32 = 22;

/// Status detail: remote video turned on.
pub const REMOTE_VIDEO_ENABLED: i32 = 31;

/// Status detail: remote video turned off.
pub const REMOTE_VIDEO_DISABLED: i32 = 32;

/// Call id field of a remote-video status; the event names no call.
pub const REMOTE_VIDEO_CALL_ID: u64 = 1;

/// The status tuple handed to the host's status callback.
#[derive(Clone, Copy, Debug, PartialEq, Eq, Structural)]
pub struct StatusUpdate {
    pub call_id: u64,
    pub flag: u64,
    pub code: i32,
    pub detail: i32,
}

#[derive(Clone, Copy, Debug, PartialEq, Eq, Structural)]
pub enum NetworkAdapterType {
    Unknown,
    Ethernet,
    Wifi,
    Cellular,
    Vpn,
    Loopback,
}

/// The local side of the route a one-to-one call's media takes.
#[derive(Clone, Copy, Debug, PartialEq, Eq, Structural)]
pub struct NetworkRoute {
    pub local_adapter_type: NetworkAdapterType,
}

#[derive(Clone, Copy, Debug, PartialEq, Eq, Structural)]
pub enum GroupUpdateKind {
    RequestMembershipProof,
    RequestGroupMembers,
    ConnectionStateChanged,
    JoinStateChanged,
    RemoteDevicesChanged,
    PeekChanged,
    Ended,
}

/// An update about a group call, for the client that it names.
#[derive(Clone, Copy, Debug, PartialEq, Eq, Structural)]
pub struct GroupUpdate {
    pub client_id: u32,
    pub kind: GroupUpdateKind,
}

#[derive(Clone, Copy, Debug, PartialEq, Eq, Structural)]
pub enum HttpMethod {
    Get,
    Put,
    Post,
    Delete,
}

/// An HTTP request that the host is to make on the engine's behalf.
#[derive(Clone, Debug, PartialEq, Eq)]
pub struct HttpRequest {
    pub method: HttpMethod,
    pub url: String,
    pub headers: Vec<(String, String)>,
    pub body: Option<Vec<u8>>,
}

/// What the engine reports to the bridge.
pub enum Event {
    /// Send `Message` to the peer in the context of the call; with no
    /// device, to all devices of the peer.
    SendSignaling(PeerId, Option<DeviceId>, CallId, Message),
    /// Send an opaque call message to one user.
    SendCallMessage { recipient_uuid: UserId, message: Vec<u8>, urgency: SignalingMessageUrgency },
    /// Send an opaque call message to all other members of a group.
    SendCallMessageToGroup {
        group_id: GroupId,
        message: Vec<u8>,
        urgency: SignalingMessageUrgency,
    },
    /// The call with the peer changed state; one call per peer is assumed.
    CallState(PeerId, CallId, CallState),
    /// The remote video of the peer's call was turned on or off.
    RemoteVideoStateChange(PeerId, bool),
    /// The peer started or stopped sharing its screen.
    RemoteSharingScreenChange(PeerId, bool),
    /// A group call has an update.
    GroupUpdate(GroupUpdate),
    /// The host should make an HTTP request.
    SendHttpRequest { request_id: u32, request: HttpRequest },
    /// The network route of a one-to-one call changed.
    NetworkRouteChange(PeerId, NetworkRoute),
    /// Audio levels of a one-to-one call.
    AudioLevels { peer_id: PeerId, captured_level: AudioLevel, received_level: AudioLevel },
}

/// One invocation of a host callback, with the record it is handed.
#[derive(Clone, Debug, PartialEq, Eq)]
pub enum HostCall {
    Status(StatusUpdate),
    Offer(JArrayByte),
    Answer(JArrayByte),
    IceUpdate(JArrayByte2D),
    RemoteSharingScreen { peer_id: PeerId, enabled: bool },
    NetworkRoute { peer_id: PeerId, route: NetworkRoute },
    AudioLevels { peer_id: PeerId, captured_level: AudioLevel, received_level: AudioLevel },
    GroupUpdate(GroupUpdate),
    HttpRequest { request_id: u32, request: HttpRequest },
}

/// Status tuple of a call state: incoming and outgoing calls carry their
/// direction and media type; every other state carries ten times its
/// ordinal.
pub open spec fn status_for_call_state(call_id: CallId, state: CallState, flag: u64) -> StatusUpdate {
    let (code, detail) = match state {
        CallState::Incoming(media) => (0i32, media.spec_code()),
        CallState::Outgoing(media) => (1i32, media.spec_code()),
        CallState::Ringing => (10i32, 0i32),
        CallState::Connected => (20i32, 0i32),
        CallState::Connecting => (30i32, 0i32),
        CallState::Concluded => (40i32, 0i32),
        CallState::Ended(_) => (70i32, 0i32),
    };
    StatusUpdate { call_id, flag, code, detail }
}

/// Status tuple of a hangup to send.
pub open spec fn status_for_hangup(call_id: CallId, hangup: Hangup, flag: u64) -> StatusUpdate {
    StatusUpdate { call_id, flag, code: HANGUP_CODE, detail: hangup.hangup_type.spec_code() }
}

/// Status tuple of a change of the remote video state.
pub open spec fn status_for_remote_video(enabled: bool, flag: u64) -> StatusUpdate {
    StatusUpdate {
        call_id: REMOTE_VIDEO_CALL_ID,
        flag,
        code: REMOTE_VIDEO_CODE,
        detail: if enabled {
            REMOTE_VIDEO_ENABLED
        } else {
            REMOTE_VIDEO_DISABLED
        },
    }
}

/// Whether every payload of `msg` fits the record it is sent in.
pub open spec fn signaling_fits(msg: Message) -> bool {
    match msg {
        Message::Offer(offer) => offer.opaque@.len() <= PAYLOAD_CAPACITY,
        Message::Answer(answer) => answer.opaque@.len() <= PAYLOAD_CAPACITY,
        Message::Ice(ice) => payloads_fit(
            candidate_payloads(ice.candidates@),
            RECORD_CAPACITY as nat,
        ),
        _ => true,
    }
}

/// `e` is the error that refuses `msg`.
pub open spec fn signaling_refused(msg: Message, e: CodecError) -> bool {
    match msg {
        Message::Offer(offer) => offer.opaque@.len() > PAYLOAD_CAPACITY && e
            == CodecError::PayloadTooLarge(offer.opaque.len()),
        Message::Answer(answer) => answer.opaque@.len() > PAYLOAD_CAPACITY && e
            == CodecError::PayloadTooLarge(answer.opaque.len()),
        Message::Ice(ice) => payloads_refused(
            candidate_payloads(ice.candidates@),
            RECORD_CAPACITY as nat,
            e,
        ),
        _ => false,
    }
}

/// `out` is what the host is handed for `msg` sent in the call `call_id`.
pub open spec fn signaling_dispatch(
    call_id: CallId,
    msg: Message,
    flag: u64,
    out: Seq<HostCall>,
) -> bool {
    match msg {
        Message::Offer(offer) => out.len() == 1 && match out[0] {
            HostCall::Offer(rec) => rec.wf() && rec.payload() == offer.opaque@,
            _ => false,
        },
        Message::Answer(answer) => out.len() == 1 && match out[0] {
            HostCall::Answer(rec) => rec.wf() && rec.payload() == answer.opaque@,
            _ => false,
        },
        Message::Ice(ice) => out.len() == 1 && match out[0] {
            HostCall::IceUpdate(rec) => {
                &&& rec.wf()
                &&& rec.len == kept_count(ice.candidates@.len(), RECORD_CAPACITY as nat)
                &&& rec.slots() == encode_slots(
                    candidate_payloads(ice.candidates@),
                    RECORD_CAPACITY as nat,
                )
            },
            _ => false,
        },
        Message::Hangup(hangup) => out == seq![HostCall::Status(status_for_hangup(call_id, hangup, flag))],
        Message::Busy => out.len() == 0,
    }
}

/// `new` is `old` followed by exactly what the host is handed for `msg`,
/// or, where `msg` is refused with the error in `r`, `old` unchanged.
pub open spec fn signaling_sent(
    old: Seq<HostCall>,
    new: Seq<HostCall>,
    call_id: CallId,
    msg: Message,
    flag: u64,
    r: Result<(), CodecError>,
) -> bool {
    match r {
        Ok(_) => {
            &&& signaling_fits(msg)
            &&& new.len() >= old.len()
            &&& new.take(old.len() as int) == old
            &&& signaling_dispatch(call_id, msg, flag, new.skip(old.len() as int))
        },
        Err(e) => signaling_refused(msg, e) && new == old,
    }
}

/// `new` is `old` followed by exactly what the host is handed for `event`,
/// or, where `event` is refused with the error in `r`, `old` unchanged.
/// Call messages are not handed to the host.
pub open spec fn event_sent(
    old: Seq<HostCall>,
    new: Seq<HostCall>,
    event: Event,
    flag: u64,
    r: Result<(), CodecError>,
) -> bool {
    match event {
        Event::SendSignaling(_, _, call_id, msg) => signaling_sent(old, new, call_id, msg, flag, r),
        Event::CallState(_, call_id, state) => r is Ok && new == old.push(
            HostCall::Status(status_for_call_state(call_id, state, flag)),
        ),
        Event::RemoteVideoStateChange(_, enabled) => r is Ok && new == old.push(
            HostCall::Status(status_for_remote_video(enabled, flag)),
        ),
        Event::RemoteSharingScreenChange(peer_id, enabled) => r is Ok && new == old.push(
            HostCall::RemoteSharingScreen { peer_id, enabled },
        ),
        Event::NetworkRouteChange(peer_id, route) => r is Ok && new == old.push(
            HostCall::NetworkRoute { peer_id, route },
        ),
        Event::AudioLevels { peer_id, captured_level, received_level } => r is Ok && new
            == old.push(HostCall::AudioLevels { peer_id, captured_level, received_level }),
        Event::GroupUpdate(update) => r is Ok && new == old.push(HostCall::GroupUpdate(update)),
        Event::SendHttpRequest { request_id, request } => r is Ok && new == old.push(
            HostCall::HttpRequest { request_id, request },
        ),
        Event::SendCallMessage { .. } => r is Ok && new == old,
        Event::SendCallMessageToGroup { .. } => r is Ok && new == old,
    }
}

/// `new` is `old` with one more invocation at its end.
pub open spec fn pushed_one(old: Seq<HostCall>, new: Seq<HostCall>) -> bool {
    new.len() == old.len() + 1 && new.take(old.len() as int) == old
}

proof fn lemma_push_one(q: Seq<HostCall>, x: HostCall)
    ensures
        q.push(x).take(q.len() as int) == q,
        q.push(x).skip(q.len() as int) == seq![x],
{
    assert(q.push(x).take(q.len() as int) =~= q);
    assert(q.push(x).skip(q.len() as int) =~= seq![x]);
}

/// Status tuple of a call state.
pub fn encode_call_state(call_id: CallId, state: CallState, flag: u64) -> (r: StatusUpdate)
    ensures
        r == status_for_call_state(call_id, state, flag),
{
    let (code, detail) = match state {
        CallState::Incoming(media) => (0i32, media.code()),
        CallState::Outgoing(media) => (1i32, media.code()),
        CallState::Ringing => (10i32, 0i32),
        CallState::Connected => (20i32, 0i32),
        CallState::Connecting => (30i32, 0i32),
        CallState::Concluded => (40i32, 0i32),
        CallState::Ended(_) => (70i32, 0i32),
    };
    StatusUpdate { call_id, flag, code, detail }
}

/// Reporting a call state is a function of the call id and the state alone:
/// two reports of the same call id and state, for any peers, queue the same
/// invocation. An incoming video call and an incoming audio call are
/// reported alike but for the media field.
pub proof fn lemma_call_state_report_is_function(
    queue: Seq<HostCall>,
    flag: u64,
    peer: PeerId,
    other_peer: PeerId,
    call_id: CallId,
    state: CallState,
    after: Seq<HostCall>,
    other_after: Seq<HostCall>,
    r: Result<(), CodecError>,
    other_r: Result<(), CodecError>,
)
    requires
        event_sent(queue, after, Event::CallState(peer, call_id, state), flag, r),
        event_sent(queue, other_after, Event::CallState(other_peer, call_id, state), flag, other_r),
    ensures
        after == other_after,
        r is Ok && other_r is Ok,
        ({
            let video = status_for_call_state(call_id, CallState::Incoming(CallMediaType::Video), flag);
            let audio = status_for_call_state(call_id, CallState::Incoming(CallMediaType::Audio), flag);
            &&& video.call_id == audio.call_id
            &&& video.flag == audio.flag
            &&& video.code == audio.code
            &&& video.detail != audio.detail
        }),
{
}

/// Turns engine events into host callback invocations and queues them in
/// the order the events arrive, for one consumer to deliver.
pub struct EventReporter {
    status_flag: u64,
    queue: Vec<HostCall>,
    reported: bool,
}

impl EventReporter {
    /// Invocations queued and not yet taken, oldest first.
    pub closed spec fn pending(&self) -> Seq<HostCall> {
        self.queue@
    }

    /// The flag this reporter puts in every status tuple.
    pub closed spec fn flag(&self) -> u64 {
        self.status_flag
    }

    /// Whether `report` was called.
    pub closed spec fn was_reported(&self) -> bool {
        self.reported
    }

    pub fn new(status_flag: u64) -> (r: EventReporter)
        ensures
            r.pending() == Seq::<HostCall>::empty(),
            r.flag() == status_flag,
            !r.was_reported(),
    {
        EventReporter { status_flag, queue: Vec::new(), reported: false }
    }

    /// Marks that an event was reported; returns whether one had been before.
    pub fn report(&mut self) -> (r: bool)
        ensures
            r == old(self).was_reported(),
            final(self).was_reported(),
            final(self).pending() == old(self).pending(),
            final(self).flag() == old(self).flag(),
    {
        let was = self.reported;
        self.reported = true;
        was
    }

    /// Hands out every queued invocation, oldest first, and empties the queue.
    pub fn take_pending(&mut self) -> (r: Vec<HostCall>)
        ensures
            r@ == old(self).pending(),
            final(self).pending() == Seq::<HostCall>::empty(),
            final(self).flag() == old(self).flag(),
            final(self).was_reported() == old(self).was_reported(),
    {
        let mut taken: Vec<HostCall> = Vec::new();
        std::mem::swap(&mut taken, &mut self.queue);
        taken
    }

    /// Queues what the host is to be handed for `event`. Fails, queuing
    /// nothing, when a payload does not fit its record.
    pub fn send(&mut self, event: Event) -> (r: Result<(), CodecError>)
        ensures
            event_sent(old(self).pending(), final(self).pending(), event, old(self).flag(), r),
            final(self).flag() == old(self).flag(),
            final(self).was_reported() == old(self).was_reported(),
    {
        match event {
            Event::SendSignaling(_peer_id, _device_id, call_id, msg) => self.send_message(call_id, msg),
            Event::CallState(_peer_id, call_id, state) => {
                let status = encode_call_state(call_id, state, self.status_flag);
                self.queue.push(HostCall::Status(status));
                Ok(())
            },
            Event::RemoteVideoStateChange(_peer_id, enabled) => {
                let detail = if enabled {
                    REMOTE_VIDEO_ENABLED
                } else {
                    REMOTE_VIDEO_DISABLED
                };
                self.queue.push(
                    HostCall::Status(
                        StatusUpdate {
                            call_id: REMOTE_VIDEO_CALL_ID,
                            flag: self.status_flag,
                            code: REMOTE_VIDEO_CODE,
                            detail,
                        },
                    ),
                );
                Ok(())
            },
            Event::RemoteSharingScreenChange(peer_id, enabled) => {
                self.queue.push(HostCall::RemoteSharingScreen { peer_id, enabled });
                Ok(())
            },
            Event::NetworkRouteChange(peer_id, route) => {
                self.queue.push(HostCall::NetworkRoute { peer_id, route });
                Ok(())
            },
            Event::AudioLevels { peer_id, captured_level, received_level } => {
                self.queue.push(HostCall::AudioLevels { peer_id, captured_level, received_level });
                Ok(())
            },
            Event::GroupUpdate(update) => {
                self.queue.push(HostCall::GroupUpdate(update));
                Ok(())
            },
            Event::SendHttpRequest { request_id, request } => {
                self.queue.push(HostCall::HttpRequest { request_id, request });
                Ok(())
            },
            Event::SendCallMessage { .. } => Ok(()),
            Event::SendCallMessageToGroup { .. } => Ok(()),
        }
    }

    /// The engine asks to send `msg` to `recipient_id`.
    pub fn send_signaling(
        &mut self,
        recipient_id: &str,
        call_id: CallId,
        receiver_device_id: Option<DeviceId>,
        msg: Message,
    ) -> (r: Result<(), CodecError>)
        ensures
            signaling_sent(old(self).pending(), final(self).pending(), call_id, msg, old(self).flag(), r),
            final(self).flag() == old(self).flag(),
            final(self).was_reported() == old(self).was_reported(),
    {
        self.send(Event::SendSignaling(recipient_id.to_string(), receiver_device_id, call_id, msg))
    }

    /// The engine asks to send a call message to one user; the host is not
    /// handed call messages.
    pub fn send_call_message(
        &mut self,
        recipient_uuid: UserId,
        message: Vec<u8>,
        urgency: SignalingMessageUrgency,
    ) -> (r: Result<(), CodecError>)
        ensures
            r is Ok,
            final(self).pending() == old(self).pending(),
            final(self).flag() == old(self).flag(),
            final(self).was_reported() == old(self).was_reported(),
    {
        self.send(Event::SendCallMessage { recipient_uuid, message, urgency })
    }

    /// The engine asks to send a call message to a group; the host is not
    /// handed call messages.
    pub fn send_call_message_to_group(
        &mut self,
        group_id: GroupId,
        message: Vec<u8>,
        urgency: SignalingMessageUrgency,
    ) -> (r: Result<(), CodecError>)
        ensures
            r is Ok,
            final(self).pending() == old(self).pending(),
            final(self).flag() == old(self).flag(),
            final(self).was_reported() == old(self).was_reported(),
    {
        self.send(Event::SendCallMessageToGroup { group_id, message, urgency })
    }

    pub fn handle_call_state(
        &mut self,
        remote_peer_id: &str,
        call_id: CallId,
        call_state: CallState,
    ) -> (r: Result<(), CodecError>)
        ensures
            r is Ok,
            final(self).pending() == old(self).pending().push(
                HostCall::Status(status_for_call_state(call_id, call_state, old(self).flag())),
            ),
            final(self).flag() == old(self).flag(),
            final(self).was_reported() == old(self).was_reported(),
    {
        self.send(Event::CallState(remote_peer_id.to_string(), call_id, call_state))
    }

    pub fn handle_network_route(&mut self, remote_peer_id: &str, network_route: NetworkRoute) -> (r:
        Result<(), CodecError>)
        ensures
            r is Ok,
            pushed_one(old(self).pending(), final(self).pending()),
            match final(self).pending().last() {
                HostCall::NetworkRoute { peer_id, route } => peer_id@ == remote_peer_id@ && route
                    == network_route,
                _ => false,
            },
            final(self).flag() == old(self).flag(),
            final(self).was_reported() == old(self).was_reported(),
    {
        let ghost q = self.queue@;
        let r = self.send(Event::NetworkRouteChange(remote_peer_id.to_string(), network_route));
        assert(self.queue@.take(q.len() as int) =~= q);
        r
    }

    pub fn handle_remote_video_state(&mut self, remote_peer_id: &str, enabled: bool) -> (r: Result<
        (),
        CodecError,
    >)
        ensures
            r is Ok,
            final(self).pending() == old(self).pending().push(
                HostCall::Status(status_for_remote_video(enabled, old(self).flag())),
            ),
            final(self).flag() == old(self).flag(),
            final(self).was_reported() == old(self).was_reported(),
    {
        self.send(Event::RemoteVideoStateChange(remote_peer_id.to_string(), enabled))
    }

    pub fn handle_remote_sharing_screen(&mut self, remote_peer_id: &str, enabled: bool) -> (r:
        Result<(), CodecError>)
        ensures
            r is Ok,
            pushed_one(old(self).pending(), final(self).pending()),
            match final(self).pending().last() {
                HostCall::RemoteSharingScreen { peer_id, enabled: e } => peer_id@ == remote_peer_id@
                    && e == enabled,
                _ => false,
            },
            final(self).flag() == old(self).flag(),
            final(self).was_reported() == old(self).was_reported(),
    {
        let ghost q = self.queue@;
        let r = self.send(Event::RemoteSharingScreenChange(remote_peer_id.to_string(), enabled));
        assert(self.queue@.take(q.len() as int) =~= q);
        r
    }

    pub fn handle_audio_levels(
        &mut self,
        remote_peer_id: &str,
        captured_level: AudioLevel,
        received_level: AudioLevel,
    ) -> (r: Result<(), CodecError>)
        ensures
            r is Ok,
            pushed_one(old(self).pending(), final(self).pending()),
            match final(self).pending().last() {
                HostCall::AudioLevels { peer_id, captured_level: c, received_level: v } => peer_id@
                    == remote_peer_id@ && c == captured_level && v == received_level,
                _ => false,
            },
            final(self).flag() == old(self).flag(),
            final(self).was_reported() == old(self).was_reported(),
    {
        let ghost q = self.queue@;
        let r = self.send(
            Event::AudioLevels { peer_id: remote_peer_id.to_string(), captured_level, received_level },
        );
        assert(self.queue@.take(q.len() as int) =~= q);
        r
    }

    /// The engine asks the host to make an HTTP request.
    pub fn send_request(&mut self, request_id: u32, request: HttpRequest)
        ensures
            final(self).pending() == old(self).pending().push(
                HostCall::HttpRequest { request_id, request },
            ),
            final(self).flag() == old(self).flag(),
            final(self).was_reported() == old(self).was_reported(),
    {
        let _ = self.send(Event::SendHttpRequest { request_id, request });
    }

    pub fn handle_group_update(&mut self, update: GroupUpdate) -> (r: Result<(), CodecError>)
        ensures
            r is Ok,
            final(self).pending() == old(self).pending().push(HostCall::GroupUpdate(update)),
            final(self).flag() == old(self).flag(),
            final(self).was_reported() == old(self).was_reported(),
    {
        self.send(Event::GroupUpdate(update))
    }

    fn send_message(&mut self, call_id: CallId, msg: Message) -> (r: Result<(), CodecError>)
        ensures
            signaling_sent(old(self).pending(), final(self).pending(), call_id, msg, old(self).flag(), r),
            final(self).flag() == old(self).flag(),
            final(self).was_reported() == old(self).was_reported(),
    {
        let ghost old_queue = self.queue@;
        match msg {
            Message::Offer(offer) => {
                let rec = JArrayByte::new(offer.opaque);
                match rec {
                    Ok(rec) => {
                        let call = HostCall::Offer(rec);
                        proof {
                            lemma_push_one(old_queue, call);
                        }
                        self.queue.push(call);
                    },
                    Err(e) => {
                        return Err(e);
                    },
                }
            },
            Message::Answer(answer) => {
                let rec = JArrayByte::new(answer.opaque);
                match rec {
                    Ok(rec) => {
                        let call = HostCall::Answer(rec);
                        proof {
                            lemma_push_one(old_queue, call);
                        }
                        self.queue.push(call);
                    },
                    Err(e) => {
                        return Err(e);
                    },
                }
            },
            Message::Ice(ice) => {
                let rec = JArrayByte2D::new(ice.candidates);
                match rec {
                    Ok(rec) => {
                        let call = HostCall::IceUpdate(rec);
                        proof {
                            lemma_push_one(old_queue, call);
                        }
                        self.queue.push(call);
                    },
                    Err(e) => {
                        return Err(e);
                    },
                }
            },
            Message::Hangup(hangup) => {
                let code = hangup.hangup_type.code();
                let call = HostCall::Status(
                    StatusUpdate { call_id, flag: self.status_flag, code: HANGUP_CODE, detail: code },
                );
                proof {
                    lemma_push_one(old_queue, call);
                }
                self.queue.push(call);
            },
            Message::Busy => {
                assert(self.queue@.take(old_queue.len() as int) =~= old_queue);
                assert(self.queue@.skip(old_queue.len() as int) =~= Seq::<HostCall>::empty());
            },
        }
        Ok(())
    }
}

} // verus!
