use tring::bridge::{
    encode_call_state, Event, EventReporter, GroupUpdate, GroupUpdateKind, HostCall, HttpMethod,
    HttpRequest, NetworkAdapterType, NetworkRoute, StatusUpdate, STATUS_FLAG,
};
use tring::codec::CodecError;
use tring::signaling::{
    Answer, CallMediaType, CallState, Hangup, HangupType, Ice, IceCandidate, Message, Offer,
    SignalingMessageUrgency,
};

fn status(call_id: u64, code: i32, detail: i32) -> HostCall {
    HostCall::Status(StatusUpdate { call_id, flag: 1, code, detail })
}

fn state_status(state: CallState) -> HostCall {
    let mut rep = EventReporter::new(STATUS_FLAG);
    rep.handle_call_state("peer", 9, state).unwrap();
    let mut out = rep.take_pending();
    assert_eq!(out.len(), 1);
    out.remove(0)
}

#[test]
fn offer_is_handed_over_in_a_record() {
    let mut rep = EventReporter::new(STATUS_FLAG);
    let msg = Message::Offer(Offer { call_media_type: CallMediaType::Video, opaque: vec![5, 6] });
    assert_eq!(rep.send_signaling("peer", 42, None, msg), Ok(()));
    let out = rep.take_pending();
    assert_eq!(out.len(), 1);
    match &out[0] {
        HostCall::Offer(rec) => {
            assert_eq!(rec.len, 2);
            assert_eq!(rec.to_vec(), vec![5, 6]);
        },
        other => panic!("unexpected {:?}", other),
    }
    assert!(rep.take_pending().is_empty());
}

#[test]
fn answer_is_handed_over_in_a_record() {
    let mut rep = EventReporter::new(STATUS_FLAG);
    let msg = Message::Answer(Answer { opaque: vec![1, 2, 3] });
    rep.send_signaling("peer", 42, Some(2), msg).unwrap();
    match &rep.take_pending()[0] {
        HostCall::Answer(rec) => assert_eq!(rec.to_vec(), vec![1, 2, 3]),
        other => panic!("unexpected {:?}", other),
    }
}

#[test]
fn oversized_offer_is_refused_and_nothing_queued() {
    let mut rep = EventReporter::new(STATUS_FLAG);
    let msg = Message::Offer(Offer { call_media_type: CallMediaType::Audio, opaque: vec![0; 300] });
    assert_eq!(rep.send_signaling("peer", 1, None, msg), Err(CodecError::PayloadTooLarge(300)));
    assert!(rep.take_pending().is_empty());
}

#[test]
fn ice_candidates_are_handed_over_truncated() {
    let mut rep = EventReporter::new(STATUS_FLAG);
    let candidates: Vec<IceCandidate> =
        (0..30u8).map(|i| IceCandidate { opaque: vec![i, i] }).collect();
    rep.send_signaling("peer", 3, None, Message::Ice(Ice { candidates })).unwrap();
    match &rep.take_pending()[0] {
        HostCall::IceUpdate(rec) => {
            assert_eq!(rec.len, 25);
            let out = rec.to_payloads();
            assert_eq!(out.len(), 25);
            for (i, p) in out.iter().enumerate() {
                assert_eq!(p, &vec![i as u8, i as u8]);
            }
        },
        other => panic!("unexpected {:?}", other),
    }
}

#[test]
fn hangup_becomes_status_with_hangup_code() {
    let mut rep = EventReporter::new(STATUS_FLAG);
    let hangup = Hangup { hangup_type: HangupType::BusyOnAnotherDevice, device_id: Some(4) };
    rep.send_signaling("peer", 77, None, Message::Hangup(hangup)).unwrap();
    let normal = Hangup { hangup_type: HangupType::Normal, device_id: None };
    rep.send_signaling("peer", 78, None, Message::Hangup(normal)).unwrap();
    assert_eq!(rep.take_pending(), vec![status(77, 11, 3), status(78, 11, 0)]);
}

#[test]
fn busy_is_not_handed_over() {
    let mut rep = EventReporter::new(STATUS_FLAG);
    rep.send_signaling("peer", 1, None, Message::Busy).unwrap();
    assert!(rep.take_pending().is_empty());
}

#[test]
fn incoming_and_outgoing_states_carry_direction_and_media() {
    assert_eq!(state_status(CallState::Incoming(CallMediaType::Audio)), status(9, 0, 0));
    assert_eq!(state_status(CallState::Incoming(CallMediaType::Video)), status(9, 0, 1));
    assert_eq!(state_status(CallState::Outgoing(CallMediaType::Audio)), status(9, 1, 0));
    assert_eq!(state_status(CallState::Outgoing(CallMediaType::Video)), status(9, 1, 1));
}

#[test]
fn other_states_carry_ten_times_their_ordinal() {
    assert_eq!(state_status(CallState::Ringing), status(9, 10, 0));
    assert_eq!(state_status(CallState::Connected), status(9, 20, 0));
    assert_eq!(state_status(CallState::Connecting), status(9, 30, 0));
    assert_eq!(state_status(CallState::Concluded), status(9, 40, 0));
    assert_eq!(state_status(CallState::Ended(3)), status(9, 70, 0));
}

#[test]
fn call_state_encoding_is_a_function_of_call_and_state() {
    let mut a = EventReporter::new(STATUS_FLAG);
    let mut b = EventReporter::new(STATUS_FLAG);
    a.handle_call_state("alice", 5, CallState::Connected).unwrap();
    b.handle_call_state("bob", 5, CallState::Connected).unwrap();
    assert_eq!(a.take_pending(), b.take_pending());
    let video = encode_call_state(5, CallState::Incoming(CallMediaType::Video), 1);
    let audio = encode_call_state(5, CallState::Incoming(CallMediaType::Audio), 1);
    assert_eq!((video.call_id, video.flag, video.code), (audio.call_id, audio.flag, audio.code));
    assert_ne!(video.detail, audio.detail);
    assert_eq!(video, encode_call_state(5, CallState::Incoming(CallMediaType::Video), 1));
}

#[test]
fn remote_video_state_has_fixed_codes() {
    let mut rep = EventReporter::new(STATUS_FLAG);
    rep.handle_remote_video_state("peer", true).unwrap();
    rep.handle_remote_video_state("peer", false).unwrap();
    assert_eq!(rep.take_pending(), vec![status(1, 22, 31), status(1, 22, 32)]);
}

#[test]
fn custom_status_flag_is_used() {
    let mut rep = EventReporter::new(7);
    rep.handle_call_state("peer", 2, CallState::Ringing).unwrap();
    assert_eq!(
        rep.take_pending(),
        vec![HostCall::Status(StatusUpdate { call_id: 2, flag: 7, code: 10, detail: 0 })]
    );
}

#[test]
fn reported_structured_events_are_handed_over() {
    let mut rep = EventReporter::new(STATUS_FLAG);
    rep.handle_remote_sharing_screen("alice", true).unwrap();
    let route = NetworkRoute { local_adapter_type: NetworkAdapterType::Wifi };
    rep.handle_network_route("bob", route).unwrap();
    rep.handle_audio_levels("carol", 100, 200).unwrap();
    let update = GroupUpdate { client_id: 4, kind: GroupUpdateKind::JoinStateChanged };
    rep.handle_group_update(update).unwrap();
    let request = HttpRequest {
        method: HttpMethod::Get,
        url: "https://sfu.example/peek".to_string(),
        headers: vec![("a".to_string(), "b".to_string())],
        body: None,
    };
    rep.send_request(12, request.clone());
    assert_eq!(
        rep.take_pending(),
        vec![
            HostCall::RemoteSharingScreen { peer_id: "alice".to_string(), enabled: true },
            HostCall::NetworkRoute { peer_id: "bob".to_string(), route },
            HostCall::AudioLevels {
                peer_id: "carol".to_string(),
                captured_level: 100,
                received_level: 200,
            },
            HostCall::GroupUpdate(update),
            HostCall::HttpRequest { request_id: 12, request },
        ]
    );
}

#[test]
fn call_messages_are_not_handed_over() {
    let mut rep = EventReporter::new(STATUS_FLAG);
    rep.send_call_message(vec![1], vec![2], SignalingMessageUrgency::Droppable).unwrap();
    rep.send_call_message_to_group(vec![3], vec![4], SignalingMessageUrgency::HandleImmediately)
        .unwrap();
    assert!(rep.take_pending().is_empty());
}

#[test]
fn events_are_queued_in_arrival_order() {
    let mut rep = EventReporter::new(STATUS_FLAG);
    rep.send(Event::CallState("p".to_string(), 1, CallState::Ringing)).unwrap();
    rep.send(Event::RemoteVideoStateChange("p".to_string(), true)).unwrap();
    rep.send(Event::CallState("p".to_string(), 1, CallState::Connected)).unwrap();
    assert_eq!(
        rep.take_pending(),
        vec![status(1, 10, 0), status(1, 22, 31), status(1, 20, 0)]
    );
}

#[test]
fn report_remembers_it_was_called() {
    let mut rep = EventReporter::new(STATUS_FLAG);
    assert!(!rep.report());
    assert!(rep.report());
}
