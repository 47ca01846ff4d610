use vstd::prelude::*;
use vstd::utf8::{decode_utf8, encode_utf8, valid_utf8};

use crate::bridge::{EventReporter, HostCall, STATUS_FLAG};
use crate::codec::{
    byte_seqs, copy_bytes, copy_prefix, decode_slots, lemma_take_next, JByteArray, JByteArray2D,
};
use crate::device::JString;
use crate::media::{LastFramesVideoSink, VideoFrame, VideoPixelFormat};
use crate::signaling::{
    candidate_payloads, Answer, CallId, CallMediaType, DeviceId, Ice, IceCandidate, Offer, PeerId,
};

verus! {

/// Track whose frames the host pulls; other tracks are not delivered.
pub const INCOMING_TRACK_ID: u32 = 0;

/// Bytes of one pixel in the flat layout frames cross the boundary in.
pub const BYTES_PER_PIXEL: usize = 4;

/// Size of the buffer every delivered frame is handed over in.
pub const FRAME_BUFFER_SIZE: usize = 512000;

#[derive(Clone, Copy, Debug, PartialEq, Eq, Structural)]
pub enum BandwidthMode {
    VeryLow,
    Low,
    Normal,
}

impl BandwidthMode {
    /// The mode the host means by `value`; unknown numbers mean `Normal`.
    pub open spec fn spec_from_i32(value: i32) -> BandwidthMode {
        if value == 0 {
            BandwidthMode::VeryLow
        } else if value == 1 {
            BandwidthMode::Low
        } else {
            BandwidthMode::Normal
        }
    }

    pub fn from_i32(value: i32) -> (r: BandwidthMode)
        ensures
            r == BandwidthMode::spec_from_i32(value),
    {
        match value {
            0 => BandwidthMode::VeryLow,
            1 => BandwidthMode::Low,
            _ => BandwidthMode::Normal,
        }
    }
}

#[derive(Clone, Debug, PartialEq, Eq)]
pub struct ReceivedOffer {
    pub offer: Offer,
    pub age_secs: u64,
    pub sender_device_id: DeviceId,
    pub receiver_device_id: DeviceId,
    pub receiver_device_is_primary: bool,
    pub sender_identity_key: Vec<u8>,
    pub receiver_identity_key: Vec<u8>,
}

#[derive(Clone, Debug, PartialEq, Eq)]
pub struct ReceivedAnswer {
    pub answer: Answer,
    pub sender_device_id: DeviceId,
    pub sender_identity_key: Vec<u8>,
    pub receiver_identity_key: Vec<u8>,
}

#[derive(Clone, Debug, PartialEq, Eq)]
pub struct ReceivedIce {
    pub ice: Ice,
    pub sender_device_id: DeviceId,
}

#[derive(Clone, Debug, PartialEq, Eq)]
pub struct IceServer {
    pub username: String,
    pub password: String,
    pub urls: Vec<String>,
}

/// What the engine needs to proceed with a call.
#[derive(Clone, Debug, PartialEq, Eq)]
pub struct CallContext {
    pub hide_ip: bool,
    pub ice_server: IceServer,
}

#[derive(Clone, Copy, Debug, PartialEq, Eq, Structural)]
pub struct SenderStatus {
    pub video_enabled: Option<bool>,
}

/// A command for the call engine or the media layer.
#[derive(Clone, Debug, PartialEq, Eq)]
pub enum EngineCommand {
    SetSelfUuid(Vec<u8>),
    ReceivedOffer { peer_id: PeerId, call_id: CallId, offer: ReceivedOffer },
    ReceivedAnswer { call_id: CallId, answer: ReceivedAnswer },
    CreateOutgoingCall {
        peer_id: PeerId,
        call_id: CallId,
        media_type: CallMediaType,
        local_device_id: DeviceId,
    },
    Proceed {
        call_id: CallId,
        context: CallContext,
        bandwidth_mode: BandwidthMode,
        audio_levels_interval_millis: Option<u64>,
    },
    ReceivedIce { call_id: CallId, ice: ReceivedIce },
    AcceptCall(CallId),
    DropCall(CallId),
    Hangup(CallId),
    MessageSent(CallId),
    SetAudioRecordingDevice(u16),
    SetAudioPlayoutDevice(u16),
    UpdateSenderStatus(SenderStatus),
    PushVideoFrame(VideoFrame),
}

#[derive(Clone, Copy, Debug, PartialEq, Eq, Structural)]
pub enum EndpointError {
    /// The ICE entry at this index is not UTF-8.
    InvalidUtf8(usize),
    /// The host named no known pixel format.
    UnknownPixelFormat(i32),
    /// The pixel buffer is shorter than width × height × 4 bytes.
    BufferTooSmall,
    /// A frame to deliver is not in the flat pixel layout.
    UnsupportedPixelFormat,
    /// A frame to deliver does not fit `FRAME_BUFFER_SIZE`.
    FrameTooLarge,
    /// A frame to deliver holds another number of bytes than its size says.
    MalformedFrame,
}

/// A frame as the host's video callback is handed it.
#[derive(Clone, Debug, PartialEq, Eq)]
pub struct FrameDelivery {
    pub width: u32,
    pub height: u32,
    pub pixels: Vec<u8>,
}

/// Relies on `String::from_utf8`: it accepts exactly the byte sequences that
/// are valid UTF-8, and the string it returns holds the characters they
/// encode.
#[verifier::external_body]
fn string_from_utf8(bytes: Vec<u8>) -> (r: Option<String>)
    ensures
        r is Some <==> valid_utf8(bytes@),
        r matches Some(s) ==> s@ == decode_utf8(bytes@),
{
    String::from_utf8(bytes).ok()
}

/// `urls` are the entries, each valid UTF-8, decoded in order.
pub open spec fn urls_decoded(urls: Seq<String>, entries: Seq<Seq<u8>>) -> bool {
    &&& urls.len() == entries.len()
    &&& forall|i: int|
        0 <= i < entries.len() ==> valid_utf8(#[trigger] entries[i]) && urls[i]@ == decode_utf8(
            entries[i],
        )
}

/// Why `frame` cannot be delivered, if it cannot.
pub open spec fn frame_error(frame: VideoFrame) -> Option<EndpointError> {
    let n = frame.width * frame.height * BYTES_PER_PIXEL;
    if frame.pixel_format != VideoPixelFormat::Rgba {
        Some(EndpointError::UnsupportedPixelFormat)
    } else if n > FRAME_BUFFER_SIZE {
        Some(EndpointError::FrameTooLarge)
    } else if frame.data@.len() != n {
        Some(EndpointError::MalformedFrame)
    } else {
        None
    }
}

/// `frame`'s pixels followed by zeros up to `FRAME_BUFFER_SIZE` bytes.
pub open spec fn padded_pixels(frame: VideoFrame) -> Seq<u8> {
    Seq::new(
        FRAME_BUFFER_SIZE as nat,
        |i: int| if i < frame.data@.len() { frame.data@[i] } else { 0u8 },
    )
}

/// The decoded entries of a host record, as ICE candidates.
pub fn decode_candidates(icepack: &JByteArray2D) -> (r: Vec<IceCandidate>)
    requires
        icepack.wf(),
    ensures
        candidate_payloads(r@) == decode_slots(icepack.len as nat, icepack.slots()),
{
    let payloads = icepack.to_payloads();
    let mut r: Vec<IceCandidate> = Vec::with_capacity(payloads.len());
    let mut i: usize = 0;
    while i < payloads.len()
        invariant
            i <= payloads@.len(),
            candidate_payloads(r@) == byte_seqs(payloads@).take(i as int),
        decreases payloads@.len() - i,
    {
        let c = IceCandidate { opaque: copy_bytes(payloads[i].as_slice()) };
        proof {
            lemma_take_next(byte_seqs(payloads@), i as int);
            assert(candidate_payloads(r@.push(c)) =~= candidate_payloads(r@).push(c.opaque@));
        }
        r.push(c);
        i += 1;
    }
    assert(byte_seqs(payloads@).take(payloads@.len() as int) =~= byte_seqs(payloads@));
    r
}

/// Bytes of a flat frame of `width` × `height` pixels.
pub open spec fn flat_frame_len(width: u32, height: u32) -> int {
    width * height * BYTES_PER_PIXEL
}

proof fn lemma_pixel_count_fits(width: u32, height: u32)
    ensures
        (width as int) * (height as int) <= 0xffff_ffff_ffff_ffff,
{
    assert((width as int) * (height as int) <= 0xffff_ffff * 0xffff_ffff) by (nonlinear_arith)
        requires
            width <= 0xffff_ffff,
            height <= 0xffff_ffff,
    ;
}

/// The frame in the layout the host is handed: its pixels, then zeros up to
/// `FRAME_BUFFER_SIZE` bytes.
pub fn deliver_frame(frame: &VideoFrame) -> (r: Result<FrameDelivery, EndpointError>)
    ensures
        match r {
            Ok(d) => {
                &&& frame_error(*frame) is None
                &&& d.width == frame.width
                &&& d.height == frame.height
                &&& d.pixels@ == padded_pixels(*frame)
            },
            Err(e) => frame_error(*frame) == Some(e),
        },
{
    match frame.pixel_format {
        VideoPixelFormat::Rgba => {},
        _ => {
            return Err(EndpointError::UnsupportedPixelFormat);
        },
    }
    proof {
        lemma_pixel_count_fits(frame.width, frame.height);
    }
    let pixels: u64 = (frame.width as u64) * (frame.height as u64);
    if pixels > (FRAME_BUFFER_SIZE / BYTES_PER_PIXEL) as u64 {
        return Err(EndpointError::FrameTooLarge);
    }
    let n: usize = (pixels as usize) * BYTES_PER_PIXEL;
    if frame.data.len() != n {
        return Err(EndpointError::MalformedFrame);
    }
    let mut pixels_out: Vec<u8> = Vec::with_capacity(FRAME_BUFFER_SIZE);
    let mut i: usize = 0;
    while i < FRAME_BUFFER_SIZE
        invariant
            n == frame.data@.len(),
            n <= FRAME_BUFFER_SIZE,
            i <= FRAME_BUFFER_SIZE,
            pixels_out@ == padded_pixels(*frame).take(i as int),
        decreases FRAME_BUFFER_SIZE - i,
    {
        let b = if i < n {
            frame.data[i]
        } else {
            0u8
        };
        pixels_out.push(b);
        i += 1;
        assert(pixels_out@ =~= padded_pixels(*frame).take(i as int));
    }
    assert(pixels_out@ =~= padded_pixels(*frame));
    Ok(FrameDelivery { width: frame.width, height: frame.height, pixels: pixels_out })
}

/// The session: the state behind the host's commands, the cache of incoming
/// frames, and the bridge that queues engine events for the host.
pub struct CallEndpoint {
    use_new_audio_device_module: bool,
    outgoing_audio_enabled: bool,
    outgoing_video_enabled: bool,
    incoming_video_sink: LastFramesVideoSink,
    event_reporter: EventReporter,
}

impl CallEndpoint {
    pub closed spec fn audio_enabled(&self) -> bool {
        self.outgoing_audio_enabled
    }

    pub closed spec fn video_enabled(&self) -> bool {
        self.outgoing_video_enabled
    }

    pub closed spec fn new_audio_device_module(&self) -> bool {
        self.use_new_audio_device_module
    }

    /// The incoming frames held, by track.
    pub closed spec fn frames(&self) -> Map<u32, VideoFrame> {
        self.incoming_video_sink@
    }

    pub closed spec fn reporter(&self) -> EventReporter {
        self.event_reporter
    }

    /// The bridge through which the engine reports to the host.
    pub fn event_reporter(&mut self) -> (r: &mut EventReporter)
        ensures
            *r == old(self).reporter(),
            final(self).reporter() == *final(r),
            final(self).frames() == old(self).frames(),
            final(self).audio_enabled() == old(self).audio_enabled(),
            final(self).video_enabled() == old(self).video_enabled(),
            final(self).new_audio_device_module() == old(self).new_audio_device_module(),
    {
        &mut self.event_reporter
    }

    /// The engine delivers a decoded frame of `track_id`; it replaces the
    /// track's earlier frame.
    pub fn on_video_frame(&mut self, track_id: u32, frame: VideoFrame)
        ensures
            final(self).frames() == old(self).frames().insert(track_id, frame),
            final(self).reporter() == old(self).reporter(),
            final(self).audio_enabled() == old(self).audio_enabled(),
            final(self).video_enabled() == old(self).video_enabled(),
            final(self).new_audio_device_module() == old(self).new_audio_device_module(),
    {
        self.incoming_video_sink.on_video_frame(track_id, frame);
    }

    /// Whether the outgoing audio track is on.
    pub fn outgoing_audio_enabled(&self) -> (r: bool)
        ensures
            r == self.audio_enabled(),
    {
        self.outgoing_audio_enabled
    }

    /// Whether the outgoing video track is on.
    pub fn outgoing_video_enabled(&self) -> (r: bool)
        ensures
            r == self.video_enabled(),
    {
        self.outgoing_video_enabled
    }

    /// The engine is to stamp outgoing signaling with this identity, as
    /// UTF-8 bytes.
    pub fn set_self_uuid(&self, uuid: &JString) -> (r: EngineCommand)
        ensures
            match r {
                EngineCommand::SetSelfUuid(bytes) => bytes@ == encode_utf8(uuid@),
                _ => false,
            },
    {
        let txt = uuid.to_string();
        EngineCommand::SetSelfUuid(copy_bytes(txt.as_str().as_bytes()))
    }

    /// An offer arrived from `peer_id`. The media type follows
    /// `CallMediaType::from_offer_type`, so unknown numbers mean audio; this
    /// client is never the primary device.
    pub fn received_offer(
        &self,
        peer_id: &JString,
        call_id: u64,
        offer_type: i32,
        sender_device_id: DeviceId,
        receiver_device_id: DeviceId,
        sender_key: &JByteArray,
        receiver_key: &JByteArray,
        opaque: &JByteArray,
        age_sec: u64,
    ) -> (r: EngineCommand)
        ensures
            match r {
                EngineCommand::ReceivedOffer { peer_id: p, call_id: c, offer } => {
                    &&& p@ == peer_id@
                    &&& c == call_id
                    &&& offer.offer.call_media_type == CallMediaType::spec_from_offer_type(
                        offer_type,
                    )
                    &&& offer.offer.opaque@ == opaque@
                    &&& offer.age_secs == age_sec
                    &&& offer.sender_device_id == sender_device_id
                    &&& offer.receiver_device_id == receiver_device_id
                    &&& !offer.receiver_device_is_primary
                    &&& offer.sender_identity_key@ == sender_key@
                    &&& offer.receiver_identity_key@ == receiver_key@
                },
                _ => false,
            },
    {
        let call_media_type = CallMediaType::from_offer_type(offer_type);
        let offer = Offer { call_media_type, opaque: opaque.to_vec_u8() };
        EngineCommand::ReceivedOffer {
            peer_id: peer_id.to_string(),
            call_id,
            offer: ReceivedOffer {
                offer,
                age_secs: age_sec,
                sender_device_id,
                receiver_device_id,
                receiver_device_is_primary: false,
                sender_identity_key: sender_key.to_vec_u8(),
                receiver_identity_key: receiver_key.to_vec_u8(),
            },
        }
    }

    /// An answer arrived for `call_id`.
    pub fn received_answer(
        &self,
        call_id: u64,
        sender_device_id: DeviceId,
        sender_key: &JByteArray,
        receiver_key: &JByteArray,
        opaque: &JByteArray,
    ) -> (r: EngineCommand)
        ensures
            match r {
                EngineCommand::ReceivedAnswer { call_id: c, answer } => {
                    &&& c == call_id
                    &&& answer.answer.opaque@ == opaque@
                    &&& answer.sender_device_id == sender_device_id
                    &&& answer.sender_identity_key@ == sender_key@
                    &&& answer.receiver_identity_key@ == receiver_key@
                },
                _ => false,
            },
    {
        EngineCommand::ReceivedAnswer {
            call_id,
            answer: ReceivedAnswer {
                answer: Answer { opaque: opaque.to_vec_u8() },
                sender_device_id,
                sender_identity_key: sender_key.to_vec_u8(),
                receiver_identity_key: receiver_key.to_vec_u8(),
            },
        }
    }

    /// Start a call to `peer_id` under the id the host chose, read as the
    /// unsigned number of the same bits.
    pub fn create_outgoing_call(
        &self,
        peer_id: &JString,
        video_enabled: bool,
        local_device_id: DeviceId,
        call_id: i64,
    ) -> (r: EngineCommand)
        ensures
            match r {
                EngineCommand::CreateOutgoingCall {
                    peer_id: p,
                    call_id: c,
                    media_type,
                    local_device_id: d,
                } => {
                    &&& p@ == peer_id@
                    &&& c == call_id as u64
                    &&& media_type == (if video_enabled {
                        CallMediaType::Video
                    } else {
                        CallMediaType::Audio
                    })
                    &&& d == local_device_id
                },
                _ => false,
            },
    {
        let media_type = if video_enabled {
            CallMediaType::Video
        } else {
            CallMediaType::Audio
        };
        EngineCommand::CreateOutgoingCall {
            peer_id: peer_id.to_string(),
            call_id: call_id as u64,
            media_type,
            local_device_id,
        }
    }

    /// Proceed with `call_id` through the ICE server the host described; its
    /// URLs are the entries of `icepack`, each of which must be UTF-8. A
    /// positive audio-level interval turns level reports on.
    pub fn proceed_call(
        &self,
        call_id: u64,
        bandwidth_mode: i32,
        audio_levels_interval_millis: i32,
        ice_user: &JString,
        ice_pwd: &JString,
        icepack: &JByteArray2D,
    ) -> (r: Result<EngineCommand, EndpointError>)
        requires
            icepack.wf(),
        ensures
            ({
                let entries = decode_slots(icepack.len as nat, icepack.slots());
                match r {
                    Ok(EngineCommand::Proceed { call_id: c, context, bandwidth_mode: m, audio_levels_interval_millis: iv }) => {
                        &&& c == call_id
                        &&& !context.hide_ip
                        &&& context.ice_server.username@ == ice_user@
                        &&& context.ice_server.password@ == ice_pwd@
                        &&& urls_decoded(context.ice_server.urls@, entries)
                        &&& m == BandwidthMode::spec_from_i32(bandwidth_mode)
                        &&& iv == (if audio_levels_interval_millis <= 0 {
                            None
                        } else {
                            Some(audio_levels_interval_millis as u64)
                        })
                    },
                    Ok(_) => false,
                    Err(EndpointError::InvalidUtf8(i)) => {
                        &&& i < entries.len()
                        &&& !valid_utf8(entries[i as int])
                        &&& forall|j: int| 0 <= j < i ==> valid_utf8(#[trigger] entries[j])
                    },
                    Err(_) => false,
                }
            }),
    {
        let entries = icepack.to_payloads();
        let ghost es = byte_seqs(entries@);
        let mut urls: Vec<String> = Vec::with_capacity(entries.len());
        let mut i: usize = 0;
        while i < entries.len()
            invariant
                es == byte_seqs(entries@),
                es == decode_slots(icepack.len as nat, icepack.slots()),
                i <= entries@.len(),
                urls_decoded(urls@, es.take(i as int)),
            decreases entries@.len() - i,
        {
            let bytes = copy_bytes(entries[i].as_slice());
            assert(bytes@ == es[i as int]);
            match string_from_utf8(bytes) {
                Some(url) => {
                    proof {
                        lemma_take_next(es, i as int);
                    }
                    urls.push(url);
                },
                None => {
                    assert forall|j: int| 0 <= j < i implies valid_utf8(#[trigger] es[j]) by {
                        assert(es.take(i as int)[j] == es[j]);
                    }
                    return Err(EndpointError::InvalidUtf8(i));
                },
            }
            i += 1;
        }
        assert(es.take(entries@.len() as int) =~= es);
        let ice_server = IceServer {
            username: ice_user.to_string(),
            password: ice_pwd.to_string(),
            urls,
        };
        let interval = if audio_levels_interval_millis <= 0 {
            None
        } else {
            Some(audio_levels_interval_millis as u64)
        };
        Ok(
            EngineCommand::Proceed {
                call_id,
                context: CallContext { hide_ip: false, ice_server },
                bandwidth_mode: BandwidthMode::from_i32(bandwidth_mode),
                audio_levels_interval_millis: interval,
            },
        )
    }

    /// ICE candidates arrived for `call_id`: the entries of `icepack`, in
    /// order.
    pub fn received_ice(&self, call_id: u64, sender_device_id: DeviceId, icepack: &JByteArray2D) -> (r:
        EngineCommand)
        requires
            icepack.wf(),
        ensures
            match r {
                EngineCommand::ReceivedIce { call_id: c, ice } => {
                    &&& c == call_id
                    &&& ice.sender_device_id == sender_device_id
                    &&& candidate_payloads(ice.ice.candidates@) == decode_slots(
                        icepack.len as nat,
                        icepack.slots(),
                    )
                },
                _ => false,
            },
    {
        let candidates = decode_candidates(icepack);
        EngineCommand::ReceivedIce {
            call_id,
            ice: ReceivedIce { ice: Ice { candidates }, sender_device_id },
        }
    }

    pub fn accept_call(&self, call_id: u64) -> (r: EngineCommand)
        ensures
            r == EngineCommand::AcceptCall(call_id),
    {
        EngineCommand::AcceptCall(call_id)
    }

    /// Drop the incoming call without answering it.
    pub fn ignore_call(&self, call_id: u64) -> (r: EngineCommand)
        ensures
            r == EngineCommand::DropCall(call_id),
    {
        EngineCommand::DropCall(call_id)
    }

    pub fn hangup_call(&self, call_id: u64) -> (r: EngineCommand)
        ensures
            r == EngineCommand::Hangup(call_id),
    {
        EngineCommand::Hangup(call_id)
    }

    /// The host sent the last signaling message of `call_id`.
    pub fn signal_message_sent(&self, call_id: CallId) -> (r: EngineCommand)
        ensures
            r == EngineCommand::MessageSent(call_id),
    {
        EngineCommand::MessageSent(call_id)
    }

    pub fn set_audio_input(&self, index: u16) -> (r: EngineCommand)
        ensures
            r == EngineCommand::SetAudioRecordingDevice(index),
    {
        EngineCommand::SetAudioRecordingDevice(index)
    }

    pub fn set_audio_output(&self, index: u16) -> (r: EngineCommand)
        ensures
            r == EngineCommand::SetAudioPlayoutDevice(index),
    {
        EngineCommand::SetAudioPlayoutDevice(index)
    }

    pub fn set_outgoing_audio_enabled(&mut self, enable: bool)
        ensures
            final(self).audio_enabled() == enable,
            final(self).video_enabled() == old(self).video_enabled(),
            final(self).frames() == old(self).frames(),
            final(self).reporter() == old(self).reporter(),
            final(self).new_audio_device_module() == old(self).new_audio_device_module(),
    {
        self.outgoing_audio_enabled = enable;
    }

    /// Turns the outgoing video track on or off; the active connection is to
    /// tell the peer.
    pub fn set_outgoing_video_enabled(&mut self, enable: bool) -> (r: EngineCommand)
        ensures
            r == EngineCommand::UpdateSenderStatus(SenderStatus { video_enabled: Some(enable) }),
            final(self).video_enabled() == enable,
            final(self).audio_enabled() == old(self).audio_enabled(),
            final(self).frames() == old(self).frames(),
            final(self).reporter() == old(self).reporter(),
            final(self).new_audio_device_module() == old(self).new_audio_device_module(),
    {
        self.outgoing_video_enabled = enable;
        EngineCommand::UpdateSenderStatus(SenderStatus { video_enabled: Some(enable) })
    }

    /// A frame for the outgoing video source: a copy of the first
    /// width × height × 4 bytes of `raw`. Refused when the pixel format is
    /// unknown or `raw` is shorter than that.
    pub fn send_video_frame(&self, width: u32, height: u32, pixel_format: i32, raw: &[u8]) -> (r:
        Result<EngineCommand, EndpointError>)
        ensures
            match r {
                Ok(EngineCommand::PushVideoFrame(frame)) => {
                    &&& VideoPixelFormat::spec_from_i32(pixel_format) == Some(frame.pixel_format)
                    &&& flat_frame_len(width, height) <= raw@.len()
                    &&& frame.width == width
                    &&& frame.height == height
                    &&& frame.data@ == raw@.take(flat_frame_len(width, height))
                },
                Ok(_) => false,
                Err(e) => if VideoPixelFormat::spec_from_i32(pixel_format) is None {
                    e == EndpointError::UnknownPixelFormat(pixel_format)
                } else {
                    e == EndpointError::BufferTooSmall && flat_frame_len(width, height)
                        > raw@.len()
                },
            },
    {
        let pixel_format_value = pixel_format;
        let pixel_format = match VideoPixelFormat::from_i32(pixel_format) {
            Some(f) => f,
            None => {
                return Err(EndpointError::UnknownPixelFormat(pixel_format_value));
            },
        };
        proof {
            lemma_pixel_count_fits(width, height);
        }
        let pixels: u64 = (width as u64) * (height as u64);
        if pixels > (raw.len() / BYTES_PER_PIXEL) as u64 {
            return Err(EndpointError::BufferTooSmall);
        }
        let size: usize = (pixels as usize) * BYTES_PER_PIXEL;
        let data = copy_prefix(raw, size);
        Ok(EngineCommand::PushVideoFrame(VideoFrame { width, height, pixel_format, data }))
    }

    /// The host pulls the latest frame of `INCOMING_TRACK_ID`, which leaves
    /// the cache whether or not it can be delivered; `None` when the track
    /// holds no frame.
    pub fn retrieve_remote_video_frame(&mut self) -> (r: Result<Option<FrameDelivery>, EndpointError>)
        ensures
            final(self).frames() == old(self).frames().remove(INCOMING_TRACK_ID),
            final(self).audio_enabled() == old(self).audio_enabled(),
            final(self).video_enabled() == old(self).video_enabled(),
            final(self).reporter() == old(self).reporter(),
            final(self).new_audio_device_module() == old(self).new_audio_device_module(),
            ({
                let held = old(self).frames();
                match r {
                    Ok(None) => !held.contains_key(INCOMING_TRACK_ID),
                    Ok(Some(d)) => {
                        let f = held[INCOMING_TRACK_ID];
                        &&& held.contains_key(INCOMING_TRACK_ID)
                        &&& frame_error(f) is None
                        &&& d.width == f.width
                        &&& d.height == f.height
                        &&& d.pixels@ == padded_pixels(f)
                    },
                    Err(e) => held.contains_key(INCOMING_TRACK_ID) && frame_error(
                        held[INCOMING_TRACK_ID],
                    ) == Some(e),
                }
            }),
    {
        match self.incoming_video_sink.pop(INCOMING_TRACK_ID) {
            None => Ok(None),
            Some(frame) => match deliver_frame(&frame) {
                Ok(d) => Ok(Some(d)),
                Err(e) => Err(e),
            },
        }
    }

    /// A session with both outgoing tracks off, no frames held and no events
    /// queued.
    pub fn new(use_new_audio_device_module: bool) -> (r: CallEndpoint)
        ensures
            !r.audio_enabled(),
            !r.video_enabled(),
            r.new_audio_device_module() == use_new_audio_device_module,
            r.frames() == Map::<u32, VideoFrame>::empty(),
            r.reporter().pending() == Seq::<HostCall>::empty(),
            r.reporter().flag() == STATUS_FLAG,
            !r.reporter().was_reported(),
    {
        CallEndpoint {
            use_new_audio_device_module,
            outgoing_audio_enabled: false,
            outgoing_video_enabled: false,
            incoming_video_sink: LastFramesVideoSink::new(),
            event_reporter: EventReporter::new(STATUS_FLAG),
        }
    }
}

} // verus!
