use vstd::prelude::*;

use std::collections::HashMap;

verus! {

#[derive(Clone, Copy, Debug, PartialEq, Eq, Structural)]
pub enum VideoPixelFormat {
    I420,
    Nv12,
    Rgba,
}

impl VideoPixelFormat {
    /// The pixel format the host means by `value`, if it names one.
    pub open spec fn spec_from_i32(value: i32) -> Option<VideoPixelFormat> {
        if value == 0 {
            Some(VideoPixelFormat::I420)
        } else if value == 1 {
            Some(VideoPixelFormat::Nv12)
        } else if value == 2 {
            Some(VideoPixelFormat::Rgba)
        } else {
            None
        }
    }

    pub fn from_i32(value: i32) -> (r: Option<VideoPixelFormat>)
        ensures
            r == VideoPixelFormat::spec_from_i32(value),
    {
        match value {
            0 => Some(VideoPixelFormat::I420),
            1 => Some(VideoPixelFormat::Nv12),
            2 => Some(VideoPixelFormat::Rgba),
            _ => None,
        }
    }
}

/// A decoded video frame that owns its pixel buffer.
#[derive(Clone, Debug, PartialEq, Eq)]
pub struct VideoFrame {
    pub width: u32,
    pub height: u32,
    pub pixel_format: VideoPixelFormat,
    pub data: Vec<u8>,
}

/// Holds the most recent frame of each track until it is taken: a new frame
/// replaces the one before it, unread or not.
pub struct LastFramesVideoSink {
    last_frame_by_track_id: HashMap<u32, VideoFrame>,
}

impl View for LastFramesVideoSink {
    type V = Map<u32, VideoFrame>;

    closed spec fn view(&self) -> Map<u32, VideoFrame> {
        self.last_frame_by_track_id@
    }
}

impl LastFramesVideoSink {
    pub fn new() -> (r: LastFramesVideoSink)
        ensures
            r@ == Map::<u32, VideoFrame>::empty(),
    {
        LastFramesVideoSink { last_frame_by_track_id: HashMap::new() }
    }

    /// Keeps `frame` as the latest of `track_id`, dropping any earlier one.
    pub fn on_video_frame(&mut self, track_id: u32, frame: VideoFrame)
        ensures
            final(self)@ == old(self)@.insert(track_id, frame),
    {
        self.last_frame_by_track_id.insert(track_id, frame);
    }

    /// Takes the latest frame of `track_id`, if there is one.
    pub fn pop(&mut self, track_id: u32) -> (r: Option<VideoFrame>)
        ensures
            r == (if old(self)@.contains_key(track_id) {
                Some(old(self)@[track_id])
            } else {
                None
            }),
            final(self)@ == old(self)@.remove(track_id),
    {
        self.last_frame_by_track_id.remove(&track_id)
    }

    /// Drops every held frame.
    pub fn clear(&mut self)
        ensures
            final(self)@ == Map::<u32, VideoFrame>::empty(),
    {
        self.last_frame_by_track_id.clear();
    }
}

/// Of two frames put for one track, taking the track's frame yields the
/// second; the first can no longer be observed, and the track is then empty.
pub proof fn lemma_latest_frame_wins(
    frames: Map<u32, VideoFrame>,
    track_id: u32,
    first: VideoFrame,
    second: VideoFrame,
)
    ensures
        ({
            let held = frames.insert(track_id, first).insert(track_id, second);
            &&& held.contains_key(track_id)
            &&& held[track_id] == second
            &&& !held.remove(track_id).contains_key(track_id)
            &&& held.remove(track_id) == frames.remove(track_id)
        }),
{
    let held = frames.insert(track_id, first).insert(track_id, second);
    assert(held.remove(track_id) =~= frames.remove(track_id));
}

/// Taking a frame of a track that holds none yields no frame and changes
/// nothing.
pub proof fn lemma_pop_absent_track(frames: Map<u32, VideoFrame>, track_id: u32)
    requires
        !frames.contains_key(track_id),
    ensures
        frames.remove(track_id) == frames,
{
    assert(frames.remove(track_id) =~= frames);
}

} // verus!
