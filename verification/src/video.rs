use vstd::prelude::*;
use crate::player::Frame;
use crate::speed::Speed;

verus! {

/// A notification delivered to the consumer-side state: a new frame, the
/// stream's frame count, a speed-factor press, or the end of a pass.
#[derive(Debug, Clone, PartialEq)]
pub enum Message {
    NewFrame(Frame),
    FrameCount(i64),
    PlaybackSpeed(Speed),
    VideoFinished,
}

/// The consumer-side playback state. It holds the most recently delivered
/// frame, tracks progress through the current pass, and owns the two values
/// shared with the playback side: the speed multiplier and the running flag.
#[derive(Debug, Clone, PartialEq)]
pub struct Video {
    /// The frame currently on display, once one has arrived.
    pub new_frame: Option<Frame>,
    /// How many frames of the current pass have been delivered.
    pub current_frame: u64,
    /// The frame count the stream reported; zero or negative when the
    /// container does not know it.
    pub total_frames: i64,
    /// The live speed multiplier, read by the pacer once per frame.
    pub speed: Speed,
    /// Whether the orchestrator may start another pass.
    pub playing: bool,
}

/// The state update performed for each message: a frame replaces the display
/// and advances the counter; a count is recorded; a speed press compounds
/// the multiplier; the end of a pass resets progress and the multiplier.
pub open spec fn spec_update(v: Video, message: Message) -> Video {
    match message {
        Message::NewFrame(f) => Video {
            new_frame: Some(f),
            current_frame: (v.current_frame + 1) as u64,
            total_frames: v.total_frames,
            speed: v.speed,
            playing: v.playing,
        },
        Message::FrameCount(n) => Video {
            new_frame: v.new_frame,
            current_frame: v.current_frame,
            total_frames: n,
            speed: v.speed,
            playing: v.playing,
        },
        Message::PlaybackSpeed(s) => Video {
            new_frame: v.new_frame,
            current_frame: v.current_frame,
            total_frames: v.total_frames,
            speed: v.speed.spec_times(s),
            playing: v.playing,
        },
        Message::VideoFinished => Video {
            new_frame: v.new_frame,
            current_frame: 0,
            total_frames: v.total_frames,
            speed: Speed::spec_one(),
            playing: v.playing,
        },
    }
}

impl Video {
    /// The speed multiplier is a valid (positive) ratio.
    pub open spec fn wf(self) -> bool {
        self.speed.wf()
    }

    /// The initial state: nothing on display, no progress, normal speed,
    /// playback allowed.
    pub fn new() -> (r: Video)
        ensures
            r.new_frame is None,
            r.current_frame == 0,
            r.total_frames == 0,
            r.speed == Speed::spec_one(),
            r.playing,
            r.wf(),
    {
        Video {
            new_frame: None,
            current_frame: 0,
            total_frames: 0,
            speed: Speed { num: 1, den: 1 },
            playing: true,
        }
    }

    /// A new decoded frame arrived: display it and advance progress by one.
    pub fn on_frame_ready(&mut self, frame: Frame)
        requires
            old(self).current_frame < u64::MAX,
        ensures
            *final(self) == spec_update(*old(self), Message::NewFrame(frame)),
            final(self).new_frame == Some(frame),
            final(self).current_frame == old(self).current_frame + 1,
    {
        self.current_frame = self.current_frame + 1;
        self.new_frame = Some(frame);
    }

    /// The stream's reported frame count arrived; record it for progress
    /// display, reliable or not.
    pub fn on_stream_info(&mut self, total_frames: i64)
        ensures
            *final(self) == spec_update(*old(self), Message::FrameCount(total_frames)),
            final(self).total_frames == total_frames,
    {
        self.total_frames = total_frames;
    }

    /// Apply a speed factor: the live multiplier compounds multiplicatively,
    /// it is never set absolutely.
    pub fn set_speed_factor(&mut self, factor: Speed)
        requires
            old(self).wf(),
            factor.wf(),
            old(self).speed.num * factor.num <= u64::MAX,
            old(self).speed.den * factor.den <= u64::MAX,
        ensures
            *final(self) == spec_update(*old(self), Message::PlaybackSpeed(factor)),
            final(self).speed.num == old(self).speed.num * factor.num,
            final(self).speed.den == old(self).speed.den * factor.den,
            final(self).wf(),
    {
        self.speed = self.speed.times(factor);
    }

    /// A pass completed: progress returns to zero and the speed multiplier
    /// returns to exactly 1, whatever its prior value.
    pub fn on_playback_finished(&mut self)
        ensures
            *final(self) == spec_update(*old(self), Message::VideoFinished),
            final(self).current_frame == 0,
            final(self).speed == Speed::spec_one(),
            final(self).wf(),
    {
        self.current_frame = 0;
        self.speed = Speed { num: 1, den: 1 };
    }

    /// Dispatch one message to the update it calls for.
    pub fn update(&mut self, message: Message)
        requires
            message is NewFrame ==> old(self).current_frame < u64::MAX,
            message matches Message::PlaybackSpeed(s) ==> old(self).wf() && s.wf()
                && old(self).speed.num * s.num <= u64::MAX
                && old(self).speed.den * s.den <= u64::MAX,
        ensures
            *final(self) == spec_update(*old(self), message),
    {
        match message {
            Message::NewFrame(frame) => self.on_frame_ready(frame),
            Message::FrameCount(n) => self.on_stream_info(n),
            Message::PlaybackSpeed(s) => self.set_speed_factor(s),
            Message::VideoFinished => self.on_playback_finished(),
        }
    }
}

impl Default for Video {
    fn default() -> (r: Video)
        ensures
            r.new_frame is None,
            r.current_frame == 0,
            r.total_frames == 0,
            r.speed == Speed::spec_one(),
            r.playing,
            r.wf(),
    {
        Video::new()
    }
}

} // verus!
