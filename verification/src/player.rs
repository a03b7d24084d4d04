use vstd::prelude::*;

verus! {

/// One decoded video frame, converted to tightly packed 8-bit RGBA at the
/// source resolution. The buffer is produced once, handed over the channel,
/// and then owned by the consumer.
#[derive(Debug, Clone, PartialEq)]
pub struct Frame {
    pub data: Vec<u8>,
    pub width: u32,
    pub height: u32,
}

impl Frame {
    /// The pixel buffer holds exactly four bytes per pixel.
    pub open spec fn wf(self) -> bool {
        self.data@.len() == self.width * self.height * 4
    }

    pub fn new(data: Vec<u8>, width: u32, height: u32) -> (r: Frame)
        requires
            data@.len() == width * height * 4,
        ensures
            r == (Frame { data, width, height }),
            r.wf(),
    {
        Frame { data, width, height }
    }
}

/// The wire format of the worker-to-orchestrator channel: either a converted
/// frame or the stream's reported frame count. The worker never sends a
/// terminal signal of its own; the orchestrator learns that a pass is over
/// when the channel closes.
#[derive(Debug, Clone, PartialEq)]
pub enum Signal {
    DecodedFrame(Frame),
    TotalFrames(i64),
}

/// What the worker learns when the container opens: the index of the selected
/// video stream, the frame count the container reports for it (which may be
/// zero or negative when the format does not know), and its average frame
/// rate reduced to a scalar.
#[derive(Debug, Clone, Copy, PartialEq, Eq, Structural)]
pub struct StreamParams {
    pub stream_index: u64,
    pub total_frames: i64,
    pub fps: u32,
}

/// The control state of one playback pass.
#[derive(Debug, Clone, Copy, PartialEq, Eq, Structural)]
pub enum WorkerState {
    /// The container has not been opened yet.
    Init,
    /// Stream info has been emitted; waiting for the next demuxed packet.
    Decoding { stream_index: u64, fps: u32 },
    /// A packet of the selected stream was fed; polling the decoder.
    Draining { stream_index: u64, fps: u32 },
    /// Every packet has been consumed; the pass ended normally.
    Drained,
    /// An open, decode or conversion failure ended the pass early.
    Failed,
}

/// What the surrounding pass loop reports back to the state machine.
#[derive(Debug, Clone, PartialEq)]
pub enum WorkerEvent {
    /// The container opened, a video stream was selected, and a decoder was
    /// built from its codec parameters.
    Opened(StreamParams),
    /// The container could not be opened, exposed no video stream, or its
    /// codec parameters did not yield a decoder.
    OpenFailed,
    /// The demuxer produced the next packet, tagged with its stream index.
    PacketRead { stream_index: u64 },
    /// The demuxer is exhausted.
    PacketsExhausted,
    /// The decoder yielded a frame and it was converted to RGBA.
    FrameConverted(Frame),
    /// The decoder holds no further frame until another packet is fed.
    DecoderEmpty,
    /// The RGBA conversion failed.
    ConversionFailed,
}

/// What the pass loop must do next, as decided by the state machine.
#[derive(Debug, Clone, PartialEq)]
pub enum WorkerAction {
    /// Send the stream's reported frame count over the channel, then pull the
    /// next packet from the demuxer.
    EmitStreamInfo { total_frames: i64 },
    /// Feed the just-read packet to the decoder, then poll it for a frame.
    FeedPacket,
    /// Discard the just-read packet (it belongs to another stream) or stop
    /// polling an empty decoder, and pull the next packet.
    NextPacket,
    /// Send the converted frame over the channel, sleep for the pacing delay
    /// computed at the given rate, then poll the decoder again.
    EmitFrame { frame: Frame, fps: u32 },
    /// The pass is over; end the worker so the channel closes.
    Exit,
}

/// The worker's transition function. An event that its state cannot produce
/// (a protocol violation by the caller) ends the pass as a failure; the two
/// terminal states absorb every further event.
pub open spec fn spec_worker_step(s: WorkerState, e: WorkerEvent) -> (WorkerState, WorkerAction) {
    match s {
        WorkerState::Init => match e {
            WorkerEvent::Opened(p) => (
                WorkerState::Decoding { stream_index: p.stream_index, fps: p.fps },
                WorkerAction::EmitStreamInfo { total_frames: p.total_frames },
            ),
            _ => (WorkerState::Failed, WorkerAction::Exit),
        },
        WorkerState::Decoding { stream_index, fps } => match e {
            WorkerEvent::PacketRead { stream_index: idx } => {
                if idx == stream_index {
                    (WorkerState::Draining { stream_index, fps }, WorkerAction::FeedPacket)
                } else {
                    (WorkerState::Decoding { stream_index, fps }, WorkerAction::NextPacket)
                }
            },
            WorkerEvent::PacketsExhausted => (WorkerState::Drained, WorkerAction::Exit),
            _ => (WorkerState::Failed, WorkerAction::Exit),
        },
        WorkerState::Draining { stream_index, fps } => match e {
            WorkerEvent::FrameConverted(f) => (
                WorkerState::Draining { stream_index, fps },
                WorkerAction::EmitFrame { frame: f, fps },
            ),
            WorkerEvent::DecoderEmpty => (
                WorkerState::Decoding { stream_index, fps },
                WorkerAction::NextPacket,
            ),
            _ => (WorkerState::Failed, WorkerAction::Exit),
        },
        WorkerState::Drained => (WorkerState::Drained, WorkerAction::Exit),
        WorkerState::Failed => (WorkerState::Failed, WorkerAction::Exit),
    }
}

/// Advance the playback pass by one event.
pub fn worker_step(s: WorkerState, e: WorkerEvent) -> (r: (WorkerState, WorkerAction))
    ensures
        r == spec_worker_step(s, e),
{
    match s {
        WorkerState::Init => match e {
            WorkerEvent::Opened(p) => (
                WorkerState::Decoding { stream_index: p.stream_index, fps: p.fps },
                WorkerAction::EmitStreamInfo { total_frames: p.total_frames },
            ),
            _ => (WorkerState::Failed, WorkerAction::Exit),
        },
        WorkerState::Decoding { stream_index, fps } => match e {
            WorkerEvent::PacketRead { stream_index: idx } => {
                if idx == stream_index {
                    (WorkerState::Draining { stream_index, fps }, WorkerAction::FeedPacket)
                } else {
                    (WorkerState::Decoding { stream_index, fps }, WorkerAction::NextPacket)
                }
            },
            WorkerEvent::PacketsExhausted => (WorkerState::Drained, WorkerAction::Exit),
            _ => (WorkerState::Failed, WorkerAction::Exit),
        },
        WorkerState::Draining { stream_index, fps } => match e {
            WorkerEvent::FrameConverted(f) => (
                WorkerState::Draining { stream_index, fps },
                WorkerAction::EmitFrame { frame: f, fps },
            ),
            WorkerEvent::DecoderEmpty => (
                WorkerState::Decoding { stream_index, fps },
                WorkerAction::NextPacket,
            ),
            _ => (WorkerState::Failed, WorkerAction::Exit),
        },
        WorkerState::Drained => (WorkerState::Drained, WorkerAction::Exit),
        WorkerState::Failed => (WorkerState::Failed, WorkerAction::Exit),
    }
}

/// Whether the event is one its state can actually produce: what the demuxer,
/// decoder and converter can hand the loop at that point of a pass.
pub open spec fn event_fits(s: WorkerState, e: WorkerEvent) -> bool {
    match s {
        WorkerState::Init => e is Opened || e is OpenFailed,
        WorkerState::Decoding { .. } => e is PacketRead || e is PacketsExhausted,
        WorkerState::Draining { .. } => e is FrameConverted || e is DecoderEmpty
            || e is ConversionFailed,
        WorkerState::Drained => false,
        WorkerState::Failed => false,
    }
}

/// The actions a pass performs, step by step, on a sequence of events.
pub open spec fn run_from(s: WorkerState, events: Seq<WorkerEvent>) -> Seq<WorkerAction>
    decreases events.len(),
{
    if events.len() == 0 {
        Seq::empty()
    } else {
        seq![spec_worker_step(s, events[0]).1] + run_from(
            spec_worker_step(s, events[0]).0,
            events.drop_first(),
        )
    }
}

/// The state a pass reaches after a sequence of events.
pub open spec fn state_after(s: WorkerState, events: Seq<WorkerEvent>) -> WorkerState
    decreases events.len(),
{
    if events.len() == 0 {
        s
    } else {
        state_after(spec_worker_step(s, events[0]).0, events.drop_first())
    }
}

/// Every event of the sequence fits the state the pass has reached. In
/// particular no event follows a terminal state, so a valid trace is one
/// whole pass at most.
pub open spec fn valid_trace_from(s: WorkerState, events: Seq<WorkerEvent>) -> bool
    decreases events.len(),
{
    events.len() == 0 || (event_fits(s, events[0]) && valid_trace_from(
        spec_worker_step(s, events[0]).0,
        events.drop_first(),
    ))
}

/// How many stream-info emissions a sequence of actions contains.
pub open spec fn count_info(acts: Seq<WorkerAction>) -> int
    decreases acts.len(),
{
    if acts.len() == 0 {
        0
    } else {
        (if acts[0] is EmitStreamInfo {
            1int
        } else {
            0int
        }) + count_info(acts.drop_first())
    }
}

/// How many frame emissions a sequence of actions contains.
pub open spec fn count_frames(acts: Seq<WorkerAction>) -> int
    decreases acts.len(),
{
    if acts.len() == 0 {
        0
    } else {
        (if acts[0] is EmitFrame {
            1int
        } else {
            0int
        }) + count_frames(acts.drop_first())
    }
}

/// How many successfully converted frames a sequence of events contains.
pub open spec fn count_converted(events: Seq<WorkerEvent>) -> int
    decreases events.len(),
{
    if events.len() == 0 {
        0
    } else {
        (if events[0] is FrameConverted {
            1int
        } else {
            0int
        }) + count_converted(events.drop_first())
    }
}

proof fn lemma_count_cons(a: WorkerAction, rest: Seq<WorkerAction>)
    ensures
        count_info(seq![a] + rest) == (if a is EmitStreamInfo {
            1int
        } else {
            0int
        }) + count_info(rest),
        count_frames(seq![a] + rest) == (if a is EmitFrame {
            1int
        } else {
            0int
        }) + count_frames(rest),
{
    let s = seq![a] + rest;
    assert(s[0] == a);
    assert(s.drop_first() =~= rest);
}

proof fn lemma_terminal_trace_empty(s: WorkerState, events: Seq<WorkerEvent>)
    requires
        valid_trace_from(s, events),
        s is Drained || s is Failed,
    ensures
        events.len() == 0,
{
    if events.len() > 0 {
        assert(event_fits(s, events[0]));
        assert(false);
    }
}

proof fn lemma_streaming_emissions(s: WorkerState, events: Seq<WorkerEvent>)
    requires
        valid_trace_from(s, events),
        s is Decoding || s is Draining,
    ensures
        count_info(run_from(s, events)) == 0,
        count_frames(run_from(s, events)) == count_converted(events),
    decreases events.len(),
{
    if events.len() > 0 {
        let e = events[0];
        let s2 = spec_worker_step(s, e).0;
        let a = spec_worker_step(s, e).1;
        let rest = events.drop_first();
        lemma_count_cons(a, run_from(s2, rest));
        assert(valid_trace_from(s2, rest));
        assert(event_fits(s, e));
        assert((a is EmitFrame) == (e is FrameConverted));
        assert(!(a is EmitStreamInfo));
        assert(count_converted(events) == (if e is FrameConverted {
            1int
        } else {
            0int
        }) + count_converted(rest));
        if s2 is Decoding || s2 is Draining {
            lemma_streaming_emissions(s2, rest);
        } else {
            lemma_terminal_trace_empty(s2, rest);
        }
    }
}

/// Law: in a pass whose container opened, the stream info is emitted exactly
/// once, as the very first emission — before any frame — and exactly one
/// frame emission occurs per converted frame, however packets interleave
/// with decoder output.
pub proof fn lemma_opened_pass_emissions(events: Seq<WorkerEvent>)
    requires
        valid_trace_from(WorkerState::Init, events),
        events.len() >= 1,
        events[0] is Opened,
    ensures
        count_info(run_from(WorkerState::Init, events)) == 1,
        count_frames(run_from(WorkerState::Init, events)) == count_converted(events),
        run_from(WorkerState::Init, events)[0] is EmitStreamInfo,
{
    let e = events[0];
    let s2 = spec_worker_step(WorkerState::Init, e).0;
    let a = spec_worker_step(WorkerState::Init, e).1;
    let rest = events.drop_first();
    assert(a is EmitStreamInfo && !(a is EmitFrame));
    assert(s2 is Decoding);
    assert(valid_trace_from(s2, rest));
    lemma_count_cons(a, run_from(s2, rest));
    if rest.len() > 0 {
        lemma_streaming_emissions(s2, rest);
    }
    assert(count_converted(events) == count_converted(rest));
}

/// Law: a pass whose container fails to open emits nothing at all: its one
/// action is the final exit, so the consumer sees neither a frame nor a
/// stream info from it.
pub proof fn lemma_failed_open_emits_nothing(events: Seq<WorkerEvent>)
    requires
        valid_trace_from(WorkerState::Init, events),
        events.len() >= 1,
        events[0] is OpenFailed,
    ensures
        events.len() == 1,
        run_from(WorkerState::Init, events) =~= seq![WorkerAction::Exit],
        count_info(run_from(WorkerState::Init, events)) == 0,
        count_frames(run_from(WorkerState::Init, events)) == 0,
{
    let rest = events.drop_first();
    assert(valid_trace_from(WorkerState::Failed, rest));
    lemma_terminal_trace_empty(WorkerState::Failed, rest);
    lemma_count_cons(WorkerAction::Exit, run_from(WorkerState::Failed, rest));
}

} // verus!
