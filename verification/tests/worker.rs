use video_playback::player::{
    Frame, StreamParams, WorkerAction, WorkerEvent, WorkerState, worker_step,
};

fn rgba_frame() -> Frame {
    Frame::new(vec![0u8; 8], 2, 1)
}

fn run(events: Vec<WorkerEvent>) -> (Vec<WorkerAction>, WorkerState) {
    let mut state = WorkerState::Init;
    let mut actions = Vec::new();
    for event in events {
        let (next, action) = worker_step(state, event);
        state = next;
        actions.push(action);
    }
    (actions, state)
}

fn count_info(actions: &[WorkerAction]) -> usize {
    actions
        .iter()
        .filter(|a| matches!(a, WorkerAction::EmitStreamInfo { .. }))
        .count()
}

fn count_frames(actions: &[WorkerAction]) -> usize {
    actions.iter().filter(|a| matches!(a, WorkerAction::EmitFrame { .. })).count()
}

#[test]
fn ten_frame_pass_emits_info_once_then_ten_frames() {
    // A 10-frame 25 fps clip, one frame drained per packet.
    let mut events = vec![WorkerEvent::Opened(StreamParams {
        stream_index: 0,
        total_frames: 10,
        fps: 25,
    })];
    for _ in 0..10 {
        events.push(WorkerEvent::PacketRead { stream_index: 0 });
        events.push(WorkerEvent::FrameConverted(rgba_frame()));
        events.push(WorkerEvent::DecoderEmpty);
    }
    events.push(WorkerEvent::PacketsExhausted);

    let (actions, state) = run(events);
    assert_eq!(state, WorkerState::Drained);
    assert_eq!(count_info(&actions), 1);
    assert_eq!(count_frames(&actions), 10);
    // The stream info goes out before any frame.
    assert_eq!(actions[0], WorkerAction::EmitStreamInfo { total_frames: 10 });
    assert_eq!(actions.last(), Some(&WorkerAction::Exit));
    // Every frame emission carries the stream's rate for the pacer.
    for a in &actions {
        if let WorkerAction::EmitFrame { fps, .. } = a {
            assert_eq!(*fps, 25);
        }
    }
}

#[test]
fn decoder_lag_is_preserved() {
    // The first packet yields nothing; the second drains two buffered frames.
    let events = vec![
        WorkerEvent::Opened(StreamParams { stream_index: 0, total_frames: 2, fps: 30 }),
        WorkerEvent::PacketRead { stream_index: 0 },
        WorkerEvent::DecoderEmpty,
        WorkerEvent::PacketRead { stream_index: 0 },
        WorkerEvent::FrameConverted(rgba_frame()),
        WorkerEvent::FrameConverted(rgba_frame()),
        WorkerEvent::DecoderEmpty,
        WorkerEvent::PacketsExhausted,
    ];
    let (actions, state) = run(events);
    assert_eq!(state, WorkerState::Drained);
    assert_eq!(count_info(&actions), 1);
    assert_eq!(count_frames(&actions), 2);
}

#[test]
fn packets_of_other_streams_are_discarded() {
    let opened = WorkerEvent::Opened(StreamParams { stream_index: 2, total_frames: 1, fps: 25 });
    let (actions, state) = run(vec![
        opened,
        WorkerEvent::PacketRead { stream_index: 0 },
        WorkerEvent::PacketRead { stream_index: 1 },
        WorkerEvent::PacketRead { stream_index: 2 },
    ]);
    assert_eq!(actions[1], WorkerAction::NextPacket);
    assert_eq!(actions[2], WorkerAction::NextPacket);
    assert_eq!(actions[3], WorkerAction::FeedPacket);
    assert_eq!(state, WorkerState::Draining { stream_index: 2, fps: 25 });
    assert_eq!(count_frames(&actions), 0);
}

#[test]
fn failed_open_emits_nothing() {
    // A missing or malformed file: the pass ends with no emission at all.
    let (actions, state) = run(vec![WorkerEvent::OpenFailed]);
    assert_eq!(state, WorkerState::Failed);
    assert_eq!(actions, vec![WorkerAction::Exit]);
    assert_eq!(count_info(&actions), 0);
    assert_eq!(count_frames(&actions), 0);
}

#[test]
fn conversion_failure_aborts_the_pass() {
    let events = vec![
        WorkerEvent::Opened(StreamParams { stream_index: 0, total_frames: 5, fps: 25 }),
        WorkerEvent::PacketRead { stream_index: 0 },
        WorkerEvent::ConversionFailed,
    ];
    let (actions, state) = run(events);
    assert_eq!(state, WorkerState::Failed);
    assert_eq!(actions.last(), Some(&WorkerAction::Exit));
    assert_eq!(count_frames(&actions), 0);
}

#[test]
fn empty_container_pass() {
    // A container that opens but holds no packets: info still goes out once.
    let events = vec![
        WorkerEvent::Opened(StreamParams { stream_index: 0, total_frames: 0, fps: 25 }),
        WorkerEvent::PacketsExhausted,
    ];
    let (actions, state) = run(events);
    assert_eq!(state, WorkerState::Drained);
    assert_eq!(count_info(&actions), 1);
    assert_eq!(count_frames(&actions), 0);
}

#[test]
fn unexpected_event_fails_the_pass() {
    let (_, state) = run(vec![WorkerEvent::PacketRead { stream_index: 0 }]);
    assert_eq!(state, WorkerState::Failed);
    let (actions, state) = run(vec![WorkerEvent::OpenFailed, WorkerEvent::DecoderEmpty]);
    assert_eq!(state, WorkerState::Failed);
    assert_eq!(actions, vec![WorkerAction::Exit, WorkerAction::Exit]);
}

#[test]
fn frame_buffer_matches_dimensions() {
    let f = rgba_frame();
    assert_eq!(f.data.len(), (f.width * f.height * 4) as usize);
}
