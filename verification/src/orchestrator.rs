use vstd::prelude::*;
use crate::player::{Signal, WorkerAction, WorkerEvent, WorkerState};
use crate::player::{count_converted, count_frames, count_info, run_from, valid_trace_from};
use crate::player::{lemma_failed_open_emits_nothing, lemma_opened_pass_emissions};
use crate::video::Message;

verus! {

/// What the orchestrator tells the consumer for one receive on the worker's
/// channel: frames and stream info are relayed as they are, and a closed
/// channel — the worker exited, normally or not — becomes the end-of-pass
/// notification.
pub open spec fn spec_relay(received: Option<Signal>) -> Message {
    match received {
        Some(Signal::DecodedFrame(f)) => Message::NewFrame(f),
        Some(Signal::TotalFrames(n)) => Message::FrameCount(n),
        None => Message::VideoFinished,
    }
}

/// Turn one receive on the worker channel into the consumer's notification.
/// The end-of-pass notification arises exactly when the channel has closed.
pub fn relay_event(received: Option<Signal>) -> (r: Message)
    ensures
        r == spec_relay(received),
        r is VideoFinished <==> received is None,
{
    match received {
        Some(Signal::DecodedFrame(f)) => Message::NewFrame(f),
        Some(Signal::TotalFrames(n)) => Message::FrameCount(n),
        None => Message::VideoFinished,
    }
}

/// The signals of one pass, relayed in order.
pub open spec fn relayed(signals: Seq<Signal>) -> Seq<Message>
    decreases signals.len(),
{
    if signals.len() == 0 {
        Seq::empty()
    } else {
        seq![spec_relay(Some(signals[0]))] + relayed(signals.drop_first())
    }
}

/// Everything the consumer hears of one pass: the worker's signals in order,
/// then the end-of-pass notification once the channel closes.
pub open spec fn pass_messages(signals: Seq<Signal>) -> Seq<Message> {
    relayed(signals) + seq![Message::VideoFinished]
}

/// How many end-of-pass notifications a message sequence contains.
pub open spec fn count_finished(msgs: Seq<Message>) -> int
    decreases msgs.len(),
{
    if msgs.len() == 0 {
        0
    } else {
        (if msgs[0] is VideoFinished {
            1int
        } else {
            0int
        }) + count_finished(msgs.drop_first())
    }
}

proof fn lemma_relayed_no_finish(signals: Seq<Signal>)
    ensures
        relayed(signals).len() == signals.len(),
        count_finished(relayed(signals)) == 0,
    decreases signals.len(),
{
    if signals.len() > 0 {
        let head = spec_relay(Some(signals[0]));
        let rest = relayed(signals.drop_first());
        lemma_relayed_no_finish(signals.drop_first());
        assert(!(head is VideoFinished));
        assert((seq![head] + rest)[0] == head);
        assert((seq![head] + rest).drop_first() =~= rest);
    }
}

proof fn lemma_count_finished_concat(a: Seq<Message>, b: Seq<Message>)
    ensures
        count_finished(a + b) == count_finished(a) + count_finished(b),
    decreases a.len(),
{
    if a.len() == 0 {
        assert(a + b =~= b);
    } else {
        assert((a + b)[0] == a[0]);
        assert((a + b).drop_first() =~= a.drop_first() + b);
        lemma_count_finished_concat(a.drop_first(), b);
    }
}

/// Law: each pass ends with exactly one end-of-pass notification, after every
/// relayed signal — whether the worker produced many signals or none at all.
pub proof fn lemma_pass_finishes_once(signals: Seq<Signal>)
    ensures
        pass_messages(signals).len() == signals.len() + 1,
        count_finished(pass_messages(signals)) == 1,
        pass_messages(signals)[signals.len() as int] == Message::VideoFinished,
{
    let fin = seq![Message::VideoFinished];
    lemma_relayed_no_finish(signals);
    lemma_count_finished_concat(relayed(signals), fin);
    assert(fin.drop_first() =~= Seq::<Message>::empty());
    assert(count_finished(Seq::<Message>::empty()) == 0);
    assert(count_finished(fin) == 1);
}

/// The signals a sequence of worker actions sends over the channel, in order.
pub open spec fn signals_of(acts: Seq<WorkerAction>) -> Seq<Signal>
    decreases acts.len(),
{
    if acts.len() == 0 {
        Seq::empty()
    } else {
        let rest = signals_of(acts.drop_first());
        match acts[0] {
            WorkerAction::EmitStreamInfo { total_frames } => seq![Signal::TotalFrames(
                total_frames,
            )] + rest,
            WorkerAction::EmitFrame { frame, .. } => seq![Signal::DecodedFrame(frame)] + rest,
            _ => rest,
        }
    }
}

/// How many frame signals a sequence carries.
pub open spec fn count_decoded(signals: Seq<Signal>) -> int
    decreases signals.len(),
{
    if signals.len() == 0 {
        0
    } else {
        (if signals[0] is DecodedFrame {
            1int
        } else {
            0int
        }) + count_decoded(signals.drop_first())
    }
}

/// How many frame-count signals a sequence carries.
pub open spec fn count_totals(signals: Seq<Signal>) -> int
    decreases signals.len(),
{
    if signals.len() == 0 {
        0
    } else {
        (if signals[0] is TotalFrames {
            1int
        } else {
            0int
        }) + count_totals(signals.drop_first())
    }
}

/// How many new-frame notifications a message sequence contains.
pub open spec fn count_new_frames(msgs: Seq<Message>) -> int
    decreases msgs.len(),
{
    if msgs.len() == 0 {
        0
    } else {
        (if msgs[0] is NewFrame {
            1int
        } else {
            0int
        }) + count_new_frames(msgs.drop_first())
    }
}

/// How many frame-count notifications a message sequence contains.
pub open spec fn count_frame_counts(msgs: Seq<Message>) -> int
    decreases msgs.len(),
{
    if msgs.len() == 0 {
        0
    } else {
        (if msgs[0] is FrameCount {
            1int
        } else {
            0int
        }) + count_frame_counts(msgs.drop_first())
    }
}

proof fn lemma_signal_counts_cons(x: Seq<Signal>, rest: Seq<Signal>)
    requires
        x.len() == 1,
    ensures
        count_decoded(x + rest) == (if x[0] is DecodedFrame {
            1int
        } else {
            0int
        }) + count_decoded(rest),
        count_totals(x + rest) == (if x[0] is TotalFrames {
            1int
        } else {
            0int
        }) + count_totals(rest),
{
    let s = x + rest;
    assert(s[0] == x[0]);
    assert(s.drop_first() =~= rest);
}

proof fn lemma_signals_of_counts(acts: Seq<WorkerAction>)
    ensures
        count_decoded(signals_of(acts)) == count_frames(acts),
        count_totals(signals_of(acts)) == count_info(acts),
    decreases acts.len(),
{
    if acts.len() > 0 {
        lemma_signals_of_counts(acts.drop_first());
        let rest = signals_of(acts.drop_first());
        match acts[0] {
            WorkerAction::EmitStreamInfo { total_frames } => {
                lemma_signal_counts_cons(seq![Signal::TotalFrames(total_frames)], rest);
            },
            WorkerAction::EmitFrame { frame, .. } => {
                lemma_signal_counts_cons(seq![Signal::DecodedFrame(frame)], rest);
            },
            _ => {},
        }
    }
}

proof fn lemma_message_counts_cons(x: Seq<Message>, rest: Seq<Message>)
    requires
        x.len() == 1,
    ensures
        count_new_frames(x + rest) == (if x[0] is NewFrame {
            1int
        } else {
            0int
        }) + count_new_frames(rest),
        count_frame_counts(x + rest) == (if x[0] is FrameCount {
            1int
        } else {
            0int
        }) + count_frame_counts(rest),
{
    let s = x + rest;
    assert(s[0] == x[0]);
    assert(s.drop_first() =~= rest);
}

proof fn lemma_relayed_counts(signals: Seq<Signal>)
    ensures
        count_new_frames(relayed(signals)) == count_decoded(signals),
        count_frame_counts(relayed(signals)) == count_totals(signals),
    decreases signals.len(),
{
    if signals.len() > 0 {
        lemma_relayed_counts(signals.drop_first());
        lemma_message_counts_cons(
            seq![spec_relay(Some(signals[0]))],
            relayed(signals.drop_first()),
        );
    }
}

proof fn lemma_finish_adds_no_content(msgs: Seq<Message>)
    ensures
        count_new_frames(msgs + seq![Message::VideoFinished]) == count_new_frames(msgs),
        count_frame_counts(msgs + seq![Message::VideoFinished]) == count_frame_counts(msgs),
    decreases msgs.len(),
{
    let fin = seq![Message::VideoFinished];
    if msgs.len() == 0 {
        assert(msgs + fin =~= fin);
        assert(fin.drop_first() =~= Seq::<Message>::empty());
        assert(count_new_frames(Seq::<Message>::empty()) == 0);
        assert(count_frame_counts(Seq::<Message>::empty()) == 0);
        assert(count_new_frames(fin) == 0);
        assert(count_frame_counts(fin) == 0);
    } else {
        lemma_finish_adds_no_content(msgs.drop_first());
        assert((msgs + fin)[0] == msgs[0]);
        assert((msgs + fin).drop_first() =~= msgs.drop_first() + fin);
    }
}

/// Law: over one pass whose container opened, the consumer hears exactly one
/// frame-count notification, exactly one new-frame notification per converted
/// frame, and exactly one end-of-pass notification, which comes last.
pub proof fn lemma_pass_consumer_messages(events: Seq<WorkerEvent>)
    requires
        valid_trace_from(WorkerState::Init, events),
        events.len() >= 1,
        events[0] is Opened,
    ensures
        ({
            let msgs = pass_messages(signals_of(run_from(WorkerState::Init, events)));
            count_frame_counts(msgs) == 1 && count_new_frames(msgs) == count_converted(events)
                && count_finished(msgs) == 1 && msgs.last() == Message::VideoFinished
        }),
{
    let acts = run_from(WorkerState::Init, events);
    let signals = signals_of(acts);
    lemma_opened_pass_emissions(events);
    lemma_signals_of_counts(acts);
    lemma_relayed_counts(signals);
    lemma_finish_adds_no_content(relayed(signals));
    lemma_pass_finishes_once(signals);
}

/// Law: a pass whose container fails to open degrades to the end-of-pass
/// notification alone: the consumer hears nothing else of it.
pub proof fn lemma_failed_pass_consumer_messages(events: Seq<WorkerEvent>)
    requires
        valid_trace_from(WorkerState::Init, events),
        events.len() >= 1,
        events[0] is OpenFailed,
    ensures
        pass_messages(signals_of(run_from(WorkerState::Init, events))) =~= seq![
            Message::VideoFinished,
        ],
{
    lemma_failed_open_emits_nothing(events);
    let acts = run_from(WorkerState::Init, events);
    assert(acts =~= seq![WorkerAction::Exit]);
    assert(acts.drop_first() =~= Seq::<WorkerAction>::empty());
    assert(signals_of(Seq::<WorkerAction>::empty()) =~= Seq::<Signal>::empty());
    assert(signals_of(acts) =~= Seq::<Signal>::empty());
    assert(relayed(Seq::<Signal>::empty()) =~= Seq::<Message>::empty());
    assert(Seq::<Message>::empty() + seq![Message::VideoFinished] =~= seq![
        Message::VideoFinished,
    ]);
    assert(pass_messages(Seq::<Signal>::empty()) =~= seq![Message::VideoFinished]);
}

} // verus!
