use voxlink::capture::{
    capture_result, CaptureAction, CaptureError, CaptureEvent, CaptureLoop, MAX_RECORDING_NANOS,
};

fn drive(events: &[CaptureEvent]) -> Vec<CaptureAction> {
    let (mut state, first) = CaptureLoop::start();
    let mut actions = vec![first];
    for e in events {
        let (next, action) = state.advance(*e);
        state = next;
        actions.push(action);
    }
    actions
}

#[test]
fn drains_the_ring_before_checking_the_stop_flag() {
    let actions = drive(&[
        CaptureEvent::Clock(5),
        CaptureEvent::Batch(true),
        CaptureEvent::Processed(false),
        CaptureEvent::Batch(true),
        CaptureEvent::Processed(false),
        CaptureEvent::Batch(false),
        CaptureEvent::Running(true),
        CaptureEvent::Slept,
    ]);
    assert_eq!(
        actions,
        vec![
            CaptureAction::ReadClock,
            CaptureAction::FillBatch,
            CaptureAction::ProcessBatch,
            CaptureAction::FillBatch,
            CaptureAction::ProcessBatch,
            CaptureAction::FillBatch,
            CaptureAction::CheckRunning,
            CaptureAction::Sleep,
            CaptureAction::ReadClock,
        ]
    );
}

#[test]
fn completed_segment_is_returned() {
    let actions = drive(&[
        CaptureEvent::Clock(5),
        CaptureEvent::Batch(true),
        CaptureEvent::Processed(true),
    ]);
    assert_eq!(actions.last(), Some(&CaptureAction::ReturnSegment));
}

#[test]
fn stops_after_the_time_limit() {
    assert_eq!(
        drive(&[CaptureEvent::Clock(MAX_RECORDING_NANOS)]).last(),
        Some(&CaptureAction::FillBatch)
    );
    assert_eq!(
        drive(&[CaptureEvent::Clock(MAX_RECORDING_NANOS + 1)]).last(),
        Some(&CaptureAction::Stop)
    );
}

#[test]
fn stops_when_capture_stops() {
    let actions = drive(&[
        CaptureEvent::Clock(5),
        CaptureEvent::Batch(false),
        CaptureEvent::Running(false),
    ]);
    assert_eq!(actions.last(), Some(&CaptureAction::Stop));
}

#[test]
fn unexpected_events_repeat_the_request() {
    let actions = drive(&[CaptureEvent::Slept, CaptureEvent::Batch(true)]);
    assert_eq!(actions, vec![CaptureAction::ReadClock; 3]);
}

#[test]
fn no_samples_means_no_speech() {
    assert_eq!(capture_result::<f32>(vec![]), Err(CaptureError::NoSpeech));
    assert_eq!(capture_result(vec![0.5f32]), Ok(vec![0.5f32]));
}
