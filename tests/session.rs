use hotkey_dictation::{
    Action, CaptureError, EncoderHandle, Event, Phase, SampleSpec, SessionController,
};

fn mono_spec() -> SampleSpec {
    SampleSpec { channels: 1, sample_rate: 16000 }
}

#[test]
fn one_second_session_is_dispatched_once() {
    let mut controller = SessionController::new();
    assert_eq!(controller.step(Event::Signal(true)), Action::Open { session: 1 });
    let mut handle = EncoderHandle::new(mono_spec()).unwrap();
    assert_eq!(controller.step(Event::Opened), Action::Wait);
    assert_eq!(controller.phase(), Phase::Recording);
    let second: Vec<u16> = (0..16000u32).map(|i| (i * 4) as u16).collect();
    handle.append_u16(&second).unwrap();
    assert_eq!(controller.step(Event::Signal(true)), Action::Wait);
    assert_eq!(controller.step(Event::Signal(false)), Action::Close { session: 1 });
    assert_eq!(controller.phase(), Phase::Stopping);
    let artifact = handle.finalize().unwrap();
    assert_eq!(artifact.bytes.len(), 44 + 32000);
    match controller.step(Event::Finalized(artifact)) {
        Action::Dispatch { session, artifact } => {
            assert_eq!(session, 1);
            assert_eq!(artifact.sample_count, 16000);
            assert_eq!(artifact.byte_len, 32044);
        }
        other => panic!("expected a dispatch, got {:?}", other),
    }
    assert_eq!(controller.phase(), Phase::Idle);
    assert_eq!(controller.step(Event::Signal(false)), Action::Wait);
}

#[test]
fn failed_open_stays_idle_and_reports() {
    let mut controller = SessionController::new();
    assert_eq!(controller.step(Event::Signal(true)), Action::Open { session: 1 });
    assert_eq!(
        controller.step(Event::OpenFailed(CaptureError::DeviceUnavailable)),
        Action::Report(CaptureError::DeviceUnavailable)
    );
    assert_eq!(controller.phase(), Phase::Idle);
    assert_eq!(controller.step(Event::Signal(false)), Action::Wait);
    assert_eq!(controller.step(Event::Signal(true)), Action::Open { session: 2 });
}

#[test]
fn still_borrowed_abandons_session_and_recovers() {
    let mut controller = SessionController::new();
    controller.step(Event::Signal(true));
    controller.step(Event::Opened);
    assert_eq!(controller.step(Event::Signal(false)), Action::Close { session: 1 });
    assert_eq!(
        controller.step(Event::FinalizeFailed(CaptureError::StillBorrowed)),
        Action::Report(CaptureError::StillBorrowed)
    );
    assert_eq!(controller.phase(), Phase::Idle);
    assert_eq!(controller.step(Event::Signal(true)), Action::Open { session: 2 });
    assert_eq!(controller.step(Event::Opened), Action::Wait);
    assert_eq!(controller.phase(), Phase::Recording);
}

#[test]
fn repeated_signal_off_while_idle_does_nothing() {
    let mut controller = SessionController::new();
    for _ in 0..5 {
        assert_eq!(controller.step(Event::Signal(false)), Action::Wait);
        assert_eq!(controller.phase(), Phase::Idle);
    }
    assert_eq!(controller.next_session(), 1);
}

#[test]
fn repeated_signal_on_while_recording_opens_nothing() {
    let mut controller = SessionController::new();
    controller.step(Event::Signal(true));
    controller.step(Event::Opened);
    for _ in 0..5 {
        assert_eq!(controller.step(Event::Signal(true)), Action::Wait);
        assert_eq!(controller.phase(), Phase::Recording);
    }
    assert_eq!(controller.session(), 1);
    assert_eq!(controller.next_session(), 2);
}

#[test]
fn empty_recording_is_reported_not_dispatched() {
    let mut controller = SessionController::new();
    controller.step(Event::Signal(true));
    controller.step(Event::Opened);
    controller.step(Event::Signal(false));
    let artifact = EncoderHandle::new(mono_spec()).unwrap().finalize().unwrap();
    assert_eq!(artifact.bytes.len(), 44);
    assert_eq!(
        controller.step(Event::Finalized(artifact)),
        Action::Report(CaptureError::EmptyArtifact)
    );
    assert_eq!(controller.phase(), Phase::Idle);
}

#[test]
fn events_out_of_place_are_ignored() {
    let mut controller = SessionController::new();
    assert_eq!(controller.step(Event::Opened), Action::Wait);
    assert_eq!(
        controller.step(Event::FinalizeFailed(CaptureError::EncoderIo)),
        Action::Wait
    );
    controller.step(Event::Signal(true));
    assert_eq!(controller.step(Event::Signal(false)), Action::Wait);
    assert_eq!(controller.phase(), Phase::Starting);
}

#[test]
fn encoder_failure_at_finalize_is_reported() {
    let mut controller = SessionController::new();
    controller.step(Event::Signal(true));
    controller.step(Event::Opened);
    controller.step(Event::Signal(false));
    assert_eq!(
        controller.step(Event::FinalizeFailed(CaptureError::EncoderIo)),
        Action::Report(CaptureError::EncoderIo)
    );
    assert_eq!(controller.phase(), Phase::Idle);
}

#[test]
fn failed_open_waits_for_the_next_rising_edge() {
    let mut controller = SessionController::new();
    assert_eq!(controller.step(Event::Signal(true)), Action::Open { session: 1 });
    assert_eq!(
        controller.step(Event::OpenFailed(CaptureError::StreamBuildFailed)),
        Action::Report(CaptureError::StreamBuildFailed)
    );
    assert_eq!(controller.step(Event::Signal(true)), Action::Wait);
    assert_eq!(controller.step(Event::Signal(true)), Action::Wait);
    assert_eq!(controller.phase(), Phase::Idle);
    assert_eq!(controller.step(Event::Signal(false)), Action::Wait);
    assert_eq!(controller.step(Event::Signal(true)), Action::Open { session: 2 });
}
