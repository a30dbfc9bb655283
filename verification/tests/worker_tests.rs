use whisper_freeflow::config::Config;
use whisper_freeflow::overlay::OverlayState;
use whisper_freeflow::tray::ControlEvent;
use whisper_freeflow::worker::{
    LoadOutcome, StopOutcome, Worker, WorkerAction, WorkerEvent, NO_MIC_HOLD_MS,
};

fn ready_worker() -> Worker {
    let (w, acts) = Worker::new(Config::default(), true, 0);
    assert!(acts.is_empty());
    w
}

fn record(w: &mut Worker, now: u64) {
    assert_eq!(w.step(WorkerEvent::HotkeyPressed, now), vec![WorkerAction::ProbeMic]);
    assert_eq!(w.step(WorkerEvent::MicProbed(true), now), vec![WorkerAction::StartRecording]);
    assert_eq!(
        w.step(WorkerEvent::RecordingStarted(true), now),
        vec![WorkerAction::ShowOverlay(OverlayState::Recording)]
    );
    assert!(w.is_recording());
}

fn transcribe(w: &mut Worker, now: u64) {
    assert_eq!(w.step(WorkerEvent::HotkeyReleased, now), vec![WorkerAction::StopRecording]);
    assert_eq!(
        w.step(WorkerEvent::RecordingStopped(StopOutcome::Captured), now),
        vec![
            WorkerAction::ShowOverlay(OverlayState::Processing),
            WorkerAction::BoostPriority,
            WorkerAction::Transcribe("en".to_string()),
        ]
    );
    assert!(!w.is_recording());
}

#[test]
fn dictation_round_trip_types_text() {
    let mut w = ready_worker();
    record(&mut w, 10);
    transcribe(&mut w, 20);
    assert_eq!(
        w.step(WorkerEvent::TranscriptionFinished(Some("hello world".to_string())), 30),
        vec![
            WorkerAction::RestorePriority,
            WorkerAction::TypeText("hello world".to_string()),
            WorkerAction::ShowOverlay(OverlayState::Idle),
        ]
    );
    assert_eq!(w.overlay(), OverlayState::Idle);
}

#[test]
fn empty_or_failed_transcription_types_nothing() {
    let mut w = ready_worker();
    record(&mut w, 0);
    transcribe(&mut w, 0);
    assert_eq!(
        w.step(WorkerEvent::TranscriptionFinished(Some(String::new())), 0),
        vec![WorkerAction::RestorePriority, WorkerAction::ShowOverlay(OverlayState::Idle)]
    );
    record(&mut w, 0);
    transcribe(&mut w, 0);
    assert_eq!(
        w.step(WorkerEvent::TranscriptionFinished(None), 0),
        vec![WorkerAction::RestorePriority, WorkerAction::ShowOverlay(OverlayState::Idle)]
    );
}

#[test]
fn repress_cancels_and_result_is_discarded() {
    let mut w = ready_worker();
    record(&mut w, 0);
    transcribe(&mut w, 0);
    assert_eq!(
        w.step(WorkerEvent::HotkeyPressed, 5),
        vec![
            WorkerAction::CancelTranscription,
            WorkerAction::RestorePriority,
            WorkerAction::ShowOverlay(OverlayState::Idle),
        ]
    );
    assert!(!w.is_recording());
    // the abandoned result, should it still arrive, is not typed
    assert!(w
        .step(WorkerEvent::TranscriptionFinished(Some("late".to_string())), 6)
        .is_empty());
    // the next press starts a new recording straight away
    record(&mut w, 7);
}

#[test]
fn tray_cancel_discards_pending() {
    let mut w = ready_worker();
    record(&mut w, 0);
    transcribe(&mut w, 0);
    assert_eq!(
        w.step(WorkerEvent::Control(ControlEvent::CancelTranscription), 1),
        vec![
            WorkerAction::CancelTranscription,
            WorkerAction::RestorePriority,
            WorkerAction::ShowOverlay(OverlayState::Idle),
        ]
    );
    assert!(w.step(WorkerEvent::Control(ControlEvent::CancelTranscription), 2).is_empty());
    assert!(w.step(WorkerEvent::TranscriptionLost, 3).is_empty());
}

#[test]
fn lost_transcription_resets() {
    let mut w = ready_worker();
    record(&mut w, 0);
    transcribe(&mut w, 0);
    assert_eq!(
        w.step(WorkerEvent::TranscriptionLost, 1),
        vec![WorkerAction::RestorePriority, WorkerAction::ShowOverlay(OverlayState::Idle)]
    );
}

#[test]
fn too_short_recording_is_skipped() {
    let mut w = ready_worker();
    record(&mut w, 0);
    assert_eq!(w.step(WorkerEvent::HotkeyReleased, 0), vec![WorkerAction::StopRecording]);
    assert_eq!(
        w.step(WorkerEvent::RecordingStopped(StopOutcome::TooShort), 0),
        vec![
            WorkerAction::ShowOverlay(OverlayState::Processing),
            WorkerAction::ShowOverlay(OverlayState::Idle),
        ]
    );
}

#[test]
fn failed_stop_goes_idle() {
    let mut w = ready_worker();
    record(&mut w, 0);
    w.step(WorkerEvent::HotkeyReleased, 0);
    assert_eq!(
        w.step(WorkerEvent::RecordingStopped(StopOutcome::Failed), 0),
        vec![WorkerAction::ShowOverlay(OverlayState::Idle)]
    );
    assert!(!w.is_recording());
}

#[test]
fn no_mic_at_startup_shows_then_hides() {
    let (mut w, acts) = Worker::new(Config::default(), false, 1000);
    assert_eq!(acts, vec![WorkerAction::ShowOverlay(OverlayState::NoMic)]);
    assert!(w.step(WorkerEvent::Tick, 1000 + NO_MIC_HOLD_MS - 1).is_empty());
    assert_eq!(w.overlay(), OverlayState::NoMic);
    assert_eq!(
        w.step(WorkerEvent::Tick, 1000 + NO_MIC_HOLD_MS),
        vec![WorkerAction::ShowOverlay(OverlayState::Idle)]
    );
    assert!(w.step(WorkerEvent::Tick, 5000).is_empty());
}

#[test]
fn press_without_mic_shows_no_mic() {
    let mut w = ready_worker();
    assert_eq!(w.step(WorkerEvent::HotkeyPressed, 0), vec![WorkerAction::ProbeMic]);
    assert_eq!(
        w.step(WorkerEvent::MicProbed(false), 100),
        vec![WorkerAction::ShowOverlay(OverlayState::NoMic)]
    );
    // a failing recorder start does the same
    assert_eq!(w.step(WorkerEvent::HotkeyPressed, 200), vec![WorkerAction::ProbeMic]);
    assert_eq!(w.step(WorkerEvent::MicProbed(true), 200), vec![WorkerAction::StartRecording]);
    assert_eq!(
        w.step(WorkerEvent::RecordingStarted(false), 300),
        vec![WorkerAction::ShowOverlay(OverlayState::NoMic)]
    );
    assert!(w.step(WorkerEvent::Tick, 300 + NO_MIC_HOLD_MS - 1).is_empty());
    assert_eq!(
        w.step(WorkerEvent::Tick, 300 + NO_MIC_HOLD_MS),
        vec![WorkerAction::ShowOverlay(OverlayState::Idle)]
    );
}

#[test]
fn recording_replaces_no_mic_indicator() {
    let (mut w, _) = Worker::new(Config::default(), false, 0);
    record(&mut w, 10);
    // the deadline passes while recording: the overlay stays on Recording
    assert!(w.step(WorkerEvent::Tick, NO_MIC_HOLD_MS).is_empty());
    assert_eq!(w.overlay(), OverlayState::Recording);
}

#[test]
fn press_while_recording_does_nothing() {
    let mut w = ready_worker();
    record(&mut w, 0);
    assert!(w.step(WorkerEvent::HotkeyPressed, 0).is_empty());
    assert!(w.is_recording());
}

#[test]
fn release_when_idle_does_nothing() {
    let mut w = ready_worker();
    assert!(w.step(WorkerEvent::HotkeyReleased, 0).is_empty());
}

#[test]
fn autostart_toggle_saves_only_on_change() {
    let mut w = ready_worker();
    assert!(w.step(WorkerEvent::Control(ControlEvent::SetAutostart(true)), 0).is_empty());
    assert_eq!(
        w.step(WorkerEvent::Control(ControlEvent::SetAutostart(false)), 0),
        vec![WorkerAction::SyncAutostart(false), WorkerAction::SaveConfig]
    );
    assert!(!w.config().autostart);
}

#[test]
fn input_device_switch() {
    let mut w = ready_worker();
    assert!(w.step(WorkerEvent::Control(ControlEvent::SetInputDevice(None)), 0).is_empty());
    assert_eq!(
        w.step(
            WorkerEvent::Control(ControlEvent::SetInputDevice(Some("USB Mic".to_string()))),
            0
        ),
        vec![
            WorkerAction::UseInputDevice(Some("USB Mic".to_string())),
            WorkerAction::SaveConfig,
        ]
    );
    assert_eq!(w.config().input_device, Some("USB Mic".to_string()));
}

#[test]
fn model_switch_loads_then_saves() {
    let mut w = ready_worker();
    assert!(w
        .step(WorkerEvent::Control(ControlEvent::SwitchModel("base.en-q5_1".to_string())), 0)
        .is_empty());
    assert_eq!(
        w.step(WorkerEvent::Control(ControlEvent::SwitchModel("small.en".to_string())), 0),
        vec![
            WorkerAction::ShowOverlay(OverlayState::Processing),
            WorkerAction::LoadModel("small.en".to_string()),
        ]
    );
    assert_eq!(w.config().whisper_model, "base.en-q5_1");
    assert_eq!(
        w.step(WorkerEvent::ModelLoaded(LoadOutcome::Loaded), 0),
        vec![WorkerAction::SaveConfig, WorkerAction::ShowOverlay(OverlayState::Idle)]
    );
    assert_eq!(w.config().whisper_model, "small.en");
}

#[test]
fn failed_model_switch_keeps_old_model() {
    let mut w = ready_worker();
    w.step(WorkerEvent::Control(ControlEvent::SwitchModel("medium.en".to_string())), 0);
    assert_eq!(
        w.step(WorkerEvent::ModelLoaded(LoadOutcome::Failed), 0),
        vec![WorkerAction::ShowOverlay(OverlayState::Idle)]
    );
    assert_eq!(w.config().whisper_model, "base.en-q5_1");
}

#[test]
fn model_switch_mid_recording_and_mid_transcription() {
    let mut w = ready_worker();
    record(&mut w, 0);
    assert_eq!(
        w.step(WorkerEvent::Control(ControlEvent::SwitchModel("tiny.en".to_string())), 0),
        vec![
            WorkerAction::DiscardRecording,
            WorkerAction::ShowOverlay(OverlayState::Processing),
            WorkerAction::LoadModel("tiny.en".to_string()),
        ]
    );
    w.step(WorkerEvent::ModelLoaded(LoadOutcome::Loaded), 0);
    record(&mut w, 0);
    transcribe(&mut w, 0);
    assert_eq!(
        w.step(WorkerEvent::Control(ControlEvent::SwitchModel("base.en".to_string())), 0),
        vec![
            WorkerAction::CancelTranscription,
            WorkerAction::RestorePriority,
            WorkerAction::ShowOverlay(OverlayState::Processing),
            WorkerAction::LoadModel("base.en".to_string()),
        ]
    );
    // the old transcription's text is not typed
    assert!(w
        .step(WorkerEvent::TranscriptionFinished(Some("old".to_string())), 0)
        .is_empty());
}

#[test]
fn missing_models_dir_stops_worker() {
    let mut w = ready_worker();
    w.step(WorkerEvent::Control(ControlEvent::SwitchModel("tiny.en".to_string())), 0);
    assert_eq!(
        w.step(WorkerEvent::ModelLoaded(LoadOutcome::NoModelsDir), 0),
        vec![WorkerAction::Exit]
    );
    assert!(w.step(WorkerEvent::HotkeyPressed, 0).is_empty());
}

#[test]
fn listener_gone_stops_worker() {
    let mut w = ready_worker();
    assert_eq!(w.step(WorkerEvent::HotkeyLost, 0), vec![WorkerAction::Exit]);
    assert!(w.step(WorkerEvent::Tick, 0).is_empty());
}

#[test]
fn out_of_phase_events_are_ignored() {
    let mut w = ready_worker();
    assert!(w.step(WorkerEvent::MicProbed(true), 0).is_empty());
    assert!(w.step(WorkerEvent::RecordingStarted(true), 0).is_empty());
    assert!(w.step(WorkerEvent::RecordingStopped(StopOutcome::Captured), 0).is_empty());
    assert!(w.step(WorkerEvent::ModelLoaded(LoadOutcome::Loaded), 0).is_empty());
    assert!(!w.is_recording());
}
