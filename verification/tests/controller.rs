use spkr::hotkeys::{
    on_hotkey, on_ptt_press, on_ptt_release, on_toggle_press, register_hotkeys, HotkeyKind,
    HotkeyOutcome,
};
use spkr::state::{session_step, toggle_listening, RecordingState, SessionEvent};

fn some(s: &str) -> Option<String> {
    Some(s.to_string())
}

fn plan(a: Option<String>, g: Option<String>, p: Option<String>) -> Vec<(HotkeyKind, String)> {
    register_hotkeys(&a, &g, &p).into_iter().map(|b| (b.kind, b.shortcut)).collect()
}

#[test]
fn state_names() {
    assert_eq!(RecordingState::Inactive.as_str(), "Inactive");
    assert_eq!(RecordingState::Listening.as_str(), "Listening");
    assert_eq!(RecordingState::Recording.as_str(), "Recording");
    assert_eq!(RecordingState::Transcribing.as_str(), "Transcribing");
}

#[test]
fn toggle_listening_moves_between_inactive_and_listening() {
    assert_eq!(toggle_listening(RecordingState::Inactive), RecordingState::Listening);
    assert_eq!(toggle_listening(RecordingState::Listening), RecordingState::Inactive);
    assert_eq!(toggle_listening(RecordingState::Recording), RecordingState::Inactive);
    assert_eq!(toggle_listening(RecordingState::Transcribing), RecordingState::Inactive);
}

#[test]
fn toggle_listening_twice_returns() {
    for s in [RecordingState::Inactive, RecordingState::Listening] {
        assert_eq!(toggle_listening(toggle_listening(s)), s);
    }
}

#[test]
fn session_steps() {
    assert_eq!(session_step(SessionEvent::CaptureStarted), RecordingState::Recording);
    assert_eq!(session_step(SessionEvent::CaptureStopped { samples: 0 }), RecordingState::Listening);
    assert_eq!(
        session_step(SessionEvent::CaptureStopped { samples: 480 }),
        RecordingState::Transcribing
    );
    assert_eq!(session_step(SessionEvent::TranscriptionFinished), RecordingState::Listening);
}

#[test]
fn toggle_press_decisions() {
    assert_eq!(on_toggle_press(RecordingState::Listening), HotkeyOutcome::StartRecording);
    assert_eq!(on_toggle_press(RecordingState::Recording), HotkeyOutcome::StopRecording);
    assert_eq!(on_toggle_press(RecordingState::Inactive), HotkeyOutcome::Ignore);
    assert_eq!(on_toggle_press(RecordingState::Transcribing), HotkeyOutcome::Ignore);
}

#[test]
fn ptt_decisions() {
    assert_eq!(on_ptt_press(RecordingState::Listening), HotkeyOutcome::StartRecording);
    assert_eq!(on_ptt_press(RecordingState::Recording), HotkeyOutcome::Ignore);
    assert_eq!(on_ptt_press(RecordingState::Inactive), HotkeyOutcome::Ignore);
    assert_eq!(on_ptt_release(RecordingState::Recording), HotkeyOutcome::StopRecording);
    assert_eq!(on_ptt_release(RecordingState::Transcribing), HotkeyOutcome::Ignore);
    assert_eq!(on_ptt_release(RecordingState::Listening), HotkeyOutcome::Ignore);
}

#[test]
fn hotkey_events_by_role() {
    assert_eq!(
        on_hotkey(HotkeyKind::AppToggle, true, RecordingState::Inactive),
        HotkeyOutcome::SetState(RecordingState::Listening)
    );
    assert_eq!(
        on_hotkey(HotkeyKind::AppToggle, true, RecordingState::Recording),
        HotkeyOutcome::SetState(RecordingState::Inactive)
    );
    assert_eq!(on_hotkey(HotkeyKind::AppToggle, false, RecordingState::Inactive), HotkeyOutcome::Ignore);
    assert_eq!(on_hotkey(HotkeyKind::Toggle, false, RecordingState::Listening), HotkeyOutcome::Ignore);
    assert_eq!(
        on_hotkey(HotkeyKind::PushToTalk, false, RecordingState::Recording),
        HotkeyOutcome::StopRecording
    );
}

#[test]
fn idle_states_ignore_recording_keys() {
    for s in [RecordingState::Inactive, RecordingState::Transcribing] {
        for kind in [HotkeyKind::Toggle, HotkeyKind::PushToTalk] {
            for pressed in [true, false] {
                assert_eq!(on_hotkey(kind, pressed, s), HotkeyOutcome::Ignore);
            }
        }
    }
}

#[test]
fn dictation_round_trip_with_toggle() {
    let mut s = RecordingState::Listening;
    assert_eq!(on_hotkey(HotkeyKind::Toggle, true, s), HotkeyOutcome::StartRecording);
    s = session_step(SessionEvent::CaptureStarted);
    assert_eq!(on_hotkey(HotkeyKind::Toggle, true, s), HotkeyOutcome::StopRecording);
    s = session_step(SessionEvent::CaptureStopped { samples: 16000 });
    assert_eq!(s, RecordingState::Transcribing);
    assert_eq!(on_hotkey(HotkeyKind::Toggle, true, s), HotkeyOutcome::Ignore);
    s = session_step(SessionEvent::TranscriptionFinished);
    assert_eq!(s, RecordingState::Listening);
}

#[test]
fn plan_with_all_distinct() {
    assert_eq!(
        plan(some("Ctrl+Alt+A"), some("Ctrl+Space"), some("F9")),
        vec![
            (HotkeyKind::AppToggle, "Ctrl+Alt+A".to_string()),
            (HotkeyKind::Toggle, "Ctrl+Space".to_string()),
            (HotkeyKind::PushToTalk, "F9".to_string()),
        ]
    );
}

#[test]
fn plan_empty_when_nothing_set() {
    assert!(plan(None, None, None).is_empty());
}

#[test]
fn plan_skips_repeated_shortcuts() {
    assert_eq!(
        plan(None, some("F9"), some("F9")),
        vec![(HotkeyKind::Toggle, "F9".to_string())]
    );
    assert_eq!(
        plan(some("F9"), some("F9"), some("F9")),
        vec![(HotkeyKind::AppToggle, "F9".to_string())]
    );
    assert_eq!(
        plan(some("F8"), None, some("F8")),
        vec![(HotkeyKind::AppToggle, "F8".to_string())]
    );
    assert_eq!(
        plan(some("F8"), some("F9"), some("F9")),
        vec![
            (HotkeyKind::AppToggle, "F8".to_string()),
            (HotkeyKind::Toggle, "F9".to_string()),
        ]
    );
}

#[test]
fn plan_ptt_only() {
    assert_eq!(
        plan(None, None, some("Shift+F1")),
        vec![(HotkeyKind::PushToTalk, "Shift+F1".to_string())]
    );
}
