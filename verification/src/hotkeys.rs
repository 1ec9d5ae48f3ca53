use vstd::prelude::*;

use crate::text::{option_string_view, holds_string};
use crate::state::{RecordingState, SessionEvent, session_step_spec, toggle_listening, toggle_listening_spec};

verus! {

/// The role a registered global shortcut plays.
#[derive(Debug, Clone, Copy, PartialEq, Eq, Structural)]
pub enum HotkeyKind {
    /// Turns listening on and off.
    AppToggle,
    /// First press starts recording, second press stops it.
    Toggle,
    /// Recording lasts while the key is held.
    PushToTalk,
}

/// One global shortcut to register, with the role it plays.
#[derive(Debug, Clone)]
pub struct HotkeyBinding {
    pub kind: HotkeyKind,
    pub shortcut: String,
}

/// A binding as a plain value.
pub open spec fn binding_view(b: HotkeyBinding) -> (HotkeyKind, Seq<char>) {
    (b.kind, b.shortcut@)
}

/// Viewing a binding keeps its role and its shortcut's characters.
pub proof fn lemma_binding_view(b: HotkeyBinding)
    ensures
        binding_view(b).0 == b.kind,
        binding_view(b).1 == b.shortcut@,
{
}

/// The registrations made for the three configured shortcuts, in order: the
/// app toggle first, then the recording toggle unless it repeats the app
/// toggle, then push-to-talk unless it repeats either of the others. A
/// shortcut configured for two roles is registered once, for the first role.
pub open spec fn hotkey_plan(
    app_toggle: Option<Seq<char>>,
    toggle: Option<Seq<char>>,
    ptt: Option<Seq<char>>,
) -> Seq<(HotkeyKind, Seq<char>)> {
    let first = match app_toggle {
        Some(s) => seq![(HotkeyKind::AppToggle, s)],
        None => Seq::empty(),
    };
    let second = match toggle {
        Some(s) => if app_toggle != toggle {
            seq![(HotkeyKind::Toggle, s)]
        } else {
            Seq::empty()
        },
        None => Seq::empty(),
    };
    let third = match ptt {
        Some(s) => if app_toggle != ptt && toggle != ptt {
            seq![(HotkeyKind::PushToTalk, s)]
        } else {
            Seq::empty()
        },
        None => Seq::empty(),
    };
    first + second + third
}

/// The global shortcuts to register for the configured app-toggle, recording
/// toggle and push-to-talk keys (any may be unset). Every previously
/// registered shortcut is dropped before these are registered.
pub fn register_hotkeys(
    toggle_app_hotkey: &Option<String>,
    global_hotkey: &Option<String>,
    ptt_hotkey: &Option<String>,
) -> (plan: Vec<HotkeyBinding>)
    ensures
        plan@.map_values(|b: HotkeyBinding| binding_view(b)) == hotkey_plan(
            option_string_view(*toggle_app_hotkey),
            option_string_view(*global_hotkey),
            option_string_view(*ptt_hotkey),
        ),
{
    let mut plan: Vec<HotkeyBinding> = Vec::new();
    if let Some(s) = toggle_app_hotkey {
        plan.push(HotkeyBinding { kind: HotkeyKind::AppToggle, shortcut: s.clone() });
    }
    if let Some(s) = global_hotkey {
        if !holds_string(toggle_app_hotkey, s) {
            plan.push(HotkeyBinding { kind: HotkeyKind::Toggle, shortcut: s.clone() });
        }
    }
    if let Some(s) = ptt_hotkey {
        if !holds_string(toggle_app_hotkey, s) && !holds_string(global_hotkey, s) {
            plan.push(HotkeyBinding { kind: HotkeyKind::PushToTalk, shortcut: s.clone() });
        }
    }
    proof {
        let a = option_string_view(*toggle_app_hotkey);
        let g = option_string_view(*global_hotkey);
        let p = option_string_view(*ptt_hotkey);
        assert(plan@.map_values(|b: HotkeyBinding| binding_view(b)) =~= hotkey_plan(a, g, p));
    }
    plan
}


/// What a shortcut event asks the controller to do.
#[derive(Debug, Clone, Copy, PartialEq, Eq, Structural)]
pub enum HotkeyOutcome {
    /// Nothing happens.
    Ignore,
    /// Move to the given state (the listening toggle).
    SetState(RecordingState),
    /// Open the microphone and start capturing.
    StartRecording,
    /// Close the microphone and transcribe what was captured.
    StopRecording,
}

/// A press of the recording toggle: starts recording when listening, stops it
/// when recording, and does nothing when inactive or transcribing.
pub open spec fn toggle_press_spec(current: RecordingState) -> HotkeyOutcome {
    match current {
        RecordingState::Listening => HotkeyOutcome::StartRecording,
        RecordingState::Recording => HotkeyOutcome::StopRecording,
        _ => HotkeyOutcome::Ignore,
    }
}

/// A press of the push-to-talk key: starts recording when listening.
pub open spec fn ptt_press_spec(current: RecordingState) -> HotkeyOutcome {
    if current == RecordingState::Listening {
        HotkeyOutcome::StartRecording
    } else {
        HotkeyOutcome::Ignore
    }
}

/// A release of the push-to-talk key: stops recording when recording (a
/// release while transcribing is ignored).
pub open spec fn ptt_release_spec(current: RecordingState) -> HotkeyOutcome {
    if current == RecordingState::Recording {
        HotkeyOutcome::StopRecording
    } else {
        HotkeyOutcome::Ignore
    }
}

/// What an event on a shortcut of the given role does in the given state.
pub open spec fn hotkey_event_spec(kind: HotkeyKind, pressed: bool, current: RecordingState) -> HotkeyOutcome {
    match kind {
        HotkeyKind::AppToggle => if pressed {
            HotkeyOutcome::SetState(toggle_listening_spec(current))
        } else {
            HotkeyOutcome::Ignore
        },
        HotkeyKind::Toggle => if pressed {
            toggle_press_spec(current)
        } else {
            HotkeyOutcome::Ignore
        },
        HotkeyKind::PushToTalk => if pressed {
            ptt_press_spec(current)
        } else {
            ptt_release_spec(current)
        },
    }
}

/// Decision taken on a press of the recording toggle.
pub fn on_toggle_press(current: RecordingState) -> (r: HotkeyOutcome)
    ensures
        r == toggle_press_spec(current),
{
    match current {
        RecordingState::Listening => HotkeyOutcome::StartRecording,
        RecordingState::Recording => HotkeyOutcome::StopRecording,
        _ => HotkeyOutcome::Ignore,
    }
}

/// Decision taken on a press of the push-to-talk key.
pub fn on_ptt_press(current: RecordingState) -> (r: HotkeyOutcome)
    ensures
        r == ptt_press_spec(current),
{
    match current {
        RecordingState::Listening => HotkeyOutcome::StartRecording,
        _ => HotkeyOutcome::Ignore,
    }
}

/// Decision taken on a release of the push-to-talk key.
pub fn on_ptt_release(current: RecordingState) -> (r: HotkeyOutcome)
    ensures
        r == ptt_release_spec(current),
{
    match current {
        RecordingState::Recording => HotkeyOutcome::StopRecording,
        _ => HotkeyOutcome::Ignore,
    }
}

/// Decision taken on a press (`pressed`) or release of a registered shortcut.
pub fn on_hotkey(kind: HotkeyKind, pressed: bool, current: RecordingState) -> (r: HotkeyOutcome)
    ensures
        r == hotkey_event_spec(kind, pressed, current),
{
    match kind {
        HotkeyKind::AppToggle => {
            if pressed {
                HotkeyOutcome::SetState(toggle_listening(current))
            } else {
                HotkeyOutcome::Ignore
            }
        },
        HotkeyKind::Toggle => {
            if pressed {
                on_toggle_press(current)
            } else {
                HotkeyOutcome::Ignore
            }
        },
        HotkeyKind::PushToTalk => {
            if pressed {
                on_ptt_press(current)
            } else {
                on_ptt_release(current)
            }
        },
    }
}

/// No shortcut is registered twice: the shortcuts of the plan are pairwise
/// distinct, whatever the three settings hold.
pub proof fn lemma_plan_shortcuts_distinct(
    app_toggle: Option<Seq<char>>,
    toggle: Option<Seq<char>>,
    ptt: Option<Seq<char>>,
)
    ensures
        forall|i: int, j: int|
            0 <= i < j < hotkey_plan(app_toggle, toggle, ptt).len() ==>
                (#[trigger] hotkey_plan(app_toggle, toggle, ptt)[i]).1
                    != (#[trigger] hotkey_plan(app_toggle, toggle, ptt)[j]).1,
{
}

/// Every configured shortcut is registered, and every registration carries a
/// configured shortcut in the role it was configured for.
pub proof fn lemma_plan_covers_settings(
    app_toggle: Option<Seq<char>>,
    toggle: Option<Seq<char>>,
    ptt: Option<Seq<char>>,
    s: Seq<char>,
)
    ensures
        (app_toggle == Some(s) || toggle == Some(s) || ptt == Some(s)) ==>
            exists|i: int|
                0 <= i < hotkey_plan(app_toggle, toggle, ptt).len()
                    && (#[trigger] hotkey_plan(app_toggle, toggle, ptt)[i]).1 == s,
        forall|i: int|
            0 <= i < hotkey_plan(app_toggle, toggle, ptt).len() ==> {
                let b = #[trigger] hotkey_plan(app_toggle, toggle, ptt)[i];
                &&& b.0 == HotkeyKind::AppToggle ==> app_toggle == Some(b.1)
                &&& b.0 == HotkeyKind::Toggle ==> toggle == Some(b.1)
                &&& b.0 == HotkeyKind::PushToTalk ==> ptt == Some(b.1)
            },
{
    let plan = hotkey_plan(app_toggle, toggle, ptt);
    if app_toggle == Some(s) {
        assert(plan[0].1 == s);
    } else if toggle == Some(s) {
        if app_toggle is Some {
            assert(plan[1].1 == s);
        } else {
            assert(plan[0].1 == s);
        }
    } else if ptt == Some(s) {
        let k: int = (if app_toggle is Some { 1int } else { 0int }) + (if toggle is Some && app_toggle != toggle { 1int } else { 0int });
        assert(plan[k].1 == s);
    }
}

/// The shortcut handlers check the controller state themselves: outside the
/// listening toggle, no shortcut event does anything while the controller is
/// inactive or transcribing.
pub proof fn lemma_idle_states_ignore_recording_keys(
    kind: HotkeyKind,
    pressed: bool,
    current: RecordingState,
)
    requires
        kind != HotkeyKind::AppToggle,
        current == RecordingState::Inactive || current == RecordingState::Transcribing,
    ensures
        hotkey_event_spec(kind, pressed, current) == HotkeyOutcome::Ignore,
{
}

/// Only a press (never a release) of the app toggle or the recording toggle
/// does anything, and the app toggle never opens or closes the microphone.
pub proof fn lemma_releases_of_toggles_ignored(kind: HotkeyKind, current: RecordingState)
    ensures
        kind != HotkeyKind::PushToTalk ==> hotkey_event_spec(kind, false, current)
            == HotkeyOutcome::Ignore,
        hotkey_event_spec(HotkeyKind::AppToggle, true, current) is SetState,
{
}

/// A press of the app-toggle shortcut switches listening: from `Inactive` it
/// sets `Listening`, from every other state (`Listening` included) it sets
/// `Inactive`; two presses from `Inactive` or `Listening` come back to the
/// starting state.
pub proof fn lemma_app_toggle_switches_listening(current: RecordingState)
    ensures
        current == RecordingState::Inactive ==> hotkey_event_spec(
            HotkeyKind::AppToggle,
            true,
            current,
        ) == HotkeyOutcome::SetState(RecordingState::Listening),
        current != RecordingState::Inactive ==> hotkey_event_spec(
            HotkeyKind::AppToggle,
            true,
            current,
        ) == HotkeyOutcome::SetState(RecordingState::Inactive),
        hotkey_event_spec(HotkeyKind::AppToggle, true, RecordingState::Listening)
            == HotkeyOutcome::SetState(RecordingState::Inactive),
        (current == RecordingState::Inactive || current == RecordingState::Listening) ==> (
        hotkey_event_spec(HotkeyKind::AppToggle, true, current) matches HotkeyOutcome::SetState(
            next,
        ) && hotkey_event_spec(HotkeyKind::AppToggle, true, next) == HotkeyOutcome::SetState(
            current,
        )),
{
}

/// The recording toggle and push-to-talk only ever open or close the
/// microphone: a press starts recording exactly when listening; recording is
/// stopped exactly when recording, by a press of the toggle or a release of
/// push-to-talk; every other event is ignored, and neither key ever sets the
/// state directly.
pub proof fn lemma_recording_keys(kind: HotkeyKind, pressed: bool, current: RecordingState)
    requires
        kind != HotkeyKind::AppToggle,
    ensures
        (hotkey_event_spec(kind, pressed, current) == HotkeyOutcome::StartRecording) == (pressed
            && current == RecordingState::Listening),
        (hotkey_event_spec(kind, pressed, current) == HotkeyOutcome::StopRecording) == (current
            == RecordingState::Recording && pressed == (kind == HotkeyKind::Toggle)),
        !(hotkey_event_spec(kind, pressed, current) is SetState),
{
}

/// The position of a role in the order in which roles claim a shortcut.
pub open spec fn role_rank(k: HotkeyKind) -> int {
    match k {
        HotkeyKind::AppToggle => 0,
        HotkeyKind::Toggle => 1,
        HotkeyKind::PushToTalk => 2,
    }
}

/// A shortcut configured for several roles goes to the first of app toggle,
/// recording toggle, push-to-talk: the plan lists roles in that order, a
/// recording-toggle binding never carries the app-toggle shortcut, a
/// push-to-talk binding carries neither of the others, and each configured
/// shortcut not claimed by an earlier role is registered in its own role.
pub proof fn lemma_plan_first_role_wins(
    app_toggle: Option<Seq<char>>,
    toggle: Option<Seq<char>>,
    ptt: Option<Seq<char>>,
)
    ensures
        forall|i: int, j: int|
            0 <= i < j < hotkey_plan(app_toggle, toggle, ptt).len() ==> role_rank(
                (#[trigger] hotkey_plan(app_toggle, toggle, ptt)[i]).0,
            ) < role_rank((#[trigger] hotkey_plan(app_toggle, toggle, ptt)[j]).0),
        forall|i: int|
            0 <= i < hotkey_plan(app_toggle, toggle, ptt).len() ==> {
                let b = #[trigger] hotkey_plan(app_toggle, toggle, ptt)[i];
                &&& b.0 == HotkeyKind::Toggle ==> app_toggle != Some(b.1)
                &&& b.0 == HotkeyKind::PushToTalk ==> app_toggle != Some(b.1) && toggle != Some(
                    b.1,
                )
            },
        app_toggle matches Some(s) ==> hotkey_plan(app_toggle, toggle, ptt).contains(
            (HotkeyKind::AppToggle, s),
        ),
        toggle matches Some(s) ==> (app_toggle != toggle ==> hotkey_plan(
            app_toggle,
            toggle,
            ptt,
        ).contains((HotkeyKind::Toggle, s))),
        ptt matches Some(s) ==> (app_toggle != ptt && toggle != ptt ==> hotkey_plan(
            app_toggle,
            toggle,
            ptt,
        ).contains((HotkeyKind::PushToTalk, s))),
{
    let plan = hotkey_plan(app_toggle, toggle, ptt);
    if app_toggle is Some {
        assert(plan[0] == (HotkeyKind::AppToggle, app_toggle->0));
    }
    if toggle is Some && app_toggle != toggle {
        let k: int = if app_toggle is Some { 1 } else { 0 };
        assert(plan[k] == (HotkeyKind::Toggle, toggle->0));
    }
    if ptt is Some && app_toggle != ptt && toggle != ptt {
        let k: int = (if app_toggle is Some { 1int } else { 0int }) + (if toggle is Some
            && app_toggle != toggle { 1int } else { 0int });
        assert(plan[k] == (HotkeyKind::PushToTalk, ptt->0));
    }
}

/// A dictation round trip with the recording toggle: from `Listening`, a
/// press starts recording, the opened stream makes the state `Recording`, a
/// second press stops it, a non-empty capture moves on to `Transcribing`
/// (where further presses are ignored), and the finished transcription
/// returns to `Listening`. With push-to-talk, press and release play the two
/// presses' parts; an empty capture returns to `Listening` at once.
pub proof fn lemma_dictation_round_trip(samples: usize, kind: HotkeyKind)
    requires
        kind != HotkeyKind::AppToggle,
    ensures
        hotkey_event_spec(kind, true, RecordingState::Listening) == HotkeyOutcome::StartRecording,
        session_step_spec(SessionEvent::CaptureStarted) == RecordingState::Recording,
        hotkey_event_spec(kind, kind == HotkeyKind::Toggle, RecordingState::Recording)
            == HotkeyOutcome::StopRecording,
        samples > 0 ==> session_step_spec(SessionEvent::CaptureStopped { samples })
            == RecordingState::Transcribing,
        samples == 0 ==> session_step_spec(SessionEvent::CaptureStopped { samples })
            == RecordingState::Listening,
        hotkey_event_spec(kind, true, RecordingState::Transcribing) == HotkeyOutcome::Ignore,
        session_step_spec(SessionEvent::TranscriptionFinished) == RecordingState::Listening,
{
}

} // verus!
