use vstd::prelude::*;

verus! {

/// Phase of the dictation controller; it drives the overlay colour and what
/// the hotkeys do.
#[derive(Debug, Clone, Copy, PartialEq, Eq, Structural)]
pub enum RecordingState {
    /// Overlay hidden, hotkeys do nothing.
    Inactive,
    /// Overlay green, hotkeys armed.
    Listening,
    /// Microphone open, samples are being captured.
    Recording,
    /// Captured audio is being turned into text.
    Transcribing,
}

/// The name under which a state is reported to the user interface.
pub open spec fn state_name(s: RecordingState) -> Seq<char> {
    match s {
        RecordingState::Inactive => "Inactive"@,
        RecordingState::Listening => "Listening"@,
        RecordingState::Recording => "Recording"@,
        RecordingState::Transcribing => "Transcribing"@,
    }
}

impl RecordingState {
    /// The canonical name of the state, as sent in state-change events.
    pub fn as_str(&self) -> (name: &'static str)
        ensures
            name@ == state_name(*self),
    {
        match self {
            RecordingState::Inactive => "Inactive",
            RecordingState::Listening => "Listening",
            RecordingState::Recording => "Recording",
            RecordingState::Transcribing => "Transcribing",
        }
    }
}


/// Where the listening toggle (tray entry, app-toggle hotkey, UI command)
/// moves the controller: from `Inactive` to `Listening`, from anywhere else
/// back to `Inactive`.
pub open spec fn toggle_listening_spec(current: RecordingState) -> RecordingState {
    if current == RecordingState::Inactive {
        RecordingState::Listening
    } else {
        RecordingState::Inactive
    }
}

/// The state that toggling listening leads to.
pub fn toggle_listening(current: RecordingState) -> (next: RecordingState)
    ensures
        next == toggle_listening_spec(current),
{
    match current {
        RecordingState::Inactive => RecordingState::Listening,
        _ => RecordingState::Inactive,
    }
}

/// What happened to the recording session, as reported back by the audio side.
#[derive(Debug, Clone, Copy, PartialEq, Eq, Structural)]
pub enum SessionEvent {
    /// The microphone stream was opened and is capturing.
    CaptureStarted,
    /// The microphone stream was closed after capturing this many samples.
    CaptureStopped { samples: usize },
    /// Transcription ended, whether it produced text or an error.
    TranscriptionFinished,
}

/// The state the controller enters after a session event.
pub open spec fn session_step_spec(event: SessionEvent) -> RecordingState {
    match event {
        SessionEvent::CaptureStarted => RecordingState::Recording,
        SessionEvent::CaptureStopped { samples } => if samples == 0 {
            RecordingState::Listening
        } else {
            RecordingState::Transcribing
        },
        SessionEvent::TranscriptionFinished => RecordingState::Listening,
    }
}

/// The state after a session event: an opened stream means `Recording`; a
/// stopped stream with nothing captured returns straight to `Listening`, one
/// with audio moves on to `Transcribing`; a finished transcription, successful
/// or not, returns to `Listening`.
pub fn session_step(event: SessionEvent) -> (next: RecordingState)
    ensures
        next == session_step_spec(event),
{
    match event {
        SessionEvent::CaptureStarted => RecordingState::Recording,
        SessionEvent::CaptureStopped { samples } => {
            if samples == 0 {
                RecordingState::Listening
            } else {
                RecordingState::Transcribing
            }
        },
        SessionEvent::TranscriptionFinished => RecordingState::Listening,
    }
}

/// Every state is reported under its own name, so a listener can tell them apart.
pub proof fn lemma_state_names_distinct(a: RecordingState, b: RecordingState)
    ensures
        a != b ==> state_name(a) != state_name(b),
{
    reveal_strlit("Inactive");
    reveal_strlit("Listening");
    reveal_strlit("Recording");
    reveal_strlit("Transcribing");
    if a != b {
        assert(state_name(a)[0] != state_name(b)[0] || state_name(a).len() != state_name(b).len());
    }
}

/// Toggling listening twice from `Inactive` or from `Listening` comes back to
/// where it started; the toggle only ever leads to `Inactive` or `Listening`,
/// so it never opens the microphone; and it leads to `Listening` exactly from
/// `Inactive`.
pub proof fn lemma_toggle_listening_twice(s: RecordingState)
    ensures
        s == RecordingState::Inactive || s == RecordingState::Listening ==>
            toggle_listening_spec(toggle_listening_spec(s)) == s,
        toggle_listening_spec(s) == RecordingState::Inactive || toggle_listening_spec(s)
            == RecordingState::Listening,
        toggle_listening_spec(s) == RecordingState::Listening <==> s == RecordingState::Inactive,
{
}

} // verus!
