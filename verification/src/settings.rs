use vstd::prelude::*;

use crate::hotkeys::{HotkeyBinding, register_hotkeys, binding_view, hotkey_plan};
use crate::text::option_string_view;

verus! {

/// Where speech is turned into text.
#[derive(Debug, Clone, Copy, PartialEq, Eq, Structural)]
pub enum TranscriptionBackend {
    /// A whisper model on this machine.
    Local,
    /// The Groq transcription service.
    Groq,
}

/// The size of the local whisper model.
#[derive(Debug, Clone, Copy, PartialEq, Eq, Structural)]
pub enum LocalModel {
    Base,
    Small,
    Medium,
}

/// The canonical name of a local model.
pub open spec fn model_name(m: LocalModel) -> Seq<char> {
    match m {
        LocalModel::Base => "Base"@,
        LocalModel::Small => "Small"@,
        LocalModel::Medium => "Medium"@,
    }
}

impl LocalModel {
    /// The canonical name of the model, as shown in the model list.
    pub fn as_str(&self) -> (name: &'static str)
        ensures
            name@ == model_name(*self),
    {
        match self {
            LocalModel::Base => "Base",
            LocalModel::Small => "Small",
            LocalModel::Medium => "Medium",
        }
    }
}

/// Every user-configurable setting.
#[derive(Debug, Clone)]
pub struct AppSettings {
    pub backend: TranscriptionBackend,
    pub groq_api_key: String,
    pub local_model: LocalModel,
    pub input_device: Option<String>,
    pub toggle_app_hotkey: Option<String>,
    pub global_hotkey: Option<String>,
    pub ptt_hotkey: Option<String>,
}

impl Default for AppSettings {
    /// Local transcription with the base model, no API key, the system's
    /// default microphone and no shortcuts.
    fn default() -> (s: Self)
        ensures
            s.backend == TranscriptionBackend::Local,
            s.groq_api_key@ == Seq::<char>::empty(),
            s.local_model == LocalModel::Base,
            s.input_device is None,
            s.toggle_app_hotkey is None,
            s.global_hotkey is None,
            s.ptt_hotkey is None,
    {
        AppSettings {
            backend: TranscriptionBackend::Local,
            groq_api_key: String::new(),
            local_model: LocalModel::Base,
            input_device: None,
            toggle_app_hotkey: None,
            global_hotkey: None,
            ptt_hotkey: None,
        }
    }
}

/// What has to happen once new settings are stored.
pub struct SaveEffects {
    /// The shortcuts to register in place of the current ones.
    pub hotkeys: Vec<HotkeyBinding>,
    /// Whether the selected local model should be loaded into the model cache
    /// in the background (the cache is emptied in any case).
    pub warm_model_cache: bool,
}

/// The follow-up work of saving settings: the shortcuts are registered anew
/// from the saved settings, and the model cache is warmed exactly when the
/// local backend is selected and its model file is on disk
/// (`model_file_exists`).
pub fn save_effects(settings: &AppSettings, model_file_exists: bool) -> (e: SaveEffects)
    ensures
        e.hotkeys@.map_values(|b: HotkeyBinding| binding_view(b)) == hotkey_plan(
            option_string_view(settings.toggle_app_hotkey),
            option_string_view(settings.global_hotkey),
            option_string_view(settings.ptt_hotkey),
        ),
        e.warm_model_cache == (settings.backend == TranscriptionBackend::Local
            && model_file_exists),
{
    let hotkeys = register_hotkeys(
        &settings.toggle_app_hotkey,
        &settings.global_hotkey,
        &settings.ptt_hotkey,
    );
    let local = match settings.backend {
        TranscriptionBackend::Local => true,
        TranscriptionBackend::Groq => false,
    };
    SaveEffects { hotkeys, warm_model_cache: local && model_file_exists }
}

} // verus!
