use spkr::models::{add_downloaded, model_catalog, model_filename, model_info, model_url};
use spkr::settings::{save_effects, AppSettings, LocalModel, TranscriptionBackend};
use spkr::hotkeys::HotkeyKind;

#[test]
fn default_settings() {
    let s = AppSettings::default();
    assert_eq!(s.backend, TranscriptionBackend::Local);
    assert_eq!(s.groq_api_key, "");
    assert_eq!(s.local_model, LocalModel::Base);
    assert!(s.input_device.is_none());
    assert!(s.toggle_app_hotkey.is_none());
    assert!(s.global_hotkey.is_none());
    assert!(s.ptt_hotkey.is_none());
}

#[test]
fn local_model_names() {
    assert_eq!(LocalModel::Base.as_str(), "Base");
    assert_eq!(LocalModel::Small.as_str(), "Small");
    assert_eq!(LocalModel::Medium.as_str(), "Medium");
}

#[test]
fn save_effects_warm_only_local_with_file() {
    let mut s = AppSettings::default();
    assert!(save_effects(&s, true).warm_model_cache);
    assert!(!save_effects(&s, false).warm_model_cache);
    s.backend = TranscriptionBackend::Groq;
    assert!(!save_effects(&s, true).warm_model_cache);
}

#[test]
fn save_effects_reregister_hotkeys() {
    let mut s = AppSettings::default();
    s.global_hotkey = Some("Ctrl+Space".to_string());
    s.ptt_hotkey = Some("Ctrl+Space".to_string());
    let e = save_effects(&s, false);
    assert_eq!(e.hotkeys.len(), 1);
    assert_eq!(e.hotkeys[0].kind, HotkeyKind::Toggle);
    assert_eq!(e.hotkeys[0].shortcut, "Ctrl+Space");
}

#[test]
fn model_files() {
    assert_eq!(model_filename(&LocalModel::Base), "ggml-base.en.bin");
    assert_eq!(model_filename(&LocalModel::Small), "ggml-small.en.bin");
    assert_eq!(model_filename(&LocalModel::Medium), "ggml-medium.en.bin");
}

#[test]
fn model_urls() {
    assert_eq!(
        model_url(&LocalModel::Small),
        "https://huggingface.co/ggerganov/whisper.cpp/resolve/main/ggml-small.en.bin"
    );
    assert_eq!(
        model_url(&LocalModel::Base),
        "https://huggingface.co/ggerganov/whisper.cpp/resolve/main/ggml-base.en.bin"
    );
}

#[test]
fn catalogue_order() {
    assert_eq!(model_catalog(), vec![LocalModel::Base, LocalModel::Small, LocalModel::Medium]);
}

#[test]
fn catalogue_files_distinct() {
    let files: Vec<&str> = model_catalog().iter().map(model_filename).collect();
    for i in 0..files.len() {
        for j in (i + 1)..files.len() {
            assert_ne!(files[i], files[j]);
        }
    }
}

#[test]
fn model_info_downloaded() {
    let info = model_info(&LocalModel::Medium, true, Some(1_533_763_059));
    assert_eq!(info.model, "Medium");
    assert_eq!(info.filename, "ggml-medium.en.bin");
    assert!(info.downloaded);
    assert_eq!(info.size_bytes, Some(1_533_763_059));
}

#[test]
fn model_info_missing_has_no_size() {
    let info = model_info(&LocalModel::Base, false, Some(42));
    assert!(!info.downloaded);
    assert_eq!(info.size_bytes, None);
    let info = model_info(&LocalModel::Base, true, None);
    assert_eq!(info.size_bytes, None);
}

#[test]
fn download_counter() {
    assert_eq!(add_downloaded(0, 8192), 8192);
    assert_eq!(add_downloaded(100, 0), 100);
    assert_eq!(add_downloaded(u64::MAX - 5, 5), u64::MAX);
}

#[test]
fn download_error_text() {
    assert_eq!(spkr::models::download_status_error("404 Not Found"), "HTTP 404 Not Found");
}
