use voice_to_text::audio_duck::parse_volume;
use voice_to_text::config::{
    available_models, chunk_samples_for, config_path, data_dir, display_shortcut,
    is_dangerous_shortcut, model_path_for, models_dir, transcripts_path, vad_model_path,
    validate_shortcut, Config, RecordingMode, RecordingState,
};
use voice_to_text::text::parse_u32;
use voice_to_text::transcribe::{clean_transcription, is_hallucination, pad_to_min, TranscribeResult};
use voice_to_text::tray::truncate_for_menu;

#[test]
fn test_parse_volume() {
    // Typical PulseAudio output
    let output = "Volume: front-left: 49152 /  75% / -7.50 dB,   front-right: 49152 /  75% / -7.50 dB";
    assert_eq!(parse_volume(output), Some(75));

    // 100%
    let output = "Volume: front-left: 65536 / 100% / 0.00 dB,   front-right: 65536 / 100% / 0.00 dB";
    assert_eq!(parse_volume(output), Some(100));

    // 0%
    let output = "Volume: front-left: 0 /   0% / -inf dB,   front-right: 0 /   0% / -inf dB";
    assert_eq!(parse_volume(output), Some(0));
}

#[test]
fn parse_volume_rejects_unparseable_output() {
    assert_eq!(parse_volume(""), None);
    assert_eq!(parse_volume("no percent here / at all"), None);
    assert_eq!(parse_volume("Volume: muted"), None);
}

#[test]
fn parse_u32_matches_standard_parsing() {
    assert_eq!(parse_u32("75"), Some(75));
    assert_eq!(parse_u32("+75"), Some(75));
    assert_eq!(parse_u32("0"), Some(0));
    assert_eq!(parse_u32("4294967295"), Some(u32::MAX));
    assert_eq!(parse_u32("4294967296"), None);
    assert_eq!(parse_u32(""), None);
    assert_eq!(parse_u32("+"), None);
    assert_eq!(parse_u32("12a"), None);
    assert_eq!(parse_u32("-1"), None);
}

#[test]
fn display_shortcut_prettifies_parts() {
    assert_eq!(display_shortcut("ctrl+shift+a"), "Ctrl + Shift + A");
    assert_eq!(display_shortcut("super+scrolllock"), "Super + Scroll Lock");
    assert_eq!(display_shortcut("alt+f4"), "Alt + F4");
    assert_eq!(display_shortcut("ctrl+space"), "Ctrl + Space");
    assert_eq!(display_shortcut("ctrl+leftbracket"), "Ctrl + [");
    assert_eq!(display_shortcut("pageup"), "Page Up");
}

#[test]
fn dangerous_shortcuts_are_detected_case_insensitively() {
    assert!(is_dangerous_shortcut("ctrl+c"));
    assert!(is_dangerous_shortcut("Ctrl+C"));
    assert!(is_dangerous_shortcut("alt+f4"));
    assert!(is_dangerous_shortcut("ctrl+shift+t"));
    assert!(!is_dangerous_shortcut("ctrl+space"));
    assert!(!is_dangerous_shortcut("ctrl+shift+l"));
}

#[test]
fn validate_shortcut_names_each_failure() {
    assert_eq!(validate_shortcut(""), Err("No shortcut entered"));
    assert_eq!(validate_shortcut("ctrl+shift"), Err("Press a non-modifier key"));
    assert_eq!(validate_shortcut("a"), Err("Add a modifier (Ctrl, Alt, Shift, Super)"));
    assert_eq!(validate_shortcut("f5"), Ok(()));
    assert_eq!(validate_shortcut("scroll_lock"), Ok(()));
    assert_eq!(validate_shortcut("ctrl+space"), Ok(()));
    assert_eq!(validate_shortcut("ctrl+shift+l"), Ok(()));
}

#[test]
fn hallucination_filter_matches_known_artifacts() {
    assert!(is_hallucination("[MUSIC]"));
    assert!(is_hallucination(" (laughs) "));
    assert!(is_hallucination("you"));
    assert!(is_hallucination("Thank you."));
    assert!(is_hallucination("Thanks for watching!"));
    assert!(is_hallucination("Bye."));
    assert!(is_hallucination("..."));
    assert!(!is_hallucination("thank you very much"));
    assert!(!is_hallucination("hello world"));
}

#[test]
fn clean_transcription_trims_and_filters() {
    assert_eq!(clean_transcription("  hello there  "), Some("hello there".to_string()));
    assert_eq!(clean_transcription("   "), None);
    assert_eq!(clean_transcription(""), None);
    assert_eq!(clean_transcription(" [BLANK_AUDIO] "), None);
    assert_eq!(clean_transcription("you"), None);
}

#[test]
fn pad_to_min_appends_trailing_silence_only() {
    let mut chunk: Vec<i16> = vec![5; 100];
    pad_to_min(&mut chunk);
    assert_eq!(chunk.len(), 16000);
    assert!(chunk[..100].iter().all(|&s| s == 5));
    assert!(chunk[100..].iter().all(|&s| s == 0));

    let mut long: Vec<i16> = vec![5; 20000];
    pad_to_min(&mut long);
    assert_eq!(long.len(), 20000);
}

#[test]
fn sentinel_outcome_roundtrip() {
    let s = TranscribeResult::sentinel();
    assert!(s.is_sentinel());
    assert_eq!(s.process_time_ms, 0);
    let r = TranscribeResult { text: "words".to_string(), process_time_ms: 9 };
    assert!(!r.is_sentinel());
}

#[test]
fn truncate_for_menu_flattens_and_cuts() {
    assert_eq!(truncate_for_menu("  hello\nworld  ", 20), "hello world");
    assert_eq!(truncate_for_menu("abcdefghij", 5), "abcde...");
    assert_eq!(truncate_for_menu("short", 5), "short");
    assert_eq!(truncate_for_menu("", 5), "");
}

#[test]
fn paths_derive_from_home() {
    assert_eq!(config_path("/home/u"), "/home/u/.config/voice-to-text/config.toml");
    assert_eq!(data_dir("/home/u"), "/home/u/.local/share/voice-to-text");
    assert_eq!(models_dir("/home/u"), "/home/u/.local/share/voice-to-text/models");
    assert_eq!(
        transcripts_path("/home/u"),
        "/home/u/.local/share/voice-to-text/transcripts.json"
    );
    assert_eq!(
        model_path_for("/home/u", "m.bin"),
        "/home/u/.local/share/voice-to-text/models/m.bin"
    );
    assert_eq!(
        vad_model_path("/home/u"),
        "/home/u/.local/share/voice-to-text/models/ten-vad.onnx"
    );
}

#[test]
fn config_defaults_and_chunk_clamping() {
    let cfg = Config::default();
    assert_eq!(cfg.model, "ggml-base.en-q8_0.bin");
    assert!(cfg.clipboard_auto_copy);
    assert!(!cfg.use_vad);
    assert_eq!(cfg.chunk_duration_ms, 3000);
    assert!(matches!(cfg.recording_mode, RecordingMode::PushToTalk));
    assert_eq!(cfg.shortcut, "ctrl+space");
    assert_eq!(cfg.transcript_shortcut, "ctrl+shift+t");
    assert_eq!(cfg.always_listen_shortcut, "ctrl+shift+l");
    assert_eq!(cfg.max_transcripts, 0);

    // Three seconds at 16 kHz, and out-of-range durations are clamped.
    assert_eq!(cfg.chunk_samples(), 48000);
    assert_eq!(chunk_samples_for(100), 32000);
    assert_eq!(chunk_samples_for(20000), 160000);

    let models = available_models();
    assert_eq!(models.len(), 3);
    assert_eq!(models[0].filename, cfg.model);
}

#[test]
fn recording_state_predicate() {
    assert!(!RecordingState::Idle.is_recording());
    assert!(RecordingState::PushToTalk.is_recording());
    assert!(RecordingState::AlwaysListen.is_recording());
}
