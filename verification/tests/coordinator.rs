use voice_to_text::config::{ActiveBackend, AppCommand, Config, RecordingState, DRAIN_TIMEOUT_MS};
use voice_to_text::coordinator::{should_buffer, Action, Coordinator};
use voice_to_text::tray::TrayUpdate;
use voice_to_text::transcribe::TranscribeResult;
use voice_to_text::vad::VadCommand;

fn outcome(text: &str, ms: u64) -> TranscribeResult {
    TranscribeResult { text: text.to_string(), process_time_ms: ms }
}

#[test]
fn buffering_policy_all_four_combinations() {
    assert!(should_buffer(RecordingState::PushToTalk, ActiveBackend::GlobalHotkey));
    assert!(!should_buffer(RecordingState::PushToTalk, ActiveBackend::Evdev));
    assert!(!should_buffer(RecordingState::AlwaysListen, ActiveBackend::GlobalHotkey));
    assert!(!should_buffer(RecordingState::AlwaysListen, ActiveBackend::Evdev));
}

#[test]
fn drain_timeout_returns_to_idle() {
    assert_eq!(DRAIN_TIMEOUT_MS, 10_000);
    let mut c = Coordinator::new(Config::default());
    c.handle_command(AppCommand::StartRecording, 0);
    assert_eq!(c.state, RecordingState::PushToTalk);

    let (actions, sess) = c.handle_command(AppCommand::StopRecording, 1000);
    let sess = sess.expect("a stop begins the drain");
    // Idle at once, before any drain message.
    assert_eq!(c.state, RecordingState::Idle);
    assert!(matches!(actions[0], Action::StopCapture));
    assert!(matches!(actions[1], Action::SegmenterCmd(VadCommand::Flush)));

    // The sentinel never arrives; the caller abandons the wait at the
    // timeout and the coordinator is still consistently idle.
    let finish = c.finish_stop(&sess, true);
    assert!(matches!(finish[0], Action::DrainTimeoutWarning));
    assert!(matches!(
        finish.last().unwrap(),
        Action::Tray(TrayUpdate::State(RecordingState::Idle))
    ));
    assert_eq!(c.state, RecordingState::Idle);

    // A new session can start immediately.
    let (actions, _) = c.handle_command(AppCommand::StartRecording, 2000);
    assert!(matches!(actions[0], Action::StartCapture));
    assert_eq!(c.state, RecordingState::PushToTalk);
}

#[test]
fn mute_notification_is_rate_limited() {
    let mut c = Coordinator::new(Config::default());
    c.handle_command(AppCommand::MicMuteChanged(true), 0);

    let (a, _) = c.handle_command(AppCommand::StartRecording, 5000);
    assert_eq!(a.len(), 1);
    assert!(matches!(a[0], Action::MuteNotice));
    assert_eq!(c.state, RecordingState::Idle);

    // Within three seconds: silently ignored.
    let (a, _) = c.handle_command(AppCommand::ToggleRecording, 6500);
    assert!(a.is_empty());

    // After the interval: notified again.
    let (a, _) = c.handle_command(AppCommand::ToggleRecording, 8000);
    assert_eq!(a.len(), 1);
    assert!(matches!(a[0], Action::MuteNotice));

    // Unmuting lets a start through.
    c.handle_command(AppCommand::MicMuteChanged(false), 9000);
    let (a, _) = c.handle_command(AppCommand::ToggleRecording, 9500);
    assert!(matches!(a[0], Action::StartCapture));
    assert_eq!(c.state, RecordingState::AlwaysListen);
}

#[test]
fn always_listen_toggle_never_interrupts_push_to_talk() {
    let mut c = Coordinator::new(Config::default());
    c.handle_command(AppCommand::StartRecording, 0);
    assert_eq!(c.state, RecordingState::PushToTalk);

    let (a, sess) = c.handle_command(AppCommand::ToggleAlwaysListen, 100);
    assert!(a.is_empty());
    assert!(sess.is_none());
    assert_eq!(c.state, RecordingState::PushToTalk);
}

#[test]
fn live_output_buffers_only_on_fallback_backend() {
    // Push-to-talk on the fallback backend: buffered, nothing typed yet.
    let mut c = Coordinator::new(Config::default());
    c.handle_command(AppCommand::StartRecording, 0);
    let a = c.handle_live_result(outcome("hello", 40));
    assert!(a.is_empty());
    assert_eq!(c.session_text.len(), 1);
    assert_eq!(c.session_process_ms, 40);

    // The drain types the joined text exactly once, then persists it.
    let (_, sess) = c.handle_command(AppCommand::StopRecording, 100);
    let sess = sess.unwrap();
    let (done, a) = c.drain_step(&sess, outcome("world", 60));
    assert!(!done);
    assert!(a.is_empty());
    let (done, a) = c.drain_step(&sess, TranscribeResult::sentinel());
    assert!(done && a.is_empty());
    let finish = c.finish_stop(&sess, false);
    assert!(matches!(&finish[0], Action::TypeText(t) if t == "hello world"));
    assert!(matches!(&finish[1], Action::SaveTranscript(t, 100) if t == "hello world"));
    assert!(matches!(&finish[2], Action::CopyToClipboard(t) if t == "hello world"));
    assert!(matches!(finish[3], Action::Tray(TrayUpdate::RefreshTranscripts)));
    assert!(matches!(finish[4], Action::Tray(TrayUpdate::State(RecordingState::Idle))));
    assert_eq!(finish.len(), 5);
}

#[test]
fn live_output_types_immediately_on_kernel_backend() {
    let mut c = Coordinator::new(Config::default());
    c.handle_command(AppCommand::HotkeyBackendResolved(ActiveBackend::Evdev), 0);
    c.handle_command(AppCommand::StartRecording, 0);
    let a = c.handle_live_result(outcome("hi", 10));
    assert_eq!(a.len(), 1);
    assert!(matches!(&a[0], Action::TypeText(t) if t == "hi"));
}

#[test]
fn always_listen_persists_each_fragment_live() {
    let mut c = Coordinator::new(Config::default());
    c.handle_command(AppCommand::ToggleRecording, 0);
    assert_eq!(c.state, RecordingState::AlwaysListen);

    let a = c.handle_live_result(outcome("first", 25));
    assert!(matches!(&a[0], Action::TypeText(t) if t == "first"));
    assert!(matches!(&a[1], Action::SaveTranscript(t, 25) if t == "first"));
    assert!(matches!(&a[2], Action::CopyToClipboard(t) if t == "first"));
    assert!(matches!(a[3], Action::Tray(TrayUpdate::RefreshTranscripts)));

    // On stop, drain fragments are saved individually and the joined text
    // is not re-emitted.
    let (_, sess) = c.handle_command(AppCommand::ToggleRecording, 100);
    let sess = sess.unwrap();
    let (done, a) = c.drain_step(&sess, outcome("second", 5));
    assert!(!done);
    assert!(matches!(&a[0], Action::TypeText(t) if t == "second"));
    assert!(matches!(&a[1], Action::SaveTranscript(t, 5) if t == "second"));
    assert!(matches!(a[2], Action::Tray(TrayUpdate::RefreshTranscripts)));
    c.drain_step(&sess, TranscribeResult::sentinel());
    let finish = c.finish_stop(&sess, false);
    assert_eq!(finish.len(), 1);
    assert!(matches!(finish[0], Action::Tray(TrayUpdate::State(RecordingState::Idle))));
}

#[test]
fn sentinel_and_idle_results_are_ignored() {
    let mut c = Coordinator::new(Config::default());
    // Idle: stray results do nothing.
    let a = c.handle_live_result(outcome("stray", 1));
    assert!(a.is_empty());
    assert_eq!(c.session_text.len(), 0);

    // Recording: the empty sentinel is never accumulated.
    c.handle_command(AppCommand::StartRecording, 0);
    let a = c.handle_live_result(TranscribeResult::sentinel());
    assert!(a.is_empty());
    assert_eq!(c.session_text.len(), 0);
}

#[test]
fn quit_while_recording_drains_first() {
    let mut c = Coordinator::new(Config::default());
    c.handle_command(AppCommand::ToggleRecording, 0);
    let (actions, sess) = c.handle_command(AppCommand::Quit, 50);
    let sess = sess.expect("quit while recording drains first");
    assert!(sess.quit_after);
    assert!(matches!(actions[0], Action::StopCapture));
    let finish = c.finish_stop(&sess, false);
    let n = finish.len();
    assert!(matches!(finish[n - 2], Action::Tray(TrayUpdate::Quit)));
    assert!(matches!(finish[n - 1], Action::Shutdown));

    // Quit while idle shuts down directly.
    let mut c = Coordinator::new(Config::default());
    let (actions, sess) = c.handle_command(AppCommand::Quit, 0);
    assert!(sess.is_none());
    assert!(matches!(actions[0], Action::Tray(TrayUpdate::Quit)));
    assert!(matches!(actions[1], Action::Shutdown));
}

#[test]
fn empty_session_saves_nothing_on_stop() {
    let mut c = Coordinator::new(Config::default());
    c.handle_command(AppCommand::StartRecording, 0);
    let (_, sess) = c.handle_command(AppCommand::StopRecording, 10);
    let sess = sess.unwrap();
    c.drain_step(&sess, TranscribeResult::sentinel());
    let finish = c.finish_stop(&sess, false);
    assert_eq!(finish.len(), 1);
    assert!(matches!(finish[0], Action::Tray(TrayUpdate::State(RecordingState::Idle))));
}

#[test]
fn reload_config_reloads_model_only_when_changed() {
    let mut c = Coordinator::new(Config::default());
    let (a, _) = c.handle_command(AppCommand::ReloadConfig, 0);
    assert_eq!(a.len(), 1);
    assert!(matches!(a[0], Action::LoadConfig));

    // Unchanged model: three reload commands, no transcriber reload.
    let a = c.apply_config(Config::default());
    assert_eq!(a.len(), 3);
    assert!(matches!(a[0], Action::SegmenterCmd(VadCommand::ReloadModel)));
    assert!(matches!(a[1], Action::SegmenterCmd(VadCommand::ReloadConfig)));
    assert!(matches!(a[2], Action::HotkeysReload));

    // A new model file name reloads the transcriber first.
    let mut cfg = Config::default();
    cfg.model = "ggml-small.en-q8_0.bin".to_string();
    let a = c.apply_config(cfg);
    assert_eq!(a.len(), 4);
    assert!(matches!(&a[0], Action::TranscriberReload(m) if m == "ggml-small.en-q8_0.bin"));
}

#[test]
fn session_accumulator_resets_at_start() {
    let mut c = Coordinator::new(Config::default());
    c.handle_command(AppCommand::ToggleRecording, 0);
    c.handle_live_result(outcome("old text", 30));
    let (_, sess) = c.handle_command(AppCommand::ToggleRecording, 10);
    c.finish_stop(&sess.unwrap(), true);
    assert_eq!(c.session_text.len(), 1);

    // The next start clears the accumulator.
    c.handle_command(AppCommand::ToggleRecording, 20);
    assert_eq!(c.session_text.len(), 0);
    assert_eq!(c.session_process_ms, 0);
}

#[test]
fn copy_and_ui_commands_forward_to_tray() {
    let mut c = Coordinator::new(Config::default());
    let (a, _) = c.handle_command(AppCommand::OpenSettings, 0);
    assert!(matches!(a[0], Action::Tray(TrayUpdate::OpenSettings)));
    let (a, _) = c.handle_command(AppCommand::OpenTranscripts, 0);
    assert!(matches!(a[0], Action::Tray(TrayUpdate::OpenTranscripts)));
    let (a, _) = c.handle_command(AppCommand::CopyTranscript("snippet".to_string()), 0);
    assert!(matches!(&a[0], Action::Tray(TrayUpdate::CopyToClipboard(t)) if t == "snippet"));
    let (a, _) = c.handle_command(AppCommand::HotkeyBackendResolved(ActiveBackend::Evdev), 0);
    assert!(matches!(a[0], Action::Tray(TrayUpdate::BackendInfo(ActiveBackend::Evdev))));
    assert_eq!(c.active_backend, ActiveBackend::Evdev);
}
