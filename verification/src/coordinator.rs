//! The session coordinator: the central state machine that owns the
//! recording-session lifecycle.
//!
//! Every hotkey, tray, IPC and mute event arrives as one [`AppCommand`];
//! the coordinator answers with a list of [`Action`]s for the surrounding
//! process to perform (start or stop capture, type text, persist a
//! transcript, update the tray) and never performs I/O itself.
//!
//! Stopping follows the stop-and-drain protocol: [`Coordinator::handle_command`]
//! marks the state `Idle` at once and hands back a [`StopSession`]; the
//! caller then waits on the transcription channel — with a bounded timeout
//! — feeding every outcome to [`Coordinator::drain_step`] until the
//! sentinel arrives or the wait is abandoned, and concludes with
//! [`Coordinator::finish_stop`].  The coordinator is already idle
//! throughout the drain, so a stuck transcription stage can delay the
//! session's text but never the next session.

use vstd::prelude::*;

use crate::config::{ActiveBackend, AppCommand, Config, RecordingState, MUTE_NOTIFY_INTERVAL_MS};
use crate::text;
use crate::transcribe::TranscribeResult;
use crate::tray::TrayUpdate;
use crate::vad::VadCommand;

verus! {

/// One effect the surrounding process must perform on the coordinator's
/// behalf.
#[derive(Debug)]
pub enum Action {
    /// Begin feeding capture buffers into the pipeline.
    StartCapture,
    /// Stop the capture stream.
    StopCapture,
    /// Forward a command to the segmentation stage.
    SegmenterCmd(VadCommand),
    /// Ask the transcription stage to load the named model file.
    TranscriberReload(String),
    /// Ask the hotkey layer to re-read its bindings.
    HotkeysReload,
    /// Re-read the configuration from storage, then call
    /// [`Coordinator::apply_config`] with it.
    LoadConfig,
    /// Type text into the focused window.
    TypeText(String),
    /// Copy text to the system clipboard.
    CopyToClipboard(String),
    /// Persist one transcript entry: text and processing time.
    SaveTranscript(String, u64),
    /// Show the rate-limited mic-muted notification.
    MuteNotice,
    /// Warn that the drain was abandoned and audio may have been lost.
    DrainTimeoutWarning,
    /// Forward an update to the tray / UI thread.
    Tray(TrayUpdate),
    /// Tear the process down; always the last action ever emitted.
    Shutdown,
}

/// What `handle_command` hands back when a stop begins: the facts about
/// the session that just ended which the drain and the finalisation need.
pub struct StopSession {
    /// Typing was deferred during the session, so the joined text is typed
    /// once at the end.
    pub was_buffered: bool,
    /// The session streamed each fragment out as it arrived.
    pub was_always_listen: bool,
    /// Shut down once the drain concludes.
    pub quit_after: bool,
}

/// Typing must be deferred exactly when a push-to-talk session runs on the
/// window-system-level hotkey backend: there, synthetic typing manipulates
/// modifier state in a way that would register as the key being released.
pub open spec fn spec_should_buffer(state: RecordingState, backend: ActiveBackend) -> bool {
    state == RecordingState::PushToTalk && backend == ActiveBackend::GlobalHotkey
}

/// Decide [`spec_should_buffer`].
pub fn should_buffer(state: RecordingState, backend: ActiveBackend) -> (r: bool)
    ensures
        r == spec_should_buffer(state, backend),
{
    state == RecordingState::PushToTalk && backend == ActiveBackend::GlobalHotkey
}

/// Whether enough time has passed since the last mic-muted notification.
pub open spec fn mute_notice_due(last: Option<u64>, now_ms: u64) -> bool {
    match last {
        Option::None => true,
        Option::Some(t) => t + MUTE_NOTIFY_INTERVAL_MS <= now_ms,
    }
}

/// `a + b` saturating at the numeric limit.
pub open spec fn add_sat64(a: u64, b: u64) -> u64 {
    if a + b > u64::MAX {
        u64::MAX
    } else {
        (a + b) as u64
    }
}

/// The session coordinator's state.  It is the sole owner of the
/// recording state and the session accumulator.
pub struct Coordinator {
    /// The official recording state.
    pub state: RecordingState,
    /// Transcribed fragments of the current session, all non-empty.
    pub session_text: Vec<String>,
    /// Processing time accumulated over the session, in ms (saturating).
    pub session_process_ms: u64,
    /// Cached microphone-mute flag; gates new starts only.
    pub mic_muted: bool,
    /// Which hotkey backend resolved at startup.
    pub active_backend: ActiveBackend,
    /// The configuration snapshot currently in force.
    pub config: Config,
    /// When the mic-muted notification was last shown.
    pub last_mute_notify_ms: Option<u64>,
}

impl Coordinator {
    /// Invariant: every accumulated fragment is non-empty (empty text is
    /// reserved for the sentinel and never reaches the accumulator).
    pub open spec fn wf(self) -> bool {
        forall|i: int|
            0 <= i < self.session_text@.len() ==> (#[trigger] self.session_text@[i])@.len() > 0
    }

    /// The configuration, backend, mute flag and notification timer are
    /// untouched.
    pub open spec fn same_env(pre: Self, post: Self) -> bool {
        &&& post.mic_muted == pre.mic_muted
        &&& post.active_backend == pre.active_backend
        &&& post.config == pre.config
        &&& post.last_mute_notify_ms == pre.last_mute_notify_ms
    }

    /// The session accumulator is untouched.
    pub open spec fn same_session(pre: Self, post: Self) -> bool {
        &&& post.session_text@ == pre.session_text@
        &&& post.session_process_ms == pre.session_process_ms
    }

    /// The fragments of the session joined with single spaces.
    pub open spec fn session_joined(self) -> Seq<char> {
        text::join_with(text::str_views(self.session_text@), seq![' '])
    }

    pub fn new(config: Config) -> (c: Self)
        ensures
            c.wf(),
            c.state == RecordingState::Idle,
            c.session_text@.len() == 0,
            c.session_process_ms == 0,
            c.mic_muted == false,
            c.active_backend == ActiveBackend::GlobalHotkey,
            c.config == config,
            c.last_mute_notify_ms is None,
    {
        Coordinator {
            state: RecordingState::Idle,
            session_text: Vec::new(),
            session_process_ms: 0,
            mic_muted: false,
            active_backend: ActiveBackend::GlobalHotkey,
            config,
            last_mute_notify_ms: None,
        }
    }

    /// Start protocol: reset the session accumulator, begin capture, set
    /// the state, notify observers.
    pub fn start_recording(&mut self, target: RecordingState) -> (actions: Vec<Action>)
        requires
            old(self).wf(),
            target != RecordingState::Idle,
        ensures
            final(self).wf(),
            final(self).state == target,
            final(self).session_text@.len() == 0,
            final(self).session_process_ms == 0,
            Self::same_env(*old(self), *final(self)),
            actions@.len() == 2,
            actions@[0] is StartCapture,
            actions@[1] == Action::Tray(TrayUpdate::State(target)),
    {
        self.session_text.clear();
        self.session_process_ms = 0;
        self.state = target;
        let mut actions: Vec<Action> = Vec::new();
        actions.push(Action::StartCapture);
        actions.push(Action::Tray(TrayUpdate::State(target)));
        actions
    }

    /// First phase of the stop-and-drain protocol: stop capture, command
    /// the segmenter to flush, and mark the official state `Idle` at once
    /// so a slow drain cannot block new start commands.
    pub fn begin_stop(&mut self, quit_after: bool) -> (r: (Vec<Action>, StopSession))
        requires
            old(self).wf(),
            old(self).state != RecordingState::Idle,
        ensures
            final(self).wf(),
            final(self).state == RecordingState::Idle,
            Self::same_env(*old(self), *final(self)),
            Self::same_session(*old(self), *final(self)),
            r.0@.len() == 2,
            r.0@[0] is StopCapture,
            r.0@[1] == Action::SegmenterCmd(VadCommand::Flush),
            r.1.was_buffered == spec_should_buffer(old(self).state, old(self).active_backend),
            r.1.was_always_listen == (old(self).state == RecordingState::AlwaysListen),
            r.1.quit_after == quit_after,
    {
        let sess = StopSession {
            was_buffered: should_buffer(self.state, self.active_backend),
            was_always_listen: self.state == RecordingState::AlwaysListen,
            quit_after,
        };
        self.state = RecordingState::Idle;
        let mut actions: Vec<Action> = Vec::new();
        actions.push(Action::StopCapture);
        actions.push(Action::SegmenterCmd(VadCommand::Flush));
        (actions, sess)
    }

    /// Show the mic-muted notification, rate-limited: at most once per
    /// [`MUTE_NOTIFY_INTERVAL_MS`].
    fn mute_gate(&mut self, now_ms: u64) -> (actions: Vec<Action>)
        requires
            old(self).wf(),
        ensures
            final(self).wf(),
            final(self).state == old(self).state,
            Self::same_session(*old(self), *final(self)),
            final(self).mic_muted == old(self).mic_muted,
            final(self).active_backend == old(self).active_backend,
            final(self).config == old(self).config,
            mute_notice_due(old(self).last_mute_notify_ms, now_ms) ==> {
                &&& final(self).last_mute_notify_ms == Some(now_ms)
                &&& actions@.len() == 1
                &&& actions@[0] is MuteNotice
            },
            !mute_notice_due(old(self).last_mute_notify_ms, now_ms) ==> *final(self) == *old(self)
                && actions@.len() == 0,
    {
        let due = match self.last_mute_notify_ms {
            None => true,
            Some(t) => now_ms >= t && now_ms - t >= MUTE_NOTIFY_INTERVAL_MS,
        };
        let mut actions: Vec<Action> = Vec::new();
        if due {
            self.last_mute_notify_ms = Some(now_ms);
            actions.push(Action::MuteNotice);
        }
        actions
    }

    /// What a start command does from `Idle`: blocked (with a rate-limited
    /// notification) while the mic is muted, otherwise the start protocol
    /// toward `target`.
    pub open spec fn idle_start_case(
        pre: Self,
        post: Self,
        acts: Seq<Action>,
        now_ms: u64,
        target: RecordingState,
    ) -> bool {
        if pre.mic_muted {
            &&& post.state == pre.state
            &&& Self::same_session(pre, post)
            &&& post.mic_muted == pre.mic_muted
            &&& post.active_backend == pre.active_backend
            &&& post.config == pre.config
            &&& if mute_notice_due(pre.last_mute_notify_ms, now_ms) {
                &&& post.last_mute_notify_ms == Some(now_ms)
                &&& acts.len() == 1
                &&& acts[0] is MuteNotice
            } else {
                &&& post.last_mute_notify_ms == pre.last_mute_notify_ms
                &&& acts.len() == 0
            }
        } else {
            &&& post.state == target
            &&& post.session_text@.len() == 0
            &&& post.session_process_ms == 0
            &&& Self::same_env(pre, post)
            &&& acts.len() == 2
            &&& acts[0] is StartCapture
            &&& acts[1] == Action::Tray(TrayUpdate::State(target))
        }
    }

    /// What a stop command does: the first phase of stop-and-drain.
    pub open spec fn stop_case(
        pre: Self,
        post: Self,
        acts: Seq<Action>,
        sess: StopSession,
        quit_after: bool,
    ) -> bool {
        &&& post.state == RecordingState::Idle
        &&& Self::same_env(pre, post)
        &&& Self::same_session(pre, post)
        &&& acts.len() == 2
        &&& acts[0] is StopCapture
        &&& acts[1] == Action::SegmenterCmd(VadCommand::Flush)
        &&& sess.was_buffered == spec_should_buffer(pre.state, pre.active_backend)
        &&& sess.was_always_listen == (pre.state == RecordingState::AlwaysListen)
        &&& sess.quit_after == quit_after
    }

    /// Dispatch one command from the unified stream.  The second result is
    /// the stop-session context whenever the stop-and-drain protocol has
    /// begun; the caller then drains before handling anything else.
    pub fn handle_command(&mut self, cmd: AppCommand, now_ms: u64) -> (r: (
        Vec<Action>,
        Option<StopSession>,
    ))
        requires
            old(self).wf(),
        ensures
            final(self).wf(),
            // toggle: Idle starts an always-listen session, anything else stops
            cmd is ToggleRecording && old(self).state == RecordingState::Idle ==> r.1 is None
                && Self::idle_start_case(
                *old(self),
                *final(self),
                r.0@,
                now_ms,
                RecordingState::AlwaysListen,
            ),
            cmd is ToggleRecording && old(self).state != RecordingState::Idle ==> (r.1 matches Some(sess)
                && Self::stop_case(*old(self), *final(self), r.0@, sess, false)),
            // the always-listen toggle never interrupts push-to-talk
            cmd is ToggleAlwaysListen && old(self).state == RecordingState::Idle ==> r.1 is None
                && Self::idle_start_case(
                *old(self),
                *final(self),
                r.0@,
                now_ms,
                RecordingState::AlwaysListen,
            ),
            cmd is ToggleAlwaysListen && old(self).state == RecordingState::AlwaysListen
                ==> (r.1 matches Some(sess)
                && Self::stop_case(*old(self), *final(self), r.0@, sess, false)),
            cmd is ToggleAlwaysListen && old(self).state == RecordingState::PushToTalk
                ==> *final(self) == *old(self) && r.0@.len() == 0 && r.1 is None,
            // push-to-talk press / release
            cmd is StartRecording && old(self).state == RecordingState::Idle ==> r.1 is None
                && Self::idle_start_case(
                *old(self),
                *final(self),
                r.0@,
                now_ms,
                RecordingState::PushToTalk,
            ),
            cmd is StartRecording && old(self).state != RecordingState::Idle ==> *final(self)
                == *old(self) && r.0@.len() == 0 && r.1 is None,
            cmd is StopRecording && old(self).state == RecordingState::PushToTalk
                ==> (r.1 matches Some(sess)
                && Self::stop_case(*old(self), *final(self), r.0@, sess, false)),
            cmd is StopRecording && old(self).state != RecordingState::PushToTalk ==> *final(self)
                == *old(self) && r.0@.len() == 0 && r.1 is None,
            // forwarded to the UI thread
            cmd is OpenSettings ==> *final(self) == *old(self) && r.0@.len() == 1 && r.0@[0]
                == Action::Tray(TrayUpdate::OpenSettings) && r.1 is None,
            cmd is OpenTranscripts ==> *final(self) == *old(self) && r.0@.len() == 1 && r.0@[0]
                == Action::Tray(TrayUpdate::OpenTranscripts) && r.1 is None,
            // configuration is re-read from storage, then applied
            cmd is ReloadConfig ==> *final(self) == *old(self) && r.0@.len() == 1 && r.0@[0] is
                LoadConfig && r.1 is None,
            cmd matches AppCommand::HotkeyBackendResolved(b) ==> {
                &&& final(self).active_backend == b
                &&& final(self).state == old(self).state
                &&& Self::same_session(*old(self), *final(self))
                &&& final(self).mic_muted == old(self).mic_muted
                &&& final(self).config == old(self).config
                &&& final(self).last_mute_notify_ms == old(self).last_mute_notify_ms
                &&& r.0@.len() == 1
                &&& r.0@[0] == Action::Tray(TrayUpdate::BackendInfo(b))
                &&& r.1 is None
            },
            cmd matches AppCommand::CopyTranscript(t) ==> {
                &&& *final(self) == *old(self)
                &&& r.0@.len() == 1
                &&& r.0@[0] matches Action::Tray(u) && u matches TrayUpdate::CopyToClipboard(tt)
                    && tt@ == t@
                &&& r.1 is None
            },
            cmd matches AppCommand::MicMuteChanged(m) ==> {
                &&& final(self).mic_muted == m
                &&& final(self).state == old(self).state
                &&& Self::same_session(*old(self), *final(self))
                &&& final(self).active_backend == old(self).active_backend
                &&& final(self).config == old(self).config
                &&& final(self).last_mute_notify_ms == old(self).last_mute_notify_ms
                &&& r.0@.len() == 1
                &&& r.0@[0] == Action::Tray(TrayUpdate::MicMuted(m))
                &&& r.1 is None
            },
            // quit: drain first when recording, then shut down
            cmd is Quit && old(self).state != RecordingState::Idle ==> (r.1 matches Some(sess)
                && Self::stop_case(*old(self), *final(self), r.0@, sess, true)),
            cmd is Quit && old(self).state == RecordingState::Idle ==> *final(self) == *old(self)
                && r.0@.len() == 2 && r.0@[0] == Action::Tray(TrayUpdate::Quit) && r.0@[1] is
                Shutdown && r.1 is None,
    {
        match cmd {
            AppCommand::ToggleRecording => {
                if self.state == RecordingState::Idle {
                    if self.mic_muted {
                        (self.mute_gate(now_ms), None)
                    } else {
                        (self.start_recording(RecordingState::AlwaysListen), None)
                    }
                } else {
                    let (actions, sess) = self.begin_stop(false);
                    (actions, Some(sess))
                }
            },
            AppCommand::ToggleAlwaysListen => {
                match self.state {
                    RecordingState::Idle => {
                        if self.mic_muted {
                            (self.mute_gate(now_ms), None)
                        } else {
                            (self.start_recording(RecordingState::AlwaysListen), None)
                        }
                    },
                    RecordingState::AlwaysListen => {
                        let (actions, sess) = self.begin_stop(false);
                        (actions, Some(sess))
                    },
                    RecordingState::PushToTalk => (Vec::new(), None),
                }
            },
            AppCommand::StartRecording => {
                if self.state == RecordingState::Idle {
                    if self.mic_muted {
                        (self.mute_gate(now_ms), None)
                    } else {
                        (self.start_recording(RecordingState::PushToTalk), None)
                    }
                } else {
                    (Vec::new(), None)
                }
            },
            AppCommand::StopRecording => {
                if self.state == RecordingState::PushToTalk {
                    let (actions, sess) = self.begin_stop(false);
                    (actions, Some(sess))
                } else {
                    (Vec::new(), None)
                }
            },
            AppCommand::OpenSettings => {
                let mut actions: Vec<Action> = Vec::new();
                actions.push(Action::Tray(TrayUpdate::OpenSettings));
                (actions, None)
            },
            AppCommand::OpenTranscripts => {
                let mut actions: Vec<Action> = Vec::new();
                actions.push(Action::Tray(TrayUpdate::OpenTranscripts));
                (actions, None)
            },
            AppCommand::ReloadConfig => {
                let mut actions: Vec<Action> = Vec::new();
                actions.push(Action::LoadConfig);
                (actions, None)
            },
            AppCommand::HotkeyBackendResolved(b) => {
                self.active_backend = b;
                let mut actions: Vec<Action> = Vec::new();
                actions.push(Action::Tray(TrayUpdate::BackendInfo(b)));
                (actions, None)
            },
            AppCommand::CopyTranscript(t) => {
                let mut actions: Vec<Action> = Vec::new();
                actions.push(Action::Tray(TrayUpdate::CopyToClipboard(t)));
                (actions, None)
            },
            AppCommand::MicMuteChanged(m) => {
                self.mic_muted = m;
                let mut actions: Vec<Action> = Vec::new();
                actions.push(Action::Tray(TrayUpdate::MicMuted(m)));
                (actions, None)
            },
            AppCommand::Quit => {
                if self.state.is_recording() {
                    let (actions, sess) = self.begin_stop(true);
                    (actions, Some(sess))
                } else {
                    let mut actions: Vec<Action> = Vec::new();
                    actions.push(Action::Tray(TrayUpdate::Quit));
                    actions.push(Action::Shutdown);
                    (actions, None)
                }
            },
        }
    }

    /// Live-output policy, applied to every transcription outcome arriving
    /// while a session is active.  Text is accumulated; it is typed at
    /// once unless buffering is required, and an always-listen session
    /// additionally persists each fragment on its own.
    pub fn handle_live_result(&mut self, result: TranscribeResult) -> (actions: Vec<Action>)
        requires
            old(self).wf(),
        ensures
            final(self).wf(),
            final(self).state == old(self).state,
            Self::same_env(*old(self), *final(self)),
            (old(self).state == RecordingState::Idle || result.text@.len() == 0) ==> *final(self)
                == *old(self) && actions@.len() == 0,
            (old(self).state != RecordingState::Idle && result.text@.len() > 0) ==> {
                &&& final(self).session_text@ == old(self).session_text@.push(result.text)
                &&& final(self).session_process_ms == add_sat64(
                    old(self).session_process_ms,
                    result.process_time_ms,
                )
                &&& ({
                    let buffer = spec_should_buffer(old(self).state, old(self).active_backend);
                    let always = old(self).state == RecordingState::AlwaysListen;
                    let type_n: int = if buffer {
                        0
                    } else {
                        1
                    };
                    let copy = always && old(self).config.clipboard_auto_copy;
                    let persist_n: int = if always {
                        if copy {
                            3
                        } else {
                            2
                        }
                    } else {
                        0
                    };
                    &&& actions@.len() == type_n + persist_n
                    &&& (!buffer ==> (actions@[0] matches Action::TypeText(t) && t@
                        == result.text@))
                    &&& (always ==> (actions@[type_n] matches Action::SaveTranscript(t, ms) && t@
                        == result.text@ && ms == result.process_time_ms))
                    &&& (copy ==> (actions@[type_n + 1] matches Action::CopyToClipboard(t) && t@
                        == result.text@))
                    &&& (always ==> actions@[type_n + persist_n - 1] == Action::Tray(
                        TrayUpdate::RefreshTranscripts,
                    ))
                })
            },
    {
        if self.state.is_recording() && !result.is_sentinel() {
            let TranscribeResult { text, process_time_ms } = result;
            self.session_text.push(text.clone());
            self.session_process_ms = self.session_process_ms.saturating_add(process_time_ms);
            let buffer = should_buffer(self.state, self.active_backend);
            let always = self.state == RecordingState::AlwaysListen;
            let mut actions: Vec<Action> = Vec::new();
            if !buffer {
                actions.push(Action::TypeText(text.clone()));
            }
            if always {
                actions.push(Action::SaveTranscript(text.clone(), process_time_ms));
                if self.config.clipboard_auto_copy {
                    actions.push(Action::CopyToClipboard(text.clone()));
                }
                actions.push(Action::Tray(TrayUpdate::RefreshTranscripts));
            }
            actions
        } else {
            Vec::new()
        }
    }

    /// One outcome received while draining after a stop.  The sentinel
    /// concludes the drain; anything else is accumulated, typed at once
    /// unless the session buffered, and persisted on its own for an
    /// always-listen session.  The state — already `Idle` — is never
    /// touched, so an abandoned drain leaves the coordinator consistent.
    pub fn drain_step(&mut self, sess: &StopSession, result: TranscribeResult) -> (r: (
        bool,
        Vec<Action>,
    ))
        requires
            old(self).wf(),
        ensures
            final(self).wf(),
            final(self).state == old(self).state,
            Self::same_env(*old(self), *final(self)),
            result.text@.len() == 0 ==> r.0 && *final(self) == *old(self) && r.1@.len() == 0,
            result.text@.len() > 0 ==> {
                &&& !r.0
                &&& final(self).session_text@ == old(self).session_text@.push(result.text)
                &&& final(self).session_process_ms == add_sat64(
                    old(self).session_process_ms,
                    result.process_time_ms,
                )
                &&& ({
                    let type_n: int = if sess.was_buffered {
                        0
                    } else {
                        1
                    };
                    let persist_n: int = if sess.was_always_listen {
                        2
                    } else {
                        0
                    };
                    &&& r.1@.len() == type_n + persist_n
                    &&& (!sess.was_buffered ==> (r.1@[0] matches Action::TypeText(t) && t@
                        == result.text@))
                    &&& (sess.was_always_listen ==> (r.1@[type_n] matches Action::SaveTranscript(
                        t,
                        ms,
                    ) && t@ == result.text@ && ms == result.process_time_ms))
                    &&& (sess.was_always_listen ==> r.1@[type_n + 1] == Action::Tray(
                        TrayUpdate::RefreshTranscripts,
                    ))
                })
            },
    {
        if result.is_sentinel() {
            (true, Vec::new())
        } else {
            let TranscribeResult { text, process_time_ms } = result;
            self.session_text.push(text.clone());
            self.session_process_ms = self.session_process_ms.saturating_add(process_time_ms);
            let mut actions: Vec<Action> = Vec::new();
            if !sess.was_buffered {
                actions.push(Action::TypeText(text.clone()));
            }
            if sess.was_always_listen {
                actions.push(Action::SaveTranscript(text, process_time_ms));
                actions.push(Action::Tray(TrayUpdate::RefreshTranscripts));
            }
            (false, actions)
        }
    }

    /// The actions that conclude a stop.  An always-listen session already
    /// streamed everything out, so only the tray is refreshed to idle;
    /// otherwise the joined text — when there is any — is typed now if the
    /// session buffered, persisted as one entry with the summed processing
    /// time, and optionally copied to the clipboard.
    pub open spec fn finish_actions_ok(
        pre: Self,
        sess: StopSession,
        timed_out: bool,
        acts: Seq<Action>,
    ) -> bool {
        let w: int = if timed_out {
            1
        } else {
            0
        };
        let joined = pre.session_joined();
        let emit = !sess.was_always_listen && joined.len() > 0;
        let typed: int = if emit && sess.was_buffered {
            1
        } else {
            0
        };
        let copy = emit && pre.config.clipboard_auto_copy;
        let body: int = if emit {
            typed + 2 + (if copy {
                1int
            } else {
                0int
            })
        } else {
            0
        };
        let quit_n: int = if sess.quit_after {
            2
        } else {
            0
        };
        &&& acts.len() == w + body + 1 + quit_n
        &&& (timed_out ==> acts[0] is DrainTimeoutWarning)
        &&& (emit ==> {
            &&& (sess.was_buffered ==> (acts[w] matches Action::TypeText(t) && t@ == joined))
            &&& (acts[w + typed] matches Action::SaveTranscript(t, ms) && t@ == joined && ms
                == pre.session_process_ms)
            &&& (copy ==> (acts[w + typed + 1] matches Action::CopyToClipboard(t) && t@ == joined))
            &&& acts[w + body - 1] == Action::Tray(TrayUpdate::RefreshTranscripts)
        })
        &&& acts[w + body] == Action::Tray(TrayUpdate::State(RecordingState::Idle))
        &&& (sess.quit_after ==> acts[w + body + 1] == Action::Tray(TrayUpdate::Quit) && acts[w
            + body + 2] is Shutdown)
    }

    /// Conclude the stop-and-drain protocol, after the sentinel arrived or
    /// (`timed_out`) the bounded wait was abandoned.
    pub fn finish_stop(&self, sess: &StopSession, timed_out: bool) -> (actions: Vec<Action>)
        requires
            self.wf(),
        ensures
            Self::finish_actions_ok(*self, *sess, timed_out, actions@),
    {
        let mut actions: Vec<Action> = Vec::new();
        if timed_out {
            actions.push(Action::DrainTimeoutWarning);
        }
        let joined = text::join_strings(&self.session_text, " ");
        proof {
            reveal_strlit(" ");
            assert(" "@ =~= seq![' ']);
        }
        if !sess.was_always_listen && !joined.as_str().is_empty() {
            if sess.was_buffered {
                actions.push(Action::TypeText(joined.clone()));
            }
            actions.push(Action::SaveTranscript(joined.clone(), self.session_process_ms));
            if self.config.clipboard_auto_copy {
                actions.push(Action::CopyToClipboard(joined));
            }
            actions.push(Action::Tray(TrayUpdate::RefreshTranscripts));
        }
        actions.push(Action::Tray(TrayUpdate::State(RecordingState::Idle)));
        if sess.quit_after {
            actions.push(Action::Tray(TrayUpdate::Quit));
            actions.push(Action::Shutdown);
        }
        actions
    }

    /// Take a freshly loaded configuration into force: reload the
    /// transcription model when its file name changed, and always tell the
    /// segmenter to reconsider its model and mode and the hotkey layer to
    /// re-read its bindings.
    pub fn apply_config(&mut self, new_config: Config) -> (actions: Vec<Action>)
        requires
            old(self).wf(),
        ensures
            final(self).wf(),
            final(self).config == new_config,
            final(self).state == old(self).state,
            Self::same_session(*old(self), *final(self)),
            final(self).mic_muted == old(self).mic_muted,
            final(self).active_backend == old(self).active_backend,
            final(self).last_mute_notify_ms == old(self).last_mute_notify_ms,
            ({
                let base: int = if new_config.model@ != old(self).config.model@ {
                    1
                } else {
                    0
                };
                &&& actions@.len() == base + 3
                &&& (new_config.model@ != old(self).config.model@ ==> (
                    actions@[0] matches Action::TranscriberReload(m) && m@ == new_config.model@))
                &&& actions@[base] == Action::SegmenterCmd(VadCommand::ReloadModel)
                &&& actions@[base + 1] == Action::SegmenterCmd(VadCommand::ReloadConfig)
                &&& actions@[base + 2] is HotkeysReload
            }),
    {
        let mut actions: Vec<Action> = Vec::new();
        if !text::str_eq(self.config.model.as_str(), new_config.model.as_str()) {
            actions.push(Action::TranscriberReload(new_config.model.clone()));
        }
        self.config = new_config;
        actions.push(Action::SegmenterCmd(VadCommand::ReloadModel));
        actions.push(Action::SegmenterCmd(VadCommand::ReloadConfig));
        actions.push(Action::HotkeysReload);
        actions
    }
}

} // verus!
