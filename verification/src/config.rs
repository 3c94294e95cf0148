//! Configuration values, tuning constants and the shared enums of the
//! pipeline: recording state, recording mode, hotkey backend, display server
//! and the unified command stream into the coordinator.

use vstd::prelude::*;
use vstd::string::StrSliceExecFns;

use crate::text;

verus! {

/// Fixed mono sample rate of the whole pipeline, in samples per second.
pub const SAMPLE_RATE: usize = 16000;

/// Shortest chunk the fixed-chunk segmenter may be configured with, in ms.
pub const CHUNK_DURATION_MIN_MS: u32 = 2000;

/// Longest chunk the fixed-chunk segmenter may be configured with, in ms.
pub const CHUNK_DURATION_MAX_MS: u32 = 10000;

/// Chunk duration used when the configuration does not name one, in ms.
pub const DEFAULT_CHUNK_DURATION_MS: u32 = 3000;

/// A partial chunk shorter than this is discarded on flush (0.3 s).
pub const CHUNK_MIN_FLUSH_SAMPLES: usize = SAMPLE_RATE * 3 / 10;

/// Size of one analysis frame handed to the speech-probability model.
pub const VAD_FRAME_SIZE: usize = 256;

/// Audio kept from just before a detected speech onset (ring buffer), in ms.
pub const VAD_PRE_SPEECH_PAD_MS: usize = 300;

/// Sustained silence required before an utterance is considered over, in ms.
pub const VAD_POST_SPEECH_PAD_MS: usize = 600;

/// Shortest utterance worth transcribing, in ms.
pub const VAD_MIN_SPEECH_MS: usize = 1000;

/// Hard ceiling on one utterance before it is force-emitted, in seconds.
pub const VAD_MAX_SPEECH_SECS: usize = 20;

/// Ring-buffer capacity of the pre-speech padding, in samples.
pub const VAD_PRE_SPEECH_SAMPLES: usize = SAMPLE_RATE * VAD_PRE_SPEECH_PAD_MS / 1000;

/// Trailing silence that ends an utterance, in samples.
pub const VAD_POST_SPEECH_SAMPLES: usize = SAMPLE_RATE * VAD_POST_SPEECH_PAD_MS / 1000;

/// Segments shorter than this are discarded as noise, in samples.
pub const VAD_MIN_SPEECH_SAMPLES: usize = SAMPLE_RATE * VAD_MIN_SPEECH_MS / 1000;

/// Accumulation ceiling that forces a segment out mid-speech, in samples.
pub const VAD_MAX_SPEECH_SAMPLES: usize = SAMPLE_RATE * VAD_MAX_SPEECH_SECS;

/// How long the stop protocol waits for the drain sentinel before giving up.
pub const DRAIN_TIMEOUT_MS: u64 = 10000;

/// Shortest interval between two mic-muted notifications, in ms.
pub const MUTE_NOTIFY_INTERVAL_MS: u64 = 3000;

/// Whether the recording pipeline is idle or capturing, and in which mode.
#[derive(Debug, Clone, Copy, PartialEq, Eq, Structural)]
pub enum RecordingState {
    Idle,
    PushToTalk,
    AlwaysListen,
}

impl RecordingState {
    /// A session is in progress exactly when the state is not `Idle`.
    pub fn is_recording(self) -> (r: bool)
        ensures
            r == (self != RecordingState::Idle),
    {
        match self {
            RecordingState::Idle => false,
            RecordingState::PushToTalk => true,
            RecordingState::AlwaysListen => true,
        }
    }
}

/// How the recording hotkey behaves: one press-and-hold, or on/off presses.
#[derive(Debug, Clone, Copy, PartialEq, Eq, Structural)]
pub enum RecordingMode {
    Toggle,
    PushToTalk,
}

impl Default for RecordingMode {
    fn default() -> (r: Self)
        ensures
            r == RecordingMode::PushToTalk,
    {
        RecordingMode::PushToTalk
    }
}

/// Which hotkey backend the monitor thread resolved at startup.
///
/// `Evdev` reads physical key state from the kernel and is immune to
/// synthetic text injection; `GlobalHotkey` is the window-system-level
/// fallback that can be confused by it.
#[derive(Debug, Clone, Copy, PartialEq, Eq, Structural)]
pub enum ActiveBackend {
    Evdev,
    GlobalHotkey,
}

/// Which display server the session runs under.
#[derive(Debug, Clone, Copy, PartialEq, Eq, Structural)]
pub enum DisplayServer {
    X11,
    Wayland,
}

/// Model file used when the configuration does not name one.
pub const MODEL_FILENAME: &'static str = "ggml-base.en-q8_0.bin";

/// File name of the speech-probability model.
pub const VAD_MODEL_FILENAME: &'static str = "ten-vad.onnx";

/// Default recording shortcut.
pub const DEFAULT_SHORTCUT: &'static str = "ctrl+space";

/// Default shortcut that opens the transcript list.
pub const DEFAULT_TRANSCRIPT_SHORTCUT: &'static str = "ctrl+shift+t";

/// Default shortcut that toggles always-listen mode.
pub const DEFAULT_ALWAYS_LISTEN_SHORTCUT: &'static str = "ctrl+shift+l";

pub fn default_shortcut() -> (r: String)
    ensures
        r@ == DEFAULT_SHORTCUT@,
{
    DEFAULT_SHORTCUT.to_owned()
}

pub fn default_transcript_shortcut() -> (r: String)
    ensures
        r@ == DEFAULT_TRANSCRIPT_SHORTCUT@,
{
    DEFAULT_TRANSCRIPT_SHORTCUT.to_owned()
}

pub fn default_always_listen_shortcut() -> (r: String)
    ensures
        r@ == DEFAULT_ALWAYS_LISTEN_SHORTCUT@,
{
    DEFAULT_ALWAYS_LISTEN_SHORTCUT.to_owned()
}

/// Default transcript-retention cap; zero retains everything.
pub fn default_max_transcripts() -> (r: u32)
    ensures
        r == 0,
{
    0
}

/// The configuration record, as the coordinator and the segmenter read
/// it.  Chunk duration is carried in milliseconds.
#[derive(Debug, Clone)]
pub struct Config {
    pub model: String,
    pub clipboard_auto_copy: bool,
    pub use_vad: bool,
    pub chunk_duration_ms: u32,
    pub recording_mode: RecordingMode,
    pub shortcut: String,
    pub transcript_shortcut: String,
    pub always_listen_shortcut: String,
    pub max_transcripts: u32,
}

impl Default for Config {
    fn default() -> (r: Self)
        ensures
            r.model@ == MODEL_FILENAME@,
            r.clipboard_auto_copy == true,
            r.use_vad == false,
            r.chunk_duration_ms == DEFAULT_CHUNK_DURATION_MS,
            r.recording_mode == RecordingMode::PushToTalk,
            r.shortcut@ == DEFAULT_SHORTCUT@,
            r.transcript_shortcut@ == DEFAULT_TRANSCRIPT_SHORTCUT@,
            r.always_listen_shortcut@ == DEFAULT_ALWAYS_LISTEN_SHORTCUT@,
            r.max_transcripts == 0,
    {
        Config {
            model: MODEL_FILENAME.to_owned(),
            clipboard_auto_copy: true,
            use_vad: false,
            chunk_duration_ms: DEFAULT_CHUNK_DURATION_MS,
            recording_mode: RecordingMode::PushToTalk,
            shortcut: default_shortcut(),
            transcript_shortcut: default_transcript_shortcut(),
            always_listen_shortcut: default_always_listen_shortcut(),
            max_transcripts: default_max_transcripts(),
        }
    }
}

/// The configured chunk duration clamped to its legal range, in ms.
pub open spec fn clamped_chunk_ms(ms: u32) -> int {
    if ms < CHUNK_DURATION_MIN_MS {
        CHUNK_DURATION_MIN_MS as int
    } else if ms > CHUNK_DURATION_MAX_MS {
        CHUNK_DURATION_MAX_MS as int
    } else {
        ms as int
    }
}

/// Chunk length in samples for a configured duration, clamped to the
/// legal range so that a corrupt configuration cannot stall segmentation.
pub fn chunk_samples_for(ms: u32) -> (r: usize)
    ensures
        r == clamped_chunk_ms(ms) * SAMPLE_RATE / 1000,
        SAMPLE_RATE * 2 <= r <= SAMPLE_RATE * 10,
{
    let clamped: u32 = if ms < CHUNK_DURATION_MIN_MS {
        CHUNK_DURATION_MIN_MS
    } else if ms > CHUNK_DURATION_MAX_MS {
        CHUNK_DURATION_MAX_MS
    } else {
        ms
    };
    ((clamped as u64) * (SAMPLE_RATE as u64) / 1000) as usize
}

impl Config {
    /// Chunk length in samples the segmenter should use.
    pub fn chunk_samples(&self) -> (r: usize)
        ensures
            r == clamped_chunk_ms(self.chunk_duration_ms) * SAMPLE_RATE / 1000,
            r >= 1,
    {
        chunk_samples_for(self.chunk_duration_ms)
    }
}

/// ASCII upper case of one character.
pub open spec fn upper_char(c: char) -> char {
    if 'a' <= c <= 'z' {
        ((c as int) - 32) as char
    } else {
        c
    }
}

/// The string for one upper-cased lower-case letter.
fn upper_letter(c: char) -> (r: &'static str)
    requires
        'a' <= c <= 'z',
    ensures
        r@ == seq![upper_char(c)],
{
    proof {
        reveal_strlit("A");
        reveal_strlit("B");
        reveal_strlit("C");
        reveal_strlit("D");
        reveal_strlit("E");
        reveal_strlit("F");
        reveal_strlit("G");
        reveal_strlit("H");
        reveal_strlit("I");
        reveal_strlit("J");
        reveal_strlit("K");
        reveal_strlit("L");
        reveal_strlit("M");
        reveal_strlit("N");
        reveal_strlit("O");
        reveal_strlit("P");
        reveal_strlit("Q");
        reveal_strlit("R");
        reveal_strlit("S");
        reveal_strlit("T");
        reveal_strlit("U");
        reveal_strlit("V");
        reveal_strlit("W");
        reveal_strlit("X");
        reveal_strlit("Y");
        reveal_strlit("Z");
    }
    match c {
        'a' => "A",
        'b' => "B",
        'c' => "C",
        'd' => "D",
        'e' => "E",
        'f' => "F",
        'g' => "G",
        'h' => "H",
        'i' => "I",
        'j' => "J",
        'k' => "K",
        'l' => "L",
        'm' => "M",
        'n' => "N",
        'o' => "O",
        'p' => "P",
        'q' => "Q",
        'r' => "R",
        's' => "S",
        't' => "T",
        'u' => "U",
        'v' => "V",
        'w' => "W",
        'x' => "X",
        'y' => "Y",
        'z' => "Z",
        _ => "",
    }
}

/// A key name with its first letter upper-cased.
pub open spec fn upper_first(t: Seq<char>) -> Seq<char> {
    if t.len() == 0 {
        Seq::empty()
    } else {
        seq![upper_char(t[0])] + t.skip(1)
    }
}

/// How one (trimmed) part of a shortcut is displayed: modifiers and a few
/// special keys get their conventional names, anything else its first
/// letter upper-cased.
pub open spec fn display_part(p: Seq<char>) -> Seq<char> {
    let t = text::trimmed(p);
    if t == "ctrl"@ {
        "Ctrl"@
    } else if t == "alt"@ {
        "Alt"@
    } else if t == "shift"@ {
        "Shift"@
    } else if t == "super"@ {
        "Super"@
    } else if t == "scrolllock"@ || t == "scroll_lock"@ {
        "Scroll Lock"@
    } else if t == "pageup"@ {
        "Page Up"@
    } else if t == "pagedown"@ {
        "Page Down"@
    } else if t == "printscreen"@ {
        "Print Screen"@
    } else if t == "capslock"@ {
        "Caps Lock"@
    } else if t == "numlock"@ {
        "Num Lock"@
    } else if t == "backspace"@ {
        "Backspace"@
    } else if t == "leftbracket"@ {
        "["@
    } else if t == "rightbracket"@ {
        "]"@
    } else if t == "semicolon"@ {
        ";"@
    } else if t == "apostrophe"@ {
        "'"@
    } else if t == "grave"@ {
        "`"@
    } else if t == "comma"@ {
        ","@
    } else if t == "period"@ {
        "."@
    } else if t == "slash"@ {
        "/"@
    } else if t == "backslash"@ {
        "\\"@
    } else if t == "minus"@ {
        "-"@
    } else if t == "equal"@ {
        "="@
    } else {
        upper_first(t)
    }
}

/// Decide [`display_part`].
fn display_part_exec(p: &str) -> (r: String)
    ensures
        r@ == display_part(p@),
{
    let t = text::trim(p);
    if text::str_eq(t.as_str(), "ctrl") {
        "Ctrl".to_owned()
    } else if text::str_eq(t.as_str(), "alt") {
        "Alt".to_owned()
    } else if text::str_eq(t.as_str(), "shift") {
        "Shift".to_owned()
    } else if text::str_eq(t.as_str(), "super") {
        "Super".to_owned()
    } else if text::str_eq(t.as_str(), "scrolllock") || text::str_eq(t.as_str(), "scroll_lock") {
        "Scroll Lock".to_owned()
    } else if text::str_eq(t.as_str(), "pageup") {
        "Page Up".to_owned()
    } else if text::str_eq(t.as_str(), "pagedown") {
        "Page Down".to_owned()
    } else if text::str_eq(t.as_str(), "printscreen") {
        "Print Screen".to_owned()
    } else if text::str_eq(t.as_str(), "capslock") {
        "Caps Lock".to_owned()
    } else if text::str_eq(t.as_str(), "numlock") {
        "Num Lock".to_owned()
    } else if text::str_eq(t.as_str(), "backspace") {
        "Backspace".to_owned()
    } else if text::str_eq(t.as_str(), "leftbracket") {
        "[".to_owned()
    } else if text::str_eq(t.as_str(), "rightbracket") {
        "]".to_owned()
    } else if text::str_eq(t.as_str(), "semicolon") {
        ";".to_owned()
    } else if text::str_eq(t.as_str(), "apostrophe") {
        "'".to_owned()
    } else if text::str_eq(t.as_str(), "grave") {
        "`".to_owned()
    } else if text::str_eq(t.as_str(), "comma") {
        ",".to_owned()
    } else if text::str_eq(t.as_str(), "period") {
        ".".to_owned()
    } else if text::str_eq(t.as_str(), "slash") {
        "/".to_owned()
    } else if text::str_eq(t.as_str(), "backslash") {
        "\\".to_owned()
    } else if text::str_eq(t.as_str(), "minus") {
        "-".to_owned()
    } else if text::str_eq(t.as_str(), "equal") {
        "=".to_owned()
    } else if t.as_str().is_empty() {
        String::new()
    } else {
        let n = t.as_str().unicode_len();
        let c = t.as_str().get_char(0);
        if 'a' <= c && c <= 'z' {
            let mut out = upper_letter(c).to_owned();
            let rest = t.as_str().substring_char(1, n);
            out.append(rest);
            proof {
                assert(t@.subrange(1, n as int) =~= t@.skip(1));
            }
            out
        } else {
            proof {
                assert(seq![upper_char(t@[0])] + t@.skip(1) =~= t@);
            }
            t
        }
    }
}

/// Each raw part mapped through [`display_part`].
pub open spec fn display_parts(ps: Seq<Seq<char>>) -> Seq<Seq<char>> {
    ps.map(|i: int, p: Seq<char>| display_part(p))
}

/// How a shortcut is displayed: each `+`-separated part prettified and
/// the parts joined with `\u{20}+\u{20}`.
pub open spec fn spec_display_shortcut(s: Seq<char>) -> Seq<char> {
    text::join_with(display_parts(text::split_on(s, '+')), " + "@)
}

/// Convert the internal shortcut format to its display form, e.g.
/// `ctrl+shift+a` becomes `Ctrl + Shift + A`.
pub fn display_shortcut(shortcut: &str) -> (r: String)
    ensures
        r@ == spec_display_shortcut(shortcut@),
{
    let parts = text::split_str(shortcut, '+');
    let n = parts.len();
    let mut pretty: Vec<String> = Vec::new();
    let mut i: usize = 0;
    while i < n
        invariant
            n == parts@.len(),
            0 <= i <= n,
            text::str_views(pretty@) == display_parts(text::str_views(parts@).take(i as int)),
        decreases n - i,
    {
        let ghost prev = pretty@;
        let p = display_part_exec(parts[i].as_str());
        pretty.push(p);
        proof {
            assert(text::str_views(prev.push(pretty@[prev.len() as int])) =~= text::str_views(
                prev,
            ).push(display_part(parts@[i as int]@)));
            assert(display_parts(text::str_views(parts@).take(i + 1)) =~= display_parts(
                text::str_views(parts@).take(i as int),
            ).push(display_part(parts@[i as int]@)));
        }
        i = i + 1;
    }
    proof {
        assert(text::str_views(parts@).take(n as int) =~= text::str_views(parts@));
    }
    text::join_strings(&pretty, " + ")
}

/// Whether a (lower-cased) shortcut collides with a common application
/// shortcut that must not be taken over.
pub open spec fn spec_is_dangerous_shortcut(s: Seq<char>) -> bool {
    let l = text::lower(s);
    ||| l == "ctrl+c"@
    ||| l == "ctrl+v"@
    ||| l == "ctrl+x"@
    ||| l == "ctrl+z"@
    ||| l == "ctrl+y"@
    ||| l == "ctrl+s"@
    ||| l == "ctrl+w"@
    ||| l == "ctrl+q"@
    ||| l == "ctrl+a"@
    ||| l == "ctrl+f"@
    ||| l == "ctrl+p"@
    ||| l == "ctrl+n"@
    ||| l == "ctrl+t"@
    ||| l == "ctrl+o"@
    ||| l == "alt+f4"@
    ||| l == "ctrl+shift+t"@
}

/// Decide [`spec_is_dangerous_shortcut`].
pub fn is_dangerous_shortcut(shortcut: &str) -> (r: bool)
    ensures
        r == spec_is_dangerous_shortcut(shortcut@),
{
    text::str_eq_lower(shortcut, "ctrl+c") || text::str_eq_lower(shortcut, "ctrl+v")
        || text::str_eq_lower(shortcut, "ctrl+x") || text::str_eq_lower(shortcut, "ctrl+z")
        || text::str_eq_lower(shortcut, "ctrl+y") || text::str_eq_lower(shortcut, "ctrl+s")
        || text::str_eq_lower(shortcut, "ctrl+w") || text::str_eq_lower(shortcut, "ctrl+q")
        || text::str_eq_lower(shortcut, "ctrl+a") || text::str_eq_lower(shortcut, "ctrl+f")
        || text::str_eq_lower(shortcut, "ctrl+p") || text::str_eq_lower(shortcut, "ctrl+n")
        || text::str_eq_lower(shortcut, "ctrl+t") || text::str_eq_lower(shortcut, "ctrl+o")
        || text::str_eq_lower(shortcut, "alt+f4") || text::str_eq_lower(shortcut, "ctrl+shift+t")
}

/// Whether a shortcut part is a modifier key.
pub open spec fn is_modifier(p: Seq<char>) -> bool {
    p == "ctrl"@ || p == "alt"@ || p == "shift"@ || p == "super"@
}

/// Whether a key may stand alone, without any modifier.
pub open spec fn is_standalone_key(p: Seq<char>) -> bool {
    ||| p == "f1"@
    ||| p == "f2"@
    ||| p == "f3"@
    ||| p == "f4"@
    ||| p == "f5"@
    ||| p == "f6"@
    ||| p == "f7"@
    ||| p == "f8"@
    ||| p == "f9"@
    ||| p == "f10"@
    ||| p == "f11"@
    ||| p == "f12"@
    ||| p == "scrolllock"@
    ||| p == "scroll_lock"@
    ||| p == "pause"@
    ||| p == "printscreen"@
    ||| p == "capslock"@
    ||| p == "numlock"@
}

fn is_modifier_part(p: &str) -> (r: bool)
    ensures
        r == is_modifier(p@),
{
    text::str_eq(p, "ctrl") || text::str_eq(p, "alt") || text::str_eq(p, "shift") || text::str_eq(
        p,
        "super",
    )
}

fn is_standalone_part(p: &str) -> (r: bool)
    ensures
        r == is_standalone_key(p@),
{
    text::str_eq(p, "f1") || text::str_eq(p, "f2") || text::str_eq(p, "f3") || text::str_eq(
        p,
        "f4",
    ) || text::str_eq(p, "f5") || text::str_eq(p, "f6") || text::str_eq(p, "f7") || text::str_eq(
        p,
        "f8",
    ) || text::str_eq(p, "f9") || text::str_eq(p, "f10") || text::str_eq(p, "f11")
        || text::str_eq(p, "f12") || text::str_eq(p, "scrolllock") || text::str_eq(
        p,
        "scroll_lock",
    ) || text::str_eq(p, "pause") || text::str_eq(p, "printscreen") || text::str_eq(p, "capslock")
        || text::str_eq(p, "numlock")
}

/// The first part that is not a modifier, front to back.
pub open spec fn first_non_modifier(parts: Seq<Seq<char>>) -> Option<Seq<char>>
    decreases parts.len(),
{
    if parts.len() == 0 {
        None
    } else if !is_modifier(parts[0]) {
        Some(parts[0])
    } else {
        first_non_modifier(parts.skip(1))
    }
}

/// Whether any part is a modifier.
pub open spec fn has_modifier(parts: Seq<Seq<char>>) -> bool
    decreases parts.len(),
{
    if parts.len() == 0 {
        false
    } else {
        is_modifier(parts[0]) || has_modifier(parts.skip(1))
    }
}

proof fn lemma_first_non_modifier_push(parts: Seq<Seq<char>>, x: Seq<char>)
    ensures
        first_non_modifier(parts.push(x)) == (if first_non_modifier(parts) is Some {
            first_non_modifier(parts)
        } else if !is_modifier(x) {
            Some(x)
        } else {
            None::<Seq<char>>
        }),
        has_modifier(parts.push(x)) == (has_modifier(parts) || is_modifier(x)),
    decreases parts.len(),
{
    if parts.len() == 0 {
        assert(parts.push(x)[0] == x);
        assert(parts.push(x).skip(1) =~= Seq::<Seq<char>>::empty());
        assert(first_non_modifier(Seq::<Seq<char>>::empty()) is None);
        assert(!has_modifier(Seq::<Seq<char>>::empty()));
    } else {
        assert(parts.push(x)[0] == parts[0]);
        assert(parts.push(x).skip(1) =~= parts.skip(1).push(x));
        lemma_first_non_modifier_push(parts.skip(1), x);
        assert(first_non_modifier(parts.push(x)) == (if !is_modifier(parts[0]) {
            Some(parts[0])
        } else {
            first_non_modifier(parts.skip(1).push(x))
        }));
        assert(has_modifier(parts.push(x)) == (is_modifier(parts[0]) || has_modifier(
            parts.skip(1).push(x),
        )));
    }
}

/// Validate a shortcut: it must be non-empty, name a non-modifier key,
/// and carry a modifier unless the key may stand alone.  The error names
/// what is missing.
pub fn validate_shortcut(shortcut: &str) -> (r: Result<(), &'static str>)
    ensures
        shortcut@.len() == 0 ==> (r matches Err(m) && m@ == "No shortcut entered"@),
        shortcut@.len() > 0 && first_non_modifier(text::split_on(shortcut@, '+')) is None ==> (
        r matches Err(m) && m@ == "Press a non-modifier key"@),
        shortcut@.len() > 0 ==> ((first_non_modifier(text::split_on(shortcut@, '+')) matches Some(
            base,
        ) && !has_modifier(text::split_on(shortcut@, '+')) && !is_standalone_key(base)) ==> (
        r matches Err(m) && m@ == "Add a modifier (Ctrl, Alt, Shift, Super)"@)),
        shortcut@.len() > 0 ==> ((first_non_modifier(text::split_on(shortcut@, '+')) matches Some(
            base,
        ) && (has_modifier(text::split_on(shortcut@, '+')) || is_standalone_key(base))) ==> r is
            Ok),
    {
    if shortcut.is_empty() {
        return Err("No shortcut entered");
    }
    let parts = text::split_str(shortcut, '+');
    let n = parts.len();
    let mut base: Option<String> = None;
    let mut any_modifier = false;
    let mut i: usize = 0;
    proof {
        assert(text::str_views(parts@).take(0) =~= Seq::<Seq<char>>::empty());
    }
    while i < n
        invariant
            n == parts@.len(),
            0 <= i <= n,
            (base is Some) == (first_non_modifier(text::str_views(parts@).take(i as int))
                is Some),
            base matches Some(b) ==> first_non_modifier(
                text::str_views(parts@).take(i as int),
            ) == Some(b@),
            any_modifier == has_modifier(text::str_views(parts@).take(i as int)),
        decreases n - i,
    {
        proof {
            lemma_first_non_modifier_push(
                text::str_views(parts@).take(i as int),
                parts@[i as int]@,
            );
            assert(text::str_views(parts@).take(i + 1) =~= text::str_views(parts@).take(
                i as int,
            ).push(parts@[i as int]@));
        }
        if is_modifier_part(parts[i].as_str()) {
            any_modifier = true;
        } else if base.is_none() {
            base = Some(parts[i].clone());
        }
        i = i + 1;
    }
    proof {
        assert(text::str_views(parts@).take(n as int) =~= text::str_views(parts@));
    }
    match base {
        None => Err("Press a non-modifier key"),
        Some(b) => {
            if !any_modifier && !is_standalone_part(b.as_str()) {
                Err("Add a modifier (Ctrl, Alt, Shift, Super)")
            } else {
                Ok(())
            }
        },
    }
}

/// The data directory under the user's home.
pub open spec fn data_dir_of(home: Seq<char>) -> Seq<char> {
    home + "/.local/share/voice-to-text"@
}

/// The models directory under the user's home.
pub open spec fn models_dir_of(home: Seq<char>) -> Seq<char> {
    data_dir_of(home) + "/models"@
}

/// Where the configuration file lives.
pub fn config_path(home: &str) -> (r: String)
    ensures
        r@ == home@ + "/.config/voice-to-text/config.toml"@,
{
    home.to_owned().concat("/.config/voice-to-text/config.toml")
}

/// Where application data lives.
pub fn data_dir(home: &str) -> (r: String)
    ensures
        r@ == data_dir_of(home@),
{
    home.to_owned().concat("/.local/share/voice-to-text")
}

/// Where downloaded model files live.
pub fn models_dir(home: &str) -> (r: String)
    ensures
        r@ == models_dir_of(home@),
{
    data_dir(home).concat("/models")
}

/// Where the transcript log lives.
pub fn transcripts_path(home: &str) -> (r: String)
    ensures
        r@ == data_dir_of(home@) + "/transcripts.json"@,
{
    data_dir(home).concat("/transcripts.json")
}

/// The path of a model file by name.
pub fn model_path_for(home: &str, filename: &str) -> (r: String)
    ensures
        r@ == models_dir_of(home@) + "/"@ + filename@,
{
    models_dir(home).concat("/").concat(filename)
}

/// The path of the configured transcription model.
pub fn model_path(home: &str, config: &Config) -> (r: String)
    ensures
        r@ == models_dir_of(home@) + "/"@ + config.model@,
{
    model_path_for(home, config.model.as_str())
}

/// The path of the speech-probability model.
pub fn vad_model_path(home: &str) -> (r: String)
    ensures
        r@ == models_dir_of(home@) + "/"@ + VAD_MODEL_FILENAME@,
{
    model_path_for(home, VAD_MODEL_FILENAME)
}

/// One downloadable transcription model.
#[derive(Debug, Clone)]
pub struct ModelInfo {
    pub filename: String,
    pub label: String,
    pub size: String,
    pub description: String,
    pub url: String,
}

/// The transcription models offered for download, smallest first; the
/// first is the default.
pub fn available_models() -> (r: Vec<ModelInfo>)
    ensures
        r@.len() == 3,
        r@[0].filename@ == MODEL_FILENAME@,
        r@[1].filename@ == "ggml-small.en-q8_0.bin"@,
        r@[2].filename@ == "ggml-medium.en-q8_0.bin"@,
        r@[0].label@ == "Base"@,
        r@[1].label@ == "Small"@,
        r@[2].label@ == "Medium"@,
{
    let mut models: Vec<ModelInfo> = Vec::new();
    models.push(
        ModelInfo {
            filename: MODEL_FILENAME.to_owned(),
            label: "Base".to_owned(),
            size: "82 MB".to_owned(),
            description: "Fast, good for most use".to_owned(),
            url:
                "https://huggingface.co/ggerganov/whisper.cpp/resolve/main/ggml-base.en-q8_0.bin".to_owned(),
        },
    );
    models.push(
        ModelInfo {
            filename: "ggml-small.en-q8_0.bin".to_owned(),
            label: "Small".to_owned(),
            size: "180 MB".to_owned(),
            description: "More accurate".to_owned(),
            url:
                "https://huggingface.co/ggerganov/whisper.cpp/resolve/main/ggml-small.en-q8_0.bin".to_owned(),
        },
    );
    models.push(
        ModelInfo {
            filename: "ggml-medium.en-q8_0.bin".to_owned(),
            label: "Medium".to_owned(),
            size: "460 MB".to_owned(),
            description: "Most accurate".to_owned(),
            url:
                "https://huggingface.co/ggerganov/whisper.cpp/resolve/main/ggml-medium.en-q8_0.bin".to_owned(),
        },
    );
    models
}

/// Where the speech-probability model can be downloaded.
pub const VAD_MODEL_URL: &'static str =
    "https://huggingface.co/TEN-framework/ten-vad/resolve/main/src/onnx_model/ten-vad.onnx";

/// The unified command stream into the coordinator: every hotkey, tray,
/// IPC and mute event reduces to one of these.
#[derive(Debug, Clone)]
pub enum AppCommand {
    ToggleRecording,
    ToggleAlwaysListen,
    StartRecording,
    StopRecording,
    OpenSettings,
    OpenTranscripts,
    ReloadConfig,
    HotkeyBackendResolved(ActiveBackend),
    CopyTranscript(String),
    MicMuteChanged(bool),
    Quit,
}

} // verus!
