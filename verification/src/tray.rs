//! Messages from the coordinator to the tray / UI thread, and the helper
//! that fits transcript text into a menu entry.

use vstd::prelude::*;
use vstd::string::StrSliceExecFns;

use crate::config::{ActiveBackend, RecordingState};
use crate::text;

verus! {

/// Updates the coordinator sends to the tray/UI thread.
#[derive(Debug, Clone)]
pub enum TrayUpdate {
    State(RecordingState),
    MicMuted(bool),
    BackendInfo(ActiveBackend),
    CopyToClipboard(String),
    OpenSettings,
    OpenTranscripts,
    RefreshTranscripts,
    Quit,
}

/// How transcript text appears in a menu entry: trimmed, newlines turned
/// into spaces, and cut at `max_chars` characters with a trailing
/// ellipsis.
pub open spec fn menu_label(s: Seq<char>, max_chars: int) -> Seq<char> {
    let t = text::replaced(text::trimmed(s), '\n', ' ');
    if t.len() <= max_chars {
        t
    } else {
        t.take(max_chars) + "..."@
    }
}

/// Fit transcript text into a menu entry of at most `max_chars`
/// characters (plus an ellipsis when cut).
pub fn truncate_for_menu(s: &str, max_chars: usize) -> (r: String)
    ensures
        r@ == menu_label(s@, max_chars as int),
{
    let t = text::trim(s);
    proof {
        reveal_strlit(" ");
    }
    let flat = text::replace_char(t.as_str(), '\n', " ");
    let n = flat.as_str().unicode_len();
    if n <= max_chars {
        flat
    } else {
        let cut = flat.as_str().substring_char(0, max_chars);
        proof {
            assert(flat@.subrange(0, max_chars as int) =~= flat@.take(max_chars as int));
        }
        cut.to_owned().concat("...")
    }
}

} // verus!
