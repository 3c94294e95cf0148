//! Decisions of the transcription stage: sentinel forwarding, padding a
//! short segment up to the inference engine's minimum, and the filter that
//! keeps hallucinated outputs out of the pipeline.
//!
//! The inference call itself is a collaborator outside this crate; it is
//! handed a padded sample buffer and returns raw text, which
//! [`clean_transcription`] then accepts or rejects.

use vstd::prelude::*;

use crate::config::SAMPLE_RATE;
use crate::text;

verus! {

/// The inference engine refuses buffers shorter than one second.
pub const TRANSCRIBE_MIN_SAMPLES: usize = SAMPLE_RATE;

/// Commands the coordinator sends to the transcription stage.
pub enum TranscribeCommand {
    ReloadModel(String),
}

/// One outcome of the transcription stage: recognized text plus how long
/// inference took.  Empty text is the drain sentinel forwarded to the
/// coordinator.
pub struct TranscribeResult {
    pub text: String,
    pub process_time_ms: u64,
}

impl TranscribeResult {
    /// The drain sentinel: forwarded unconditionally when the segmenter's
    /// empty segment arrives, whether or not a model is loaded.
    pub fn sentinel() -> (r: Self)
        ensures
            r.text@.len() == 0,
            r.process_time_ms == 0,
    {
        TranscribeResult { text: String::new(), process_time_ms: 0 }
    }

    /// Whether this outcome is the drain sentinel.
    pub fn is_sentinel(&self) -> (r: bool)
        ensures
            r == (self.text@.len() == 0),
    {
        self.text.as_str().is_empty()
    }
}

/// Pad a segment with trailing silence up to the inference minimum.  Real
/// samples are never discarded; a long enough segment is left untouched.
pub fn pad_to_min(chunk: &mut Vec<i16>)
    ensures
        old(chunk)@.len() >= TRANSCRIBE_MIN_SAMPLES ==> final(chunk)@ == old(chunk)@,
        old(chunk)@.len() < TRANSCRIBE_MIN_SAMPLES ==> final(chunk)@ == old(chunk)@ + Seq::new(
            (TRANSCRIBE_MIN_SAMPLES - old(chunk)@.len()) as nat,
            |i: int| 0i16,
        ),
        final(chunk)@.len() >= TRANSCRIBE_MIN_SAMPLES,
        old(chunk)@ == final(chunk)@.take(old(chunk)@.len() as int),
{
    while chunk.len() < TRANSCRIBE_MIN_SAMPLES
        invariant
            old(chunk)@.len() < TRANSCRIBE_MIN_SAMPLES ==> chunk@ == old(chunk)@ + Seq::new(
                (chunk@.len() - old(chunk)@.len()) as nat,
                |i: int| 0i16,
            ),
            old(chunk)@.len() >= TRANSCRIBE_MIN_SAMPLES ==> chunk@ == old(chunk)@,
            chunk@.len() >= old(chunk)@.len(),
            old(chunk)@.len() < TRANSCRIBE_MIN_SAMPLES ==> chunk@.len()
                <= TRANSCRIBE_MIN_SAMPLES,
        decreases TRANSCRIBE_MIN_SAMPLES - chunk@.len(),
    {
        chunk.push(0i16);
        proof {
            assert(chunk@ =~= old(chunk)@ + Seq::new(
                (chunk@.len() - old(chunk)@.len()) as nat,
                |i: int| 0i16,
            ));
        }
    }
    proof {
        assert(old(chunk)@ =~= chunk@.take(old(chunk)@.len() as int));
    }
}

/// Raw engine output is trimmed, and dropped when empty or on the fixed
/// deny-list of silence artifacts; anything else is forwarded verbatim.
pub fn clean_transcription(raw: &str) -> (r: Option<String>)
    ensures
        (r is Some) <==> (text::trimmed(raw@).len() > 0 && !is_hallucination_text(
            text::trimmed(raw@),
        )),
        r matches Some(t) ==> t@ == text::trimmed(raw@),
{
    let trimmed = text::trim(raw);
    proof {
        text::lemma_trimmed_idempotent(raw@);
    }
    if trimmed.as_str().is_empty() {
        None
    } else if is_hallucination(trimmed.as_str()) {
        None
    } else {
        Some(trimmed)
    }
}

/// The fixed deny-list of outputs the inference engine is known to produce
/// on silence or noise, checked on already-trimmed text: bracketed or
/// parenthesised annotations and a handful of stock phrases.
pub open spec fn is_hallucination_text(t: Seq<char>) -> bool {
    ||| (t.len() > 0 && t[0] == '[' && t[t.len() - 1] == ']')
    ||| (t.len() > 0 && t[0] == '(' && t[t.len() - 1] == ')')
    ||| t == "you"@
    ||| t == "Thank you."@
    ||| t == "Thanks for watching!"@
    ||| t == "Bye."@
    ||| t == "..."@
}

/// Whether trimmed engine output matches the hallucination deny-list.
pub fn is_hallucination(text: &str) -> (r: bool)
    ensures
        r == is_hallucination_text(text::trimmed(text@)),
{
    let t = text::trim(text);
    let n = t.as_str().unicode_len();
    let bracketed = if n > 0 {
        let first = t.as_str().get_char(0);
        let last = t.as_str().get_char(n - 1);
        (first == '[' && last == ']') || (first == '(' && last == ')')
    } else {
        false
    };
    bracketed || text::str_eq(t.as_str(), "you") || text::str_eq(t.as_str(), "Thank you.")
        || text::str_eq(t.as_str(), "Thanks for watching!") || text::str_eq(t.as_str(), "Bye.")
        || text::str_eq(t.as_str(), "...")
}

} // verus!
