//! The transcript log: an append-only list of entries with an optional
//! retention cap, oldest evicted first.
//!
//! Reading and writing the on-disk store is left to the surrounding
//! process; every rule about what the list holds is decided here.

use vstd::prelude::*;
use vstd::string::StrSliceExecFns;

verus! {

/// One persisted transcript entry.
#[derive(Debug, Clone)]
pub struct Transcript {
    /// Seconds since the Unix epoch.
    pub timestamp: i64,
    /// Human-readable local date and time.
    pub datetime: String,
    pub text: String,
    pub process_time_ms: u64,
}

/// Relies on `chrono::Local::now`, `DateTime::timestamp` and
/// `DateTime::format`: the current instant as a Unix timestamp and as a
/// local `%Y-%m-%d %H:%M:%S` string.  Nothing is promised of the values:
/// they depend on the clock.
#[verifier::external_body]
fn now_stamp() -> (i64, String) {
    let now = chrono::Local::now();
    (now.timestamp(), now.format("%Y-%m-%d %H:%M:%S").to_string())
}

/// What a retention cap keeps: the most recent `max` entries when the cap
/// is positive (oldest evicted first), everything when it is zero.
pub open spec fn capped(entries: Seq<Transcript>, max: u32) -> Seq<Transcript> {
    if max > 0 && entries.len() > max {
        entries.skip(entries.len() - max)
    } else {
        entries
    }
}

/// Enforce the retention cap on the list, returning whether anything was
/// evicted.
pub fn enforce_max(all: &mut Vec<Transcript>, max: u32) -> (changed: bool)
    ensures
        final(all)@ == capped(old(all)@, max),
        changed == (max > 0 && old(all)@.len() > max),
{
    if max > 0 && all.len() > max as usize {
        let excess = all.len() - max as usize;
        let tail = all.split_off(excess);
        *all = tail;
        true
    } else {
        false
    }
}

/// Append one entry and enforce the retention cap.
pub fn push_with_cap(all: &mut Vec<Transcript>, entry: Transcript, max: u32)
    ensures
        final(all)@ == capped(old(all)@.push(entry), max),
{
    all.push(entry);
    enforce_max(all, max);
}

/// Append a freshly timestamped entry for `text` and enforce the
/// retention cap; empty text is never persisted.
pub fn save_transcript(all: &mut Vec<Transcript>, text: &str, max: u32, process_time_ms: u64)
    ensures
        text@.len() == 0 ==> final(all)@ == old(all)@,
        text@.len() > 0 ==> exists|e: Transcript| #![auto]
            e.text@ == text@ && e.process_time_ms == process_time_ms && final(all)@ == capped(
                old(all)@.push(e),
                max,
            ),
{
    if text.unicode_len() == 0 {
        return ;
    }
    let (timestamp, datetime) = now_stamp();
    let entry = Transcript { timestamp, datetime, text: text.to_owned(), process_time_ms };
    let ghost witness = entry;
    push_with_cap(all, entry, max);
    proof {
        assert(witness.text@ == text@ && witness.process_time_ms == process_time_ms && all@
            == capped(old(all)@.push(witness), max));
    }
}

/// The list without every entry bearing `ts`.
pub open spec fn without_ts(entries: Seq<Transcript>, ts: i64) -> Seq<Transcript>
    decreases entries.len(),
{
    if entries.len() == 0 {
        Seq::empty()
    } else if entries[0].timestamp == ts {
        without_ts(entries.skip(1), ts)
    } else {
        seq![entries[0]] + without_ts(entries.skip(1), ts)
    }
}

/// Whether some entry bears `ts`.
pub open spec fn contains_ts(entries: Seq<Transcript>, ts: i64) -> bool {
    exists|i: int| 0 <= i < entries.len() && entries[i].timestamp == ts
}

proof fn lemma_without_ts_len(entries: Seq<Transcript>, ts: i64)
    ensures
        without_ts(entries, ts).len() <= entries.len(),
        (without_ts(entries, ts).len() < entries.len()) == contains_ts(entries, ts),
    decreases entries.len(),
{
    if entries.len() > 0 {
        lemma_without_ts_len(entries.skip(1), ts);
        if entries[0].timestamp == ts {
            assert(contains_ts(entries, ts));
        } else {
            if contains_ts(entries, ts) {
                let i = choose|i: int|
                    0 <= i < entries.len() && entries[i].timestamp == ts;
                assert(entries.skip(1)[i - 1].timestamp == ts);
                assert(contains_ts(entries.skip(1), ts));
            }
            if contains_ts(entries.skip(1), ts) {
                let i = choose|i: int|
                    0 <= i < entries.skip(1).len() && entries.skip(1)[i].timestamp == ts;
                assert(entries[i + 1].timestamp == ts);
                assert(contains_ts(entries, ts));
            }
        }
    }
}

/// Remove every entry bearing `timestamp`, returning whether any was
/// found.
pub fn delete_transcript(all: &mut Vec<Transcript>, timestamp: i64) -> (removed: bool)
    ensures
        final(all)@ == without_ts(old(all)@, timestamp),
        removed == contains_ts(old(all)@, timestamp),
{
    let mut taken: Vec<Transcript> = Vec::new();
    core::mem::swap(all, &mut taken);
    let ghost orig = taken@;
    let orig_len = taken.len();
    proof {
        assert(all@ + without_ts(taken@, timestamp) =~= without_ts(orig, timestamp));
    }
    while taken.len() > 0
        invariant
            orig_len == orig.len(),
            without_ts(orig, timestamp) == all@ + without_ts(taken@, timestamp),
        decreases taken@.len(),
    {
        let ghost before = taken@;
        let t = taken.remove(0);
        proof {
            assert(taken@ =~= before.skip(1));
        }
        if t.timestamp != timestamp {
            let ghost prev = all@;
            all.push(t);
            proof {
                assert(prev + (seq![before[0]] + without_ts(before.skip(1), timestamp)) =~= all@
                    + without_ts(taken@, timestamp));
            }
        }
    }
    proof {
        assert(all@ + without_ts(taken@, timestamp) =~= all@);
        lemma_without_ts_len(orig, timestamp);
    }
    all.len() < orig_len
}

/// Empty the transcript log.
pub fn clear_all(all: &mut Vec<Transcript>)
    ensures
        final(all)@.len() == 0,
{
    all.clear();
}

} // verus!
