use voice_to_text::transcript::{
    clear_all, delete_transcript, enforce_max, push_with_cap, save_transcript, Transcript,
};

fn entry(ts: i64, text: &str) -> Transcript {
    Transcript {
        timestamp: ts,
        datetime: format!("2024-01-01 00:00:{:02}", ts),
        text: text.to_string(),
        process_time_ms: 10,
    }
}

#[test]
fn retention_cap_keeps_most_recent() {
    let mut all = Vec::new();
    for i in 0..5 {
        push_with_cap(&mut all, entry(i, &format!("t{}", i)), 3);
    }
    // Exactly the most recent three, oldest evicted first.
    assert_eq!(all.len(), 3);
    assert_eq!(all[0].text, "t2");
    assert_eq!(all[1].text, "t3");
    assert_eq!(all[2].text, "t4");

    // A zero cap retains everything.
    let mut all = Vec::new();
    for i in 0..5 {
        push_with_cap(&mut all, entry(i, &format!("t{}", i)), 0);
    }
    assert_eq!(all.len(), 5);
}

#[test]
fn enforce_max_truncates_oldest() {
    let mut all: Vec<Transcript> = (0..6).map(|i| entry(i, &format!("t{}", i))).collect();
    assert!(enforce_max(&mut all, 2));
    assert_eq!(all.len(), 2);
    assert_eq!(all[0].text, "t4");
    assert_eq!(all[1].text, "t5");

    // Already within the cap: untouched.
    assert!(!enforce_max(&mut all, 2));
    assert_eq!(all.len(), 2);

    // Zero cap: untouched.
    assert!(!enforce_max(&mut all, 0));
    assert_eq!(all.len(), 2);
}

#[test]
fn save_transcript_appends_timestamped_entry() {
    let mut all = Vec::new();
    save_transcript(&mut all, "dictated text", 0, 42);
    assert_eq!(all.len(), 1);
    assert_eq!(all[0].text, "dictated text");
    assert_eq!(all[0].process_time_ms, 42);
    // The entry is stamped with a plausible wall-clock time.
    assert!(all[0].timestamp > 0);
    assert!(!all[0].datetime.is_empty());

    // Empty text is never persisted.
    save_transcript(&mut all, "", 0, 7);
    assert_eq!(all.len(), 1);

    // The cap applies on save.
    save_transcript(&mut all, "second", 1, 3);
    assert_eq!(all.len(), 1);
    assert_eq!(all[0].text, "second");
}

#[test]
fn delete_transcript_removes_by_timestamp() {
    let mut all = vec![entry(10, "a"), entry(20, "b"), entry(10, "c")];
    assert!(delete_transcript(&mut all, 10));
    assert_eq!(all.len(), 1);
    assert_eq!(all[0].text, "b");

    // Absent timestamp: nothing removed, reported as such.
    assert!(!delete_transcript(&mut all, 99));
    assert_eq!(all.len(), 1);
}

#[test]
fn clear_all_empties_the_log() {
    let mut all = vec![entry(1, "a"), entry(2, "b")];
    clear_all(&mut all);
    assert!(all.is_empty());
}
