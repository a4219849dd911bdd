use typetest_core::stats::{MissedWord, TestCheckpoint, TestStatistics, TestStats};

fn checkpoint(elapsed_secs: u64, correct_chars: u64, incorrect_chars: u64) -> TestCheckpoint {
    TestCheckpoint {
        elapsed_millis: elapsed_secs * 1000,
        correct_chars,
        incorrect_chars,
        correct_words: 0,
        incorrect_words: 0,
    }
}

#[test]
fn stats_submit_word_with_empty_expected_word_returns_false() {
    let mut stats = TestStats::new();
    let is_correct = stats.submit_word("", "");

    assert!(!is_correct);
}

#[test]
fn stats_submit_word_with_correct_word_updates_correct_stats() {
    let mut stats = TestStats::new();
    let is_correct = stats.submit_word("REDO", "REDO");

    assert!(is_correct);
    assert!(stats.get_missed_words().is_empty());

    // 4 chars for REDO, 1 for the separator
    assert_eq!(5, stats.correct_chars);
    assert_eq!(1, stats.correct_words);

    assert_eq!(0, stats.incorrect_chars);
    assert_eq!(0, stats.incorrect_words);

    assert!(stats.get_missed_words().is_empty());
}

fn check_incorrect_word(expected: &str, actual: &str, correct_chars: u64, incorrect_chars: u64) {
    let mut stats = TestStats::new();

    let is_correct = stats.submit_word(expected, actual);

    assert!(!is_correct);

    assert_eq!(correct_chars, stats.correct_chars);
    assert_eq!(incorrect_chars, stats.incorrect_chars);

    assert_eq!(0, stats.correct_words);
    assert_eq!(1, stats.incorrect_words);

    assert!(stats.get_missed_words().contains(&MissedWord::new(expected, actual)));
}

#[test]
fn stats_incorrect_word_in_other_case() {
    check_incorrect_word("REDO", "redo", 1, 4);
}

#[test]
fn stats_incorrect_word_too_short() {
    check_incorrect_word("REDO", "RED", 3, 2);
}

#[test]
fn stats_incorrect_word_too_long() {
    check_incorrect_word("REDO", "REDOO", 4, 2);
}

#[test]
fn stats_incorrect_word_mixed_case() {
    check_incorrect_word("REDO", "rEdO", 3, 2);
}

#[test]
fn stats_empty_submission_leaves_counters_at_zero() {
    let mut stats = TestStats::new();
    assert!(!stats.submit_word("", ""));
    assert_eq!(0, stats.correct_chars);
    assert_eq!(0, stats.incorrect_chars);
    assert_eq!(0, stats.correct_words);
    assert_eq!(0, stats.incorrect_words);
    assert!(stats.get_missed_words().is_empty());
}

#[test]
fn stats_empty_expected_word_ignores_typed_text() {
    let mut stats = TestStats::new();
    assert!(!stats.submit_word("", "abc"));
    assert_eq!(0, stats.incorrect_words);
    assert!(stats.get_missed_words().is_empty());
}

#[test]
fn stats_missed_words_kept_in_order() {
    let mut stats = TestStats::new();
    stats.submit_word("one", "onw");
    stats.submit_word("two", "two");
    stats.submit_word("three", "thre");
    stats.submit_word("one", "on");
    let missed = stats.get_missed_words();
    assert_eq!(3, missed.len());
    assert!(missed[0] == MissedWord::new("one", "onw"));
    assert!(missed[1] == MissedWord::new("three", "thre"));
    assert!(missed[2] == MissedWord::new("one", "on"));
}

#[test]
fn stats_non_ascii_words_are_scored_by_character() {
    let mut stats = TestStats::new();
    assert!(!stats.submit_word("café", "cafe"));
    // three matching characters, one wrong, separator in place
    assert_eq!(4, stats.correct_chars);
    assert_eq!(1, stats.incorrect_chars);
}

#[test]
fn stats_checkpoint_snapshots_counters() {
    let mut stats = TestStats::new();
    assert!(stats.get_latest_checkpoint().is_none());
    stats.submit_word("REDO", "REDO");
    stats.checkpoint(1500);
    stats.submit_word("REDO", "redo");
    stats.checkpoint(2500);
    let latest = stats.get_latest_checkpoint().unwrap();
    assert_eq!(2500, latest.elapsed_millis);
    assert_eq!(6, latest.correct_chars);
    assert_eq!(4, latest.incorrect_chars);
    assert_eq!(1, latest.correct_words);
    assert_eq!(1, latest.incorrect_words);
}

#[test]
fn stats_next_test_clears_everything() {
    let mut stats = TestStats::new();
    stats.submit_word("REDO", "REDO");
    stats.submit_word("REDO", "RE");
    stats.checkpoint(1000);
    stats.next_test();
    assert_eq!(0, stats.correct_chars);
    assert_eq!(0, stats.incorrect_chars);
    assert_eq!(0, stats.correct_words);
    assert_eq!(0, stats.incorrect_words);
    assert!(stats.get_missed_words().is_empty());
    assert!(stats.get_latest_checkpoint().is_none());
}

#[test]
fn stats_has_room_on_fresh_counters() {
    let stats = TestStats::new();
    assert!(stats.has_room("REDO", "redo"));
    let mut full = TestStats::new();
    full.correct_chars = u64::MAX - 2;
    assert!(!full.has_room("REDO", "redo"));
}

#[test]
fn checkpoint_effective_wpm_over_a_minute() {
    assert_eq!(20, checkpoint(60, 100, 80).effective_wpm());
}

#[test]
fn checkpoint_effective_wpm_over_half_a_minute() {
    assert_eq!(40, checkpoint(30, 100, 80).effective_wpm());
}

#[test]
fn checkpoint_raw_wpm_over_a_minute() {
    assert_eq!(36, checkpoint(60, 100, 80).raw_wpm());
}

#[test]
fn checkpoint_raw_wpm_over_half_a_minute() {
    assert_eq!(72, checkpoint(30, 100, 80).raw_wpm());
}

#[test]
fn checkpoint_wpm_rounds_down() {
    // 7 keystrokes over 7 seconds: 12 words per minute exactly; over 8 seconds: 10.5
    assert_eq!(12, checkpoint(7, 7, 0).effective_wpm());
    assert_eq!(10, checkpoint(8, 7, 0).effective_wpm());
}

#[test]
fn checkpoint_wpm_without_elapsed_time_is_zero() {
    assert_eq!(0, checkpoint(0, 100, 80).effective_wpm());
    assert_eq!(0, checkpoint(0, 100, 80).raw_wpm());
}

#[test]
fn checkpoint_wpm_saturates() {
    let c = TestCheckpoint {
        elapsed_millis: 1,
        correct_chars: u64::MAX,
        incorrect_chars: u64::MAX,
        correct_words: 0,
        incorrect_words: 0,
    };
    assert_eq!(u64::MAX, c.effective_wpm());
    assert_eq!(u64::MAX, c.raw_wpm());
}

#[test]
fn checkpoint_accuracy_all_correct() {
    assert_eq!(Some(10_000), checkpoint(0, 10, 0).accuracy_hundredths());
}

#[test]
fn checkpoint_accuracy_half_correct() {
    assert_eq!(Some(5_000), checkpoint(0, 10, 10).accuracy_hundredths());
}

#[test]
fn checkpoint_accuracy_one_fifth_correct() {
    let hundredths = checkpoint(0, 5, 20).accuracy_hundredths().unwrap();
    assert_eq!(2_000, hundredths);
    let percent = hundredths as f32 / 100.0;
    assert!((20.0 - percent).abs() < 0.01);
}

#[test]
fn checkpoint_accuracy_without_keystrokes_is_undefined() {
    assert_eq!(None, checkpoint(0, 0, 0).accuracy_hundredths());
}

#[test]
fn checkpoint_accuracy_of_huge_counts() {
    assert_eq!(Some(5_000), checkpoint(0, u64::MAX, u64::MAX).accuracy_hundredths());
}

#[test]
fn reset_reinitialises_correct_values() {
    let mut stats = TestStatistics::default();
    stats.submit_word("REDO", "REDO");
    stats.submit_word("REDO", "redo");
    stats.submit_word("REDO", "RE");
    stats.submit_word("REDO", "REDOOO");
    stats.update_wpm(1);

    stats.reset();

    assert_eq!(0, stats.correct_chars);
    assert_eq!(0, stats.incorrect_chars);
    assert_eq!(0, stats.correct_words);
    assert_eq!(0, stats.incorrect_words);

    assert_eq!(0, stats.elapsed_seconds);

    assert_eq!(0, stats.effective_wpm);
    assert_eq!(0, stats.raw_wpm);

    assert!(stats.get_missed_words().is_empty());
}

#[test]
fn submit_word_with_empty_expected_word_returns_false() {
    let mut stats = TestStatistics::default();
    let is_correct = stats.submit_word("", "");

    assert!(!is_correct);
}

#[test]
fn submit_word_with_correct_word_updates_correct_stats() {
    let mut stats = TestStatistics::default();
    let is_correct = stats.submit_word("REDO", "REDO");

    assert!(is_correct);
    assert!(stats.get_missed_words().is_empty());

    // 4 chars for REDO, 1 for the separator
    assert_eq!(5, stats.correct_chars);
    assert_eq!(1, stats.correct_words);

    assert_eq!(0, stats.incorrect_chars);
    assert_eq!(0, stats.incorrect_words);

    assert!(stats.get_missed_words().is_empty());
}

fn check_incorrect_statistics(
    expected: &str,
    actual: &str,
    correct_chars: u64,
    incorrect_chars: u64,
) {
    let mut stats = TestStatistics::default();

    let is_correct = stats.submit_word(expected, actual);

    assert!(!is_correct);

    assert_eq!(correct_chars, stats.correct_chars);
    assert_eq!(incorrect_chars, stats.incorrect_chars);

    assert_eq!(0, stats.correct_words);
    assert_eq!(1, stats.incorrect_words);

    assert!(stats.get_missed_words().contains_key(expected));
}

#[test]
fn statistics_incorrect_word_in_other_case() {
    check_incorrect_statistics("REDO", "redo", 1, 4);
}

#[test]
fn statistics_incorrect_word_too_short() {
    check_incorrect_statistics("REDO", "RED", 3, 2);
}

#[test]
fn statistics_incorrect_word_too_long() {
    check_incorrect_statistics("REDO", "REDOO", 4, 2);
}

#[test]
fn statistics_incorrect_word_mixed_case() {
    check_incorrect_statistics("REDO", "rEdO", 3, 2);
}

#[test]
fn statistics_counts_repeated_misses() {
    let mut stats = TestStatistics::default();
    stats.submit_word("REDO", "redo");
    stats.submit_word("word", "wrod");
    stats.submit_word("REDO", "RE");
    stats.submit_word("word", "word");
    let missed = stats.get_missed_words();
    assert_eq!(Some(2), missed.get("REDO"));
    assert_eq!(Some(1), missed.get("word"));
    assert_eq!(None, missed.get("redo"));
    assert!(!missed.contains_key("other"));
}

#[test]
fn update_wpm_with_0_secs_does_not_update_stats() {
    let mut stats = TestStatistics::default();

    stats.update_wpm(0);

    assert_eq!(0, stats.elapsed_seconds);
    assert_eq!(0, stats.effective_wpm);
    assert_eq!(0, stats.raw_wpm);
}

#[test]
fn update_wpm_with_positive_secs_updates_correct_stats() {
    let mut stats = TestStatistics::default();

    // REDO, REDO: 5 correct, 0 incorrect
    // REDO, redo: 1 correct, 4 incorrect
    // REDO, RE: 2 correct, 3 incorrect
    // REDO, REDOOO: 4 correct, 3 incorrect
    stats.submit_word("REDO", "REDO");
    stats.submit_word("REDO", "redo");
    stats.submit_word("REDO", "RE");
    stats.submit_word("REDO", "REDOOO");

    assert_eq!(12, stats.correct_chars);
    assert_eq!(1, stats.correct_words);
    assert_eq!(10, stats.incorrect_chars);
    assert_eq!(3, stats.incorrect_words);

    // 2 seconds: 12 / 5 / 2 * 60 = 72 and (12 + 10) / 5 / 2 * 60 = 132
    stats.update_wpm(2);

    assert_eq!(72, stats.effective_wpm);
    assert_eq!(132, stats.raw_wpm);
}

#[test]
fn update_wpm_accumulates_time() {
    let mut stats = TestStatistics::default();
    stats.submit_word("REDO", "REDO");
    stats.submit_word("REDO", "REDO");
    stats.update_wpm(1);
    assert_eq!(120, stats.effective_wpm);
    stats.update_wpm(2);
    assert_eq!(3, stats.elapsed_seconds);
    assert_eq!(40, stats.effective_wpm);
    assert_eq!(40, stats.raw_wpm);
}
