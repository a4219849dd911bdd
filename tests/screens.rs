use typetest_core::screens::{
    GlobalMessage, Page, RandomGeneratorMessage, RandomGeneratorSettings, RandomGeneratorState,
    ResultsState, View,
};
use typetest_core::session::{TypingTestState, TypingTestStatus};
use typetest_core::stats::TestStats;

#[test]
fn random_generator_settings_default_to_a_minute() {
    assert_eq!(60, RandomGeneratorSettings::default().time_length_seconds);
    assert_eq!(60, RandomGeneratorState::new().time_length_seconds);
}

#[test]
fn random_generator_state_takes_a_new_length() {
    let mut state = RandomGeneratorState::new();
    state.update(RandomGeneratorMessage::TimeLengthChanged(120));
    assert_eq!(120, state.time_length_seconds);
    assert_eq!(GlobalMessage::TimeLengthChanged(120), state.global_message());
}

#[test]
fn a_new_length_restarts_the_typing_test() {
    let mut test = TypingTestState::new(vec!["ab".to_string()]);
    test.input_changed("ab ");
    test.global_update(GlobalMessage::TimeLengthChanged(30));
    assert_eq!(30, test.test_length_seconds());
    assert_eq!(30, test.remaining_seconds());
    assert_eq!(TypingTestStatus::NotStarted, test.status());
    assert_eq!(0, test.stats().correct_chars);
}

#[test]
fn results_take_the_statistics_of_a_test() {
    let mut results = ResultsState::new();
    assert_eq!(60, results.test_length_seconds);
    assert!(!results.show_missed_words);
    assert!(results.stats.get_latest_checkpoint().is_none());

    let mut stats = TestStats::new();
    stats.submit_word("REDO", "redo");
    stats.checkpoint(60_000);
    results.update_stats(stats);
    assert_eq!(1, results.stats.get_missed_words().len());
    assert_eq!(1, results.stats.get_latest_checkpoint().unwrap().correct_chars);

    results.toggle_missed_words();
    assert!(results.show_missed_words);
}

#[test]
fn screens_are_told_apart() {
    assert!(View::TypingTest != View::Results);
    assert!(View::Results != View::Settings);
    assert!(Page::TypingTest != Page::Settings);
}
