//! The state behind the screens around a typing test: which screen is shown, the
//! results of the last test, and the settings of the random word generator.

use vstd::prelude::*;

use crate::session::DEFAULT_TEST_LENGTH_SECONDS;
use crate::stats::TestStats;

verus! {

/// The screens of the application.
#[derive(Clone, Copy, Debug, PartialEq, Eq, Structural)]
pub enum View {
    TypingTest,
    Results,
    Settings,
}

/// The pages that can be navigated to.
#[derive(Clone, Copy, Debug, PartialEq, Eq, Structural)]
pub enum Page {
    TypingTest,
    Settings,
}

/// Messages that concern every screen.
#[derive(Clone, Copy, Debug, PartialEq, Eq, Structural)]
pub enum GlobalMessage {
    /// The length of a test changed, in seconds.
    TimeLengthChanged(u64),
}

/// Settings of the random word generator.
#[derive(Clone, Copy, Debug, PartialEq, Eq, Structural)]
pub struct RandomGeneratorSettings {
    pub time_length_seconds: u64,
}

impl Default for RandomGeneratorSettings {
    fn default() -> (r: RandomGeneratorSettings)
        ensures
            r.time_length_seconds == DEFAULT_TEST_LENGTH_SECONDS,
    {
        RandomGeneratorSettings { time_length_seconds: DEFAULT_TEST_LENGTH_SECONDS }
    }
}

/// Messages of the random word generator's settings.
#[derive(Clone, Copy, Debug, PartialEq, Eq, Structural)]
pub enum RandomGeneratorMessage {
    TimeLengthChanged(u64),
}

/// The settings screen of the random word generator.
#[derive(Clone, Copy, Debug, PartialEq, Eq, Structural)]
pub struct RandomGeneratorState {
    pub time_length_seconds: u64,
}

impl RandomGeneratorState {
    /// The default settings.
    pub fn new() -> (r: RandomGeneratorState)
        ensures
            r.time_length_seconds == DEFAULT_TEST_LENGTH_SECONDS,
    {
        RandomGeneratorState { time_length_seconds: DEFAULT_TEST_LENGTH_SECONDS }
    }

    /// Applies a change of the settings.
    pub fn update(&mut self, message: RandomGeneratorMessage)
        ensures
            final(self).time_length_seconds == match message {
                RandomGeneratorMessage::TimeLengthChanged(t) => t,
            },
    {
        match message {
            RandomGeneratorMessage::TimeLengthChanged(t) => self.time_length_seconds = t,
        }
    }

    /// The message that passes the chosen length on to the other screens.
    pub fn global_message(&self) -> (r: GlobalMessage)
        ensures
            r == GlobalMessage::TimeLengthChanged(self.time_length_seconds),
    {
        GlobalMessage::TimeLengthChanged(self.time_length_seconds)
    }
}

/// The results screen: the statistics of the last test.
pub struct ResultsState {
    pub test_length_seconds: u64,
    pub stats: TestStats,
    pub show_missed_words: bool,
}

impl ResultsState {
    /// Empty results of a test of the default length, missed words hidden.
    pub fn new() -> (r: ResultsState)
        ensures
            r.test_length_seconds == DEFAULT_TEST_LENGTH_SECONDS,
            r.stats.is_cleared(),
            !r.show_missed_words,
    {
        ResultsState {
            test_length_seconds: DEFAULT_TEST_LENGTH_SECONDS,
            stats: TestStats::new(),
            show_missed_words: false,
        }
    }

    /// Shows or hides the missed words.
    pub fn toggle_missed_words(&mut self)
        ensures
            final(self).show_missed_words == !old(self).show_missed_words,
            final(self).stats == old(self).stats,
            final(self).test_length_seconds == old(self).test_length_seconds,
    {
        self.show_missed_words = !self.show_missed_words;
    }

    /// Takes the statistics of a finished test.
    pub fn update_stats(&mut self, stats: TestStats)
        ensures
            final(self).stats == stats,
            final(self).show_missed_words == old(self).show_missed_words,
            final(self).test_length_seconds == old(self).test_length_seconds,
    {
        self.stats = stats;
    }
}

} // verus!
