//! One typing test as the user goes through it: the lines shown, the word being
//! typed, the clock and the statistics. The caller feeds it events (typed input,
//! clock ticks, buttons) and renders what it reports.

use vstd::prelude::*;
use vstd::string::*;

use crate::stats::TestStats;
use crate::text::{correct_keystrokes, ends_with_space, incorrect_keystrokes, starts_with, trim, trimmed};
use crate::word_gen::{DisplayedWord, RandomWordGenerator, WordStatus};

verus! {

/// The widest line of words shown, in characters.
pub const MAX_CHARS: usize = 80;

/// The length of a test unless the user picks another, in seconds.
pub const DEFAULT_TEST_LENGTH_SECONDS: u64 = 60;

/// The character of a decimal digit.
pub open spec fn digit_char(d: nat) -> char {
    if d == 0 {
        '0'
    } else if d == 1 {
        '1'
    } else if d == 2 {
        '2'
    } else if d == 3 {
        '3'
    } else if d == 4 {
        '4'
    } else if d == 5 {
        '5'
    } else if d == 6 {
        '6'
    } else if d == 7 {
        '7'
    } else if d == 8 {
        '8'
    } else {
        '9'
    }
}

/// The decimal digits of `n`, without leading zeros.
pub open spec fn decimal(n: nat) -> Seq<char>
    decreases n,
{
    if n < 10 {
        seq![digit_char(n)]
    } else {
        decimal(n / 10).push(digit_char(n % 10))
    }
}

/// The decimal digits of `n`, padded with zeros to at least two.
pub open spec fn two_digits(n: nat) -> Seq<char> {
    if n < 10 {
        seq!['0'] + decimal(n)
    } else {
        decimal(n)
    }
}

/// `m:s` with both numbers in at least two digits.
pub open spec fn clock_text(m: nat, s: nat) -> Seq<char> {
    two_digits(m) + seq![':'] + two_digits(s)
}

/// Relies on `format!` with the `{:0>2}` format: an integer in decimal, right-aligned
/// and filled with zeros to a width of two.
#[verifier::external_body]
fn clock_string(minutes: u64, seconds: u64) -> (r: String)
    ensures
        r@ == clock_text(minutes as nat, seconds as nat),
{
    format!("{:0>2}:{:0>2}", minutes, seconds)
}

/// Formats a number of seconds as minutes and seconds, `mm:ss`.
pub fn format_time_mm_ss(seconds: u64) -> (r: String)
    ensures
        r@ == clock_text((seconds / 60) as nat, (seconds % 60) as nat),
{
    clock_string(seconds / 60, seconds % 60)
}

/// The stages of a typing test.
#[derive(Clone, Copy, Debug, PartialEq, Eq, Structural)]
pub enum TypingTestStatus {
    NotStarted,
    Started,
    Finished,
}

/// Seconds left of a test of `length` seconds after `elapsed_millis` milliseconds.
pub open spec fn remaining_after(length: u64, elapsed_millis: u64) -> u64 {
    if elapsed_millis / 1000 >= length {
        0
    } else {
        (length - elapsed_millis / 1000) as u64
    }
}

/// The status of a word while `typed` is being typed for it: wrong as soon as it is
/// no longer a beginning of the word.
pub open spec fn status_while_typing(word: Seq<char>, typed: Seq<char>) -> WordStatus {
    if typed.len() <= word.len() && word.take(typed.len() as int) == typed {
        WordStatus::NotTyped
    } else {
        WordStatus::Incorrect
    }
}

/// The state of one typing test.
pub struct TypingTestState {
    word_gen: RandomWordGenerator,
    stats: TestStats,
    status: TypingTestStatus,
    current_pos: usize,
    current_line: Vec<DisplayedWord>,
    next_line: Vec<DisplayedWord>,
    current_input: String,
    test_length_seconds: u64,
    remaining_seconds: u64,
    show_wpm: bool,
    show_timer: bool,
}

impl TypingTestState {
    pub closed spec fn stage(&self) -> TypingTestStatus {
        self.status
    }

    /// The index of the word being typed in the current line.
    pub closed spec fn position(&self) -> nat {
        self.current_pos as nat
    }

    pub closed spec fn line(&self) -> Seq<DisplayedWord> {
        self.current_line@
    }

    pub closed spec fn upcoming(&self) -> Seq<DisplayedWord> {
        self.next_line@
    }

    /// What has been typed of the current word.
    pub closed spec fn typed(&self) -> Seq<char> {
        self.current_input@
    }

    pub closed spec fn length_secs(&self) -> u64 {
        self.test_length_seconds
    }

    pub closed spec fn remaining(&self) -> u64 {
        self.remaining_seconds
    }

    pub closed spec fn wpm_shown(&self) -> bool {
        self.show_wpm
    }

    pub closed spec fn timer_shown(&self) -> bool {
        self.show_timer
    }

    pub closed spec fn record(&self) -> TestStats {
        self.stats
    }

    pub closed spec fn generator(&self) -> RandomWordGenerator {
        self.word_gen
    }

    /// The word being typed is in the current line, and a next line is ready.
    pub closed spec fn wf(&self) -> bool {
        &&& self.current_pos < self.current_line@.len()
        &&& self.next_line@.len() >= 1
    }

    /// The text of the word being typed.
    pub open spec fn target(&self) -> Seq<char> {
        self.line()[self.position() as int].word@
    }

    /// A test over `word_pool`, not started yet, of the default length.
    pub fn new(word_pool: Vec<String>) -> (r: TypingTestState)
        requires
            word_pool@.len() > 0,
        ensures
            r.wf(),
            r.stage() == TypingTestStatus::NotStarted,
            r.position() == 0,
            r.typed().len() == 0,
            r.length_secs() == DEFAULT_TEST_LENGTH_SECONDS,
            r.remaining() == DEFAULT_TEST_LENGTH_SECONDS,
            r.wpm_shown(),
            r.timer_shown(),
            r.record().is_cleared(),
            r.generator().pool() == word_pool@.map_values(|w: String| w@),
    {
        let mut word_gen = RandomWordGenerator::new(word_pool);
        let mut current_line: Vec<DisplayedWord> = Vec::new();
        let mut next_line: Vec<DisplayedWord> = Vec::new();
        word_gen.fill_words(&mut current_line, MAX_CHARS);
        word_gen.fill_words(&mut next_line, MAX_CHARS);
        TypingTestState {
            word_gen,
            stats: TestStats::new(),
            status: TypingTestStatus::NotStarted,
            current_pos: 0,
            current_line,
            next_line,
            current_input: String::new(),
            test_length_seconds: DEFAULT_TEST_LENGTH_SECONDS,
            remaining_seconds: DEFAULT_TEST_LENGTH_SECONDS,
            show_wpm: true,
            show_timer: true,
        }
    }

    /// Sets the length of the next tests, in seconds.
    pub fn update_time_length(&mut self, time: u64)
        ensures
            final(self).length_secs() == time,
            final(self).stage() == old(self).stage(),
            final(self).position() == old(self).position(),
            final(self).line() == old(self).line(),
            final(self).upcoming() == old(self).upcoming(),
            final(self).typed() == old(self).typed(),
            final(self).remaining() == old(self).remaining(),
            final(self).wpm_shown() == old(self).wpm_shown(),
            final(self).timer_shown() == old(self).timer_shown(),
            final(self).record() == old(self).record(),
            final(self).generator() == old(self).generator(),
            final(self).wf() == old(self).wf(),
    {
        self.test_length_seconds = time;
    }

    /// Handles a message for every screen: a new test length restarts the test
    /// with the same words.
    pub fn global_update(&mut self, message: crate::screens::GlobalMessage)
        requires
            old(self).wf(),
        ensures
            final(self).wf(),
            message matches crate::screens::GlobalMessage::TimeLengthChanged(t) ==> {
                &&& final(self).length_secs() == t
                &&& final(self).remaining() == t
                &&& final(self).stage() == TypingTestStatus::NotStarted
                &&& final(self).record().is_cleared()
                &&& final(self).position() == 0
                &&& final(self).generator().seed() == old(self).generator().seed()
            },
    {
        match message {
            crate::screens::GlobalMessage::TimeLengthChanged(t) => {
                self.test_length_seconds = t;
                self.reset_test_state(false);
            },
        }
    }

    /// Shows or hides the speed.
    pub fn toggle_wpm(&mut self)
        ensures
            final(self).wpm_shown() == !old(self).wpm_shown(),
            final(self).timer_shown() == old(self).timer_shown(),
            final(self).stage() == old(self).stage(),
            final(self).position() == old(self).position(),
            final(self).line() == old(self).line(),
            final(self).upcoming() == old(self).upcoming(),
            final(self).typed() == old(self).typed(),
            final(self).remaining() == old(self).remaining(),
            final(self).length_secs() == old(self).length_secs(),
            final(self).record() == old(self).record(),
            final(self).generator() == old(self).generator(),
            final(self).wf() == old(self).wf(),
    {
        self.show_wpm = !self.show_wpm;
    }

    /// Shows or hides the clock.
    pub fn toggle_timer(&mut self)
        ensures
            final(self).timer_shown() == !old(self).timer_shown(),
            final(self).wpm_shown() == old(self).wpm_shown(),
            final(self).stage() == old(self).stage(),
            final(self).position() == old(self).position(),
            final(self).line() == old(self).line(),
            final(self).upcoming() == old(self).upcoming(),
            final(self).typed() == old(self).typed(),
            final(self).remaining() == old(self).remaining(),
            final(self).length_secs() == old(self).length_secs(),
            final(self).record() == old(self).record(),
            final(self).generator() == old(self).generator(),
            final(self).wf() == old(self).wf(),
    {
        self.show_timer = !self.show_timer;
    }

    /// Handles a tick of the clock, `elapsed_millis` after the test began. Each time
    /// the count of seconds left changes, a checkpoint of the statistics is taken;
    /// when none are left, the test is finished. Outside a running test a tick
    /// changes nothing.
    pub fn timer_tick(&mut self, elapsed_millis: u64)
        ensures
            old(self).stage() != TypingTestStatus::Started ==> *final(self) == *old(self),
            old(self).stage() == TypingTestStatus::Started ==> {
                let left = remaining_after(old(self).length_secs(), elapsed_millis);
                &&& final(self).remaining() == left
                &&& final(self).stage() == if left == 0 {
                    TypingTestStatus::Finished
                } else {
                    TypingTestStatus::Started
                }
                &&& final(self).record().checkpoint_log() == if left != old(self).remaining() {
                    old(self).record().checkpoint_log().push(
                        crate::stats::TestCheckpoint {
                            elapsed_millis,
                            correct_chars: old(self).record().correct_chars,
                            incorrect_chars: old(self).record().incorrect_chars,
                            correct_words: old(self).record().correct_words,
                            incorrect_words: old(self).record().incorrect_words,
                        },
                    )
                } else {
                    old(self).record().checkpoint_log()
                }
                &&& final(self).record().correct_chars == old(self).record().correct_chars
                &&& final(self).record().incorrect_chars == old(self).record().incorrect_chars
                &&& final(self).record().correct_words == old(self).record().correct_words
                &&& final(self).record().incorrect_words == old(self).record().incorrect_words
                &&& final(self).record().missed_log() == old(self).record().missed_log()
                &&& final(self).position() == old(self).position()
                &&& final(self).line() == old(self).line()
                &&& final(self).upcoming() == old(self).upcoming()
                &&& final(self).typed() == old(self).typed()
                &&& final(self).length_secs() == old(self).length_secs()
                &&& final(self).generator() == old(self).generator()
                &&& final(self).wf() == old(self).wf()
            },
    {
        if self.status != TypingTestStatus::Started {
            return;
        }
        let elapsed = elapsed_millis / 1000;
        let new_remaining = if elapsed >= self.test_length_seconds {
            0
        } else {
            self.test_length_seconds - elapsed
        };
        if self.remaining_seconds != new_remaining {
            self.stats.checkpoint(elapsed_millis);
            self.remaining_seconds = new_remaining;
        }
        if self.remaining_seconds == 0 {
            self.status = TypingTestStatus::Finished;
        }
    }

    /// Starts over: a retry of the same words, or the next test with fresh ones. The
    /// statistics are cleared, the clock is wound back to the full length, and two
    /// new lines are filled.
    pub fn reset_test_state(&mut self, new_test: bool)
        requires
            old(self).wf(),
        ensures
            final(self).wf(),
            final(self).stage() == TypingTestStatus::NotStarted,
            final(self).record().is_cleared(),
            final(self).position() == 0,
            final(self).typed().len() == 0,
            final(self).remaining() == old(self).length_secs(),
            final(self).length_secs() == old(self).length_secs(),
            final(self).wpm_shown() == old(self).wpm_shown(),
            final(self).timer_shown() == old(self).timer_shown(),
            final(self).generator().pool() == old(self).generator().pool(),
            !new_test ==> final(self).generator().seed() == old(self).generator().seed(),
            ({
                let picks = final(self).generator().draws();
                exists|n: int|
                    0 <= n <= picks.len() && crate::word_gen::fills_line(
                        final(self).generator().pool(),
                        picks.take(n),
                        MAX_CHARS as nat,
                    ) && crate::word_gen::texts_of(final(self).line())
                        == crate::word_gen::picked_words(
                        final(self).generator().pool(),
                        picks.take(n).drop_last(),
                    )
            }),
    {
        if new_test {
            self.word_gen.prepare_for_next_test();
        } else {
            self.word_gen.prepare_for_retry();
        }
        self.status = TypingTestStatus::NotStarted;
        self.stats.next_test();
        self.current_pos = 0;
        self.current_input = String::new();
        self.remaining_seconds = self.test_length_seconds;
        let ghost seeded = self.word_gen;
        self.word_gen.fill_words(&mut self.current_line, MAX_CHARS);
        let ghost first = self.word_gen.draws();
        self.word_gen.fill_words(&mut self.next_line, MAX_CHARS);
        proof {
            let picks = self.word_gen.draws();
            assert(first.is_prefix_of(picks));
            assert(picks.take(first.len() as int) =~= first);
            assert(first.skip(0) =~= first);
        }
    }

    /// The counter of `field` once the test has begun: a test that had not started
    /// begins from cleared statistics.
    pub open spec fn begun(&self, field: u64) -> int {
        if self.stage() == TypingTestStatus::NotStarted {
            0
        } else {
            field as int
        }
    }

    /// Sets the status of the word being typed.
    fn mark_current(&mut self, status: WordStatus)
        requires
            old(self).wf(),
        ensures
            final(self).wf(),
            final(self).line() == old(self).line().update(
                old(self).position() as int,
                DisplayedWord { word: old(self).line()[old(self).position() as int].word, status },
            ),
            final(self).stage() == old(self).stage(),
            final(self).position() == old(self).position(),
            final(self).upcoming() == old(self).upcoming(),
            final(self).typed() == old(self).typed(),
            final(self).remaining() == old(self).remaining(),
            final(self).length_secs() == old(self).length_secs(),
            final(self).wpm_shown() == old(self).wpm_shown(),
            final(self).timer_shown() == old(self).timer_shown(),
            final(self).record() == old(self).record(),
            final(self).generator() == old(self).generator(),
    {
        let pos = self.current_pos;
        let word = self.current_line[pos].word.clone();
        self.current_line.set(pos, DisplayedWord { word, status });
    }

    /// Handles a change of the typed input `s`. The first input starts the test.
    /// Input that ends in a space submits the word typed (without surrounding white
    /// space, and only if something is left) against the word being typed, marks it
    /// correct or incorrect and moves on: to the next word of the line, or to the next
    /// line, when a fresh line is filled behind it. Other input only marks the word
    /// wrong once it no longer begins it. A finished test ignores input; a test whose
    /// counters are full is finished.
    pub fn input_changed(&mut self, s: &str)
        requires
            old(self).wf(),
        ensures
            final(self).wf(),
            old(self).stage() == TypingTestStatus::Finished ==> *final(self) == *old(self),
            final(self).remaining() == old(self).remaining(),
            final(self).length_secs() == old(self).length_secs(),
            final(self).wpm_shown() == old(self).wpm_shown(),
            final(self).timer_shown() == old(self).timer_shown(),
            final(self).generator().pool() == old(self).generator().pool(),
            old(self).stage() != TypingTestStatus::Finished && final(self).stage()
                == TypingTestStatus::Finished ==> {
                &&& s@.len() > 0 && s@.last() == ' ' && trimmed(s@).len() > 0
                &&& !final(self).record().has_room_for(old(self).target(), trimmed(s@))
            },
            old(self).stage() != TypingTestStatus::Finished && !(s@.len() > 0 && s@.last() == ' ')
                ==> {
                &&& final(self).stage() == TypingTestStatus::Started
                &&& final(self).typed() == s@
                &&& final(self).position() == old(self).position()
                &&& final(self).line() == old(self).line().update(
                    old(self).position() as int,
                    DisplayedWord {
                        word: old(self).line()[old(self).position() as int].word,
                        status: status_while_typing(old(self).target(), s@),
                    },
                )
                &&& final(self).upcoming() == old(self).upcoming()
                &&& final(self).record().correct_chars == old(self).begun(
                    old(self).record().correct_chars,
                )
                &&& final(self).record().incorrect_chars == old(self).begun(
                    old(self).record().incorrect_chars,
                )
                &&& final(self).record().correct_words == old(self).begun(
                    old(self).record().correct_words,
                )
                &&& final(self).record().incorrect_words == old(self).begun(
                    old(self).record().incorrect_words,
                )
            },
            old(self).stage() != TypingTestStatus::Finished && s@.len() > 0 && s@.last() == ' '
                && trimmed(s@).len() == 0 ==> {
                &&& final(self).stage() == TypingTestStatus::Started
                &&& final(self).typed().len() == 0
                &&& final(self).position() == old(self).position()
                &&& final(self).line() == old(self).line()
                &&& final(self).upcoming() == old(self).upcoming()
                &&& final(self).record().correct_chars == old(self).begun(
                    old(self).record().correct_chars,
                )
                &&& final(self).record().incorrect_chars == old(self).begun(
                    old(self).record().incorrect_chars,
                )
                &&& final(self).record().correct_words == old(self).begun(
                    old(self).record().correct_words,
                )
                &&& final(self).record().incorrect_words == old(self).begun(
                    old(self).record().incorrect_words,
                )
            },
            old(self).stage() != TypingTestStatus::Finished && s@.len() > 0 && s@.last() == ' '
                && trimmed(s@).len() > 0 && final(self).stage() != TypingTestStatus::Finished
                ==> {
                let w = old(self).target();
                let t = trimmed(s@);
                let right = w.len() > 0 && w == t;
                let last = old(self).position() + 1 >= old(self).line().len();
                &&& final(self).stage() == TypingTestStatus::Started
                &&& final(self).typed().len() == 0
                &&& final(self).record().correct_chars == old(self).begun(
                    old(self).record().correct_chars,
                ) + if w.len() > 0 {
                    correct_keystrokes(w, t) as int
                } else {
                    0
                }
                &&& final(self).record().incorrect_chars == old(self).begun(
                    old(self).record().incorrect_chars,
                ) + if w.len() > 0 {
                    incorrect_keystrokes(w, t) as int
                } else {
                    0
                }
                &&& final(self).record().correct_words == old(self).begun(
                    old(self).record().correct_words,
                ) + if right {
                    1int
                } else {
                    0int
                }
                &&& final(self).record().incorrect_words == old(self).begun(
                    old(self).record().incorrect_words,
                ) + if w.len() > 0 && !right {
                    1int
                } else {
                    0int
                }
                &&& !last ==> {
                    &&& final(self).position() == old(self).position() + 1
                    &&& final(self).line() == old(self).line().update(
                        old(self).position() as int,
                        DisplayedWord {
                            word: old(self).line()[old(self).position() as int].word,
                            status: if right {
                                WordStatus::Correct
                            } else {
                                WordStatus::Incorrect
                            },
                        },
                    )
                    &&& final(self).upcoming() == old(self).upcoming()
                }
                &&& last ==> {
                    &&& final(self).position() == 0
                    &&& final(self).line() == old(self).upcoming()
                }
            },
    {
        if self.status == TypingTestStatus::Finished {
            return;
        }
        if self.status == TypingTestStatus::NotStarted {
            self.status = TypingTestStatus::Started;
            self.stats.next_test();
        }
        if ends_with_space(s) {
            let typed = trim(s);
            if typed.unicode_len() > 0 {
                let pos = self.current_pos;
                if !self.stats.has_room(self.current_line[pos].word.as_str(), typed) {
                    self.status = TypingTestStatus::Finished;
                    return;
                }
                let is_correct = self.stats.submit_word(
                    self.current_line[pos].word.as_str(),
                    typed,
                );
                if is_correct {
                    self.mark_current(WordStatus::Correct);
                } else {
                    self.mark_current(WordStatus::Incorrect);
                }
                if self.current_pos >= self.current_line.len() - 1 {
                    self.current_pos = 0;
                    std::mem::swap(&mut self.current_line, &mut self.next_line);
                    self.word_gen.fill_words(&mut self.next_line, MAX_CHARS);
                } else {
                    self.current_pos = self.current_pos + 1;
                }
            }
            self.current_input = String::new();
        } else {
            let pos = self.current_pos;
            let fits = starts_with(self.current_line[pos].word.as_str(), s);
            if fits {
                self.mark_current(WordStatus::NotTyped);
            } else {
                self.mark_current(WordStatus::Incorrect);
            }
            self.current_input = String::from_str(s);
        }
    }

    pub fn status(&self) -> (r: TypingTestStatus)
        ensures
            r == self.stage(),
    {
        self.status
    }

    /// The index of the word being typed in the current line.
    pub fn current_pos(&self) -> (r: usize)
        ensures
            r == self.position(),
    {
        self.current_pos
    }

    pub fn current_line(&self) -> (r: &[DisplayedWord])
        ensures
            r@ == self.line(),
    {
        self.current_line.as_slice()
    }

    pub fn next_line(&self) -> (r: &[DisplayedWord])
        ensures
            r@ == self.upcoming(),
    {
        self.next_line.as_slice()
    }

    pub fn current_input(&self) -> (r: &str)
        ensures
            r@ == self.typed(),
    {
        self.current_input.as_str()
    }

    pub fn remaining_seconds(&self) -> (r: u64)
        ensures
            r == self.remaining(),
    {
        self.remaining_seconds
    }

    pub fn test_length_seconds(&self) -> (r: u64)
        ensures
            r == self.length_secs(),
    {
        self.test_length_seconds
    }

    pub fn show_wpm(&self) -> (r: bool)
        ensures
            r == self.wpm_shown(),
    {
        self.show_wpm
    }

    pub fn show_timer(&self) -> (r: bool)
        ensures
            r == self.timer_shown(),
    {
        self.show_timer
    }

    pub fn stats(&self) -> (r: &TestStats)
        ensures
            *r == self.record(),
    {
        &self.stats
    }
}

} // verus!
