//! Statistics gathered over one attempt at a typing test.

use vstd::prelude::*;
use vstd::string::*;

use crate::text::{
    correct_keystrokes, incorrect_keystrokes, lemma_keystrokes_total, longer_len, score_word,
};

verus! {

/// Keystrokes that make up one "word" when speeds are given in words per minute.
pub const CHARS_PER_WORD: u64 = 5;

/// Words per minute for `chars` keystrokes over `millis` milliseconds, rounded down
/// (and capped at `u64::MAX`). No time elapsed means no speed: 0.
pub open spec fn words_per_minute(chars: nat, millis: nat) -> nat {
    let per_minute: int = (chars * 60_000) as int;
    let word_millis: int = CHARS_PER_WORD * millis;
    if millis == 0 {
        0
    } else if per_minute / word_millis > u64::MAX {
        u64::MAX as nat
    } else {
        (per_minute / word_millis) as nat
    }
}

/// Computes [`words_per_minute`].
fn wpm_for(chars: u128, millis: u128) -> (r: u64)
    requires
        chars <= 2 * (u64::MAX as int),
        millis <= 1000 * (u64::MAX as int),
    ensures
        r == words_per_minute(chars as nat, millis as nat),
{
    if millis == 0 {
        return 0;
    }
    let num: u128 = chars * 60_000;
    assert(CHARS_PER_WORD * millis <= 5000 * (u64::MAX as int));
    let den: u128 = CHARS_PER_WORD as u128 * millis;
    let w: u128 = num / den;
    if w > u64::MAX as u128 {
        u64::MAX
    } else {
        w as u64
    }
}

/// A snapshot of the counters at some time after the start of a test.
#[derive(Clone, Copy, Debug, PartialEq, Eq, Structural)]
pub struct TestCheckpoint {
    /// Milliseconds since the test began.
    pub elapsed_millis: u64,
    pub correct_chars: u64,
    pub incorrect_chars: u64,
    pub correct_words: u64,
    pub incorrect_words: u64,
}

impl TestCheckpoint {
    /// The share of correct keystrokes, in hundredths of a percent, rounded down.
    /// `None` when nothing was typed: accuracy is undefined then.
    pub open spec fn accuracy_spec(&self) -> Option<nat> {
        let total = self.correct_chars + self.incorrect_chars;
        if total == 0 {
            None
        } else {
            Some((self.correct_chars * 10_000 / total) as nat)
        }
    }

    /// Calculates the accuracy of this checkpoint, in hundredths of a percent
    /// (`10_000` is all correct).
    pub fn accuracy_hundredths(&self) -> (r: Option<u64>)
        ensures
            r matches Some(v) ==> self.accuracy_spec() == Some(v as nat),
            r is None ==> self.accuracy_spec() is None,
    {
        let total: u128 = self.correct_chars as u128 + self.incorrect_chars as u128;
        if total == 0 {
            return None;
        }
        let scaled: u128 = self.correct_chars as u128 * 10_000;
        proof {
            let c = self.correct_chars as int;
            let t = total as int;
            assert(c * 10_000 / t <= 10_000) by (nonlinear_arith)
                requires
                    0 <= c <= t,
                    t > 0,
            ;
        }
        Some((scaled / total) as u64)
    }

    /// Calculates the effective WPM: correct keystrokes only.
    pub fn effective_wpm(&self) -> (r: u64)
        ensures
            r == words_per_minute(self.correct_chars as nat, self.elapsed_millis as nat),
    {
        wpm_for(self.correct_chars as u128, self.elapsed_millis as u128)
    }

    /// Calculates the raw WPM: every keystroke, correct or not.
    pub fn raw_wpm(&self) -> (r: u64)
        ensures
            r == words_per_minute(
                (self.correct_chars + self.incorrect_chars) as nat,
                self.elapsed_millis as nat,
            ),
    {
        let total: u128 = self.correct_chars as u128 + self.incorrect_chars as u128;
        wpm_for(total, self.elapsed_millis as u128)
    }
}

/// A word that was typed wrongly: what was expected and what was typed.
#[derive(Clone, Debug, PartialEq, Eq)]
pub struct MissedWord {
    pub expected: String,
    pub actual: String,
}

impl View for MissedWord {
    type V = (Seq<char>, Seq<char>);

    open spec fn view(&self) -> (Seq<char>, Seq<char>) {
        (self.expected@, self.actual@)
    }
}

impl MissedWord {
    /// Creates a new instance of a missed word.
    pub fn new(expected: &str, actual: &str) -> (r: MissedWord)
        ensures
            r@ == (expected@, actual@),
    {
        MissedWord { expected: String::from_str(expected), actual: String::from_str(actual) }
    }
}


/// Whether the four counters can take one more word, `e` expected and `a` typed,
/// without passing `u64::MAX`.
pub open spec fn counters_have_room(
    correct_chars: u64,
    incorrect_chars: u64,
    correct_words: u64,
    incorrect_words: u64,
    e: Seq<char>,
    a: Seq<char>,
) -> bool {
    &&& correct_chars + longer_len(e, a) + 1 <= u64::MAX
    &&& incorrect_chars + longer_len(e, a) + 1 <= u64::MAX
    &&& correct_words < u64::MAX
    &&& incorrect_words < u64::MAX
}

/// Statistics for one typing test: running counters, a log of checkpoints and
/// a log of the words that were typed wrongly, in the order they were typed.
#[derive(Debug)]
pub struct TestStats {
    pub checkpoints: Vec<TestCheckpoint>,
    pub missed_words: Vec<MissedWord>,
    pub correct_chars: u64,
    pub incorrect_chars: u64,
    pub correct_words: u64,
    pub incorrect_words: u64,
}

impl TestStats {
    /// The checkpoints taken so far, oldest first.
    pub open spec fn checkpoint_log(&self) -> Seq<TestCheckpoint> {
        self.checkpoints@
    }

    /// The missed words so far, as `(expected, typed)`, in the order they were typed.
    pub open spec fn missed_log(&self) -> Seq<(Seq<char>, Seq<char>)> {
        self.missed_words@.map_values(|m: MissedWord| m@)
    }

    /// All counters zero and both logs empty.
    pub open spec fn is_cleared(&self) -> bool {
        &&& self.correct_chars == 0
        &&& self.incorrect_chars == 0
        &&& self.correct_words == 0
        &&& self.incorrect_words == 0
        &&& self.checkpoint_log().len() == 0
        &&& self.missed_log().len() == 0
    }

    /// Whether the counters can take `a` typed for `e` without passing `u64::MAX`.
    pub open spec fn has_room_for(&self, e: Seq<char>, a: Seq<char>) -> bool {
        counters_have_room(
            self.correct_chars,
            self.incorrect_chars,
            self.correct_words,
            self.incorrect_words,
            e,
            a,
        )
    }

    /// Whether the counters can take the word `actual` typed for `expected`.
    pub fn has_room(&self, expected: &str, actual: &str) -> (r: bool)
        ensures
            r == self.has_room_for(expected@, actual@),
    {
        let el = expected.unicode_len() as u128;
        let al = actual.unicode_len() as u128;
        let longer: u128 = if el >= al {
            el
        } else {
            al
        };
        self.correct_chars as u128 + longer + 1 <= u64::MAX as u128 && self.incorrect_chars as u128
            + longer + 1 <= u64::MAX as u128 && self.correct_words < u64::MAX
            && self.incorrect_words < u64::MAX
    }

    /// Creates a new instance of test statistics.
    pub fn new() -> (r: TestStats)
        ensures
            r.is_cleared(),
    {
        let r = TestStats {
            checkpoints: Vec::new(),
            missed_words: Vec::new(),
            correct_chars: 0,
            incorrect_chars: 0,
            correct_words: 0,
            incorrect_words: 0,
        };
        assert(r.missed_log() =~= Seq::empty());
        r
    }

    /// Gets the list of missed words (in the order they were typed).
    pub fn get_missed_words(&self) -> (r: &[MissedWord])
        ensures
            r@.map_values(|m: MissedWord| m@) == self.missed_log(),
    {
        self.missed_words.as_slice()
    }

    /// Gets the latest statistics checkpoint.
    pub fn get_latest_checkpoint(&self) -> (r: Option<&TestCheckpoint>)
        ensures
            r is None <==> self.checkpoint_log().len() == 0,
            r matches Some(c) ==> *c == self.checkpoint_log().last(),
    {
        let n = self.checkpoints.len();
        if n == 0 {
            None
        } else {
            Some(&self.checkpoints[n - 1])
        }
    }

    /// Starts the next test: every counter and both logs are cleared.
    pub fn next_test(&mut self)
        ensures
            final(self).is_cleared(),
    {
        self.checkpoints.clear();
        self.missed_words.clear();
        self.correct_chars = 0;
        self.incorrect_chars = 0;
        self.correct_words = 0;
        self.incorrect_words = 0;
        assert(self.missed_log() =~= Seq::empty());
    }

    /// Submits a word for the current test, returning whether it was correct or not.
    ///
    /// An empty expected word is ignored. A correct word earns its length plus one
    /// (for the separator) in correct keystrokes; a wrong one is logged and scored
    /// position by position.
    pub fn submit_word(&mut self, expected: &str, actual: &str) -> (r: bool)
        requires
            old(self).has_room_for(expected@, actual@),
        ensures
            r == (expected@.len() > 0 && expected@ == actual@),
            r ==> final(self).correct_chars == old(self).correct_chars + expected@.len() + 1,
            r ==> final(self).incorrect_chars == old(self).incorrect_chars,
            final(self).checkpoint_log() == old(self).checkpoint_log(),
            expected@.len() == 0 ==> {
                &&& final(self).correct_chars == old(self).correct_chars
                &&& final(self).incorrect_chars == old(self).incorrect_chars
                &&& final(self).correct_words == old(self).correct_words
                &&& final(self).incorrect_words == old(self).incorrect_words
                &&& final(self).missed_log() == old(self).missed_log()
            },
            expected@.len() > 0 ==> {
                &&& final(self).correct_chars == old(self).correct_chars + correct_keystrokes(
                    expected@,
                    actual@,
                )
                &&& final(self).incorrect_chars == old(self).incorrect_chars
                    + incorrect_keystrokes(expected@, actual@)
                &&& final(self).correct_words == old(self).correct_words + if r {
                    1int
                } else {
                    0int
                }
                &&& final(self).incorrect_words == old(self).incorrect_words + if r {
                    0int
                } else {
                    1int
                }
                &&& final(self).missed_log() == if r {
                    old(self).missed_log()
                } else {
                    old(self).missed_log().push((expected@, actual@))
                }
            },
    {
        let el = expected.unicode_len();
        if el == 0 {
            return false;
        }
        let (good, bad) = score_word(expected, actual);
        let correct = crate::text::same_text(expected, actual);
        proof {
            lemma_keystrokes_total(expected@, actual@);
        }
        self.correct_chars = self.correct_chars + good;
        self.incorrect_chars = self.incorrect_chars + bad;
        if correct {
            self.correct_words = self.correct_words + 1;
        } else {
            self.incorrect_words = self.incorrect_words + 1;
            let ghost before = self.missed_log();
            self.missed_words.push(MissedWord::new(expected, actual));
            assert(self.missed_log() =~= before.push((expected@, actual@)));
        }
        correct
    }

    /// Saves a checkpoint of the counters, taken `elapsed_millis` after the start of the test.
    pub fn checkpoint(&mut self, elapsed_millis: u64)
        ensures
            final(self).checkpoint_log() == old(self).checkpoint_log().push(
                TestCheckpoint {
                    elapsed_millis,
                    correct_chars: old(self).correct_chars,
                    incorrect_chars: old(self).incorrect_chars,
                    correct_words: old(self).correct_words,
                    incorrect_words: old(self).incorrect_words,
                },
            ),
            final(self).missed_log() == old(self).missed_log(),
            final(self).correct_chars == old(self).correct_chars,
            final(self).incorrect_chars == old(self).incorrect_chars,
            final(self).correct_words == old(self).correct_words,
            final(self).incorrect_words == old(self).incorrect_words,
    {
        let snapshot = TestCheckpoint {
            elapsed_millis,
            correct_chars: self.correct_chars,
            incorrect_chars: self.incorrect_chars,
            correct_words: self.correct_words,
            incorrect_words: self.incorrect_words,
        };
        self.checkpoints.push(snapshot);
    }
}


/// The counts that a log of `(word, count)` entries gives: a later entry for a word
/// replaces an earlier one.
pub open spec fn tally_of(s: Seq<(Seq<char>, u64)>) -> Map<Seq<char>, nat>
    decreases s.len(),
{
    if s.len() == 0 {
        Map::empty()
    } else {
        tally_of(s.drop_last()).insert(s.last().0, s.last().1 as nat)
    }
}

proof fn lemma_tally_absent(s: Seq<(Seq<char>, u64)>, k: Seq<char>)
    requires
        forall|j: int| 0 <= j < s.len() ==> s[j].0 != k,
    ensures
        !tally_of(s).contains_key(k),
    decreases s.len(),
{
    if s.len() > 0 {
        lemma_tally_absent(s.drop_last(), k);
    }
}

proof fn lemma_tally_at(s: Seq<(Seq<char>, u64)>, i: int, k: Seq<char>)
    requires
        0 <= i < s.len(),
        s[i].0 == k,
        forall|j: int| i < j < s.len() ==> s[j].0 != k,
    ensures
        tally_of(s).contains_key(k),
        tally_of(s)[k] == s[i].1 as nat,
    decreases s.len(),
{
    if i < s.len() - 1 {
        lemma_tally_at(s.drop_last(), i, k);
    }
}

proof fn lemma_tally_update(s: Seq<(Seq<char>, u64)>, i: int, k: Seq<char>, c: u64)
    requires
        0 <= i < s.len(),
        s[i].0 == k,
        forall|j: int| i < j < s.len() ==> s[j].0 != k,
    ensures
        tally_of(s.update(i, (k, c))) == tally_of(s).insert(k, c as nat),
    decreases s.len(),
{
    let t = s.update(i, (k, c));
    if i == s.len() - 1 {
        assert(t.drop_last() =~= s.drop_last());
        assert(tally_of(t) =~= tally_of(s).insert(k, c as nat));
    } else {
        lemma_tally_update(s.drop_last(), i, k, c);
        assert(t.drop_last() =~= s.drop_last().update(i, (k, c)));
        assert(tally_of(t) =~= tally_of(s).insert(k, c as nat));
    }
}

/// How often each word was missed, in a log kept in order of first miss.
#[derive(Debug)]
pub struct MissedWordCounts {
    entries: Vec<(String, u64)>,
}

impl MissedWordCounts {
    closed spec fn entry_log(&self) -> Seq<(Seq<char>, u64)> {
        self.entries@.map_values(|p: (String, u64)| (p.0@, p.1))
    }
}

impl View for MissedWordCounts {
    type V = Map<Seq<char>, nat>;

    closed spec fn view(&self) -> Map<Seq<char>, nat> {
        tally_of(self.entry_log())
    }
}

/// The number of times `w` was missed, according to `m`.
pub open spec fn times_missed(m: Map<Seq<char>, nat>, w: Seq<char>) -> nat {
    if m.contains_key(w) {
        m[w]
    } else {
        0
    }
}

impl MissedWordCounts {
    /// An empty record.
    pub fn new() -> (r: MissedWordCounts)
        ensures
            r@ == Map::<Seq<char>, nat>::empty(),
    {
        let r = MissedWordCounts { entries: Vec::new() };
        assert(r.entry_log() =~= Seq::empty());
        r
    }

    /// The index of the last entry for `word`, if any.
    fn find(&self, word: &str) -> (r: Option<usize>)
        ensures
            r matches Some(i) ==> {
                &&& i < self.entry_log().len()
                &&& self.entry_log()[i as int].0 == word@
                &&& forall|j: int|
                    i < j < self.entry_log().len() ==> self.entry_log()[j].0 != word@
            },
            r is None ==> forall|j: int|
                0 <= j < self.entry_log().len() ==> self.entry_log()[j].0 != word@,
    {
        let mut i: usize = self.entries.len();
        while i > 0
            invariant
                i <= self.entries@.len(),
                self.entry_log().len() == self.entries@.len(),
                forall|j: int| i <= j < self.entry_log().len() ==> self.entry_log()[j].0 != word@,
            decreases i,
        {
            i = i - 1;
            if crate::text::same_text(self.entries[i].0.as_str(), word) {
                return Some(i);
            }
        }
        None
    }

    /// Whether no word has been missed.
    pub fn is_empty(&self) -> (r: bool)
        ensures
            r == (self@ == Map::<Seq<char>, nat>::empty()),
    {
        let n = self.entries.len();
        if n > 0 {
            proof {
                let s = self.entry_log();
                assert(tally_of(s).contains_key(s.last().0));
                assert(!Map::<Seq<char>, nat>::empty().contains_key(s.last().0));
            }
        } else {
            assert(self.entry_log() =~= Seq::empty());
        }
        n == 0
    }

    /// How often `word` was missed, if it was missed at all.
    pub fn get(&self, word: &str) -> (r: Option<u64>)
        ensures
            r matches Some(c) ==> self@.contains_key(word@) && self@[word@] == c as nat,
            r is None ==> !self@.contains_key(word@),
    {
        match self.find(word) {
            Some(i) => {
                proof {
                    lemma_tally_at(self.entry_log(), i as int, word@);
                }
                Some(self.entries[i].1)
            },
            None => {
                proof {
                    lemma_tally_absent(self.entry_log(), word@);
                }
                None
            },
        }
    }

    /// Whether `word` was missed at least once.
    pub fn contains_key(&self, word: &str) -> (r: bool)
        ensures
            r == self@.contains_key(word@),
    {
        self.get(word).is_some()
    }

    /// Forgets every missed word.
    pub fn clear(&mut self)
        ensures
            final(self)@ == Map::<Seq<char>, nat>::empty(),
    {
        self.entries.clear();
        assert(self.entry_log() =~= Seq::empty());
    }

    /// Counts one more miss of `word`.
    pub fn record(&mut self, word: &str)
        requires
            times_missed(old(self)@, word@) < u64::MAX,
        ensures
            final(self)@ == old(self)@.insert(word@, times_missed(old(self)@, word@) + 1),
    {
        let ghost s = self.entry_log();
        match self.find(word) {
            Some(i) => {
                proof {
                    lemma_tally_at(s, i as int, word@);
                    lemma_tally_update(s, i as int, word@, (s[i as int].1 + 1) as u64);
                }
                let key = self.entries[i].0.clone();
                let c = self.entries[i].1;
                self.entries.set(i, (key, c + 1));
                assert(self.entry_log() =~= s.update(i as int, (word@, (c + 1) as u64)));
            },
            None => {
                proof {
                    lemma_tally_absent(s, word@);
                }
                self.entries.push((String::from_str(word), 1));
                assert(self.entry_log().drop_last() =~= s);
            },
        }
    }
}


/// Running statistics for a typing test: counters, how often each word was missed,
/// and the speeds as of the last time update.
#[derive(Debug)]
pub struct TestStatistics {
    pub missed_words: MissedWordCounts,
    pub correct_chars: u64,
    pub incorrect_chars: u64,
    pub correct_words: u64,
    pub incorrect_words: u64,
    pub elapsed_seconds: u64,
    pub effective_wpm: u64,
    pub raw_wpm: u64,
}

impl TestStatistics {
    /// Every counter and speed zero, and no missed words.
    pub open spec fn is_cleared(&self) -> bool {
        &&& self.missed_words@ == Map::<Seq<char>, nat>::empty()
        &&& self.correct_chars == 0
        &&& self.incorrect_chars == 0
        &&& self.correct_words == 0
        &&& self.incorrect_words == 0
        &&& self.elapsed_seconds == 0
        &&& self.effective_wpm == 0
        &&& self.raw_wpm == 0
    }

    /// Whether the counters, and the count of misses of `e`, can take `a` typed for
    /// `e` without passing `u64::MAX`.
    pub open spec fn has_room_for(&self, e: Seq<char>, a: Seq<char>) -> bool {
        &&& counters_have_room(
            self.correct_chars,
            self.incorrect_chars,
            self.correct_words,
            self.incorrect_words,
            e,
            a,
        )
        &&& times_missed(self.missed_words@, e) < u64::MAX
    }

    /// Returns the missed words and how many times each was typed wrongly.
    pub fn get_missed_words(&self) -> (r: &MissedWordCounts)
        ensures
            r@ == self.missed_words@,
    {
        &self.missed_words
    }

    /// Resets the current test statistics.
    pub fn reset(&mut self)
        ensures
            final(self).is_cleared(),
    {
        self.missed_words.clear();
        self.correct_chars = 0;
        self.incorrect_chars = 0;
        self.correct_words = 0;
        self.incorrect_words = 0;
        self.elapsed_seconds = 0;
        self.effective_wpm = 0;
        self.raw_wpm = 0;
    }

    /// Submits a word and compares it to the expected one, updating the character and
    /// word counters. An empty expected word is ignored. Speeds are left as they are.
    pub fn submit_word(&mut self, expected: &str, actual: &str) -> (r: bool)
        requires
            old(self).has_room_for(expected@, actual@),
        ensures
            r == (expected@.len() > 0 && expected@ == actual@),
            r ==> final(self).correct_chars == old(self).correct_chars + expected@.len() + 1,
            r ==> final(self).incorrect_chars == old(self).incorrect_chars,
            final(self).elapsed_seconds == old(self).elapsed_seconds,
            final(self).effective_wpm == old(self).effective_wpm,
            final(self).raw_wpm == old(self).raw_wpm,
            expected@.len() == 0 ==> {
                &&& final(self).correct_chars == old(self).correct_chars
                &&& final(self).incorrect_chars == old(self).incorrect_chars
                &&& final(self).correct_words == old(self).correct_words
                &&& final(self).incorrect_words == old(self).incorrect_words
                &&& final(self).missed_words@ == old(self).missed_words@
            },
            expected@.len() > 0 ==> {
                &&& final(self).correct_chars == old(self).correct_chars + correct_keystrokes(
                    expected@,
                    actual@,
                )
                &&& final(self).incorrect_chars == old(self).incorrect_chars
                    + incorrect_keystrokes(expected@, actual@)
                &&& final(self).correct_words == old(self).correct_words + if r {
                    1int
                } else {
                    0int
                }
                &&& final(self).incorrect_words == old(self).incorrect_words + if r {
                    0int
                } else {
                    1int
                }
                &&& final(self).missed_words@ == if r {
                    old(self).missed_words@
                } else {
                    old(self).missed_words@.insert(
                        expected@,
                        times_missed(old(self).missed_words@, expected@) + 1,
                    )
                }
            },
    {
        let el = expected.unicode_len();
        if el == 0 {
            return false;
        }
        let (good, bad) = score_word(expected, actual);
        let correct = crate::text::same_text(expected, actual);
        proof {
            lemma_keystrokes_total(expected@, actual@);
        }
        self.correct_chars = self.correct_chars + good;
        self.incorrect_chars = self.incorrect_chars + bad;
        if correct {
            self.correct_words = self.correct_words + 1;
        } else {
            self.incorrect_words = self.incorrect_words + 1;
            self.missed_words.record(expected);
        }
        correct
    }

    /// Adds `elapsed_secs` seconds to the time of the test and recomputes both speeds
    /// over the whole time. Zero seconds change nothing.
    pub fn update_wpm(&mut self, elapsed_secs: u64)
        requires
            old(self).elapsed_seconds + elapsed_secs <= u64::MAX,
        ensures
            elapsed_secs == 0 ==> *final(self) == *old(self),
            elapsed_secs > 0 ==> {
                &&& final(self).elapsed_seconds == old(self).elapsed_seconds + elapsed_secs
                &&& final(self).effective_wpm == words_per_minute(
                    old(self).correct_chars as nat,
                    (final(self).elapsed_seconds * 1000) as nat,
                )
                &&& final(self).raw_wpm == words_per_minute(
                    (old(self).correct_chars + old(self).incorrect_chars) as nat,
                    (final(self).elapsed_seconds * 1000) as nat,
                )
                &&& final(self).missed_words == old(self).missed_words
                &&& final(self).correct_chars == old(self).correct_chars
                &&& final(self).incorrect_chars == old(self).incorrect_chars
                &&& final(self).correct_words == old(self).correct_words
                &&& final(self).incorrect_words == old(self).incorrect_words
            },
    {
        if elapsed_secs == 0 {
            return;
        }
        self.elapsed_seconds = self.elapsed_seconds + elapsed_secs;
        let millis: u128 = self.elapsed_seconds as u128 * 1000;
        let total: u128 = self.correct_chars as u128 + self.incorrect_chars as u128;
        self.effective_wpm = wpm_for(self.correct_chars as u128, millis);
        self.raw_wpm = wpm_for(total, millis);
    }
}

impl Default for TestStatistics {
    fn default() -> (r: TestStatistics)
        ensures
            r.is_cleared(),
    {
        TestStatistics {
            missed_words: MissedWordCounts::new(),
            correct_chars: 0,
            incorrect_chars: 0,
            correct_words: 0,
            incorrect_words: 0,
            elapsed_seconds: 0,
            effective_wpm: 0,
            raw_wpm: 0,
        }
    }
}

} // verus!
