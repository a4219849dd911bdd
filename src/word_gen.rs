//! Lines of practice words drawn at random from a word pool.

use vstd::prelude::*;
use vstd::string::*;

use rand::rngs::SmallRng;
use rand::Rng;
use rand::SeedableRng;

verus! {

/// The status of a word shown during a typing test.
#[derive(Clone, Copy, Debug, PartialEq, Eq, Structural)]
pub enum WordStatus {
    NotTyped,
    Correct,
    Incorrect,
}

/// A word that is shown during a typing test, with its status.
#[derive(Clone, Debug)]
pub struct DisplayedWord {
    pub word: String,
    pub status: WordStatus,
}

impl DisplayedWord {
    /// A word that has not been typed yet.
    pub fn new(word: &str) -> (r: DisplayedWord)
        ensures
            r.word@ == word@,
            r.status == WordStatus::NotTyped,
    {
        DisplayedWord { word: String::from_str(word), status: WordStatus::NotTyped }
    }
}

/// A word shown during a typing test, under its other name.
pub type TestWord = DisplayedWord;

/// The texts of a line of displayed words.
pub open spec fn texts_of(line: Seq<DisplayedWord>) -> Seq<Seq<char>> {
    line.map_values(|w: DisplayedWord| w.word@)
}

/// The width of words laid out on one line with a single separator between
/// neighbours.
pub open spec fn line_width(words: Seq<Seq<char>>) -> nat
    decreases words.len(),
{
    if words.len() == 0 {
        0
    } else if words.len() == 1 {
        words[0].len()
    } else {
        line_width(words.drop_last()) + 1 + words.last().len()
    }
}

/// The pool words at the given indices, in order.
pub open spec fn picked_words(pool: Seq<Seq<char>>, picks: Seq<nat>) -> Seq<Seq<char>> {
    picks.map_values(|i: nat| pool[i as int])
}

/// `picks` is the run of draws that fills one line of at most `max_chars`: the first
/// word always stands, each later one is kept while the line still fits, and the
/// last draw is the first that would not fit (it is drawn and dropped).
pub open spec fn fills_line(pool: Seq<Seq<char>>, picks: Seq<nat>, max_chars: nat) -> bool {
    &&& picks.len() >= 2
    &&& forall|k: int|
        2 <= k < picks.len() ==> line_width(picked_words(pool, picks.take(k))) <= max_chars
    &&& line_width(picked_words(pool, picks)) > max_chars
}

/// A filled line is never empty, and it is no wider than `max_chars` unless it is a
/// single word that alone is wider.
pub proof fn lemma_filled_line_bounds(pool: Seq<Seq<char>>, picks: Seq<nat>, max_chars: nat)
    requires
        fills_line(pool, picks, max_chars),
    ensures
        picked_words(pool, picks.drop_last()).len() >= 1,
        picked_words(pool, picks.drop_last()).len() == 1 || line_width(
            picked_words(pool, picks.drop_last()),
        ) <= max_chars,
{
    let k = picks.len() - 1;
    if k >= 2 {
        assert(picks.take(k) =~= picks.drop_last());
    }
}

/// Where one line ends is fixed by the draws: of the runs that start a stream of
/// draws, at most one fills a line of a given width.
pub proof fn lemma_fill_determined(
    pool: Seq<Seq<char>>,
    stream: Seq<nat>,
    n1: int,
    n2: int,
    max_chars: nat,
)
    requires
        0 <= n1 <= stream.len(),
        0 <= n2 <= stream.len(),
        fills_line(pool, stream.take(n1), max_chars),
        fills_line(pool, stream.take(n2), max_chars),
    ensures
        n1 == n2,
{
    if n1 < n2 {
        assert(stream.take(n2).take(n1) =~= stream.take(n1));
    } else if n2 < n1 {
        assert(stream.take(n1).take(n2) =~= stream.take(n2));
    }
}

/// Relies on `rand`'s `SmallRng`, a small seedable pseudo-random generator.
#[verifier::external_type_specification]
#[verifier::external_body]
pub struct ExSmallRng(SmallRng);

/// Relies on `SeedableRng::seed_from_u64`: a generator seeded from `seed`.
#[verifier::external_body]
fn rng_from_seed(seed: u64) -> SmallRng {
    SmallRng::seed_from_u64(seed)
}

/// Relies on `Rng::gen_range`: a value in `0..bound`. It panics only on an empty range.
#[verifier::external_body]
fn random_index(rng: &mut SmallRng, bound: usize) -> (r: usize)
    requires
        bound > 0,
    ensures
        r < bound,
    no_unwind
{
    rng.gen_range(0..bound)
}

/// Relies on `rand::random`: a seed drawn from the thread's generator, which the
/// operating system seeds.
#[verifier::external_body]
fn fresh_seed() -> u64 {
    rand::random::<u64>()
}

/// Common operations of word generators.
pub trait WordGenerator {
    /// Whether this generator runs out of words.
    fn is_finite(&self) -> bool;

    /// The number of words left, for a finite generator.
    fn remaining_words(&self) -> Option<usize>;

    /// Prepares this generator for a retry of the same test.
    fn prepare_for_retry(&mut self);

    /// Prepares this generator for the next test.
    fn prepare_for_next_test(&mut self);

    /// Replaces the contents of `vec` with one line of at most `max_chars`.
    fn fill_words(&mut self, vec: &mut Vec<DisplayedWord>, max_chars: usize);
}

/// An endless generator of words drawn at random from a pool. It keeps the seed of
/// its random generator, so that a test can be retried with the same words.
pub struct RandomWordGenerator {
    word_pool: Vec<String>,
    rng: SmallRng,
    rng_seed: u64,
    draws: Ghost<Seq<nat>>,
}

impl RandomWordGenerator {
    /// The words that are drawn from.
    pub closed spec fn pool(&self) -> Seq<Seq<char>> {
        self.word_pool@.map_values(|w: String| w@)
    }

    /// The seed of the current run of draws.
    pub closed spec fn seed(&self) -> u64 {
        self.rng_seed
    }

    /// The pool indices drawn since the generator was last seeded, oldest first.
    pub closed spec fn draws(&self) -> Seq<nat> {
        self.draws@
    }

    #[verifier::type_invariant]
    spec fn inv(&self) -> bool {
        &&& self.word_pool@.len() > 0
        &&& forall|i: int| 0 <= i < self.draws@.len() ==> self.draws@[i] < self.word_pool@.len()
    }

    /// A generator over `word_pool` whose draws start from `seed`.
    pub fn with_seed(word_pool: Vec<String>, seed: u64) -> (r: RandomWordGenerator)
        requires
            word_pool@.len() > 0,
        ensures
            r.pool() == word_pool@.map_values(|w: String| w@),
            r.seed() == seed,
            r.draws() == Seq::<nat>::empty(),
    {
        RandomWordGenerator {
            word_pool,
            rng: rng_from_seed(seed),
            rng_seed: seed,
            draws: Ghost(Seq::empty()),
        }
    }

    /// A generator over `word_pool` with a fresh random seed.
    pub fn new(word_pool: Vec<String>) -> (r: RandomWordGenerator)
        requires
            word_pool@.len() > 0,
        ensures
            r.pool() == word_pool@.map_values(|w: String| w@),
            r.draws() == Seq::<nat>::empty(),
    {
        let seed = fresh_seed();
        RandomWordGenerator::with_seed(word_pool, seed)
    }

    /// This generator never runs out of words.
    pub fn is_finite(&self) -> (r: bool)
        ensures
            !r,
    {
        false
    }

    /// An endless generator has no count of remaining words.
    pub fn remaining_words(&self) -> (r: Option<usize>)
        ensures
            r is None,
    {
        None
    }

    /// Restarts the draws from `seed`, which is kept for later retries.
    pub fn reseed(&mut self, seed: u64)
        ensures
            final(self).pool() == old(self).pool(),
            final(self).seed() == seed,
            final(self).draws() == Seq::<nat>::empty(),
    {
        proof {
            use_type_invariant(&*self);
        }
        self.rng_seed = seed;
        self.rng = rng_from_seed(seed);
        self.draws = Ghost(Seq::empty());
    }

    /// Prepares this generator for a retry of the same test: the draws start again
    /// from the kept seed.
    pub fn prepare_for_retry(&mut self)
        ensures
            final(self).pool() == old(self).pool(),
            final(self).seed() == old(self).seed(),
            final(self).draws() == Seq::<nat>::empty(),
    {
        let seed = self.rng_seed;
        self.reseed(seed);
    }

    /// Prepares this generator for the next test: the draws start from a fresh seed.
    pub fn prepare_for_next_test(&mut self)
        ensures
            final(self).pool() == old(self).pool(),
            final(self).draws() == Seq::<nat>::empty(),
    {
        let seed = fresh_seed();
        self.reseed(seed);
    }

    /// Draws one pool index and notes it.
    fn draw(&mut self) -> (r: usize)
        ensures
            final(self).pool() == old(self).pool(),
            final(self).seed() == old(self).seed(),
            r < final(self).pool().len(),
            final(self).draws() == old(self).draws().push(r as nat),
    {
        proof {
            use_type_invariant(&*self);
        }
        let i = random_index(&mut self.rng, self.word_pool.len());
        self.draws = Ghost(self.draws@.push(i as nat));
        i
    }

    /// Replaces the contents of `vec` with one line of words of at most `max_chars`,
    /// counting one separator between neighbouring words. The first word always
    /// stands, even when it alone is wider than `max_chars`.
    pub fn fill_words(&mut self, vec: &mut Vec<DisplayedWord>, max_chars: usize)
        ensures
            final(self).pool() == old(self).pool(),
            final(self).seed() == old(self).seed(),
            old(self).draws().is_prefix_of(final(self).draws()),
            ({
                let picks = final(self).draws().skip(old(self).draws().len() as int);
                &&& fills_line(final(self).pool(), picks, max_chars as nat)
                &&& texts_of(final(vec)@) == picked_words(final(self).pool(), picks.drop_last())
            }),
            final(vec)@.len() >= 1,
            final(vec)@.len() == 1 || line_width(texts_of(final(vec)@)) <= max_chars,
            forall|i: int|
                0 <= i < final(vec)@.len() ==> final(vec)@[i].status == WordStatus::NotTyped,
    {
        let ghost start = self.draws@;
        let ghost pool = self.pool();
        vec.clear();
        let first = self.draw();
        let mut width: usize = self.word_pool[first].unicode_len();
        vec.push(DisplayedWord::new(self.word_pool[first].as_str()));
        proof {
            assert(self.draws@.skip(start.len() as int) =~= seq![first as nat]);
            assert(texts_of(vec@) =~= picked_words(pool, seq![first as nat]));
            assert(line_width(picked_words(pool, seq![first as nat])) == width);
        }
        loop
            invariant_except_break
                ({
                    let picks = self.draws@.skip(start.len() as int);
                    &&& picks.len() >= 1
                    &&& picks.len() == vec@.len()
                    &&& texts_of(vec@) == picked_words(pool, picks)
                    &&& line_width(picked_words(pool, picks)) == width
                    &&& forall|k: int|
                        2 <= k <= picks.len() ==> line_width(picked_words(pool, picks.take(k)))
                            <= max_chars
                }),
            invariant
                self.pool() == pool,
                self.seed() == old(self).seed(),
                start.is_prefix_of(self.draws@),
                pool.len() == self.word_pool@.len(),
                forall|i: int| 0 <= i < vec@.len() ==> vec@[i].status == WordStatus::NotTyped,
            ensures
                ({
                    let picks = self.draws@.skip(start.len() as int);
                    &&& fills_line(pool, picks, max_chars as nat)
                    &&& texts_of(vec@) == picked_words(pool, picks.drop_last())
                }),
            decreases max_chars - width + 1,
        {
            let ghost before = self.draws@.skip(start.len() as int);
            let ghost line_before = vec@;
            let i = self.draw();
            let len = self.word_pool[i].unicode_len();
            let ghost picks = self.draws@.skip(start.len() as int);
            proof {
                assert(picks =~= before.push(i as nat));
                assert(picks.drop_last() =~= before);
                assert(picked_words(pool, picks).drop_last() =~= picked_words(pool, before));
            }
            if width >= max_chars || len > max_chars - width - 1 {
                proof {
                    assert forall|k: int| 2 <= k < picks.len() implies line_width(
                        picked_words(pool, picks.take(k)),
                    ) <= max_chars by {
                        assert(picks.take(k) =~= before.take(k));
                    }
                }
                break;
            }
            let w = DisplayedWord::new(self.word_pool[i].as_str());
            vec.push(w);
            width = width + 1 + len;
            proof {
                assert(texts_of(vec@) =~= texts_of(line_before).push(pool[i as int]));
                assert(picked_words(pool, picks) =~= picked_words(pool, before).push(
                    pool[i as int],
                ));
                assert forall|k: int| 2 <= k <= picks.len() implies line_width(
                    picked_words(pool, picks.take(k)),
                ) <= max_chars by {
                    if k < picks.len() {
                        assert(picks.take(k) =~= before.take(k));
                    } else {
                        assert(picks.take(k) =~= picks);
                    }
                }
            }
        }
        proof {
            let picks = self.draws@.skip(start.len() as int);
            lemma_filled_line_bounds(pool, picks, max_chars as nat);
            assert(vec@.len() == texts_of(vec@).len());
        }
    }
}

impl WordGenerator for RandomWordGenerator {
    fn is_finite(&self) -> bool {
        false
    }

    fn remaining_words(&self) -> Option<usize> {
        None
    }

    fn prepare_for_retry(&mut self) {
        RandomWordGenerator::prepare_for_retry(self);
    }

    fn prepare_for_next_test(&mut self) {
        RandomWordGenerator::prepare_for_next_test(self);
    }

    fn fill_words(&mut self, vec: &mut Vec<DisplayedWord>, max_chars: usize) {
        RandomWordGenerator::fill_words(self, vec, max_chars);
    }
}

} // verus!
