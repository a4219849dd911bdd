use typetest_core::word_gen::{DisplayedWord, RandomWordGenerator, TestWord, WordGenerator, WordStatus};

fn pool(words: &[&str]) -> Vec<String> {
    words.iter().map(|w| w.to_string()).collect()
}

fn width(line: &[DisplayedWord]) -> usize {
    let chars: usize = line.iter().map(|w| w.word.chars().count()).sum();
    chars + line.len() - 1
}

fn texts(line: &[DisplayedWord]) -> Vec<String> {
    line.iter().map(|w| w.word.clone()).collect()
}

const POOL: [&str; 8] = ["the", "quick", "brown", "fox", "jumps", "over", "a", "lazy"];

#[test]
fn displayed_word_starts_not_typed() {
    let w = DisplayedWord::new("word");
    assert_eq!("word", w.word);
    assert_eq!(WordStatus::NotTyped, w.status);
    let t = TestWord::new("other");
    assert_eq!("other", t.word);
}

#[test]
fn lines_are_never_empty_and_fit() {
    let mut generator = RandomWordGenerator::with_seed(pool(&POOL), 7);
    let mut line = Vec::new();
    for max_chars in [0usize, 1, 5, 10, 20, 40, 80] {
        for _ in 0..20 {
            generator.fill_words(&mut line, max_chars);
            assert!(!line.is_empty());
            assert!(line.len() == 1 || width(&line) <= max_chars);
            assert!(line.iter().all(|w| w.status == WordStatus::NotTyped));
            assert!(line.iter().all(|w| POOL.contains(&w.word.as_str())));
        }
    }
}

#[test]
fn a_word_wider_than_the_line_still_stands() {
    let mut generator = RandomWordGenerator::new(pool(&["abcdefghij"]));
    let mut line = Vec::new();
    generator.fill_words(&mut line, 3);
    assert_eq!(vec!["abcdefghij".to_string()], texts(&line));
}

#[test]
fn a_line_takes_as_many_words_as_fit() {
    let mut generator = RandomWordGenerator::new(pool(&["ab"]));
    let mut line = Vec::new();
    generator.fill_words(&mut line, 8);
    // "ab ab ab" is 8 wide; a fourth word would make 11
    assert_eq!(3, line.len());
    generator.fill_words(&mut line, 10);
    assert_eq!(3, line.len());
    generator.fill_words(&mut line, 11);
    assert_eq!(4, line.len());
}

#[test]
fn empty_words_still_take_a_separator() {
    let mut generator = RandomWordGenerator::new(pool(&[""]));
    let mut line = Vec::new();
    generator.fill_words(&mut line, 3);
    assert_eq!(4, line.len());
}

#[test]
fn fill_replaces_the_previous_contents() {
    let mut generator = RandomWordGenerator::new(pool(&["ab"]));
    let mut line = vec![DisplayedWord::new("old"), DisplayedWord::new("words")];
    generator.fill_words(&mut line, 2);
    assert_eq!(vec!["ab".to_string()], texts(&line));
}

#[test]
fn same_seed_gives_same_lines() {
    let mut a = RandomWordGenerator::with_seed(pool(&POOL), 42);
    let mut b = RandomWordGenerator::with_seed(pool(&POOL), 42);
    let mut la = Vec::new();
    let mut lb = Vec::new();
    for max_chars in [10usize, 30, 65, 80] {
        a.fill_words(&mut la, max_chars);
        b.fill_words(&mut lb, max_chars);
        assert_eq!(texts(&la), texts(&lb));
    }
}

#[test]
fn retry_replays_the_same_lines() {
    let mut generator = RandomWordGenerator::new(pool(&POOL));
    let mut line = Vec::new();
    let mut first = Vec::new();
    for _ in 0..5 {
        generator.fill_words(&mut line, 65);
        first.push(texts(&line));
    }
    generator.prepare_for_retry();
    for expected in &first {
        generator.fill_words(&mut line, 65);
        assert_eq!(expected, &texts(&line));
    }
}

#[test]
fn reseeding_with_the_same_seed_replays() {
    let mut generator = RandomWordGenerator::with_seed(pool(&POOL), 3);
    let mut line = Vec::new();
    generator.fill_words(&mut line, 80);
    let first = texts(&line);
    generator.fill_words(&mut line, 80);
    generator.reseed(3);
    generator.fill_words(&mut line, 80);
    assert_eq!(first, texts(&line));
}

#[test]
fn next_test_keeps_working() {
    let mut generator = RandomWordGenerator::new(pool(&POOL));
    let mut line = Vec::new();
    generator.prepare_for_next_test();
    generator.fill_words(&mut line, 20);
    assert!(!line.is_empty());
}

#[test]
fn random_generator_is_endless() {
    let generator = RandomWordGenerator::new(pool(&POOL));
    assert!(!generator.is_finite());
    assert_eq!(None, generator.remaining_words());
}

#[test]
fn generator_works_through_the_trait() {
    let mut generator: Box<dyn WordGenerator> = Box::new(RandomWordGenerator::with_seed(pool(&POOL), 9));
    let mut line = Vec::new();
    generator.fill_words(&mut line, 30);
    let first = texts(&line);
    generator.prepare_for_retry();
    generator.fill_words(&mut line, 30);
    assert_eq!(first, texts(&line));
    assert!(!generator.is_finite());
    assert_eq!(None, generator.remaining_words());
    generator.prepare_for_next_test();
    generator.fill_words(&mut line, 30);
    assert!(!line.is_empty());
}
