//! Character-level comparison of typed words against the words expected.

use vstd::prelude::*;
use vstd::string::*;

verus! {

/// How many of the first `n` positions hold the same character in both texts.
pub open spec fn matching_positions(e: Seq<char>, a: Seq<char>, n: nat) -> nat
    decreases n,
{
    if n == 0 {
        0
    } else {
        matching_positions(e, a, (n - 1) as nat) + if e[n - 1] == a[n - 1] {
            1nat
        } else {
            0nat
        }
    }
}

/// How many of the first `n` positions hold different characters in the two texts.
pub open spec fn differing_positions(e: Seq<char>, a: Seq<char>, n: nat) -> nat
    decreases n,
{
    if n == 0 {
        0
    } else {
        differing_positions(e, a, (n - 1) as nat) + if e[n - 1] == a[n - 1] {
            0nat
        } else {
            1nat
        }
    }
}

/// The length of the shorter of the two texts.
pub open spec fn shared_len(e: Seq<char>, a: Seq<char>) -> nat {
    if e.len() <= a.len() {
        e.len()
    } else {
        a.len()
    }
}

/// Keystrokes credited as correct when `a` is typed (and the separator pressed) for `e`.
pub open spec fn correct_keystrokes(e: Seq<char>, a: Seq<char>) -> nat {
    if e == a {
        e.len() + 1
    } else {
        matching_positions(e, a, shared_len(e, a)) + if e.len() == a.len() {
            1nat
        } else {
            0nat
        }
    }
}

/// Keystrokes counted as wrong when `a` is typed (and the separator pressed) for `e`:
/// differing positions, then the missing or extra characters and the misplaced separator.
pub open spec fn incorrect_keystrokes(e: Seq<char>, a: Seq<char>) -> nat {
    if e == a {
        0
    } else if e.len() == a.len() {
        differing_positions(e, a, shared_len(e, a))
    } else if e.len() > a.len() {
        differing_positions(e, a, shared_len(e, a)) + 1 + (e.len() - a.len()) as nat
    } else {
        differing_positions(e, a, shared_len(e, a)) + 1 + (a.len() - e.len()) as nat
    }
}

/// The larger of the two lengths.
pub open spec fn longer_len(e: Seq<char>, a: Seq<char>) -> nat {
    if e.len() >= a.len() {
        e.len()
    } else {
        a.len()
    }
}

pub proof fn lemma_positions_split(e: Seq<char>, a: Seq<char>, n: nat)
    ensures
        matching_positions(e, a, n) + differing_positions(e, a, n) == n,
    decreases n,
{
    if n > 0 {
        lemma_positions_split(e, a, (n - 1) as nat);
    }
}

/// Every submitted word accounts for one keystroke per character of the longer
/// text, plus the separator.
pub proof fn lemma_keystrokes_total(e: Seq<char>, a: Seq<char>)
    ensures
        correct_keystrokes(e, a) + incorrect_keystrokes(e, a) == longer_len(e, a) + 1,
{
    lemma_positions_split(e, a, shared_len(e, a));
}

/// Whether two texts hold the same characters.
pub fn same_text(x: &str, y: &str) -> (r: bool)
    ensures
        r == (x@ == y@),
{
    let xl = x.unicode_len();
    let yl = y.unicode_len();
    if xl != yl {
        return false;
    }
    let mut i: usize = 0;
    while i < xl
        invariant
            xl == x@.len(),
            yl == y@.len(),
            xl == yl,
            i <= xl,
            forall|j: int| 0 <= j < i ==> x@[j] == y@[j],
        decreases xl - i,
    {
        if x.get_char(i) != y.get_char(i) {
            return false;
        }
        i = i + 1;
    }
    assert(x@ =~= y@);
    true
}

/// Counts the keystrokes of typing `actual` for `expected`: `(correct, incorrect)`.
pub fn score_word(expected: &str, actual: &str) -> (r: (u64, u64))
    requires
        longer_len(expected@, actual@) + 1 <= u64::MAX,
    ensures
        r.0 == correct_keystrokes(expected@, actual@),
        r.1 == incorrect_keystrokes(expected@, actual@),
{
    let el = expected.unicode_len();
    let al = actual.unicode_len();
    if same_text(expected, actual) {
        return (el as u64 + 1, 0);
    }
    let n = if el <= al {
        el
    } else {
        al
    };
    let mut matching: u64 = 0;
    let mut differing: u64 = 0;
    let mut i: usize = 0;
    while i < n
        invariant
            el == expected@.len(),
            al == actual@.len(),
            n == shared_len(expected@, actual@),
            longer_len(expected@, actual@) + 1 <= u64::MAX,
            i <= n,
            matching == matching_positions(expected@, actual@, i as nat),
            differing == differing_positions(expected@, actual@, i as nat),
        decreases n - i,
    {
        proof {
            lemma_positions_split(expected@, actual@, i as nat);
        }
        if expected.get_char(i) == actual.get_char(i) {
            matching = matching + 1;
        } else {
            differing = differing + 1;
        }
        i = i + 1;
    }
    proof {
        lemma_positions_split(expected@, actual@, n as nat);
    }
    if el == al {
        (matching + 1, differing)
    } else if el > al {
        (matching, differing + 1 + (el - al) as u64)
    } else {
        (matching, differing + 1 + (al - el) as u64)
    }
}


/// The characters with Unicode's `White_Space` property.
pub open spec fn is_white_space(c: char) -> bool {
    let v = c as u32;
    ||| 0x9 <= v <= 0xd
    ||| v == 0x20
    ||| v == 0x85
    ||| v == 0xa0
    ||| v == 0x1680
    ||| 0x2000 <= v <= 0x200a
    ||| v == 0x2028
    ||| v == 0x2029
    ||| v == 0x202f
    ||| v == 0x205f
    ||| v == 0x3000
}

/// Whether `c` is white space.
pub fn white_space(c: char) -> (r: bool)
    ensures
        r == is_white_space(c),
{
    let v = c as u32;
    (0x9 <= v && v <= 0xd) || v == 0x20 || v == 0x85 || v == 0xa0 || v == 0x1680 || (0x2000
        <= v && v <= 0x200a) || v == 0x2028 || v == 0x2029 || v == 0x202f || v == 0x205f || v
        == 0x3000
}

/// The first index from `i` on that holds no white space (or the length).
pub open spec fn skip_white_from(s: Seq<char>, i: nat) -> nat
    decreases s.len() - i,
{
    if i >= s.len() {
        s.len()
    } else if is_white_space(s[i as int]) {
        skip_white_from(s, i + 1)
    } else {
        i
    }
}

/// The end of `s.take(j)` once trailing white space is dropped.
pub open spec fn skip_white_back(s: Seq<char>, j: nat) -> nat
    decreases j,
{
    if j == 0 || j > s.len() {
        0
    } else if is_white_space(s[j - 1]) {
        skip_white_back(s, (j - 1) as nat)
    } else {
        j
    }
}

/// `s` without leading and trailing white space.
pub open spec fn trimmed(s: Seq<char>) -> Seq<char> {
    let a = skip_white_from(s, 0);
    let b = skip_white_back(s, s.len());
    if a >= b {
        Seq::empty()
    } else {
        s.subrange(a as int, b as int)
    }
}

/// Returns `s` without leading and trailing white space.
pub fn trim(s: &str) -> (r: &str)
    ensures
        r@ == trimmed(s@),
{
    let n = s.unicode_len();
    let mut a: usize = 0;
    while a < n && white_space(s.get_char(a))
        invariant
            n == s@.len(),
            a <= n,
            skip_white_from(s@, a as nat) == skip_white_from(s@, 0),
        decreases n - a,
    {
        a = a + 1;
    }
    let mut b: usize = n;
    while b > 0 && white_space(s.get_char(b - 1))
        invariant
            n == s@.len(),
            b <= n,
            skip_white_back(s@, b as nat) == skip_white_back(s@, n as nat),
        decreases b,
    {
        b = b - 1;
    }
    if a >= b {
        s.substring_char(0, 0)
    } else {
        s.substring_char(a, b)
    }
}

/// Whether the last character of `s` is a space.
pub fn ends_with_space(s: &str) -> (r: bool)
    ensures
        r == (s@.len() > 0 && s@.last() == ' '),
{
    let n = s.unicode_len();
    n > 0 && s.get_char(n - 1) == ' '
}

/// Whether `text` begins with `prefix`.
pub fn starts_with(text: &str, prefix: &str) -> (r: bool)
    ensures
        r == (prefix@.len() <= text@.len() && text@.take(prefix@.len() as int) == prefix@),
{
    let tl = text.unicode_len();
    let pl = prefix.unicode_len();
    if pl > tl {
        return false;
    }
    let mut i: usize = 0;
    while i < pl
        invariant
            tl == text@.len(),
            pl == prefix@.len(),
            pl <= tl,
            i <= pl,
            forall|j: int| 0 <= j < i ==> text@[j] == prefix@[j],
        decreases pl - i,
    {
        if text.get_char(i) != prefix.get_char(i) {
            assert(text@.take(pl as int)[i as int] != prefix@[i as int]);
            return false;
        }
        i = i + 1;
    }
    assert(text@.take(pl as int) =~= prefix@);
    true
}

} // verus!
