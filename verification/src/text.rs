//! Character-level helpers for names, paths and messages.
use vstd::prelude::*;

verus! {

/// The characters of `s`, in order, with constant-time indexing.
pub fn chars_of(s: &str) -> (v: Vec<char>)
    ensures
        v@ == s@,
{
    let mut v: Vec<char> = Vec::new();
    for c in it: s.chars()
        invariant
            v@ == it.seq().take(it.index() as int),
            it.seq() == s@,
    {
        v.push(c);
    }
    v
}

/// Whether `pattern` stands in `s` at index `at`.
pub open spec fn has_at(s: Seq<char>, at: int, pattern: Seq<char>) -> bool {
    &&& 0 <= at
    &&& at + pattern.len() <= s.len()
    &&& forall|j: int| 0 <= j < pattern.len() ==> s[at + j] == #[trigger] pattern[j]
}

/// Whether `s` begins with `pattern`.
pub open spec fn begins_with(s: Seq<char>, pattern: Seq<char>) -> bool {
    has_at(s, 0, pattern)
}

/// A text begins with two patterns in a row exactly when it begins with the
/// first and the second stands right behind it.
pub proof fn lemma_begins_with_both(s: Seq<char>, first: Seq<char>, second: Seq<char>)
    ensures
        begins_with(s, first + second) <==> begins_with(s, first) && has_at(
            s,
            first.len() as int,
            second,
        ),
{
    let both = first + second;
    if begins_with(s, both) {
        assert forall|j: int| 0 <= j < first.len() implies s[0 + j] == #[trigger] first[j] by {
            assert(both[j] == first[j]);
        }
        assert forall|j: int| 0 <= j < second.len() implies s[first.len() + j]
            == #[trigger] second[j] by {
            assert(both[first.len() + j] == second[j]);
        }
    }
    if begins_with(s, first) && has_at(s, first.len() as int, second) {
        assert forall|j: int| 0 <= j < both.len() implies s[0 + j] == #[trigger] both[j] by {
            if j < first.len() {
                assert(both[j] == first[j]);
            } else {
                assert(both[j] == second[j - first.len()]);
            }
        }
    }
}

/// Tests whether `pattern` stands in `s` at index `at`.
pub fn stands_at(s: &Vec<char>, at: usize, pattern: &Vec<char>) -> (found: bool)
    ensures
        found == has_at(s@, at as int, pattern@),
{
    if at > s.len() || pattern.len() > s.len() - at {
        return false;
    }
    let mut j: usize = 0;
    while j < pattern.len()
        invariant
            j <= pattern.len(),
            at + pattern.len() <= s.len(),
            forall|k: int| 0 <= k < j ==> s@[at + k] == #[trigger] pattern@[k],
        decreases pattern.len() - j,
    {
        if s[at + j] != pattern[j] {
            assert(s@[at + j] != pattern@[j as int]);
            return false;
        }
        j = j + 1;
    }
    true
}

/// Whether `s` ends with `pattern`.
pub open spec fn ends_with(s: Seq<char>, pattern: Seq<char>) -> bool {
    has_at(s, s.len() - pattern.len(), pattern)
}

/// Tests whether `s` ends with `pattern`.
pub fn stands_at_end(s: &Vec<char>, pattern: &Vec<char>) -> (found: bool)
    ensures
        found == ends_with(s@, pattern@),
{
    if pattern.len() > s.len() {
        return false;
    }
    stands_at(s, s.len() - pattern.len(), pattern)
}

/// The character that writes a digit.
pub open spec fn digit(d: int) -> char {
    if d == 0 {
        '0'
    } else if d == 1 {
        '1'
    } else if d == 2 {
        '2'
    } else if d == 3 {
        '3'
    } else if d == 4 {
        '4'
    } else if d == 5 {
        '5'
    } else if d == 6 {
        '6'
    } else if d == 7 {
        '7'
    } else if d == 8 {
        '8'
    } else {
        '9'
    }
}

/// A number in decimal, without leading zeros.
pub open spec fn decimal(n: nat) -> Seq<char>
    decreases n,
{
    if n < 10 {
        seq![digit(n as int)]
    } else {
        decimal(n / 10).push(digit((n % 10) as int))
    }
}

/// The one-character text of a digit.
fn digit_text(d: usize) -> (text: &'static str)
    requires
        d < 10,
    ensures
        text@ == seq![digit(d as int)],
{
    proof {
        reveal_strlit("0");
        reveal_strlit("1");
        reveal_strlit("2");
        reveal_strlit("3");
        reveal_strlit("4");
        reveal_strlit("5");
        reveal_strlit("6");
        reveal_strlit("7");
        reveal_strlit("8");
        reveal_strlit("9");
    }
    let text = if d == 0 {
        "0"
    } else if d == 1 {
        "1"
    } else if d == 2 {
        "2"
    } else if d == 3 {
        "3"
    } else if d == 4 {
        "4"
    } else if d == 5 {
        "5"
    } else if d == 6 {
        "6"
    } else if d == 7 {
        "7"
    } else if d == 8 {
        "8"
    } else {
        "9"
    };
    assert(text@ =~= seq![digit(d as int)]);
    text
}

/// Writes a number in decimal.
pub fn decimal_string(n: usize) -> (text: String)
    ensures
        text@ == decimal(n as nat),
    decreases n,
{
    if n < 10 {
        String::from_str(digit_text(n))
    } else {
        let mut text = decimal_string(n / 10);
        text.append(digit_text(n % 10));
        assert(text@ =~= decimal(n as nat));
        text
    }
}

} // verus!
