//! The convention for test functions:
//! `test(Fork)?(Fuzz)?(_Revert(If|When|On))?_\w+`.
use vstd::prelude::*;
use crate::declarations::{
    declaration_views, declarations, extract, Declaration, DeclarationKind, DeclarationView,
};
use crate::files::FileRole;
use crate::lines::{line_at, line_of};
use crate::report::{finding_view, views, InvalidItem, InvalidItemView, Validator};
use crate::text::{begins_with, chars_of, has_at, lemma_begins_with_both, stands_at};
use crate::tree::SourceTree;

verus! {

/// Whether the regular-expression class `\w` holds a character.
pub uninterp spec fn word_character(c: char) -> bool;

/// The ASCII characters that `\w` holds: `[_0-9a-zA-Z]`.
pub open spec fn is_ascii_word(c: char) -> bool {
    c == '_' || ('0' <= c && c <= '9') || ('a' <= c && c <= 'z') || ('A' <= c && c <= 'Z')
}

/// Whether a character is an ASCII character.
pub open spec fn is_ascii_character(c: char) -> bool {
    c <= '\x7f'
}

/// `regex_syntax::is_word_character`: the membership test of the Unicode
/// class `\w`. The contract names the answer, which is a function of the
/// character alone, and says what it is for an ASCII character: the function
/// first asks `is_word_byte`, which holds `[_0-9a-zA-Z]`, and then looks the
/// character up in a table whose only ASCII entries are these. The call
/// panics where the crate is built without its `unicode-perl` tables, which
/// this crate asks for.
#[verifier::external_body]
fn is_word_character(c: char) -> (word: bool)
    ensures
        word == word_character(c),
        is_ascii_character(c) ==> word == is_ascii_word(c),
{
    regex_syntax::is_word_character(c)
}

/// How the name of a test may announce a revert.
pub enum Revert {
    If,
    When,
    On,
}

/// `test`, with which the name of every test begins.
pub open spec fn test_word() -> Seq<char> {
    seq!['t', 'e', 's', 't']
}

/// `Fork`, for a test that runs against a fork.
pub open spec fn fork_word() -> Seq<char> {
    seq!['F', 'o', 'r', 'k']
}

/// `Fuzz`, for a test that takes fuzzed arguments.
pub open spec fn fuzz_word() -> Seq<char> {
    seq!['F', 'u', 'z', 'z']
}

/// `_RevertIf`
pub open spec fn revert_if_word() -> Seq<char> {
    seq!['_', 'R', 'e', 'v', 'e', 'r', 't', 'I', 'f']
}

/// `_RevertWhen`
pub open spec fn revert_when_word() -> Seq<char> {
    seq!['_', 'R', 'e', 'v', 'e', 'r', 't', 'W', 'h', 'e', 'n']
}

/// `_RevertOn`
pub open spec fn revert_on_word() -> Seq<char> {
    seq!['_', 'R', 'e', 'v', 'e', 'r', 't', 'O', 'n']
}

/// The optional part `_RevertIf`, `_RevertWhen` or `_RevertOn`.
pub open spec fn revert_word(revert: Option<Revert>) -> Seq<char> {
    match revert {
        None => Seq::empty(),
        Some(Revert::If) => revert_if_word(),
        Some(Revert::When) => revert_when_word(),
        Some(Revert::On) => revert_on_word(),
    }
}

/// What a test name begins with, for one choice of its optional parts:
/// `test`, then `Fork`, then `Fuzz`, then the revert part.
pub open spec fn test_name_head(fork: bool, fuzz: bool, revert: Option<Revert>) -> Seq<char> {
    test_word() + (if fork {
        fork_word()
    } else {
        Seq::empty()
    }) + (if fuzz {
        fuzz_word()
    } else {
        Seq::empty()
    }) + revert_word(revert)
}

/// `_\w+` from index `at` to the end of the name: an underscore, then one or
/// more word characters. `word[i]` says whether `s[i]` is a word character.
pub open spec fn description_at(s: Seq<char>, word: Seq<bool>, at: int) -> bool {
    &&& 0 <= at
    &&& at + 1 < s.len()
    &&& s[at] == '_'
    &&& forall|i: int| at < i < s.len() ==> #[trigger] word[i]
}

/// Whether the name reads as the pattern with the given choice of its
/// optional parts.
pub open spec fn reads_as(
    s: Seq<char>,
    word: Seq<bool>,
    fork: bool,
    fuzz: bool,
    revert: Option<Revert>,
) -> bool {
    &&& begins_with(s, test_name_head(fork, fuzz, revert))
    &&& description_at(s, word, test_name_head(fork, fuzz, revert).len() as int)
}

/// The whole name matches `test(Fork)?(Fuzz)?(_Revert(If|When|On))?_\w+`,
/// where `word[i]` says whether `s[i]` is a word character.
pub open spec fn test_name_pattern(s: Seq<char>, word: Seq<bool>) -> bool {
    exists|fork: bool, fuzz: bool, revert: Option<Revert>| #[trigger]
        reads_as(s, word, fork, fuzz, revert)
}

/// For each character of a name, whether `\w` holds it.
pub open spec fn word_flags(s: Seq<char>) -> Seq<bool> {
    Seq::new(s.len(), |i: int| word_character(s[i]))
}

/// For each character of a name, whether `[_0-9a-zA-Z]` holds it.
pub open spec fn ascii_word_flags(s: Seq<char>) -> Seq<bool> {
    Seq::new(s.len(), |i: int| is_ascii_word(s[i]))
}

/// Whether a name is made of ASCII characters alone, as every Solidity
/// identifier is.
pub open spec fn is_ascii_name(s: Seq<char>) -> bool {
    forall|i: int| 0 <= i < s.len() ==> is_ascii_character(#[trigger] s[i])
}

/// The names that a function may have in a test file: one that does not
/// begin with `test` is no test and passes; one that does must match the
/// pattern.
pub open spec fn valid_test_name(s: Seq<char>) -> bool {
    begins_with(s, test_word()) ==> test_name_pattern(s, word_flags(s))
}

/// The same for a name of ASCII characters, where the word characters are
/// `[_0-9a-zA-Z]`.
pub open spec fn valid_ascii_test_name(s: Seq<char>) -> bool {
    begins_with(s, test_word()) ==> test_name_pattern(s, ascii_word_flags(s))
}

/// The length of `test`, `Fork` and `Fuzz` as far as they are chosen.
pub open spec fn prefix_len(fork: bool, fuzz: bool) -> int {
    4 + (if fork {
        4int
    } else {
        0int
    }) + (if fuzz {
        4int
    } else {
        0int
    })
}

/// Reading a name with one choice of the optional parts comes to finding
/// each chosen part at its place, and the description behind them.
pub proof fn lemma_reads_as_parts(
    s: Seq<char>,
    word: Seq<bool>,
    fork: bool,
    fuzz: bool,
    revert: Option<Revert>,
)
    ensures
        reads_as(s, word, fork, fuzz, revert) <==> {
            &&& begins_with(s, test_word())
            &&& fork ==> has_at(s, 4, fork_word())
            &&& fuzz ==> has_at(s, prefix_len(fork, false), fuzz_word())
            &&& has_at(s, prefix_len(fork, fuzz), revert_word(revert))
            &&& description_at(s, word, prefix_len(fork, fuzz) + revert_word(revert).len())
        },
{
    let first = if fork {
        fork_word()
    } else {
        Seq::empty()
    };
    let second = if fuzz {
        fuzz_word()
    } else {
        Seq::empty()
    };
    lemma_begins_with_both(s, test_word(), first);
    lemma_begins_with_both(s, test_word() + first, second);
    lemma_begins_with_both(s, test_word() + first + second, revert_word(revert));
}

/// Which of `Fork` and `Fuzz` a name holds is decided by the name: a name
/// that begins with one choice of head holds `Fork` right behind `test`
/// exactly when the choice has it, and `Fuzz` likewise.
pub proof fn lemma_choice_forced(s: Seq<char>, fork: bool, fuzz: bool, revert: Option<Revert>)
    requires
        begins_with(s, test_name_head(fork, fuzz, revert) + seq!['_']),
    ensures
        fork == has_at(s, 4, fork_word()),
        fuzz == has_at(s, prefix_len(fork, false), fuzz_word()),
{
    let first = if fork {
        fork_word()
    } else {
        Seq::empty()
    };
    let second = if fuzz {
        fuzz_word()
    } else {
        Seq::empty()
    };
    let rest = revert_word(revert) + seq!['_'];
    assert(test_name_head(fork, fuzz, revert) + seq!['_'] =~= test_word() + first + second + rest);
    lemma_begins_with_both(s, test_word(), first);
    lemma_begins_with_both(s, test_word() + first, second);
    lemma_begins_with_both(s, test_word() + first + second, rest);
    let at = prefix_len(fork, fuzz);
    assert(s[at] == '_') by {
        assert(rest[0] == '_');
        assert(s[at + 0] == rest[0]);
    }
    if !fork && has_at(s, 4, fork_word()) {
        assert(s[4int + 0] == fork_word()[0]);
        assert(s[4int + 1] == fork_word()[1]);
        if fuzz {
            assert(s[4int + 1] == fuzz_word()[1]);
        }
    }
    if !fuzz && has_at(s, prefix_len(fork, false), fuzz_word()) {
        assert(s[at + 0] == fuzz_word()[0]);
    }
}

/// Tests for `_\w+` from index `at` to the end of the name.
fn describes_at(name: &Vec<char>, word: &Vec<bool>, at: usize) -> (found: bool)
    requires
        word.len() == name.len(),
    ensures
        found == description_at(name@, word@, at as int),
{
    if at >= name.len() || name.len() - at < 2 || name[at] != '_' {
        return false;
    }
    let mut i: usize = at + 1;
    while i < name.len()
        invariant
            at < i <= name.len(),
            word.len() == name.len(),
            forall|k: int| at < k < i ==> #[trigger] word@[k],
        decreases name.len() - i,
    {
        if !word[i] {
            return false;
        }
        i = i + 1;
    }
    true
}

/// Whether a name matches the pattern for test functions, given for each of
/// its characters whether it is a word character.
pub fn matches_test_pattern(name: &Vec<char>, word: &Vec<bool>) -> (found: bool)
    requires
        word.len() == name.len(),
    ensures
        found == test_name_pattern(name@, word@),
{
    let ghost s = name@;
    let ghost w = word@;
    proof {
        assert forall|fork: bool, fuzz: bool, revert: Option<Revert>|
            reads_as(s, w, fork, fuzz, revert) == {
                &&& begins_with(s, test_word())
                &&& fork ==> has_at(s, 4, fork_word())
                &&& fuzz ==> has_at(s, prefix_len(fork, false), fuzz_word())
                &&& has_at(s, prefix_len(fork, fuzz), revert_word(revert))
                &&& description_at(s, w, prefix_len(fork, fuzz) + revert_word(revert).len())
            } by {
            lemma_reads_as_parts(s, w, fork, fuzz, revert);
        }
    }
    let test = vec!['t', 'e', 's', 't'];
    assert(test@ =~= test_word());
    if !stands_at(name, 0, &test) {
        return false;
    }
    let fork_pattern = vec!['F', 'o', 'r', 'k'];
    let fuzz_pattern = vec!['F', 'u', 'z', 'z'];
    let if_pattern = vec!['_', 'R', 'e', 'v', 'e', 'r', 't', 'I', 'f'];
    let when_pattern = vec!['_', 'R', 'e', 'v', 'e', 'r', 't', 'W', 'h', 'e', 'n'];
    let on_pattern = vec!['_', 'R', 'e', 'v', 'e', 'r', 't', 'O', 'n'];
    assert(fork_pattern@ =~= fork_word());
    assert(fuzz_pattern@ =~= fuzz_word());
    assert(if_pattern@ =~= revert_if_word());
    assert(when_pattern@ =~= revert_when_word());
    assert(on_pattern@ =~= revert_on_word());
    let mut at: usize = 4;
    let fork = stands_at(name, at, &fork_pattern);
    if fork {
        at = at + 4;
    }
    let fuzz = stands_at(name, at, &fuzz_pattern);
    if fuzz {
        at = at + 4;
    }
    assert(at == prefix_len(fork, fuzz));
    let revert_if = stands_at(name, at, &if_pattern);
    let revert_when = stands_at(name, at, &when_pattern);
    let revert_on = stands_at(name, at, &on_pattern);
    let found = (revert_if && describes_at(name, word, at + 9)) || (revert_when && describes_at(
        name,
        word,
        at + 11,
    )) || (revert_on && describes_at(name, word, at + 9)) || describes_at(name, word, at);
    proof {
        if found {
            let revert = if revert_if && description_at(s, w, at + 9) {
                Some(Revert::If)
            } else if revert_when && description_at(s, w, at + 11) {
                Some(Revert::When)
            } else if revert_on && description_at(s, w, at + 9) {
                Some(Revert::On)
            } else {
                None
            };
            assert(revert_word(revert).len() == match revert {
                Some(Revert::When) => 11int,
                Some(_) => 9int,
                None => 0int,
            });
            assert(reads_as(s, w, fork, fuzz, revert));
        } else {
            assert forall|fork2: bool, fuzz2: bool, revert2: Option<Revert>|
                !reads_as(s, w, fork2, fuzz2, revert2) by {
                if reads_as(s, w, fork2, fuzz2, revert2) {
                    lemma_choice_forced(s, fork2, fuzz2, revert2);
                    assert(fork2 == fork);
                    assert(fuzz2 == fuzz);
                    assert(false);
                }
            }
        }
    }
    found
}

/// For each character of a name, whether it is a word character.
pub fn word_flags_of(name: &Vec<char>) -> (word: Vec<bool>)
    ensures
        word@ == word_flags(name@),
        is_ascii_name(name@) ==> word@ == ascii_word_flags(name@),
{
    let mut word: Vec<bool> = Vec::new();
    let mut i: usize = 0;
    while i < name.len()
        invariant
            i <= name.len(),
            word.len() == i,
            forall|k: int| 0 <= k < i ==> word@[k] == word_character(#[trigger] name@[k]),
            forall|k: int|
                0 <= k < i && is_ascii_character(#[trigger] name@[k]) ==> word@[k] == is_ascii_word(
                    name@[k],
                ),
        decreases name.len() - i,
    {
        word.push(is_word_character(name[i]));
        i = i + 1;
    }
    proof {
        assert(word@ =~= word_flags(name@));
        if is_ascii_name(name@) {
            assert(word@ =~= ascii_word_flags(name@));
        }
    }
    word
}

/// Whether `name` is a valid name for a function in a test file.
pub fn is_valid_test_name(name: &str) -> (valid: bool)
    ensures
        valid == valid_test_name(name@),
        is_ascii_name(name@) ==> valid == valid_ascii_test_name(name@),
{
    let chars = chars_of(name);
    let test = vec!['t', 'e', 's', 't'];
    assert(test@ =~= test_word());
    if !stands_at(&chars, 0, &test) {
        return true;
    }
    let word = word_flags_of(&chars);
    matches_test_pattern(&chars, &word)
}

/// A name that does not begin with `test` is valid, whatever its shape.
pub proof fn lemma_other_names_are_valid(s: Seq<char>)
    requires
        !begins_with(s, test_word()),
    ensures
        valid_test_name(s),
{
}

/// A name that begins with `test` is valid exactly when it matches
/// `test(Fork)?(Fuzz)?(_Revert(If|When|On))?_\w+`.
pub proof fn lemma_test_names_follow_pattern(s: Seq<char>)
    requires
        begins_with(s, test_word()),
    ensures
        valid_test_name(s) <==> test_name_pattern(s, word_flags(s)),
{
}

/// What the convention finds in one declaration: a function whose name is
/// not valid is reported by its name, at its line.
pub open spec fn test_finding(
    file: Seq<char>,
    content: Seq<char>,
    declaration: DeclarationView,
) -> Option<InvalidItemView> {
    if declaration.kind == DeclarationKind::Function && !valid_test_name(declaration.name) {
        Some(
            InvalidItemView {
                kind: Validator::Test,
                file,
                text: declaration.name,
                line: line_at(content, declaration.start),
            },
        )
    } else {
        None
    }
}

/// What the convention finds in a file: nothing unless it is a test file,
/// else the finding of each declaration, in source order.
pub open spec fn test_findings(
    role: FileRole,
    file: Seq<char>,
    content: Seq<char>,
    declarations: Seq<DeclarationView>,
) -> Seq<InvalidItemView> {
    if role == FileRole::Test {
        declarations.filter_map(
            |declaration: DeclarationView| test_finding(file, content, declaration),
        )
    } else {
        Seq::empty()
    }
}

/// Holds one declaration to the convention for test names.
pub fn validate_name(file: &str, content: &str, declaration: &Declaration) -> (finding: Option<
    InvalidItem,
>)
    ensures
        finding_view(finding) == test_finding(file@, content@, declaration@),
{
    match declaration.kind {
        DeclarationKind::Function => {
            if !is_valid_test_name(declaration.name.as_str()) {
                Some(
                    InvalidItem::new(
                        Validator::Test,
                        String::from_str(file),
                        declaration.name.clone(),
                        line_of(content, declaration.start),
                    ),
                )
            } else {
                None
            }
        },
        DeclarationKind::Variable => None,
    }
}

/// Holds the declarations of a file to the convention for test names.
pub fn validate_declarations(
    role: FileRole,
    file: &str,
    content: &str,
    declarations: &Vec<Declaration>,
) -> (found: Vec<InvalidItem>)
    ensures
        views(found@) == test_findings(role, file@, content@, declaration_views(declarations@)),
{
    let mut found: Vec<InvalidItem> = Vec::new();
    assert(views(found@) =~= Seq::empty());
    match role {
        FileRole::Test => {},
        _ => {
            return found;
        },
    }
    let ghost rule = |declaration: DeclarationView| test_finding(file@, content@, declaration);
    let ghost all = declaration_views(declarations@);
    let mut i: usize = 0;
    assert(views(found@) =~= all.take(0).filter_map(rule));
    while i < declarations.len()
        invariant
            i <= declarations.len(),
            all == declaration_views(declarations@),
            rule == |declaration: DeclarationView| test_finding(file@, content@, declaration),
            views(found@) == all.take(i as int).filter_map(rule),
        decreases declarations.len() - i,
    {
        proof {
            all.lemma_filter_map_take_succ(rule, i as int);
        }
        let ghost before = found@;
        if let Some(item) = validate_name(file, content, &declarations[i]) {
            found.push(item);
            assert(views(found@) =~= views(before).push(item@));
        }
        i = i + 1;
    }
    assert(all.take(i as int) =~= all);
    found
}

/// Holds the functions of a file to the convention for test names: those at
/// the top of the file and those directly inside its contracts.
pub fn validate(role: FileRole, file: &str, content: &str, pt: &SourceTree) -> (found: Vec<
    InvalidItem,
>)
    ensures
        views(found@) == test_findings(role, file@, content@, declarations(pt@)),
{
    let found = extract(pt);
    validate_declarations(role, file, content, &found)
}

} // verus!
