//! The convention for constants and immutables: capitals, digits, `_` and `$`.
use vstd::prelude::*;
use crate::declarations::{declaration_views, Declaration, DeclarationKind, DeclarationView};
use crate::lines::{line_at, line_of};
use crate::report::{finding_view, views, InvalidItem, InvalidItemView, Validator};
use crate::text::chars_of;

verus! {

/// `_` and `$`, which may stand anywhere in a constant's name.
pub open spec fn is_separator(c: char) -> bool {
    c == '_' || c == '$'
}

/// An ASCII capital letter or an ASCII digit.
pub open spec fn is_capital_or_digit(c: char) -> bool {
    ('A' <= c && c <= 'Z') || ('0' <= c && c <= '9')
}

/// An ASCII small letter.
pub open spec fn is_small_letter(c: char) -> bool {
    'a' <= c && c <= 'z'
}

/// The names that a constant may have: every character is a capital, a digit
/// or a separator, and at least one is a capital or a digit.
pub open spec fn constant_name(s: Seq<char>) -> bool {
    &&& forall|i: int| 0 <= i < s.len() ==> is_separator(#[trigger] s[i]) || is_capital_or_digit(s[i])
    &&& exists|i: int| 0 <= i < s.len() && is_capital_or_digit(#[trigger] s[i])
}

/// One group of the pattern, `[$_]*[A-Z0-9][$_]*`, with its capital or digit
/// at index `at`: everything around it is a separator.
pub open spec fn is_group_around(group: Seq<char>, at: int) -> bool {
    &&& 0 <= at < group.len()
    &&& is_capital_or_digit(group[at])
    &&& forall|i: int| 0 <= i < group.len() && i != at ==> is_separator(#[trigger] group[i])
}

/// One group of the pattern.
pub open spec fn is_group(group: Seq<char>) -> bool {
    exists|at: int| is_group_around(group, at)
}

/// `count` groups of the pattern in a row.
pub open spec fn is_groups(s: Seq<char>, count: nat) -> bool
    decreases count,
{
    if count == 0 {
        s.len() == 0
    } else {
        exists|cut: int|
            #![trigger s.take(cut)]
            0 <= cut <= s.len() && is_groups(s.take(cut), (count - 1) as nat) && is_group(
                s.skip(cut),
            )
    }
}

/// The whole name matches `(?:[$_]*[A-Z0-9][$_]*){1,}`: it is one group or
/// more in a row.
pub open spec fn constant_pattern(s: Seq<char>) -> bool {
    exists|count: nat| count >= 1 && #[trigger] is_groups(s, count)
}

/// Groups in a row hold capitals, digits and separators alone, and a
/// capital or a digit where there is a group at all.
pub proof fn lemma_groups_are_names(s: Seq<char>, count: nat)
    requires
        is_groups(s, count),
    ensures
        forall|i: int| 0 <= i < s.len() ==> is_separator(#[trigger] s[i]) || is_capital_or_digit(s[i]),
        count >= 1 ==> constant_name(s),
    decreases count,
{
    if count > 0 {
        let cut = choose|cut: int|
            #![trigger s.take(cut)]
            0 <= cut <= s.len() && is_groups(s.take(cut), (count - 1) as nat) && is_group(
                s.skip(cut),
            );
        let head = s.take(cut);
        let group = s.skip(cut);
        lemma_groups_are_names(head, (count - 1) as nat);
        let at = choose|at: int| is_group_around(group, at);
        assert forall|i: int| 0 <= i < s.len() implies is_separator(#[trigger] s[i])
            || is_capital_or_digit(s[i]) by {
            if i < cut {
                assert(s[i] == head[i]);
            } else {
                assert(s[i] == group[i - cut]);
            }
        }
        assert(s[cut + at] == group[at]);
    }
}

/// A constant's name is one group or more in a row.
pub proof fn lemma_names_are_groups(s: Seq<char>) -> (count: nat)
    requires
        constant_name(s),
    ensures
        count >= 1,
        is_groups(s, count),
    decreases s.len(),
{
    let last = s.last();
    let rest = s.drop_last();
    let more = exists|i: int| 0 <= i < rest.len() && is_capital_or_digit(#[trigger] rest[i]);
    assert forall|i: int| 0 <= i < rest.len() implies is_separator(#[trigger] rest[i])
        || is_capital_or_digit(rest[i]) by {
        assert(rest[i] == s[i]);
    }
    if !more {
        let at = choose|i: int| 0 <= i < s.len() && is_capital_or_digit(#[trigger] s[i]);
        assert(at == s.len() - 1) by {
            if at < rest.len() {
                assert(rest[at] == s[at]);
            }
        }
        assert forall|i: int| 0 <= i < s.len() && i != at implies is_separator(#[trigger] s[i]) by {
            assert(rest[i] == s[i]);
            assert(is_separator(rest[i]) || is_capital_or_digit(rest[i]));
        }
        assert(is_group_around(s, at));
        assert(s.skip(0) =~= s);
        assert(s.take(0).len() == 0);
        assert(is_groups(s.take(0), 0));
        assert(is_groups(s, 1));
        1
    } else if is_capital_or_digit(last) {
        let count = lemma_names_are_groups(rest);
        let cut = rest.len() as int;
        assert(s.take(cut) =~= rest);
        assert(is_group_around(s.skip(cut), 0));
        assert(is_groups(s.take(cut), count));
        assert(is_groups(s, count + 1));
        count + 1
    } else {
        let count = lemma_names_are_groups(rest);
        let cut = choose|cut: int|
            #![trigger rest.take(cut)]
            0 <= cut <= rest.len() && is_groups(rest.take(cut), (count - 1) as nat) && is_group(
                rest.skip(cut),
            );
        let at = choose|at: int| is_group_around(rest.skip(cut), at);
        assert(s.take(cut) =~= rest.take(cut));
        assert(s.skip(cut) =~= rest.skip(cut).push(last));
        assert(is_separator(last));
        assert(is_group_around(s.skip(cut), at));
        assert(is_groups(s.take(cut), (count - 1) as nat));
        assert(is_groups(s, count));
        count
    }
}

/// The names that match the pattern `(?:[$_]*[A-Z0-9][$_]*){1,}` from end
/// to end are those made of capitals, digits and separators with at least
/// one capital or digit.
pub proof fn lemma_constant_pattern(s: Seq<char>)
    ensures
        constant_pattern(s) <==> constant_name(s),
{
    if constant_pattern(s) {
        let count = choose|count: nat| count >= 1 && #[trigger] is_groups(s, count);
        lemma_groups_are_names(s, count);
    }
    if constant_name(s) {
        let count = lemma_names_are_groups(s);
    }
}

/// A name made of capitals, digits and separators alone, with at least one
/// capital or digit among them, is a constant's name.
pub proof fn lemma_capitals_are_valid(s: Seq<char>, at: int)
    requires
        forall|i: int| 0 <= i < s.len() ==> is_separator(#[trigger] s[i]) || is_capital_or_digit(s[i]),
        0 <= at < s.len(),
        is_capital_or_digit(s[at]),
    ensures
        constant_name(s),
{
}

/// A name that holds a small letter is no constant's name.
pub proof fn lemma_small_letter_is_invalid(s: Seq<char>, at: int)
    requires
        0 <= at < s.len(),
        is_small_letter(s[at]),
    ensures
        !constant_name(s),
{
}

/// Whether `name` is a valid name for a constant or an immutable.
pub fn is_valid_constant_name(name: &str) -> (valid: bool)
    ensures
        valid == constant_pattern(name@),
        valid == constant_name(name@),
{
    proof {
        lemma_constant_pattern(name@);
    }
    let chars = chars_of(name);
    let mut seen = false;
    let mut i: usize = 0;
    while i < chars.len()
        invariant
            i <= chars.len(),
            chars@ == name@,
            constant_pattern(name@) <==> constant_name(name@),
            forall|j: int| 0 <= j < i ==> is_separator(#[trigger] chars@[j]) || is_capital_or_digit(chars@[j]),
            seen == exists|j: int| 0 <= j < i && is_capital_or_digit(#[trigger] chars@[j]),
        decreases chars.len() - i,
    {
        let c = chars[i];
        if (c >= 'A' && c <= 'Z') || (c >= '0' && c <= '9') {
            seen = true;
        } else if !(c == '_' || c == '$') {
            assert(!is_separator(chars@[i as int]) && !is_capital_or_digit(chars@[i as int]));
            return false;
        }
        i = i + 1;
    }
    seen
}

/// What the convention finds in one declaration: a variable declared
/// `constant` or `immutable` whose name is no constant's name is reported by
/// its name, at its line.
pub open spec fn constant_finding(
    file: Seq<char>,
    content: Seq<char>,
    declaration: DeclarationView,
) -> Option<InvalidItemView> {
    if declaration.kind == DeclarationKind::Variable && declaration.constant && !constant_name(
        declaration.name,
    ) {
        Some(
            InvalidItemView {
                kind: Validator::Constant,
                file,
                text: declaration.name,
                line: line_at(content, declaration.start),
            },
        )
    } else {
        None
    }
}

/// What the convention finds in a file, whatever its role: the finding of
/// each declaration, in source order.
pub open spec fn constant_findings(
    file: Seq<char>,
    content: Seq<char>,
    declarations: Seq<DeclarationView>,
) -> Seq<InvalidItemView> {
    declarations.filter_map(
        |declaration: DeclarationView| constant_finding(file, content, declaration),
    )
}

/// Holds one declaration to the convention for constants.
pub fn validate_constant(file: &str, content: &str, declaration: &Declaration) -> (finding: Option<
    InvalidItem,
>)
    ensures
        finding_view(finding) == constant_finding(file@, content@, declaration@),
{
    match declaration.kind {
        DeclarationKind::Variable => {
            if declaration.constant && !is_valid_constant_name(declaration.name.as_str()) {
                Some(
                    InvalidItem::new(
                        Validator::Constant,
                        String::from_str(file),
                        declaration.name.clone(),
                        line_of(content, declaration.start),
                    ),
                )
            } else {
                None
            }
        },
        DeclarationKind::Function => None,
    }
}

/// Holds the declarations of a file to the convention for constants.
pub fn validate(file: &str, content: &str, declarations: &Vec<Declaration>) -> (found: Vec<
    InvalidItem,
>)
    ensures
        views(found@) == constant_findings(file@, content@, declaration_views(declarations@)),
{
    let ghost rule = |declaration: DeclarationView| constant_finding(file@, content@, declaration);
    let ghost all = declaration_views(declarations@);
    let mut found: Vec<InvalidItem> = Vec::new();
    let mut i: usize = 0;
    assert(views(found@) =~= all.take(0).filter_map(rule));
    while i < declarations.len()
        invariant
            i <= declarations.len(),
            all == declaration_views(declarations@),
            rule == |declaration: DeclarationView| constant_finding(file@, content@, declaration),
            views(found@) == all.take(i as int).filter_map(rule),
        decreases declarations.len() - i,
    {
        proof {
            all.lemma_filter_map_take_succ(rule, i as int);
        }
        let ghost before = found@;
        if let Some(item) = validate_constant(file, content, &declarations[i]) {
            found.push(item);
            assert(views(found@) =~= views(before).push(item@));
        }
        i = i + 1;
    }
    assert(all.take(i as int) =~= all);
    found
}

} // verus!
