//! The convention for the inside of source contracts: what is declared
//! `internal` or `private` has a name that begins with an underscore.
use vstd::prelude::*;
use crate::declarations::{declaration_views, Declaration, DeclarationView};
use crate::files::FileRole;
use crate::lines::{line_at, line_of};
use crate::report::{finding_view, views, InvalidItem, InvalidItemView, Validator};
use crate::text::chars_of;

verus! {

/// Whether a name begins with an underscore.
pub open spec fn internal_name(name: Seq<char>) -> bool {
    name.len() > 0 && name[0] == '_'
}

/// Whether `name` is a valid name for an internal or private member.
pub fn is_valid_internal_name(name: &str) -> (valid: bool)
    ensures
        valid == internal_name(name@),
{
    let chars = chars_of(name);
    chars.len() > 0 && chars[0] == '_'
}

/// What the convention finds in one declaration: a variable or function
/// declared `internal` or `private` whose name does not begin with an
/// underscore is reported by its name, at its line.
pub open spec fn internal_finding(
    file: Seq<char>,
    content: Seq<char>,
    declaration: DeclarationView,
) -> Option<InvalidItemView> {
    if declaration.restricted && !internal_name(declaration.name) {
        Some(
            InvalidItemView {
                kind: Validator::Src,
                file,
                text: declaration.name,
                line: line_at(content, declaration.start),
            },
        )
    } else {
        None
    }
}

/// What the convention finds in a file: nothing unless it is a source
/// contract, else the finding of each declaration, in source order.
pub open spec fn internal_findings(
    role: FileRole,
    file: Seq<char>,
    content: Seq<char>,
    declarations: Seq<DeclarationView>,
) -> Seq<InvalidItemView> {
    if role == FileRole::Source {
        declarations.filter_map(
            |declaration: DeclarationView| internal_finding(file, content, declaration),
        )
    } else {
        Seq::empty()
    }
}

/// Holds one declaration to the convention for internal names.
pub fn validate_name(file: &str, content: &str, declaration: &Declaration) -> (finding: Option<
    InvalidItem,
>)
    ensures
        finding_view(finding) == internal_finding(file@, content@, declaration@),
{
    if declaration.restricted && !is_valid_internal_name(declaration.name.as_str()) {
        Some(
            InvalidItem::new(
                Validator::Src,
                String::from_str(file),
                declaration.name.clone(),
                line_of(content, declaration.start),
            ),
        )
    } else {
        None
    }
}

/// Holds the declarations of a file to the convention for internal names.
pub fn validate(role: FileRole, file: &str, content: &str, declarations: &Vec<Declaration>) -> (found:
    Vec<InvalidItem>)
    ensures
        views(found@) == internal_findings(
            role,
            file@,
            content@,
            declaration_views(declarations@),
        ),
{
    let mut found: Vec<InvalidItem> = Vec::new();
    assert(views(found@) =~= Seq::empty());
    match role {
        FileRole::Source => {},
        _ => {
            return found;
        },
    }
    let ghost rule = |declaration: DeclarationView| internal_finding(file@, content@, declaration);
    let ghost all = declaration_views(declarations@);
    let mut i: usize = 0;
    assert(views(found@) =~= all.take(0).filter_map(rule));
    while i < declarations.len()
        invariant
            i <= declarations.len(),
            all == declaration_views(declarations@),
            rule == |declaration: DeclarationView| internal_finding(file@, content@, declaration),
            views(found@) == all.take(i as int).filter_map(rule),
        decreases declarations.len() - i,
    {
        proof {
            all.lemma_filter_map_take_succ(rule, i as int);
        }
        let ghost before = found@;
        if let Some(item) = validate_name(file, content, &declarations[i]) {
            found.push(item);
            assert(views(found@) =~= views(before).push(item@));
        }
        i = i + 1;
    }
    assert(all.take(i as int) =~= all);
    found
}

} // verus!
