//! The convention for executable scripts: one public method, named `run`.
use vstd::prelude::*;
use crate::declarations::{declaration_views, Declaration, DeclarationKind, DeclarationView};
use crate::files::FileRole;
use crate::report::{finding_view, views, InvalidItem, InvalidItemView, Validator};

verus! {

/// Whether a declaration is a way into a script from outside: a function
/// that is not declared `internal` or `private`, other than `setUp` and the
/// constructor.
pub open spec fn is_entrypoint(declaration: DeclarationView) -> bool {
    &&& declaration.kind == DeclarationKind::Function
    &&& !declaration.restricted
    &&& declaration.name != "setUp"@
    &&& declaration.name != "constructor"@
}

/// The name of a declaration that is an entrypoint.
pub open spec fn entrypoint_name(declaration: DeclarationView) -> Option<Seq<char>> {
    if is_entrypoint(declaration) {
        Some(declaration.name)
    } else {
        None
    }
}

/// The names of a file's entrypoints, in source order.
pub open spec fn entrypoints(declarations: Seq<DeclarationView>) -> Seq<Seq<char>> {
    declarations.filter_map(|declaration: DeclarationView| entrypoint_name(declaration))
}

/// The characters of each text of a list.
pub open spec fn texts(list: Seq<String>) -> Seq<Seq<char>> {
    list.map_values(|text: String| text@)
}

/// A name as `{:?}` writes it: between double quotes, with escapes.
pub uninterp spec fn debug_text(name: Seq<char>) -> Seq<char>;

/// Each name of a list as `{:?}` writes it.
pub open spec fn debug_texts(names: Seq<Seq<char>>) -> Seq<Seq<char>> {
    names.map_values(|name: Seq<char>| debug_text(name))
}

/// `<str as Debug>::fmt`, through `format!`: the text between double quotes,
/// with its special characters escaped. The contract only names the result;
/// it is a function of the text alone.
#[verifier::external_body]
fn quote(name: &str) -> (text: String)
    ensures
        text@ == debug_text(name@),
{
    format!("{:?}", name)
}

/// Texts in a row, with `, ` between them.
pub open spec fn joined(parts: Seq<Seq<char>>) -> Seq<char>
    decreases parts.len(),
{
    if parts.len() == 0 {
        Seq::empty()
    } else if parts.len() == 1 {
        parts[0]
    } else {
        joined(parts.drop_last()) + ", "@ + parts.last()
    }
}

/// Texts as a list: between square brackets, with `, ` between them.
pub open spec fn listed(parts: Seq<Seq<char>>) -> Seq<char> {
    "["@ + joined(parts) + "]"@
}

/// What is wrong with a script whose entrypoints have these names, if
/// anything is. `quoted` holds each name as it is written in a message.
pub open spec fn script_message(names: Seq<Seq<char>>, quoted: Seq<Seq<char>>) -> Option<
    Seq<char>,
> {
    if names.len() == 0 {
        Some("No `run` method found"@)
    } else if names.len() == 1 {
        if names[0] == "run"@ {
            None
        } else {
            Some("The only public method must be named `run`"@)
        }
    } else {
        Some(
            "Scripts must have a single public method named `run` (excluding `setUp`), but the following methods were found: "@
                + listed(quoted),
        )
    }
}

/// The finding on a script whose entrypoints have these names. It is about
/// the file as a whole, so its line is 0.
pub open spec fn script_finding(
    file: Seq<char>,
    names: Seq<Seq<char>>,
    quoted: Seq<Seq<char>>,
) -> Option<InvalidItemView> {
    match script_message(names, quoted) {
        Some(text) => Some(InvalidItemView { kind: Validator::Script, file, text, line: 0 }),
        None => None,
    }
}

/// What the convention finds in a file: nothing unless it is an executable
/// script, else at most one finding, on its entrypoints.
pub open spec fn script_findings(
    role: FileRole,
    file: Seq<char>,
    declarations: Seq<DeclarationView>,
) -> Seq<InvalidItemView> {
    if role == FileRole::ScriptExecutable {
        match script_finding(
            file,
            entrypoints(declarations),
            debug_texts(entrypoints(declarations)),
        ) {
            Some(item) => seq![item],
            None => Seq::empty(),
        }
    } else {
        Seq::empty()
    }
}

/// The convention reports a file at most once, and only on its entrypoints:
/// a script with the one entrypoint `run` is not reported.
pub proof fn lemma_script_findings(
    role: FileRole,
    file: Seq<char>,
    declarations: Seq<DeclarationView>,
)
    ensures
        script_findings(role, file, declarations).len() <= 1,
        script_findings(role, file, declarations).len() == 0 <==> role != FileRole::ScriptExecutable
            || entrypoints(declarations) == seq!["run"@],
{
    let names = entrypoints(declarations);
    if names.len() == 1 {
        assert(names =~= seq![names[0]]);
    }
}

/// Run again on the same file, the convention finds the same again: the
/// same single finding, or none.
pub proof fn lemma_script_findings_repeat(
    role: FileRole,
    file: Seq<char>,
    declarations: Seq<DeclarationView>,
    first: Seq<InvalidItemView>,
    second: Seq<InvalidItemView>,
)
    requires
        first == script_findings(role, file, declarations),
        second == script_findings(role, file, declarations),
    ensures
        first == second,
        first.len() <= 1,
{
}

/// The names of the entrypoints among the declarations of a file.
pub fn entrypoint_names(declarations: &Vec<Declaration>) -> (names: Vec<String>)
    ensures
        texts(names@) == entrypoints(declaration_views(declarations@)),
{
    let ghost rule = |declaration: DeclarationView| entrypoint_name(declaration);
    let ghost all = declaration_views(declarations@);
    let set_up = String::from_str("setUp");
    let constructor = String::from_str("constructor");
    let mut names: Vec<String> = Vec::new();
    let mut i: usize = 0;
    assert(texts(names@) =~= all.take(0).filter_map(rule));
    while i < declarations.len()
        invariant
            i <= declarations.len(),
            all == declaration_views(declarations@),
            rule == |declaration: DeclarationView| entrypoint_name(declaration),
            set_up@ == "setUp"@,
            constructor@ == "constructor"@,
            texts(names@) == all.take(i as int).filter_map(rule),
        decreases declarations.len() - i,
    {
        proof {
            all.lemma_filter_map_take_succ(rule, i as int);
        }
        let declaration = &declarations[i];
        let is_function = match declaration.kind {
            DeclarationKind::Function => true,
            DeclarationKind::Variable => false,
        };
        if is_function && !declaration.restricted && declaration.name != set_up
            && declaration.name != constructor {
            let ghost before = names@;
            names.push(declaration.name.clone());
            assert(texts(names@) =~= texts(before).push(declaration.name@));
        }
        i = i + 1;
    }
    assert(all.take(i as int) =~= all);
    names
}

/// Writes texts as a list.
pub fn list_text(parts: &Vec<String>) -> (text: String)
    ensures
        text@ == listed(texts(parts@)),
{
    let ghost all = texts(parts@);
    let mut text = String::from_str("[");
    let mut i: usize = 0;
    assert(all.take(0) =~= Seq::empty());
    while i < parts.len()
        invariant
            i <= parts.len(),
            all == texts(parts@),
            text@ == "["@ + joined(all.take(i as int)),
        decreases parts.len() - i,
    {
        if i > 0 {
            text.append(", ");
        }
        text.append(parts[i].as_str());
        proof {
            assert(all.take(i + 1).drop_last() =~= all.take(i as int));
            assert(all.take(i + 1).last() == parts@[i as int]@);
            assert(text@ =~= "["@ + joined(all.take(i + 1)));
        }
        i = i + 1;
    }
    assert(all.take(i as int) =~= all);
    text.append("]");
    text
}

/// Judges a script by the names of its entrypoints. `quoted` holds each
/// name as it is to be written in a message.
pub fn script_verdict(file: &str, names: &Vec<String>, quoted: &Vec<String>) -> (finding: Option<
    InvalidItem,
>)
    ensures
        finding_view(finding) == script_finding(file@, texts(names@), texts(quoted@)),
{
    let message = if names.len() == 0 {
        String::from_str("No `run` method found")
    } else if names.len() == 1 {
        let run = String::from_str("run");
        assert(texts(names@)[0] == names@[0]@);
        if names[0] == run {
            return None;
        }
        String::from_str("The only public method must be named `run`")
    } else {
        let mut message = String::from_str(
            "Scripts must have a single public method named `run` (excluding `setUp`), but the following methods were found: ",
        );
        let list = list_text(quoted);
        message.append(list.as_str());
        message
    };
    Some(InvalidItem::new(Validator::Script, String::from_str(file), message, 0))
}

/// Each name as it is written in a message.
fn quote_all(names: &Vec<String>) -> (quoted: Vec<String>)
    ensures
        texts(quoted@) == debug_texts(texts(names@)),
{
    let mut quoted: Vec<String> = Vec::new();
    let mut i: usize = 0;
    while i < names.len()
        invariant
            i <= names.len(),
            quoted.len() == i,
            forall|k: int| 0 <= k < i ==> (#[trigger] quoted@[k])@ == debug_text(names@[k]@),
        decreases names.len() - i,
    {
        quoted.push(quote(names[i].as_str()));
        i = i + 1;
    }
    assert(texts(quoted@) =~= debug_texts(texts(names@)));
    quoted
}

/// Holds the declarations of a file to the convention for scripts.
pub fn validate(role: FileRole, file: &str, declarations: &Vec<Declaration>) -> (found: Vec<
    InvalidItem,
>)
    ensures
        views(found@) == script_findings(role, file@, declaration_views(declarations@)),
        found.len() <= 1,
{
    let mut found: Vec<InvalidItem> = Vec::new();
    assert(views(found@) =~= Seq::empty());
    match role {
        FileRole::ScriptExecutable => {},
        _ => {
            return found;
        },
    }
    let names = entrypoint_names(declarations);
    let quoted = quote_all(&names);
    if let Some(item) = script_verdict(file, &names, &quoted) {
        found.push(item);
        assert(views(found@) =~= seq![item@]);
    }
    found
}

} // verus!
