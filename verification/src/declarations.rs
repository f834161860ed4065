//! The declarations of a file that the conventions check: the variables and
//! functions at the top of the file and directly inside its contracts.
use vstd::prelude::*;
use crate::tree::{
    canonical_name, member_views, Function, FunctionAttr, FunctionView, Item, ItemView, Member,
    MemberView, SourceTree, Variable, VariableAttr, VariableView, Visibility,
};

verus! {

/// Whether a declaration introduces a state variable or something callable.
#[derive(Clone, Copy, Debug, PartialEq, Eq, Structural)]
pub enum DeclarationKind {
    Variable,
    Function,
}

/// A named variable or function, with what the conventions ask of it:
/// whether it is declared `constant` or `immutable`, whether it is declared
/// `internal` or `private`, and where it begins.
#[derive(Clone, Debug, PartialEq, Eq)]
pub struct Declaration {
    pub kind: DeclarationKind,
    pub name: String,
    pub constant: bool,
    pub restricted: bool,
    pub start: Option<usize>,
}

pub struct DeclarationView {
    pub kind: DeclarationKind,
    pub name: Seq<char>,
    pub constant: bool,
    pub restricted: bool,
    pub start: Option<usize>,
}

impl View for Declaration {
    type V = DeclarationView;

    open spec fn view(&self) -> DeclarationView {
        DeclarationView {
            kind: self.kind,
            name: self.name@,
            constant: self.constant,
            restricted: self.restricted,
            start: self.start,
        }
    }
}

/// What each declaration of a list is.
pub open spec fn declaration_views(declarations: Seq<Declaration>) -> Seq<DeclarationView> {
    declarations.map_values(|declaration: Declaration| declaration@)
}

/// Whether an attribute marks a variable as fixed: `constant` or `immutable`.
pub open spec fn marks_constant(attr: VariableAttr) -> bool {
    attr == VariableAttr::Constant || attr == VariableAttr::Immutable
}

/// Whether a visibility keeps a member inside: `internal` or `private`.
pub open spec fn keeps_inside(visibility: Visibility) -> bool {
    visibility == Visibility::Internal || visibility == Visibility::Private
}

/// Whether an attribute of a variable keeps it inside.
pub open spec fn restricts_variable(attr: VariableAttr) -> bool {
    attr matches VariableAttr::Visibility(visibility) && keeps_inside(visibility)
}

/// Whether an attribute of a function keeps it inside.
pub open spec fn restricts_function(attr: FunctionAttr) -> bool {
    attr matches FunctionAttr::Visibility(visibility) && keeps_inside(visibility)
}

/// Whether any attribute of a variable marks it as fixed.
pub open spec fn is_constant(attrs: Seq<VariableAttr>) -> bool {
    exists|i: int| 0 <= i < attrs.len() && marks_constant(#[trigger] attrs[i])
}

/// Whether any attribute of a variable keeps it inside. A variable without
/// a visibility attribute is not kept inside.
pub open spec fn is_restricted_variable(attrs: Seq<VariableAttr>) -> bool {
    exists|i: int| 0 <= i < attrs.len() && restricts_variable(#[trigger] attrs[i])
}

/// Whether any attribute of a function keeps it inside. A function without
/// a visibility attribute is not kept inside.
pub open spec fn is_restricted_function(attrs: Seq<FunctionAttr>) -> bool {
    exists|i: int| 0 <= i < attrs.len() && restricts_function(#[trigger] attrs[i])
}

/// The declaration that a variable gives: none where it has no name.
pub open spec fn variable_declaration(variable: VariableView) -> Option<DeclarationView> {
    match variable.name {
        Some(name) => Some(
            DeclarationView {
                kind: DeclarationKind::Variable,
                name,
                constant: is_constant(variable.attrs),
                restricted: is_restricted_variable(variable.attrs),
                start: variable.start,
            },
        ),
        None => None,
    }
}

/// The declaration that a function gives, under its canonical name: none
/// where it has no such name. A function is never constant.
pub open spec fn function_declaration(function: FunctionView) -> Option<DeclarationView> {
    match canonical_name(function) {
        Some(name) => Some(
            DeclarationView {
                kind: DeclarationKind::Function,
                name,
                constant: false,
                restricted: is_restricted_function(function.attrs),
                start: function.start,
            },
        ),
        None => None,
    }
}

/// The declaration that a member of a contract gives.
pub open spec fn member_declaration(member: MemberView) -> Option<DeclarationView> {
    match member {
        MemberView::Variable(variable) => variable_declaration(variable),
        MemberView::Function(function) => function_declaration(function),
        MemberView::Other => None,
    }
}

/// A declaration that may be missing, as a list.
pub open spec fn zero_or_one(declaration: Option<DeclarationView>) -> Seq<DeclarationView> {
    match declaration {
        Some(declaration) => seq![declaration],
        None => Seq::empty(),
    }
}

/// The declarations that one part of a file gives: its own, or, for a
/// contract, those of its direct members in their order. Nothing deeper is
/// read.
pub open spec fn item_declarations(item: ItemView) -> Seq<DeclarationView> {
    match item {
        ItemView::Variable(variable) => zero_or_one(variable_declaration(variable)),
        ItemView::Function(function) => zero_or_one(function_declaration(function)),
        ItemView::Contract(members) => members.filter_map(
            |member: MemberView| member_declaration(member),
        ),
        ItemView::Other => Seq::empty(),
    }
}

/// The declarations of a file, in source order.
pub open spec fn declarations(items: Seq<ItemView>) -> Seq<DeclarationView>
    decreases items.len(),
{
    if items.len() == 0 {
        Seq::empty()
    } else {
        declarations(items.drop_last()) + item_declarations(items.last())
    }
}

/// Whether any attribute of a variable marks it as fixed.
fn variable_is_constant(attrs: &Vec<VariableAttr>) -> (found: bool)
    ensures
        found == is_constant(attrs@),
{
    let mut i: usize = 0;
    while i < attrs.len()
        invariant
            i <= attrs.len(),
            forall|k: int| 0 <= k < i ==> !marks_constant(#[trigger] attrs@[k]),
        decreases attrs.len() - i,
    {
        match attrs[i] {
            VariableAttr::Constant | VariableAttr::Immutable => {
                assert(marks_constant(attrs@[i as int]));
                return true;
            },
            _ => {},
        }
        i = i + 1;
    }
    false
}

/// Whether a visibility keeps a member inside.
fn visibility_keeps_inside(visibility: Visibility) -> (inside: bool)
    ensures
        inside == keeps_inside(visibility),
{
    match visibility {
        Visibility::Internal | Visibility::Private => true,
        _ => false,
    }
}

/// Whether any attribute of a variable keeps it inside.
fn variable_is_restricted(attrs: &Vec<VariableAttr>) -> (found: bool)
    ensures
        found == is_restricted_variable(attrs@),
{
    let mut i: usize = 0;
    while i < attrs.len()
        invariant
            i <= attrs.len(),
            forall|k: int| 0 <= k < i ==> !restricts_variable(#[trigger] attrs@[k]),
        decreases attrs.len() - i,
    {
        if let VariableAttr::Visibility(visibility) = attrs[i] {
            if visibility_keeps_inside(visibility) {
                assert(restricts_variable(attrs@[i as int]));
                return true;
            }
        }
        i = i + 1;
    }
    false
}

/// Whether any attribute of a function keeps it inside.
fn function_is_restricted(attrs: &Vec<FunctionAttr>) -> (found: bool)
    ensures
        found == is_restricted_function(attrs@),
{
    let mut i: usize = 0;
    while i < attrs.len()
        invariant
            i <= attrs.len(),
            forall|k: int| 0 <= k < i ==> !restricts_function(#[trigger] attrs@[k]),
        decreases attrs.len() - i,
    {
        if let FunctionAttr::Visibility(visibility) = attrs[i] {
            if visibility_keeps_inside(visibility) {
                assert(restricts_function(attrs@[i as int]));
                return true;
            }
        }
        i = i + 1;
    }
    false
}

impl Declaration {
    /// The declaration that a variable gives.
    pub fn of_variable(variable: &Variable) -> (declaration: Option<Declaration>)
        ensures
            declaration_view(declaration) == variable_declaration(variable@),
    {
        match &variable.name {
            Some(name) => Some(
                Declaration {
                    kind: DeclarationKind::Variable,
                    name: name.clone(),
                    constant: variable_is_constant(&variable.attrs),
                    restricted: variable_is_restricted(&variable.attrs),
                    start: variable.start,
                },
            ),
            None => None,
        }
    }

    /// The declaration that a function gives.
    pub fn of_function(function: &Function) -> (declaration: Option<Declaration>)
        ensures
            declaration_view(declaration) == function_declaration(function@),
    {
        match function.name() {
            Some(name) => Some(
                Declaration {
                    kind: DeclarationKind::Function,
                    name,
                    constant: false,
                    restricted: function_is_restricted(&function.attrs),
                    start: function.start,
                },
            ),
            None => None,
        }
    }
}

/// What a declaration that may be missing is.
pub open spec fn declaration_view(declaration: Option<Declaration>) -> Option<DeclarationView> {
    match declaration {
        Some(declaration) => Some(declaration@),
        None => None,
    }
}

/// Adds the declarations of a contract's direct members to a list.
fn extract_members(members: &Vec<Member>, found: &mut Vec<Declaration>)
    ensures
        declaration_views(final(found)@) == declaration_views(old(found)@) + item_declarations(
            ItemView::Contract(member_views(members@)),
        ),
{
    let ghost rule = |member: MemberView| member_declaration(member);
    let ghost all = member_views(members@);
    let mut i: usize = 0;
    while i < members.len()
        invariant
            i <= members.len(),
            all == member_views(members@),
            rule == |member: MemberView| member_declaration(member),
            declaration_views(found@) == declaration_views(old(found)@) + all.take(
                i as int,
            ).filter_map(rule),
        decreases members.len() - i,
    {
        let declaration = match &members[i] {
            Member::Variable(variable) => Declaration::of_variable(variable),
            Member::Function(function) => Declaration::of_function(function),
            Member::Other => None,
        };
        proof {
            assert(all.take(i + 1).drop_last() =~= all.take(i as int));
            assert(all.take(i + 1).last() == members@[i as int]@);
            assert(declaration_view(declaration) == rule(members@[i as int]@));
        }
        let ghost before = found@;
        if let Some(declaration) = declaration {
            found.push(declaration);
            assert(declaration_views(found@) =~= declaration_views(before).push(declaration@));
        }
        i = i + 1;
    }
    assert(all.take(i as int) =~= all);
}

/// Reads the declarations of a file off its tree: those at the top, and
/// those directly inside each contract, in source order.
pub fn extract(tree: &SourceTree) -> (found: Vec<Declaration>)
    ensures
        declaration_views(found@) == declarations(tree@),
{
    let mut found: Vec<Declaration> = Vec::new();
    let mut i: usize = 0;
    assert(declaration_views(found@) =~= Seq::empty());
    while i < tree.items.len()
        invariant
            i <= tree.items.len(),
            declaration_views(found@) == declarations(tree@.take(i as int)),
        decreases tree.items.len() - i,
    {
        proof {
            assert(tree@.take(i + 1).drop_last() =~= tree@.take(i as int));
            assert(tree@.take(i + 1).last() == tree.items@[i as int]@);
        }
        let ghost before = found@;
        match &tree.items[i] {
            Item::Variable(variable) => {
                if let Some(declaration) = Declaration::of_variable(variable) {
                    found.push(declaration);
                    assert(declaration_views(found@) =~= declaration_views(before).push(
                        declaration@,
                    ));
                }
            },
            Item::Function(function) => {
                if let Some(declaration) = Declaration::of_function(function) {
                    found.push(declaration);
                    assert(declaration_views(found@) =~= declaration_views(before).push(
                        declaration@,
                    ));
                }
            },
            Item::Contract(members) => {
                extract_members(members, &mut found);
            },
            Item::Other => {},
        }
        assert(declaration_views(found@) =~= declarations(tree@.take(i + 1)));
        i = i + 1;
    }
    assert(tree@.take(i as int) =~= tree@);
    found
}

} // verus!
