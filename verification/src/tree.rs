//! The parse tree of a Solidity file, cut down to what the conventions read:
//! the variables and functions at the top of the file and directly inside
//! its contracts, with their names, attributes and places.
use vstd::prelude::*;

verus! {

/// Who may reach a member.
#[derive(Clone, Copy, Debug, PartialEq, Eq, Structural)]
pub enum Visibility {
    External,
    Public,
    Internal,
    Private,
}

/// An attribute of a variable.
#[derive(Clone, Copy, Debug, PartialEq, Eq, Structural)]
pub enum VariableAttr {
    Visibility(Visibility),
    Constant,
    Immutable,
    Override,
}

/// An attribute of a function, as far as it says who may call it.
#[derive(Clone, Copy, Debug, PartialEq, Eq, Structural)]
pub enum FunctionAttr {
    Visibility(Visibility),
    Other,
}

/// What sort of function a definition introduces.
#[derive(Clone, Copy, Debug, PartialEq, Eq, Structural)]
pub enum FunctionKind {
    Constructor,
    Function,
    Fallback,
    Receive,
    Modifier,
}

/// A variable definition. `start` is the byte offset at which it begins, if
/// it has a place in the file.
#[derive(Clone, Debug, PartialEq, Eq)]
pub struct Variable {
    pub name: Option<String>,
    pub attrs: Vec<VariableAttr>,
    pub start: Option<usize>,
}

/// A function definition. Constructors, fallbacks and receive functions
/// carry no name of their own.
#[derive(Clone, Debug, PartialEq, Eq)]
pub struct Function {
    pub kind: FunctionKind,
    pub name: Option<String>,
    pub attrs: Vec<FunctionAttr>,
    pub start: Option<usize>,
}

/// A part of a contract.
#[derive(Clone, Debug, PartialEq, Eq)]
pub enum Member {
    Variable(Variable),
    Function(Function),
    Other,
}

/// A part of a file.
#[derive(Clone, Debug, PartialEq, Eq)]
pub enum Item {
    Variable(Variable),
    Function(Function),
    Contract(Vec<Member>),
    Other,
}

/// The parts of a file, in source order.
#[derive(Clone, Debug, PartialEq, Eq)]
pub struct SourceTree {
    pub items: Vec<Item>,
}

pub struct VariableView {
    pub name: Option<Seq<char>>,
    pub attrs: Seq<VariableAttr>,
    pub start: Option<usize>,
}

pub struct FunctionView {
    pub kind: FunctionKind,
    pub name: Option<Seq<char>>,
    pub attrs: Seq<FunctionAttr>,
    pub start: Option<usize>,
}

pub enum MemberView {
    Variable(VariableView),
    Function(FunctionView),
    Other,
}

pub enum ItemView {
    Variable(VariableView),
    Function(FunctionView),
    Contract(Seq<MemberView>),
    Other,
}

/// The characters of a name that may be missing.
pub open spec fn name_view(name: Option<String>) -> Option<Seq<char>> {
    match name {
        Some(name) => Some(name@),
        None => None,
    }
}

impl View for Variable {
    type V = VariableView;

    open spec fn view(&self) -> VariableView {
        VariableView { name: name_view(self.name), attrs: self.attrs@, start: self.start }
    }
}

impl View for Function {
    type V = FunctionView;

    open spec fn view(&self) -> FunctionView {
        FunctionView {
            kind: self.kind,
            name: name_view(self.name),
            attrs: self.attrs@,
            start: self.start,
        }
    }
}

impl View for Member {
    type V = MemberView;

    open spec fn view(&self) -> MemberView {
        match self {
            Member::Variable(v) => MemberView::Variable(v@),
            Member::Function(f) => MemberView::Function(f@),
            Member::Other => MemberView::Other,
        }
    }
}

/// What each member of a list is.
pub open spec fn member_views(members: Seq<Member>) -> Seq<MemberView> {
    members.map_values(|member: Member| member@)
}

impl View for Item {
    type V = ItemView;

    open spec fn view(&self) -> ItemView {
        match self {
            Item::Variable(v) => ItemView::Variable(v@),
            Item::Function(f) => ItemView::Function(f@),
            Item::Contract(members) => ItemView::Contract(member_views(members@)),
            Item::Other => ItemView::Other,
        }
    }
}

/// What each item of a list is.
pub open spec fn item_views(items: Seq<Item>) -> Seq<ItemView> {
    items.map_values(|item: Item| item@)
}

impl View for SourceTree {
    type V = Seq<ItemView>;

    open spec fn view(&self) -> Seq<ItemView> {
        item_views(self.items@)
    }
}

/// The name under which a function is checked: a constructor, a fallback
/// and a receive function go by these words, a function or a modifier by
/// its identifier, if it has one.
pub open spec fn canonical_name(function: FunctionView) -> Option<Seq<char>> {
    match function.kind {
        FunctionKind::Constructor => Some("constructor"@),
        FunctionKind::Fallback => Some("fallback"@),
        FunctionKind::Receive => Some("receive"@),
        FunctionKind::Function | FunctionKind::Modifier => function.name,
    }
}

impl Function {
    /// The name under which the function is checked.
    pub fn name(&self) -> (name: Option<String>)
        ensures
            name_view(name) == canonical_name(self@),
    {
        match self.kind {
            FunctionKind::Constructor => Some(String::from_str("constructor")),
            FunctionKind::Fallback => Some(String::from_str("fallback")),
            FunctionKind::Receive => Some(String::from_str("receive")),
            FunctionKind::Function | FunctionKind::Modifier => self.name.clone(),
        }
    }
}

} // verus!
