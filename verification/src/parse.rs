//! From the text of a Solidity file to its tree: the parser is
//! `solang_parser`, and this module reads off its parse tree what the
//! conventions need.
use vstd::prelude::*;
use solang_parser::pt;
use crate::tree::{
    member_views, name_view, Function, FunctionAttr, FunctionKind, FunctionView, Item, ItemView,
    Member, MemberView, SourceTree, Variable, VariableAttr, VariableView, Visibility,
};

verus! {

/// `solang_parser::pt::SourceUnit`: a parse tree.
#[verifier::external_type_specification]
#[verifier::external_body]
pub struct ExSourceUnit(pt::SourceUnit);

/// `solang_parser::pt::SourceUnitPart`: a part of a parse tree.
#[verifier::external_type_specification]
#[verifier::external_body]
pub struct ExSourceUnitPart(pt::SourceUnitPart);

/// `solang_parser::pt::ContractPart`: a part of a contract.
#[verifier::external_type_specification]
#[verifier::external_body]
pub struct ExContractPart(pt::ContractPart);

/// `solang_parser::pt::VariableDefinition`.
#[verifier::external_type_specification]
#[verifier::external_body]
pub struct ExVariableDefinition(pt::VariableDefinition);

/// `solang_parser::pt::FunctionDefinition`.
#[verifier::external_type_specification]
#[verifier::external_body]
pub struct ExFunctionDefinition(pt::FunctionDefinition);

/// What a part of a parse tree is, by reference.
pub enum PartRef<'a> {
    Variable(&'a pt::VariableDefinition),
    Function(&'a pt::FunctionDefinition),
    Contract(&'a Vec<pt::ContractPart>),
    Other,
}

/// What a part of a contract is, by reference.
pub enum MemberRef<'a> {
    Variable(&'a pt::VariableDefinition),
    Function(&'a pt::FunctionDefinition),
    Other,
}

/// What a part of a parse tree is.
pub enum PartContent {
    Variable(pt::VariableDefinition),
    Function(pt::FunctionDefinition),
    Contract(Seq<pt::ContractPart>),
    Other,
}

/// What a part of a contract is.
pub enum MemberContent {
    Variable(pt::VariableDefinition),
    Function(pt::FunctionDefinition),
    Other,
}

impl<'a> View for PartRef<'a> {
    type V = PartContent;

    open spec fn view(&self) -> PartContent {
        match self {
            PartRef::Variable(definition) => PartContent::Variable(**definition),
            PartRef::Function(definition) => PartContent::Function(**definition),
            PartRef::Contract(parts) => PartContent::Contract(parts@),
            PartRef::Other => PartContent::Other,
        }
    }
}

impl<'a> View for MemberRef<'a> {
    type V = MemberContent;

    open spec fn view(&self) -> MemberContent {
        match self {
            MemberRef::Variable(definition) => MemberContent::Variable(**definition),
            MemberRef::Function(definition) => MemberContent::Function(**definition),
            MemberRef::Other => MemberContent::Other,
        }
    }
}

/// The parse tree of a text, if the parser accepts the text.
pub uninterp spec fn parsed_unit(content: Seq<char>) -> Option<pt::SourceUnit>;

/// The parts of a parse tree, in source order.
pub uninterp spec fn unit_parts(unit: pt::SourceUnit) -> Seq<pt::SourceUnitPart>;

/// What a part of a parse tree is: a variable definition, a function
/// definition, a contract with its parts, or something else.
pub uninterp spec fn part_content(part: pt::SourceUnitPart) -> PartContent;

/// What a part of a contract is: a variable definition, a function
/// definition, or something else.
pub uninterp spec fn member_content(part: pt::ContractPart) -> MemberContent;

/// The identifier of a variable definition, if it has one.
pub uninterp spec fn variable_name(definition: pt::VariableDefinition) -> Option<Seq<char>>;

/// The attributes of a variable definition, in source order.
pub uninterp spec fn variable_attributes(definition: pt::VariableDefinition) -> Seq<VariableAttr>;

/// The byte offset at which a variable definition begins, if its location
/// is one in a file.
pub uninterp spec fn variable_place(definition: pt::VariableDefinition) -> Option<usize>;

/// What sort of function a function definition introduces.
pub uninterp spec fn function_sort(definition: pt::FunctionDefinition) -> FunctionKind;

/// The identifier of a function definition, if it has one.
pub uninterp spec fn function_name(definition: pt::FunctionDefinition) -> Option<Seq<char>>;

/// The attributes of a function definition, in source order.
pub uninterp spec fn function_attributes(definition: pt::FunctionDefinition) -> Seq<FunctionAttr>;

/// The byte offset at which a function definition begins, if its location
/// is one in a file.
pub uninterp spec fn function_place(definition: pt::FunctionDefinition) -> Option<usize>;

/// `solang_parser::parse`, with file number 0. The parser hands out a tree
/// where it has no complaint and a list of diagnostics otherwise; the
/// comments that come with the tree are dropped. The contract only names
/// the tree; it is a function of the text alone.
#[verifier::external_body]
fn parse_unit(content: &str) -> (unit: Option<pt::SourceUnit>)
    ensures
        unit == parsed_unit(content@),
{
    match solang_parser::parse(content, 0) {
        Ok((unit, _)) => Some(unit),
        Err(_) => None,
    }
}

/// The field of `SourceUnit`: its parts.
#[verifier::external_body]
fn parts_of(unit: &pt::SourceUnit) -> (parts: &Vec<pt::SourceUnitPart>)
    ensures
        parts@ == unit_parts(*unit),
{
    &unit.0
}

/// Tells the variants of `SourceUnitPart` apart. Of a contract it hands out
/// the field `parts`.
#[verifier::external_body]
fn part_ref(part: &pt::SourceUnitPart) -> (content: PartRef<'_>)
    ensures
        content@ == part_content(*part),
{
    match part {
        pt::SourceUnitPart::VariableDefinition(definition) => PartRef::Variable(definition),
        pt::SourceUnitPart::FunctionDefinition(definition) => PartRef::Function(definition),
        pt::SourceUnitPart::ContractDefinition(contract) => PartRef::Contract(&contract.parts),
        _ => PartRef::Other,
    }
}

/// Tells the variants of `ContractPart` apart.
#[verifier::external_body]
fn member_ref(part: &pt::ContractPart) -> (content: MemberRef<'_>)
    ensures
        content@ == member_content(*part),
{
    match part {
        pt::ContractPart::VariableDefinition(definition) => MemberRef::Variable(definition),
        pt::ContractPart::FunctionDefinition(definition) => MemberRef::Function(definition),
        _ => MemberRef::Other,
    }
}

/// The field `name` of `VariableDefinition`: the identifier's text.
#[verifier::external_body]
fn variable_ident(definition: &pt::VariableDefinition) -> (name: Option<String>)
    ensures
        name_view(name) == variable_name(*definition),
{
    match &definition.name {
        Some(identifier) => Some(identifier.name.clone()),
        None => None,
    }
}

/// The field `attrs` of `VariableDefinition`, attribute by attribute.
#[verifier::external_body]
fn variable_attrs(definition: &pt::VariableDefinition) -> (attrs: Vec<VariableAttr>)
    ensures
        attrs@ == variable_attributes(*definition),
{
    definition.attrs.iter().map(|attr| match attr {
        pt::VariableAttribute::Visibility(pt::Visibility::External(_)) => VariableAttr::Visibility(Visibility::External),
        pt::VariableAttribute::Visibility(pt::Visibility::Public(_)) => VariableAttr::Visibility(Visibility::Public),
        pt::VariableAttribute::Visibility(pt::Visibility::Internal(_)) => VariableAttr::Visibility(Visibility::Internal),
        pt::VariableAttribute::Visibility(pt::Visibility::Private(_)) => VariableAttr::Visibility(Visibility::Private),
        pt::VariableAttribute::Constant(_) => VariableAttr::Constant,
        pt::VariableAttribute::Immutable(_) => VariableAttr::Immutable,
        pt::VariableAttribute::Override(..) => VariableAttr::Override,
    }).collect()
}

/// The field `loc` of `VariableDefinition`: the start of a location in a
/// file.
#[verifier::external_body]
fn variable_start(definition: &pt::VariableDefinition) -> (start: Option<usize>)
    ensures
        start == variable_place(*definition),
{
    match definition.loc {
        pt::Loc::File(_, start, _) => Some(start),
        _ => None,
    }
}

/// The field `ty` of `FunctionDefinition`.
#[verifier::external_body]
fn function_kind(definition: &pt::FunctionDefinition) -> (kind: FunctionKind)
    ensures
        kind == function_sort(*definition),
{
    match definition.ty {
        pt::FunctionTy::Constructor => FunctionKind::Constructor,
        pt::FunctionTy::Function => FunctionKind::Function,
        pt::FunctionTy::Fallback => FunctionKind::Fallback,
        pt::FunctionTy::Receive => FunctionKind::Receive,
        pt::FunctionTy::Modifier => FunctionKind::Modifier,
    }
}

/// The field `name` of `FunctionDefinition`: the identifier's text.
#[verifier::external_body]
fn function_ident(definition: &pt::FunctionDefinition) -> (name: Option<String>)
    ensures
        name_view(name) == function_name(*definition),
{
    match &definition.name {
        Some(identifier) => Some(identifier.name.clone()),
        None => None,
    }
}

/// The field `attributes` of `FunctionDefinition`, attribute by attribute.
#[verifier::external_body]
fn function_attrs(definition: &pt::FunctionDefinition) -> (attrs: Vec<FunctionAttr>)
    ensures
        attrs@ == function_attributes(*definition),
{
    definition.attributes.iter().map(|attr| match attr {
        pt::FunctionAttribute::Visibility(pt::Visibility::External(_)) => FunctionAttr::Visibility(Visibility::External),
        pt::FunctionAttribute::Visibility(pt::Visibility::Public(_)) => FunctionAttr::Visibility(Visibility::Public),
        pt::FunctionAttribute::Visibility(pt::Visibility::Internal(_)) => FunctionAttr::Visibility(Visibility::Internal),
        pt::FunctionAttribute::Visibility(pt::Visibility::Private(_)) => FunctionAttr::Visibility(Visibility::Private),
        _ => FunctionAttr::Other,
    }).collect()
}

/// The field `loc` of `FunctionDefinition`: the start of a location in a
/// file.
#[verifier::external_body]
fn function_start(definition: &pt::FunctionDefinition) -> (start: Option<usize>)
    ensures
        start == function_place(*definition),
{
    match definition.loc {
        pt::Loc::File(_, start, _) => Some(start),
        _ => None,
    }
}

/// What a variable definition is to the conventions.
pub open spec fn variable_model(definition: pt::VariableDefinition) -> VariableView {
    VariableView {
        name: variable_name(definition),
        attrs: variable_attributes(definition),
        start: variable_place(definition),
    }
}

/// What a function definition is to the conventions.
pub open spec fn function_model(definition: pt::FunctionDefinition) -> FunctionView {
    FunctionView {
        kind: function_sort(definition),
        name: function_name(definition),
        attrs: function_attributes(definition),
        start: function_place(definition),
    }
}

/// What a part of a contract is to the conventions.
pub open spec fn member_model(part: pt::ContractPart) -> MemberView {
    match member_content(part) {
        MemberContent::Variable(definition) => MemberView::Variable(variable_model(definition)),
        MemberContent::Function(definition) => MemberView::Function(function_model(definition)),
        MemberContent::Other => MemberView::Other,
    }
}

/// What a part of a parse tree is to the conventions.
pub open spec fn part_model(part: pt::SourceUnitPart) -> ItemView {
    match part_content(part) {
        PartContent::Variable(definition) => ItemView::Variable(variable_model(definition)),
        PartContent::Function(definition) => ItemView::Function(function_model(definition)),
        PartContent::Contract(parts) => ItemView::Contract(
            parts.map_values(|part: pt::ContractPart| member_model(part)),
        ),
        PartContent::Other => ItemView::Other,
    }
}

/// What a parse tree is to the conventions.
pub open spec fn unit_model(unit: pt::SourceUnit) -> Seq<ItemView> {
    unit_parts(unit).map_values(|part: pt::SourceUnitPart| part_model(part))
}

/// The tree of a text, if the parser accepts the text.
pub open spec fn parsed_tree(content: Seq<char>) -> Option<Seq<ItemView>> {
    match parsed_unit(content) {
        Some(unit) => Some(unit_model(unit)),
        None => None,
    }
}

/// What a tree that may be missing is.
pub open spec fn tree_view(tree: Option<SourceTree>) -> Option<Seq<ItemView>> {
    match tree {
        Some(tree) => Some(tree@),
        None => None,
    }
}

fn read_variable(definition: &pt::VariableDefinition) -> (variable: Variable)
    ensures
        variable@ == variable_model(*definition),
{
    Variable {
        name: variable_ident(definition),
        attrs: variable_attrs(definition),
        start: variable_start(definition),
    }
}

fn read_function(definition: &pt::FunctionDefinition) -> (function: Function)
    ensures
        function@ == function_model(*definition),
{
    Function {
        kind: function_kind(definition),
        name: function_ident(definition),
        attrs: function_attrs(definition),
        start: function_start(definition),
    }
}

fn read_members(parts: &Vec<pt::ContractPart>) -> (members: Vec<Member>)
    ensures
        member_views(members@) == parts@.map_values(|part: pt::ContractPart| member_model(part)),
{
    let mut members: Vec<Member> = Vec::new();
    let mut i: usize = 0;
    while i < parts.len()
        invariant
            i <= parts.len(),
            members.len() == i,
            forall|k: int| 0 <= k < i ==> (#[trigger] members@[k])@ == member_model(parts@[k]),
        decreases parts.len() - i,
    {
        let member = match member_ref(&parts[i]) {
            MemberRef::Variable(definition) => Member::Variable(read_variable(definition)),
            MemberRef::Function(definition) => Member::Function(read_function(definition)),
            MemberRef::Other => Member::Other,
        };
        members.push(member);
        i = i + 1;
    }
    assert(member_views(members@) =~= parts@.map_values(
        |part: pt::ContractPart| member_model(part),
    ));
    members
}

fn read_unit(unit: &pt::SourceUnit) -> (tree: SourceTree)
    ensures
        tree@ == unit_model(*unit),
{
    let parts = parts_of(unit);
    let mut items: Vec<Item> = Vec::new();
    let mut i: usize = 0;
    while i < parts.len()
        invariant
            i <= parts.len(),
            items.len() == i,
            forall|k: int| 0 <= k < i ==> (#[trigger] items@[k])@ == part_model(parts@[k]),
        decreases parts.len() - i,
    {
        let item = match part_ref(&parts[i]) {
            PartRef::Variable(definition) => Item::Variable(read_variable(definition)),
            PartRef::Function(definition) => Item::Function(read_function(definition)),
            PartRef::Contract(members) => Item::Contract(read_members(members)),
            PartRef::Other => Item::Other,
        };
        items.push(item);
        i = i + 1;
    }
    let tree = SourceTree { items };
    assert(tree@ =~= unit_model(*unit));
    tree
}

/// Parses a Solidity file and reads its tree: the variables and functions
/// at the top of the file and directly inside its contracts. `None` where
/// the parser rejects the text.
pub fn parse_source(content: &str) -> (tree: Option<SourceTree>)
    ensures
        tree_view(tree) == parsed_tree(content@),
{
    match parse_unit(content) {
        Some(unit) => Some(read_unit(&unit)),
        None => None,
    }
}

} // verus!
