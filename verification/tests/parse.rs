use scopelint::declarations::{extract, Declaration, DeclarationKind};
use scopelint::parse::parse_source;
use scopelint::tree::{
    Function, FunctionAttr, FunctionKind, Item, Member, SourceTree, Variable, VariableAttr,
    Visibility,
};

const COUNTER: &str = "pragma solidity ^0.8.17;\n\
uint256 constant TOP = 1;\n\
function free(uint256 x) pure returns (uint256) { return x; }\n\
contract Counter {\n\
    uint256 public immutable override LIMIT;\n\
    uint256 internal _count;\n\
    event Bumped(uint256 by);\n\
    constructor() { LIMIT = 3; }\n\
    function bump(uint256 by) external virtual { _count += by; }\n\
    function _reset() private { _count = 0; }\n\
    modifier onlyOnce() { _; }\n\
    receive() external payable {}\n\
    fallback() external {}\n\
}\n";

fn offset_of(text: &str, needle: &str) -> Option<usize> {
    Some(text.find(needle).unwrap())
}

#[test]
fn tree_holds_top_level_and_members() {
    let tree = parse_source(COUNTER).unwrap();
    let expected = SourceTree {
        items: vec![
            Item::Other,
            Item::Variable(Variable {
                name: Some("TOP".to_string()),
                attrs: vec![VariableAttr::Constant],
                start: offset_of(COUNTER, "uint256 constant TOP"),
            }),
            Item::Function(Function {
                kind: FunctionKind::Function,
                name: Some("free".to_string()),
                attrs: vec![FunctionAttr::Other],
                start: offset_of(COUNTER, "function free"),
            }),
            Item::Contract(vec![
                Member::Variable(Variable {
                    name: Some("LIMIT".to_string()),
                    attrs: vec![
                        VariableAttr::Visibility(Visibility::Public),
                        VariableAttr::Immutable,
                        VariableAttr::Override,
                    ],
                    start: offset_of(COUNTER, "uint256 public immutable"),
                }),
                Member::Variable(Variable {
                    name: Some("_count".to_string()),
                    attrs: vec![VariableAttr::Visibility(Visibility::Internal)],
                    start: offset_of(COUNTER, "uint256 internal _count"),
                }),
                Member::Other,
                Member::Function(Function {
                    kind: FunctionKind::Constructor,
                    name: None,
                    attrs: vec![],
                    start: offset_of(COUNTER, "constructor()"),
                }),
                Member::Function(Function {
                    kind: FunctionKind::Function,
                    name: Some("bump".to_string()),
                    attrs: vec![FunctionAttr::Visibility(Visibility::External), FunctionAttr::Other],
                    start: offset_of(COUNTER, "function bump"),
                }),
                Member::Function(Function {
                    kind: FunctionKind::Function,
                    name: Some("_reset".to_string()),
                    attrs: vec![FunctionAttr::Visibility(Visibility::Private)],
                    start: offset_of(COUNTER, "function _reset"),
                }),
                Member::Function(Function {
                    kind: FunctionKind::Modifier,
                    name: Some("onlyOnce".to_string()),
                    attrs: vec![],
                    start: offset_of(COUNTER, "modifier onlyOnce"),
                }),
                Member::Function(Function {
                    kind: FunctionKind::Receive,
                    name: None,
                    attrs: vec![FunctionAttr::Visibility(Visibility::External), FunctionAttr::Other],
                    start: offset_of(COUNTER, "receive()"),
                }),
                Member::Function(Function {
                    kind: FunctionKind::Fallback,
                    name: None,
                    attrs: vec![FunctionAttr::Visibility(Visibility::External)],
                    start: offset_of(COUNTER, "fallback()"),
                }),
            ]),
        ],
    };
    assert_eq!(tree, expected);
}

#[test]
fn parser_rejects_broken_text() {
    assert_eq!(parse_source("contract {"), None);
    assert_eq!(parse_source("function ("), None);
    assert_eq!(parse_source("this is no solidity"), None);
}

#[test]
fn empty_text_is_an_empty_tree() {
    assert_eq!(parse_source(""), Some(SourceTree { items: vec![] }));
}

#[test]
fn parsing_twice_gives_the_same_tree() {
    assert_eq!(parse_source(COUNTER), parse_source(COUNTER));
}

#[test]
fn canonical_names() {
    let named = |kind: FunctionKind, name: Option<&str>| Function {
        kind,
        name: name.map(|n| n.to_string()),
        attrs: vec![],
        start: None,
    };
    assert_eq!(named(FunctionKind::Constructor, None).name(), Some("constructor".to_string()));
    assert_eq!(named(FunctionKind::Constructor, Some("x")).name(), Some("constructor".to_string()));
    assert_eq!(named(FunctionKind::Fallback, None).name(), Some("fallback".to_string()));
    assert_eq!(named(FunctionKind::Receive, None).name(), Some("receive".to_string()));
    assert_eq!(named(FunctionKind::Function, Some("run")).name(), Some("run".to_string()));
    assert_eq!(named(FunctionKind::Modifier, Some("only")).name(), Some("only".to_string()));
    assert_eq!(named(FunctionKind::Function, None).name(), None);
    assert_eq!(named(FunctionKind::Modifier, None).name(), None);
}

fn declaration(
    kind: DeclarationKind,
    name: &str,
    constant: bool,
    restricted: bool,
    start: Option<usize>,
) -> Declaration {
    Declaration { kind, name: name.to_string(), constant, restricted, start }
}

#[test]
fn declarations_come_in_source_order() {
    let tree = parse_source(COUNTER).unwrap();
    let v = DeclarationKind::Variable;
    let f = DeclarationKind::Function;
    let expected = vec![
        declaration(v, "TOP", true, false, offset_of(COUNTER, "uint256 constant TOP")),
        declaration(f, "free", false, false, offset_of(COUNTER, "function free")),
        declaration(v, "LIMIT", true, false, offset_of(COUNTER, "uint256 public immutable")),
        declaration(v, "_count", false, true, offset_of(COUNTER, "uint256 internal _count")),
        declaration(f, "constructor", false, false, offset_of(COUNTER, "constructor()")),
        declaration(f, "bump", false, false, offset_of(COUNTER, "function bump")),
        declaration(f, "_reset", false, true, offset_of(COUNTER, "function _reset")),
        declaration(f, "onlyOnce", false, false, offset_of(COUNTER, "modifier onlyOnce")),
        declaration(f, "receive", false, false, offset_of(COUNTER, "receive()")),
        declaration(f, "fallback", false, false, offset_of(COUNTER, "fallback()")),
    ];
    assert_eq!(extract(&tree), expected);
}

#[test]
fn nothing_below_a_contract_member_is_read() {
    let text = "contract A { function f() public { uint256 constant_like = 1; } struct S { uint256 lower; } }";
    let tree = parse_source(text).unwrap();
    let found = extract(&tree);
    assert_eq!(found.len(), 1);
    assert_eq!(found[0].name, "f");
}

#[test]
fn nameless_definitions_give_no_declaration() {
    let tree = SourceTree {
        items: vec![
            Item::Function(Function {
                kind: FunctionKind::Function,
                name: None,
                attrs: vec![],
                start: Some(0),
            }),
            Item::Variable(Variable { name: None, attrs: vec![VariableAttr::Constant], start: Some(0) }),
            Item::Contract(vec![
                Member::Other,
                Member::Function(Function {
                    kind: FunctionKind::Modifier,
                    name: None,
                    attrs: vec![],
                    start: None,
                }),
            ]),
            Item::Other,
        ],
    };
    assert_eq!(extract(&tree), vec![]);
}

#[test]
fn any_attribute_decides() {
    let tree = SourceTree {
        items: vec![
            Item::Variable(Variable {
                name: Some("a".to_string()),
                attrs: vec![
                    VariableAttr::Visibility(Visibility::Public),
                    VariableAttr::Override,
                    VariableAttr::Visibility(Visibility::Private),
                    VariableAttr::Immutable,
                ],
                start: Some(7),
            }),
            Item::Function(Function {
                kind: FunctionKind::Function,
                name: Some("f".to_string()),
                attrs: vec![
                    FunctionAttr::Other,
                    FunctionAttr::Visibility(Visibility::External),
                    FunctionAttr::Visibility(Visibility::Internal),
                ],
                start: None,
            }),
            Item::Variable(Variable {
                name: Some("b".to_string()),
                attrs: vec![VariableAttr::Visibility(Visibility::External), VariableAttr::Override],
                start: None,
            }),
        ],
    };
    let expected = vec![
        declaration(DeclarationKind::Variable, "a", true, true, Some(7)),
        declaration(DeclarationKind::Function, "f", false, true, None),
        declaration(DeclarationKind::Variable, "b", false, false, None),
    ];
    assert_eq!(extract(&tree), expected);
}
