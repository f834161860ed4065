use scopelint::check::{
    check_file, check_tree, run, validate, validate_conventions, CheckError, SourceFile,
};
use scopelint::declarations::{Declaration, DeclarationKind};
use scopelint::files::{FileRole, Root};
use scopelint::parse::parse_source;
use scopelint::report::{InvalidItem, Report, Validator};
use scopelint::scripts::{entrypoint_names, list_text, script_verdict};
use scopelint::tree::{Function, FunctionKind, Item, SourceTree};

fn file(root: Root, path: &str, content: &str) -> SourceFile {
    SourceFile { root, path: path.to_string(), content: content.to_string() }
}

fn item(kind: Validator, file: &str, text: &str, line: usize) -> InvalidItem {
    InvalidItem { kind, file: file.to_string(), text: text.to_string(), line }
}

fn findings(file: &SourceFile) -> Vec<InvalidItem> {
    let mut report = Report::default();
    assert!(check_file(&mut report, file));
    report.items().clone()
}

const MANY: &str = "Scripts must have a single public method named `run` (excluding `setUp`), but the following methods were found: ";

#[test]
fn script_with_two_public_methods() {
    let text = "contract Deploy {\n  function setUp() public {}\n  function foo() public {}\n  function bar() external {}\n  function _helper() internal {}\n}\n";
    let script = file(Root::Script, "./script/Deploy.s.sol", text);
    let expected = vec![item(
        Validator::Script,
        "./script/Deploy.s.sol",
        &format!("{MANY}[\"foo\", \"bar\"]"),
        0,
    )];
    assert_eq!(findings(&script), expected);
}

#[test]
fn script_with_run_and_set_up() {
    let text = "contract Deploy {\n  function setUp() public {}\n  function run() public {}\n}\n";
    assert_eq!(findings(&file(Root::Script, "./script/Deploy.s.sol", text)), vec![]);
}

#[test]
fn script_with_run_alone() {
    let text = "contract Deploy {\n  function run() external {}\n  function _inner() private {}\n}\n";
    assert_eq!(findings(&file(Root::Script, "./script/Deploy.s.sol", text)), vec![]);
}

#[test]
fn script_without_public_methods() {
    let text = "contract Deploy {\n  constructor() {}\n  function setUp() public {}\n  function _a() internal {}\n  function _b() private {}\n}\n";
    let expected = vec![item(Validator::Script, "./script/D.s.sol", "No `run` method found", 0)];
    assert_eq!(findings(&file(Root::Script, "./script/D.s.sol", text)), expected);
    let empty = vec![item(Validator::Script, "./script/E.s.sol", "No `run` method found", 0)];
    assert_eq!(findings(&file(Root::Script, "./script/E.s.sol", "")), empty);
}

#[test]
fn script_with_one_method_that_is_not_run() {
    let text = "contract Deploy {\n  function deploy() public {}\n}\n";
    let expected = vec![item(
        Validator::Script,
        "./script/D.s.sol",
        "The only public method must be named `run`",
        0,
    )];
    assert_eq!(findings(&file(Root::Script, "./script/D.s.sol", text)), expected);
}

#[test]
fn script_method_without_visibility_is_public() {
    let text = "contract Deploy {\n  function run() {}\n  function other() {}\n}\n";
    let expected =
        vec![item(Validator::Script, "./script/D.s.sol", &format!("{MANY}[\"run\", \"other\"]"), 0)];
    assert_eq!(findings(&file(Root::Script, "./script/D.s.sol", text)), expected);
}

#[test]
fn script_counts_run_twice() {
    let text = "contract A {\n  function run() public {}\n}\ncontract B {\n  function run() public {}\n}\n";
    let expected =
        vec![item(Validator::Script, "./script/D.s.sol", &format!("{MANY}[\"run\", \"run\"]"), 0)];
    assert_eq!(findings(&file(Root::Script, "./script/D.s.sol", text)), expected);
}

#[test]
fn script_counts_free_functions_and_special_functions() {
    let text = "function free() pure {}\ncontract A {\n  receive() external payable {}\n  modifier only() { _; }\n}\n";
    let expected = vec![item(
        Validator::Script,
        "./script/D.s.sol",
        &format!("{MANY}[\"free\", \"receive\", \"only\"]"),
        0,
    )];
    assert_eq!(findings(&file(Root::Script, "./script/D.s.sol", text)), expected);
}

#[test]
fn helper_contracts_in_the_script_directory_are_exempt() {
    let text = "contract Helper {\n  function foo() public {}\n  function bar() public {}\n}\n";
    assert_eq!(findings(&file(Root::Script, "./script/Helper.sol", text)), vec![]);
    assert_eq!(findings(&file(Root::Source, "./src/Helper.s.sol", text)), vec![]);
    assert_eq!(findings(&file(Root::Test, "./test/Helper.s.sol", text)), vec![]);
}

#[test]
fn script_rule_gives_the_same_answer_again() {
    let text = "contract Deploy {\n  function foo() public {}\n  function bar() external {}\n}\n";
    let script = file(Root::Script, "./script/Deploy.s.sol", text);
    let first = findings(&script);
    let second = findings(&script);
    assert_eq!(first.len(), 1);
    assert_eq!(first, second);
}

#[test]
fn names_are_quoted_as_debug_writes_them() {
    let tree = SourceTree {
        items: vec![
            Item::Function(Function {
                kind: FunctionKind::Function,
                name: Some("a\"b".to_string()),
                attrs: vec![],
                start: None,
            }),
            Item::Function(Function {
                kind: FunctionKind::Function,
                name: Some("c\\d\n".to_string()),
                attrs: vec![],
                start: None,
            }),
        ],
    };
    let found = check_tree(FileRole::ScriptExecutable, "s", "", &tree);
    assert_eq!(found, vec![item(Validator::Script, "s", &format!("{MANY}[\"a\\\"b\", \"c\\\\d\\n\"]"), 0)]);
}

#[test]
fn verdict_goes_by_the_names_it_is_given() {
    let names = |list: &[&str]| list.iter().map(|n| n.to_string()).collect::<Vec<String>>();
    assert_eq!(script_verdict("f", &names(&["run"]), &names(&["x"])), None);
    assert_eq!(
        script_verdict("f", &names(&[]), &names(&[])),
        Some(item(Validator::Script, "f", "No `run` method found", 0))
    );
    assert_eq!(
        script_verdict("f", &names(&["Run"]), &names(&["x"])),
        Some(item(Validator::Script, "f", "The only public method must be named `run`", 0))
    );
    assert_eq!(
        script_verdict("f", &names(&["a", "b", "c"]), &names(&["<a>", "<b>", "<c>"])),
        Some(item(Validator::Script, "f", &format!("{MANY}[<a>, <b>, <c>]"), 0))
    );
}

#[test]
fn lists_are_written_between_brackets() {
    let names = |list: &[&str]| list.iter().map(|n| n.to_string()).collect::<Vec<String>>();
    assert_eq!(list_text(&names(&[])), "[]");
    assert_eq!(list_text(&names(&["a"])), "[a]");
    assert_eq!(list_text(&names(&["a", "b"])), "[a, b]");
    assert_eq!(list_text(&names(&["", "", ""])), "[, , ]");
}

#[test]
fn entrypoints_leave_out_what_is_inside() {
    let decl = |kind: DeclarationKind, name: &str, restricted: bool| Declaration {
        kind,
        name: name.to_string(),
        constant: false,
        restricted,
        start: None,
    };
    let f = DeclarationKind::Function;
    let declarations = vec![
        decl(f, "run", false),
        decl(f, "setUp", false),
        decl(DeclarationKind::Variable, "owner", false),
        decl(f, "constructor", false),
        decl(f, "_hidden", true),
        decl(f, "setup", false),
        decl(f, "fallback", false),
    ];
    assert_eq!(entrypoint_names(&declarations), vec!["run", "setup", "fallback"]);
}

#[test]
fn constants_are_checked_everywhere() {
    let text = "uint256 constant top = 1;\ncontract A {\n  uint256 public constant MAX_UINT256 = 1;\n  address\n    immutable owner;\n  uint256 internal lower;\n  uint256 constant VARIABLE_name = 2;\n}\n";
    for (root, path) in [
        (Root::Source, "./src/A.sol"),
        (Root::Test, "./test/A.t.sol"),
        (Root::Script, "./script/Lib.sol"),
    ] {
        let mut expected = vec![];
        if root == Root::Source {
            expected.push(item(Validator::Src, path, "lower", 6));
        }
        expected.push(item(Validator::Constant, path, "top", 1));
        expected.push(item(Validator::Constant, path, "owner", 4));
        expected.push(item(Validator::Constant, path, "VARIABLE_name", 7));
        assert_eq!(findings(&file(root, path, text)), expected);
    }
}

#[test]
fn test_names_are_checked_in_test_files() {
    let text = "function testFree() {}\ncontract T {\n  function setUp() public {}\n  function test_Increment() public {}\n  function testIncrement() public {}\n\n  function testFuzz_RevertIf_Zero(uint256 x) public {}\n  function test() public {}\n  uint256 testVariable;\n}\n";
    let expected = vec![
        item(Validator::Test, "./test/T.t.sol", "testFree", 1),
        item(Validator::Test, "./test/T.t.sol", "testIncrement", 5),
        item(Validator::Test, "./test/T.t.sol", "test", 8),
    ];
    assert_eq!(findings(&file(Root::Test, "./test/T.t.sol", text)), expected);
    assert_eq!(findings(&file(Root::Source, "./src/T.sol", text)), vec![]);
    assert_eq!(findings(&file(Root::Script, "./script/T.sol", text)), vec![]);
}

#[test]
fn internal_names_are_checked_in_source_files() {
    let text = "contract A {\n  uint256 private count;\n  uint256 internal _total;\n  uint256 public shown;\n  uint256 plain;\n  function helper() internal {}\n  function _helper() private {}\n  function open() external {}\n  function bare() {}\n  modifier only() { _; }\n}\n";
    let expected = vec![
        item(Validator::Src, "./src/A.sol", "count", 2),
        item(Validator::Src, "./src/A.sol", "helper", 6),
    ];
    assert_eq!(findings(&file(Root::Source, "./src/A.sol", text)), expected);
    assert_eq!(findings(&file(Root::Test, "./test/A.sol", text)), vec![]);
    assert_eq!(findings(&file(Root::Script, "./script/A.sol", text)), vec![]);
}

#[test]
fn findings_of_a_file_come_rule_by_rule() {
    let text = "contract A {\n  uint256 constant low = 1;\n  function helper() internal {}\n  uint256 private immutable worse;\n}\n";
    let expected = vec![
        item(Validator::Src, "./src/A.sol", "helper", 3),
        item(Validator::Src, "./src/A.sol", "worse", 4),
        item(Validator::Constant, "./src/A.sol", "low", 2),
        item(Validator::Constant, "./src/A.sol", "worse", 4),
    ];
    assert_eq!(findings(&file(Root::Source, "./src/A.sol", text)), expected);
}

#[test]
fn tree_and_text_agree_with_the_file() {
    let text = "contract A {\n  uint256 constant low = 1;\n}\n";
    let tree = parse_source(text).unwrap();
    let found = check_tree(FileRole::Source, "./src/A.sol", text, &tree);
    assert_eq!(found, findings(&file(Root::Source, "./src/A.sol", text)));
    assert_eq!(found, vec![item(Validator::Constant, "./src/A.sol", "low", 2)]);
}

#[test]
fn rejected_file_leaves_the_report_alone() {
    let mut report = Report::default();
    report.add_item(item(Validator::Test, "a", "b", 1));
    assert!(!check_file(&mut report, &file(Root::Source, "./src/B.sol", "contract {")));
    assert_eq!(report.items(), &vec![item(Validator::Test, "a", "b", 1)]);
}

#[test]
fn run_over_files_gathers_in_order() {
    let files = vec![
        file(Root::Source, "./src/A.sol", "contract A { uint256 constant low = 1; }"),
        file(Root::Script, "./script/D.s.sol", "contract D { }"),
        file(Root::Test, "./test/A.t.sol", "contract T {\n function testA() public {} }"),
    ];
    let report = validate(&files).unwrap();
    let expected = vec![
        item(Validator::Constant, "./src/A.sol", "low", 1),
        item(Validator::Script, "./script/D.s.sol", "No `run` method found", 0),
        item(Validator::Test, "./test/A.t.sol", "testA", 2),
    ];
    assert_eq!(report.items(), &expected);
    assert!(!report.is_valid());
    let details = "Invalid test name in ./test/A.t.sol on line 2: testA\n\
Invalid constant or immutable name in ./src/A.sol on line 1: low\n\
Invalid script interface in ./script/D.s.sol: No `run` method found\n";
    assert_eq!(
        validate_conventions(&files),
        Err(CheckError::InvalidNames { details: details.to_string() })
    );
}

#[test]
fn run_stops_at_the_first_rejected_file() {
    let files = vec![
        file(Root::Source, "./src/A.sol", "contract A { uint256 constant low = 1; }"),
        file(Root::Source, "./src/B.sol", "contract {"),
        file(Root::Source, "./src/C.sol", "also broken"),
    ];
    let expected = CheckError::Parse { file: "./src/B.sol".to_string() };
    assert_eq!(validate(&files).err(), Some(expected.clone()));
    assert_eq!(validate_conventions(&files), Err(expected));
}

#[test]
fn clean_project_passes() {
    let files = vec![
        file(Root::Source, "./src/A.sol", "contract A { uint256 constant HIGH = 1; function _f() internal {} }"),
        file(Root::Script, "./script/D.s.sol", "contract D { function run() public {} }"),
        file(Root::Test, "./test/A.t.sol", "contract T { function test_A() public {} }"),
    ];
    assert!(validate(&files).unwrap().is_valid());
    assert_eq!(validate_conventions(&files), Ok(()));
    assert_eq!(validate_conventions(&vec![]), Ok(()));
}

#[test]
fn verdict_needs_both_checks() {
    assert_eq!(run(true, true), Ok(()));
    assert_eq!(run(true, false), Err(CheckError::Failed));
    assert_eq!(run(false, true), Err(CheckError::Failed));
    assert_eq!(run(false, false), Err(CheckError::Failed));
}

#[test]
fn errors_in_words() {
    assert_eq!(CheckError::Failed.message(), "One or more checks failed, review above output");
    assert_eq!(
        CheckError::InvalidNames { details: String::new() }.message(),
        "Invalid names found"
    );
    assert_eq!(CheckError::Parse { file: "x".to_string() }.message(), "Parsing failed");
}
