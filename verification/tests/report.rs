use scopelint::files::{classify, is_solidity_path, FileRole, Root};
use scopelint::report::{InvalidItem, Report, Validator};
use scopelint::src_names_internal::is_valid_internal_name;
use scopelint::text::decimal_string;

fn item(kind: Validator, file: &str, text: &str, line: usize) -> InvalidItem {
    InvalidItem::new(kind, file.to_string(), text.to_string(), line)
}

#[test]
fn new_report_is_valid() {
    let report = Report::default();
    assert!(report.is_valid());
    assert_eq!(report.items().len(), 0);
    assert_eq!(report.render(), "");
    for kind in [Validator::Test, Validator::Constant, Validator::Src, Validator::Script] {
        assert_eq!(report.count(kind), 0);
    }
}

#[test]
fn one_finding_makes_a_report_invalid() {
    for kind in [Validator::Test, Validator::Constant, Validator::Src, Validator::Script] {
        let mut report = Report::default();
        report.add_item(item(kind, "f", "t", 0));
        assert!(!report.is_valid());
        assert_eq!(report.count(kind), 1);
        let mut other = Report::default();
        other.add_items(vec![item(kind, "f", "t", 0)]);
        assert!(!other.is_valid());
        other.add_items(vec![]);
        assert!(!other.is_valid());
    }
    let mut report = Report::default();
    report.add_items(vec![]);
    assert!(report.is_valid());
}

#[test]
fn valid_exactly_when_the_groups_are_empty() {
    let kinds = [Validator::Test, Validator::Constant, Validator::Src, Validator::Script];
    for code in 0..256usize {
        let picks: Vec<usize> = (0..code % 4).map(|i| (code >> (2 * (i + 1))) % 4).collect();
        let mut report = Report::default();
        for pick in &picks {
            report.add_item(item(kinds[*pick], "f", "t", *pick));
        }
        let total: usize = kinds.iter().map(|kind| report.count(*kind)).sum();
        assert_eq!(total, picks.len());
        assert_eq!(report.is_valid(), total == 0);
    }
}

#[test]
fn findings_keep_their_order() {
    let a = item(Validator::Script, "a", "1", 0);
    let b = item(Validator::Test, "b", "2", 2);
    let c = item(Validator::Script, "c", "3", 0);
    let d = item(Validator::Constant, "d", "4", 4);
    let mut report = Report::default();
    report.add_item(a.clone());
    report.add_items(vec![b.clone(), c.clone()]);
    report.add_item(d.clone());
    assert_eq!(report.items(), &vec![a, b, c, d]);
    assert_eq!(report.count(Validator::Script), 2);
    assert_eq!(report.count(Validator::Test), 1);
    assert_eq!(report.count(Validator::Constant), 1);
    assert_eq!(report.count(Validator::Src), 0);
}

#[test]
fn findings_in_words() {
    assert_eq!(
        item(Validator::Test, "./test/A.t.sol", "testA", 12).description(),
        "Invalid test name in ./test/A.t.sol on line 12: testA"
    );
    assert_eq!(
        item(Validator::Constant, "./src/A.sol", "low", 1).description(),
        "Invalid constant or immutable name in ./src/A.sol on line 1: low"
    );
    assert_eq!(
        item(Validator::Src, "./src/A.sol", "helper", 307).description(),
        "Invalid src method name in ./src/A.sol on line 307: helper"
    );
    assert_eq!(
        item(Validator::Script, "./script/D.s.sol", "No `run` method found", 0).description(),
        "Invalid script interface in ./script/D.s.sol: No `run` method found"
    );
}

#[test]
fn report_is_written_group_by_group() {
    let mut report = Report::default();
    report.add_item(item(Validator::Script, "s1", "m1", 0));
    report.add_item(item(Validator::Src, "i1", "n1", 1));
    report.add_item(item(Validator::Constant, "c1", "n2", 2));
    report.add_item(item(Validator::Test, "t1", "n3", 3));
    report.add_item(item(Validator::Script, "s2", "m2", 0));
    report.add_item(item(Validator::Test, "t2", "n4", 40));
    report.add_item(item(Validator::Constant, "c2", "n5", 5));
    report.add_item(item(Validator::Src, "i2", "n6", 6));
    let expected = "Invalid test name in t1 on line 3: n3\n\
Invalid test name in t2 on line 40: n4\n\
Invalid constant or immutable name in c1 on line 2: n2\n\
Invalid constant or immutable name in c2 on line 5: n5\n\
Invalid src method name in i1 on line 1: n1\n\
Invalid src method name in i2 on line 6: n6\n\
Invalid script interface in s1: m1\n\
Invalid script interface in s2: m2\n";
    assert_eq!(report.render(), expected);
}

#[test]
fn numbers_in_decimal() {
    assert_eq!(decimal_string(0), "0");
    assert_eq!(decimal_string(7), "7");
    assert_eq!(decimal_string(10), "10");
    assert_eq!(decimal_string(1234567890), "1234567890");
    assert_eq!(decimal_string(usize::MAX), usize::MAX.to_string());
    for n in 0..2000usize {
        assert_eq!(decimal_string(n), n.to_string());
    }
}

#[test]
fn roles_by_root_and_name() {
    assert_eq!(classify(Root::Source, "./src/Counter.sol"), FileRole::Source);
    assert_eq!(classify(Root::Source, "./src/Counter.s.sol"), FileRole::Source);
    assert_eq!(classify(Root::Source, "./src/Counter.t.sol"), FileRole::Source);
    assert_eq!(classify(Root::Test, "./test/Counter.t.sol"), FileRole::Test);
    assert_eq!(classify(Root::Test, "./test/utils/Helper.sol"), FileRole::Test);
    assert_eq!(classify(Root::Test, "./test/Deploy.s.sol"), FileRole::Test);
    assert_eq!(classify(Root::Script, "./script/Deploy.s.sol"), FileRole::ScriptExecutable);
    assert_eq!(classify(Root::Script, "./script/sub/Deploy.s.sol"), FileRole::ScriptExecutable);
    assert_eq!(classify(Root::Script, ".s.sol"), FileRole::ScriptExecutable);
    assert_eq!(classify(Root::Script, "./script/Helper.sol"), FileRole::ScriptHelper);
    assert_eq!(classify(Root::Script, "./script/Deploy.S.sol"), FileRole::ScriptHelper);
    assert_eq!(classify(Root::Script, "./script/Deploys.sol"), FileRole::ScriptHelper);
    assert_eq!(classify(Root::Script, "s.sol"), FileRole::ScriptHelper);
    assert_eq!(classify(Root::Script, ""), FileRole::ScriptHelper);
}

#[test]
fn roots_and_their_directories() {
    assert_eq!(Root::all(), [Root::Source, Root::Script, Root::Test]);
    assert_eq!(Root::Source.directory(), "./src");
    assert_eq!(Root::Script.directory(), "./script");
    assert_eq!(Root::Test.directory(), "./test");
}

#[test]
fn solidity_files_by_extension() {
    for path in ["./src/A.sol", "A.sol", "./script/D.s.sol", "./test/a.b.c.sol", "./src/..sol"] {
        assert!(is_solidity_path(path), "{path}");
        assert_eq!(
            std::path::Path::new(path).extension().and_then(|e| e.to_str()),
            Some("sol"),
            "{path}"
        );
    }
    for path in ["", ".sol", "./src/.sol", "./src/A.sol.bak", "./src/A.SOL", "./src/Asol", "sol", "./src/A.sol/"] {
        assert!(!is_solidity_path(path), "{path}");
    }
    for path in ["", ".sol", "./src/.sol", "./src/A.sol.bak", "./src/A.SOL", "./src/Asol", "sol"] {
        assert_ne!(
            std::path::Path::new(path).extension().and_then(|e| e.to_str()),
            Some("sol"),
            "{path}"
        );
    }
}

#[test]
fn internal_names_begin_with_an_underscore() {
    assert!(is_valid_internal_name("_x"));
    assert!(is_valid_internal_name("_"));
    assert!(is_valid_internal_name("__x"));
    assert!(!is_valid_internal_name(""));
    assert!(!is_valid_internal_name("x_"));
    assert!(!is_valid_internal_name("$_x"));
}
