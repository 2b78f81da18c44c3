use suiforge::corpus::SourceUnit;
use suiforge::scan::{
    extract_variable_name, scan_file_for_issues, scan_sources, severity_counts, RuleKind,
    Severity, Strictness,
};

fn unit(path: &str, content: &str) -> SourceUnit {
    SourceUnit::new(path.as_bytes().to_vec(), content.as_bytes().to_vec())
}

#[test]
fn empty_corpus_yields_no_findings() {
    for level in [Strictness::Basic, Strictness::Standard, Strictness::Strict] {
        let issues = scan_sources(&Vec::new(), level);
        assert_eq!(issues.len(), 0);
    }
}

#[test]
fn reentrancy_fires_once_per_transfer_line_at_every_level() {
    let content = "fun pay() {\ntransfer::transfer(obj, recipient);\n}\n";
    for level in [Strictness::Basic, Strictness::Standard, Strictness::Strict] {
        let corpus = vec![unit("sources/pay.move", content)];
        let issues = scan_sources(&corpus, level);
        let criticals: Vec<_> = issues
            .iter()
            .filter(|f| f.severity() == Severity::Critical)
            .collect();
        assert_eq!(criticals.len(), 1);
        assert_eq!(criticals[0].rule, RuleKind::ReentrancyRisk);
        assert_eq!(criticals[0].line, 2);
        assert_eq!(criticals[0].path, b"sources/pay.move".to_vec());
    }
}

#[test]
fn transfer_without_ownership_check_is_flagged_high() {
    let content = "fun pay() {\ntransfer::transfer(obj, recipient);\n}\n";
    let corpus = vec![unit("a.move", content)];
    let issues = scan_sources(&corpus, Strictness::Standard);
    assert!(issues
        .iter()
        .any(|f| f.rule == RuleKind::UncheckedTransfer && f.severity() == Severity::High));
}

#[test]
fn ownership_check_in_window_suppresses_unchecked_transfer() {
    let content = "fun pay() {\nassert!(owner == sender, 0);\nstate = 1;\ntransfer::transfer(obj, r);\n}\n";
    let corpus = vec![unit("a.move", content)];
    let issues = scan_sources(&corpus, Strictness::Standard);
    assert!(!issues.iter().any(|f| f.rule == RuleKind::UncheckedTransfer));
    // the assignment in the look-behind window also quiets the reentrancy rule
    assert!(!issues.iter().any(|f| f.rule == RuleKind::ReentrancyRisk));
}

#[test]
fn access_control_rule_never_fires_at_basic() {
    let content = "public fun set_owner(o: address) {\nstore(o);\n}\n";
    let corpus = vec![unit("a.move", content)];
    let basic = scan_sources(&corpus, Strictness::Basic);
    assert!(!basic.iter().any(|f| f.rule == RuleKind::MissingAccessControl));
    let corpus2 = vec![unit("a.move", content)];
    let standard = scan_sources(&corpus2, Strictness::Standard);
    assert!(standard.iter().any(|f| f.rule == RuleKind::MissingAccessControl
        && f.severity() == Severity::Medium));
}

#[test]
fn assert_in_forward_window_suppresses_access_control() {
    let content = "public fun set_owner(o: address) {\nassert!(is_admin(o), 1);\n}\n";
    let corpus = vec![unit("a.move", content)];
    let issues = scan_sources(&corpus, Strictness::Standard);
    assert!(!issues.iter().any(|f| f.rule == RuleKind::MissingAccessControl));
}

#[test]
fn strict_only_rules_fire_only_at_strict() {
    let content = "public fun run() {\nlet unusedvalue;\n}\n";
    for level in [Strictness::Basic, Strictness::Standard] {
        let corpus = vec![unit("a.move", content)];
        let issues = scan_sources(&corpus, level);
        assert!(!issues.iter().any(|f| f.rule == RuleKind::UnusedVariable));
        assert!(!issues.iter().any(|f| f.rule == RuleKind::MissingDocumentation));
    }
    let corpus = vec![unit("a.move", content)];
    let issues = scan_sources(&corpus, Strictness::Strict);
    let unused: Vec<_> = issues
        .iter()
        .filter(|f| f.rule == RuleKind::UnusedVariable)
        .collect();
    assert_eq!(unused.len(), 1);
    assert_eq!(unused[0].var_name, b"unusedvalue".to_vec());
    assert_eq!(unused[0].severity(), Severity::Low);
    assert!(issues.iter().any(|f| f.rule == RuleKind::MissingDocumentation
        && f.severity() == Severity::Info
        && f.line == 1));
}

#[test]
fn doc_comment_suppresses_missing_documentation() {
    let content = "/// Does the thing.\npublic fun run() {\nassert!(ok, 0);\n}\n";
    let corpus = vec![unit("a.move", content)];
    let issues = scan_sources(&corpus, Strictness::Strict);
    assert!(!issues.iter().any(|f| f.rule == RuleKind::MissingDocumentation));
}

#[test]
fn used_variable_is_not_flagged() {
    let content = "public fun run() {\nlet value;\nconsume(value);\n}\n";
    let corpus = vec![unit("a.move", content)];
    let issues = scan_sources(&corpus, Strictness::Strict);
    assert!(!issues.iter().any(|f| f.rule == RuleKind::UnusedVariable));
}

#[test]
fn underscore_anywhere_on_the_line_skips_the_unused_rule() {
    let content = "public fun run() {\nlet a_b;\n}\n";
    let corpus = vec![unit("a.move", content)];
    let issues = scan_sources(&corpus, Strictness::Strict);
    assert!(!issues.iter().any(|f| f.rule == RuleKind::UnusedVariable));
}

#[test]
fn extract_variable_name_takes_first_word_after_let() {
    assert_eq!(
        extract_variable_name(&b"let foo = 1;".to_vec()),
        Some(b"foo".to_vec())
    );
    assert_eq!(
        extract_variable_name(&b"  let   spaced_out;".to_vec()),
        Some(b"spaced_out".to_vec())
    );
    // the keyword is matched anywhere in the line, even inside another word
    assert_eq!(
        extract_variable_name(&b"violet thing".to_vec()),
        Some(b"thing".to_vec())
    );
    assert_eq!(extract_variable_name(&b"nothing here".to_vec()), None);
    assert_eq!(extract_variable_name(&b"let ".to_vec()), None);
}

#[test]
fn findings_keep_file_then_line_then_rule_order() {
    let a = "transfer::t(x);\n";
    let b = "coin::take(y);\n";
    let corpus = vec![unit("a.move", a), unit("b.move", b)];
    let issues = scan_sources(&corpus, Strictness::Standard);
    // a.move: unchecked transfer then reentrancy on line 1; b.move: reentrancy
    assert_eq!(issues.len(), 3);
    assert_eq!(issues[0].rule, RuleKind::UncheckedTransfer);
    assert_eq!(issues[0].path, b"a.move".to_vec());
    assert_eq!(issues[1].rule, RuleKind::ReentrancyRisk);
    assert_eq!(issues[1].path, b"a.move".to_vec());
    assert_eq!(issues[2].rule, RuleKind::ReentrancyRisk);
    assert_eq!(issues[2].path, b"b.move".to_vec());
}

#[test]
fn severity_counts_group_findings() {
    let content = "transfer::t(x);\n";
    let corpus = vec![unit("a.move", content)];
    let issues = scan_sources(&corpus, Strictness::Standard);
    let (critical, high, medium, low, info) = severity_counts(&issues);
    assert_eq!((critical, high, medium, low, info), (1, 1, 0, 0, 0));
}

#[test]
fn scan_file_appends_to_existing_findings() {
    let u = unit("a.move", "transfer::t(x);\n");
    let mut issues = Vec::new();
    scan_file_for_issues(&u, Strictness::Basic, &mut issues);
    let first = issues.len();
    assert!(first > 0);
    scan_file_for_issues(&u, Strictness::Basic, &mut issues);
    assert_eq!(issues.len(), 2 * first);
}

#[test]
fn scanning_twice_gives_identical_output() {
    let content = "public fun f() {\ntransfer::t(x);\nlet unusedvalue;\n}\n";
    let corpus = vec![unit("a.move", content)];
    let once = scan_sources(&corpus, Strictness::Strict);
    let corpus2 = vec![unit("a.move", content)];
    let twice = scan_sources(&corpus2, Strictness::Strict);
    assert_eq!(once.len(), twice.len());
    for (x, y) in once.iter().zip(twice.iter()) {
        assert_eq!(x.rule, y.rule);
        assert_eq!(x.path, y.path);
        assert_eq!(x.line, y.line);
        assert_eq!(x.var_name, y.var_name);
    }
}

#[test]
fn severity_labels() {
    assert_eq!(Severity::Critical.as_str(), "CRITICAL");
    assert_eq!(Severity::High.as_str(), "HIGH");
    assert_eq!(Severity::Medium.as_str(), "MEDIUM");
    assert_eq!(Severity::Low.as_str(), "LOW");
    assert_eq!(Severity::Info.as_str(), "INFO");
}

#[test]
fn strictness_parsing_defaults_to_standard() {
    assert_eq!(Strictness::from_level("basic"), Strictness::Basic);
    assert_eq!(Strictness::from_level("strict"), Strictness::Strict);
    assert_eq!(Strictness::from_level("standard"), Strictness::Standard);
    assert_eq!(Strictness::from_level("anything"), Strictness::Standard);
}

#[test]
fn finding_titles_and_recommendations() {
    let content = "transfer::t(x);\n";
    let corpus = vec![unit("a.move", content)];
    let issues = scan_sources(&corpus, Strictness::Standard);
    let reentrancy = issues
        .iter()
        .find(|f| f.rule == RuleKind::ReentrancyRisk)
        .unwrap();
    assert_eq!(reentrancy.title(), "Potential Reentrancy Risk");
    assert_eq!(
        reentrancy.recommendation(),
        "Update state before making external calls (checks-effects-interactions)"
    );
    let unchecked = issues
        .iter()
        .find(|f| f.rule == RuleKind::UncheckedTransfer)
        .unwrap();
    assert_eq!(unchecked.title(), "Unchecked Transfer");
    assert_eq!(
        unchecked.description_bytes(),
        b"Transfer operation without ownership verification".to_vec()
    );
}

#[test]
fn unused_variable_description_names_the_binding() {
    let content = "let unusedvalue;\n";
    let corpus = vec![unit("a.move", content)];
    let issues = scan_sources(&corpus, Strictness::Strict);
    let unused = issues
        .iter()
        .find(|f| f.rule == RuleKind::UnusedVariable)
        .unwrap();
    assert_eq!(
        unused.description_bytes(),
        b"Variable 'unusedvalue' declared but never used".to_vec()
    );
}
