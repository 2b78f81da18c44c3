use suiforge::corpus::SourceUnit;
use suiforge::coverage::{analyze_coverage, apply_ratio, calculate_test_coverage, module_stem,
    CoverageRatio};

fn unit(path: &str, content: &str) -> SourceUnit {
    SourceUnit::new(path.as_bytes().to_vec(), content.as_bytes().to_vec())
}

fn ten_function_source() -> String {
    let names = [
        "alpha", "bravo", "charlie", "delta", "echo", "foxtrot", "golf", "hotel", "india",
        "juliet",
    ];
    let mut s = String::new();
    for n in names {
        s.push_str(&format!("fun {}() {{\n}}\n", n));
    }
    s
}

#[test]
fn ratios_from_matched_test_file() {
    // 10 functions, 4 named in the test file, 3 test annotations
    let source = ten_function_source();
    let test_content = "#[test]\nalpha bravo charlie delta\n#[test]\n#[test]\n";
    let tests = vec![unit("tests/token_tests.move", test_content)];
    let tc = calculate_test_coverage(
        &b"sources/token.move".to_vec(),
        &source.as_bytes().to_vec(),
        &tests,
    );
    // function_ratio = 4/10
    assert_eq!(tc.function_ratio.num, 4);
    assert_eq!(tc.function_ratio.den, 10);
    // line_ratio = 0.4 * 0.7 + 0.6 * 0.3 = 0.46, as the exact fraction 230/500
    assert_eq!(tc.line_ratio.num, 230);
    assert_eq!(tc.line_ratio.den, 500);
}

#[test]
fn no_matching_test_file_means_zero_coverage() {
    let source = ten_function_source();
    let tests = vec![unit("tests/other_tests.move", "#[test]\nalpha\n")];
    let tc = calculate_test_coverage(
        &b"sources/token.move".to_vec(),
        &source.as_bytes().to_vec(),
        &tests,
    );
    assert_eq!(tc.function_ratio.num, 0);
    assert_eq!(tc.function_ratio.den, 1);
    assert_eq!(tc.line_ratio.num, 0);
    assert_eq!(tc.line_ratio.den, 1);
}

#[test]
fn no_test_annotations_means_zero_line_ratio() {
    let source = ten_function_source();
    let tests = vec![unit("tests/token_tests.move", "alpha bravo\n")];
    let tc = calculate_test_coverage(
        &b"sources/token.move".to_vec(),
        &source.as_bytes().to_vec(),
        &tests,
    );
    assert_eq!(tc.function_ratio.num, 2);
    assert_eq!(tc.function_ratio.den, 10);
    assert_eq!(tc.line_ratio.num, 0);
    assert_eq!(tc.line_ratio.den, 1);
}

#[test]
fn module_stem_drops_directory_and_extension() {
    assert_eq!(module_stem(&b"sources/token.move".to_vec()), b"token".to_vec());
    assert_eq!(module_stem(&b"token.move".to_vec()), b"token".to_vec());
    assert_eq!(module_stem(&b"a/b/c.d.move".to_vec()), b"c.d".to_vec());
    assert_eq!(module_stem(&b"sources/.hidden".to_vec()), b".hidden".to_vec());
    assert_eq!(module_stem(&b"plain".to_vec()), b"plain".to_vec());
}

#[test]
fn covered_counts_round_down() {
    let r = CoverageRatio { num: 230, den: 500 };
    assert_eq!(apply_ratio(10, &r), 4);
    assert_eq!(apply_ratio(0, &r), 0);
    let full = CoverageRatio { num: 1, den: 1 };
    assert_eq!(apply_ratio(7, &full), 7);
    let zero = CoverageRatio { num: 0, den: 1 };
    assert_eq!(apply_ratio(7, &zero), 0);
}

#[test]
fn empty_corpus_yields_zero_report() {
    let report = analyze_coverage(&Vec::new(), &Vec::new());
    assert_eq!(report.lines_total, 0);
    assert_eq!(report.lines_covered, 0);
    assert_eq!(report.functions_total, 0);
    assert_eq!(report.functions_covered, 0);
    assert_eq!(report.modules.len(), 0);
    assert_eq!(report.uncovered_lines.len(), 0);
}

#[test]
fn per_module_rows_and_totals() {
    let source = ten_function_source();
    let test_content = "#[test]\nalpha bravo charlie delta\n#[test]\n#[test]\n";
    let sources = vec![unit("sources/token.move", &source)];
    let tests = vec![unit("tests/token_tests.move", test_content)];
    let report = analyze_coverage(&sources, &tests);
    assert_eq!(report.modules.len(), 1);
    let m = &report.modules[0];
    assert_eq!(m.name, b"sources/token.move".to_vec());
    // 20 non-blank non-comment lines, floor(20 * 230 / 500) = 9 covered
    assert_eq!(m.lines_total, 20);
    assert_eq!(m.lines_covered, 9);
    // "fun " occurs 10 times, floor(10 * 4 / 10) = 4 covered
    assert_eq!(m.functions_total, 10);
    assert_eq!(m.functions_covered, 4);
    assert_eq!(report.lines_total, 20);
    assert_eq!(report.lines_covered, 9);
    assert_eq!(report.functions_total, 10);
    assert_eq!(report.functions_covered, 4);
}

#[test]
fn blank_and_comment_lines_do_not_count() {
    let content = "fun a() {\n\n// comment\n   \n}\n";
    let sources = vec![unit("sources/a.move", content)];
    let report = analyze_coverage(&sources, &Vec::new());
    assert_eq!(report.modules[0].lines_total, 2);
    assert_eq!(report.modules[0].functions_total, 1);
    assert_eq!(report.modules[0].lines_covered, 0);
}

#[test]
fn analyzing_twice_gives_identical_output() {
    let source = ten_function_source();
    let sources = vec![unit("sources/token.move", &source)];
    let tests = vec![unit("tests/token_tests.move", "#[test]\nalpha\n")];
    let once = analyze_coverage(&sources, &tests);
    let twice = analyze_coverage(&sources, &tests);
    assert_eq!(once.lines_covered, twice.lines_covered);
    assert_eq!(once.lines_total, twice.lines_total);
    assert_eq!(once.functions_covered, twice.functions_covered);
    assert_eq!(once.functions_total, twice.functions_total);
    assert_eq!(once.modules.len(), twice.modules.len());
    for (a, b) in once.modules.iter().zip(twice.modules.iter()) {
        assert_eq!(a.name, b.name);
        assert_eq!(a.lines_covered, b.lines_covered);
        assert_eq!(a.lines_total, b.lines_total);
        assert_eq!(a.functions_covered, b.functions_covered);
        assert_eq!(a.functions_total, b.functions_total);
    }
}
