use suiforge::corpus::SourceUnit;
use suiforge::optimize::{
    analyze_for_optimizations, calc_pattern_exec, collect_suggestions, rank_and_truncate,
    OptimizationSuggestion, SuggestionKind,
};

fn unit(path: &str, content: &str) -> SourceUnit {
    SourceUnit::new(path.as_bytes().to_vec(), content.as_bytes().to_vec())
}

fn sugg(line: usize, savings: u64) -> OptimizationSuggestion {
    OptimizationSuggestion {
        kind: SuggestionKind::InefficientLookup,
        path: b"a.move".to_vec(),
        line,
        savings,
    }
}

#[test]
fn empty_corpus_yields_no_suggestions() {
    let suggestions = analyze_for_optimizations(&Vec::new());
    assert_eq!(suggestions.len(), 0);
}

#[test]
fn seven_distinct_savings_keep_the_five_highest() {
    let input = vec![
        sugg(1, 30),
        sugg(2, 700),
        sugg(3, 10),
        sugg(4, 400),
        sugg(5, 90),
        sugg(6, 220),
        sugg(7, 150),
    ];
    let out = rank_and_truncate(input);
    assert_eq!(out.len(), 5);
    let savings: Vec<u64> = out.iter().map(|s| s.savings).collect();
    assert_eq!(savings, vec![700, 400, 220, 150, 90]);
}

#[test]
fn ranking_is_stable_for_equal_savings() {
    let input = vec![sugg(1, 100), sugg(2, 100), sugg(3, 500), sugg(4, 100)];
    let out = rank_and_truncate(input);
    assert_eq!(out.len(), 4);
    assert_eq!(out[0].line, 3);
    assert_eq!(out[1].line, 1);
    assert_eq!(out[2].line, 2);
    assert_eq!(out[3].line, 4);
}

#[test]
fn excessive_allocation_counts_window_lines() {
    let content = "object::new(a)\nobject::new(b)\nobject::new(c)\n";
    let corpus = vec![unit("a.move", content)];
    let raw = collect_suggestions(&corpus);
    // each of the three lines sees all three in its window
    assert_eq!(raw.len(), 3);
    for s in &raw {
        assert_eq!(s.kind, SuggestionKind::ExcessiveAllocation);
        assert_eq!(s.savings, 200 * (3 - 1));
    }
    assert_eq!(raw[0].line, 1);
    assert_eq!(raw[1].line, 2);
    assert_eq!(raw[2].line, 3);
}

#[test]
fn two_allocations_are_not_flagged() {
    let content = "object::new(a)\nobject::new(b)\n";
    let corpus = vec![unit("a.move", content)];
    let raw = collect_suggestions(&corpus);
    assert_eq!(raw.len(), 0);
}

#[test]
fn vector_ops_in_loop_save_a_fixed_amount() {
    let content = "while (i < n) {\n    vector::push_back(v, x);\n}\n";
    let corpus = vec![unit("a.move", content)];
    let raw = collect_suggestions(&corpus);
    assert_eq!(raw.len(), 1);
    assert_eq!(raw[0].kind, SuggestionKind::VectorOpsInLoop);
    assert_eq!(raw[0].savings, 150);
    assert_eq!(raw[0].line, 1);
}

#[test]
fn repeated_computation_needs_two_later_matches() {
    let content = "x = a * b;\ny = a * b;\nz = a * b;\n";
    let corpus = vec![unit("a.move", content)];
    let raw = collect_suggestions(&corpus);
    assert_eq!(raw.len(), 1);
    assert_eq!(raw[0].kind, SuggestionKind::RepeatedComputation);
    assert_eq!(raw[0].savings, 100);
    assert_eq!(raw[0].line, 1);
}

#[test]
fn lookup_structure_rule_always_fires() {
    let content = "let v = vector::borrow(&tbl, i);\n";
    let corpus = vec![unit("a.move", content)];
    let raw = collect_suggestions(&corpus);
    assert_eq!(raw.len(), 1);
    assert_eq!(raw[0].kind, SuggestionKind::InefficientLookup);
    assert_eq!(raw[0].savings, 180);
}

#[test]
fn calc_pattern_recognizes_multiply_and_divide() {
    assert!(calc_pattern_exec(&b"x = a * b".to_vec()));
    assert!(calc_pattern_exec(&b"x = a/ b".to_vec()));
    assert!(calc_pattern_exec(&b"total*2".to_vec()));
    assert!(!calc_pattern_exec(&b"x = a + b".to_vec()));
    assert!(!calc_pattern_exec(&b"* b".to_vec()));
    assert!(!calc_pattern_exec(&b"a *".to_vec()));
}

#[test]
fn advising_twice_gives_identical_output() {
    let content = "while (i < n) {\n    vector::borrow(v, i);\n}\n";
    let corpus = vec![unit("a.move", content)];
    let once = analyze_for_optimizations(&corpus);
    let twice = analyze_for_optimizations(&corpus);
    assert_eq!(once.len(), twice.len());
    for (x, y) in once.iter().zip(twice.iter()) {
        assert_eq!(x.kind, y.kind);
        assert_eq!(x.path, y.path);
        assert_eq!(x.line, y.line);
        assert_eq!(x.savings, y.savings);
    }
}

#[test]
fn suggestion_texts_follow_the_kind() {
    let s = sugg(1, 180);
    assert_eq!(s.title(), "Use Efficient Data Structures");
    assert_eq!(s.current_description(), "Using vector for lookups");
    assert_eq!(s.recommendation(), "Use Table or ObjectTable for O(1) access");
}
