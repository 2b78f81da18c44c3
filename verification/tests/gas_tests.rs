use suiforge::corpus::SourceUnit;
use suiforge::gas::{
    average_gas, estimate_gas_usage, function_names, highest_gas_index, lowest_gas_index,
    parse_move_functions, sort_profiles_by_gas, total_gas, GasEstimate,
};

fn unit(path: &str, content: &str) -> SourceUnit {
    SourceUnit::new(path.as_bytes().to_vec(), content.as_bytes().to_vec())
}

fn content_vec(s: &str) -> Vec<u8> {
    s.as_bytes().to_vec()
}

#[test]
fn empty_corpus_yields_no_profiles() {
    let profiles = parse_move_functions(&Vec::new());
    assert_eq!(profiles.len(), 0);
}

#[test]
fn weighted_counts_with_base_cost() {
    // one signature; after its opening brace: two object creations and one
    // table operation, nothing else that is weighted
    let content = "fun mint(ctx) {\n    object::new(a)\n    object::new(b)\n    table::add(t)\n}\n";
    let est = estimate_gas_usage(&content_vec(content), &b"mint".to_vec());
    assert_eq!(est.storage, 2 * 500 + 300);
    assert_eq!(est.computation, 0);
    assert_eq!(est.total, 1500);
    assert_eq!(est.function, b"mint".to_vec());
}

#[test]
fn missing_signature_gets_the_default_estimate() {
    let content = "fun other() {\n}\n";
    let est = estimate_gas_usage(&content_vec(content), &b"absent".to_vec());
    assert_eq!(est.total, 200);
    assert_eq!(est.storage, 0);
    assert_eq!(est.computation, 200);
}

#[test]
fn scan_region_runs_to_end_of_file() {
    // the first function's estimate includes the text of the later function
    let content = "fun first(a) {\n}\nfun second(b) {\n    object::new(x)\n}\n";
    let first = estimate_gas_usage(&content_vec(content), &b"first".to_vec());
    let second = estimate_gas_usage(&content_vec(content), &b"second".to_vec());
    assert_eq!(first.storage, 500);
    assert_eq!(second.storage, 500);
    assert_eq!(first.total, 700);
}

#[test]
fn declaration_names_are_captured_in_order() {
    let content = "public fun alpha(x) {\n}\nfun beta() {\n}\n";
    let names = function_names(&content_vec(content));
    assert_eq!(names, vec![b"alpha".to_vec(), b"beta".to_vec()]);
}

#[test]
fn declaration_match_may_cross_blank_lines() {
    // the line-start match skips whitespace, including newlines
    let content = "\n\n   fun gamma(a) {\n}\n";
    let names = function_names(&content_vec(content));
    assert_eq!(names, vec![b"gamma".to_vec()]);
}

#[test]
fn indented_declarations_count_mid_file() {
    let content = "module m {\n    fun one() {\n    }\n    public fun two() {\n    }\n}\n";
    let names = function_names(&content_vec(content));
    assert_eq!(names, vec![b"one".to_vec(), b"two".to_vec()]);
}

#[test]
fn corpus_profiles_follow_file_order() {
    let a = "fun a1() {\n    transfer::t(x)\n}\n";
    let b = "fun b1() {\n    vector::push_back(v, x)\n}\n";
    let corpus = vec![unit("a.move", a), unit("b.move", b)];
    let profiles = parse_move_functions(&corpus);
    assert_eq!(profiles.len(), 2);
    assert_eq!(profiles[0].function, b"a1".to_vec());
    assert_eq!(profiles[0].computation, 200);
    assert_eq!(profiles[0].total, 400);
    assert_eq!(profiles[1].function, b"b1".to_vec());
    assert_eq!(profiles[1].computation, 50);
    assert_eq!(profiles[1].total, 250);
}

#[test]
fn profiling_twice_gives_identical_output() {
    let content = "fun a() {\n    balance::join(x)\n}\nfun b() {\n    table::new(t)\n}\n";
    let corpus = vec![unit("a.move", content)];
    let once = parse_move_functions(&corpus);
    let twice = parse_move_functions(&corpus);
    assert_eq!(once.len(), twice.len());
    for (x, y) in once.iter().zip(twice.iter()) {
        assert_eq!(x.function, y.function);
        assert_eq!(x.total, y.total);
        assert_eq!(x.storage, y.storage);
        assert_eq!(x.computation, y.computation);
    }
}

fn profile(name: &str, total: u64) -> GasEstimate {
    GasEstimate {
        function: name.as_bytes().to_vec(),
        total,
        storage: 0,
        computation: total,
    }
}

#[test]
fn statistics_over_profiles() {
    let profiles = vec![profile("a", 700), profile("b", 250), profile("c", 700)];
    assert_eq!(total_gas(&profiles), 1650);
    assert_eq!(average_gas(&profiles), 550);
    // the last of equally high totals wins, the first of equally low ones
    assert_eq!(highest_gas_index(&profiles), Some(2));
    assert_eq!(lowest_gas_index(&profiles), Some(1));
    assert_eq!(highest_gas_index(&Vec::new()), None);
    assert_eq!(lowest_gas_index(&Vec::new()), None);
    assert_eq!(average_gas(&Vec::new()), 0);
}

#[test]
fn report_order_is_descending_and_stable() {
    let profiles = vec![
        profile("low", 250),
        profile("first_high", 700),
        profile("second_high", 700),
    ];
    let sorted = sort_profiles_by_gas(profiles);
    assert_eq!(sorted[0].function, b"first_high".to_vec());
    assert_eq!(sorted[1].function, b"second_high".to_vec());
    assert_eq!(sorted[2].function, b"low".to_vec());
}
