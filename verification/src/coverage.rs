//! Test-coverage estimation: each source file is paired with the first test
//! file whose name contains the source's module stem, and a fractional
//! line / function coverage estimate is derived from counts — nothing is
//! executed.
//!
//! Ratios are exact rationals.  The covered-line and covered-function counts
//! of a module are the ratio applied to the respective total, rounded down.

use vstd::prelude::*;
use vstd::string::StringSliceAdditionalSpecFns;
use vstd::arithmetic::div_mod::lemma_div_is_ordered;
use crate::text::{
    contains_seq, count_matches, is_blank, rfind_byte, spec_lines, trimmed_starts_with,
    contains_bytes, count_matches_exec, is_blank_exec, marker, rfind_byte_exec, subvec,
    trimmed_starts_with_exec,
};
use crate::corpus::{SourceUnit, corpus_wf};
use crate::gas::{COUNT_CAP, spec_function_names, function_names};

verus! {

/// The mathematical value of a coverage ratio.
pub ghost struct RatioView {
    pub num: int,
    pub den: int,
}

/// An exact fraction in `[0, 1]`: `num / den` with `num <= den` and a
/// positive denominator.
pub struct CoverageRatio {
    pub num: u64,
    pub den: u64,
}

impl View for CoverageRatio {
    type V = RatioView;

    open spec fn view(&self) -> RatioView {
        RatioView { num: self.num as int, den: self.den as int }
    }
}

/// A ratio denotes a fraction in `[0, 1]`.
pub open spec fn ratio_wf(r: RatioView) -> bool {
    1 <= r.den && 0 <= r.num <= r.den
}

/// The heuristic coverage of one source file: an estimated fraction of its
/// lines and of its functions exercised by its matched test file.
pub struct TestCoverage {
    pub line_ratio: CoverageRatio,
    pub function_ratio: CoverageRatio,
}

/// The mathematical value of a [`TestCoverage`].
pub ghost struct TestCoverageView {
    pub line_ratio: RatioView,
    pub function_ratio: RatioView,
}

impl View for TestCoverage {
    type V = TestCoverageView;

    open spec fn view(&self) -> TestCoverageView {
        TestCoverageView { line_ratio: self.line_ratio@, function_ratio: self.function_ratio@ }
    }
}

/// A count clamped at [`COUNT_CAP`]; the cap is far beyond what any real
/// corpus can produce and only serves to keep the ratio arithmetic exact.
pub open spec fn clamp_count(n: int) -> int {
    if n > COUNT_CAP {
        COUNT_CAP as int
    } else {
        n
    }
}

/// The function-coverage ratio: tested functions over total functions, or
/// zero when the file declares none.
pub open spec fn spec_function_ratio(tested: int, total: int) -> RatioView {
    let n = clamp_count(total);
    let t = if tested > n {
        n
    } else {
        tested
    };
    if n == 0 {
        RatioView { num: 0, den: 1 }
    } else {
        RatioView { num: t, den: n }
    }
}

/// The line-coverage ratio: zero when the test file holds no test functions;
/// otherwise `function_ratio * 7/10 + test_factor * 3/10`, capped at one,
/// where `test_factor = min(test_count / 5, 1)`.
pub open spec fn spec_line_ratio(tested: int, total: int, test_count: int) -> RatioView {
    if test_count == 0 {
        RatioView { num: 0, den: 1 }
    } else {
        let m = if test_count > 5 {
            5int
        } else {
            test_count
        };
        let n = clamp_count(total);
        let t = if tested > n {
            n
        } else {
            tested
        };
        if n == 0 {
            RatioView { num: 3 * m, den: 50 }
        } else {
            let raw = 35 * t + 3 * (m * n);
            RatioView {
                num: if raw > 50 * n {
                    50 * n
                } else {
                    raw
                },
                den: 50 * n,
            }
        }
    }
}

/// A ratio applied to a count, rounded down.
pub open spec fn spec_apply_ratio(total: int, r: RatioView) -> int {
    (total * r.num) / r.den
}

/// The file-name component of a path: everything after the last `/`.
pub open spec fn spec_file_name(path: Seq<u8>) -> Seq<u8> {
    path.subrange(rfind_byte(path, 47) + 1, path.len() as int)
}

/// The module stem of a path: its file name without the final extension; a
/// leading dot does not begin an extension.
pub open spec fn spec_module_stem(path: Seq<u8>) -> Seq<u8> {
    let name = spec_file_name(path);
    let d = rfind_byte(name, 46);
    if d <= 0 {
        name
    } else {
        name.take(d)
    }
}

/// The index of the first test file whose file name contains `stem`, looking
/// from `k` on.
pub open spec fn find_test_from(tests: Seq<SourceUnit>, stem: Seq<u8>, k: int) -> Option<int>
    decreases tests.len() - k,
{
    if k < 0 || k >= tests.len() {
        None
    } else if contains_seq(spec_file_name(tests[k].path@), stem) {
        Some(k)
    } else {
        find_test_from(tests, stem, k + 1)
    }
}

/// How many of `names[k..]` occur somewhere in the test content.
pub open spec fn count_tested_from(names: Seq<Seq<u8>>, tc: Seq<u8>, k: int) -> int
    decreases names.len() - k,
{
    if k < 0 || k >= names.len() {
        0
    } else {
        (if contains_seq(tc, names[k]) {
            1int
        } else {
            0int
        }) + count_tested_from(names, tc, k + 1)
    }
}

/// The coverage ratios of one source file against a corpus of test files:
/// zero coverage without a matched test file; otherwise ratios derived from
/// the declared functions named in the test file and the number of test
/// annotations it holds.
pub open spec fn spec_calculate_test_coverage(
    source_path: Seq<u8>,
    source_content: Seq<u8>,
    tests: Seq<SourceUnit>,
) -> TestCoverageView {
    let stem = spec_module_stem(source_path);
    match find_test_from(tests, stem, 0) {
        None => TestCoverageView {
            line_ratio: RatioView { num: 0, den: 1 },
            function_ratio: RatioView { num: 0, den: 1 },
        },
        Some(k) => {
            let tc = tests[k].content@;
            let c = count_matches(tc, "#[test]".spec_bytes()) as int;
            let names = spec_function_names(source_content);
            let t = count_tested_from(names, tc, 0);
            let n = names.len() as int;
            TestCoverageView {
                line_ratio: spec_line_ratio(t, n, c),
                function_ratio: spec_function_ratio(t, n),
            }
        },
    }
}

/// Extract the file name of a path.
fn file_name(path: &Vec<u8>) -> (r: Vec<u8>)
    ensures
        r@ == spec_file_name(path@),
{
    proof {
        crate::text::lemma_rfind_byte_bounds(path@, 47);
    }
    let len = path.len();
    match rfind_byte_exec(path, 47) {
        Some(v) => subvec(path, v + 1, len),
        None => {
            let r = subvec(path, 0, len);
            proof {
                assert(rfind_byte(path@, 47) == -1);
                assert(path@.subrange(0, path@.len() as int) =~= path@);
            }
            r
        },
    }
}

/// Extract the module stem of a path.
pub fn module_stem(path: &Vec<u8>) -> (r: Vec<u8>)
    ensures
        r@ == spec_module_stem(path@),
{
    let name = file_name(path);
    match rfind_byte_exec(&name, 46) {
        Some(d) => {
            if d == 0 {
                name
            } else {
                let r = subvec(&name, 0, d);
                proof {
                    assert(name@.subrange(0, rfind_byte(name@, 46)) =~= name@.take(
                        rfind_byte(name@, 46),
                    ));
                }
                r
            }
        },
        None => name,
    }
}

/// Clamp a count at [`COUNT_CAP`].
fn clamp_count_exec(n: usize) -> (r: u64)
    ensures
        r == clamp_count(n as int),
        r <= COUNT_CAP,
{
    let v = n as u64;
    if v > COUNT_CAP {
        COUNT_CAP
    } else {
        v
    }
}

/// Compute the coverage ratios of one source file against the test corpus.
pub fn calculate_test_coverage(
    source_path: &Vec<u8>,
    source_content: &Vec<u8>,
    tests: &Vec<SourceUnit>,
) -> (r: TestCoverage)
    ensures
        r@ == spec_calculate_test_coverage(source_path@, source_content@, tests@),
        ratio_wf(r@.line_ratio),
        ratio_wf(r@.function_ratio),
{
    let stem = module_stem(source_path);
    let found = find_test(tests, &stem);
    match found {
        None => TestCoverage {
            line_ratio: CoverageRatio { num: 0, den: 1 },
            function_ratio: CoverageRatio { num: 0, den: 1 },
        },
        Some(k) => {
            let tc = &tests[k].content;
            let c = count_matches_exec(tc, &marker("#[test]"));
            let names = function_names(source_content);
            let t = count_tested(&names, tc);
            let n = names.len();
            proof {
                assert(names.deep_view().len() == names@.len());
            }
            TestCoverage {
                line_ratio: line_ratio_exec(t, n, c),
                function_ratio: function_ratio_exec(t, n),
            }
        },
    }
}

/// Find the first test file whose name contains `stem`.
fn find_test(tests: &Vec<SourceUnit>, stem: &Vec<u8>) -> (r: Option<usize>)
    ensures
        (r is Some) == (find_test_from(tests@, stem@, 0) is Some),
        r matches Some(v) ==> find_test_from(tests@, stem@, 0) == Some(v as int) && v
            < tests@.len(),
{
    let mut k: usize = 0;
    while k < tests.len()
        invariant
            0 <= k <= tests@.len(),
            find_test_from(tests@, stem@, 0) == find_test_from(tests@, stem@, k as int),
        decreases tests@.len() - k,
    {
        let name = file_name(&tests[k].path);
        if contains_bytes(&name, stem) {
            return Some(k);
        }
        k += 1;
    }
    None
}

/// Count how many of the declared function names occur in the test content.
fn count_tested(names: &Vec<Vec<u8>>, tc: &Vec<u8>) -> (r: usize)
    ensures
        r == count_tested_from(names.deep_view(), tc@, 0),
        r <= names@.len(),
{
    proof {
        crate::text::lemma_lines_deep_view(names);
    }
    let n = names.len();
    let mut k: usize = n;
    let mut count: usize = 0;
    while k > 0
        invariant
            0 <= k <= n,
            n == names@.len(),
            count == count_tested_from(names.deep_view(), tc@, k as int),
            count <= n - k,
            forall|j: int| 0 <= j < names@.len() ==> #[trigger] names.deep_view()[j]
                == names@[j]@,
        decreases k,
    {
        let kk = k - 1;
        if contains_bytes(tc, &names[kk]) {
            count += 1;
        }
        k = kk;
    }
    count
}

/// Build the function-coverage ratio from counts.
fn function_ratio_exec(tested: usize, total: usize) -> (r: CoverageRatio)
    ensures
        r@ == spec_function_ratio(tested as int, total as int),
        ratio_wf(r@),
{
    let n = clamp_count_exec(total);
    let t_raw = tested as u64;
    let t = if t_raw > n {
        n
    } else {
        t_raw
    };
    if n == 0 {
        CoverageRatio { num: 0, den: 1 }
    } else {
        CoverageRatio { num: t, den: n }
    }
}

/// Build the line-coverage ratio from counts.
fn line_ratio_exec(tested: usize, total: usize, test_count: usize) -> (r: CoverageRatio)
    ensures
        r@ == spec_line_ratio(tested as int, total as int, test_count as int),
        ratio_wf(r@),
{
    if test_count == 0 {
        return CoverageRatio { num: 0, den: 1 };
    }
    let m: u64 = if test_count > 5 {
        5
    } else {
        test_count as u64
    };
    let n = clamp_count_exec(total);
    let t_raw = tested as u64;
    let t = if t_raw > n {
        n
    } else {
        t_raw
    };
    if n == 0 {
        CoverageRatio { num: 3 * m, den: 50 }
    } else {
        proof {
            assert((m as int) * (n as int) <= 5 * (COUNT_CAP as int)) by (nonlinear_arith)
                requires
                    0 <= m as int <= 5,
                    0 <= n as int <= COUNT_CAP as int,
            ;
        }
        let mn = m * n;
        let raw = 35 * t + 3 * mn;
        let cap = 50 * n;
        CoverageRatio {
            num: if raw > cap {
                cap
            } else {
                raw
            },
            den: cap,
        }
    }
}

/// Apply a coverage ratio to a count, rounding down.
pub fn apply_ratio(total: usize, r: &CoverageRatio) -> (c: usize)
    requires
        ratio_wf(r@),
    ensures
        c == spec_apply_ratio(total as int, r@),
        c <= total,
{
    proof {
        assert((total as int) * (r.num as int) <= (u64::MAX as int) * (u64::MAX as int)) by (
        nonlinear_arith)
            requires
                0 <= total as int <= u64::MAX as int,
                0 <= r.num as int <= u64::MAX as int,
        ;
    }
    let prod = (total as u128) * (r.num as u128);
    let q = prod / (r.den as u128);
    proof {
        assert((total as int) * (r.num as int) <= (total as int) * (r.den as int)) by (
        nonlinear_arith)
            requires
                0 <= total as int,
                0 <= r.num as int <= r.den as int,
        ;
        lemma_div_is_ordered(
            (total as int) * (r.num as int),
            (total as int) * (r.den as int),
            r.den as int,
        );
        assert(((total as int) * (r.den as int)) / (r.den as int) == total as int) by (
        nonlinear_arith)
            requires
                1 <= r.den as int,
        ;
    }
    q as usize
}

/// The mathematical value of one module's coverage row.
pub ghost struct ModuleCoverageView {
    pub name: Seq<u8>,
    pub lines_covered: int,
    pub lines_total: int,
    pub functions_covered: int,
    pub functions_total: int,
}

/// Coverage of one module: covered and total counts for lines and functions.
pub struct ModuleCoverage {
    pub name: Vec<u8>,
    pub lines_covered: usize,
    pub lines_total: usize,
    pub functions_covered: usize,
    pub functions_total: usize,
}

impl View for ModuleCoverage {
    type V = ModuleCoverageView;

    open spec fn view(&self) -> ModuleCoverageView {
        ModuleCoverageView {
            name: self.name@,
            lines_covered: self.lines_covered as int,
            lines_total: self.lines_total as int,
            functions_covered: self.functions_covered as int,
            functions_total: self.functions_total as int,
        }
    }
}

/// A line of code counts toward the line total when it is neither blank nor
/// a comment line.
pub open spec fn code_line(l: Seq<u8>) -> bool {
    !is_blank(l) && !trimmed_starts_with(l, "/".spec_bytes())
}

/// How many of the first `n` lines are code lines.
pub open spec fn count_code_lines(lines: Seq<Seq<u8>>, n: int) -> int
    decreases n,
{
    if n <= 0 {
        0
    } else {
        count_code_lines(lines, n - 1) + if code_line(lines[n - 1]) {
            1int
        } else {
            0int
        }
    }
}

/// Count the non-blank, non-comment lines of a file.
fn count_code_lines_exec(lines: &Vec<Vec<u8>>) -> (r: usize)
    ensures
        r == count_code_lines(lines.deep_view(), lines@.len() as int),
        r <= lines@.len(),
{
    proof {
        crate::text::lemma_lines_deep_view(lines);
    }
    let slash = marker("/");
    let n = lines.len();
    let mut i: usize = 0;
    let mut count: usize = 0;
    while i < n
        invariant
            0 <= i <= n,
            n == lines@.len(),
            slash@ == "/".spec_bytes(),
            count == count_code_lines(lines.deep_view(), i as int),
            count <= i,
            forall|j: int| 0 <= j < lines@.len() ==> #[trigger] lines.deep_view()[j]
                == lines@[j]@,
        decreases n - i,
    {
        let l = &lines[i];
        if !is_blank_exec(l) && !trimmed_starts_with_exec(l, &slash) {
            count += 1;
        }
        i += 1;
    }
    count
}

/// The coverage row of one source file.
pub open spec fn spec_module_coverage(
    unit: SourceUnit,
    tests: Seq<SourceUnit>,
) -> ModuleCoverageView {
    let lines = spec_lines(unit.content@);
    let lt = count_code_lines(lines, lines.len() as int);
    let ft = count_matches(unit.content@, "fun ".spec_bytes()) as int;
    let tc = spec_calculate_test_coverage(unit.path@, unit.content@, tests);
    ModuleCoverageView {
        name: unit.path@,
        lines_covered: spec_apply_ratio(lt, tc.line_ratio),
        lines_total: lt,
        functions_covered: spec_apply_ratio(ft, tc.function_ratio),
        functions_total: ft,
    }
}

/// The coverage rows of the first `n` source files.
pub open spec fn modules_upto(
    sources: Seq<SourceUnit>,
    tests: Seq<SourceUnit>,
    n: int,
) -> Seq<ModuleCoverageView>
    decreases n,
{
    if n <= 0 {
        Seq::empty()
    } else {
        modules_upto(sources, tests, n - 1).push(spec_module_coverage(sources[n - 1], tests))
    }
}

/// All coverage rows of the corpus, in corpus order.
pub open spec fn spec_modules(sources: Seq<SourceUnit>, tests: Seq<SourceUnit>) -> Seq<
    ModuleCoverageView,
> {
    modules_upto(sources, tests, sources.len() as int)
}

/// Addition saturating at the machine's largest count.
pub open spec fn sat_add(a: int, b: int) -> int {
    if a + b > usize::MAX {
        usize::MAX as int
    } else {
        a + b
    }
}

/// The running totals of a coverage report.
pub ghost struct TotalsView {
    pub lines_covered: int,
    pub lines_total: int,
    pub functions_covered: int,
    pub functions_total: int,
}

/// The saturating sums of the first `n` coverage rows.
pub open spec fn spec_totals(mods: Seq<ModuleCoverageView>, n: int) -> TotalsView
    decreases n,
{
    if n <= 0 {
        TotalsView { lines_covered: 0, lines_total: 0, functions_covered: 0, functions_total: 0 }
    } else {
        let prev = spec_totals(mods, n - 1);
        TotalsView {
            lines_covered: sat_add(prev.lines_covered, mods[n - 1].lines_covered),
            lines_total: sat_add(prev.lines_total, mods[n - 1].lines_total),
            functions_covered: sat_add(prev.functions_covered, mods[n - 1].functions_covered),
            functions_total: sat_add(prev.functions_total, mods[n - 1].functions_total),
        }
    }
}

/// A row the report could list as an uncovered line; this analysis never
/// produces any.
pub struct UncoveredLine {
    pub location: Vec<u8>,
    pub description: Vec<u8>,
}

/// A whole coverage report: aggregate counts and the per-module rows.
pub struct CoverageData {
    pub lines_covered: usize,
    pub lines_total: usize,
    pub functions_covered: usize,
    pub functions_total: usize,
    pub modules: Vec<ModuleCoverage>,
    pub uncovered_lines: Vec<UncoveredLine>,
}

/// Saturating addition on counts.
fn sat_add_exec(a: usize, b: usize) -> (r: usize)
    ensures
        r == sat_add(a as int, b as int),
{
    if a <= usize::MAX - b {
        a + b
    } else {
        usize::MAX
    }
}

/// Analyze the coverage of every source file against the test corpus: one
/// row per source file, in corpus order, plus aggregate totals.
pub fn analyze_coverage(sources: &Vec<SourceUnit>, tests: &Vec<SourceUnit>) -> (r: CoverageData)
    requires
        corpus_wf(sources@),
    ensures
        r.modules@.map_values(|m: ModuleCoverage| m@) == spec_modules(sources@, tests@),
        r.lines_covered == spec_totals(spec_modules(sources@, tests@), sources@.len() as int)
            .lines_covered,
        r.lines_total == spec_totals(spec_modules(sources@, tests@), sources@.len() as int)
            .lines_total,
        r.functions_covered == spec_totals(spec_modules(sources@, tests@), sources@.len() as int)
            .functions_covered,
        r.functions_total == spec_totals(spec_modules(sources@, tests@), sources@.len() as int)
            .functions_total,
        r.uncovered_lines@.len() == 0,
{
    let ghost mods_spec = spec_modules(sources@, tests@);
    let mut modules: Vec<ModuleCoverage> = Vec::new();
    let mut lines_covered: usize = 0;
    let mut lines_total: usize = 0;
    let mut functions_covered: usize = 0;
    let mut functions_total: usize = 0;
    proof {
        assert(modules@.map_values(|m: ModuleCoverage| m@) =~= modules_upto(
            sources@,
            tests@,
            0,
        ));
    }
    let mut k: usize = 0;
    while k < sources.len()
        invariant
            0 <= k <= sources@.len(),
            corpus_wf(sources@),
            modules@.map_values(|m: ModuleCoverage| m@) == modules_upto(
                sources@,
                tests@,
                k as int,
            ),
            lines_covered == spec_totals(modules_upto(sources@, tests@, k as int), k as int)
                .lines_covered,
            lines_total == spec_totals(modules_upto(sources@, tests@, k as int), k as int)
                .lines_total,
            functions_covered == spec_totals(modules_upto(sources@, tests@, k as int), k as int)
                .functions_covered,
            functions_total == spec_totals(modules_upto(sources@, tests@, k as int), k as int)
                .functions_total,
        decreases sources@.len() - k,
    {
        let ghost prev_rows = modules_upto(sources@, tests@, k as int);
        assert(sources@[k as int].wf());
        let unit = &sources[k];
        let lt = count_code_lines_exec(&unit.lines);
        let ft = count_matches_exec(&unit.content, &marker("fun "));
        let tc = calculate_test_coverage(&unit.path, &unit.content, tests);
        let lc = apply_ratio(lt, &tc.line_ratio);
        let fc = apply_ratio(ft, &tc.function_ratio);
        let row = ModuleCoverage {
            name: crate::text::copy_bytes(&unit.path),
            lines_covered: lc,
            lines_total: lt,
            functions_covered: fc,
            functions_total: ft,
        };
        proof {
            assert(unit.lines.deep_view() == spec_lines(unit.content@));
            assert(row@ == spec_module_coverage(sources@[k as int], tests@));
        }
        let ghost before = modules@.map_values(|m: ModuleCoverage| m@);
        modules.push(row);
        proof {
            assert(modules@.map_values(|m: ModuleCoverage| m@) =~= before.push(
                spec_module_coverage(sources@[k as int], tests@),
            ));
            let rows = modules_upto(sources@, tests@, k + 1);
            assert(rows == prev_rows.push(spec_module_coverage(sources@[k as int], tests@)));
            lemma_modules_upto_len(sources@, tests@, k as int);
            assert(forall|j: int| 0 <= j < k ==> rows[j] == prev_rows[j]);
            lemma_totals_prefix(rows, prev_rows, k as int);
            assert(rows[k as int] == spec_module_coverage(sources@[k as int], tests@));
        }
        lines_covered = sat_add_exec(lines_covered, lc);
        lines_total = sat_add_exec(lines_total, lt);
        functions_covered = sat_add_exec(functions_covered, fc);
        functions_total = sat_add_exec(functions_total, ft);
        k += 1;
    }
    CoverageData {
        lines_covered,
        lines_total,
        functions_covered,
        functions_total,
        modules,
        uncovered_lines: Vec::new(),
    }
}

/// There are as many coverage rows as source files considered.
proof fn lemma_modules_upto_len(sources: Seq<SourceUnit>, tests: Seq<SourceUnit>, n: int)
    requires
        n >= 0,
    ensures
        modules_upto(sources, tests, n).len() == n,
    decreases n,
{
    if n > 0 {
        lemma_modules_upto_len(sources, tests, n - 1);
    }
}

/// Totals only read the first `n` rows: sequences that agree there have the
/// same totals.
proof fn lemma_totals_prefix(a: Seq<ModuleCoverageView>, b: Seq<ModuleCoverageView>, n: int)
    requires
        forall|j: int| 0 <= j < n ==> a[j] == b[j],
    ensures
        spec_totals(a, n) == spec_totals(b, n),
    decreases n,
{
    if n > 0 {
        lemma_totals_prefix(a, b, n - 1);
    }
}

/// Law: a corpus with no source files yields an empty report with zero
/// totals, whatever the test corpus holds.
pub proof fn lemma_coverage_empty_corpus(tests: Seq<SourceUnit>)
    ensures
        spec_modules(Seq::<SourceUnit>::empty(), tests) == Seq::<ModuleCoverageView>::empty(),
        spec_totals(spec_modules(Seq::<SourceUnit>::empty(), tests), 0).lines_covered == 0,
        spec_totals(spec_modules(Seq::<SourceUnit>::empty(), tests), 0).lines_total == 0,
        spec_totals(spec_modules(Seq::<SourceUnit>::empty(), tests), 0).functions_covered == 0,
        spec_totals(spec_modules(Seq::<SourceUnit>::empty(), tests), 0).functions_total == 0,
{
}

/// Law: coverage analysis is a function of the two corpora alone — two
/// reports its contract admits for the same input are identical.
pub proof fn lemma_coverage_deterministic(
    sources: Seq<SourceUnit>,
    tests: Seq<SourceUnit>,
    r1: Seq<ModuleCoverageView>,
    r2: Seq<ModuleCoverageView>,
)
    requires
        r1 == spec_modules(sources, tests),
        r2 == spec_modules(sources, tests),
    ensures
        r1 == r2,
{
}

} // verus!
