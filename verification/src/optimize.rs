//! Gas-optimization advisor: a second, independent rule set over the same
//! corpus.  Each rule may fire on any line and contributes a suggestion with
//! an estimated saving; the collected suggestions are then ranked by
//! descending saving (stable) and truncated to the top five.  Duplicates are
//! never removed.

use vstd::prelude::*;
use vstd::string::StringSliceAdditionalSpecFns;
use crate::text::{
    contains_seq, is_space, is_word, rskip_ws, skip_ws, spec_lines, contains_bytes, is_word_byte,
    marker, rskip_ws_exec, skip_ws_exec,
};
use crate::corpus::{SourceUnit, corpus_wf};
use crate::scan::{win_lo, win_hi};

verus! {

/// Which advisor rule produced a suggestion.
#[derive(Clone, Copy, Debug, PartialEq, Eq, Structural)]
pub enum SuggestionKind {
    ExcessiveAllocation,
    VectorOpsInLoop,
    RepeatedComputation,
    InefficientLookup,
}

/// The mathematical value of a suggestion.
pub ghost struct SuggestionView {
    pub kind: SuggestionKind,
    pub path: Seq<u8>,
    pub line: int,
    pub savings: int,
}

/// One gas-optimization suggestion: a pattern occurrence at a line, with an
/// estimated saving in gas per call.
pub struct OptimizationSuggestion {
    pub kind: SuggestionKind,
    pub path: Vec<u8>,
    /// 1-based line number of the trigger line.
    pub line: usize,
    pub savings: u64,
}

impl View for OptimizationSuggestion {
    type V = SuggestionView;

    open spec fn view(&self) -> SuggestionView {
        SuggestionView {
            kind: self.kind,
            path: self.path@,
            line: self.line as int,
            savings: self.savings as int,
        }
    }
}

impl OptimizationSuggestion {
    /// The report title of this suggestion.
    pub open spec fn spec_title(&self) -> Seq<char> {
        match self.kind {
            SuggestionKind::ExcessiveAllocation => "Reduce Storage Allocations"@,
            SuggestionKind::VectorOpsInLoop => "Optimize Vector Operations"@,
            SuggestionKind::RepeatedComputation => "Cache Computed Values"@,
            SuggestionKind::InefficientLookup => "Use Efficient Data Structures"@,
        }
    }

    /// The report title of this suggestion.
    pub fn title(&self) -> (r: &'static str)
        ensures
            r@ == self.spec_title(),
    {
        match self.kind {
            SuggestionKind::ExcessiveAllocation => "Reduce Storage Allocations",
            SuggestionKind::VectorOpsInLoop => "Optimize Vector Operations",
            SuggestionKind::RepeatedComputation => "Cache Computed Values",
            SuggestionKind::InefficientLookup => "Use Efficient Data Structures",
        }
    }

    /// The description of the pattern the rule matched.
    pub fn current_description(&self) -> (r: &'static str)
        ensures
            (self.kind == SuggestionKind::ExcessiveAllocation ==> r@
                == "Multiple object creations in same function"@),
            (self.kind == SuggestionKind::VectorOpsInLoop ==> r@
                == "Vector operations inside loop"@),
            (self.kind == SuggestionKind::RepeatedComputation ==> r@ == "Repeated calculations"@),
            (self.kind == SuggestionKind::InefficientLookup ==> r@ == "Using vector for lookups"@),
    {
        match self.kind {
            SuggestionKind::ExcessiveAllocation => "Multiple object creations in same function",
            SuggestionKind::VectorOpsInLoop => "Vector operations inside loop",
            SuggestionKind::RepeatedComputation => "Repeated calculations",
            SuggestionKind::InefficientLookup => "Using vector for lookups",
        }
    }

    /// The recommended change.
    pub fn recommendation(&self) -> (r: &'static str)
        ensures
            (self.kind == SuggestionKind::ExcessiveAllocation ==> r@
                == "Consider using shared objects or batch operations"@),
            (self.kind == SuggestionKind::VectorOpsInLoop ==> r@
                == "Use Table for O(1) lookups or batch vector operations"@),
            (self.kind == SuggestionKind::RepeatedComputation ==> r@
                == "Store intermediate results in variables"@),
            (self.kind == SuggestionKind::InefficientLookup ==> r@
                == "Use Table or ObjectTable for O(1) access"@),
    {
        match self.kind {
            SuggestionKind::ExcessiveAllocation => "Consider using shared objects or batch operations",
            SuggestionKind::VectorOpsInLoop => "Use Table for O(1) lookups or batch vector operations",
            SuggestionKind::RepeatedComputation => "Store intermediate results in variables",
            SuggestionKind::InefficientLookup => "Use Table or ObjectTable for O(1) access",
        }
    }
}

/// How many of the lines `lines[lo..hi]` contain `pat`.
pub open spec fn count_lines_containing(
    lines: Seq<Seq<u8>>,
    lo: int,
    hi: int,
    pat: Seq<u8>,
) -> int
    decreases hi - lo,
{
    if lo >= hi {
        0
    } else {
        (if contains_seq(lines[lo], pat) {
            1int
        } else {
            0int
        }) + count_lines_containing(lines, lo + 1, hi, pat)
    }
}

/// A multiply or divide whose operator has a word byte before and after it,
/// across optional whitespace, at operator position `b`.
pub open spec fn calc_at(l: Seq<u8>, b: int) -> bool {
    (l[b] == 42 || l[b] == 47) && rskip_ws(l, b - 1) >= 0 && is_word(l[rskip_ws(l, b - 1)])
        && skip_ws(l, b + 1) < l.len() && is_word(l[skip_ws(l, b + 1)])
}

/// The line holds a multiply/divide calculation pattern.
pub open spec fn calc_pattern(l: Seq<u8>) -> bool {
    exists|b: int| 0 <= b < l.len() && #[trigger] calc_at(l, b)
}

/// How many of the lines `lines[lo..hi]` hold a calculation pattern.
pub open spec fn count_calc_lines(lines: Seq<Seq<u8>>, lo: int, hi: int) -> int
    decreases hi - lo,
{
    if lo >= hi {
        0
    } else {
        (if calc_pattern(lines[lo]) {
            1int
        } else {
            0int
        }) + count_calc_lines(lines, lo + 1, hi)
    }
}

/// Excessive allocation: the line creates an object and more than two lines
/// of the surrounding twenty-line window do so too.  The saving grows with
/// the count.
pub open spec fn rule_excessive_allocation(lines: Seq<Seq<u8>>, i: int) -> Option<int> {
    let lo = win_lo(i, 10);
    let hi = win_hi(lo + 20, lines.len() as int);
    if contains_seq(lines[i], "object::new".spec_bytes()) {
        let cnt = count_lines_containing(lines, lo, hi, "object::new".spec_bytes());
        if cnt > 2 {
            Some(200 * (cnt - 1))
        } else {
            None
        }
    } else {
        None
    }
}

/// A line that pushes to or borrows from a vector.
pub open spec fn vector_op_line(l: Seq<u8>) -> bool {
    contains_seq(l, "vector::push_back".spec_bytes()) || contains_seq(
        l,
        "vector::borrow".spec_bytes(),
    )
}

/// Vector operations in a loop: a loop start whose next fifteen lines push to
/// or borrow from a vector.
pub open spec fn rule_vector_in_loop(lines: Seq<Seq<u8>>, i: int) -> bool {
    let hi = win_hi(i + 15, lines.len() as int);
    (contains_seq(lines[i], "while".spec_bytes()) || contains_seq(lines[i], "loop".spec_bytes()))
        && exists|j: int| i <= j < hi && #[trigger] vector_op_line(lines[j])
}

/// Repeated computation: an assignment holding a multiply/divide pattern,
/// with more than one of the next ten lines holding such a pattern too.
pub open spec fn rule_repeated_computation(lines: Seq<Seq<u8>>, i: int) -> bool {
    let hi = win_hi(i + 11, lines.len() as int);
    contains_seq(lines[i], "=".spec_bytes()) && !contains_seq(lines[i], "==".spec_bytes())
        && calc_pattern(lines[i]) && count_calc_lines(lines, i + 1, hi) > 1
}

/// Inefficient lookup structure: a vector op combined with a borrow or
/// contains marker.
pub open spec fn rule_inefficient_lookup(lines: Seq<Seq<u8>>, i: int) -> bool {
    contains_seq(lines[i], "vector::".spec_bytes()) && (contains_seq(
        lines[i],
        "borrow".spec_bytes(),
    ) || contains_seq(lines[i], "contains".spec_bytes()))
}

/// Helper to state one suggestion in the spec.
pub open spec fn sv(kind: SuggestionKind, path: Seq<u8>, line: int, savings: int) -> SuggestionView {
    SuggestionView { kind, path, line, savings }
}

/// All suggestions that line `i` contributes, in rule order.
pub open spec fn line_suggestions(
    path: Seq<u8>,
    lines: Seq<Seq<u8>>,
    i: int,
) -> Seq<SuggestionView> {
    (match rule_excessive_allocation(lines, i) {
        Some(s) => seq![sv(SuggestionKind::ExcessiveAllocation, path, i + 1, s)],
        None => Seq::empty(),
    }) + (if rule_vector_in_loop(lines, i) {
        seq![sv(SuggestionKind::VectorOpsInLoop, path, i + 1, 150)]
    } else {
        Seq::empty()
    }) + (if rule_repeated_computation(lines, i) {
        seq![sv(SuggestionKind::RepeatedComputation, path, i + 1, 100)]
    } else {
        Seq::empty()
    }) + (if rule_inefficient_lookup(lines, i) {
        seq![sv(SuggestionKind::InefficientLookup, path, i + 1, 180)]
    } else {
        Seq::empty()
    })
}

/// The suggestions of the first `n` lines of a file.
pub open spec fn suggestions_upto(
    path: Seq<u8>,
    lines: Seq<Seq<u8>>,
    n: int,
) -> Seq<SuggestionView>
    decreases n,
{
    if n <= 0 {
        Seq::empty()
    } else {
        suggestions_upto(path, lines, n - 1) + line_suggestions(path, lines, n - 1)
    }
}

/// All suggestions of one file, in line order.
pub open spec fn file_suggestions(path: Seq<u8>, lines: Seq<Seq<u8>>) -> Seq<SuggestionView> {
    suggestions_upto(path, lines, lines.len() as int)
}

/// The suggestions of the first `n` files of a corpus.
pub open spec fn corpus_suggestions_upto(units: Seq<SourceUnit>, n: int) -> Seq<SuggestionView>
    decreases n,
{
    if n <= 0 {
        Seq::empty()
    } else {
        corpus_suggestions_upto(units, n - 1) + file_suggestions(
            units[n - 1].path@,
            spec_lines(units[n - 1].content@),
        )
    }
}

/// All raw suggestions of a corpus, before ranking.
pub open spec fn spec_collect(units: Seq<SourceUnit>) -> Seq<SuggestionView> {
    corpus_suggestions_upto(units, units.len() as int)
}

/// Insert `x` into `s` after every element whose saving is at least the
/// saving of `x`: the insertion step of a stable descending sort.
pub open spec fn insert_desc(s: Seq<SuggestionView>, x: SuggestionView) -> Seq<SuggestionView>
    decreases s.len(),
{
    if s.len() == 0 {
        seq![x]
    } else if s[0].savings >= x.savings {
        seq![s[0]] + insert_desc(s.drop_first(), x)
    } else {
        seq![x] + s
    }
}

/// Stable sort by descending saving: elements with equal savings keep their
/// relative order.
pub open spec fn sort_desc(s: Seq<SuggestionView>) -> Seq<SuggestionView>
    decreases s.len(),
{
    if s.len() == 0 {
        Seq::empty()
    } else {
        insert_desc(sort_desc(s.drop_last()), s.last())
    }
}

/// The ranked output: the sorted suggestions, truncated to the first five.
pub open spec fn spec_rank(s: Seq<SuggestionView>) -> Seq<SuggestionView> {
    if s.len() <= 5 {
        sort_desc(s)
    } else {
        sort_desc(s).take(5)
    }
}

/// The whole advisor: collect every rule match, then rank and truncate.
pub open spec fn spec_optimizations(units: Seq<SourceUnit>) -> Seq<SuggestionView> {
    spec_rank(spec_collect(units))
}

/// Inserting one element grows the sequence by one.
pub proof fn lemma_insert_desc_len(s: Seq<SuggestionView>, x: SuggestionView)
    ensures
        insert_desc(s, x).len() == s.len() + 1,
    decreases s.len(),
{
    if s.len() > 0 && s[0].savings >= x.savings {
        lemma_insert_desc_len(s.drop_first(), x);
    }
}

/// Sorting preserves the length.
pub proof fn lemma_sort_desc_len(s: Seq<SuggestionView>)
    ensures
        sort_desc(s).len() == s.len(),
    decreases s.len(),
{
    if s.len() > 0 {
        lemma_sort_desc_len(s.drop_last());
        lemma_insert_desc_len(sort_desc(s.drop_last()), s.last());
    }
}

/// `insert_desc` inserts exactly at the first index whose saving is below the
/// saving of the inserted element.
proof fn lemma_insert_desc_at(s: Seq<SuggestionView>, x: SuggestionView, k: int)
    requires
        0 <= k <= s.len(),
        forall|j: int| 0 <= j < k ==> s[j].savings >= x.savings,
        k < s.len() ==> s[k].savings < x.savings,
    ensures
        insert_desc(s, x) == s.take(k) + seq![x] + s.skip(k),
    decreases s.len(),
{
    if s.len() == 0 {
        assert(insert_desc(s, x) =~= s.take(k) + seq![x] + s.skip(k));
    } else if k == 0 {
        assert(s[0].savings < x.savings);
        assert(insert_desc(s, x) =~= s.take(0) + seq![x] + s.skip(0));
    } else {
        let d = s.drop_first();
        assert(forall|j: int| 0 <= j < k - 1 ==> #[trigger] d[j].savings == s[j + 1].savings);
        lemma_insert_desc_at(d, x, k - 1);
        assert(insert_desc(s, x) =~= s.take(k) + seq![x] + s.skip(k));
    }
}

/// Where `insert_desc` puts the new element: after the leading run of
/// elements whose saving is at least the new element's.
pub open spec fn insert_pos(s: Seq<SuggestionView>, x: SuggestionView) -> int
    decreases s.len(),
{
    if s.len() == 0 {
        0
    } else if s[0].savings >= x.savings {
        1 + insert_pos(s.drop_first(), x)
    } else {
        0
    }
}

proof fn lemma_insert_pos_props(s: Seq<SuggestionView>, x: SuggestionView)
    ensures
        0 <= insert_pos(s, x) <= s.len(),
        forall|j: int| 0 <= j < insert_pos(s, x) ==> s[j].savings >= x.savings,
        insert_pos(s, x) < s.len() ==> s[insert_pos(s, x)].savings < x.savings,
    decreases s.len(),
{
    if s.len() > 0 && s[0].savings >= x.savings {
        lemma_insert_pos_props(s.drop_first(), x);
        assert forall|j: int| 0 <= j < insert_pos(s, x) implies s[j].savings >= x.savings by {
            if j > 0 {
                assert(s.drop_first()[j - 1] == s[j]);
                assert(s.drop_first()[j - 1].savings >= x.savings);
            }
        }
        if insert_pos(s, x) < s.len() {
            assert(s.drop_first()[insert_pos(s, x) - 1] == s[insert_pos(s, x)]);
        }
    }
}

/// Inserting preserves the multiset of elements, adding the new one.
pub proof fn lemma_insert_desc_multiset(s: Seq<SuggestionView>, x: SuggestionView)
    ensures
        insert_desc(s, x).to_multiset() == s.to_multiset().insert(x),
{
    let k = insert_pos(s, x);
    lemma_insert_pos_props(s, x);
    lemma_insert_desc_at(s, x, k);
    assert(insert_desc(s, x) =~= s.insert(k, x));
    vstd::seq_lib::to_multiset_insert(s, k, x);
}

/// Descending order by saving.
pub open spec fn sorted_desc(s: Seq<SuggestionView>) -> bool {
    forall|a: int, b: int| 0 <= a < b < s.len() ==> s[a].savings >= s[b].savings
}

/// Inserting into a descending sequence keeps it descending.
pub proof fn lemma_insert_desc_sorted(s: Seq<SuggestionView>, x: SuggestionView)
    requires
        sorted_desc(s),
    ensures
        sorted_desc(insert_desc(s, x)),
{
    let k = insert_pos(s, x);
    lemma_insert_pos_props(s, x);
    lemma_insert_desc_at(s, x, k);
    let r = insert_desc(s, x);
    assert(r =~= s.take(k) + seq![x] + s.skip(k));
    assert forall|a: int, b: int| 0 <= a < b < r.len() implies r[a].savings >= r[b].savings by {
        if a < k {
            assert(r[a] == s[a]);
        } else if a > k {
            assert(r[a] == s[a - 1]);
        }
        if b < k {
            assert(r[b] == s[b]);
        } else if b > k {
            assert(r[b] == s[b - 1]);
        }
    }
}

/// Sorting yields a descending permutation of its input.
pub proof fn lemma_sort_desc_ensures(s: Seq<SuggestionView>)
    ensures
        sorted_desc(sort_desc(s)),
        sort_desc(s).to_multiset() == s.to_multiset(),
    decreases s.len(),
{
    if s.len() > 0 {
        let dl = s.drop_last();
        lemma_sort_desc_ensures(dl);
        lemma_insert_desc_sorted(sort_desc(dl), s.last());
        lemma_insert_desc_multiset(sort_desc(dl), s.last());
        assert(sort_desc(s).to_multiset() == dl.to_multiset().insert(s.last()));
        vstd::seq_lib::to_multiset_build(dl, s.last());
        assert(dl.push(s.last()) =~= s);
        assert(s.to_multiset() == dl.push(s.last()).to_multiset());
        assert(dl.push(s.last()).to_multiset() =~= dl.to_multiset().insert(s.last()));
    } else {
        assert(s =~= Seq::<SuggestionView>::empty());
    }
}

/// A value that occurs at two positions occurs at least twice in the
/// multiset.
proof fn lemma_two_positions_count(s: Seq<SuggestionView>, a: int, b: int)
    requires
        0 <= a < b < s.len(),
        s[a] == s[b],
    ensures
        s.to_multiset().count(s[a]) >= 2,
{
    vstd::seq_lib::to_multiset_remove(s, a);
    let r = s.remove(a);
    assert(r[b - 1] == s[b]);
    assert(r.contains(s[a]));
    vstd::seq_lib::to_multiset_contains(r, s[a]);
    assert(r.to_multiset().count(s[a]) >= 1);
    assert(s.to_multiset().count(s[a]) == r.to_multiset().count(s[a]) + 1);
}

/// A multiset count of at least two yields two distinct positions.
proof fn lemma_count_two_positions(s: Seq<SuggestionView>, x: SuggestionView)
    requires
        s.to_multiset().count(x) >= 2,
    ensures
        exists|i: int, j: int| 0 <= i < j < s.len() && s[i] == x && s[j] == x,
{
    vstd::seq_lib::to_multiset_contains(s, x);
    assert(s.contains(x));
    let i = choose|i: int| 0 <= i < s.len() && s[i] == x;
    vstd::seq_lib::to_multiset_remove(s, i);
    let r = s.remove(i);
    vstd::seq_lib::to_multiset_contains(r, x);
    assert(r.to_multiset().count(x) >= 1);
    assert(r.contains(x));
    let j0 = choose|j: int| 0 <= j < r.len() && r[j] == x;
    let j = if j0 < i {
        j0
    } else {
        j0 + 1
    };
    assert(s[j] == x);
    assert(j != i);
    if i < j {
        assert(0 <= i < j < s.len() && s[i] == x && s[j] == x);
    } else {
        assert(0 <= j < i < s.len() && s[j] == x && s[i] == x);
    }
}

/// Law: seven suggestions with pairwise distinct savings are ranked to
/// exactly five, and every dropped suggestion saves strictly less than every
/// kept one.
pub proof fn lemma_rank_keeps_top_five(s: Seq<SuggestionView>)
    requires
        s.len() == 7,
        forall|i: int, j: int| 0 <= i < j < s.len() ==> s[i].savings != s[j].savings,
    ensures
        spec_rank(s).len() == 5,
        sorted_desc(spec_rank(s)),
        forall|y: SuggestionView|
            s.to_multiset().count(y) > spec_rank(s).to_multiset().count(y) ==> forall|a: int|
                0 <= a < spec_rank(s).len() ==> y.savings < #[trigger] spec_rank(s)[a].savings,
{
    let sorted = sort_desc(s);
    lemma_sort_desc_ensures(s);
    lemma_sort_desc_len(s);
    let rank = spec_rank(s);
    assert(rank == sorted.take(5));
    let rest = sorted.skip(5);
    assert(sorted =~= rank + rest);
    vstd::seq_lib::lemma_multiset_commutative(rank, rest);

    // every value of `sorted` occurs exactly once
    assert forall|a: int, b: int| 0 <= a < b < sorted.len() implies sorted[a].savings
        != sorted[b].savings by {
        if sorted[a].savings == sorted[b].savings {
            if sorted[a] == sorted[b] {
                lemma_two_positions_count(sorted, a, b);
                lemma_count_two_positions(s, sorted[a]);
            } else {
                vstd::seq_lib::to_multiset_contains(sorted, sorted[a]);
                vstd::seq_lib::to_multiset_contains(sorted, sorted[b]);
                vstd::seq_lib::to_multiset_contains(s, sorted[a]);
                vstd::seq_lib::to_multiset_contains(s, sorted[b]);
                assert(s.contains(sorted[a]));
                assert(s.contains(sorted[b]));
                let ia = choose|i: int| 0 <= i < s.len() && s[i] == sorted[a];
                let ib = choose|i: int| 0 <= i < s.len() && s[i] == sorted[b];
                assert(ia != ib);
            }
        }
    }

    assert forall|y: SuggestionView|
        s.to_multiset().count(y) > rank.to_multiset().count(y) implies forall|a: int|
        0 <= a < rank.len() ==> y.savings < #[trigger] rank[a].savings by {
        assert(rest.to_multiset().count(y) > 0);
        vstd::seq_lib::to_multiset_contains(rest, y);
        assert(rest.contains(y));
        let m0 = choose|m: int| 0 <= m < rest.len() && rest[m] == y;
        let m = m0 + 5;
        assert(sorted[m] == y);
        assert forall|a: int| 0 <= a < rank.len() implies y.savings < #[trigger] rank[a].savings
            by {
            assert(rank[a] == sorted[a]);
            assert(sorted[a].savings >= sorted[m].savings);
            assert(sorted[a].savings != sorted[m].savings);
        }
    }
}

/// Law: the advisor's output is a function of the corpus alone — two
/// outputs its contract admits for the same corpus are identical.
pub proof fn lemma_advisor_deterministic(
    units: Seq<SourceUnit>,
    r1: Seq<SuggestionView>,
    r2: Seq<SuggestionView>,
)
    requires
        r1 == spec_optimizations(units),
        r2 == spec_optimizations(units),
    ensures
        r1 == r2,
{
}

/// Law: a corpus with no source files yields no suggestions.
pub proof fn lemma_advisor_empty_corpus()
    ensures
        spec_optimizations(Seq::<SourceUnit>::empty()) == Seq::<SuggestionView>::empty(),
{
}

/// Analyze the corpus for optimization opportunities: collect every rule
/// match in file and line order, sort them by descending estimated saving
/// (stable), and keep the top five.
pub fn analyze_for_optimizations(corpus: &Vec<SourceUnit>) -> (r: Vec<OptimizationSuggestion>)
    requires
        corpus_wf(corpus@),
    ensures
        r@.map_values(|s: OptimizationSuggestion| s@) == spec_optimizations(corpus@),
{
    let collected = collect_suggestions(corpus);
    rank_and_truncate(collected)
}

/// Sort suggestions by descending saving (stable) and truncate to the top
/// five.
pub fn rank_and_truncate(suggestions: Vec<OptimizationSuggestion>) -> (r: Vec<
    OptimizationSuggestion,
>)
    ensures
        r@.map_values(|s: OptimizationSuggestion| s@) == spec_rank(
            suggestions@.map_values(|s: OptimizationSuggestion| s@),
        ),
{
    let ghost input = suggestions@.map_values(|s: OptimizationSuggestion| s@);
    let mut sorted: Vec<OptimizationSuggestion> = Vec::new();
    let n = suggestions.len();
    let mut taken = suggestions;
    // insertion sort, consuming the input left to right
    let mut idx: usize = 0;
    proof {
        assert(input.take(0) =~= Seq::<SuggestionView>::empty());
        assert(sorted@.map_values(|s: OptimizationSuggestion| s@) =~= sort_desc(input.take(0)));
    }
    while idx < n
        invariant
            0 <= idx <= n,
            n == taken@.len(),
            input == taken@.map_values(|s: OptimizationSuggestion| s@),
            sorted@.map_values(|s: OptimizationSuggestion| s@) == sort_desc(input.take(idx as int)),
        decreases n - idx,
    {
        let ghost sorted_v = sorted@.map_values(|s: OptimizationSuggestion| s@);
        let x = copy_suggestion(&taken[idx]);
        // find the first position whose saving is below x's
        let mut pos: usize = 0;
        while pos < sorted.len() && sorted[pos].savings >= x.savings
            invariant
                0 <= pos <= sorted@.len(),
                sorted_v == sorted@.map_values(|s: OptimizationSuggestion| s@),
                sorted_v.len() == sorted@.len(),
                forall|j: int| 0 <= j < pos ==> sorted_v[j].savings >= x@.savings,
            decreases sorted@.len() - pos,
        {
            pos += 1;
        }
        assert(pos < sorted@.len() ==> sorted_v[pos as int].savings < x@.savings);
        sorted.insert(pos, x);
        proof {
            lemma_insert_desc_at(sorted_v, taken@[idx as int]@, pos as int);
            assert(sorted@.map_values(|s: OptimizationSuggestion| s@) =~= sorted_v.take(
                pos as int,
            ) + seq![taken@[idx as int]@] + sorted_v.skip(pos as int));
            assert(input.take(idx + 1).drop_last() =~= input.take(idx as int));
            assert(input.take(idx + 1).last() == input[idx as int]);
            assert(sorted@.map_values(|s: OptimizationSuggestion| s@) =~= sort_desc(
                input.take(idx + 1),
            ));
        }
        idx += 1;
    }
    proof {
        assert(input.take(n as int) =~= input);
        lemma_sort_desc_len(input);
        assert(sorted@.map_values(|s: OptimizationSuggestion| s@).len() == sorted@.len());
        assert(sorted@.len() == input.len());
    }
    if sorted.len() > 5 {
        let ghost whole = sorted@;
        sorted.truncate(5);
        proof {
            assert(sorted@ == whole.subrange(0, 5));
            assert(sorted@.map_values(|s: OptimizationSuggestion| s@) =~= sort_desc(input).take(
                5,
            ));
        }
    }
    sorted
}

/// Copy one suggestion value.
fn copy_suggestion(s: &OptimizationSuggestion) -> (r: OptimizationSuggestion)
    ensures
        r@ == s@,
{
    let path = crate::text::subvec(&s.path, 0, s.path.len());
    proof {
        assert(s.path@.subrange(0, s.path@.len() as int) =~= s.path@);
    }
    OptimizationSuggestion { kind: s.kind, path, line: s.line, savings: s.savings }
}

/// Collect the raw suggestions of the whole corpus, in file and line order.
pub fn collect_suggestions(corpus: &Vec<SourceUnit>) -> (r: Vec<OptimizationSuggestion>)
    requires
        corpus_wf(corpus@),
    ensures
        r@.map_values(|s: OptimizationSuggestion| s@) == spec_collect(corpus@),
{
    let mut r: Vec<OptimizationSuggestion> = Vec::new();
    proof {
        assert(r@.map_values(|s: OptimizationSuggestion| s@) =~= corpus_suggestions_upto(
            corpus@,
            0,
        ));
    }
    let mut k: usize = 0;
    while k < corpus.len()
        invariant
            0 <= k <= corpus@.len(),
            corpus_wf(corpus@),
            r@.map_values(|s: OptimizationSuggestion| s@) == corpus_suggestions_upto(
                corpus@,
                k as int,
            ),
        decreases corpus@.len() - k,
    {
        analyze_file(&corpus[k], &mut r);
        proof {
            assert(r@.map_values(|s: OptimizationSuggestion| s@) =~= corpus_suggestions_upto(
                corpus@,
                k + 1,
            ));
        }
        k += 1;
    }
    r
}

/// Append the suggestions of one file, in line order.
fn analyze_file(unit: &SourceUnit, out: &mut Vec<OptimizationSuggestion>)
    requires
        unit.wf(),
    ensures
        final(out)@.map_values(|s: OptimizationSuggestion| s@) == old(out)@.map_values(
            |s: OptimizationSuggestion| s@,
        ) + file_suggestions(unit.path@, spec_lines(unit.content@)),
{
    let ghost lines_v = unit.lines.deep_view();
    let ghost base = out@.map_values(|s: OptimizationSuggestion| s@);
    let n = unit.lines.len();
    proof {
        assert(base + suggestions_upto(unit.path@, lines_v, 0) =~= base);
    }
    let mut i: usize = 0;
    while i < n
        invariant
            0 <= i <= n,
            n == unit.lines@.len(),
            unit.wf(),
            lines_v == unit.lines.deep_view(),
            base == old(out)@.map_values(|s: OptimizationSuggestion| s@),
            out@.map_values(|s: OptimizationSuggestion| s@) == base + suggestions_upto(
                unit.path@,
                lines_v,
                i as int,
            ),
        decreases n - i,
    {
        advise_line(unit, i, out);
        proof {
            assert(base + suggestions_upto(unit.path@, lines_v, i + 1) =~= (base
                + suggestions_upto(unit.path@, lines_v, i as int)) + line_suggestions(
                unit.path@,
                lines_v,
                i as int,
            ));
        }
        i += 1;
    }
    proof {
        assert(lines_v == spec_lines(unit.content@));
    }
}

proof fn lemma_map_push_sugg(s: Seq<OptimizationSuggestion>, x: OptimizationSuggestion)
    ensures
        (s.push(x)).map_values(|v: OptimizationSuggestion| v@) =~= s.map_values(
            |v: OptimizationSuggestion| v@,
        ).push(x@),
{
}

/// Count the lines of `lines[lo..hi]` that contain `pat`.
fn count_window_containing(lines: &Vec<Vec<u8>>, lo: usize, hi: usize, pat: &Vec<u8>) -> (r: usize)
    requires
        lo <= hi <= lines@.len(),
    ensures
        r == count_lines_containing(lines.deep_view(), lo as int, hi as int, pat@),
        r <= hi - lo,
{
    proof {
        crate::text::lemma_lines_deep_view(lines);
    }
    let mut j: usize = hi;
    let mut count: usize = 0;
    // walk the window from its end so the recursive spec unfolds directly
    while j > lo
        invariant
            lo <= j <= hi <= lines@.len(),
            count == count_lines_containing(lines.deep_view(), j as int, hi as int, pat@),
            count <= hi - j,
            forall|k: int| 0 <= k < lines@.len() ==> #[trigger] lines.deep_view()[k]
                == lines@[k]@,
        decreases j - lo,
    {
        let jj = j - 1;
        if contains_bytes(&lines[jj], pat) {
            count += 1;
        }
        j = jj;
    }
    count
}

/// Count the lines of `lines[lo..hi]` that hold a calculation pattern.
fn count_window_calc(lines: &Vec<Vec<u8>>, lo: usize, hi: usize) -> (r: usize)
    requires
        lo <= hi <= lines@.len(),
    ensures
        r == count_calc_lines(lines.deep_view(), lo as int, hi as int),
        r <= hi - lo,
{
    proof {
        crate::text::lemma_lines_deep_view(lines);
    }
    let mut j: usize = hi;
    let mut count: usize = 0;
    while j > lo
        invariant
            lo <= j <= hi <= lines@.len(),
            count == count_calc_lines(lines.deep_view(), j as int, hi as int),
            count <= hi - j,
            forall|k: int| 0 <= k < lines@.len() ==> #[trigger] lines.deep_view()[k]
                == lines@[k]@,
        decreases j - lo,
    {
        let jj = j - 1;
        if calc_pattern_exec(&lines[jj]) {
            count += 1;
        }
        j = jj;
    }
    count
}

/// Whether the line holds a multiply/divide calculation pattern.
pub fn calc_pattern_exec(l: &Vec<u8>) -> (r: bool)
    ensures
        r == calc_pattern(l@),
{
    let len = l.len();
    let mut b: usize = 0;
    while b < len
        invariant
            0 <= b <= len,
            len == l@.len(),
            forall|k: int| 0 <= k < b ==> !(#[trigger] calc_at(l@, k)),
        decreases len - b,
    {
        let c = l[b];
        if c == 42 || c == 47 {
            let before = if b > 0 {
                match rskip_ws_exec(l, b - 1) {
                    Some(p) => is_word_byte(l[p]),
                    None => false,
                }
            } else {
                false
            };
            let hit = if before {
                let q = skip_ws_exec(l, b + 1);
                q < len && is_word_byte(l[q])
            } else {
                false
            };
            if hit {
                assert(calc_at(l@, b as int));
                return true;
            }
            proof {
                if b == 0 {
                    assert(rskip_ws(l@, -1) == -1);
                }
                assert(!calc_at(l@, b as int));
            }
        } else {
            assert(!calc_at(l@, b as int));
        }
        b += 1;
    }
    false
}

/// Evaluate the four advisor rules on line `i` and append the suggestions
/// they emit, in rule order.
fn advise_line(unit: &SourceUnit, i: usize, out: &mut Vec<OptimizationSuggestion>)
    requires
        i < unit.lines@.len(),
    ensures
        final(out)@.map_values(|s: OptimizationSuggestion| s@) == old(out)@.map_values(
            |s: OptimizationSuggestion| s@,
        ) + line_suggestions(unit.path@, unit.lines.deep_view(), i as int),
{
    let ghost lines_v = unit.lines.deep_view();
    let ghost before = out@.map_values(|s: OptimizationSuggestion| s@);
    let n = unit.lines.len();
    proof {
        crate::text::lemma_lines_deep_view(&unit.lines);
    }
    let line = &unit.lines[i];

    // excessive allocation
    let m_obj = marker("object::new");
    if contains_bytes(line, &m_obj) {
        let lo = if i >= 10 {
            i - 10
        } else {
            0
        };
        let hi = if n - lo >= 20 {
            lo + 20
        } else {
            n
        };
        let cnt = count_window_containing(&unit.lines, lo, hi, &m_obj);
        if cnt > 2 {
            let savings = 200 * (cnt as u64 - 1);
            out.push(
                OptimizationSuggestion {
                    kind: SuggestionKind::ExcessiveAllocation,
                    path: crate::text::copy_bytes(&unit.path),
                    line: i + 1,
                    savings,
                },
            );
            proof {
                lemma_map_push_sugg(out@.drop_last(), out@.last());
                assert(out@.drop_last() =~= out@.subrange(0, out@.len() - 1));
            }
        }
    }
    assert(out@.map_values(|s: OptimizationSuggestion| s@) == before + (
    match rule_excessive_allocation(lines_v, i as int) {
        Some(s) => seq![sv(SuggestionKind::ExcessiveAllocation, unit.path@, i + 1, s)],
        None => Seq::empty(),
    })) by {
        assert(before + Seq::<SuggestionView>::empty() =~= before);
    }

    // vector operations in a loop
    let fires2 = if contains_bytes(line, &marker("while")) || contains_bytes(
        line,
        &marker("loop"),
    ) {
        let hi = if n - i >= 15 {
            i + 15
        } else {
            n
        };
        any_vector_op(&unit.lines, i, hi)
    } else {
        false
    };
    assert(fires2 == rule_vector_in_loop(lines_v, i as int));
    if fires2 {
        out.push(
            OptimizationSuggestion {
                kind: SuggestionKind::VectorOpsInLoop,
                path: crate::text::copy_bytes(&unit.path),
                line: i + 1,
                savings: 150,
            },
        );
        proof {
            lemma_map_push_sugg(out@.drop_last(), out@.last());
            assert(out@.drop_last() =~= out@.subrange(0, out@.len() - 1));
        }
    }

    // repeated computation
    let fires3 = if contains_bytes(line, &marker("=")) && !contains_bytes(line, &marker("=="))
        && calc_pattern_exec(line) {
        let hi = if n - i >= 11 {
            i + 11
        } else {
            n
        };
        let cnt = count_window_calc(&unit.lines, i + 1, hi);
        cnt > 1
    } else {
        false
    };
    assert(fires3 == rule_repeated_computation(lines_v, i as int));
    if fires3 {
        out.push(
            OptimizationSuggestion {
                kind: SuggestionKind::RepeatedComputation,
                path: crate::text::copy_bytes(&unit.path),
                line: i + 1,
                savings: 100,
            },
        );
        proof {
            lemma_map_push_sugg(out@.drop_last(), out@.last());
            assert(out@.drop_last() =~= out@.subrange(0, out@.len() - 1));
        }
    }

    // inefficient lookup structure
    let fires4 = contains_bytes(line, &marker("vector::")) && (contains_bytes(
        line,
        &marker("borrow"),
    ) || contains_bytes(line, &marker("contains")));
    assert(fires4 == rule_inefficient_lookup(lines_v, i as int));
    if fires4 {
        out.push(
            OptimizationSuggestion {
                kind: SuggestionKind::InefficientLookup,
                path: crate::text::copy_bytes(&unit.path),
                line: i + 1,
                savings: 180,
            },
        );
        proof {
            lemma_map_push_sugg(out@.drop_last(), out@.last());
            assert(out@.drop_last() =~= out@.subrange(0, out@.len() - 1));
        }
    }

    proof {
        assert(out@.map_values(|s: OptimizationSuggestion| s@) =~= before + line_suggestions(
            unit.path@,
            lines_v,
            i as int,
        ));
    }
}

/// Whether any line of `lines[lo..hi]` pushes to or borrows from a vector.
fn any_vector_op(lines: &Vec<Vec<u8>>, lo: usize, hi: usize) -> (r: bool)
    requires
        lo <= hi <= lines@.len(),
    ensures
        r == exists|j: int| lo <= j < hi && #[trigger] vector_op_line(lines.deep_view()[j]),
{
    proof {
        crate::text::lemma_lines_deep_view(lines);
    }
    let mp = marker("vector::push_back");
    let mb = marker("vector::borrow");
    let mut j: usize = lo;
    while j < hi
        invariant
            lo <= j <= hi <= lines@.len(),
            mp@ == "vector::push_back".spec_bytes(),
            mb@ == "vector::borrow".spec_bytes(),
            forall|k: int| 0 <= k < lines@.len() ==> #[trigger] lines.deep_view()[k]
                == lines@[k]@,
            forall|k: int| lo <= k < j ==> !(#[trigger] vector_op_line(lines.deep_view()[k])),
        decreases hi - j,
    {
        let l = &lines[j];
        if contains_bytes(l, &mp) || contains_bytes(l, &mb) {
            assert(vector_op_line(lines.deep_view()[j as int]));
            return true;
        }
        assert(!vector_op_line(lines.deep_view()[j as int]));
        j += 1;
    }
    false
}

} // verus!
