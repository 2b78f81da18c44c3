//! Gas cost estimation: for every function signature found in a source file,
//! a cost estimate computed from weighted keyword counts over the scan region
//! that starts just after the signature's opening brace and runs to the end
//! of the file.  The region is intentionally not bounded by the function's
//! closing brace, so estimates of earlier functions include the text of later
//! ones; this is preserved for output compatibility.

use vstd::prelude::*;
use vstd::string::StringSliceAdditionalSpecFns;
use crate::text::{
    contains_seq, count_matches, find_byte, is_space, is_word, match_at, skip_ws, skip_word,
    contains_bytes, count_matches_exec, find_byte_exec, is_space_byte, is_word_byte, marker,
    match_at_exec, skip_ws_exec, skip_word_exec, subvec,
};
use crate::corpus::SourceUnit;

verus! {

/// Keyword counts are clamped here before they enter the cost formula, so
/// that the weighted sums cannot overflow.  The cap is far beyond any count a
/// real file can produce.
pub const COUNT_CAP: u64 = 0x20_0000_0000_0000;

/// A count clamped at [`COUNT_CAP`].
pub open spec fn capped(n: nat) -> int {
    if n > COUNT_CAP {
        COUNT_CAP as int
    } else {
        n as int
    }
}

/// The mathematical value of a gas estimate.
pub ghost struct GasEstimateView {
    pub function: Seq<u8>,
    pub total: int,
    pub storage: int,
    pub computation: int,
}

/// Estimated gas cost of one function: a total split into a storage bucket
/// and a computation bucket.
pub struct GasEstimate {
    pub function: Vec<u8>,
    pub total: u64,
    pub storage: u64,
    pub computation: u64,
}

impl View for GasEstimate {
    type V = GasEstimateView;

    open spec fn view(&self) -> GasEstimateView {
        GasEstimateView {
            function: self.function@,
            total: self.total as int,
            storage: self.storage as int,
            computation: self.computation as int,
        }
    }
}

/// Where the scan region of a signature starting at `p` would begin: the
/// position just after the first `{` that follows `fun`, whitespace, the
/// function's name, optional whitespace and a parenthesised parameter list.
/// `None` when no such signature starts at `p`.
pub open spec fn sig_match_end(s: Seq<u8>, name: Seq<u8>, p: int) -> Option<int> {
    let kw = "fun".spec_bytes();
    if match_at(s, kw, p) && p + kw.len() < s.len() && is_space(s[p + kw.len()]) {
        let q = skip_ws(s, p + kw.len());
        if match_at(s, name, q) {
            let r = skip_ws(s, q + name.len());
            if r < s.len() && s[r] == 40 {
                let u = find_byte(s, 41, r + 1);
                if u < s.len() {
                    let v = find_byte(s, 123, u + 1);
                    if v < s.len() {
                        Some(v + 1)
                    } else {
                        None
                    }
                } else {
                    None
                }
            } else {
                None
            }
        } else {
            None
        }
    } else {
        None
    }
}

/// The scan-region start of the leftmost signature of `name` at or after
/// `pos`, or `None` when the file holds none.
pub open spec fn find_sig(s: Seq<u8>, name: Seq<u8>, pos: int) -> Option<int>
    decreases s.len() - pos,
{
    if pos < 0 || pos >= s.len() {
        None
    } else if sig_match_end(s, name, pos) is Some {
        sig_match_end(s, name, pos)
    } else {
        find_sig(s, name, pos + 1)
    }
}

/// The gas estimate of `name` over `content`: weighted counts of the five
/// marker families over the scan region, plus a fixed base cost; a default
/// estimate when no signature of `name` is found.
pub open spec fn spec_gas_estimate(content: Seq<u8>, name: Seq<u8>) -> GasEstimateView {
    match find_sig(content, name, 0) {
        Some(e) => {
            let region = content.skip(e);
            let oc = capped(count_matches(region, "object::new".spec_bytes()));
            let tr = capped(count_matches(region, "transfer::".spec_bytes()));
            let tb = capped(count_matches(region, "table::".spec_bytes()));
            let vc = capped(count_matches(region, "vector::".spec_bytes()));
            let bl = capped(count_matches(region, "balance::".spec_bytes()));
            let storage = oc * 500 + tb * 300;
            let computation = tr * 200 + vc * 50 + bl * 100;
            GasEstimateView {
                function: name,
                total: storage + computation + 200,
                storage: storage,
                computation: computation,
            }
        },
        None => GasEstimateView { function: name, total: 200, storage: 0, computation: 200 },
    }
}

/// Clamp a raw count at [`COUNT_CAP`].
fn cap_count(n: usize) -> (r: u64)
    ensures
        r == capped(n as nat),
        r <= COUNT_CAP,
{
    let v = n as u64;
    if v > COUNT_CAP {
        COUNT_CAP
    } else {
        v
    }
}

/// Try to match a signature of `name` at position `p`, returning the
/// scan-region start on success.
fn sig_try_at(content: &Vec<u8>, name: &Vec<u8>, p: usize) -> (r: Option<usize>)
    requires
        p < content@.len(),
    ensures
        (r is Some) == (sig_match_end(content@, name@, p as int) is Some),
        r matches Some(v) ==> sig_match_end(content@, name@, p as int) == Some(v as int) && v
            <= content@.len(),
{
    let kw = marker("fun");
    let klen = kw.len();
    let len = content.len();
    if len - p > klen && match_at_exec(content, &kw, p) && is_space_byte(content[p + klen]) {
        let q = skip_ws_exec(content, p + klen);
        if name.len() <= len - q && match_at_exec(content, name, q) {
            let r = skip_ws_exec(content, q + name.len());
            if r < len && content[r] == 40 {
                let u = find_byte_exec(content, 41, r + 1);
                if u < len {
                    let v = find_byte_exec(content, 123, u + 1);
                    if v < len {
                        Some(v + 1)
                    } else {
                        None
                    }
                } else {
                    None
                }
            } else {
                None
            }
        } else {
            None
        }
    } else {
        None
    }
}

/// Find the leftmost signature of `name` in `content`, returning its
/// scan-region start.
fn find_sig_exec(content: &Vec<u8>, name: &Vec<u8>) -> (r: Option<usize>)
    ensures
        (r is Some) == (find_sig(content@, name@, 0) is Some),
        r matches Some(v) ==> find_sig(content@, name@, 0) == Some(v as int) && v
            <= content@.len(),
{
    let len = content.len();
    let mut p: usize = 0;
    while p < len
        invariant
            0 <= p <= len,
            len == content@.len(),
            find_sig(content@, name@, 0) == find_sig(content@, name@, p as int),
        decreases len - p,
    {
        match sig_try_at(content, name, p) {
            Some(v) => {
                return Some(v);
            },
            None => {},
        }
        p += 1;
    }
    None
}

/// Estimate the gas usage of the function `function_name` over a file's
/// content, using the documented weights and base cost.
pub fn estimate_gas_usage(content: &Vec<u8>, function_name: &Vec<u8>) -> (r: GasEstimate)
    ensures
        r@ == spec_gas_estimate(content@, function_name@),
{
    let name = subvec(function_name, 0, function_name.len());
    proof {
        assert(function_name@.subrange(0, function_name@.len() as int) =~= function_name@);
    }
    match find_sig_exec(content, function_name) {
        Some(e) => {
            let region = subvec(content, e, content.len());
            proof {
                assert(region@ =~= content@.skip(
                    find_sig(content@, function_name@, 0).unwrap(),
                ));
            }
            let oc = cap_count(count_matches_exec(&region, &marker("object::new")));
            let tr = cap_count(count_matches_exec(&region, &marker("transfer::")));
            let tb = cap_count(count_matches_exec(&region, &marker("table::")));
            let vc = cap_count(count_matches_exec(&region, &marker("vector::")));
            let bl = cap_count(count_matches_exec(&region, &marker("balance::")));
            let storage = oc * 500 + tb * 300;
            let computation = tr * 200 + vc * 50 + bl * 100;
            let total = storage + computation + 200;
            GasEstimate { function: name, total, storage, computation }
        },
        None => GasEstimate { function: name, total: 200, storage: 0, computation: 200 },
    }
}

/// A function-declaration match at a line start: optional whitespace, an
/// optional `public` modifier, the `fun` keyword, then the captured name.
/// Returns the name's start and end positions.
pub open spec fn cap_match_at(s: Seq<u8>, p: int) -> Option<(int, int)> {
    let kw_pub = "public".spec_bytes();
    let kw_fun = "fun".spec_bytes();
    let j = skip_ws(s, p);
    let j2 = if match_at(s, kw_pub, j) && j + kw_pub.len() < s.len() && is_space(
        s[j + kw_pub.len()],
    ) {
        skip_ws(s, j + kw_pub.len())
    } else {
        j
    };
    if match_at(s, kw_fun, j2) && j2 + kw_fun.len() < s.len() && is_space(s[j2 + kw_fun.len()]) {
        let q = skip_ws(s, j2 + kw_fun.len());
        if q < s.len() && is_word(s[q]) {
            Some((q, skip_word(s, q)))
        } else {
            None
        }
    } else {
        None
    }
}

/// `p` is the start of the file or the position right after a newline.
pub open spec fn is_line_start(s: Seq<u8>, p: int) -> bool {
    p == 0 || s[p - 1] == 10
}

/// The function names declared in `s` at or after `pos`, in order: a match
/// can only start at a line start, and matches do not overlap.
pub open spec fn sig_names(s: Seq<u8>, pos: int) -> Seq<Seq<u8>>
    decreases s.len() - pos,
    when pos >= 0
    via sig_names_decreases
{
    if pos >= s.len() {
        Seq::empty()
    } else if is_line_start(s, pos) && cap_match_at(s, pos) is Some {
        let qw = cap_match_at(s, pos).unwrap();
        seq![s.subrange(qw.0, qw.1)] + sig_names(s, qw.1)
    } else {
        sig_names(s, pos + 1)
    }
}

#[via_fn]
proof fn sig_names_decreases(s: Seq<u8>, pos: int) {
    if 0 <= pos < s.len() && is_line_start(s, pos) && cap_match_at(s, pos) is Some {
        lemma_cap_match_bounds(s, pos);
    }
}

/// Bounds of a successful declaration match: the captured name is a non-empty
/// word run strictly after `p` and within the file.
pub proof fn lemma_cap_match_bounds(s: Seq<u8>, p: int)
    requires
        0 <= p <= s.len(),
        cap_match_at(s, p) is Some,
    ensures
        p < cap_match_at(s, p).unwrap().0 < cap_match_at(s, p).unwrap().1 <= s.len(),
        forall|k: int|
            cap_match_at(s, p).unwrap().0 <= k < cap_match_at(s, p).unwrap().1 ==> is_word(
                #[trigger] s[k],
            ),
{
    let kw_pub = "public".spec_bytes();
    let kw_fun = "fun".spec_bytes();
    let j = skip_ws(s, p);
    crate::text::lemma_skip_ws_bounds(s, p);
    let j2 = if match_at(s, kw_pub, j) && j + kw_pub.len() < s.len() && is_space(
        s[j + kw_pub.len()],
    ) {
        skip_ws(s, j + kw_pub.len())
    } else {
        j
    };
    if j2 != j {
        crate::text::lemma_skip_ws_bounds(s, j + kw_pub.len() as int);
    }
    let q = skip_ws(s, j2 + kw_fun.len());
    crate::text::lemma_skip_ws_bounds(s, j2 + kw_fun.len() as int);
    crate::text::lemma_skip_word_bounds(s, q);
}

/// The names of all function declarations of one file, leftmost first.
pub open spec fn spec_function_names(content: Seq<u8>) -> Seq<Seq<u8>> {
    sig_names(content, 0)
}

/// Extract the declared function names of a file, in declaration order.
pub fn function_names(content: &Vec<u8>) -> (r: Vec<Vec<u8>>)
    ensures
        r.deep_view() == spec_function_names(content@),
{
    let mut r: Vec<Vec<u8>> = Vec::new();
    let len = content.len();
    let mut pos: usize = 0;
    proof {
        assert(r.deep_view() + sig_names(content@, 0) =~~= sig_names(content@, 0));
    }
    while pos < len
        invariant
            0 <= pos <= len,
            len == content@.len(),
            r.deep_view() + sig_names(content@, pos as int) == sig_names(content@, 0),
        decreases len - pos,
    {
        let ghost dv0 = r.deep_view();
        let line_start = pos == 0 || content[pos - 1] == 10;
        let mut advanced = false;
        if line_start {
            match cap_try_at(content, pos) {
                Some((q, w)) => {
                    proof {
                        lemma_cap_match_bounds(content@, pos as int);
                    }
                    let name = subvec(content, q, w);
                    r.push(name);
                    proof {
                        assert(r.deep_view() =~~= dv0.push(content@.subrange(q as int, w as int)));
                        assert(dv0.push(content@.subrange(q as int, w as int)) + sig_names(
                            content@,
                            w as int,
                        ) =~~= dv0 + (seq![content@.subrange(q as int, w as int)] + sig_names(
                            content@,
                            w as int,
                        )));
                    }
                    pos = w;
                    advanced = true;
                },
                None => {},
            }
        }
        if !advanced {
            proof {
                assert(sig_names(content@, pos as int) == sig_names(content@, pos + 1));
            }
            pos += 1;
        }
    }
    r
}

/// Try to match a function declaration whose match starts at line start `p`;
/// returns the captured name's start and end.
fn cap_try_at(content: &Vec<u8>, p: usize) -> (r: Option<(usize, usize)>)
    requires
        p < content@.len(),
    ensures
        (r is Some) == (cap_match_at(content@, p as int) is Some),
        r matches Some(v) ==> cap_match_at(content@, p as int) == Some((v.0 as int, v.1 as int)),
{
    let kw_pub = marker("public");
    let kw_fun = marker("fun");
    let len = content.len();
    let j = skip_ws_exec(content, p);
    let j2 = if kw_pub.len() < len - j && match_at_exec(content, &kw_pub, j) && is_space_byte(
        content[j + kw_pub.len()],
    ) {
        skip_ws_exec(content, j + kw_pub.len())
    } else {
        j
    };
    if kw_fun.len() < len - j2 && match_at_exec(content, &kw_fun, j2) && is_space_byte(
        content[j2 + kw_fun.len()],
    ) {
        let q = skip_ws_exec(content, j2 + kw_fun.len());
        if q < len && is_word_byte(content[q]) {
            let w = skip_word_exec(content, q);
            Some((q, w))
        } else {
            None
        }
    } else {
        None
    }
}

/// The gas profile of one file: one estimate per declared function, in
/// declaration order.
pub open spec fn spec_file_profiles(content: Seq<u8>) -> Seq<GasEstimateView> {
    spec_function_names(content).map_values(|nm: Seq<u8>| spec_gas_estimate(content, nm))
}

/// The gas profiles of the first `n` files of a corpus.
pub open spec fn profiles_upto(units: Seq<SourceUnit>, n: int) -> Seq<GasEstimateView>
    decreases n,
{
    if n <= 0 {
        Seq::empty()
    } else {
        profiles_upto(units, n - 1) + spec_file_profiles(units[n - 1].content@)
    }
}

/// All gas profiles of a corpus, in corpus order.
pub open spec fn spec_parse_move_functions(units: Seq<SourceUnit>) -> Seq<GasEstimateView> {
    profiles_upto(units, units.len() as int)
}

/// Parse every function declaration of the corpus and estimate its gas
/// usage, file by file and declaration by declaration.
pub fn parse_move_functions(corpus: &Vec<SourceUnit>) -> (r: Vec<GasEstimate>)
    ensures
        r@.map_values(|e: GasEstimate| e@) == spec_parse_move_functions(corpus@),
{
    let mut r: Vec<GasEstimate> = Vec::new();
    proof {
        assert(r@.map_values(|e: GasEstimate| e@) =~= profiles_upto(corpus@, 0));
    }
    let mut k: usize = 0;
    while k < corpus.len()
        invariant
            0 <= k <= corpus@.len(),
            r@.map_values(|e: GasEstimate| e@) == profiles_upto(corpus@, k as int),
        decreases corpus@.len() - k,
    {
        let ghost before = r@.map_values(|e: GasEstimate| e@);
        let content = &corpus[k].content;
        let names = function_names(content);
        let ghost names_v = names.deep_view();
        let mut j: usize = 0;
        proof {
            assert(before + names_v.take(0).map_values(
                |nm: Seq<u8>| spec_gas_estimate(content@, nm),
            ) =~= before);
        }
        while j < names.len()
            invariant
                0 <= j <= names@.len(),
                names_v == names.deep_view(),
                names_v.len() == names@.len(),
                names_v == spec_function_names(content@),
                content@ == corpus@[k as int].content@,
                0 <= k < corpus@.len(),
                r@.map_values(|e: GasEstimate| e@) == before + names_v.take(j as int).map_values(
                    |nm: Seq<u8>| spec_gas_estimate(content@, nm),
                ),
            decreases names@.len() - j,
        {
            let est = estimate_gas_usage(content, &names[j]);
            let ghost prev = r@.map_values(|e: GasEstimate| e@);
            r.push(est);
            proof {
                crate::text::lemma_lines_deep_view(&names);
                assert(names_v[j as int] == names@[j as int]@);
                assert(r@.map_values(|e: GasEstimate| e@) =~= prev.push(est@));
                assert(names_v.take(j + 1) =~= names_v.take(j as int).push(names_v[j as int]));
                assert(names_v.take(j + 1).map_values(
                    |nm: Seq<u8>| spec_gas_estimate(content@, nm),
                ) =~= names_v.take(j as int).map_values(
                    |nm: Seq<u8>| spec_gas_estimate(content@, nm),
                ).push(spec_gas_estimate(content@, names_v[j as int])));
                assert(r@.map_values(|e: GasEstimate| e@) =~= before + names_v.take(
                    j + 1,
                ).map_values(|nm: Seq<u8>| spec_gas_estimate(content@, nm)));
            }
            j += 1;
        }
        proof {
            assert(names_v.take(names_v.len() as int) =~= names_v);
            assert(r@.map_values(|e: GasEstimate| e@) =~= profiles_upto(corpus@, k + 1));
        }
        k += 1;
    }
    r
}

/// Addition saturating at the largest 64-bit value.
pub open spec fn sat_add_u64(a: int, b: int) -> int {
    if a + b > u64::MAX {
        u64::MAX as int
    } else {
        a + b
    }
}

/// The saturating sum of the totals of the first `n` profiles.
pub open spec fn spec_total_gas(profiles: Seq<GasEstimateView>, n: int) -> int
    decreases n,
{
    if n <= 0 {
        0
    } else {
        sat_add_u64(spec_total_gas(profiles, n - 1), profiles[n - 1].total)
    }
}

/// Sum the gas totals of all profiles, saturating at the largest value.
pub fn total_gas(profiles: &Vec<GasEstimate>) -> (r: u64)
    ensures
        r == spec_total_gas(
            profiles@.map_values(|e: GasEstimate| e@),
            profiles@.len() as int,
        ),
{
    let ghost pv = profiles@.map_values(|e: GasEstimate| e@);
    let mut total: u64 = 0;
    let mut k: usize = 0;
    while k < profiles.len()
        invariant
            0 <= k <= profiles@.len(),
            pv == profiles@.map_values(|e: GasEstimate| e@),
            total == spec_total_gas(pv, k as int),
        decreases profiles@.len() - k,
    {
        let t = profiles[k].total;
        if total <= u64::MAX - t {
            total += t;
        } else {
            total = u64::MAX;
        }
        k += 1;
    }
    total
}

/// The average gas per function: the (saturated) total divided by the
/// number of profiles, or zero when there are none.
pub fn average_gas(profiles: &Vec<GasEstimate>) -> (r: u64)
    ensures
        profiles@.len() == 0 ==> r == 0,
        profiles@.len() > 0 ==> r == spec_total_gas(
            profiles@.map_values(|e: GasEstimate| e@),
            profiles@.len() as int,
        ) / (profiles@.len() as int),
{
    let n = profiles.len();
    if n == 0 {
        return 0;
    }
    let total = total_gas(profiles);
    total / (n as u64)
}

/// The index the report's "highest gas" line points at: the last profile
/// with the maximal total, as iterator maximum selection picks it.
pub open spec fn is_highest_index(profiles: Seq<GasEstimateView>, i: int) -> bool {
    &&& 0 <= i < profiles.len()
    &&& forall|j: int| 0 <= j < profiles.len() ==> profiles[j].total <= profiles[i].total
    &&& forall|j: int| i < j < profiles.len() ==> profiles[j].total < profiles[i].total
}

/// The index the report's "lowest gas" line points at: the first profile
/// with the minimal total, as iterator minimum selection picks it.
pub open spec fn is_lowest_index(profiles: Seq<GasEstimateView>, i: int) -> bool {
    &&& 0 <= i < profiles.len()
    &&& forall|j: int| 0 <= j < profiles.len() ==> profiles[j].total >= profiles[i].total
    &&& forall|j: int| 0 <= j < i ==> profiles[j].total > profiles[i].total
}

/// The profile with the highest gas total; of equals, the last.
pub fn highest_gas_index(profiles: &Vec<GasEstimate>) -> (r: Option<usize>)
    ensures
        (r is Some) == (profiles@.len() > 0),
        r matches Some(i) ==> is_highest_index(
            profiles@.map_values(|e: GasEstimate| e@),
            i as int,
        ),
{
    let ghost pv = profiles@.map_values(|e: GasEstimate| e@);
    if profiles.len() == 0 {
        return None;
    }
    let mut best: usize = 0;
    let mut k: usize = 1;
    while k < profiles.len()
        invariant
            0 <= best < k <= profiles@.len(),
            pv == profiles@.map_values(|e: GasEstimate| e@),
            forall|j: int| 0 <= j < k ==> pv[j].total <= pv[best as int].total,
            forall|j: int| best < j < k ==> pv[j].total < pv[best as int].total,
        decreases profiles@.len() - k,
    {
        if profiles[k].total >= profiles[best].total {
            best = k;
        }
        k += 1;
    }
    Some(best)
}

/// The profile with the lowest gas total; of equals, the first.
pub fn lowest_gas_index(profiles: &Vec<GasEstimate>) -> (r: Option<usize>)
    ensures
        (r is Some) == (profiles@.len() > 0),
        r matches Some(i) ==> is_lowest_index(
            profiles@.map_values(|e: GasEstimate| e@),
            i as int,
        ),
{
    let ghost pv = profiles@.map_values(|e: GasEstimate| e@);
    if profiles.len() == 0 {
        return None;
    }
    let mut best: usize = 0;
    let mut k: usize = 1;
    while k < profiles.len()
        invariant
            0 <= best < k <= profiles@.len(),
            pv == profiles@.map_values(|e: GasEstimate| e@),
            forall|j: int| 0 <= j < k ==> pv[j].total >= pv[best as int].total,
            forall|j: int| 0 <= j < best ==> pv[j].total > pv[best as int].total,
        decreases profiles@.len() - k,
    {
        if profiles[k].total < profiles[best].total {
            best = k;
        }
        k += 1;
    }
    Some(best)
}

/// Insert a profile into a descending run, after every profile using at
/// least as much gas: the step of the hot-spot ordering.
pub open spec fn insert_gas_desc(s: Seq<GasEstimateView>, x: GasEstimateView) -> Seq<
    GasEstimateView,
>
    decreases s.len(),
{
    if s.len() == 0 {
        seq![x]
    } else if s[0].total >= x.total {
        seq![s[0]] + insert_gas_desc(s.drop_first(), x)
    } else {
        seq![x] + s
    }
}

/// The report order of the profiles: a stable sort by descending gas total.
/// Hot spots are its head, the most efficient functions its tail.
pub open spec fn sort_gas_desc(s: Seq<GasEstimateView>) -> Seq<GasEstimateView>
    decreases s.len(),
{
    if s.len() == 0 {
        Seq::empty()
    } else {
        insert_gas_desc(sort_gas_desc(s.drop_last()), s.last())
    }
}

proof fn lemma_insert_gas_desc_at(s: Seq<GasEstimateView>, x: GasEstimateView, k: int)
    requires
        0 <= k <= s.len(),
        forall|j: int| 0 <= j < k ==> s[j].total >= x.total,
        k < s.len() ==> s[k].total < x.total,
    ensures
        insert_gas_desc(s, x) == s.take(k) + seq![x] + s.skip(k),
    decreases s.len(),
{
    if s.len() == 0 {
        assert(insert_gas_desc(s, x) =~= s.take(k) + seq![x] + s.skip(k));
    } else if k == 0 {
        assert(insert_gas_desc(s, x) =~= s.take(0) + seq![x] + s.skip(0));
    } else {
        let d = s.drop_first();
        assert(forall|j: int| 0 <= j < k - 1 ==> #[trigger] d[j].total == s[j + 1].total);
        lemma_insert_gas_desc_at(d, x, k - 1);
        assert(insert_gas_desc(s, x) =~= s.take(k) + seq![x] + s.skip(k));
    }
}

/// Order the profiles for the gas report: by descending total, stable.
pub fn sort_profiles_by_gas(profiles: Vec<GasEstimate>) -> (r: Vec<GasEstimate>)
    ensures
        r@.map_values(|e: GasEstimate| e@) == sort_gas_desc(
            profiles@.map_values(|e: GasEstimate| e@),
        ),
{
    let ghost input = profiles@.map_values(|e: GasEstimate| e@);
    let mut sorted: Vec<GasEstimate> = Vec::new();
    let n = profiles.len();
    let taken = profiles;
    let mut idx: usize = 0;
    proof {
        assert(input.take(0) =~= Seq::<GasEstimateView>::empty());
        assert(sorted@.map_values(|e: GasEstimate| e@) =~= sort_gas_desc(input.take(0)));
    }
    while idx < n
        invariant
            0 <= idx <= n,
            n == taken@.len(),
            input == taken@.map_values(|e: GasEstimate| e@),
            sorted@.map_values(|e: GasEstimate| e@) == sort_gas_desc(input.take(idx as int)),
        decreases n - idx,
    {
        let ghost sorted_v = sorted@.map_values(|e: GasEstimate| e@);
        let x = copy_estimate(&taken[idx]);
        let mut pos: usize = 0;
        while pos < sorted.len() && sorted[pos].total >= x.total
            invariant
                0 <= pos <= sorted@.len(),
                sorted_v == sorted@.map_values(|e: GasEstimate| e@),
                sorted_v.len() == sorted@.len(),
                forall|j: int| 0 <= j < pos ==> sorted_v[j].total >= x@.total,
            decreases sorted@.len() - pos,
        {
            pos += 1;
        }
        assert(pos < sorted@.len() ==> sorted_v[pos as int].total < x@.total);
        sorted.insert(pos, x);
        proof {
            lemma_insert_gas_desc_at(sorted_v, taken@[idx as int]@, pos as int);
            assert(sorted@.map_values(|e: GasEstimate| e@) =~= sorted_v.take(pos as int) + seq![
                taken@[idx as int]@,
            ] + sorted_v.skip(pos as int));
            assert(input.take(idx + 1).drop_last() =~= input.take(idx as int));
            assert(input.take(idx + 1).last() == input[idx as int]);
            assert(sorted@.map_values(|e: GasEstimate| e@) =~= sort_gas_desc(
                input.take(idx + 1),
            ));
        }
        idx += 1;
    }
    proof {
        assert(input.take(n as int) =~= input);
    }
    sorted
}

/// Copy one estimate value.
fn copy_estimate(e: &GasEstimate) -> (r: GasEstimate)
    ensures
        r@ == e@,
{
    let function = crate::text::subvec(&e.function, 0, e.function.len());
    proof {
        assert(e.function@.subrange(0, e.function@.len() as int) =~= e.function@);
    }
    GasEstimate {
        function,
        total: e.total,
        storage: e.storage,
        computation: e.computation,
    }
}

/// Law: a corpus with no source files yields no gas profiles.
pub proof fn lemma_gas_empty_corpus()
    ensures
        spec_parse_move_functions(Seq::<SourceUnit>::empty()) == Seq::<GasEstimateView>::empty(),
{
}

/// Law: gas profiling is a function of the corpus alone — two outputs its
/// contract admits for the same corpus are identical.
pub proof fn lemma_gas_deterministic(
    units: Seq<SourceUnit>,
    r1: Seq<GasEstimateView>,
    r2: Seq<GasEstimateView>,
)
    requires
        r1 == spec_parse_move_functions(units),
        r2 == spec_parse_move_functions(units),
    ensures
        r1 == r2,
{
}

} // verus!
