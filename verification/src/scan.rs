//! Security rule engine: line-anchored heuristic rules with bounded
//! look-behind / look-ahead windows over a source corpus.
//!
//! Five rules are evaluated independently on every line, in a fixed order:
//! unchecked transfer, missing access control, reentrancy risk, unused
//! variable and missing documentation.  The last two only fire at the strict
//! level, and missing access control is suppressed at the basic level.
//! Findings are emitted in file order, then line order, then rule order, and
//! are never deduplicated.

use vstd::prelude::*;
use vstd::string::StringSliceAdditionalSpecFns;
use vstd::string::StrSliceExecFns;
use crate::text::{
    contains_seq, is_space, is_word, match_at, skip_ws, skip_word, spec_lines, trimmed_starts_with,
    contains_bytes, copy_bytes, is_space_byte, is_word_byte, marker, match_at_exec, skip_ws_exec,
    skip_word_exec, subvec, trimmed_starts_with_exec,
};
use crate::corpus::{SourceUnit, corpus_wf};

verus! {

/// Severity taxonomy of a finding, ordered from most to least severe.
#[derive(Clone, Copy, Debug, PartialEq, Eq, Structural)]
pub enum Severity {
    Critical,
    High,
    Medium,
    Low,
    Info,
}

impl Severity {
    /// The report label of this severity.
    pub open spec fn spec_str(&self) -> Seq<char> {
        match self {
            Severity::Critical => "CRITICAL"@,
            Severity::High => "HIGH"@,
            Severity::Medium => "MEDIUM"@,
            Severity::Low => "LOW"@,
            Severity::Info => "INFO"@,
        }
    }

    /// The report label of this severity.
    pub fn as_str(&self) -> (r: &'static str)
        ensures
            r@ == self.spec_str(),
    {
        match self {
            Severity::Critical => "CRITICAL",
            Severity::High => "HIGH",
            Severity::Medium => "MEDIUM",
            Severity::Low => "LOW",
            Severity::Info => "INFO",
        }
    }
}

/// The strictness level gating which rules are active.
#[derive(Clone, Copy, Debug, PartialEq, Eq, Structural)]
pub enum Strictness {
    Basic,
    Standard,
    Strict,
}

/// The level named by a command-line string: `basic` and `strict` select
/// those levels, any other string selects the standard level.
pub open spec fn spec_strictness_of(level: Seq<u8>) -> Strictness {
    if level == "basic".spec_bytes() {
        Strictness::Basic
    } else if level == "strict".spec_bytes() {
        Strictness::Strict
    } else {
        Strictness::Standard
    }
}

impl Strictness {
    /// Parse a strictness level from its command-line spelling.
    pub fn from_level(level: &str) -> (r: Strictness)
        ensures
            r == spec_strictness_of(level.spec_bytes()),
    {
        let b = level.as_bytes_vec();
        if crate::text::bytes_eq(&b, &marker("basic")) {
            Strictness::Basic
        } else if crate::text::bytes_eq(&b, &marker("strict")) {
            Strictness::Strict
        } else {
            Strictness::Standard
        }
    }
}

/// Which of the five security rules produced a finding.
#[derive(Clone, Copy, Debug, PartialEq, Eq, Structural)]
pub enum RuleKind {
    UncheckedTransfer,
    MissingAccessControl,
    ReentrancyRisk,
    UnusedVariable,
    MissingDocumentation,
}

/// The severity each rule reports at.
pub open spec fn spec_severity(rule: RuleKind) -> Severity {
    match rule {
        RuleKind::UncheckedTransfer => Severity::High,
        RuleKind::MissingAccessControl => Severity::Medium,
        RuleKind::ReentrancyRisk => Severity::Critical,
        RuleKind::UnusedVariable => Severity::Low,
        RuleKind::MissingDocumentation => Severity::Info,
    }
}

/// The mathematical value of a finding: its rule, file path, 1-based line
/// number, and (for the unused-variable rule) the name of the binding.
pub ghost struct FindingView {
    pub rule: RuleKind,
    pub path: Seq<u8>,
    pub line: int,
    pub var_name: Seq<u8>,
}

/// One security finding: a rule detection at a line of a file.
pub struct Finding {
    pub rule: RuleKind,
    pub path: Vec<u8>,
    /// 1-based line number of the trigger line.
    pub line: usize,
    /// For the unused-variable rule, the name of the unused binding;
    /// empty for every other rule.
    pub var_name: Vec<u8>,
}

impl View for Finding {
    type V = FindingView;

    open spec fn view(&self) -> FindingView {
        FindingView {
            rule: self.rule,
            path: self.path@,
            line: self.line as int,
            var_name: self.var_name@,
        }
    }
}

impl Finding {
    /// The severity of this finding, determined by its rule.
    pub fn severity(&self) -> (r: Severity)
        ensures
            r == spec_severity(self.rule),
    {
        match self.rule {
            RuleKind::UncheckedTransfer => Severity::High,
            RuleKind::MissingAccessControl => Severity::Medium,
            RuleKind::ReentrancyRisk => Severity::Critical,
            RuleKind::UnusedVariable => Severity::Low,
            RuleKind::MissingDocumentation => Severity::Info,
        }
    }

    /// The report title of this finding.
    pub open spec fn spec_title(&self) -> Seq<char> {
        match self.rule {
            RuleKind::UncheckedTransfer => "Unchecked Transfer"@,
            RuleKind::MissingAccessControl => "Missing Access Control"@,
            RuleKind::ReentrancyRisk => "Potential Reentrancy Risk"@,
            RuleKind::UnusedVariable => "Unused Variable"@,
            RuleKind::MissingDocumentation => "Missing Documentation"@,
        }
    }

    /// The report title of this finding.
    pub fn title(&self) -> (r: &'static str)
        ensures
            r@ == self.spec_title(),
    {
        match self.rule {
            RuleKind::UncheckedTransfer => "Unchecked Transfer",
            RuleKind::MissingAccessControl => "Missing Access Control",
            RuleKind::ReentrancyRisk => "Potential Reentrancy Risk",
            RuleKind::UnusedVariable => "Unused Variable",
            RuleKind::MissingDocumentation => "Missing Documentation",
        }
    }

    /// The remediation text of this finding.
    pub open spec fn spec_recommendation(&self) -> Seq<char> {
        match self.rule {
            RuleKind::UncheckedTransfer => "Add ownership check before transfer: assert!(owner == sender)"@,
            RuleKind::MissingAccessControl => "Implement admin-only modifier or capability pattern"@,
            RuleKind::ReentrancyRisk => "Update state before making external calls (checks-effects-interactions)"@,
            RuleKind::UnusedVariable => "Remove unused variable or prefix with underscore"@,
            RuleKind::MissingDocumentation => "Add /// documentation comment explaining function purpose"@,
        }
    }

    /// The description text of this finding; the unused-variable rule names
    /// the binding it flagged.
    pub open spec fn spec_description(&self) -> Seq<u8> {
        match self.rule {
            RuleKind::UncheckedTransfer => "Transfer operation without ownership verification".spec_bytes(),
            RuleKind::MissingAccessControl => "Public function without role-based access control".spec_bytes(),
            RuleKind::ReentrancyRisk => "External call before state update".spec_bytes(),
            RuleKind::UnusedVariable => "Variable '".spec_bytes() + self.var_name@
                + "' declared but never used".spec_bytes(),
            RuleKind::MissingDocumentation => "Public function lacks documentation comment".spec_bytes(),
        }
    }

    /// The description text of this finding, as bytes of the report line.
    pub fn description_bytes(&self) -> (r: Vec<u8>)
        ensures
            r@ == self.spec_description(),
    {
        match self.rule {
            RuleKind::UncheckedTransfer => marker(
                "Transfer operation without ownership verification",
            ),
            RuleKind::MissingAccessControl => marker(
                "Public function without role-based access control",
            ),
            RuleKind::ReentrancyRisk => marker("External call before state update"),
            RuleKind::UnusedVariable => {
                let mut r = marker("Variable '");
                r.extend_from_slice(self.var_name.as_slice());
                let tail = marker("' declared but never used");
                r.extend_from_slice(tail.as_slice());
                proof {
                    assert(r@ =~= "Variable '".spec_bytes() + self.var_name@
                        + "' declared but never used".spec_bytes());
                }
                r
            },
            RuleKind::MissingDocumentation => marker(
                "Public function lacks documentation comment",
            ),
        }
    }

    /// The remediation text of this finding.
    pub fn recommendation(&self) -> (r: &'static str)
        ensures
            r@ == self.spec_recommendation(),
    {
        match self.rule {
            RuleKind::UncheckedTransfer => "Add ownership check before transfer: assert!(owner == sender)",
            RuleKind::MissingAccessControl => "Implement admin-only modifier or capability pattern",
            RuleKind::ReentrancyRisk => "Update state before making external calls (checks-effects-interactions)",
            RuleKind::UnusedVariable => "Remove unused variable or prefix with underscore",
            RuleKind::MissingDocumentation => "Add /// documentation comment explaining function purpose",
        }
    }
}

/// Clamp `i - back` at zero: the start of a look-behind window.
pub open spec fn win_lo(i: int, back: int) -> int {
    if i - back >= 0 {
        i - back
    } else {
        0
    }
}

/// Clamp `x` at `len`: the end of a window never passes the file's end.
pub open spec fn win_hi(x: int, len: int) -> int {
    if x <= len {
        x
    } else {
        len
    }
}

/// A line that asserts about ownership: it holds an assertion marker and an
/// owner or sender reference.
pub open spec fn ownership_check_line(l: Seq<u8>) -> bool {
    contains_seq(l, "assert!".spec_bytes()) && (contains_seq(l, "owner".spec_bytes())
        || contains_seq(l, "sender".spec_bytes()))
}

/// A line that guards access: an assertion, a require marker or a capability
/// reference.
pub open spec fn access_control_line(l: Seq<u8>) -> bool {
    contains_seq(l, "assert!".spec_bytes()) || contains_seq(l, "require".spec_bytes())
        || contains_seq(l, "capability".spec_bytes())
}

/// A simple assignment: an `=` that is not part of an `==`.
pub open spec fn assignment_line(l: Seq<u8>) -> bool {
    contains_seq(l, "=".spec_bytes()) && !contains_seq(l, "==".spec_bytes())
}

/// Unchecked transfer: the line transfers without asserting, and no line in
/// the five-line look-behind window checks ownership.
pub open spec fn rule_unchecked_transfer(lines: Seq<Seq<u8>>, i: int) -> bool {
    let lo = win_lo(i, 5);
    let hi = win_hi(lo + 5, lines.len() as int);
    contains_seq(lines[i], "transfer::".spec_bytes()) && !contains_seq(
        lines[i],
        "assert!".spec_bytes(),
    ) && !(exists|j: int| lo <= j < hi && #[trigger] ownership_check_line(lines[j]))
}

/// Missing access control: a public non-entry function whose next ten lines
/// hold no access check; suppressed at the basic level.
pub open spec fn rule_missing_access_control(
    lines: Seq<Seq<u8>>,
    i: int,
    level: Strictness,
) -> bool {
    let hi = win_hi(i + 10, lines.len() as int);
    contains_seq(lines[i], "public fun".spec_bytes()) && !contains_seq(
        lines[i],
        "entry".spec_bytes(),
    ) && !(exists|j: int| i <= j < hi && #[trigger] access_control_line(lines[j]))
        && level != Strictness::Basic
}

/// Reentrancy risk: a transfer or coin operation with no simple assignment in
/// the three-line look-behind window; reported regardless of level.
pub open spec fn rule_reentrancy(lines: Seq<Seq<u8>>, i: int) -> bool {
    let lo = win_lo(i, 3);
    let hi = win_hi(lo + 3, lines.len() as int);
    (contains_seq(lines[i], "transfer::".spec_bytes()) || contains_seq(
        lines[i],
        "coin::".spec_bytes(),
    )) && !(exists|j: int| lo <= j < hi && #[trigger] assignment_line(lines[j]))
}

/// A `let` binding declaration matches at `p`: the keyword, at least one
/// whitespace byte, then a word byte to start the bound name.
pub open spec fn let_match_at(l: Seq<u8>, p: int) -> bool {
    let kw = "let".spec_bytes();
    match_at(l, kw, p) && p + kw.len() < l.len() && is_space(l[p + kw.len()]) && skip_ws(
        l,
        p + kw.len(),
    ) < l.len() && is_word(l[skip_ws(l, p + kw.len())])
}

/// The first position at or after `from` where a `let` binding matches, or
/// `l.len()` if none does.
pub open spec fn find_let(l: Seq<u8>, from: int) -> int
    decreases l.len() - from,
{
    if from < 0 || from >= l.len() {
        l.len() as int
    } else if let_match_at(l, from) {
        from
    } else {
        find_let(l, from + 1)
    }
}

/// The name bound by the first `let` binding of the line, if any: the maximal
/// word run after the keyword and its whitespace.
pub open spec fn spec_variable_name(l: Seq<u8>) -> Option<Seq<u8>> {
    let p = find_let(l, 0);
    if 0 <= p < l.len() {
        let q = skip_ws(l, p + "let".spec_bytes().len());
        Some(l.subrange(q, skip_word(l, q)))
    } else {
        None
    }
}

/// Unused variable (strict only): an immutable binding on a line without any
/// underscore, whose name does not occur in the next twenty lines.
pub open spec fn rule_unused_variable(lines: Seq<Seq<u8>>, i: int, level: Strictness) -> bool {
    let hi = win_hi(i + 21, lines.len() as int);
    level == Strictness::Strict && contains_seq(lines[i], "let ".spec_bytes()) && !contains_seq(
        lines[i],
        "mut".spec_bytes(),
    ) && !contains_seq(lines[i], "_".spec_bytes()) && spec_variable_name(lines[i]) is Some && !(
    exists|j: int|
        i + 1 <= j < hi && #[trigger] contains_seq(
            lines[j],
            spec_variable_name(lines[i]).unwrap(),
        ))
}

/// Missing documentation (strict only): a public function whose preceding
/// line is not a doc comment.
pub open spec fn rule_missing_doc(lines: Seq<Seq<u8>>, i: int, level: Strictness) -> bool {
    level == Strictness::Strict && contains_seq(lines[i], "public fun".spec_bytes()) && !(i > 0
        && trimmed_starts_with(lines[i - 1], "///".spec_bytes()))
}

/// Helper to state one finding in the spec.
pub open spec fn fv(rule: RuleKind, path: Seq<u8>, line: int, var_name: Seq<u8>) -> FindingView {
    FindingView { rule, path, line, var_name }
}

/// All findings that line `i` of the file contributes, in rule order.
pub open spec fn line_findings(
    path: Seq<u8>,
    lines: Seq<Seq<u8>>,
    level: Strictness,
    i: int,
) -> Seq<FindingView> {
    (if rule_unchecked_transfer(lines, i) {
        seq![fv(RuleKind::UncheckedTransfer, path, i + 1, Seq::empty())]
    } else {
        Seq::empty()
    }) + (if rule_missing_access_control(lines, i, level) {
        seq![fv(RuleKind::MissingAccessControl, path, i + 1, Seq::empty())]
    } else {
        Seq::empty()
    }) + (if rule_reentrancy(lines, i) {
        seq![fv(RuleKind::ReentrancyRisk, path, i + 1, Seq::empty())]
    } else {
        Seq::empty()
    }) + (if rule_unused_variable(lines, i, level) {
        seq![fv(RuleKind::UnusedVariable, path, i + 1, spec_variable_name(lines[i]).unwrap())]
    } else {
        Seq::empty()
    }) + (if rule_missing_doc(lines, i, level) {
        seq![fv(RuleKind::MissingDocumentation, path, i + 1, Seq::empty())]
    } else {
        Seq::empty()
    })
}

/// The findings of the first `n` lines of the file, in line order.
pub open spec fn findings_upto(
    path: Seq<u8>,
    lines: Seq<Seq<u8>>,
    level: Strictness,
    n: int,
) -> Seq<FindingView>
    decreases n,
{
    if n <= 0 {
        Seq::empty()
    } else {
        findings_upto(path, lines, level, n - 1) + line_findings(path, lines, level, n - 1)
    }
}

/// All findings of one file.
pub open spec fn file_findings(
    path: Seq<u8>,
    lines: Seq<Seq<u8>>,
    level: Strictness,
) -> Seq<FindingView> {
    findings_upto(path, lines, level, lines.len() as int)
}

/// The findings of the first `n` files of the corpus, in file order.
pub open spec fn corpus_findings_upto(
    units: Seq<SourceUnit>,
    level: Strictness,
    n: int,
) -> Seq<FindingView>
    decreases n,
{
    if n <= 0 {
        Seq::empty()
    } else {
        corpus_findings_upto(units, level, n - 1) + file_findings(
            units[n - 1].path@,
            spec_lines(units[n - 1].content@),
            level,
        )
    }
}

/// All findings of a corpus, scanned in corpus order.
pub open spec fn spec_scan(units: Seq<SourceUnit>, level: Strictness) -> Seq<FindingView> {
    corpus_findings_upto(units, level, units.len() as int)
}

/// A finding's stored binding name is a word run exactly when its rule is the
/// unused-variable rule; other rules carry an empty name.
pub open spec fn finding_wf(f: FindingView) -> bool {
    match f.rule {
        RuleKind::UnusedVariable => forall|k: int|
            0 <= k < f.var_name.len() ==> is_word(#[trigger] f.var_name[k]),
        _ => f.var_name.len() == 0,
    }
}

proof fn lemma_map_push(s: Seq<Finding>, f: Finding)
    ensures
        (s.push(f)).map_values(|x: Finding| x@) =~= s.map_values(|x: Finding| x@).push(f@),
{
}

/// Extract the name bound by the first `let` binding of the line, as the
/// original rule set extracts it: the first word run following the keyword.
pub fn extract_variable_name(line: &Vec<u8>) -> (r: Option<Vec<u8>>)
    ensures
        (r is Some) == (spec_variable_name(line@) is Some),
        r matches Some(v) ==> spec_variable_name(line@) matches Some(n) && v@ == n,
        r matches Some(v) ==> v@.len() > 0 && (forall|k: int|
            0 <= k < v@.len() ==> is_word(#[trigger] v@[k])),
{
    let mlet = marker("let");
    let len = line.len();
    let klen = mlet.len();
    let mut p: usize = 0;
    while p < len
        invariant
            0 <= p <= len,
            len == line@.len(),
            mlet@ == "let".spec_bytes(),
            klen == mlet@.len(),
            find_let(line@, 0) == find_let(line@, p as int),
        decreases len - p,
    {
        let hit = if len - p > klen && match_at_exec(line, &mlet, p) && is_space_byte(
            line[p + klen],
        ) {
            let q = skip_ws_exec(line, p + klen);
            q < len && is_word_byte(line[q])
        } else {
            false
        };
        if hit {
            assert(let_match_at(line@, p as int));
            let q = skip_ws_exec(line, p + klen);
            let w = skip_word_exec(line, q);
            proof {
                crate::text::lemma_skip_word_bounds(line@, q as int);
                assert(w > q);
            }
            let name = subvec(line, q, w);
            return Some(name);
        }
        proof {
            assert(!let_match_at(line@, p as int));
        }
        p += 1;
    }
    None
}

/// Whether any line of `lines[lo..hi]` checks ownership (rule window of the
/// unchecked-transfer rule).
fn any_ownership_check(lines: &Vec<Vec<u8>>, lo: usize, hi: usize) -> (r: bool)
    requires
        lo <= hi <= lines@.len(),
    ensures
        r == exists|j: int| lo <= j < hi && #[trigger] ownership_check_line(lines.deep_view()[j]),
{
    proof {
        crate::text::lemma_lines_deep_view(lines);
    }
    let ma = marker("assert!");
    let mo = marker("owner");
    let ms = marker("sender");
    let mut j: usize = lo;
    while j < hi
        invariant
            lo <= j <= hi <= lines@.len(),
            ma@ == "assert!".spec_bytes(),
            mo@ == "owner".spec_bytes(),
            ms@ == "sender".spec_bytes(),
            forall|k: int| 0 <= k < lines@.len() ==> #[trigger] lines.deep_view()[k]
                == lines@[k]@,
            forall|k: int| lo <= k < j ==> !(#[trigger] ownership_check_line(
                lines.deep_view()[k],
            )),
        decreases hi - j,
    {
        let l = &lines[j];
        if contains_bytes(l, &ma) && (contains_bytes(l, &mo) || contains_bytes(l, &ms)) {
            assert(ownership_check_line(lines.deep_view()[j as int]));
            return true;
        }
        assert(!ownership_check_line(lines.deep_view()[j as int]));
        j += 1;
    }
    false
}

/// Whether any line of `lines[lo..hi]` holds an access-control marker (rule
/// window of the missing-access-control rule).
fn any_access_control(lines: &Vec<Vec<u8>>, lo: usize, hi: usize) -> (r: bool)
    requires
        lo <= hi <= lines@.len(),
    ensures
        r == exists|j: int| lo <= j < hi && #[trigger] access_control_line(lines.deep_view()[j]),
{
    proof {
        crate::text::lemma_lines_deep_view(lines);
    }
    let ma = marker("assert!");
    let mr = marker("require");
    let mc = marker("capability");
    let mut j: usize = lo;
    while j < hi
        invariant
            lo <= j <= hi <= lines@.len(),
            ma@ == "assert!".spec_bytes(),
            mr@ == "require".spec_bytes(),
            mc@ == "capability".spec_bytes(),
            forall|k: int| 0 <= k < lines@.len() ==> #[trigger] lines.deep_view()[k]
                == lines@[k]@,
            forall|k: int| lo <= k < j ==> !(#[trigger] access_control_line(lines.deep_view()[k])),
        decreases hi - j,
    {
        let l = &lines[j];
        if contains_bytes(l, &ma) || contains_bytes(l, &mr) || contains_bytes(l, &mc) {
            assert(access_control_line(lines.deep_view()[j as int]));
            return true;
        }
        assert(!access_control_line(lines.deep_view()[j as int]));
        j += 1;
    }
    false
}

/// Whether any line of `lines[lo..hi]` is a simple assignment (rule window of
/// the reentrancy rule).
fn any_assignment(lines: &Vec<Vec<u8>>, lo: usize, hi: usize) -> (r: bool)
    requires
        lo <= hi <= lines@.len(),
    ensures
        r == exists|j: int| lo <= j < hi && #[trigger] assignment_line(lines.deep_view()[j]),
{
    proof {
        crate::text::lemma_lines_deep_view(lines);
    }
    let me = marker("=");
    let mee = marker("==");
    let mut j: usize = lo;
    while j < hi
        invariant
            lo <= j <= hi <= lines@.len(),
            me@ == "=".spec_bytes(),
            mee@ == "==".spec_bytes(),
            forall|k: int| 0 <= k < lines@.len() ==> #[trigger] lines.deep_view()[k]
                == lines@[k]@,
            forall|k: int| lo <= k < j ==> !(#[trigger] assignment_line(lines.deep_view()[k])),
        decreases hi - j,
    {
        let l = &lines[j];
        if contains_bytes(l, &me) && !contains_bytes(l, &mee) {
            assert(assignment_line(lines.deep_view()[j as int]));
            return true;
        }
        assert(!assignment_line(lines.deep_view()[j as int]));
        j += 1;
    }
    false
}

/// Whether any line of `lines[lo..hi]` mentions `name` (rule window of the
/// unused-variable rule).
fn any_mention(lines: &Vec<Vec<u8>>, lo: usize, hi: usize, name: &Vec<u8>) -> (r: bool)
    requires
        lo <= hi <= lines@.len(),
    ensures
        r == exists|j: int| lo <= j < hi && #[trigger] contains_seq(lines.deep_view()[j], name@),
{
    proof {
        crate::text::lemma_lines_deep_view(lines);
    }
    let mut j: usize = lo;
    while j < hi
        invariant
            lo <= j <= hi <= lines@.len(),
            forall|k: int| 0 <= k < lines@.len() ==> #[trigger] lines.deep_view()[k]
                == lines@[k]@,
            forall|k: int| lo <= k < j ==> !(#[trigger] contains_seq(lines.deep_view()[k], name@)),
        decreases hi - j,
    {
        if contains_bytes(&lines[j], name) {
            assert(contains_seq(lines.deep_view()[j as int], name@));
            return true;
        }
        assert(!contains_seq(lines.deep_view()[j as int], name@));
        j += 1;
    }
    false
}

/// Whether the unchecked-transfer rule fires on line `i`.
fn fires_unchecked_transfer(unit: &SourceUnit, i: usize) -> (r: bool)
    requires
        i < unit.lines@.len(),
    ensures
        r == rule_unchecked_transfer(unit.lines.deep_view(), i as int),
{
    proof {
        crate::text::lemma_lines_deep_view(&unit.lines);
    }
    let n = unit.lines.len();
    let line = &unit.lines[i];
    if contains_bytes(line, &marker("transfer::")) && !contains_bytes(line, &marker("assert!")) {
        let lo = if i >= 5 {
            i - 5
        } else {
            0
        };
        let hi = if n - lo >= 5 {
            lo + 5
        } else {
            n
        };
        !any_ownership_check(&unit.lines, lo, hi)
    } else {
        false
    }
}

/// Whether the missing-access-control rule fires on line `i`.
fn fires_missing_access_control(unit: &SourceUnit, i: usize, level: Strictness) -> (r: bool)
    requires
        i < unit.lines@.len(),
    ensures
        r == rule_missing_access_control(unit.lines.deep_view(), i as int, level),
{
    proof {
        crate::text::lemma_lines_deep_view(&unit.lines);
    }
    let n = unit.lines.len();
    let line = &unit.lines[i];
    if contains_bytes(line, &marker("public fun")) && !contains_bytes(line, &marker("entry"))
        && !matches!(level, Strictness::Basic) {
        let hi = if n - i >= 10 {
            i + 10
        } else {
            n
        };
        !any_access_control(&unit.lines, i, hi)
    } else {
        false
    }
}

/// Whether the reentrancy rule fires on line `i`.
fn fires_reentrancy(unit: &SourceUnit, i: usize) -> (r: bool)
    requires
        i < unit.lines@.len(),
    ensures
        r == rule_reentrancy(unit.lines.deep_view(), i as int),
{
    proof {
        crate::text::lemma_lines_deep_view(&unit.lines);
    }
    let n = unit.lines.len();
    let line = &unit.lines[i];
    if contains_bytes(line, &marker("transfer::")) || contains_bytes(line, &marker("coin::")) {
        let lo = if i >= 3 {
            i - 3
        } else {
            0
        };
        let hi = if n - lo >= 3 {
            lo + 3
        } else {
            n
        };
        !any_assignment(&unit.lines, lo, hi)
    } else {
        false
    }
}

/// Evaluate the unused-variable rule on line `i`; when it fires, return the
/// name of the unused binding.
fn check_unused_variable(unit: &SourceUnit, i: usize, level: Strictness) -> (r: Option<Vec<u8>>)
    requires
        i < unit.lines@.len(),
    ensures
        (r is Some) == rule_unused_variable(unit.lines.deep_view(), i as int, level),
        r matches Some(v) ==> v@ == spec_variable_name(unit.lines.deep_view()[i as int]).unwrap(),
        r matches Some(v) ==> forall|k: int| 0 <= k < v@.len() ==> is_word(#[trigger] v@[k]),
{
    proof {
        crate::text::lemma_lines_deep_view(&unit.lines);
    }
    let n = unit.lines.len();
    let line = &unit.lines[i];
    if matches!(level, Strictness::Strict) && contains_bytes(line, &marker("let "))
        && !contains_bytes(line, &marker("mut")) && !contains_bytes(line, &marker("_")) {
        match extract_variable_name(line) {
            Some(name) => {
                let hi = if n - i >= 21 {
                    i + 21
                } else {
                    n
                };
                if !any_mention(&unit.lines, i + 1, hi, &name) {
                    Some(name)
                } else {
                    None
                }
            },
            None => None,
        }
    } else {
        None
    }
}

/// Whether the missing-documentation rule fires on line `i`.
fn fires_missing_doc(unit: &SourceUnit, i: usize, level: Strictness) -> (r: bool)
    requires
        i < unit.lines@.len(),
    ensures
        r == rule_missing_doc(unit.lines.deep_view(), i as int, level),
{
    proof {
        crate::text::lemma_lines_deep_view(&unit.lines);
    }
    let line = &unit.lines[i];
    if matches!(level, Strictness::Strict) && contains_bytes(line, &marker("public fun")) {
        if i > 0 {
            !trimmed_starts_with_exec(&unit.lines[i - 1], &marker("///"))
        } else {
            true
        }
    } else {
        false
    }
}

/// Evaluate the five rules on line `i` of the file and append the findings
/// they emit, in rule order.
fn scan_line(unit: &SourceUnit, level: Strictness, i: usize, issues: &mut Vec<Finding>)
    requires
        i < unit.lines@.len(),
    ensures
        final(issues)@.map_values(|f: Finding| f@) == old(issues)@.map_values(|f: Finding| f@)
            + line_findings(unit.path@, unit.lines.deep_view(), level, i as int),
        forall|k: int|
            old(issues)@.len() <= k < final(issues)@.len() ==> #[trigger] finding_wf(
                final(issues)@[k]@,
            ),
        forall|k: int| 0 <= k < old(issues)@.len() ==> final(issues)@[k] == old(issues)@[k],
{
    let ghost lines_v = unit.lines.deep_view();
    let ghost before = issues@.map_values(|f: Finding| f@);
    let n = unit.lines.len();
    assert(i < n);

    if fires_unchecked_transfer(unit, i) {
        issues.push(
            Finding {
                rule: RuleKind::UncheckedTransfer,
                path: copy_bytes(&unit.path),
                line: i + 1,
                var_name: Vec::new(),
            },
        );
        proof {
            lemma_map_push(issues@.drop_last(), issues@.last());
            assert(issues@.drop_last() =~= issues@.subrange(0, issues@.len() - 1));
        }
    }

    if fires_missing_access_control(unit, i, level) {
        issues.push(
            Finding {
                rule: RuleKind::MissingAccessControl,
                path: copy_bytes(&unit.path),
                line: i + 1,
                var_name: Vec::new(),
            },
        );
        proof {
            lemma_map_push(issues@.drop_last(), issues@.last());
            assert(issues@.drop_last() =~= issues@.subrange(0, issues@.len() - 1));
        }
    }

    if fires_reentrancy(unit, i) {
        issues.push(
            Finding {
                rule: RuleKind::ReentrancyRisk,
                path: copy_bytes(&unit.path),
                line: i + 1,
                var_name: Vec::new(),
            },
        );
        proof {
            lemma_map_push(issues@.drop_last(), issues@.last());
            assert(issues@.drop_last() =~= issues@.subrange(0, issues@.len() - 1));
        }
    }

    match check_unused_variable(unit, i, level) {
        Some(name) => {
            issues.push(
                Finding {
                    rule: RuleKind::UnusedVariable,
                    path: copy_bytes(&unit.path),
                    line: i + 1,
                    var_name: name,
                },
            );
            proof {
                lemma_map_push(issues@.drop_last(), issues@.last());
                assert(issues@.drop_last() =~= issues@.subrange(0, issues@.len() - 1));
            }
        },
        None => {},
    }

    if fires_missing_doc(unit, i, level) {
        issues.push(
            Finding {
                rule: RuleKind::MissingDocumentation,
                path: copy_bytes(&unit.path),
                line: i + 1,
                var_name: Vec::new(),
            },
        );
        proof {
            lemma_map_push(issues@.drop_last(), issues@.last());
            assert(issues@.drop_last() =~= issues@.subrange(0, issues@.len() - 1));
        }
    }

    proof {
        assert(issues@.map_values(|f: Finding| f@) =~= before + line_findings(
            unit.path@,
            lines_v,
            level,
            i as int,
        ));
    }
}

/// Scan one file and append its findings, in discovery order, to `issues`.
pub fn scan_file_for_issues(unit: &SourceUnit, level: Strictness, issues: &mut Vec<Finding>)
    requires
        unit.wf(),
    ensures
        final(issues)@.map_values(|f: Finding| f@) == old(issues)@.map_values(|f: Finding| f@)
            + file_findings(unit.path@, spec_lines(unit.content@), level),
        forall|k: int|
            old(issues)@.len() <= k < final(issues)@.len() ==> #[trigger] finding_wf(
                final(issues)@[k]@,
            ),
        forall|k: int| 0 <= k < old(issues)@.len() ==> final(issues)@[k] == old(issues)@[k],
{
    let ghost lines_v = unit.lines.deep_view();
    let ghost base = issues@.map_values(|f: Finding| f@);
    let ghost base_len = issues@.len();

    let n = unit.lines.len();
    proof {
        crate::text::lemma_lines_deep_view(&unit.lines);
    }
    let mut i: usize = 0;
    while i < n
        invariant
            0 <= i <= n,
            n == unit.lines@.len(),
            unit.wf(),
            lines_v == unit.lines.deep_view(),
            base == old(issues)@.map_values(|f: Finding| f@),
            base_len == old(issues)@.len(),
            issues@.map_values(|f: Finding| f@) == base + findings_upto(
                unit.path@,
                lines_v,
                level,
                i as int,
            ),
            forall|k: int| base_len <= k < issues@.len() ==> #[trigger] finding_wf(issues@[k]@),
            forall|k: int| 0 <= k < base_len ==> issues@[k] == old(issues)@[k],
        decreases n - i,
    {
        proof {
            assert(issues@.map_values(|f: Finding| f@).len() == issues@.len());
            assert(base.len() == base_len);
            assert(issues@.len() == base_len + findings_upto(
                unit.path@,
                lines_v,
                level,
                i as int,
            ).len());
        }
        scan_line(unit, level, i, issues);
        proof {
            assert(base + findings_upto(unit.path@, lines_v, level, i + 1) =~= (base
                + findings_upto(unit.path@, lines_v, level, i as int)) + line_findings(
                unit.path@,
                lines_v,
                level,
                i as int,
            ));
        }
        i += 1;
    }
    proof {
        assert(lines_v == spec_lines(unit.content@));
    }
}

/// Scan a whole corpus at the given strictness level, in corpus order.
pub fn scan_sources(corpus: &Vec<SourceUnit>, level: Strictness) -> (issues: Vec<Finding>)
    requires
        corpus_wf(corpus@),
    ensures
        issues@.map_values(|f: Finding| f@) == spec_scan(corpus@, level),
        forall|k: int| 0 <= k < issues@.len() ==> #[trigger] finding_wf(issues@[k]@),
{
    let mut issues: Vec<Finding> = Vec::new();
    proof {
        assert(issues@.map_values(|f: Finding| f@) =~= corpus_findings_upto(corpus@, level, 0));
    }
    let mut k: usize = 0;
    while k < corpus.len()
        invariant
            0 <= k <= corpus@.len(),
            corpus_wf(corpus@),
            issues@.map_values(|f: Finding| f@) == corpus_findings_upto(corpus@, level, k as int),
            forall|j: int| 0 <= j < issues@.len() ==> #[trigger] finding_wf(issues@[j]@),
        decreases corpus@.len() - k,
    {
        let ghost before = issues@.map_values(|f: Finding| f@);
        scan_file_for_issues(&corpus[k], level, &mut issues);
        k += 1;
    }
    issues
}

/// The number of findings of each severity, in taxonomy order.
pub open spec fn count_sev(s: Seq<FindingView>, sev: Severity) -> int
    decreases s.len(),
{
    if s.len() == 0 {
        0
    } else {
        count_sev(s.drop_last(), sev) + if spec_severity(s.last().rule) == sev {
            1int
        } else {
            0int
        }
    }
}

/// Group findings by severity for the report summary: the counts of critical,
/// high, medium, low and informational findings, in that order.
pub fn severity_counts(issues: &Vec<Finding>) -> (r: (usize, usize, usize, usize, usize))
    ensures
        r.0 == count_sev(issues@.map_values(|f: Finding| f@), Severity::Critical),
        r.1 == count_sev(issues@.map_values(|f: Finding| f@), Severity::High),
        r.2 == count_sev(issues@.map_values(|f: Finding| f@), Severity::Medium),
        r.3 == count_sev(issues@.map_values(|f: Finding| f@), Severity::Low),
        r.4 == count_sev(issues@.map_values(|f: Finding| f@), Severity::Info),
{
    let ghost all = issues@.map_values(|f: Finding| f@);
    let mut critical: usize = 0;
    let mut high: usize = 0;
    let mut medium: usize = 0;
    let mut low: usize = 0;
    let mut info: usize = 0;
    let mut k: usize = 0;
    proof {
        lemma_count_sev_bounds(all.subrange(0, 0), Severity::Critical);
    }
    while k < issues.len()
        invariant
            0 <= k <= issues@.len(),
            all == issues@.map_values(|f: Finding| f@),
            critical == count_sev(all.subrange(0, k as int), Severity::Critical),
            high == count_sev(all.subrange(0, k as int), Severity::High),
            medium == count_sev(all.subrange(0, k as int), Severity::Medium),
            low == count_sev(all.subrange(0, k as int), Severity::Low),
            info == count_sev(all.subrange(0, k as int), Severity::Info),
            critical + high + medium + low + info <= k,
        decreases issues@.len() - k,
    {
        proof {
            assert(all.subrange(0, k + 1).drop_last() =~= all.subrange(0, k as int));
            assert(all.subrange(0, k + 1).last() == all[k as int]);
        }
        match issues[k].severity() {
            Severity::Critical => critical += 1,
            Severity::High => high += 1,
            Severity::Medium => medium += 1,
            Severity::Low => low += 1,
            Severity::Info => info += 1,
        }
        k += 1;
    }
    proof {
        assert(all.subrange(0, all.len() as int) =~= all);
    }
    (critical, high, medium, low, info)
}

proof fn lemma_count_sev_bounds(s: Seq<FindingView>, sev: Severity)
    ensures
        0 <= count_sev(s, sev) <= s.len(),
    decreases s.len(),
{
    if s.len() > 0 {
        lemma_count_sev_bounds(s.drop_last(), sev);
    }
}

/// The number of findings a given rule produced.
pub open spec fn count_rule(s: Seq<FindingView>, rule: RuleKind) -> int
    decreases s.len(),
{
    if s.len() == 0 {
        0
    } else {
        count_rule(s.drop_last(), rule) + if s.last().rule == rule {
            1int
        } else {
            0int
        }
    }
}

/// Severity count of a one-finding sequence.
pub proof fn lemma_count_sev_singleton(f: FindingView, sev: Severity)
    ensures
        count_sev(seq![f], sev) == if spec_severity(f.rule) == sev {
            1int
        } else {
            0int
        },
{
    assert(seq![f].drop_last() =~= Seq::<FindingView>::empty());
    assert(count_sev(Seq::<FindingView>::empty(), sev) == 0);
}

/// Rule count of a one-finding sequence.
pub proof fn lemma_count_rule_singleton(f: FindingView, rule: RuleKind)
    ensures
        count_rule(seq![f], rule) == if f.rule == rule {
            1int
        } else {
            0int
        },
{
    assert(seq![f].drop_last() =~= Seq::<FindingView>::empty());
    assert(count_rule(Seq::<FindingView>::empty(), rule) == 0);
}

/// Severity counts add up over concatenation.
pub proof fn lemma_count_sev_concat(a: Seq<FindingView>, b: Seq<FindingView>, sev: Severity)
    ensures
        count_sev(a + b, sev) == count_sev(a, sev) + count_sev(b, sev),
    decreases b.len(),
{
    if b.len() == 0 {
        assert(a + b =~= a);
    } else {
        assert((a + b).drop_last() =~= a + b.drop_last());
        assert((a + b).last() == b.last());
        lemma_count_sev_concat(a, b.drop_last(), sev);
    }
}

/// Rule counts add up over concatenation.
pub proof fn lemma_count_rule_concat(a: Seq<FindingView>, b: Seq<FindingView>, rule: RuleKind)
    ensures
        count_rule(a + b, rule) == count_rule(a, rule) + count_rule(b, rule),
    decreases b.len(),
{
    if b.len() == 0 {
        assert(a + b =~= a);
    } else {
        assert((a + b).drop_last() =~= a + b.drop_last());
        assert((a + b).last() == b.last());
        lemma_count_rule_concat(a, b.drop_last(), rule);
    }
}

/// Law: a corpus with no source files yields no findings, at any level.
pub proof fn lemma_scan_empty_corpus(level: Strictness)
    ensures
        spec_scan(Seq::<SourceUnit>::empty(), level) == Seq::<FindingView>::empty(),
{
}

/// Law: the scan is a function of the corpus and the level alone — two
/// outputs its contract admits for the same input are identical.
pub proof fn lemma_scan_deterministic(
    units: Seq<SourceUnit>,
    level: Strictness,
    r1: Seq<FindingView>,
    r2: Seq<FindingView>,
)
    requires
        r1 == spec_scan(units, level),
        r2 == spec_scan(units, level),
    ensures
        r1 == r2,
{
}

/// Law: a line holding a transfer marker, with no simple assignment anywhere
/// in its three-line look-behind window, contributes exactly one critical
/// finding — the reentrancy finding at that line — whatever the strictness
/// level.
pub proof fn lemma_reentrancy_always_critical(
    path: Seq<u8>,
    lines: Seq<Seq<u8>>,
    i: int,
    level: Strictness,
)
    requires
        0 <= i < lines.len(),
        contains_seq(lines[i], "transfer::".spec_bytes()),
        !(exists|j: int|
            win_lo(i, 3) <= j < win_hi(win_lo(i, 3) + 3, lines.len() as int)
                && #[trigger] assignment_line(lines[j])),
    ensures
        count_sev(line_findings(path, lines, level, i), Severity::Critical) == 1,
        line_findings(path, lines, level, i).contains(
            fv(RuleKind::ReentrancyRisk, path, i + 1, Seq::empty()),
        ),
{
    assert(rule_reentrancy(lines, i));
    let s1 = if rule_unchecked_transfer(lines, i) {
        seq![fv(RuleKind::UncheckedTransfer, path, i + 1, Seq::empty())]
    } else {
        Seq::<FindingView>::empty()
    };
    let s2 = if rule_missing_access_control(lines, i, level) {
        seq![fv(RuleKind::MissingAccessControl, path, i + 1, Seq::empty())]
    } else {
        Seq::<FindingView>::empty()
    };
    let s3 = seq![fv(RuleKind::ReentrancyRisk, path, i + 1, Seq::empty())];
    let s4 = if rule_unused_variable(lines, i, level) {
        seq![fv(RuleKind::UnusedVariable, path, i + 1, spec_variable_name(lines[i]).unwrap())]
    } else {
        Seq::<FindingView>::empty()
    };
    let s5 = if rule_missing_doc(lines, i, level) {
        seq![fv(RuleKind::MissingDocumentation, path, i + 1, Seq::empty())]
    } else {
        Seq::<FindingView>::empty()
    };
    lemma_count_sev_concat(s1, s2, Severity::Critical);
    lemma_count_sev_concat(s1 + s2, s3, Severity::Critical);
    lemma_count_sev_concat(s1 + s2 + s3, s4, Severity::Critical);
    lemma_count_sev_concat(s1 + s2 + s3 + s4, s5, Severity::Critical);
    if rule_unchecked_transfer(lines, i) {
        lemma_count_sev_singleton(
            fv(RuleKind::UncheckedTransfer, path, i + 1, Seq::empty()),
            Severity::Critical,
        );
    }
    if rule_missing_access_control(lines, i, level) {
        lemma_count_sev_singleton(
            fv(RuleKind::MissingAccessControl, path, i + 1, Seq::empty()),
            Severity::Critical,
        );
    }
    lemma_count_sev_singleton(
        fv(RuleKind::ReentrancyRisk, path, i + 1, Seq::empty()),
        Severity::Critical,
    );
    if rule_unused_variable(lines, i, level) {
        lemma_count_sev_singleton(
            fv(RuleKind::UnusedVariable, path, i + 1, spec_variable_name(lines[i]).unwrap()),
            Severity::Critical,
        );
    }
    if rule_missing_doc(lines, i, level) {
        lemma_count_sev_singleton(
            fv(RuleKind::MissingDocumentation, path, i + 1, Seq::empty()),
            Severity::Critical,
        );
    }
    assert(count_sev(s1, Severity::Critical) == 0);
    assert(count_sev(s2, Severity::Critical) == 0);
    assert(count_sev(s3, Severity::Critical) == 1);
    assert(count_sev(s4, Severity::Critical) == 0);
    assert(count_sev(s5, Severity::Critical) == 0);
    assert(line_findings(path, lines, level, i) == s1 + s2 + s3 + s4 + s5);
    let whole = s1 + s2 + s3 + s4 + s5;
    assert(whole[s1.len() + s2.len() as int] == fv(
        RuleKind::ReentrancyRisk,
        path,
        i + 1,
        Seq::empty(),
    ));
}

/// Law: at the basic level the missing-access-control rule never fires — a
/// file's findings hold no finding of that rule.
pub proof fn lemma_no_access_control_at_basic(path: Seq<u8>, lines: Seq<Seq<u8>>, n: int)
    requires
        n <= lines.len(),
    ensures
        count_rule(findings_upto(path, lines, Strictness::Basic, n), RuleKind::MissingAccessControl)
            == 0,
    decreases n,
{
    if n > 0 {
        lemma_no_access_control_at_basic(path, lines, n - 1);
        lemma_count_rule_concat(
            findings_upto(path, lines, Strictness::Basic, n - 1),
            line_findings(path, lines, Strictness::Basic, n - 1),
            RuleKind::MissingAccessControl,
        );
        lemma_line_rule_counts(path, lines, Strictness::Basic, n - 1);
    }
}

/// Law: the unused-variable and missing-documentation rules fire only at the
/// strict level.
pub proof fn lemma_strict_only_rules(
    path: Seq<u8>,
    lines: Seq<Seq<u8>>,
    level: Strictness,
    n: int,
)
    requires
        n <= lines.len(),
        level != Strictness::Strict,
    ensures
        count_rule(findings_upto(path, lines, level, n), RuleKind::UnusedVariable) == 0,
        count_rule(findings_upto(path, lines, level, n), RuleKind::MissingDocumentation) == 0,
    decreases n,
{
    if n > 0 {
        lemma_strict_only_rules(path, lines, level, n - 1);
        lemma_count_rule_concat(
            findings_upto(path, lines, level, n - 1),
            line_findings(path, lines, level, n - 1),
            RuleKind::UnusedVariable,
        );
        lemma_count_rule_concat(
            findings_upto(path, lines, level, n - 1),
            line_findings(path, lines, level, n - 1),
            RuleKind::MissingDocumentation,
        );
        lemma_line_rule_counts(path, lines, level, n - 1);
    }
}

/// Each rule contributes to one line's findings only when it fires, and then
/// exactly one finding of its own kind.
proof fn lemma_line_rule_counts(path: Seq<u8>, lines: Seq<Seq<u8>>, level: Strictness, i: int)
    ensures
        count_rule(line_findings(path, lines, level, i), RuleKind::MissingAccessControl) == (
        if rule_missing_access_control(lines, i, level) {
            1int
        } else {
            0int
        }),
        count_rule(line_findings(path, lines, level, i), RuleKind::UnusedVariable) == (
        if rule_unused_variable(lines, i, level) {
            1int
        } else {
            0int
        }),
        count_rule(line_findings(path, lines, level, i), RuleKind::MissingDocumentation) == (
        if rule_missing_doc(lines, i, level) {
            1int
        } else {
            0int
        }),
{
    let s1 = if rule_unchecked_transfer(lines, i) {
        seq![fv(RuleKind::UncheckedTransfer, path, i + 1, Seq::empty())]
    } else {
        Seq::<FindingView>::empty()
    };
    let s2 = if rule_missing_access_control(lines, i, level) {
        seq![fv(RuleKind::MissingAccessControl, path, i + 1, Seq::empty())]
    } else {
        Seq::<FindingView>::empty()
    };
    let s3 = if rule_reentrancy(lines, i) {
        seq![fv(RuleKind::ReentrancyRisk, path, i + 1, Seq::empty())]
    } else {
        Seq::<FindingView>::empty()
    };
    let s4 = if rule_unused_variable(lines, i, level) {
        seq![fv(RuleKind::UnusedVariable, path, i + 1, spec_variable_name(lines[i]).unwrap())]
    } else {
        Seq::<FindingView>::empty()
    };
    let s5 = if rule_missing_doc(lines, i, level) {
        seq![fv(RuleKind::MissingDocumentation, path, i + 1, Seq::empty())]
    } else {
        Seq::<FindingView>::empty()
    };
    assert(line_findings(path, lines, level, i) == s1 + s2 + s3 + s4 + s5);
    if rule_unchecked_transfer(lines, i) {
        let f = fv(RuleKind::UncheckedTransfer, path, i + 1, Seq::empty());
        lemma_count_rule_singleton(f, RuleKind::MissingAccessControl);
        lemma_count_rule_singleton(f, RuleKind::UnusedVariable);
        lemma_count_rule_singleton(f, RuleKind::MissingDocumentation);
    }
    if rule_missing_access_control(lines, i, level) {
        let f = fv(RuleKind::MissingAccessControl, path, i + 1, Seq::empty());
        lemma_count_rule_singleton(f, RuleKind::MissingAccessControl);
        lemma_count_rule_singleton(f, RuleKind::UnusedVariable);
        lemma_count_rule_singleton(f, RuleKind::MissingDocumentation);
    }
    if rule_reentrancy(lines, i) {
        let f = fv(RuleKind::ReentrancyRisk, path, i + 1, Seq::empty());
        lemma_count_rule_singleton(f, RuleKind::MissingAccessControl);
        lemma_count_rule_singleton(f, RuleKind::UnusedVariable);
        lemma_count_rule_singleton(f, RuleKind::MissingDocumentation);
    }
    if rule_unused_variable(lines, i, level) {
        let f = fv(RuleKind::UnusedVariable, path, i + 1, spec_variable_name(lines[i]).unwrap());
        lemma_count_rule_singleton(f, RuleKind::MissingAccessControl);
        lemma_count_rule_singleton(f, RuleKind::UnusedVariable);
        lemma_count_rule_singleton(f, RuleKind::MissingDocumentation);
    }
    if rule_missing_doc(lines, i, level) {
        let f = fv(RuleKind::MissingDocumentation, path, i + 1, Seq::empty());
        lemma_count_rule_singleton(f, RuleKind::MissingAccessControl);
        lemma_count_rule_singleton(f, RuleKind::UnusedVariable);
        lemma_count_rule_singleton(f, RuleKind::MissingDocumentation);
    }
    lemma_count_rule_concat(s1, s2, RuleKind::MissingAccessControl);
    lemma_count_rule_concat(s1 + s2, s3, RuleKind::MissingAccessControl);
    lemma_count_rule_concat(s1 + s2 + s3, s4, RuleKind::MissingAccessControl);
    lemma_count_rule_concat(s1 + s2 + s3 + s4, s5, RuleKind::MissingAccessControl);
    lemma_count_rule_concat(s1, s2, RuleKind::UnusedVariable);
    lemma_count_rule_concat(s1 + s2, s3, RuleKind::UnusedVariable);
    lemma_count_rule_concat(s1 + s2 + s3, s4, RuleKind::UnusedVariable);
    lemma_count_rule_concat(s1 + s2 + s3 + s4, s5, RuleKind::UnusedVariable);
    lemma_count_rule_concat(s1, s2, RuleKind::MissingDocumentation);
    lemma_count_rule_concat(s1 + s2, s3, RuleKind::MissingDocumentation);
    lemma_count_rule_concat(s1 + s2 + s3, s4, RuleKind::MissingDocumentation);
    lemma_count_rule_concat(s1 + s2 + s3 + s4, s5, RuleKind::MissingDocumentation);
}

} // verus!
