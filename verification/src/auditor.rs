//! Deterministic static security and gas analysis of contract source text.
//!
//! The analysis reads the source line by line and keeps a small state: the
//! findings so far, the running security score, and whether an external
//! Ether transfer was seen in the current function (and on which line).
//! `audit_scan` is that reading as a left fold over the lines; `audit_report`
//! is the report built from its final state.
use crate::text::{
    lemma_contains_occurs, lemma_contains_suffix, chars_to_string, contains, contains_str, decimal, decimal_exec, find, find_str, line_views, lines,
    lines_exec, push_chars, push_str, slice_chars, starts_with, starts_with_str, str_chars, trim,
    trim_exec,
};
use vstd::prelude::*;

verus! {

/// One issue found in the audited source.
#[derive(Debug, Clone, PartialEq, Eq)]
pub struct VulnerabilityFinding {
    pub severity: String,
    pub title: String,
    pub line_number: usize,
    pub code_snippet: String,
    pub description: String,
    pub recommendation: String,
}

/// The result of auditing one source text.
#[derive(Debug, Clone, PartialEq, Eq)]
pub struct AuditReport {
    pub target_name: String,
    pub total_lines: usize,
    pub total_vulnerabilities: usize,
    pub security_score: u32,
    pub gas_efficiency_grade: String,
    pub findings: Vec<VulnerabilityFinding>,
    pub summary: String,
}

/// Deterministic static security and gas analysis engine.
pub struct ContractAuditor;

/// A finding, with its texts as character sequences.
pub struct FindingView {
    pub severity: Seq<char>,
    pub title: Seq<char>,
    pub line_number: nat,
    pub code_snippet: Seq<char>,
    pub description: Seq<char>,
    pub recommendation: Seq<char>,
}

/// A report, with its texts as character sequences.
pub struct ReportView {
    pub target_name: Seq<char>,
    pub total_lines: nat,
    pub total_vulnerabilities: nat,
    pub security_score: nat,
    pub gas_efficiency_grade: Seq<char>,
    pub findings: Seq<FindingView>,
    pub summary: Seq<char>,
}

impl View for VulnerabilityFinding {
    type V = FindingView;

    open spec fn view(&self) -> FindingView {
        FindingView {
            severity: self.severity@,
            title: self.title@,
            line_number: self.line_number as nat,
            code_snippet: self.code_snippet@,
            description: self.description@,
            recommendation: self.recommendation@,
        }
    }
}

/// The views of a sequence of findings.
pub open spec fn findings_view(v: Seq<VulnerabilityFinding>) -> Seq<FindingView> {
    v.map_values(|f: VulnerabilityFinding| f@)
}

impl View for AuditReport {
    type V = ReportView;

    open spec fn view(&self) -> ReportView {
        ReportView {
            target_name: self.target_name@,
            total_lines: self.total_lines as nat,
            total_vulnerabilities: self.total_vulnerabilities as nat,
            security_score: self.security_score as nat,
            gas_efficiency_grade: self.gas_efficiency_grade@,
            findings: findings_view(self.findings@),
            summary: self.summary@,
        }
    }
}

// ---------------------------------------------------------------------------
// The rules, over one line
// ---------------------------------------------------------------------------

/// A line whose trimmed text opens with a comment marker is skipped.
pub open spec fn is_comment_line(t: Seq<char>) -> bool {
    starts_with(t, "//"@) || starts_with(t, "/*"@) || starts_with(t, "*"@)
}

/// A trimmed line that opens a function, modifier or contract ends the
/// previous function's context.
pub open spec fn is_boundary_line(t: Seq<char>) -> bool {
    starts_with(t, "function "@) || starts_with(t, "modifier "@) || starts_with(t, "contract "@)
}

/// The line sends Ether through a low-level call.
pub open spec fn has_external_call(l: Seq<char>) -> bool {
    contains(l, ".call{value:"@) || contains(l, ".call.value("@)
}

/// The line assigns to state (an `=` that is no comparison and no declaration).
pub open spec fn has_mutation(l: Seq<char>) -> bool {
    &&& (contains(l, "="@) || contains(l, "-="@) || contains(l, "+="@))
    &&& !contains(l, "=="@)
    &&& !contains(l, "!="@)
    &&& !contains(l, "<="@)
    &&& !contains(l, ">="@)
    &&& !contains(l, "bytes32"@)
    &&& !contains(l, "uint256"@)
    &&& !contains(l, "address"@)
    &&& !contains(l, "bool"@)
}

/// The text from a `.call` onward assigns to state.
pub open spec fn has_mutation_after_call(a: Seq<char>) -> bool {
    &&& (contains(a, "="@) || contains(a, "-="@) || contains(a, "+="@))
    &&& !contains(a, "=="@)
    &&& !contains(a, "!="@)
    &&& !contains(a, "bool success"@)
    &&& !contains(a, "bool s"@)
}

/// The line makes a low-level call whose result it does not check.
pub open spec fn has_unchecked_call(l: Seq<char>) -> bool {
    &&& contains(l, ".call("@)
    &&& !contains(l, "require("@)
    &&& !contains(l, "(bool success"@)
    &&& !contains(l, "(bool s"@)
}

/// The line uses the deprecated self-destruct opcode.
pub open spec fn has_selfdestruct(l: Seq<char>) -> bool {
    contains(l, "selfdestruct("@) || contains(l, "suicide("@)
}

/// The line delegates execution without an owner guard.
pub open spec fn has_unrestricted_delegatecall(l: Seq<char>) -> bool {
    contains(l, ".delegatecall("@) && !contains(l, "onlyOwner"@)
}

// ---------------------------------------------------------------------------
// The findings each rule reports
// ---------------------------------------------------------------------------

pub open spec fn tx_origin_finding(n: nat, t: Seq<char>) -> FindingView {
    FindingView {
        severity: "HIGH"@,
        title: "Insecure Use of tx.origin for Authorization"@,
        line_number: n,
        code_snippet: t,
        description: "tx.origin is vulnerable to phishing and intermediary proxy/contract attacks."@,
        recommendation: "Replace tx.origin with msg.sender for access control checks."@,
    }
}

/// The snippet of a reentrancy spanning lines: the call line and the mutation line.
pub open spec fn reentrancy_snippet(
    call_line: nat,
    call_text: Seq<char>,
    n: nat,
    t: Seq<char>,
) -> Seq<char> {
    "Call at line "@ + decimal(call_line) + ": "@ + call_text + "\nMutation at line "@ + decimal(
        n,
    ) + ": "@ + t
}

pub open spec fn reentrancy_finding(n: nat, snippet: Seq<char>) -> FindingView {
    FindingView {
        severity: "CRITICAL"@,
        title: "Reentrancy Vulnerability (Checks-Effects-Interactions Violation)"@,
        line_number: n,
        code_snippet: snippet,
        description: "State variable is modified after an external Ether transfer, allowing reentrant drains."@,
        recommendation: "Update state variables BEFORE external calls or inherit OpenZeppelin ReentrancyGuard."@,
    }
}

pub open spec fn same_line_reentrancy_finding(n: nat, t: Seq<char>) -> FindingView {
    FindingView {
        severity: "CRITICAL"@,
        title: "Reentrancy Vulnerability (Checks-Effects-Interactions Violation)"@,
        line_number: n,
        code_snippet: t,
        description: "State mutation follows external call on the same statement line."@,
        recommendation: "Enforce Checks-Effects-Interactions pattern."@,
    }
}

pub open spec fn unchecked_call_finding(n: nat, t: Seq<char>) -> FindingView {
    FindingView {
        severity: "MEDIUM"@,
        title: "Unchecked Low-Level Call Return Value"@,
        line_number: n,
        code_snippet: t,
        description: "Low-level .call() return boolean is not validated, risking silent execution failure."@,
        recommendation: "Validate call return: (bool success, ) = target.call(...); require(success);"@,
    }
}

pub open spec fn selfdestruct_finding(n: nat, t: Seq<char>) -> FindingView {
    FindingView {
        severity: "HIGH"@,
        title: "Deprecated selfdestruct Opcode Usage"@,
        line_number: n,
        code_snippet: t,
        description: "selfdestruct opcode is deprecated under EIP-6780 (Cancun hardfork)."@,
        recommendation: "Refactor logic to pause or deactivate contracts without opcode destruction."@,
    }
}

pub open spec fn delegatecall_finding(n: nat, t: Seq<char>) -> FindingView {
    FindingView {
        severity: "CRITICAL"@,
        title: "Unrestricted delegatecall Execution"@,
        line_number: n,
        code_snippet: t,
        description: "Arbitrary delegatecall allows callers to execute malicious bytecode within the contract's storage context."@,
        recommendation: "Restrict delegatecall execution targets to an immutable or owner-approved whitelist."@,
    }
}

// ---------------------------------------------------------------------------
// The scan
// ---------------------------------------------------------------------------

/// What the scan knows after some lines.
pub struct AuditState {
    pub findings: Seq<FindingView>,
    /// The security score before clamping: 100 less the penalties so far.
    pub score: int,
    /// The line of the last external call in the current function, 0 when none.
    pub call_line: nat,
    /// Whether an external call awaits a following state mutation.
    pub external_call_found: bool,
}

pub open spec fn initial_state() -> AuditState {
    AuditState { findings: Seq::empty(), score: 100, call_line: 0, external_call_found: false }
}

/// Records a finding and takes its penalty from the score.
pub open spec fn report(st: AuditState, f: FindingView, penalty: int) -> AuditState {
    AuditState { findings: st.findings.push(f), score: st.score - penalty, ..st }
}

/// The trimmed text of line number `k` (counted from 1), empty when there is none.
pub open spec fn line_text(ls: Seq<Seq<char>>, k: nat) -> Seq<char> {
    if 1 <= k && k <= ls.len() {
        trim(ls[k - 1])
    } else {
        Seq::empty()
    }
}

/// The reentrancy rule on line `idx` (counted from 0).
pub open spec fn reentrancy_rule(st: AuditState, ls: Seq<Seq<char>>, idx: nat) -> AuditState {
    let line = ls[idx as int];
    let n = idx + 1;
    let t = trim(line);
    if !st.external_call_found {
        st
    } else if n > st.call_line && has_mutation(line) {
        let snippet = reentrancy_snippet(st.call_line, line_text(ls, st.call_line), n, t);
        AuditState {
            external_call_found: false,
            ..report(st, reentrancy_finding(n, snippet), 45)
        }
    } else if n == st.call_line {
        match find(line, ".call"@) {
            Some(ci) => if has_mutation_after_call(line.skip(ci)) {
                AuditState {
                    external_call_found: false,
                    ..report(st, same_line_reentrancy_finding(n, t), 45)
                }
            } else {
                st
            },
            None => st,
        }
    } else {
        st
    }
}

/// All rules on line `idx` (counted from 0).
pub open spec fn audit_line(st: AuditState, ls: Seq<Seq<char>>, idx: nat) -> AuditState {
    let line = ls[idx as int];
    let n = idx + 1;
    let t = trim(line);
    if is_comment_line(t) {
        st
    } else {
        let s1 = if is_boundary_line(t) {
            AuditState { external_call_found: false, call_line: 0, ..st }
        } else {
            st
        };
        let s2 = if contains(line, "tx.origin"@) {
            report(s1, tx_origin_finding(n, t), 30)
        } else {
            s1
        };
        let s3 = if has_external_call(line) {
            AuditState { external_call_found: true, call_line: n, ..s2 }
        } else {
            s2
        };
        let s4 = reentrancy_rule(s3, ls, idx);
        let s5 = if has_unchecked_call(line) {
            report(s4, unchecked_call_finding(n, t), 15)
        } else {
            s4
        };
        let s6 = if has_selfdestruct(line) {
            report(s5, selfdestruct_finding(n, t), 20)
        } else {
            s5
        };
        if has_unrestricted_delegatecall(line) {
            report(s6, delegatecall_finding(n, t), 50)
        } else {
            s6
        }
    }
}

/// The state after reading the first `k` lines.
pub open spec fn audit_scan(ls: Seq<Seq<char>>, k: nat) -> AuditState
    decreases k,
{
    if k == 0 {
        initial_state()
    } else {
        audit_line(audit_scan(ls, (k - 1) as nat), ls, (k - 1) as nat)
    }
}

/// The gas-efficiency grade of a whole source text.
pub open spec fn gas_grade(code: Seq<char>) -> Seq<char> {
    if contains(code, "memory"@) && !contains(code, "calldata"@) {
        "B- (Use calldata for external function input arguments to reduce gas consumption)"@
    } else if contains(code, "uint8"@) || contains(code, "uint16"@) {
        "B+ (Verify struct packing to prevent 32-byte EVM word padding overhead)"@
    } else {
        "A+ (Optimized EVM word alignment and storage layout)"@
    }
}

/// A score clamped into 0..=100.
pub open spec fn clamp_score(s: int) -> nat {
    if s < 0 {
        0
    } else if s > 100 {
        100
    } else {
        s as nat
    }
}

/// The one-sentence summary of a report.
pub open spec fn audit_summary(
    target: Seq<char>,
    total_lines: nat,
    issues: nat,
    score: nat,
    grade: Seq<char>,
) -> Seq<char> {
    if issues == 0 {
        "Audit Clean for ["@ + target + "]: 0 vulnerabilities found across "@ + decimal(total_lines)
            + " lines. Security Score: "@ + decimal(score) + "/100. Gas Grade: "@ + grade
    } else {
        "Audit for ["@ + target + "]: "@ + decimal(issues) + " security issue(s) identified across "@
            + decimal(total_lines) + " lines. Security Score: "@ + decimal(score) + "/100."@
    }
}

/// The report on `code`, audited under the name `target`.
pub open spec fn audit_report(target: Seq<char>, code: Seq<char>) -> ReportView {
    let ls = lines(code);
    let st = audit_scan(ls, ls.len());
    let score = clamp_score(st.score);
    let grade = gas_grade(code);
    ReportView {
        target_name: target,
        total_lines: ls.len(),
        total_vulnerabilities: st.findings.len(),
        security_score: score,
        gas_efficiency_grade: grade,
        findings: st.findings,
        summary: audit_summary(target, ls.len(), st.findings.len(), score, grade),
    }
}

// ---------------------------------------------------------------------------
// Laws
// ---------------------------------------------------------------------------

/// What holds of the scan state after `m` lines of `ls`: every finding
/// costs at least 15 points, no finding means a full score, and the
/// findings name lines already read, none of them a comment line, in
/// reading order.
spec fn scan_inv(st: AuditState, ls: Seq<Seq<char>>, m: nat) -> bool {
    &&& m <= ls.len()
    &&& st.score <= 100 - 15 * st.findings.len()
    &&& st.findings.len() == 0 ==> st.score == 100
    &&& forall|i: int|
        0 <= i < st.findings.len() ==> 1 <= #[trigger] st.findings[i].line_number <= m
    &&& forall|i: int|
        0 <= i < st.findings.len() ==> !is_comment_line(
            trim(ls[#[trigger] st.findings[i].line_number - 1]),
        )
    &&& forall|i: int, j: int|
        0 <= i <= j < st.findings.len() ==> st.findings[i].line_number
            <= st.findings[j].line_number
}

proof fn lemma_report_keeps_inv(
    st: AuditState,
    ls: Seq<Seq<char>>,
    f: FindingView,
    penalty: int,
    m: nat,
)
    requires
        scan_inv(st, ls, m),
        f.line_number == m,
        1 <= m,
        !is_comment_line(trim(ls[m - 1])),
        penalty >= 15,
    ensures
        scan_inv(report(st, f, penalty), ls, m),
{
    let r = report(st, f, penalty);
    assert forall|i: int| 0 <= i < r.findings.len() implies 1 <= #[trigger] r.findings[i].line_number
        <= m by {
        if i < st.findings.len() {
            assert(r.findings[i] == st.findings[i]);
        }
    }
    assert forall|i: int| 0 <= i < r.findings.len() implies !is_comment_line(
        trim(ls[#[trigger] r.findings[i].line_number - 1]),
    ) by {
        if i < st.findings.len() {
            assert(r.findings[i] == st.findings[i]);
        }
    }
    assert forall|i: int, j: int| 0 <= i <= j < r.findings.len() implies r.findings[i].line_number
        <= r.findings[j].line_number by {
        if j < st.findings.len() {
            assert(r.findings[i] == st.findings[i]);
            assert(r.findings[j] == st.findings[j]);
        } else if i < st.findings.len() {
            assert(r.findings[i] == st.findings[i]);
            assert(st.findings[i].line_number <= m);
        }
    }
}

proof fn lemma_line_keeps_inv(st: AuditState, ls: Seq<Seq<char>>, idx: nat)
    requires
        idx < ls.len(),
        scan_inv(st, ls, idx),
    ensures
        scan_inv(audit_line(st, ls, idx), ls, idx + 1),
{
    let line = ls[idx as int];
    let n = idx + 1;
    let t = trim(line);
    assert(scan_inv(st, ls, n));
    if !is_comment_line(t) {
        let s1 = if is_boundary_line(t) {
            AuditState { external_call_found: false, call_line: 0, ..st }
        } else {
            st
        };
        assert(scan_inv(s1, ls, n));
        let s2 = if contains(line, "tx.origin"@) {
            lemma_report_keeps_inv(s1, ls, tx_origin_finding(n, t), 30, n);
            report(s1, tx_origin_finding(n, t), 30)
        } else {
            s1
        };
        let s3 = if has_external_call(line) {
            AuditState { external_call_found: true, call_line: n, ..s2 }
        } else {
            s2
        };
        assert(scan_inv(s3, ls, n));
        let s4 = reentrancy_rule(s3, ls, idx);
        if s3.external_call_found {
            if n > s3.call_line && has_mutation(line) {
                let snippet = reentrancy_snippet(s3.call_line, line_text(ls, s3.call_line), n, t);
                lemma_report_keeps_inv(s3, ls, reentrancy_finding(n, snippet), 45, n);
            } else if n == s3.call_line {
                if let Some(ci) = find(line, ".call"@) {
                    if has_mutation_after_call(line.skip(ci)) {
                        lemma_report_keeps_inv(s3, ls, same_line_reentrancy_finding(n, t), 45, n);
                    }
                }
            }
        }
        assert(scan_inv(s4, ls, n));
        let s5 = if has_unchecked_call(line) {
            lemma_report_keeps_inv(s4, ls, unchecked_call_finding(n, t), 15, n);
            report(s4, unchecked_call_finding(n, t), 15)
        } else {
            s4
        };
        let s6 = if has_selfdestruct(line) {
            lemma_report_keeps_inv(s5, ls, selfdestruct_finding(n, t), 20, n);
            report(s5, selfdestruct_finding(n, t), 20)
        } else {
            s5
        };
        if has_unrestricted_delegatecall(line) {
            lemma_report_keeps_inv(s6, ls, delegatecall_finding(n, t), 50, n);
        }
    }
}

proof fn lemma_scan_inv(ls: Seq<Seq<char>>, k: nat)
    requires
        k <= ls.len(),
    ensures
        scan_inv(audit_scan(ls, k), ls, k),
    decreases k,
{
    if k > 0 {
        lemma_scan_inv(ls, (k - 1) as nat);
        lemma_line_keeps_inv(audit_scan(ls, (k - 1) as nat), ls, (k - 1) as nat);
    }
}

/// The score tells whether anything was found: a report scores the full 100
/// exactly when it holds no finding, and never more; its vulnerability
/// count is the number of its findings.
pub proof fn lemma_full_score_iff_clean(target: Seq<char>, code: Seq<char>)
    ensures
        audit_report(target, code).security_score <= 100,
        audit_report(target, code).security_score == 100 <==> audit_report(
            target,
            code,
        ).findings.len() == 0,
        audit_report(target, code).total_vulnerabilities == audit_report(
            target,
            code,
        ).findings.len(),
{
    let ls = lines(code);
    lemma_scan_inv(ls, ls.len());
}

/// Every finding points at a line of the audited text (counted from 1), and
/// the findings come in the order of their lines.
pub proof fn lemma_findings_follow_lines(target: Seq<char>, code: Seq<char>)
    ensures
        forall|i: int|
            0 <= i < audit_report(target, code).findings.len() ==> 1 <= #[trigger] audit_report(
                target,
                code,
            ).findings[i].line_number <= audit_report(target, code).total_lines,
        forall|i: int, j: int|
            0 <= i <= j < audit_report(target, code).findings.len() ==> audit_report(
                target,
                code,
            ).findings[i].line_number <= audit_report(target, code).findings[j].line_number,
{
    let ls = lines(code);
    lemma_scan_inv(ls, ls.len());
}

/// Comment lines are skipped: no finding points at a line whose trimmed
/// text opens with `//`, `/*` or `*`.
pub proof fn lemma_findings_skip_comments(target: Seq<char>, code: Seq<char>)
    ensures
        forall|i: int|
            0 <= i < audit_report(target, code).findings.len() ==> !is_comment_line(
                trim(lines(code)[#[trigger] audit_report(target, code).findings[i].line_number - 1]),
            ),
{
    let ls = lines(code);
    lemma_scan_inv(ls, ls.len());
}

proof fn lemma_compound_assign_contains_eq(h: Seq<char>)
    ensures
        contains(h, "-="@) || contains(h, "+="@) ==> contains(h, "="@),
{
    reveal_strlit("=");
    reveal_strlit("-=");
    reveal_strlit("+=");
    if contains(h, "-="@) {
        lemma_contains_occurs(h, "-="@, 0);
        let j = find(h, "-="@)->0;
        assert(h.subrange(j, j + 2) == "-="@);
        assert(h[j + 1] == h.subrange(j, j + 2)[1]);
        assert("-="@[1] == '=');
        assert("="@.len() == 1 && "="@[0] == '=');
        assert(h.subrange(j + 1, j + 2) =~= "="@);
        lemma_contains_occurs(h, "="@, j + 1);
    } else if contains(h, "+="@) {
        lemma_contains_occurs(h, "+="@, 0);
        let j = find(h, "+="@)->0;
        assert(h.subrange(j, j + 2) == "+="@);
        assert(h[j + 1] == h.subrange(j, j + 2)[1]);
        assert("+="@[1] == '=');
        assert("="@.len() == 1 && "="@[0] == '=');
        assert(h.subrange(j + 1, j + 2) =~= "="@);
        lemma_contains_occurs(h, "="@, j + 1);
    }
}

/// Reading a line only appends findings.
proof fn lemma_line_appends(st: AuditState, ls: Seq<Seq<char>>, idx: nat)
    requires
        idx < ls.len(),
    ensures
        audit_line(st, ls, idx).findings.len() >= st.findings.len(),
        audit_line(st, ls, idx).findings.subrange(0, st.findings.len() as int) == st.findings,
{
    let r = audit_line(st, ls, idx);
    assert(r.findings.subrange(0, st.findings.len() as int) =~= st.findings);
}

/// The findings after `k1` lines stay, in place, after `k2 >= k1` lines.
proof fn lemma_scan_prefix(ls: Seq<Seq<char>>, k1: nat, k2: nat)
    requires
        k1 <= k2 <= ls.len(),
    ensures
        audit_scan(ls, k2).findings.len() >= audit_scan(ls, k1).findings.len(),
        audit_scan(ls, k2).findings.subrange(0, audit_scan(ls, k1).findings.len() as int)
            == audit_scan(ls, k1).findings,
    decreases k2 - k1,
{
    if k1 < k2 {
        lemma_scan_prefix(ls, k1, (k2 - 1) as nat);
        lemma_line_appends(audit_scan(ls, (k2 - 1) as nat), ls, (k2 - 1) as nat);
        let a = audit_scan(ls, k1).findings;
        let b = audit_scan(ls, (k2 - 1) as nat).findings;
        let c = audit_scan(ls, k2).findings;
        assert(c.subrange(0, a.len() as int) =~= b.subrange(0, a.len() as int));
    }
}

/// The title every reentrancy finding carries.
pub open spec fn reentrancy_title() -> Seq<char> {
    "Reentrancy Vulnerability (Checks-Effects-Interactions Violation)"@
}

/// Reentrancy: when a line of code sends Ether through `.call{value:` or the
/// legacy `.call.value(` (without itself assigning anything), and the very
/// next line, in the same function and sending nothing, assigns state, the
/// report holds a CRITICAL reentrancy finding on that next line (lines
/// counted from 1), whatever else the code holds.
pub proof fn lemma_state_write_after_ether_call_is_reentrancy(
    target: Seq<char>,
    code: Seq<char>,
    a: nat,
)
    requires
        a + 1 < lines(code).len(),
        !is_comment_line(trim(lines(code)[a as int])),
        contains(lines(code)[a as int], ".call.value("@) || contains(
            lines(code)[a as int],
            ".call{value:"@,
        ),
        !contains(lines(code)[a as int], "="@),
        !is_comment_line(trim(lines(code)[(a + 1) as int])),
        !is_boundary_line(trim(lines(code)[(a + 1) as int])),
        !contains(lines(code)[(a + 1) as int], ".call.value("@),
        !contains(lines(code)[(a + 1) as int], ".call{value:"@),
        has_mutation(lines(code)[(a + 1) as int]),
    ensures
        exists|i: int|
            0 <= i < audit_report(target, code).findings.len() && #[trigger] audit_report(
                target,
                code,
            ).findings[i].line_number == a + 2 && audit_report(target, code).findings[i].severity
                == "CRITICAL"@ && audit_report(target, code).findings[i].title
                == reentrancy_title(),
{
    let ls = lines(code);
    // Line `a`: the call is recorded and nothing resets it.
    let st = audit_scan(ls, a);
    let line = ls[a as int];
    let n = a + 1;
    let t = trim(line);
    let s1 = if is_boundary_line(t) {
        AuditState { external_call_found: false, call_line: 0, ..st }
    } else {
        st
    };
    let s2 = if contains(line, "tx.origin"@) {
        report(s1, tx_origin_finding(n, t), 30)
    } else {
        s1
    };
    let s3 = AuditState { external_call_found: true, call_line: n, ..s2 };
    assert(has_external_call(line));
    if let Some(ci) = find(line, ".call"@) {
        lemma_contains_occurs(line, ".call"@, 0);
        if contains(line.skip(ci), "="@) {
            lemma_contains_suffix(line, ci, "="@);
        }
        lemma_compound_assign_contains_eq(line.skip(ci));
        assert(!has_mutation_after_call(line.skip(ci)));
    }
    assert(reentrancy_rule(s3, ls, a) == s3);
    let sa = audit_scan(ls, n);
    assert(sa == audit_line(st, ls, a));
    assert(sa.external_call_found && sa.call_line == n);
    // Line `a + 1`: the state write after the call is reported.
    let line2 = ls[n as int];
    let m = n + 1;
    let t2 = trim(line2);
    let u2 = if contains(line2, "tx.origin"@) {
        report(sa, tx_origin_finding(m, t2), 30)
    } else {
        sa
    };
    assert(!has_external_call(line2));
    let snippet = reentrancy_snippet(n, line_text(ls, n), m, t2);
    let u4 = reentrancy_rule(u2, ls, n);
    assert(u4 == AuditState {
        external_call_found: false,
        ..report(u2, reentrancy_finding(m, snippet), 45)
    });
    let k = u2.findings.len() as int;
    assert(u4.findings[k] == reentrancy_finding(m, snippet));
    let sb = audit_scan(ls, m);
    assert(sb == audit_line(sa, ls, n));
    lemma_line_appends(sa, ls, n);
    let u5 = if has_unchecked_call(line2) {
        report(u4, unchecked_call_finding(m, t2), 15)
    } else {
        u4
    };
    let u6 = if has_selfdestruct(line2) {
        report(u5, selfdestruct_finding(m, t2), 20)
    } else {
        u5
    };
    assert(u6.findings[k] == u4.findings[k]);
    assert(sb.findings[k] == reentrancy_finding(m, snippet));
    lemma_scan_prefix(ls, m, ls.len());
    let fin = audit_scan(ls, ls.len()).findings;
    assert(fin.subrange(0, sb.findings.len() as int)[k] == fin[k]);
    assert(fin[k] == reentrancy_finding(m, snippet));
    assert(audit_report(target, code).findings == fin);
    assert(audit_report(target, code).findings[k].line_number == a + 2);
}

// ---------------------------------------------------------------------------
// Execution
// ---------------------------------------------------------------------------

/// The executable scan state.
struct Scanner {
    findings: Vec<VulnerabilityFinding>,
    score: i128,
    call_line: usize,
    external_call_found: bool,
}

impl View for Scanner {
    type V = AuditState;

    closed spec fn view(&self) -> AuditState {
        AuditState {
            findings: findings_view(self.findings@),
            score: self.score as int,
            call_line: self.call_line as nat,
            external_call_found: self.external_call_found,
        }
    }
}

impl Scanner {
    /// Bounds that hold after `k` lines: each line costs at most 160 points,
    /// and a pending call lies on a line already read.
    closed spec fn bounded(&self, k: nat) -> bool {
        &&& 100 - 160 * k <= self.score <= 100
        &&& self.call_line <= k
        &&& self.external_call_found ==> 1 <= self.call_line
        &&& self.findings.len() <= 5 * k
    }

    fn add(&mut self, f: VulnerabilityFinding, penalty: i128, Ghost(k): Ghost<nat>)
        requires
            0 <= penalty <= 160,
            k <= usize::MAX,
            100 - 160 * (k + 1) <= old(self).score - penalty,
            old(self).findings.len() < 5 * (k + 1),
        ensures
            final(self)@ == report(old(self)@, f@, penalty as int),
            final(self).score == old(self).score - penalty,
            final(self).findings.len() == old(self).findings.len() + 1,
            final(self).call_line == old(self).call_line,
            final(self).external_call_found == old(self).external_call_found,
    {
        let ghost before = findings_view(self.findings@);
        self.findings.push(f);
        assert(findings_view(self.findings@) =~= before.push(f@));
        self.score = self.score - penalty;
    }

    fn reentrancy_rule(&mut self, ls: &Vec<Vec<char>>, idx: usize, line: &Vec<char>, t: &Vec<char>)
        requires
            idx < ls.len(),
            line@ == ls@[idx as int]@,
            t@ == trim(line@),
            100 - 160 * (idx + 1) <= old(self).score - 45,
            old(self).findings.len() < 5 * (idx + 1),
            old(self).call_line <= idx + 1,
            old(self).external_call_found ==> 1 <= old(self).call_line,
        ensures
            final(self)@ == reentrancy_rule(old(self)@, line_views(ls@), idx as nat),
            final(self).score >= old(self).score - 45,
            final(self).score <= old(self).score,
            final(self).findings.len() <= old(self).findings.len() + 1,
            final(self).call_line == old(self).call_line,
            final(self).external_call_found ==> old(self).external_call_found,
    {
        let ghost lv = line_views(ls@);
        assert(lv[idx as int] == line@);
        if !self.external_call_found {
            return;
        }
        let n = idx + 1;
        if n > self.call_line && has_mutation_exec(line) {
            let cl = self.call_line;
            let call_line_chars = &ls[cl - 1];
            let call_text = trim_exec(call_line_chars);
            assert(call_text@ == line_text(lv, cl as nat));
            let mut snippet: Vec<char> = Vec::new();
            push_str(&mut snippet, "Call at line ");
            let d1 = decimal_exec(cl as u64);
            push_chars(&mut snippet, &d1);
            push_str(&mut snippet, ": ");
            push_chars(&mut snippet, &call_text);
            push_str(&mut snippet, "\nMutation at line ");
            let d2 = decimal_exec(n as u64);
            push_chars(&mut snippet, &d2);
            push_str(&mut snippet, ": ");
            push_chars(&mut snippet, t);
            assert(snippet@ == reentrancy_snippet(cl as nat, call_text@, n as nat, t@));
            let f = VulnerabilityFinding {
                severity: String::from_str("CRITICAL"),
                title: String::from_str("Reentrancy Vulnerability (Checks-Effects-Interactions Violation)"),
                line_number: n,
                code_snippet: chars_to_string(&snippet),
                description: String::from_str("State variable is modified after an external Ether transfer, allowing reentrant drains."),
                recommendation: String::from_str("Update state variables BEFORE external calls or inherit OpenZeppelin ReentrancyGuard."),
            };
            self.add(f, 45, Ghost(idx as nat));
            self.external_call_found = false;
        } else if n == self.call_line {
            match find_str(line, ".call") {
                Some(ci) => {
                    let after = slice_chars(line, ci, line.len());
                    assert(after@ == line@.skip(ci as int));
                    if has_mutation_after_call_exec(&after) {
                        let f = VulnerabilityFinding {
                            severity: String::from_str("CRITICAL"),
                            title: String::from_str("Reentrancy Vulnerability (Checks-Effects-Interactions Violation)"),
                            line_number: n,
                            code_snippet: chars_to_string(t),
                            description: String::from_str("State mutation follows external call on the same statement line."),
                            recommendation: String::from_str("Enforce Checks-Effects-Interactions pattern."),
                        };
                        self.add(f, 45, Ghost(idx as nat));
                        self.external_call_found = false;
                    }
                },
                None => {},
            }
        }
    }

    /// Reads line `idx` (counted from 0).
    fn scan_line(&mut self, ls: &Vec<Vec<char>>, idx: usize)
        requires
            idx < ls.len(),
            old(self).bounded(idx as nat),
        ensures
            final(self)@ == audit_line(old(self)@, line_views(ls@), idx as nat),
            final(self).bounded((idx + 1) as nat),
    {
        let ghost lv = line_views(ls@);
        let line = &ls[idx];
        assert(lv[idx as int] == line@);
        let n = idx + 1;
        let t = trim_exec(line);
        if is_comment_line_exec(&t) {
            return;
        }
        if is_boundary_line_exec(&t) {
            self.external_call_found = false;
            self.call_line = 0;
        }
        if contains_str(line, "tx.origin") {
            let f = VulnerabilityFinding {
                severity: String::from_str("HIGH"),
                title: String::from_str("Insecure Use of tx.origin for Authorization"),
                line_number: n,
                code_snippet: chars_to_string(&t),
                description: String::from_str("tx.origin is vulnerable to phishing and intermediary proxy/contract attacks."),
                recommendation: String::from_str("Replace tx.origin with msg.sender for access control checks."),
            };
            self.add(f, 30, Ghost(idx as nat));
        }
        if contains_str(line, ".call{value:") || contains_str(line, ".call.value(") {
            self.external_call_found = true;
            self.call_line = n;
        }
        self.reentrancy_rule(ls, idx, line, &t);
        if has_unchecked_call_exec(line) {
            let f = VulnerabilityFinding {
                severity: String::from_str("MEDIUM"),
                title: String::from_str("Unchecked Low-Level Call Return Value"),
                line_number: n,
                code_snippet: chars_to_string(&t),
                description: String::from_str("Low-level .call() return boolean is not validated, risking silent execution failure."),
                recommendation: String::from_str("Validate call return: (bool success, ) = target.call(...); require(success);"),
            };
            self.add(f, 15, Ghost(idx as nat));
        }
        if contains_str(line, "selfdestruct(") || contains_str(line, "suicide(") {
            let f = VulnerabilityFinding {
                severity: String::from_str("HIGH"),
                title: String::from_str("Deprecated selfdestruct Opcode Usage"),
                line_number: n,
                code_snippet: chars_to_string(&t),
                description: String::from_str("selfdestruct opcode is deprecated under EIP-6780 (Cancun hardfork)."),
                recommendation: String::from_str("Refactor logic to pause or deactivate contracts without opcode destruction."),
            };
            self.add(f, 20, Ghost(idx as nat));
        }
        if contains_str(line, ".delegatecall(") && !contains_str(line, "onlyOwner") {
            let f = VulnerabilityFinding {
                severity: String::from_str("CRITICAL"),
                title: String::from_str("Unrestricted delegatecall Execution"),
                line_number: n,
                code_snippet: chars_to_string(&t),
                description: String::from_str("Arbitrary delegatecall allows callers to execute malicious bytecode within the contract's storage context."),
                recommendation: String::from_str("Restrict delegatecall execution targets to an immutable or owner-approved whitelist."),
            };
            self.add(f, 50, Ghost(idx as nat));
        }
    }
}

fn is_comment_line_exec(t: &Vec<char>) -> (r: bool)
    ensures
        r == is_comment_line(t@),
{
    starts_with_str(t, "//") || starts_with_str(t, "/*") || starts_with_str(t, "*")
}

fn is_boundary_line_exec(t: &Vec<char>) -> (r: bool)
    ensures
        r == is_boundary_line(t@),
{
    starts_with_str(t, "function ") || starts_with_str(t, "modifier ") || starts_with_str(
        t,
        "contract ",
    )
}

fn has_mutation_exec(l: &Vec<char>) -> (r: bool)
    ensures
        r == has_mutation(l@),
{
    (contains_str(l, "=") || contains_str(l, "-=") || contains_str(l, "+=")) && !contains_str(
        l,
        "==",
    ) && !contains_str(l, "!=") && !contains_str(l, "<=") && !contains_str(l, ">=")
        && !contains_str(l, "bytes32") && !contains_str(l, "uint256") && !contains_str(
        l,
        "address",
    ) && !contains_str(l, "bool")
}

fn has_mutation_after_call_exec(a: &Vec<char>) -> (r: bool)
    ensures
        r == has_mutation_after_call(a@),
{
    (contains_str(a, "=") || contains_str(a, "-=") || contains_str(a, "+=")) && !contains_str(
        a,
        "==",
    ) && !contains_str(a, "!=") && !contains_str(a, "bool success") && !contains_str(a, "bool s")
}

fn has_unchecked_call_exec(l: &Vec<char>) -> (r: bool)
    ensures
        r == has_unchecked_call(l@),
{
    contains_str(l, ".call(") && !contains_str(l, "require(") && !contains_str(l, "(bool success")
        && !contains_str(l, "(bool s")
}

fn gas_grade_exec(code: &Vec<char>) -> (r: String)
    ensures
        r@ == gas_grade(code@),
{
    if contains_str(code, "memory") && !contains_str(code, "calldata") {
        String::from_str(
            "B- (Use calldata for external function input arguments to reduce gas consumption)",
        )
    } else if contains_str(code, "uint8") || contains_str(code, "uint16") {
        String::from_str("B+ (Verify struct packing to prevent 32-byte EVM word padding overhead)")
    } else {
        String::from_str("A+ (Optimized EVM word alignment and storage layout)")
    }
}

impl ContractAuditor {
    /// Audits `code` under the name `target_name`: every rule on every line
    /// that is not a comment, the gas grade of the whole text, the clamped
    /// score and the summary, exactly as `audit_report` describes them.
    pub fn audit_source(target_name: &str, code: &str) -> (r: AuditReport)
        ensures
            r@ == audit_report(target_name@, code@),
    {
        let code_c = str_chars(code);
        let ls = lines_exec(&code_c);
        let ghost lv = line_views(ls@);
        let total_lines = ls.len();
        let mut sc = Scanner {
            findings: Vec::new(),
            score: 100,
            call_line: 0,
            external_call_found: false,
        };
        assert(findings_view(sc.findings@) =~= Seq::empty());
        assert(sc@ =~= initial_state());
        let mut idx: usize = 0;
        while idx < total_lines
            invariant
                total_lines == ls.len(),
                lv == line_views(ls@),
                idx <= total_lines,
                sc@ == audit_scan(lv, idx as nat),
                sc.bounded(idx as nat),
            decreases total_lines - idx,
        {
            sc.scan_line(&ls, idx);
            idx = idx + 1;
        }
        let grade = gas_grade_exec(&code_c);
        let clamped: u32 = if sc.score < 0 {
            0
        } else if sc.score > 100 {
            100
        } else {
            sc.score as u32
        };
        let issues = sc.findings.len();
        let tc = str_chars(target_name);
        let mut summary: Vec<char> = Vec::new();
        if issues == 0 {
            push_str(&mut summary, "Audit Clean for [");
            push_chars(&mut summary, &tc);
            push_str(&mut summary, "]: 0 vulnerabilities found across ");
            let d = decimal_exec(total_lines as u64);
            push_chars(&mut summary, &d);
            push_str(&mut summary, " lines. Security Score: ");
            let d = decimal_exec(clamped as u64);
            push_chars(&mut summary, &d);
            push_str(&mut summary, "/100. Gas Grade: ");
            let g = str_chars(grade.as_str());
            push_chars(&mut summary, &g);
        } else {
            push_str(&mut summary, "Audit for [");
            push_chars(&mut summary, &tc);
            push_str(&mut summary, "]: ");
            let d = decimal_exec(issues as u64);
            push_chars(&mut summary, &d);
            push_str(&mut summary, " security issue(s) identified across ");
            let d = decimal_exec(total_lines as u64);
            push_chars(&mut summary, &d);
            push_str(&mut summary, " lines. Security Score: ");
            let d = decimal_exec(clamped as u64);
            push_chars(&mut summary, &d);
            push_str(&mut summary, "/100.");
        }
        let ghost st = audit_scan(lv, lv.len());
        assert(summary@ == audit_summary(
            target_name@,
            total_lines as nat,
            issues as nat,
            clamped as nat,
            grade@,
        ));
        AuditReport {
            target_name: String::from_str(target_name),
            total_lines,
            total_vulnerabilities: issues,
            security_score: clamped,
            gas_efficiency_grade: grade,
            findings: sc.findings,
            summary: chars_to_string(&summary),
        }
    }
}

/// The clean report a rogue worker forges for `code`: no findings, a full
/// score and the top gas grade, whatever the code holds.
pub open spec fn forged_report_view(target: Seq<char>, code: Seq<char>) -> ReportView {
    ReportView {
        target_name: target,
        total_lines: lines(code).len(),
        total_vulnerabilities: 0,
        security_score: 100,
        gas_efficiency_grade: "A+"@,
        findings: Seq::empty(),
        summary: "Forged clean audit report: 0 vulnerabilities found"@,
    }
}

/// Forges a clean report for `code` under the name `file_name`, as a rogue
/// worker does to collect a bounty without auditing.
pub fn forged_report(file_name: &str, code: &str) -> (r: AuditReport)
    ensures
        r@ == forged_report_view(file_name@, code@),
        r.findings@.len() == 0,
{
    let code_c = str_chars(code);
    let ls = lines_exec(&code_c);
    let r = AuditReport {
        target_name: String::from_str(file_name),
        total_lines: ls.len(),
        total_vulnerabilities: 0,
        security_score: 100,
        gas_efficiency_grade: String::from_str("A+"),
        findings: Vec::new(),
        summary: String::from_str("Forged clean audit report: 0 vulnerabilities found"),
    };
    assert(findings_view(r.findings@) =~= Seq::<FindingView>::empty());
    r
}

} // verus!
