//! The findings model: one `CheckResult` per check, collected in order in a
//! `Report`, with the summary that is derived from them.

use crate::text::{decimal, decimal_text};
use vstd::prelude::*;
use vstd::string::*;

verus! {

/// Severity of a finding.
#[derive(Debug, Clone, Copy, PartialEq, Eq, Structural)]
pub enum Status {
    Pass,
    Fail,
    Warn,
}

/// One finding of one check.
#[derive(Debug, Clone)]
pub struct CheckResult {
    pub category: String,
    pub message: String,
    pub status: Status,
}

/// What a `CheckResult` stands for: its two texts and its severity.
pub struct Finding {
    pub category: Seq<char>,
    pub message: Seq<char>,
    pub status: Status,
}

impl View for CheckResult {
    type V = Finding;

    open spec fn view(&self) -> Finding {
        Finding { category: self.category@, message: self.message@, status: self.status }
    }
}

/// The findings of one run, in the order in which the checks were made.
pub struct Report {
    pub results: Vec<CheckResult>,
}

impl View for Report {
    type V = Seq<Finding>;

    open spec fn view(&self) -> Seq<Finding> {
        Seq::new(self.results@.len(), |i: int| self.results@[i]@)
    }
}

/// The three-way summary of a report.
#[derive(Debug, Clone, Copy, PartialEq, Eq, Structural)]
pub enum Verdict {
    Ready,
    ReadyWithWarnings,
    NotReady,
}

/// How many findings of each severity a report holds.
#[derive(Debug, Clone, Copy, PartialEq, Eq, Structural)]
pub struct Tally {
    pub passed: usize,
    pub failed: usize,
    pub warned: usize,
}

pub open spec fn finding(category: Seq<char>, message: Seq<char>, status: Status) -> Finding {
    Finding { category, message, status }
}

pub open spec fn passed(category: Seq<char>, message: Seq<char>) -> Finding {
    finding(category, message, Status::Pass)
}

pub open spec fn failed(category: Seq<char>, message: Seq<char>) -> Finding {
    finding(category, message, Status::Fail)
}

pub open spec fn warned(category: Seq<char>, message: Seq<char>) -> Finding {
    finding(category, message, Status::Warn)
}

/// At least one finding is a failure.
pub open spec fn has_failure(results: Seq<Finding>) -> bool {
    exists|i: int| 0 <= i < results.len() && results[i].status == Status::Fail
}

/// At least one finding is a warning.
pub open spec fn has_warning(results: Seq<Finding>) -> bool {
    exists|i: int| 0 <= i < results.len() && results[i].status == Status::Warn
}

/// The number of findings of one severity.
pub open spec fn count_status(results: Seq<Finding>, status: Status) -> nat
    decreases results.len(),
{
    if results.len() == 0 {
        0
    } else {
        count_status(results.drop_last(), status) + if results.last().status == status {
            1nat
        } else {
            0nat
        }
    }
}

/// Not ready with a failure; ready with warnings without a failure but with a
/// warning; ready otherwise.
pub open spec fn verdict_of(results: Seq<Finding>) -> Verdict {
    if has_failure(results) {
        Verdict::NotReady
    } else if has_warning(results) {
        Verdict::ReadyWithWarnings
    } else {
        Verdict::Ready
    }
}

pub open spec fn status_tag(status: Status) -> Seq<char> {
    match status {
        Status::Pass => "[PASS]"@,
        Status::Fail => "[FAIL]"@,
        Status::Warn => "[WARN]"@,
    }
}

pub open spec fn verdict_sentence(verdict: Verdict) -> Seq<char> {
    match verdict {
        Verdict::Ready => "Release is ready!"@,
        Verdict::ReadyWithWarnings => "Release is ready (with warnings)."@,
        Verdict::NotReady => "Release is NOT ready."@,
    }
}

/// The line of one finding: tag, category, message.
pub open spec fn finding_line(f: Finding) -> Seq<char> {
    "  "@ + status_tag(f.status) + " "@ + f.category + ": "@ + f.message + "\n"@
}

/// The lines of all findings, in order.
pub open spec fn finding_lines(results: Seq<Finding>) -> Seq<char>
    decreases results.len(),
{
    if results.len() == 0 {
        Seq::empty()
    } else {
        finding_lines(results.drop_last()) + finding_line(results.last())
    }
}

/// The line that gives the three counts.
pub open spec fn tally_line(results: Seq<Finding>) -> Seq<char> {
    "  "@ + decimal(count_status(results, Status::Pass)) + " passed, "@ + decimal(
        count_status(results, Status::Fail),
    ) + " failed, "@ + decimal(count_status(results, Status::Warn)) + " warnings\n"@
}

/// The whole rendering: heading, one line per finding, counts, verdict.
pub open spec fn render_text(results: Seq<Finding>) -> Seq<char> {
    "\n═══ Release Scholar Report ═══\n\n"@ + finding_lines(results) + "\n"@ + tally_line(results)
        + "\n  "@ + verdict_sentence(verdict_of(results)) + "\n\n"@
}

/// A count never exceeds the number of findings.
pub proof fn lemma_count_bounded(results: Seq<Finding>, status: Status)
    ensures
        count_status(results, status) <= results.len(),
    decreases results.len(),
{
    if results.len() > 0 {
        lemma_count_bounded(results.drop_last(), status);
    }
}

/// A severity is counted at least once exactly when a finding carries it.
pub proof fn lemma_count_positive(results: Seq<Finding>, status: Status)
    ensures
        count_status(results, status) > 0 <==> exists|i: int|
            0 <= i < results.len() && results[i].status == status,
    decreases results.len(),
{
    if results.len() > 0 {
        let front = results.drop_last();
        lemma_count_positive(front, status);
        if count_status(results, status) > 0 {
            if results.last().status == status {
                assert(results[results.len() - 1].status == status);
            } else {
                let i = choose|i: int| 0 <= i < front.len() && front[i].status == status;
                assert(results[i].status == status);
            }
        }
        if exists|i: int| 0 <= i < results.len() && results[i].status == status {
            let i = choose|i: int| 0 <= i < results.len() && results[i].status == status;
            if i < results.len() - 1 {
                assert(front[i].status == status);
            }
        }
    }
}

/// Findings are only ever appended, so a failure that was reported stays
/// reported whatever follows it.
pub proof fn lemma_failure_persists(before: Seq<Finding>, added: Seq<Finding>)
    requires
        has_failure(before),
    ensures
        has_failure(before + added),
{
    let i = choose|i: int| 0 <= i < before.len() && before[i].status == Status::Fail;
    assert((before + added)[i].status == Status::Fail);
}

/// Appended findings bring a failure exactly when one of them is a failure.
pub proof fn lemma_failure_of_concat(before: Seq<Finding>, added: Seq<Finding>)
    ensures
        has_failure(before + added) <==> has_failure(before) || has_failure(added),
{
    let all = before + added;
    if has_failure(before) {
        lemma_failure_persists(before, added);
    }
    if has_failure(added) {
        let i = choose|i: int| 0 <= i < added.len() && added[i].status == Status::Fail;
        assert(all[before.len() + i].status == Status::Fail);
    }
    if has_failure(all) {
        let i = choose|i: int| 0 <= i < all.len() && all[i].status == Status::Fail;
        if i < before.len() {
            assert(before[i].status == Status::Fail);
        } else {
            assert(added[i - before.len()].status == Status::Fail);
        }
    }
}

/// The verdict goes by the counts: not ready with at least one failure,
/// ready with warnings with no failure and at least one warning, ready with
/// neither.
pub proof fn lemma_verdict_by_counts(results: Seq<Finding>)
    ensures
        verdict_of(results) == Verdict::NotReady <==> count_status(results, Status::Fail) > 0,
        verdict_of(results) == Verdict::ReadyWithWarnings <==> count_status(results, Status::Fail)
            == 0 && count_status(results, Status::Warn) > 0,
        verdict_of(results) == Verdict::Ready <==> count_status(results, Status::Fail) == 0
            && count_status(results, Status::Warn) == 0,
{
    lemma_count_positive(results, Status::Fail);
    lemma_count_positive(results, Status::Warn);
}

/// The three counts add up to the number of findings.
pub proof fn lemma_counts_add_up(results: Seq<Finding>)
    ensures
        count_status(results, Status::Pass) + count_status(results, Status::Fail) + count_status(
            results,
            Status::Warn,
        ) == results.len(),
    decreases results.len(),
{
    if results.len() > 0 {
        lemma_counts_add_up(results.drop_last());
    }
}

impl Report {
    /// An empty report.
    pub fn new() -> (r: Report)
        ensures
            r@ == Seq::<Finding>::empty(),
    {
        let r = Report { results: Vec::new() };
        assert(r@ =~= Seq::<Finding>::empty());
        r
    }

    /// Appends one finding; what was reported before stays as it was.
    pub fn add(&mut self, category: &str, message: &str, status: Status)
        ensures
            final(self)@ == old(self)@.push(finding(category@, message@, status)),
    {
        self.results.push(
            CheckResult { category: category.to_string(), message: message.to_string(), status },
        );
        assert(self@ =~= old(self)@.push(finding(category@, message@, status)));
    }

    /// Appends a finding of severity `Pass`.
    pub fn pass(&mut self, category: &str, message: &str)
        ensures
            final(self)@ == old(self)@.push(passed(category@, message@)),
    {
        self.add(category, message, Status::Pass);
    }

    /// Appends a finding of severity `Fail`.
    pub fn fail(&mut self, category: &str, message: &str)
        ensures
            final(self)@ == old(self)@.push(failed(category@, message@)),
    {
        self.add(category, message, Status::Fail);
    }

    /// Appends a finding of severity `Warn`.
    pub fn warn(&mut self, category: &str, message: &str)
        ensures
            final(self)@ == old(self)@.push(warned(category@, message@)),
    {
        self.add(category, message, Status::Warn);
    }

    /// Whether any finding is a failure.
    pub fn has_failures(&self) -> (r: bool)
        ensures
            r == has_failure(self@),
    {
        let mut i: usize = 0;
        while i < self.results.len()
            invariant
                i <= self.results.len(),
                forall|k: int| 0 <= k < i ==> self@[k].status != Status::Fail,
            decreases self.results.len() - i,
        {
            if self.results[i].status == Status::Fail {
                assert(self@[i as int].status == Status::Fail);
                return true;
            }
            i += 1;
        }
        false
    }

    /// The number of findings of one severity.
    pub fn count(&self, status: Status) -> (n: usize)
        ensures
            n == count_status(self@, status),
    {
        let mut n: usize = 0;
        let mut i: usize = 0;
        while i < self.results.len()
            invariant
                i <= self.results.len(),
                n == count_status(self@.take(i as int), status),
                n <= i,
            decreases self.results.len() - i,
        {
            proof {
                assert(self@.take(i + 1).drop_last() =~= self@.take(i as int));
                assert(self@.take(i + 1).last() == self@[i as int]);
            }
            if self.results[i].status == status {
                n += 1;
            }
            i += 1;
        }
        assert(self@.take(i as int) =~= self@);
        n
    }

    /// The three counts.
    pub fn tally(&self) -> (t: Tally)
        ensures
            t.passed == count_status(self@, Status::Pass),
            t.failed == count_status(self@, Status::Fail),
            t.warned == count_status(self@, Status::Warn),
    {
        Tally {
            passed: self.count(Status::Pass),
            failed: self.count(Status::Fail),
            warned: self.count(Status::Warn),
        }
    }

    /// The readiness verdict.
    pub fn verdict(&self) -> (v: Verdict)
        ensures
            v == verdict_of(self@),
    {
        let t = self.tally();
        proof {
            lemma_count_positive(self@, Status::Fail);
            lemma_count_positive(self@, Status::Warn);
        }
        if t.failed > 0 {
            Verdict::NotReady
        } else if t.warned > 0 {
            Verdict::ReadyWithWarnings
        } else {
            Verdict::Ready
        }
    }

    /// The report as plain text: a heading, the findings in order, the counts
    /// and the verdict.
    pub fn render(&self) -> (r: String)
        ensures
            r@ == render_text(self@),
    {
        let mut out = String::from_str("\n═══ Release Scholar Report ═══\n\n");
        let ghost head = out@;
        let mut i: usize = 0;
        while i < self.results.len()
            invariant
                i <= self.results.len(),
                out@ == head + finding_lines(self@.take(i as int)),
            decreases self.results.len() - i,
        {
            let result = &self.results[i];
            let ghost before = out@;
            out.append("  ");
            out.append(status_label(result.status));
            out.append(" ");
            out.append(result.category.as_str());
            out.append(": ");
            out.append(result.message.as_str());
            out.append("\n");
            proof {
                assert(self@.take(i + 1).drop_last() =~= self@.take(i as int));
                assert(self@.take(i + 1).last() == self@[i as int]);
                assert(out@ =~= before + finding_line(self@[i as int]));
                assert(out@ =~= head + finding_lines(self@.take(i + 1)));
            }
            i += 1;
        }
        assert(self@.take(i as int) =~= self@);
        let t = self.tally();
        let v = self.verdict();
        let ghost lines = out@;
        out.append("\n");
        out.append("  ");
        out.append(decimal_text(t.passed as u64).as_str());
        out.append(" passed, ");
        out.append(decimal_text(t.failed as u64).as_str());
        out.append(" failed, ");
        out.append(decimal_text(t.warned as u64).as_str());
        out.append(" warnings\n");
        assert(out@ =~= lines + "\n"@ + tally_line(self@));
        out.append("\n  ");
        out.append(verdict_text(v));
        out.append("\n\n");
        assert(out@ =~= render_text(self@));
        out
    }
}

/// The bracketed tag of a severity.
pub fn status_label(status: Status) -> (r: &'static str)
    ensures
        r@ == status_tag(status),
{
    match status {
        Status::Pass => "[PASS]",
        Status::Fail => "[FAIL]",
        Status::Warn => "[WARN]",
    }
}

/// The sentence that states a verdict.
pub fn verdict_text(verdict: Verdict) -> (r: &'static str)
    ensures
        r@ == verdict_sentence(verdict),
{
    match verdict {
        Verdict::Ready => "Release is ready!",
        Verdict::ReadyWithWarnings => "Release is ready (with warnings).",
        Verdict::NotReady => "Release is NOT ready.",
    }
}

} // verus!
