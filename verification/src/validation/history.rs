//! The history scan: a bounded walk over the ancestors of the head that
//! looks for secrets in the lines that each commit added or kept.

use crate::project::{Commit, DiffLine};
use crate::report::{passed, warned, Finding, Report};
use crate::text::{decimal, decimal_text};
use crate::validation::security::{
    rule_hits, rules_of, secret_detectors, secret_rule_table, Confidence, Detector,
};
use vstd::prelude::*;
use vstd::string::*;

verus! {

/// The scan looks at no more commits than this.
pub const MAX_COMMITS: usize = 100;

/// The line was added or is unchanged context.
pub open spec fn line_in_scope(line: DiffLine) -> bool {
    line.origin == '+' || line.origin == ' '
}

/// A rule of high confidence matches in `text`.
pub open spec fn high_rule_hits(text: Seq<char>) -> bool {
    exists|i: int|
        0 <= i < secret_rule_table().len() && secret_rule_table()[i].confidence
            == Confidence::High && rule_hits(secret_rule_table()[i], text)
}

/// The line is in scope and a rule of high confidence matches in it.
pub open spec fn suspect_line(line: DiffLine) -> bool {
    line_in_scope(line) && high_rule_hits(line.content@)
}

/// One of the lines of the commit is suspect.
pub open spec fn suspect_commit(commit: Commit) -> bool {
    exists|i: int| 0 <= i < commit.lines@.len() && suspect_line(commit.lines@[i])
}

/// How many commits of a history the scan looks at: all of them up to the
/// cap.
pub open spec fn examined_count(history: Seq<Commit>) -> nat {
    if history.len() <= MAX_COMMITS {
        history.len()
    } else {
        MAX_COMMITS as nat
    }
}

/// One of the commits that the scan looks at is suspect.
pub open spec fn history_flagged(history: Seq<Commit>) -> bool {
    exists|i: int| 0 <= i < examined_count(history) && suspect_commit(history[i])
}

/// The finding of a scan: a warning once anything was found, else a pass
/// with the number of commits that were looked at.
pub open spec fn scan_finding(flagged: bool, examined: nat) -> Finding {
    if flagged {
        warned("Security"@, "Potential secrets found in git history (review recommended)"@)
    } else {
        passed(
            "Security"@,
            "No secrets found in git history ("@ + decimal(examined) + " commits scanned)"@,
        )
    }
}

/// The finding of the history scan; none where the history could not be
/// walked.
pub open spec fn history_findings(history: Option<Vec<Commit>>) -> Seq<Finding> {
    match history {
        Some(commits) => seq![
            scan_finding(history_flagged(commits@), examined_count(commits@)),
        ],
        None => Seq::empty(),
    }
}

/// A history scan in progress: how many commits it has looked at and
/// whether any of them was suspect.
pub struct HistoryScan {
    detectors: Vec<Detector>,
    commits_checked: usize,
    found: bool,
}

impl HistoryScan {
    #[verifier::type_invariant]
    spec fn within_cap(&self) -> bool {
        &&& self.commits_checked <= MAX_COMMITS
        &&& rules_of(self.detectors@) == secret_rule_table()
    }

    /// The number of commits looked at so far.
    pub closed spec fn examined(&self) -> nat {
        self.commits_checked as nat
    }

    /// Whether a commit looked at so far was suspect.
    pub closed spec fn flagged(&self) -> bool {
        self.found
    }

    /// A scan that has looked at nothing yet.
    pub fn new() -> (r: HistoryScan)
        ensures
            r.examined() == 0,
            !r.flagged(),
    {
        HistoryScan { detectors: secret_detectors(), commits_checked: 0, found: false }
    }

    /// Whether the scan takes another commit: it does until it has looked at
    /// `MAX_COMMITS`.
    pub fn wants_more(&self) -> (r: bool)
        ensures
            r == (self.examined() < MAX_COMMITS),
    {
        self.commits_checked < MAX_COMMITS
    }

    /// The number of commits looked at so far.
    pub fn commits_examined(&self) -> (r: usize)
        ensures
            r == self.examined(),
            r <= MAX_COMMITS,
    {
        proof {
            use_type_invariant(self);
        }
        self.commits_checked
    }

    /// Whether a commit looked at so far was suspect.
    pub fn is_flagged(&self) -> (r: bool)
        ensures
            r == self.flagged(),
    {
        self.found
    }

    /// Whether a line is in scope and a rule of high confidence matches in
    /// it.
    pub fn line_is_suspect(&self, line: &DiffLine) -> (r: bool)
        ensures
            r == suspect_line(*line),
    {
        proof {
            use_type_invariant(self);
        }
        if !(line.origin == '+' || line.origin == ' ') {
            return false;
        }
        let ghost table = secret_rule_table();
        let mut i: usize = 0;
        while i < self.detectors.len()
            invariant
                i <= self.detectors.len(),
                line_in_scope(*line),
                rules_of(self.detectors@) == table,
                table == secret_rule_table(),
                forall|k: int|
                    0 <= k < i ==> !(table[k].confidence == Confidence::High && rule_hits(
                        table[k],
                        line.content@,
                    )),
            decreases self.detectors.len() - i,
        {
            let detector = &self.detectors[i];
            assert(table[i as int] == detector.rule());
            if detector.the_rule().confidence == Confidence::High && detector.detects(
                line.content.as_str(),
            ) {
                assert(table[i as int].confidence == Confidence::High && rule_hits(
                    table[i as int],
                    line.content@,
                ));
                return true;
            }
            i += 1;
        }
        false
    }

    /// Whether one of the lines of a commit is suspect.
    pub fn commit_is_suspect(&self, commit: &Commit) -> (r: bool)
        ensures
            r == suspect_commit(*commit),
    {
        let mut i: usize = 0;
        while i < commit.lines.len()
            invariant
                i <= commit.lines.len(),
                forall|k: int| 0 <= k < i ==> !suspect_line(commit.lines@[k]),
            decreases commit.lines.len() - i,
        {
            if self.line_is_suspect(&commit.lines[i]) {
                return true;
            }
            i += 1;
        }
        false
    }

    /// Counts one commit and notes whether it was suspect. Once the cap is
    /// reached the scan stays as it is.
    pub fn record(&mut self, suspect: bool)
        ensures
            final(self).examined() <= MAX_COMMITS,
            old(self).examined() < MAX_COMMITS ==> final(self).examined() == old(self).examined()
                + 1 && final(self).flagged() == (old(self).flagged() || suspect),
            old(self).examined() >= MAX_COMMITS ==> final(self).examined() == old(self).examined()
                && final(self).flagged() == old(self).flagged(),
    {
        proof {
            use_type_invariant(&*self);
        }
        if self.commits_checked < MAX_COMMITS {
            self.commits_checked = self.commits_checked + 1;
            if suspect {
                self.found = true;
            }
        }
    }

    /// Looks at one commit, unless the cap is reached: then the commit is
    /// passed over and the scan stays as it is.
    pub fn visit(&mut self, commit: &Commit)
        ensures
            final(self).examined() <= MAX_COMMITS,
            old(self).examined() < MAX_COMMITS ==> final(self).examined() == old(self).examined()
                + 1 && final(self).flagged() == (old(self).flagged() || suspect_commit(*commit)),
            old(self).examined() >= MAX_COMMITS ==> final(self).examined() == old(self).examined()
                && final(self).flagged() == old(self).flagged(),
    {
        proof {
            use_type_invariant(&*self);
        }
        if self.wants_more() {
            let suspect = self.commit_is_suspect(commit);
            self.record(suspect);
        }
    }

    /// Appends the finding of the scan.
    pub fn conclude(&self, report: &mut Report)
        ensures
            self.examined() <= MAX_COMMITS,
            final(report)@ == old(report)@.push(scan_finding(self.flagged(), self.examined())),
    {
        proof {
            use_type_invariant(self);
        }
        report_scan(self.found, self.commits_checked, report);
    }
}

/// Appends the finding of a scan that looked at `examined` commits.
pub fn report_scan(flagged: bool, examined: usize, report: &mut Report)
    ensures
        final(report)@ == old(report)@.push(scan_finding(flagged, examined as nat)),
{
    if flagged {
        report.warn("Security", "Potential secrets found in git history (review recommended)");
    } else {
        let mut message = String::from_str("No secrets found in git history (");
        message.append(decimal_text(examined as u64).as_str());
        message.append(" commits scanned)");
        report.pass("Security", message.as_str());
    }
}

/// However long a history is, the scan looks at no more than `MAX_COMMITS`
/// of its commits, and at all of them where there are fewer.
pub proof fn lemma_examined_bounded(history: Seq<Commit>)
    ensures
        examined_count(history) <= MAX_COMMITS,
        examined_count(history) <= history.len(),
        history.len() <= MAX_COMMITS ==> examined_count(history) == history.len(),
{
}

/// Scans the history of the head, newest commit first, and appends the
/// finding. No more than `MAX_COMMITS` commits are looked at; the lines
/// that a commit added or kept are tested against the rules of high
/// confidence, and one match flags the whole scan. Where the history could
/// not be walked nothing is reported.
pub fn scan_git_history(history: &Option<Vec<Commit>>, report: &mut Report)
    ensures
        final(report)@ == old(report)@ + history_findings(*history),
{
    let commits = match history {
        Some(commits) => commits,
        None => {
            assert(report@ =~= old(report)@ + history_findings(*history));
            return ;
        },
    };
    let mut scan = HistoryScan::new();
    let mut i: usize = 0;
    while i < commits.len() && scan.wants_more()
        invariant
            i <= commits.len(),
            i <= MAX_COMMITS,
            scan.examined() == i,
            scan.flagged() == (exists|k: int| 0 <= k < i && suspect_commit(commits@[k])),
        decreases commits.len() - i,
    {
        let ghost before = scan.flagged();
        scan.visit(&commits[i]);
        proof {
            if scan.flagged() {
                if before {
                    let k = choose|k: int| 0 <= k < i && suspect_commit(commits@[k]);
                    assert(0 <= k < i + 1 && suspect_commit(commits@[k]));
                } else {
                    assert(0 <= i < i + 1 && suspect_commit(commits@[i as int]));
                }
            } else {
                assert forall|k: int| 0 <= k < i + 1 implies !suspect_commit(commits@[k]) by {
                    if k < i {
                    }
                }
            }
        }
        i += 1;
    }
    assert(i == examined_count(commits@));
    scan.conclude(report);
    assert(report@ =~= old(report)@ + history_findings(*history));
}

} // verus!
