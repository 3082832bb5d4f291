//! The security audit: secrets in the staged files, sensitive file names,
//! the history scan and the audit of the ignore file.

use crate::pattern::{regex_matches, regex_valid, Pattern};
use crate::project::{Project, Repository, TrackedFile};
use crate::report::{failed, passed, warned, Finding, Report, Status};
use crate::text::{basename, basename_start, chars_of, ends_with, rows, same_range, table_of};
use crate::validation::gitignore::{audit_gitignore, gitignore_findings};
use crate::validation::history::{history_findings, scan_git_history};
use vstd::prelude::*;
use vstd::string::*;

verus! {

/// How likely a match of a rule is a real secret.
#[derive(Debug, Clone, Copy, PartialEq, Eq, Structural)]
pub enum Confidence {
    High,
    Low,
}

/// One rule of the secret scan: a pattern, what a match is called, and how
/// much a match is to be trusted.
#[derive(Debug, Clone, Copy)]
pub struct SecretRule {
    pub pattern: &'static str,
    pub label: &'static str,
    pub confidence: Confidence,
}

/// A rule together with its compiled pattern; `matcher` is `None` where the
/// pattern does not compile, and such a rule never matches.
pub struct Detector {
    rule: SecretRule,
    matcher: Option<Pattern>,
}

/// The rules of the secret scan.
pub open spec fn secret_rule_table() -> Seq<SecretRule> {
    seq![
        SecretRule {
            pattern: "-----BEGIN\\s+(RSA |DSA |EC |OPENSSH )?PRIVATE KEY-----",
            label: "Private key",
            confidence: Confidence::High,
        },
        SecretRule {
            pattern: "(?i)(api[_-]?key|api[_-]?secret|access[_-]?token)\\s*[:=]\\s*['\"]?\\w{16,}",
            label: "API key/token",
            confidence: Confidence::High,
        },
        SecretRule {
            pattern: "(?i)(password|passwd|pwd)\\s*[:=]\\s*['\"]?.{8,}",
            label: "Password assignment",
            confidence: Confidence::Low,
        },
        SecretRule {
            pattern: "AKIA[0-9A-Z]{16}",
            label: "AWS Access Key",
            confidence: Confidence::High,
        },
        SecretRule {
            pattern: "ghp_[A-Za-z0-9_]{36}",
            label: "GitHub Personal Access Token",
            confidence: Confidence::High,
        },
        SecretRule {
            pattern: "glpat-[A-Za-z0-9_\\-]{20}",
            label: "GitLab Personal Access Token",
            confidence: Confidence::High,
        },
    ]
}

/// The endings of file names that should not be in a repository.
pub open spec fn sensitive_endings() -> Seq<Seq<char>> {
    seq![
        ".env"@,
        ".pem"@,
        ".key"@,
        "id_rsa"@,
        "id_dsa"@,
        "id_ed25519"@,
        "credentials.json"@,
        ".sqlite"@,
        ".DS_Store"@,
        ".p12"@,
        ".pfx"@,
    ]
}

/// The rule matches somewhere in `text`.
pub open spec fn rule_hits(rule: SecretRule, text: Seq<char>) -> bool {
    regex_valid(rule.pattern@) && regex_matches(rule.pattern@, text)
}

/// The finding on a rule that matched in a file: a failure for a rule of
/// high confidence, a warning for one of low confidence.
pub open spec fn secret_finding(rule: SecretRule, path: Seq<char>) -> Finding {
    let message = "Possible "@ + rule.label@ + " found in tracked file: "@ + path;
    match rule.confidence {
        Confidence::High => failed("Security"@, message),
        Confidence::Low => warned("Security"@, message),
    }
}

/// One finding per rule that matches in the content, in the order of the
/// rules.
pub open spec fn file_hits(rules: Seq<SecretRule>, path: Seq<char>, content: Seq<char>) -> Seq<
    Finding,
>
    decreases rules.len(),
{
    if rules.len() == 0 {
        Seq::empty()
    } else {
        file_hits(rules.drop_last(), path, content) + if rule_hits(rules.last(), content) {
            seq![secret_finding(rules.last(), path)]
        } else {
            Seq::empty()
        }
    }
}

/// The findings on one file: none where it does not decode as text.
pub open spec fn file_secrets(file: TrackedFile) -> Seq<Finding> {
    match file.content {
        Some(content) => file_hits(secret_rule_table(), file.path@, content@),
        None => Seq::empty(),
    }
}

/// The findings of all files, in the order of the files.
pub open spec fn secret_lines(files: Seq<TrackedFile>) -> Seq<Finding>
    decreases files.len(),
{
    if files.len() == 0 {
        Seq::empty()
    } else {
        secret_lines(files.drop_last()) + file_secrets(files.last())
    }
}

/// The findings of the secret scan, or the one pass that says that no rule
/// matched in any file.
pub open spec fn secret_findings(files: Seq<TrackedFile>) -> Seq<Finding> {
    if secret_lines(files).len() == 0 {
        seq![passed("Security"@, "No secrets detected in tracked files"@)]
    } else {
        secret_lines(files)
    }
}

/// How many of the endings close `name`.
pub open spec fn ending_count(name: Seq<char>, endings: Seq<Seq<char>>) -> nat
    decreases endings.len(),
{
    if endings.len() == 0 {
        0
    } else {
        ending_count(name, endings.drop_last()) + if ends_with(name, endings.last()) {
            1nat
        } else {
            0nat
        }
    }
}

pub open spec fn sensitive_finding(path: Seq<char>) -> Finding {
    warned("Security"@, "Sensitive file tracked: "@ + path)
}

/// The warnings on one path: one for each sensitive ending that closes its
/// last component.
pub open spec fn path_warnings(path: Seq<char>) -> Seq<Finding> {
    Seq::new(ending_count(basename(path), sensitive_endings()), |i: int| sensitive_finding(path))
}

/// The warnings on all files, in the order of the files.
pub open spec fn sensitive_lines(files: Seq<TrackedFile>) -> Seq<Finding>
    decreases files.len(),
{
    if files.len() == 0 {
        Seq::empty()
    } else {
        sensitive_lines(files.drop_last()) + path_warnings(files.last().path@)
    }
}

/// The findings of the file name scan, or the one pass that says that no
/// name is sensitive.
pub open spec fn sensitive_findings(files: Seq<TrackedFile>) -> Seq<Finding> {
    if sensitive_lines(files).len() == 0 {
        seq![passed("Security"@, "No sensitive files tracked"@)]
    } else {
        sensitive_lines(files)
    }
}

/// The findings of the two scans of the staged files; none without a staged
/// snapshot.
pub open spec fn staged_findings(staged: Option<Vec<TrackedFile>>) -> Seq<Finding> {
    match staged {
        Some(files) => secret_findings(files@) + sensitive_findings(files@),
        None => Seq::empty(),
    }
}

/// Everything the security audit reports on a project.
pub open spec fn security_findings(project: Project) -> Seq<Finding> {
    match project.repository {
        Repository::Open(checkout) => staged_findings(checkout.staged) + history_findings(
            checkout.history,
        ) + gitignore_findings(project),
        Repository::Unavailable(_) => seq![
            failed("Security"@, "Cannot open repository for security scan"@),
        ],
    }
}

/// A match of a rule of high confidence is a failure, one of a rule of low
/// confidence a warning; it is never a pass.
pub proof fn lemma_secret_severity(rule: SecretRule, path: Seq<char>)
    ensures
        secret_finding(rule, path).status == Status::Fail <==> rule.confidence == Confidence::High,
        secret_finding(rule, path).status == Status::Warn <==> rule.confidence == Confidence::Low,
{
}

impl Detector {
    /// The rule that this detector tests.
    pub closed spec fn rule(&self) -> SecretRule {
        self.rule
    }

    /// The rule that this detector tests.
    pub fn the_rule(&self) -> (r: &SecretRule)
        ensures
            *r == self.rule(),
    {
        &self.rule
    }

    /// The matcher is the compiled pattern of the rule, and is there exactly
    /// when that pattern compiles.
    #[verifier::type_invariant]
    spec fn ready(&self) -> bool {
        &&& self.matcher.is_some() == regex_valid(self.rule.pattern@)
        &&& self.matcher matches Some(p) ==> p@ == self.rule.pattern@
    }

    /// Compiles the pattern of a rule.
    pub fn new(rule: SecretRule) -> (r: Detector)
        ensures
            r.rule() == rule,
    {
        Detector { rule, matcher: Pattern::compile(rule.pattern) }
    }

    /// Whether the rule matches somewhere in `text`.
    pub fn detects(&self, text: &str) -> (r: bool)
        ensures
            r == rule_hits(self.rule(), text@),
    {
        proof {
            use_type_invariant(self);
        }
        match &self.matcher {
            Some(pattern) => pattern.is_match(text),
            None => false,
        }
    }
}

/// The rules of a list of detectors.
pub open spec fn rules_of(detectors: Seq<Detector>) -> Seq<SecretRule> {
    Seq::new(detectors.len(), |i: int| detectors[i].rule())
}

/// The rules of the secret scan, as data.
pub fn secret_rules() -> (r: Vec<SecretRule>)
    ensures
        r@ == secret_rule_table(),
{
    let mut rules: Vec<SecretRule> = Vec::new();
    rules.push(
        SecretRule {
            pattern: "-----BEGIN\\s+(RSA |DSA |EC |OPENSSH )?PRIVATE KEY-----",
            label: "Private key",
            confidence: Confidence::High,
        },
    );
    rules.push(
        SecretRule {
            pattern: "(?i)(api[_-]?key|api[_-]?secret|access[_-]?token)\\s*[:=]\\s*['\"]?\\w{16,}",
            label: "API key/token",
            confidence: Confidence::High,
        },
    );
    rules.push(
        SecretRule {
            pattern: "(?i)(password|passwd|pwd)\\s*[:=]\\s*['\"]?.{8,}",
            label: "Password assignment",
            confidence: Confidence::Low,
        },
    );
    rules.push(
        SecretRule {
            pattern: "AKIA[0-9A-Z]{16}",
            label: "AWS Access Key",
            confidence: Confidence::High,
        },
    );
    rules.push(
        SecretRule {
            pattern: "ghp_[A-Za-z0-9_]{36}",
            label: "GitHub Personal Access Token",
            confidence: Confidence::High,
        },
    );
    rules.push(
        SecretRule {
            pattern: "glpat-[A-Za-z0-9_\\-]{20}",
            label: "GitLab Personal Access Token",
            confidence: Confidence::High,
        },
    );
    assert(rules@ =~= secret_rule_table());
    rules
}

/// The rules of the secret scan, each with its compiled pattern.
pub fn secret_detectors() -> (r: Vec<Detector>)
    ensures
        rules_of(r@) == secret_rule_table(),
{
    let rules = secret_rules();
    let mut detectors: Vec<Detector> = Vec::new();
    let mut i: usize = 0;
    while i < rules.len()
        invariant
            i <= rules.len(),
            detectors@.len() == i,
            forall|k: int| 0 <= k < i ==> detectors@[k].rule() == rules@[k],
        decreases rules.len() - i,
    {
        detectors.push(Detector::new(rules[i]));
        i += 1;
    }
    assert(rules_of(detectors@) =~= rules@);
    detectors
}

/// The sensitive endings, as characters.
pub fn sensitive_ending_table() -> (r: Vec<Vec<char>>)
    ensures
        rows(r@) == sensitive_endings(),
{
    let names: Vec<&'static str> = vec![
        ".env", ".pem", ".key", "id_rsa", "id_dsa", "id_ed25519", "credentials.json", ".sqlite",
        ".DS_Store", ".p12", ".pfx",
    ];
    let table = table_of(&names);
    assert(rows(table@) =~= sensitive_endings());
    table
}

/// Appends the finding on a rule that matched in the file at `path`.
pub fn report_secret(rule: &SecretRule, path: &str, report: &mut Report)
    ensures
        final(report)@ == old(report)@.push(secret_finding(*rule, path@)),
{
    let mut message = String::from_str("Possible ");
    message.append(rule.label);
    message.append(" found in tracked file: ");
    message.append(path);
    match rule.confidence {
        Confidence::High => report.fail("Security", message.as_str()),
        Confidence::Low => report.warn("Security", message.as_str()),
    }
}

/// Tests the content of one file against every rule and appends a finding
/// for each rule that matches. Returns whether any did.
pub fn scan_file(detectors: &Vec<Detector>, path: &str, content: &str, report: &mut Report) -> (r:
    bool)
    ensures
        final(report)@ == old(report)@ + file_hits(rules_of(detectors@), path@, content@),
        r == (file_hits(rules_of(detectors@), path@, content@).len() > 0),
{
    let ghost rules = rules_of(detectors@);
    let mut found = false;
    let mut i: usize = 0;
    while i < detectors.len()
        invariant
            i <= detectors.len(),
            rules == rules_of(detectors@),
            report@ == old(report)@ + file_hits(rules.take(i as int), path@, content@),
            found == (file_hits(rules.take(i as int), path@, content@).len() > 0),
        decreases detectors.len() - i,
    {
        proof {
            assert(rules.take(i + 1).drop_last() =~= rules.take(i as int));
            assert(rules.take(i + 1).last() == detectors@[i as int].rule());
        }
        if detectors[i].detects(content) {
            report_secret(detectors[i].the_rule(), path, report);
            found = true;
        }
        assert(report@ =~= old(report)@ + file_hits(rules.take(i + 1), path@, content@));
        i += 1;
    }
    assert(rules.take(i as int) =~= rules);
    found
}

/// Scans the staged files for secrets. Every rule is tested against the
/// whole content of every file that decodes as text; each match is a
/// finding of its own. Without any match there is one pass.
pub fn scan_tracked_files_for_secrets(files: &Vec<TrackedFile>, report: &mut Report)
    ensures
        final(report)@ == old(report)@ + secret_findings(files@),
{
    let detectors = secret_detectors();
    let mut found = false;
    let mut i: usize = 0;
    while i < files.len()
        invariant
            i <= files.len(),
            rules_of(detectors@) == secret_rule_table(),
            report@ == old(report)@ + secret_lines(files@.take(i as int)),
            found == (secret_lines(files@.take(i as int)).len() > 0),
        decreases files.len() - i,
    {
        proof {
            assert(files@.take(i + 1).drop_last() =~= files@.take(i as int));
            assert(files@.take(i + 1).last() == files@[i as int]);
        }
        match &files[i].content {
            Some(content) => {
                let hit = scan_file(&detectors, files[i].path.as_str(), content.as_str(), report);
                if hit {
                    found = true;
                }
            },
            None => {},
        }
        assert(report@ =~= old(report)@ + secret_lines(files@.take(i + 1)));
        i += 1;
    }
    assert(files@.take(i as int) =~= files@);
    if !found {
        report.pass("Security", "No secrets detected in tracked files");
    }
    assert(report@ =~= old(report)@ + secret_findings(files@));
}

/// Appends one warning on `path` for each sensitive ending that closes its
/// last component. Returns whether any did.
fn scan_path(endings: &Vec<Vec<char>>, path: &str, report: &mut Report) -> (r: bool)
    requires
        rows(endings@) == sensitive_endings(),
    ensures
        final(report)@ == old(report)@ + path_warnings(path@),
        r == (path_warnings(path@).len() > 0),
{
    let chars = chars_of(path);
    let start = basename_start(&chars);
    let ghost name = basename(path@);
    let ghost table = sensitive_endings();
    let mut message = String::from_str("Sensitive file tracked: ");
    message.append(path);
    let mut count: usize = 0;
    let mut i: usize = 0;
    while i < endings.len()
        invariant
            i <= endings.len(),
            count <= i,
            start <= chars.len(),
            chars@ == path@,
            name == chars@.subrange(start as int, chars@.len() as int),
            table == rows(endings@),
            message@ == "Sensitive file tracked: "@ + path@,
            count == ending_count(name, table.take(i as int)),
            report@ == old(report)@ + Seq::new(count as nat, |k: int| sensitive_finding(path@)),
        decreases endings.len() - i,
    {
        proof {
            assert(table.take(i + 1).drop_last() =~= table.take(i as int));
            assert(table.take(i + 1).last() == endings@[i as int]@);
        }
        let ending = &endings[i];
        let closes = ending.len() <= chars.len() - start && same_range(
            &chars,
            chars.len() - ending.len(),
            chars.len(),
            ending,
            0,
            ending.len(),
        );
        proof {
            assert(ending@.subrange(0, ending@.len() as int) =~= ending@);
            if ending.len() <= chars.len() - start {
                assert(name.subrange(name.len() - ending@.len(), name.len() as int)
                    =~= chars@.subrange(chars@.len() - ending@.len(), chars@.len() as int));
            }
            assert(closes == ends_with(name, ending@));
        }
        if closes {
            report.warn("Security", message.as_str());
            count += 1;
        }
        assert(report@ =~= old(report)@ + Seq::new(
            count as nat,
            |k: int| sensitive_finding(path@),
        ));
        i += 1;
    }
    assert(table.take(i as int) =~= table);
    count > 0
}

/// Scans the names of the staged files. The last component of each path is
/// held against the sensitive endings; each ending that closes it is a
/// warning that names the path. Without any there is one pass.
pub fn scan_sensitive_files(files: &Vec<TrackedFile>, report: &mut Report)
    ensures
        final(report)@ == old(report)@ + sensitive_findings(files@),
{
    let endings = sensitive_ending_table();
    let mut found = false;
    let mut i: usize = 0;
    while i < files.len()
        invariant
            i <= files.len(),
            rows(endings@) == sensitive_endings(),
            report@ == old(report)@ + sensitive_lines(files@.take(i as int)),
            found == (sensitive_lines(files@.take(i as int)).len() > 0),
        decreases files.len() - i,
    {
        proof {
            assert(files@.take(i + 1).drop_last() =~= files@.take(i as int));
            assert(files@.take(i + 1).last() == files@[i as int]);
        }
        let hit = scan_path(&endings, files[i].path.as_str(), report);
        if hit {
            found = true;
        }
        assert(report@ =~= old(report)@ + sensitive_lines(files@.take(i + 1)));
        i += 1;
    }
    assert(files@.take(i as int) =~= files@);
    if !found {
        report.pass("Security", "No sensitive files tracked");
    }
    assert(report@ =~= old(report)@ + sensitive_findings(files@));
}

/// Runs the security audit on a project. A repository that did not open is
/// one failure and ends the audit. Otherwise, in this order: the secret
/// scan and the file name scan of the staged files, the history scan, and
/// the audit of the ignore file.
pub fn validate(project: &Project, report: &mut Report)
    ensures
        final(report)@ == old(report)@ + security_findings(*project),
{
    let checkout = match &project.repository {
        Repository::Open(checkout) => checkout,
        Repository::Unavailable(_) => {
            report.fail("Security", "Cannot open repository for security scan");
            assert(report@ =~= old(report)@ + security_findings(*project));
            return ;
        },
    };
    match &checkout.staged {
        Some(files) => {
            scan_tracked_files_for_secrets(files, report);
            scan_sensitive_files(files, report);
        },
        None => {},
    }
    assert(report@ =~= old(report)@ + staged_findings(checkout.staged));
    scan_git_history(&checkout.history, report);
    audit_gitignore(project, report);
    assert(report@ =~= old(report)@ + security_findings(*project));
}

} // verus!
