use release_scholar::project::{
    Checkout, CitationSource, Commit, DiffLine, IgnoreFile, Project, Repository, TrackedFile,
};
use release_scholar::report::{Report, Status};
use release_scholar::validation::gitignore::{
    audit_gitignore, detect_relevant_artifacts, gitignore_contains, has_files_with_extension,
};
use release_scholar::validation::history::{scan_git_history, HistoryScan, MAX_COMMITS};
use release_scholar::validation::security::{
    scan_sensitive_files, scan_tracked_files_for_secrets, secret_rules, validate, Confidence,
};

fn file(path: &str, content: Option<&str>) -> TrackedFile {
    TrackedFile { path: path.to_string(), content: content.map(|c| c.to_string()), size: Some(1) }
}

fn line(origin: char, content: &str) -> DiffLine {
    DiffLine { origin, content: content.to_string() }
}

fn commit(lines: Vec<DiffLine>) -> Commit {
    Commit { lines }
}

fn bare_project() -> Project {
    Project {
        repository: Repository::Unavailable("unused".to_string()),
        present: vec![],
        root_entries: vec![],
        citation: CitationSource::Missing,
        gitignore: IgnoreFile::Missing,
    }
}

fn messages(report: &Report) -> Vec<(Status, String)> {
    report.results.iter().map(|r| (r.status, r.message.clone())).collect()
}

fn aws_key() -> String {
    format!("AKIA{}", "ABCD1234".repeat(2))
}

fn github_token() -> String {
    format!("ghp_{}", "aB3_".repeat(9))
}

fn gitlab_token() -> String {
    format!("glpat-{}", "x-Y_9".repeat(4))
}

fn private_key_header() -> String {
    format!("-----BEGIN {}PRIVATE KEY-----", "RSA ")
}

#[test]
fn the_rule_table_is_data() {
    let rules = secret_rules();
    assert_eq!(rules.len(), 6);
    let labels: Vec<&str> = rules.iter().map(|r| r.label).collect();
    assert_eq!(
        labels,
        vec![
            "Private key",
            "API key/token",
            "Password assignment",
            "AWS Access Key",
            "GitHub Personal Access Token",
            "GitLab Personal Access Token",
        ]
    );
    let low: Vec<&str> =
        rules.iter().filter(|r| r.confidence == Confidence::Low).map(|r| r.label).collect();
    assert_eq!(low, vec!["Password assignment"]);
    assert_eq!(rules[3].pattern, "AKIA[0-9A-Z]{16}");
    assert_eq!(rules[0].pattern, r"-----BEGIN\s+(RSA |DSA |EC |OPENSSH )?PRIVATE KEY-----");
    assert_eq!(
        rules[1].pattern,
        r#"(?i)(api[_-]?key|api[_-]?secret|access[_-]?token)\s*[:=]\s*['"]?\w{16,}"#
    );
    assert_eq!(rules[2].pattern, r#"(?i)(password|passwd|pwd)\s*[:=]\s*['"]?.{8,}"#);
    assert_eq!(rules[4].pattern, "ghp_[A-Za-z0-9_]{36}");
    assert_eq!(rules[5].pattern, r"glpat-[A-Za-z0-9_\-]{20}");
}

#[test]
fn clean_files_give_one_pass() {
    let files = vec![file("src/main.rs", Some("fn main() {}\n")), file("logo.png", None)];
    let mut report = Report::new();
    scan_tracked_files_for_secrets(&files, &mut report);
    assert_eq!(
        messages(&report),
        vec![(Status::Pass, "No secrets detected in tracked files".to_string())]
    );
}

#[test]
fn no_files_give_one_pass() {
    let mut report = Report::new();
    scan_tracked_files_for_secrets(&vec![], &mut report);
    assert_eq!(report.results.len(), 1);
    assert_eq!(report.results[0].status, Status::Pass);
}

#[test]
fn high_confidence_match_is_a_failure() {
    let content = format!("aws = {}\n", aws_key());
    let files = vec![file("deploy/config.ini", Some(&content))];
    let mut report = Report::new();
    scan_tracked_files_for_secrets(&files, &mut report);
    assert_eq!(
        messages(&report),
        vec![(
            Status::Fail,
            "Possible AWS Access Key found in tracked file: deploy/config.ini".to_string()
        )]
    );
    assert_eq!(report.results[0].category, "Security");
}

#[test]
fn low_confidence_match_is_a_warning() {
    let files = vec![file("notes.txt", Some("password = hunter2hunter2\n"))];
    let mut report = Report::new();
    scan_tracked_files_for_secrets(&files, &mut report);
    assert_eq!(
        messages(&report),
        vec![(
            Status::Warn,
            "Possible Password assignment found in tracked file: notes.txt".to_string()
        )]
    );
}

#[test]
fn every_match_is_a_finding_of_its_own() {
    let first = format!("{}\nPASSWD: 'longenough'\n", private_key_header());
    let second = format!("token {}\nkey {}\n", github_token(), gitlab_token());
    let third = format!("API_KEY = \"{}\"\n", "0123456789abcdef");
    let files = vec![
        file("a.pem", Some(&first)),
        file("skip.bin", None),
        file("b.txt", Some(&second)),
        file("fine.txt", Some("nothing here")),
        file("c.env", Some(&third)),
    ];
    let mut report = Report::new();
    scan_tracked_files_for_secrets(&files, &mut report);
    assert_eq!(
        messages(&report),
        vec![
            (Status::Fail, "Possible Private key found in tracked file: a.pem".to_string()),
            (
                Status::Warn,
                "Possible Password assignment found in tracked file: a.pem".to_string()
            ),
            (
                Status::Fail,
                "Possible GitHub Personal Access Token found in tracked file: b.txt".to_string()
            ),
            (
                Status::Fail,
                "Possible GitLab Personal Access Token found in tracked file: b.txt".to_string()
            ),
            (Status::Fail, "Possible API key/token found in tracked file: c.env".to_string()),
        ]
    );
}

#[test]
fn sensitive_names_are_warnings() {
    let files = vec![
        file("src/lib.rs", None),
        file(".env", None),
        file("config/prod.env", None),
        file("keys/id_rsa", None),
        file("id_rsa/readme.txt", None),
        file("certs/server.pem", None),
        file("data/app.sqlite", None),
    ];
    let mut report = Report::new();
    scan_sensitive_files(&files, &mut report);
    assert_eq!(
        messages(&report),
        vec![
            (Status::Warn, "Sensitive file tracked: .env".to_string()),
            (Status::Warn, "Sensitive file tracked: config/prod.env".to_string()),
            (Status::Warn, "Sensitive file tracked: keys/id_rsa".to_string()),
            (Status::Warn, "Sensitive file tracked: certs/server.pem".to_string()),
            (Status::Warn, "Sensitive file tracked: data/app.sqlite".to_string()),
        ]
    );
}

#[test]
fn no_sensitive_names_is_one_pass() {
    let files = vec![file("src/lib.rs", None), file(".env/readme", None), file("envy", None)];
    let mut report = Report::new();
    scan_sensitive_files(&files, &mut report);
    assert_eq!(messages(&report), vec![(Status::Pass, "No sensitive files tracked".to_string())]);
}

#[test]
fn history_of_150_commits_is_cut_at_100() {
    let history: Vec<Commit> = (0..150).map(|i| commit(vec![line('+', &format!("line {}", i))])).collect();
    let mut report = Report::new();
    scan_git_history(&Some(history), &mut report);
    assert_eq!(
        messages(&report),
        vec![(Status::Pass, "No secrets found in git history (100 commits scanned)".to_string())]
    );
    assert_eq!(MAX_COMMITS, 100);
}

#[test]
fn a_secret_behind_the_cap_is_not_seen() {
    let mut history: Vec<Commit> = (0..100).map(|_| commit(vec![line('+', "ok")])).collect();
    history.push(commit(vec![line('+', &aws_key())]));
    let mut report = Report::new();
    scan_git_history(&Some(history), &mut report);
    assert_eq!(report.results[0].status, Status::Pass);
    assert_eq!(
        report.results[0].message,
        "No secrets found in git history (100 commits scanned)"
    );
}

#[test]
fn a_secret_in_the_last_commit_within_the_cap_is_seen() {
    let mut history: Vec<Commit> = (0..99).map(|_| commit(vec![line('+', "ok")])).collect();
    history.push(commit(vec![line('+', &aws_key())]));
    let mut report = Report::new();
    scan_git_history(&Some(history), &mut report);
    assert_eq!(
        messages(&report),
        vec![(
            Status::Warn,
            "Potential secrets found in git history (review recommended)".to_string()
        )]
    );
}

#[test]
fn short_history_reports_its_length() {
    let history = vec![commit(vec![]), commit(vec![line(' ', "x")]), commit(vec![line('-', "y")])];
    let mut report = Report::new();
    scan_git_history(&Some(history), &mut report);
    assert_eq!(report.results[0].message, "No secrets found in git history (3 commits scanned)");
    let mut report = Report::new();
    scan_git_history(&Some(vec![]), &mut report);
    assert_eq!(report.results[0].message, "No secrets found in git history (0 commits scanned)");
}

#[test]
fn history_that_cannot_be_walked_reports_nothing() {
    let mut report = Report::new();
    scan_git_history(&None, &mut report);
    assert_eq!(report.results.len(), 0);
}

#[test]
fn only_added_and_context_lines_count() {
    let secret = github_token();
    let removed = vec![commit(vec![line('-', &secret), line('F', &secret), line('H', &secret)])];
    let mut report = Report::new();
    scan_git_history(&Some(removed), &mut report);
    assert_eq!(report.results[0].status, Status::Pass);

    let context = vec![commit(vec![line(' ', &secret)])];
    let mut report = Report::new();
    scan_git_history(&Some(context), &mut report);
    assert_eq!(report.results[0].status, Status::Warn);

    let added = vec![commit(vec![line('+', "fine"), line('+', &secret)])];
    let mut report = Report::new();
    scan_git_history(&Some(added), &mut report);
    assert_eq!(report.results[0].status, Status::Warn);
}

#[test]
fn low_confidence_rules_are_left_out_of_the_history() {
    let history = vec![commit(vec![line('+', "password = hunter2hunter2")])];
    let mut report = Report::new();
    scan_git_history(&Some(history), &mut report);
    assert_eq!(report.results[0].status, Status::Pass);
    assert_eq!(report.results[0].message, "No secrets found in git history (1 commits scanned)");
}

#[test]
fn the_scan_counts_and_stops() {
    let mut scan = HistoryScan::new();
    assert!(scan.wants_more());
    assert_eq!(scan.commits_examined(), 0);
    assert!(!scan.is_flagged());
    let quiet = commit(vec![line('+', "nothing")]);
    for i in 0..250 {
        scan.visit(&quiet);
        assert!(scan.commits_examined() <= 100);
        assert_eq!(scan.commits_examined(), std::cmp::min(i + 1, 100));
    }
    assert!(!scan.wants_more());
    let loud = commit(vec![line('+', &aws_key())]);
    assert!(scan.commit_is_suspect(&loud));
    scan.visit(&loud);
    assert!(!scan.is_flagged());
    assert_eq!(scan.commits_examined(), 100);
    scan.record(true);
    assert!(!scan.is_flagged());
}

#[test]
fn the_scan_keeps_its_flag() {
    let mut scan = HistoryScan::new();
    scan.record(false);
    assert!(!scan.is_flagged());
    scan.record(true);
    assert!(scan.is_flagged());
    scan.record(false);
    assert!(scan.is_flagged());
    assert_eq!(scan.commits_examined(), 3);
    let mut report = Report::new();
    scan.conclude(&mut report);
    assert_eq!(report.results[0].status, Status::Warn);
}

#[test]
fn gitignore_lines() {
    let content = "# comment\n\n  target/  \n*.pyc\r\n#.env\n.DS_Store";
    assert!(gitignore_contains(content, "target/"));
    assert!(gitignore_contains(content, "*.pyc"));
    assert!(gitignore_contains(content, ".DS_Store"));
    assert!(!gitignore_contains(content, ".env"));
    assert!(!gitignore_contains(content, "target"));
    assert!(!gitignore_contains(content, "# comment"));
    assert!(gitignore_contains(content, ""));
    assert!(!gitignore_contains("# only a comment\n\n  \n", ""));
    assert!(!gitignore_contains("", ".env"));
    assert!(!gitignore_contains("", ""));
}

#[test]
fn gitignore_pattern_without_its_slash() {
    assert!(gitignore_contains("node_modules\n", "node_modules/"));
    assert!(gitignore_contains("node_modules/\n", "node_modules/"));
    assert!(gitignore_contains("dist\n", "dist///"));
    assert!(!gitignore_contains("node_modules/\n", "node_modules"));
    assert!(!gitignore_contains("my_node_modules\n", "node_modules/"));
    assert!(!gitignore_contains("node_modules/sub\n", "node_modules/"));
}

#[test]
fn gitignore_trims_unicode_space() {
    assert!(gitignore_contains("\u{a0}\t.env\u{2003}\u{3000}\n", ".env"));
    assert!(gitignore_contains("\u{b}.env\u{c}", ".env"));
    assert!(!gitignore_contains(".e nv\n", ".env"));
}

#[test]
fn gitignore_line_that_ends_with_the_pattern() {
    assert!(gitignore_contains("config/.env\n", ".env"));
    assert!(gitignore_contains("  secrets/*.pem \r\nother\n", "*.pem"));
    assert!(gitignore_contains("**/target/\n", "target/"));
    assert!(gitignore_contains("my_node_modules\n", "node_modules"));
    assert!(gitignore_contains("\u{200b}.env\n", ".env"));
    assert!(!gitignore_contains("# config/.env\n", ".env"));
    assert!(!gitignore_contains(".env/config\n", ".env"));
    assert!(!gitignore_contains(".environment\n", ".env"));
    assert!(!gitignore_contains("env\n", ".env"));
    assert!(!gitignore_contains("config/\n.env.local\n", ".env"));
}

#[test]
fn extension_among_names() {
    let names = vec!["README.md".to_string(), "setup.cfg".to_string(), "tool.py".to_string()];
    assert!(has_files_with_extension(&names, ".py"));
    assert!(has_files_with_extension(&names, ".md"));
    assert!(!has_files_with_extension(&names, ".rs"));
    assert!(!has_files_with_extension(&vec![], ".py"));
    assert!(!has_files_with_extension(&vec!["py".to_string()], ".py"));
}

#[test]
fn artifacts_without_any_ecosystem() {
    let project = bare_project();
    assert_eq!(
        detect_relevant_artifacts(&project),
        vec![
            (".DS_Store", "macOS metadata files"),
            ("release/", "release-scholar build artifacts"),
        ]
    );
}

#[test]
fn artifacts_with_every_ecosystem() {
    let mut project = bare_project();
    project.present = vec![
        "build.gradle".to_string(),
        "requirements.txt".to_string(),
        "Cargo.toml".to_string(),
        "package.json".to_string(),
    ];
    let got = detect_relevant_artifacts(&project);
    assert_eq!(
        got,
        vec![
            ("*.class", "Java compiled classes"),
            ("*.egg-info", "Python package metadata"),
            ("*.pyc", "Python compiled files"),
            (".DS_Store", "macOS metadata files"),
            ("__pycache__/", "Python bytecode cache"),
            ("dist/", "Python distribution output"),
            ("node_modules/", "Node.js dependencies"),
            ("release/", "release-scholar build artifacts"),
            ("target/", "Java/Maven build output"),
        ]
    );
    let mut sorted = got.clone();
    sorted.sort_by_key(|&(p, _)| p);
    sorted.dedup_by_key(|&mut (p, _)| p);
    assert_eq!(got, sorted);
}

#[test]
fn artifacts_for_rust_and_for_python_sources() {
    let mut project = bare_project();
    project.present = vec!["Cargo.toml".to_string()];
    assert_eq!(
        detect_relevant_artifacts(&project),
        vec![
            (".DS_Store", "macOS metadata files"),
            ("release/", "release-scholar build artifacts"),
            ("target/", "Rust/Cargo build output"),
        ]
    );
    let mut project = bare_project();
    project.root_entries = vec!["tool.py".to_string()];
    assert_eq!(
        detect_relevant_artifacts(&project),
        vec![
            ("*.egg-info", "Python package metadata"),
            ("*.pyc", "Python compiled files"),
            (".DS_Store", "macOS metadata files"),
            ("__pycache__/", "Python bytecode cache"),
            ("dist/", "Python distribution output"),
            ("release/", "release-scholar build artifacts"),
        ]
    );
}

#[test]
fn audit_without_an_ignore_file() {
    let project = bare_project();
    let mut report = Report::new();
    audit_gitignore(&project, &mut report);
    assert_eq!(messages(&report), vec![(Status::Warn, ".gitignore not found".to_string())]);
    assert_eq!(report.results[0].category, "Gitignore");
}

#[test]
fn audit_of_an_unreadable_ignore_file() {
    let mut project = bare_project();
    project.gitignore = IgnoreFile::Unreadable;
    let mut report = Report::new();
    audit_gitignore(&project, &mut report);
    assert_eq!(report.results.len(), 0);
}

#[test]
fn audit_of_a_complete_ignore_file() {
    let mut project = bare_project();
    project.present = vec!["Cargo.toml".to_string()];
    project.gitignore = IgnoreFile::Content(
        ".env\n.DS_Store\n*.pem\n*.key\nid_rsa\nrelease/\ntarget\n".to_string(),
    );
    let mut report = Report::new();
    audit_gitignore(&project, &mut report);
    assert_eq!(
        messages(&report),
        vec![
            (Status::Pass, "Covers common sensitive file patterns".to_string()),
            (Status::Pass, "Covers build artifact patterns for detected languages".to_string()),
        ]
    );
}

#[test]
fn audit_counts_a_longer_line_that_ends_with_a_pattern() {
    let mut project = bare_project();
    project.gitignore = IgnoreFile::Content(
        "config/.env\n**/.DS_Store\nkeys/*.pem\nkeys/*.key\nssh/id_rsa\nout/release/\n".to_string(),
    );
    let mut report = Report::new();
    audit_gitignore(&project, &mut report);
    assert_eq!(
        messages(&report),
        vec![
            (Status::Pass, "Covers common sensitive file patterns".to_string()),
            (Status::Pass, "Covers build artifact patterns for detected languages".to_string()),
        ]
    );
}

#[test]
fn audit_names_what_is_missing() {
    let mut project = bare_project();
    project.present = vec!["package.json".to_string()];
    project.gitignore = IgnoreFile::Content("*.pem\n.env\n".to_string());
    let mut report = Report::new();
    audit_gitignore(&project, &mut report);
    assert_eq!(
        messages(&report),
        vec![
            (Status::Warn, "Missing security patterns: .DS_Store, *.key, id_rsa".to_string()),
            (
                Status::Warn,
                "Missing build artifact pattern: .DS_Store (macOS metadata files)".to_string()
            ),
            (
                Status::Warn,
                "Missing build artifact pattern: node_modules/ (Node.js dependencies)".to_string()
            ),
            (
                Status::Warn,
                "Missing build artifact pattern: release/ (release-scholar build artifacts)"
                    .to_string()
            ),
        ]
    );
}

#[test]
fn audit_stops_at_a_repository_that_does_not_open() {
    let mut project = bare_project();
    project.gitignore = IgnoreFile::Content(String::new());
    let mut report = Report::new();
    validate(&project, &mut report);
    assert_eq!(
        messages(&report),
        vec![(Status::Fail, "Cannot open repository for security scan".to_string())]
    );
}

#[test]
fn audit_runs_the_four_scans_in_order() {
    let mut project = bare_project();
    project.repository = Repository::Open(Checkout {
        status: Ok(vec![]),
        head: Err("unused".to_string()),
        staged: Some(vec![file("src/lib.rs", Some("pub fn f() {}"))]),
        history: Some(vec![commit(vec![line('+', "pub fn f() {}")])]),
    });
    let mut report = Report::new();
    validate(&project, &mut report);
    assert_eq!(
        messages(&report),
        vec![
            (Status::Pass, "No secrets detected in tracked files".to_string()),
            (Status::Pass, "No sensitive files tracked".to_string()),
            (Status::Pass, "No secrets found in git history (1 commits scanned)".to_string()),
            (Status::Warn, ".gitignore not found".to_string()),
        ]
    );
}

#[test]
fn audit_without_snapshot_or_history() {
    let mut project = bare_project();
    project.repository = Repository::Open(Checkout {
        status: Ok(vec![]),
        head: Err("unused".to_string()),
        staged: None,
        history: None,
    });
    let mut report = Report::new();
    validate(&project, &mut report);
    assert_eq!(messages(&report), vec![(Status::Warn, ".gitignore not found".to_string())]);
}
