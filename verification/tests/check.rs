use release_scholar::commands::check::{probe_paths, run};
use release_scholar::config::Config;
use release_scholar::project::{
    Checkout, CitationSource, Commit, DiffLine, Head, IgnoreFile, Project, Repository,
    StatusEntry, TagRef, TrackedFile,
};
use release_scholar::report::Status;

const CITATION: &str = "cff-version: 1.2.0\n\
title: Example\n\
version: 1.2.3\n\
license: MIT\n\
date-released: 2024-01-15\n\
authors:\n\
\x20 - family-names: Doe\n\
\x20   given-names: Jane\n";

fn ready_project() -> Project {
    Project {
        repository: Repository::Open(Checkout {
            status: Ok(vec![StatusEntry { path: "target".to_string(), ignored: true }]),
            head: Ok(Head {
                commit: "c0ffee".to_string(),
                tags: Ok(vec![TagRef {
                    name: "v1.2.3".to_string(),
                    commit: Some("c0ffee".to_string()),
                }]),
            }),
            staged: Some(vec![TrackedFile {
                path: "src/lib.rs".to_string(),
                content: Some("pub fn f() {}\n".to_string()),
                size: Some(14),
            }]),
            history: Some(vec![Commit {
                lines: vec![DiffLine { origin: '+', content: "pub fn f() {}".to_string() }],
            }]),
        }),
        present: vec![
            "LICENSE".to_string(),
            "README.md".to_string(),
            "CHANGELOG.md".to_string(),
            "CITATION.cff".to_string(),
            "Cargo.toml".to_string(),
        ],
        root_entries: vec!["src".to_string(), "Cargo.toml".to_string()],
        citation: CitationSource::Content(CITATION.to_string()),
        gitignore: IgnoreFile::Content(
            ".env\n.DS_Store\n*.pem\n*.key\nid_rsa\nrelease/\ntarget/\n".to_string(),
        ),
    }
}

#[test]
fn a_ready_project_passes_every_check() {
    let (report, result) = run(&ready_project(), &Config::default());
    assert_eq!(result, Ok(()));
    assert!(!report.has_failures());
    let got: Vec<(String, Status, String)> = report
        .results
        .iter()
        .map(|r| (r.category.clone(), r.status, r.message.clone()))
        .collect();
    let expected: Vec<(&str, Status, &str)> = vec![
        ("Git", Status::Pass, "Working directory is clean"),
        ("Git", Status::Pass, "HEAD is tagged: v1.2.3 (version 1.2.3)"),
        ("Files", Status::Pass, "LICENSE exists"),
        ("Files", Status::Pass, "README.md exists"),
        ("Files", Status::Pass, "CHANGELOG.md exists"),
        ("Files", Status::Pass, "CITATION.cff exists"),
        ("Citation", Status::Pass, "cff-version present"),
        ("Citation", Status::Pass, "title present"),
        ("Citation", Status::Pass, "1 author(s) found"),
        ("Citation", Status::Pass, "version matches git tag (1.2.3)"),
        ("Citation", Status::Pass, "license present"),
        ("Citation", Status::Pass, "date-released present"),
        ("Security", Status::Pass, "No secrets detected in tracked files"),
        ("Security", Status::Pass, "No sensitive files tracked"),
        ("Security", Status::Pass, "No secrets found in git history (1 commits scanned)"),
        ("Gitignore", Status::Pass, "Covers common sensitive file patterns"),
        ("Gitignore", Status::Pass, "Covers build artifact patterns for detected languages"),
        ("Size", Status::Pass, "Tracked files total 0.0 MB (1 files)"),
        ("Size", Status::Pass, "No large files detected (>1 MB)"),
    ];
    let expected: Vec<(String, Status, String)> =
        expected.into_iter().map(|(c, s, m)| (c.to_string(), s, m.to_string())).collect();
    assert_eq!(got, expected);
}

#[test]
fn without_a_tag_no_version_check_is_made() {
    let mut project = ready_project();
    if let Repository::Open(checkout) = &mut project.repository {
        checkout.head = Ok(Head { commit: "c0ffee".to_string(), tags: Ok(vec![]) });
    }
    let (report, result) = run(&project, &Config::default());
    assert_eq!(result, Err("Validation failed".to_string()));
    let tag_fails: Vec<&str> = report
        .results
        .iter()
        .filter(|r| r.category == "Git" && r.status == Status::Fail)
        .map(|r| r.message.as_str())
        .collect();
    assert_eq!(tag_fails, vec!["HEAD has no semver tag (expected vX.Y.Z)"]);
    let citation: Vec<&str> = report
        .results
        .iter()
        .filter(|r| r.category == "Citation")
        .map(|r| r.message.as_str())
        .collect();
    assert_eq!(
        citation,
        vec![
            "cff-version present",
            "title present",
            "1 author(s) found",
            "license present",
            "date-released present",
        ]
    );
}

#[test]
fn a_failing_validator_does_not_stop_the_others() {
    let project = Project {
        repository: Repository::Unavailable("not a repository".to_string()),
        present: vec![],
        root_entries: vec![],
        citation: CitationSource::Missing,
        gitignore: IgnoreFile::Missing,
    };
    let (report, result) = run(&project, &Config::default());
    assert_eq!(result, Err("Validation failed".to_string()));
    assert!(report.has_failures());
    let got: Vec<(&str, Status)> =
        report.results.iter().map(|r| (r.category.as_str(), r.status)).collect();
    assert_eq!(
        got,
        vec![
            ("Git", Status::Fail),
            ("Files", Status::Fail),
            ("Files", Status::Fail),
            ("Files", Status::Fail),
            ("Files", Status::Fail),
            ("Citation", Status::Fail),
            ("Security", Status::Fail),
            ("Size", Status::Fail),
        ]
    );
    let cannot_open: Vec<&str> = report
        .results
        .iter()
        .filter(|r| r.message.starts_with("Cannot open repository"))
        .map(|r| r.category.as_str())
        .collect();
    assert_eq!(cannot_open, vec!["Git", "Security", "Size"]);
}

#[test]
fn warnings_alone_do_not_fail_a_run() {
    let mut project = ready_project();
    if let Repository::Open(checkout) = &mut project.repository {
        checkout.status = Ok(vec![StatusEntry { path: "notes.txt".to_string(), ignored: false }]);
    }
    let (report, result) = run(&project, &Config::default());
    assert_eq!(result, Ok(()));
    assert_eq!(report.results[0].status, Status::Warn);
}

#[test]
fn paths_to_probe() {
    let paths = probe_paths(&Config::default());
    assert_eq!(
        paths,
        vec![
            "LICENSE",
            "README.md",
            "CHANGELOG.md",
            "CITATION.cff",
            "pom.xml",
            "build.gradle",
            "setup.py",
            "pyproject.toml",
            "requirements.txt",
            "Cargo.toml",
            "package.json",
        ]
    );
}
