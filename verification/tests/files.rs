use release_scholar::config::Config;
use release_scholar::project::{CitationSource, IgnoreFile, Project, Repository};
use release_scholar::report::{Report, Status};
use release_scholar::validation::files::validate;

fn project_with(present: Vec<&str>) -> Project {
    Project {
        repository: Repository::Unavailable("unused".to_string()),
        present: present.into_iter().map(|p| p.to_string()).collect(),
        root_entries: vec![],
        citation: CitationSource::Missing,
        gitignore: IgnoreFile::Missing,
    }
}

#[test]
fn one_finding_per_required_file_in_order() {
    let project = project_with(vec!["README.md", "CITATION.cff", "pom.xml"]);
    let config = Config::default();
    let mut report = Report::new();
    validate(&project, &config, &mut report);
    let got: Vec<(Status, String)> =
        report.results.iter().map(|r| (r.status, r.message.clone())).collect();
    assert_eq!(
        got,
        vec![
            (Status::Fail, "LICENSE is missing".to_string()),
            (Status::Pass, "README.md exists".to_string()),
            (Status::Fail, "CHANGELOG.md is missing".to_string()),
            (Status::Pass, "CITATION.cff exists".to_string()),
        ]
    );
    assert!(report.results.iter().all(|r| r.category == "Files"));
}

#[test]
fn no_required_files_no_findings() {
    let project = project_with(vec!["README.md"]);
    let mut config = Config::default();
    config.required_files = vec![];
    let mut report = Report::new();
    validate(&project, &config, &mut report);
    assert_eq!(report.results.len(), 0);
}

#[test]
fn names_are_compared_whole() {
    let project = project_with(vec!["README.md.bak", "docs/README.md", "readme.md"]);
    let mut config = Config::default();
    config.required_files = vec!["README.md".to_string(), "docs/README.md".to_string()];
    let mut report = Report::new();
    validate(&project, &config, &mut report);
    assert_eq!(report.results[0].status, Status::Fail);
    assert_eq!(report.results[1].status, Status::Pass);
    assert_eq!(report.results[1].message, "docs/README.md exists");
}
