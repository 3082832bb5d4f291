//! The readiness check: every validator in turn, on one report.

use crate::config::{file_names, Config};
use crate::project::Project;
use crate::report::{has_failure, Finding, Report};
use crate::validation::citation::{
    citation_findings, document_findings, version_findings, CitationModel,
};
use crate::validation::files::files_findings;
use crate::validation::git::{git_findings, head_tag};
use crate::validation::security::security_findings;
use crate::validation::size::size_audit;
use crate::validation::{citation, files, git, security, size};
use vstd::prelude::*;
use vstd::string::*;

verus! {

/// The files whose presence tells which ecosystems a project holds.
pub open spec fn marker_files() -> Seq<Seq<char>> {
    seq![
        "pom.xml"@,
        "build.gradle"@,
        "setup.py"@,
        "pyproject.toml"@,
        "requirements.txt"@,
        "Cargo.toml"@,
        "package.json"@,
    ]
}

/// The version that the citation check is held to: that of the tag on the
/// head, and none without such a tag.
pub open spec fn expected_version(project: Project) -> Option<Seq<char>> {
    match head_tag(project.repository) {
        Some((_, version)) => Some(version),
        None => None,
    }
}

/// The findings of a run: those of the repository check, the presence
/// check, the citation check, the security audit and the size audit, in this
/// order.
pub open spec fn check_findings(project: Project, config: Config) -> Seq<Finding> {
    git_findings(project.repository) + files_findings(config.required_files@, project.present@)
        + citation_findings(project.citation, expected_version(project)) + security_findings(
        project,
    ) + size_audit(project)
}

/// The relative paths whose existence a `Project` has to know of for a run
/// with these settings: the required files, then the marker files.
pub fn probe_paths(config: &Config) -> (r: Vec<String>)
    ensures
        file_names(r@) == file_names(config.required_files@) + marker_files(),
{
    let mut paths: Vec<String> = Vec::new();
    let mut i: usize = 0;
    while i < config.required_files.len()
        invariant
            i <= config.required_files.len(),
            file_names(paths@) == file_names(config.required_files@).take(i as int),
        decreases config.required_files.len() - i,
    {
        let ghost before = file_names(paths@);
        let file = config.required_files[i].clone();
        paths.push(file);
        assert(file_names(paths@) =~= before.push(config.required_files@[i as int]@));
        assert(file_names(paths@) =~= file_names(config.required_files@).take(i + 1));
        i += 1;
    }
    assert(file_names(config.required_files@).take(i as int) =~= file_names(
        config.required_files@,
    ));
    paths.push(String::from_str("pom.xml"));
    paths.push(String::from_str("build.gradle"));
    paths.push(String::from_str("setup.py"));
    paths.push(String::from_str("pyproject.toml"));
    paths.push(String::from_str("requirements.txt"));
    paths.push(String::from_str("Cargo.toml"));
    paths.push(String::from_str("package.json"));
    assert(file_names(paths@) =~= file_names(config.required_files@) + marker_files());
    paths
}

/// Runs every validator on a project and returns the report with the
/// verdict on it.
///
/// The validators run in a fixed order on one report, and each one runs
/// whatever the others found. The citation check is held to the version of
/// the tag that the repository check returned, and makes no version check
/// where it returned none. The result is an error exactly when the report
/// holds a failure.
pub fn run(project: &Project, config: &Config) -> (r: (Report, Result<(), String>))
    ensures
        r.0@ == check_findings(*project, *config),
        r.1 is Err <==> has_failure(r.0@),
        r.1 matches Err(why) ==> why@ == "Validation failed"@,
{
    let mut report = Report::new();
    let git_info = git::validate(project, &mut report);
    files::validate(project, config, &mut report);
    match &git_info {
        Some(info) => citation::validate(project, Some(info.version.as_str()), &mut report),
        None => citation::validate(project, None, &mut report),
    }
    security::validate(project, &mut report);
    size::validate(project, &mut report);
    assert(report@ =~= check_findings(*project, *config));
    let result = if report.has_failures() {
        Err(String::from_str("Validation failed"))
    } else {
        Ok(())
    };
    (report, result)
}

/// Without a version tag on the head the citation check of a run makes no
/// version check: whatever the document holds, no finding speaks of its
/// version.
pub proof fn lemma_no_tag_no_version_check(project: Project, doc: CitationModel)
    requires
        head_tag(project.repository) is None,
    ensures
        expected_version(project) is None,
        document_findings(doc, expected_version(project)) == document_findings(doc, None),
        version_findings(doc.version, expected_version(project))
            == Seq::<Finding>::empty(),
{
}

} // verus!
