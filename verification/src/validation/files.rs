//! The presence check: each file that a release needs has to exist.

use crate::config::Config;
use crate::project::{is_listed, listed, Project};
use crate::report::{failed, passed, Finding, Report, Status};
use vstd::prelude::*;
use vstd::string::*;

verus! {

/// The finding on one required file.
pub open spec fn file_finding(file: Seq<char>, present: bool) -> Finding {
    if present {
        passed("Files"@, file + " exists"@)
    } else {
        failed("Files"@, file + " is missing"@)
    }
}

/// One finding per required file, in the order of the list: a pass where the
/// file is among those that exist, a failure where it is not.
pub open spec fn files_findings(required: Seq<String>, present: Seq<String>) -> Seq<Finding> {
    Seq::new(required.len(), |i: int| file_finding(required[i]@, listed(present, required[i]@)))
}

/// There is one finding per required file, in the order of the list, and
/// it is a pass exactly where the file exists.
pub proof fn lemma_one_finding_per_file(required: Seq<String>, present: Seq<String>, i: int)
    requires
        0 <= i < required.len(),
    ensures
        files_findings(required, present).len() == required.len(),
        files_findings(required, present)[i].status == Status::Pass <==> listed(
            present,
            required[i]@,
        ),
        files_findings(required, present)[i].status == Status::Fail <==> !listed(
            present,
            required[i]@,
        ),
{
}

/// Checks that each required file of the settings exists in the project.
pub fn validate(project: &Project, config: &Config, report: &mut Report)
    ensures
        final(report)@ == old(report)@ + files_findings(config.required_files@, project.present@),
{
    let mut i: usize = 0;
    while i < config.required_files.len()
        invariant
            i <= config.required_files.len(),
            report@ == old(report)@ + files_findings(
                config.required_files@,
                project.present@,
            ).take(i as int),
        decreases config.required_files.len() - i,
    {
        let file = config.required_files[i].as_str();
        let mut message = String::from_str(file);
        if is_listed(&project.present, file) {
            message.append(" exists");
            report.pass("Files", message.as_str());
        } else {
            message.append(" is missing");
            report.fail("Files", message.as_str());
        }
        assert(report@ =~= old(report)@ + files_findings(
            config.required_files@,
            project.present@,
        ).take(i + 1));
        i += 1;
    }
    assert(files_findings(config.required_files@, project.present@).take(i as int)
        =~= files_findings(config.required_files@, project.present@));
}

} // verus!
