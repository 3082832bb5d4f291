//! The repository check: whether the working tree is clean, and which
//! version tag, if any, stands on the commit that is checked out.

use crate::pattern::{regex_group, regex_valid, Pattern};
use crate::project::{Head, Project, Repository, StatusEntry, TagRef};
use crate::report::{failed, passed, warned, Finding, Report, Status};
use crate::text::{decimal, decimal_text, join, join_texts, same_text, texts};
use vstd::prelude::*;
use vstd::string::*;

verus! {

/// The pattern of a version tag: `v`, then three numbers of digits `0` to
/// `9` with dots between them; the group holds what follows the `v`.
pub const SEMVER_PATTERN: &'static str = "^v([0-9]+\\.[0-9]+\\.[0-9]+)$";

/// At most this many changed paths are listed in the warning.
pub const LISTED_CHANGES: usize = 5;

/// The version tag on the head and the version it names.
#[derive(Debug, Clone)]
pub struct GitInfo {
    pub version: String,
    pub tag: String,
}

/// The version that a tag name carries, if it is a version tag.
pub open spec fn semver_capture(name: Seq<char>) -> Option<Seq<char>> {
    if regex_valid(SEMVER_PATTERN@) {
        regex_group(SEMVER_PATTERN@, name, 1)
    } else {
        None
    }
}

/// The versions that the names of a list of tags carry.
pub open spec fn tag_versions(tags: Seq<TagRef>) -> Seq<Option<Seq<char>>> {
    Seq::new(tags.len(), |i: int| semver_capture(tags[i].name@))
}

/// The views of a list of versions.
pub open spec fn version_views(versions: Seq<Option<String>>) -> Seq<Option<Seq<char>>> {
    Seq::new(
        versions.len(),
        |i: int|
            match versions[i] {
                Some(v) => Some(v@),
                None => None,
            },
    )
}

/// The paths of the entries that are not marked as ignored, in order.
pub open spec fn dirty_paths(entries: Seq<StatusEntry>) -> Seq<Seq<char>>
    decreases entries.len(),
{
    if entries.len() == 0 {
        Seq::empty()
    } else {
        dirty_paths(entries.drop_last()) + if entries.last().ignored {
            Seq::empty()
        } else {
            seq![entries.last().path@]
        }
    }
}

/// The first `LISTED_CHANGES` of a list of paths, or all of them.
pub open spec fn listed_changes(paths: Seq<Seq<char>>) -> Seq<Seq<char>> {
    if paths.len() <= LISTED_CHANGES {
        paths
    } else {
        paths.take(LISTED_CHANGES as int)
    }
}

/// The finding on the working tree: a pass without a change, else a warning
/// with the number of changes and the first of their paths. A status that
/// could not be read is a failure.
pub open spec fn status_findings(status: Result<Vec<StatusEntry>, String>) -> Seq<Finding> {
    match status {
        Ok(entries) => {
            let dirty = dirty_paths(entries@);
            if dirty.len() == 0 {
                seq![passed("Git"@, "Working directory is clean"@)]
            } else {
                seq![
                    warned(
                        "Git"@,
                        "Working directory has "@ + decimal(dirty.len()) + " uncommitted change(s): "@
                            + join(listed_changes(dirty), ", "@),
                    ),
                ]
            }
        },
        Err(why) => seq![failed("Git"@, "Cannot check status: "@ + why@)],
    }
}

/// Tag `i` carries a version and leads to the head commit.
pub open spec fn at_head(
    tags: Seq<TagRef>,
    versions: Seq<Option<Seq<char>>>,
    head: Seq<char>,
    i: int,
) -> bool {
    &&& 0 <= i < tags.len()
    &&& i < versions.len()
    &&& versions[i] is Some
    &&& tags[i].commit matches Some(commit) && commit@ == head
}

/// The first tag from `from` on that carries a version and leads to the head
/// commit.
pub open spec fn first_at_head(
    tags: Seq<TagRef>,
    versions: Seq<Option<Seq<char>>>,
    head: Seq<char>,
    from: int,
) -> Option<int>
    decreases tags.len() - from,
{
    if from < 0 || from >= tags.len() {
        None
    } else if at_head(tags, versions, head, from) {
        Some(from)
    } else {
        first_at_head(tags, versions, head, from + 1)
    }
}

/// The tag and the version that are chosen, given the version of each tag:
/// those of the first tag that carries a version and leads to the head.
pub open spec fn chosen_tag(tags: Seq<TagRef>, versions: Seq<Option<Seq<char>>>, head: Seq<char>)
    -> Option<(Seq<char>, Seq<char>)> {
    match first_at_head(tags, versions, head, 0) {
        Some(i) => Some((tags[i].name@, versions[i].unwrap())),
        None => None,
    }
}

/// The finding on the tag of the head.
pub open spec fn tag_findings(chosen: Option<(Seq<char>, Seq<char>)>) -> Seq<Finding> {
    match chosen {
        Some((tag, version)) => seq![
            passed("Git"@, "HEAD is tagged: "@ + tag + " (version "@ + version + ")"@),
        ],
        None => seq![failed("Git"@, "HEAD has no semver tag (expected vX.Y.Z)"@)],
    }
}

/// The tag and version that the check returns for a repository.
pub open spec fn head_tag(repository: Repository) -> Option<(Seq<char>, Seq<char>)> {
    match repository {
        Repository::Open(checkout) => match checkout.head {
            Ok(head) => match head.tags {
                Ok(tags) => chosen_tag(tags@, tag_versions(tags@), head.commit@),
                Err(_) => None,
            },
            Err(_) => None,
        },
        Repository::Unavailable(_) => None,
    }
}

/// The findings on the head: a failure where the head or the tags could not
/// be read, else the finding on the chosen tag.
pub open spec fn head_findings(head: Result<Head, String>) -> Seq<Finding> {
    match head {
        Ok(head) => match head.tags {
            Ok(tags) => tag_findings(chosen_tag(tags@, tag_versions(tags@), head.commit@)),
            Err(why) => seq![failed("Git"@, "Cannot list tags: "@ + why@)],
        },
        Err(why) => seq![failed("Git"@, "Cannot read HEAD: "@ + why@)],
    }
}

/// Everything the check reports on a repository.
pub open spec fn git_findings(repository: Repository) -> Seq<Finding> {
    match repository {
        Repository::Open(checkout) => status_findings(checkout.status) + head_findings(
            checkout.head,
        ),
        Repository::Unavailable(why) => seq![failed("Git"@, "Cannot open repository: "@ + why@)],
    }
}

/// What `info` stands for: its tag and its version.
pub open spec fn info_view(info: Option<GitInfo>) -> Option<(Seq<char>, Seq<char>)> {
    match info {
        Some(info) => Some((info.tag@, info.version@)),
        None => None,
    }
}

/// A working tree that could be read never gives a failure, whatever has
/// changed in it, and always gives exactly one finding.
pub proof fn lemma_dirty_tree_never_fails(entries: Vec<StatusEntry>)
    ensures
        status_findings(Ok(entries)).len() == 1,
        status_findings(Ok(entries))[0].status != Status::Fail,
        status_findings(Ok(entries))[0].status == Status::Pass <==> dirty_paths(entries@).len()
            == 0,
{
}

/// The head gives exactly one finding, and it is a pass exactly when a tag
/// is chosen.
pub proof fn lemma_tag_finding(chosen: Option<(Seq<char>, Seq<char>)>)
    ensures
        tag_findings(chosen).len() == 1,
        tag_findings(chosen)[0].status == Status::Pass <==> chosen is Some,
        tag_findings(chosen)[0].status == Status::Fail <==> chosen is None,
{
}

/// The tag that is chosen carries a version and leads to the head, and no
/// tag listed before it does both; without any such tag none is chosen.
pub proof fn lemma_first_at_head(
    tags: Seq<TagRef>,
    versions: Seq<Option<Seq<char>>>,
    head: Seq<char>,
    from: int,
)
    requires
        0 <= from,
    ensures
        match first_at_head(tags, versions, head, from) {
            Some(i) => from <= i < tags.len() && at_head(tags, versions, head, i) && forall|
                k: int,
            |
                from <= k < i ==> !at_head(tags, versions, head, k),
            None => forall|k: int| from <= k < tags.len() ==> !at_head(tags, versions, head, k),
        },
    decreases tags.len() - from,
{
    if from < tags.len() && !at_head(tags, versions, head, from) {
        lemma_first_at_head(tags, versions, head, from + 1);
    }
}

fn version_with(pattern: &Option<Pattern>, name: &str) -> (r: Option<String>)
    requires
        pattern.is_some() == regex_valid(SEMVER_PATTERN@),
        pattern matches Some(p) ==> p@ == SEMVER_PATTERN@,
    ensures
        r.is_some() == semver_capture(name@).is_some(),
        r matches Some(v) ==> semver_capture(name@) == Some(v@),
{
    match pattern {
        Some(p) => p.group(name, 1),
        None => None,
    }
}

/// The version that a tag name carries: what follows the `v` where the name
/// is a version tag, `None` where it is not.
pub fn semver_version(name: &str) -> (r: Option<String>)
    ensures
        r.is_some() == semver_capture(name@).is_some(),
        r matches Some(v) ==> semver_capture(name@) == Some(v@),
{
    let pattern = Pattern::compile(SEMVER_PATTERN);
    version_with(&pattern, name)
}

/// The version of each tag of a list, in order.
pub fn versions_of(tags: &Vec<TagRef>) -> (r: Vec<Option<String>>)
    ensures
        version_views(r@) == tag_versions(tags@),
{
    let pattern = Pattern::compile(SEMVER_PATTERN);
    let mut versions: Vec<Option<String>> = Vec::new();
    let mut i: usize = 0;
    while i < tags.len()
        invariant
            i <= tags.len(),
            pattern.is_some() == regex_valid(SEMVER_PATTERN@),
            pattern matches Some(p) ==> p@ == SEMVER_PATTERN@,
            versions@.len() == i,
            forall|k: int| 0 <= k < i ==> version_views(versions@)[k] == tag_versions(tags@)[k],
        decreases tags.len() - i,
    {
        let version = version_with(&pattern, tags[i].name.as_str());
        versions.push(version);
        i += 1;
    }
    assert(version_views(versions@) =~= tag_versions(tags@));
    versions
}

/// Chooses the tag of the head, given the version that each tag carries:
/// the first tag, in the order of the list, that carries a version and leads
/// to `head`. Nothing else is looked at, so of several version tags on the
/// head the first one listed wins. A tag beyond the end of `versions` counts
/// as carrying none.
pub fn select_tag(head: &str, tags: &Vec<TagRef>, versions: &Vec<Option<String>>) -> (r: Option<
    GitInfo,
>)
    ensures
        info_view(r) == chosen_tag(tags@, version_views(versions@), head@),
{
    let ghost views = version_views(versions@);
    let mut i: usize = 0;
    while i < tags.len()
        invariant
            i <= tags.len(),
            views == version_views(versions@),
            first_at_head(tags@, views, head@, 0) == first_at_head(tags@, views, head@, i as int),
        decreases tags.len() - i,
    {
        if i < versions.len() {
            let at_head = match (&versions[i], &tags[i].commit) {
                (Some(_), Some(commit)) => same_text(commit.as_str(), head),
                _ => false,
            };
            assert(at_head == self::at_head(tags@, views, head@, i as int));
            if at_head {
                match &versions[i] {
                    Some(version) => {
                        return Some(
                            GitInfo { version: version.clone(), tag: tags[i].name.clone() },
                        );
                    },
                    None => {},
                }
            }
        }
        i += 1;
    }
    None
}

/// Appends the finding on the working tree.
pub fn report_status(status: &Result<Vec<StatusEntry>, String>, report: &mut Report)
    ensures
        final(report)@ == old(report)@ + status_findings(*status),
{
    let entries = match status {
        Ok(entries) => entries,
        Err(why) => {
            let mut message = String::from_str("Cannot check status: ");
            message.append(why.as_str());
            report.fail("Git", message.as_str());
            assert(report@ =~= old(report)@ + status_findings(*status));
            return ;
        },
    };
    let mut count: usize = 0;
    let mut shown: Vec<String> = Vec::new();
    let mut i: usize = 0;
    while i < entries.len()
        invariant
            i <= entries.len(),
            count <= i,
            count == dirty_paths(entries@.take(i as int)).len(),
            texts(shown@) == listed_changes(dirty_paths(entries@.take(i as int))),
        decreases entries.len() - i,
    {
        proof {
            assert(entries@.take(i + 1).drop_last() =~= entries@.take(i as int));
            assert(entries@.take(i + 1).last() == entries@[i as int]);
        }
        let ghost before = dirty_paths(entries@.take(i as int));
        if !entries[i].ignored {
            if count < LISTED_CHANGES {
                shown.push(entries[i].path.clone());
                assert(texts(shown@) =~= before.push(entries@[i as int].path@));
            } else {
                assert(before.push(entries@[i as int].path@).take(LISTED_CHANGES as int)
                    =~= before.take(LISTED_CHANGES as int));
            }
            count += 1;
            assert(dirty_paths(entries@.take(i + 1)) =~= before.push(entries@[i as int].path@));
        } else {
            assert(dirty_paths(entries@.take(i + 1)) =~= before);
        }
        i += 1;
    }
    assert(entries@.take(i as int) =~= entries@);
    if count == 0 {
        report.pass("Git", "Working directory is clean");
    } else {
        let mut message = String::from_str("Working directory has ");
        message.append(decimal_text(count as u64).as_str());
        message.append(" uncommitted change(s): ");
        message.append(join_texts(&shown, ", ").as_str());
        report.warn("Git", message.as_str());
    }
    assert(report@ =~= old(report)@ + status_findings(*status));
}

/// Appends the finding on the tag that was chosen for the head.
pub fn report_tag(chosen: &Option<GitInfo>, report: &mut Report)
    ensures
        final(report)@ == old(report)@ + tag_findings(info_view(*chosen)),
{
    match chosen {
        Some(info) => {
            let mut message = String::from_str("HEAD is tagged: ");
            message.append(info.tag.as_str());
            message.append(" (version ");
            message.append(info.version.as_str());
            message.append(")");
            report.pass("Git", message.as_str());
        },
        None => {
            report.fail("Git", "HEAD has no semver tag (expected vX.Y.Z)");
        },
    }
    assert(report@ =~= old(report)@ + tag_findings(info_view(*chosen)));
}

/// Checks the repository of a project and returns the version tag of its
/// head.
///
/// A repository that did not open is one failure. Otherwise the working
/// tree is reported first; then the head: a failure where it or the tags
/// could not be read, a pass with the first version tag that leads to the
/// head commit, or a failure where no version tag does. The tag and its
/// version are returned exactly when that pass is reported.
pub fn validate(project: &Project, report: &mut Report) -> (r: Option<GitInfo>)
    ensures
        final(report)@ == old(report)@ + git_findings(project.repository),
        info_view(r) == head_tag(project.repository),
{
    let checkout = match &project.repository {
        Repository::Open(checkout) => checkout,
        Repository::Unavailable(why) => {
            let mut message = String::from_str("Cannot open repository: ");
            message.append(why.as_str());
            report.fail("Git", message.as_str());
            assert(report@ =~= old(report)@ + git_findings(project.repository));
            return None;
        },
    };
    report_status(&checkout.status, report);
    let ghost base = report@;
    let head = match &checkout.head {
        Ok(head) => head,
        Err(why) => {
            let mut message = String::from_str("Cannot read HEAD: ");
            message.append(why.as_str());
            report.fail("Git", message.as_str());
            assert(report@ =~= old(report)@ + git_findings(project.repository));
            return None;
        },
    };
    let tags = match &head.tags {
        Ok(tags) => tags,
        Err(why) => {
            let mut message = String::from_str("Cannot list tags: ");
            message.append(why.as_str());
            report.fail("Git", message.as_str());
            assert(report@ =~= old(report)@ + git_findings(project.repository));
            return None;
        },
    };
    let versions = versions_of(tags);
    let chosen = select_tag(head.commit.as_str(), tags, &versions);
    report_tag(&chosen, report);
    assert(report@ =~= old(report)@ + git_findings(project.repository));
    chosen
}

} // verus!
