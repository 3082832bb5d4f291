//! The audit of the ignore file: whether it keeps sensitive files and the
//! build output of the project's ecosystems out of the repository.

use crate::project::{IgnoreFile, Project};
use crate::report::{passed, warned, Finding, Report};
use crate::text::{
    chars_end_with, chars_of, ends_with, join, join_texts, lemma_first_newline_at, lines,
    same_range, strip_cr, strip_trailing, stripped_len, texts, trim, trim_bounds,
};
use vstd::prelude::*;
use vstd::string::*;

verus! {

/// A line of an ignore file names `pattern`: trimmed, it is neither empty
/// nor a comment, and it ends with the pattern, or is the pattern without
/// the slashes at its end.
pub open spec fn line_covers(line: Seq<char>, pattern: Seq<char>) -> bool {
    let entry = trim(line);
    &&& entry.len() > 0
    &&& entry[0] != '#'
    &&& (ends_with(entry, pattern) || entry == strip_trailing(pattern, '/'))
}

/// One of the lines names `pattern`.
pub open spec fn any_covers(lines: Seq<Seq<char>>, pattern: Seq<char>) -> bool {
    exists|i: int| 0 <= i < lines.len() && line_covers(lines[i], pattern)
}

/// An ignore file with this content names `pattern`.
pub open spec fn covered(content: Seq<char>, pattern: Seq<char>) -> bool {
    any_covers(lines(content), pattern)
}

/// The patterns that an ignore file should hold to keep secrets out.
pub open spec fn recommended_patterns() -> Seq<Seq<char>> {
    seq![".env"@, ".DS_Store"@, "*.pem"@, "*.key"@, "id_rsa"@]
}

/// Those of `patterns` that the content does not name, in order.
pub open spec fn missing_patterns(content: Seq<char>, patterns: Seq<Seq<char>>) -> Seq<Seq<char>>
    decreases patterns.len(),
{
    if patterns.len() == 0 {
        Seq::empty()
    } else {
        missing_patterns(content, patterns.drop_last()) + if covered(content, patterns.last()) {
            Seq::empty()
        } else {
            seq![patterns.last()]
        }
    }
}

/// The finding on the recommended patterns: a pass where all are named,
/// else one warning that lists those that are not.
pub open spec fn security_finding(content: Seq<char>) -> Finding {
    let missing = missing_patterns(content, recommended_patterns());
    if missing.len() == 0 {
        passed("Gitignore"@, "Covers common sensitive file patterns"@)
    } else {
        warned("Gitignore"@, "Missing security patterns: "@ + join(missing, ", "@))
    }
}

/// The warning on one build artifact pattern that is not named.
pub open spec fn artifact_finding(artifact: (&'static str, &'static str)) -> Finding {
    warned(
        "Gitignore"@,
        "Missing build artifact pattern: "@ + artifact.0@ + " ("@ + artifact.1@ + ")"@,
    )
}

/// One warning per relevant pattern that the content does not name.
pub open spec fn artifact_lines(content: Seq<char>, relevant: Seq<(&'static str, &'static str)>)
    -> Seq<Finding>
    decreases relevant.len(),
{
    if relevant.len() == 0 {
        Seq::empty()
    } else {
        artifact_lines(content, relevant.drop_last()) + if covered(content, relevant.last().0@) {
            Seq::empty()
        } else {
            seq![artifact_finding(relevant.last())]
        }
    }
}

/// The findings on the build artifact patterns, or the one pass that says
/// that all are named.
pub open spec fn artifact_findings(content: Seq<char>, relevant: Seq<(&'static str, &'static str)>)
    -> Seq<Finding> {
    if artifact_lines(content, relevant).len() == 0 {
        seq![passed("Gitignore"@, "Covers build artifact patterns for detected languages"@)]
    } else {
        artifact_lines(content, relevant)
    }
}

/// One of the names ends with `ending`.
pub open spec fn any_ends_with(names: Seq<String>, ending: Seq<char>) -> bool {
    exists|i: int| 0 <= i < names.len() && ends_with(names[i]@, ending)
}

/// A Java build is present: one of its manifests exists.
pub open spec fn has_java(project: Project) -> bool {
    project.has_path("pom.xml"@) || project.has_path("build.gradle"@)
}

/// Python is present: one of its manifests exists, or a source file lies in
/// the root directory.
pub open spec fn has_python(project: Project) -> bool {
    ||| project.has_path("setup.py"@)
    ||| project.has_path("pyproject.toml"@)
    ||| project.has_path("requirements.txt"@)
    ||| any_ends_with(project.root_entries@, ".py"@)
}

/// A Rust package is present.
pub open spec fn has_rust(project: Project) -> bool {
    project.has_path("Cargo.toml"@)
}

/// A Node.js package is present.
pub open spec fn has_node(project: Project) -> bool {
    project.has_path("package.json"@)
}

/// The build artifact patterns for the ecosystems that are present, each
/// with what it is for, in the byte order of the patterns and each pattern
/// once. The tool's own output directory and the macOS metadata file are
/// always among them; `target/` is listed for Java where both Java and Rust
/// are present.
pub open spec fn relevant_artifacts(java: bool, python: bool, rust: bool, node: bool) -> Seq<
    (&'static str, &'static str),
> {
    (if java {
        seq![("*.class", "Java compiled classes")]
    } else {
        Seq::empty()
    }) + (if python {
        seq![("*.egg-info", "Python package metadata"), ("*.pyc", "Python compiled files")]
    } else {
        Seq::empty()
    }) + seq![(".DS_Store", "macOS metadata files")] + (if python {
        seq![("__pycache__/", "Python bytecode cache"), ("dist/", "Python distribution output")]
    } else {
        Seq::empty()
    }) + (if node {
        seq![("node_modules/", "Node.js dependencies")]
    } else {
        Seq::empty()
    }) + seq![("release/", "release-scholar build artifacts")] + (if java {
        seq![("target/", "Java/Maven build output")]
    } else if rust {
        seq![("target/", "Rust/Cargo build output")]
    } else {
        Seq::empty()
    })
}

/// The relevant build artifact patterns of a project.
pub open spec fn project_artifacts(project: Project) -> Seq<(&'static str, &'static str)> {
    relevant_artifacts(has_java(project), has_python(project), has_rust(project), has_node(project))
}

/// Everything the audit reports: a warning without an ignore file, nothing
/// where it could not be read, else the finding on the recommended patterns
/// and the findings on the build artifact patterns.
pub open spec fn gitignore_findings(project: Project) -> Seq<Finding> {
    match project.gitignore {
        IgnoreFile::Missing => seq![warned("Gitignore"@, ".gitignore not found"@)],
        IgnoreFile::Unreadable => Seq::empty(),
        IgnoreFile::Content(content) => seq![security_finding(content@)] + artifact_findings(
            content@,
            project_artifacts(project),
        ),
    }
}

proof fn lemma_any_covers_first(first: Seq<char>, rest: Seq<Seq<char>>, pattern: Seq<char>)
    ensures
        any_covers(seq![first] + rest, pattern) == (line_covers(first, pattern) || any_covers(
            rest,
            pattern,
        )),
{
    let all = seq![first] + rest;
    if line_covers(first, pattern) {
        assert(line_covers(all[0], pattern));
    }
    if any_covers(rest, pattern) {
        let i = choose|i: int| 0 <= i < rest.len() && line_covers(rest[i], pattern);
        assert(line_covers(all[i + 1], pattern));
    }
    if any_covers(all, pattern) {
        let i = choose|i: int| 0 <= i < all.len() && line_covers(all[i], pattern);
        if i > 0 {
            assert(line_covers(rest[i - 1], pattern));
        }
    }
}

/// Whether one of the lines of `content` names `pattern`.
pub fn chars_cover(content: &Vec<char>, pattern: &Vec<char>) -> (r: bool)
    ensures
        r == covered(content@, pattern@),
{
    let bare = stripped_len(pattern, '/');
    assert(pattern@.subrange(0, pattern@.len() as int) =~= pattern@);
    assert(pattern@.subrange(0, bare as int) =~= pattern@.take(bare as int));
    let mut from: usize = 0;
    assert(content@.skip(0) =~= content@);
    while from < content.len()
        invariant
            from <= content.len(),
            bare <= pattern.len(),
            pattern@.subrange(0, pattern@.len() as int) == pattern@,
            pattern@.subrange(0, bare as int) == strip_trailing(pattern@, '/'),
            covered(content@, pattern@) == any_covers(lines(content@.skip(from as int)), pattern@),
        decreases content.len() - from,
    {
        let mut to = from;
        while to < content.len() && content[to] != '\n'
            invariant
                from <= to <= content.len(),
                forall|k: int| from <= k < to ==> content@[k] != '\n',
            decreases content.len() - to,
        {
            to += 1;
        }
        let ended = to < content.len();
        let end = if ended && to > from && content[to - 1] == '\r' {
            to - 1
        } else {
            to
        };
        let ghost rest = content@.skip(from as int);
        let ghost line = content@.subrange(from as int, end as int);
        let ghost after = if ended {
            lines(content@.skip(to + 1))
        } else {
            Seq::<Seq<char>>::empty()
        };
        proof {
            lemma_first_newline_at(content@, from as int, to as int);
            assert(rest.take(to - from) =~= content@.subrange(from as int, to as int));
            if ended {
                assert(rest.skip(to - from + 1) =~= content@.skip(to + 1));
                if to > from && content@[to - 1] == '\r' {
                    assert(content@.subrange(from as int, to as int).drop_last() =~= line);
                }
                assert(line == strip_cr(rest.take(to - from)));
                assert(lines(rest) == seq![line] + after);
            } else {
                assert(rest =~= line);
                assert(lines(rest) =~= seq![line] + after);
            }
            lemma_any_covers_first(line, after, pattern@);
        }
        let (lo, hi) = trim_bounds(content, from, end);
        if lo < hi && content[lo] != '#' {
            let ghost entry = content@.subrange(lo as int, hi as int);
            assert(entry[0] == content@[lo as int]);
            let closes = pattern.len() <= hi - lo && same_range(
                content,
                hi - pattern.len(),
                hi,
                pattern,
                0,
                pattern.len(),
            );
            proof {
                if pattern.len() <= hi - lo {
                    assert(entry.subrange(entry.len() - pattern@.len(), entry.len() as int)
                        =~= content@.subrange(hi - pattern@.len(), hi as int));
                }
                assert(closes == ends_with(entry, pattern@));
            }
            if closes || same_range(content, lo, hi, pattern, 0, bare) {
                return true;
            }
        } else if lo < hi {
            assert(content@.subrange(lo as int, hi as int)[0] == content@[lo as int]);
        }
        assert(!line_covers(line, pattern@));
        if ended {
            from = to + 1;
        } else {
            from = to;
            assert(content@.skip(from as int) =~= Seq::<char>::empty());
        }
    }
    assert(content@.skip(from as int) =~= Seq::<char>::empty());
    false
}

/// Whether an ignore file with this content names `pattern`: one of its
/// lines, trimmed, is neither empty nor a comment and ends with the
/// pattern, or is the pattern without the slashes at its end.
pub fn gitignore_contains(content: &str, pattern: &str) -> (r: bool)
    ensures
        r == covered(content@, pattern@),
{
    let content = chars_of(content);
    let pattern = chars_of(pattern);
    chars_cover(&content, &pattern)
}

/// Whether one of the names ends with `ext`.
pub fn has_files_with_extension(names: &Vec<String>, ext: &str) -> (r: bool)
    ensures
        r == any_ends_with(names@, ext@),
{
    let ending = chars_of(ext);
    let mut i: usize = 0;
    while i < names.len()
        invariant
            i <= names.len(),
            ending@ == ext@,
            forall|k: int| 0 <= k < i ==> !ends_with(names@[k]@, ext@),
        decreases names.len() - i,
    {
        let name = chars_of(names[i].as_str());
        if chars_end_with(&name, &ending) {
            return true;
        }
        i += 1;
    }
    false
}

/// The build artifact patterns for the ecosystems that are present.
pub fn artifacts_for(java: bool, python: bool, rust: bool, node: bool) -> (r: Vec<
    (&'static str, &'static str),
>)
    ensures
        r@ == relevant_artifacts(java, python, rust, node),
{
    let mut relevant: Vec<(&'static str, &'static str)> = Vec::new();
    let ghost mut listed: Seq<(&'static str, &'static str)> = Seq::empty();
    if java {
        relevant.push(("*.class", "Java compiled classes"));
    }
    proof {
        listed = if java {
            seq![("*.class", "Java compiled classes")]
        } else {
            Seq::empty()
        };
        assert(relevant@ =~= listed);
    }
    if python {
        relevant.push(("*.egg-info", "Python package metadata"));
        relevant.push(("*.pyc", "Python compiled files"));
    }
    relevant.push((".DS_Store", "macOS metadata files"));
    proof {
        let next = listed + (if python {
            seq![("*.egg-info", "Python package metadata"), ("*.pyc", "Python compiled files")]
        } else {
            Seq::empty()
        }) + seq![(".DS_Store", "macOS metadata files")];
        assert(relevant@ =~= next);
        listed = next;
    }
    if python {
        relevant.push(("__pycache__/", "Python bytecode cache"));
        relevant.push(("dist/", "Python distribution output"));
    }
    proof {
        let next = listed + (if python {
            seq![("__pycache__/", "Python bytecode cache"), ("dist/", "Python distribution output")]
        } else {
            Seq::empty()
        });
        assert(relevant@ =~= next);
        listed = next;
    }
    if node {
        relevant.push(("node_modules/", "Node.js dependencies"));
    }
    relevant.push(("release/", "release-scholar build artifacts"));
    proof {
        let next = listed + (if node {
            seq![("node_modules/", "Node.js dependencies")]
        } else {
            Seq::empty()
        }) + seq![("release/", "release-scholar build artifacts")];
        assert(relevant@ =~= next);
        listed = next;
    }
    if java {
        relevant.push(("target/", "Java/Maven build output"));
    } else if rust {
        relevant.push(("target/", "Rust/Cargo build output"));
    }
    proof {
        let next = listed + (if java {
            seq![("target/", "Java/Maven build output")]
        } else if rust {
            seq![("target/", "Rust/Cargo build output")]
        } else {
            Seq::empty()
        });
        assert(relevant@ =~= next);
        listed = next;
        assert(listed == relevant_artifacts(java, python, rust, node));
    }
    relevant
}

/// The build artifact patterns that matter for a project: those of the
/// ecosystems whose marker files exist, and the two that always matter.
pub fn detect_relevant_artifacts(project: &Project) -> (r: Vec<(&'static str, &'static str)>)
    ensures
        r@ == project_artifacts(*project),
{
    let java = project.is_present("pom.xml") || project.is_present("build.gradle");
    let python = project.is_present("setup.py") || project.is_present("pyproject.toml")
        || project.is_present("requirements.txt") || has_files_with_extension(
        &project.root_entries,
        ".py",
    );
    let rust = project.is_present("Cargo.toml");
    let node = project.is_present("package.json");
    artifacts_for(java, python, rust, node)
}

/// Appends the finding on the recommended patterns.
pub fn audit_security_patterns(content: &Vec<char>, report: &mut Report)
    ensures
        final(report)@ == old(report)@.push(security_finding(content@)),
{
    let mut names: Vec<&'static str> = Vec::new();
    names.push(".env");
    names.push(".DS_Store");
    names.push("*.pem");
    names.push("*.key");
    names.push("id_rsa");
    let ghost patterns = recommended_patterns();
    assert(patterns =~= Seq::new(names@.len(), |i: int| names@[i]@));
    let mut missing: Vec<String> = Vec::new();
    let mut i: usize = 0;
    while i < names.len()
        invariant
            i <= names.len(),
            patterns == Seq::new(names@.len(), |i: int| names@[i]@),
            texts(missing@) == missing_patterns(content@, patterns.take(i as int)),
        decreases names.len() - i,
    {
        proof {
            assert(patterns.take(i + 1).drop_last() =~= patterns.take(i as int));
            assert(patterns.take(i + 1).last() == names@[i as int]@);
        }
        let pattern = chars_of(names[i]);
        let ghost before = texts(missing@);
        if !chars_cover(content, &pattern) {
            missing.push(String::from_str(names[i]));
            assert(texts(missing@) =~= before.push(names@[i as int]@));
        }
        assert(texts(missing@) =~= missing_patterns(content@, patterns.take(i + 1)));
        i += 1;
    }
    assert(patterns.take(i as int) =~= patterns);
    if missing.len() == 0 {
        report.pass("Gitignore", "Covers common sensitive file patterns");
    } else {
        let mut message = String::from_str("Missing security patterns: ");
        message.append(join_texts(&missing, ", ").as_str());
        report.warn("Gitignore", message.as_str());
    }
}

/// Appends the findings on the build artifact patterns.
pub fn audit_artifact_patterns(
    content: &Vec<char>,
    relevant: &Vec<(&'static str, &'static str)>,
    report: &mut Report,
)
    ensures
        final(report)@ == old(report)@ + artifact_findings(content@, relevant@),
{
    let mut any_missing = false;
    let mut i: usize = 0;
    while i < relevant.len()
        invariant
            i <= relevant.len(),
            report@ == old(report)@ + artifact_lines(content@, relevant@.take(i as int)),
            any_missing == (artifact_lines(content@, relevant@.take(i as int)).len() > 0),
        decreases relevant.len() - i,
    {
        proof {
            assert(relevant@.take(i + 1).drop_last() =~= relevant@.take(i as int));
            assert(relevant@.take(i + 1).last() == relevant@[i as int]);
        }
        let (pattern, description) = relevant[i];
        let wanted = chars_of(pattern);
        if !chars_cover(content, &wanted) {
            let mut message = String::from_str("Missing build artifact pattern: ");
            message.append(pattern);
            message.append(" (");
            message.append(description);
            message.append(")");
            report.warn("Gitignore", message.as_str());
            any_missing = true;
        }
        assert(report@ =~= old(report)@ + artifact_lines(content@, relevant@.take(i + 1)));
        i += 1;
    }
    assert(relevant@.take(i as int) =~= relevant@);
    if !any_missing {
        report.pass("Gitignore", "Covers build artifact patterns for detected languages");
    }
    assert(report@ =~= old(report)@ + artifact_findings(content@, relevant@));
}

/// Audits the ignore file of a project. Without one there is one warning;
/// one that could not be read is passed over. Otherwise the recommended
/// patterns are looked for, then the build artifact patterns of the
/// ecosystems that the project holds.
pub fn audit_gitignore(project: &Project, report: &mut Report)
    ensures
        final(report)@ == old(report)@ + gitignore_findings(*project),
{
    match &project.gitignore {
        IgnoreFile::Missing => {
            report.warn("Gitignore", ".gitignore not found");
            assert(report@ =~= old(report)@ + gitignore_findings(*project));
        },
        IgnoreFile::Unreadable => {
            assert(report@ =~= old(report)@ + gitignore_findings(*project));
        },
        IgnoreFile::Content(content) => {
            let content = chars_of(content.as_str());
            audit_security_patterns(&content, report);
            let relevant = detect_relevant_artifacts(project);
            audit_artifact_patterns(&content, &relevant, report);
            assert(report@ =~= old(report)@ + gitignore_findings(*project));
        },
    }
}

} // verus!
