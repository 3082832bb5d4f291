//! The size audit: how much the staged files weigh, one by one and together.

use crate::project::{Project, Repository, TrackedFile};
use crate::report::{failed, passed, warned, Finding, Report, Status};
use crate::text::{
    chars_end_with_any, chars_of, decimal, decimal_text, ends_with_any, lowercase, rows, table_of,
    to_lowercase, views,
};
use vstd::prelude::*;
use vstd::string::*;

verus! {

/// From this size on a file is reported.
pub const LARGE_FILE_THRESHOLD: u64 = 1_000_000;

/// From this size on a reported file is a failure.
pub const VERY_LARGE_FILE_THRESHOLD: u64 = 10_000_000;

/// From this total on the repository draws a warning.
pub const REPO_SIZE_WARN_THRESHOLD: u64 = 50_000_000;

/// From this total on the repository is a failure.
pub const REPO_SIZE_FAIL_THRESHOLD: u64 = 200_000_000;

/// The endings of names that look like binaries, archives or media.
pub open spec fn binary_extensions() -> Seq<Seq<char>> {
    views(
        seq![
            ".zip", ".tar", ".gz", ".bz2", ".xz", ".7z", ".rar", ".jar", ".war", ".ear", ".exe",
            ".dll", ".so", ".dylib", ".png", ".jpg", ".jpeg", ".gif", ".bmp", ".tiff", ".ico",
            ".svg", ".mp3", ".mp4", ".avi", ".mov", ".wav", ".flac", ".pdf", ".doc", ".docx",
            ".xls", ".xlsx", ".ppt", ".pptx", ".woff", ".woff2", ".ttf", ".eot", ".sqlite", ".db",
            ".min.js", ".min.css", ".map",
        ],
    )
}

/// A size in megabytes with one decimal, rounded to the nearest tenth (a half
/// rounds up).
pub open spec fn megabytes(size: nat) -> Seq<char> {
    let tenths = (size + 50_000) / 100_000;
    decimal(tenths / 10) + "."@ + decimal(tenths % 10)
}

/// The sum of the sizes that could be read.
pub open spec fn total_size(files: Seq<TrackedFile>) -> nat
    decreases files.len(),
{
    if files.len() == 0 {
        0
    } else {
        total_size(files.drop_last()) + match files.last().size {
            Some(size) => size as nat,
            None => 0nat,
        }
    }
}

/// The number of files whose size could be read.
pub open spec fn measured_count(files: Seq<TrackedFile>) -> nat
    decreases files.len(),
{
    if files.len() == 0 {
        0
    } else {
        measured_count(files.drop_last()) + match files.last().size {
            Some(_) => 1nat,
            None => 0nat,
        }
    }
}

/// A total as it is held and shown: totals beyond `u64::MAX` count as
/// `u64::MAX`.
pub open spec fn capped(total: nat) -> nat {
    if total > u64::MAX {
        u64::MAX as nat
    } else {
        total
    }
}

/// The finding on the total: a failure from the fail threshold on, a warning
/// from the warn threshold on, a pass with size and count below it.
pub open spec fn total_finding(total: nat, count: nat) -> Finding {
    if total >= REPO_SIZE_FAIL_THRESHOLD {
        failed(
            "Size"@,
            "Tracked files total "@ + megabytes(total) + " MB \u{2014} too large for a code repository"@,
        )
    } else if total >= REPO_SIZE_WARN_THRESHOLD {
        warned("Size"@, "Tracked files total "@ + megabytes(total) + " MB \u{2014} consider reducing"@)
    } else {
        passed(
            "Size"@,
            "Tracked files total "@ + megabytes(total) + " MB ("@ + decimal(count) + " files)"@,
        )
    }
}

/// The file's size is known and reaches the reporting threshold.
pub open spec fn is_large(file: TrackedFile) -> bool {
    file.size matches Some(size) && size >= LARGE_FILE_THRESHOLD
}

/// The finding on one large file: a failure from the very-large threshold
/// on, a warning below it.
pub open spec fn large_finding(path: Seq<char>, size: nat) -> Finding {
    if size >= VERY_LARGE_FILE_THRESHOLD {
        failed(
            "Size"@,
            path + " is "@ + megabytes(size) + " MB \u{2014} consider removing or using Git LFS"@,
        )
    } else {
        warned("Size"@, path + " is "@ + megabytes(size) + " MB"@)
    }
}

/// One finding per large file, in the order of the files.
pub open spec fn large_lines(files: Seq<TrackedFile>) -> Seq<Finding>
    decreases files.len(),
{
    if files.len() == 0 {
        Seq::empty()
    } else {
        let file = files.last();
        large_lines(files.drop_last()) + if is_large(file) {
            seq![large_finding(file.path@, file.size.unwrap() as nat)]
        } else {
            Seq::empty()
        }
    }
}

/// The findings on large files, or the one pass that says there are none.
pub open spec fn large_findings(files: Seq<TrackedFile>) -> Seq<Finding> {
    if large_lines(files).len() == 0 {
        seq![passed("Size"@, "No large files detected (>1 MB)"@)]
    } else {
        large_lines(files)
    }
}

/// A lower-cased name ends with one of the binary endings.
pub open spec fn binary_ending(lowered: Seq<char>) -> bool {
    ends_with_any(lowered, binary_extensions())
}

/// The file is large and its lower-cased path has a binary ending.
pub open spec fn is_large_binary(file: TrackedFile) -> bool {
    is_large(file) && binary_ending(lowercase(file.path@))
}

pub open spec fn binary_finding(path: Seq<char>, size: nat) -> Finding {
    warned(
        "Size"@,
        "Binary/vendor file tracked: "@ + path + " ("@ + megabytes(size)
            + " MB) \u{2014} consider .gitignore or Git LFS"@,
    )
}

/// One warning per large file with a binary ending, in the order of the
/// files; a file may already stand among the large files.
pub open spec fn binary_lines(files: Seq<TrackedFile>) -> Seq<Finding>
    decreases files.len(),
{
    if files.len() == 0 {
        Seq::empty()
    } else {
        let file = files.last();
        binary_lines(files.drop_last()) + if is_large_binary(file) {
            seq![binary_finding(file.path@, file.size.unwrap() as nat)]
        } else {
            Seq::empty()
        }
    }
}

/// Everything the size audit reports on a staged snapshot.
pub open spec fn size_findings(files: Seq<TrackedFile>) -> Seq<Finding> {
    seq![total_finding(capped(total_size(files)), measured_count(files))] + large_findings(files)
        + binary_lines(files)
}

/// Everything the size audit reports on a project: one failure where the
/// repository did not open, nothing where its staged snapshot could not be
/// read, else the findings on the staged files.
pub open spec fn size_audit(project: Project) -> Seq<Finding> {
    match project.repository {
        Repository::Unavailable(_) => seq![
            failed("Size"@, "Cannot open repository for size audit"@),
        ],
        Repository::Open(checkout) => match checkout.staged {
            Some(files) => size_findings(files@),
            None => Seq::empty(),
        },
    }
}

/// A file below the reporting threshold, or of unknown size, adds nothing
/// to the findings on large files.
pub proof fn lemma_small_file_unlisted(files: Seq<TrackedFile>, file: TrackedFile)
    requires
        !is_large(file),
    ensures
        large_lines(files.push(file)) == large_lines(files),
        binary_lines(files.push(file)) == binary_lines(files),
{
    assert(files.push(file).drop_last() =~= files);
    assert(large_lines(files.push(file)) =~= large_lines(files));
    assert(binary_lines(files.push(file)) =~= binary_lines(files));
}

/// A file at or above the reporting threshold adds exactly one finding to
/// those on large files: a warning below the very-large threshold, a
/// failure from it on.
pub proof fn lemma_large_file_listed(files: Seq<TrackedFile>, file: TrackedFile)
    requires
        is_large(file),
    ensures
        large_lines(files.push(file)) == large_lines(files).push(
            large_finding(file.path@, file.size.unwrap() as nat),
        ),
        large_finding(file.path@, file.size.unwrap() as nat).status == if file.size.unwrap()
            >= VERY_LARGE_FILE_THRESHOLD {
            Status::Fail
        } else {
            Status::Warn
        },
{
    assert(files.push(file).drop_last() =~= files);
    assert(large_lines(files.push(file)) =~= large_lines(files).push(
        large_finding(file.path@, file.size.unwrap() as nat),
    ));
}

/// The finding on the total is a failure from the fail threshold on, a
/// warning from the warn threshold up to it, and a pass below.
pub proof fn lemma_total_severity(total: nat, count: nat)
    ensures
        total_finding(total, count).status == if total >= REPO_SIZE_FAIL_THRESHOLD {
            Status::Fail
        } else if total >= REPO_SIZE_WARN_THRESHOLD {
            Status::Warn
        } else {
            Status::Pass
        },
        capped(total) >= REPO_SIZE_FAIL_THRESHOLD <==> total >= REPO_SIZE_FAIL_THRESHOLD,
        capped(total) >= REPO_SIZE_WARN_THRESHOLD <==> total >= REPO_SIZE_WARN_THRESHOLD,
{
}

/// Writes a size in megabytes with one decimal.
pub fn megabytes_text(size: u64) -> (r: String)
    ensures
        r@ == megabytes(size as nat),
{
    let whole: u64 = size / 100_000;
    let rest: u64 = size % 100_000;
    let tenths: u64 = if rest >= 50_000 {
        whole + 1
    } else {
        whole
    };
    assert(tenths == (size + 50_000) / 100_000);
    let mut out = decimal_text(tenths / 10);
    out.append(".");
    out.append(decimal_text(tenths % 10).as_str());
    out
}

/// The table of binary endings.
pub fn binary_extension_table() -> (r: Vec<Vec<char>>)
    ensures
        rows(r@) == binary_extensions(),
{
    let names: Vec<&'static str> = vec![
        ".zip", ".tar", ".gz", ".bz2", ".xz", ".7z", ".rar", ".jar", ".war", ".ear", ".exe",
        ".dll", ".so", ".dylib", ".png", ".jpg", ".jpeg", ".gif", ".bmp", ".tiff", ".ico", ".svg",
        ".mp3", ".mp4", ".avi", ".mov", ".wav", ".flac", ".pdf", ".doc", ".docx", ".xls", ".xlsx",
        ".ppt", ".pptx", ".woff", ".woff2", ".ttf", ".eot", ".sqlite", ".db", ".min.js",
        ".min.css", ".map",
    ];
    table_of(&names)
}

/// Whether a lower-cased name ends with one of the binary endings.
pub fn has_binary_extension(lowered: &str) -> (r: bool)
    ensures
        r == binary_ending(lowered@),
{
    let table = binary_extension_table();
    let name = chars_of(lowered);
    chars_end_with_any(&name, &table)
}

/// Appends the finding on a total size and a file count.
pub fn report_total(total: u64, count: usize, report: &mut Report)
    ensures
        final(report)@ == old(report)@.push(total_finding(total as nat, count as nat)),
{
    let mut message = String::from_str("Tracked files total ");
    message.append(megabytes_text(total).as_str());
    if total >= REPO_SIZE_FAIL_THRESHOLD {
        message.append(" MB \u{2014} too large for a code repository");
        report.fail("Size", message.as_str());
    } else if total >= REPO_SIZE_WARN_THRESHOLD {
        message.append(" MB \u{2014} consider reducing");
        report.warn("Size", message.as_str());
    } else {
        message.append(" MB (");
        message.append(decimal_text(count as u64).as_str());
        message.append(" files)");
        report.pass("Size", message.as_str());
    }
}

/// Appends the finding on one file that is to be listed as large: a failure
/// from the very-large threshold on, a warning below it.
pub fn report_large_file(path: &str, size: u64, report: &mut Report)
    ensures
        final(report)@ == old(report)@.push(large_finding(path@, size as nat)),
{
    let mut message = String::from_str(path);
    message.append(" is ");
    message.append(megabytes_text(size).as_str());
    if size >= VERY_LARGE_FILE_THRESHOLD {
        message.append(" MB \u{2014} consider removing or using Git LFS");
        report.fail("Size", message.as_str());
    } else {
        message.append(" MB");
        report.warn("Size", message.as_str());
    }
}

/// Appends the warning on one large file with a binary ending.
pub fn report_binary_file(path: &str, size: u64, report: &mut Report)
    ensures
        final(report)@ == old(report)@.push(binary_finding(path@, size as nat)),
{
    let mut message = String::from_str("Binary/vendor file tracked: ");
    message.append(path);
    message.append(" (");
    message.append(megabytes_text(size).as_str());
    message.append(" MB) \u{2014} consider .gitignore or Git LFS");
    report.warn("Size", message.as_str());
}

/// The total of the sizes that could be read, held at `u64::MAX` beyond it,
/// and the number of files that were measured.
pub fn measure(files: &Vec<TrackedFile>) -> (r: (u64, usize))
    ensures
        r.0 == capped(total_size(files@)),
        r.1 == measured_count(files@),
{
    let mut total: u64 = 0;
    let mut count: usize = 0;
    let mut i: usize = 0;
    while i < files.len()
        invariant
            i <= files.len(),
            total == capped(total_size(files@.take(i as int))),
            count == measured_count(files@.take(i as int)),
            count <= i,
        decreases files.len() - i,
    {
        proof {
            assert(files@.take(i + 1).drop_last() =~= files@.take(i as int));
            assert(files@.take(i + 1).last() == files@[i as int]);
        }
        match files[i].size {
            Some(size) => {
                if size > u64::MAX - total {
                    total = u64::MAX;
                } else {
                    total = total + size;
                }
                count = count + 1;
            },
            None => {},
        }
        i += 1;
    }
    assert(files@.take(i as int) =~= files@);
    (total, count)
}

/// Audits the sizes of the staged files. A repository that did not open is
/// one failure; a staged snapshot that could not be read is passed over.
/// Otherwise: the finding on the total, then the large files (or the pass
/// that says there are none), then the large files with a binary ending.
pub fn validate(project: &Project, report: &mut Report)
    ensures
        final(report)@ == old(report)@ + size_audit(*project),
{
    let checkout = match &project.repository {
        Repository::Open(checkout) => checkout,
        Repository::Unavailable(_) => {
            report.fail("Size", "Cannot open repository for size audit");
            assert(report@ =~= old(report)@ + size_audit(*project));
            return ;
        },
    };
    let files = match &checkout.staged {
        Some(files) => files,
        None => {
            assert(report@ =~= old(report)@ + Seq::<Finding>::empty());
            return ;
        },
    };
    let (total, count) = measure(files);
    report_total(total, count, report);
    let ghost base = report@;

    let mut any_large = false;
    let mut i: usize = 0;
    while i < files.len()
        invariant
            i <= files.len(),
            report@ == base + large_lines(files@.take(i as int)),
            any_large == (large_lines(files@.take(i as int)).len() > 0),
        decreases files.len() - i,
    {
        proof {
            assert(files@.take(i + 1).drop_last() =~= files@.take(i as int));
            assert(files@.take(i + 1).last() == files@[i as int]);
        }
        let file = &files[i];
        match file.size {
            Some(size) => {
                if size >= LARGE_FILE_THRESHOLD {
                    report_large_file(file.path.as_str(), size, report);
                    any_large = true;
                }
            },
            None => {},
        }
        assert(report@ =~= base + large_lines(files@.take(i + 1)));
        i += 1;
    }
    assert(files@.take(i as int) =~= files@);
    if !any_large {
        report.pass("Size", "No large files detected (>1 MB)");
    }
    assert(report@ =~= base + large_findings(files@));
    let ghost base = report@;

    let table = binary_extension_table();
    let mut i: usize = 0;
    while i < files.len()
        invariant
            i <= files.len(),
            rows(table@) == binary_extensions(),
            report@ == base + binary_lines(files@.take(i as int)),
        decreases files.len() - i,
    {
        proof {
            assert(files@.take(i + 1).drop_last() =~= files@.take(i as int));
            assert(files@.take(i + 1).last() == files@[i as int]);
        }
        let file = &files[i];
        match file.size {
            Some(size) => {
                if size >= LARGE_FILE_THRESHOLD {
                    let lowered = to_lowercase(file.path.as_str());
                    let name = chars_of(lowered.as_str());
                    if chars_end_with_any(&name, &table) {
                        report_binary_file(file.path.as_str(), size, report);
                    }
                }
            },
            None => {},
        }
        assert(report@ =~= base + binary_lines(files@.take(i + 1)));
        i += 1;
    }
    assert(files@.take(i as int) =~= files@);
    assert(report@ =~= old(report)@ + size_findings(files@));
}

} // verus!
