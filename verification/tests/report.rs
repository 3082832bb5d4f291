use release_scholar::report::{status_label, verdict_text, Report, Status, Tally, Verdict};

#[test]
fn empty_report_has_no_failures() {
    let report = Report::new();
    assert!(!report.has_failures());
    assert_eq!(report.results.len(), 0);
    assert_eq!(report.verdict(), Verdict::Ready);
}

#[test]
fn a_single_fail_is_a_failure() {
    let mut report = Report::new();
    report.pass("Git", "clean");
    assert!(!report.has_failures());
    report.fail("Git", "no tag");
    assert!(report.has_failures());
    report.warn("Git", "dirty");
    assert!(report.has_failures());
    assert_eq!(report.results[1].status, Status::Fail);
}

#[test]
fn has_failures_agrees_with_the_results() {
    let cases: Vec<Vec<Status>> = vec![
        vec![],
        vec![Status::Pass],
        vec![Status::Warn, Status::Warn],
        vec![Status::Pass, Status::Warn, Status::Fail],
        vec![Status::Fail],
        vec![Status::Fail, Status::Pass, Status::Pass],
    ];
    for case in cases {
        let mut report = Report::new();
        for status in &case {
            report.add("c", "m", *status);
        }
        let expected = case.iter().any(|s| *s == Status::Fail);
        assert_eq!(report.has_failures(), expected);
    }
}

#[test]
fn add_keeps_order_and_texts() {
    let mut report = Report::new();
    report.add("Files", "LICENSE exists", Status::Pass);
    report.add("Size", "too large", Status::Fail);
    report.add("Git", "dirty", Status::Warn);
    assert_eq!(report.results.len(), 3);
    assert_eq!(report.results[0].category, "Files");
    assert_eq!(report.results[0].message, "LICENSE exists");
    assert_eq!(report.results[0].status, Status::Pass);
    assert_eq!(report.results[1].category, "Size");
    assert_eq!(report.results[1].status, Status::Fail);
    assert_eq!(report.results[2].message, "dirty");
    assert_eq!(report.results[2].status, Status::Warn);
}

#[test]
fn a_later_pass_does_not_hide_an_earlier_fail() {
    let mut report = Report::new();
    report.fail("Citation", "version missing");
    for _ in 0..20 {
        report.pass("Citation", "fine");
        report.warn("Citation", "hm");
    }
    assert!(report.has_failures());
    assert_eq!(report.results[0].status, Status::Fail);
    assert_eq!(report.verdict(), Verdict::NotReady);
}

#[test]
fn tally_counts_each_severity() {
    let mut report = Report::new();
    report.pass("a", "1");
    report.pass("a", "2");
    report.warn("a", "3");
    report.fail("a", "4");
    report.pass("a", "5");
    assert_eq!(report.tally(), Tally { passed: 3, failed: 1, warned: 1 });
    assert_eq!(report.count(Status::Pass), 3);
    assert_eq!(report.count(Status::Fail), 1);
    assert_eq!(report.count(Status::Warn), 1);
}

#[test]
fn verdict_has_three_cases() {
    let mut report = Report::new();
    report.pass("a", "1");
    assert_eq!(report.verdict(), Verdict::Ready);
    report.warn("a", "2");
    assert_eq!(report.verdict(), Verdict::ReadyWithWarnings);
    report.fail("a", "3");
    assert_eq!(report.verdict(), Verdict::NotReady);
}

#[test]
fn labels_and_sentences() {
    assert_eq!(status_label(Status::Pass), "[PASS]");
    assert_eq!(status_label(Status::Fail), "[FAIL]");
    assert_eq!(status_label(Status::Warn), "[WARN]");
    assert_eq!(verdict_text(Verdict::Ready), "Release is ready!");
    assert_eq!(verdict_text(Verdict::ReadyWithWarnings), "Release is ready (with warnings).");
    assert_eq!(verdict_text(Verdict::NotReady), "Release is NOT ready.");
}

#[test]
fn render_of_an_empty_report() {
    let report = Report::new();
    assert_eq!(
        report.render(),
        "\n\u{2550}\u{2550}\u{2550} Release Scholar Report \u{2550}\u{2550}\u{2550}\n\n\n  0 passed, 0 failed, 0 warnings\n\n  Release is ready!\n\n"
    );
}

#[test]
fn render_lists_findings_in_order_with_counts_and_verdict() {
    let mut report = Report::new();
    report.pass("Git", "Working directory is clean");
    report.fail("Files", "LICENSE is missing");
    report.warn("Gitignore", ".gitignore not found");
    let expected = "\n\u{2550}\u{2550}\u{2550} Release Scholar Report \u{2550}\u{2550}\u{2550}\n\n\
                    \x20 [PASS] Git: Working directory is clean\n\
                    \x20 [FAIL] Files: LICENSE is missing\n\
                    \x20 [WARN] Gitignore: .gitignore not found\n\
                    \n\
                    \x20 1 passed, 1 failed, 1 warnings\n\
                    \n\
                    \x20 Release is NOT ready.\n\
                    \n";
    assert_eq!(report.render(), expected);
}

#[test]
fn render_counts_past_nine() {
    let mut report = Report::new();
    for _ in 0..12 {
        report.pass("a", "b");
    }
    report.warn("a", "c");
    let text = report.render();
    assert!(text.contains("  12 passed, 0 failed, 1 warnings\n"));
    assert!(text.ends_with("\n  Release is ready (with warnings).\n\n"));
}
