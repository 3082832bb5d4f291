use release_scholar::commands::publish::{
    badge_markdown, confirms_draft, confirms_publish, deposit_page, doi_link, doi_or_pending,
    find_archive, with_doi_badge,
};

#[test]
fn agreeing_to_a_draft() {
    assert!(confirms_draft("y"));
    assert!(confirms_draft("Y\n"));
    assert!(confirms_draft("  y \r\n"));
    assert!(!confirms_draft("yes"));
    assert!(!confirms_draft("n"));
    assert!(!confirms_draft(""));
    assert!(!confirms_draft("\n"));
    assert!(!confirms_draft("y y"));
}

#[test]
fn agreeing_to_publish() {
    assert!(confirms_publish("publish"));
    assert!(confirms_publish(" publish\n"));
    assert!(!confirms_publish("Publish"));
    assert!(!confirms_publish("publish it"));
    assert!(!confirms_publish("y"));
    assert!(!confirms_publish(""));
}

#[test]
fn finding_the_archive() {
    let names = vec![
        "checksums.txt".to_string(),
        "tool-v1.tar.gz.sig".to_string(),
        "tool-v1.tar.gz".to_string(),
        "other.tar.gz".to_string(),
    ];
    assert_eq!(find_archive(&names), Some(2));
    assert_eq!(find_archive(&vec!["a.zip".to_string(), "tar.gz".to_string()]), None);
    assert_eq!(find_archive(&vec![]), None);
    assert_eq!(find_archive(&vec![".tar.gz".to_string()]), Some(0));
}

#[test]
fn doi_texts() {
    assert_eq!(doi_or_pending(&Some("10.5281/zenodo.1".to_string())), "10.5281/zenodo.1");
    assert_eq!(doi_or_pending(&None), "pending");
    assert_eq!(doi_link("10.5281/zenodo.1"), "https://doi.org/10.5281/zenodo.1");
    assert_eq!(deposit_page("https://zenodo.org", 12345), "https://zenodo.org/deposit/12345");
    assert_eq!(
        badge_markdown("10.5281/x.1", "https://doi.org/10.5281/x.1"),
        "[![DOI](https://zenodo.org/badge/DOI/10.5281/x.1.svg)](https://doi.org/10.5281/x.1)"
    );
}

#[test]
fn badge_goes_after_a_heading() {
    let got = with_doi_badge("# Tool\n\nText.\n", "D", "U").unwrap();
    assert_eq!(got, "# Tool\n\n[![DOI](https://zenodo.org/badge/DOI/D.svg)](U)\n\nText.\n");
    let got = with_doi_badge("# Tool\n", "D", "U").unwrap();
    assert_eq!(got, "# Tool\n\n[![DOI](https://zenodo.org/badge/DOI/D.svg)](U)\n");
}

#[test]
fn badge_goes_first_without_a_heading() {
    let badge = "[![DOI](https://zenodo.org/badge/DOI/D.svg)](U)";
    assert_eq!(with_doi_badge("Tool\n====\n", "D", "U").unwrap(), format!("{}\n\nTool\n====\n", badge));
    assert_eq!(with_doi_badge("# Tool", "D", "U").unwrap(), format!("{}\n\n# Tool", badge));
    assert_eq!(with_doi_badge("", "D", "U").unwrap(), format!("{}\n\n", badge));
    assert_eq!(with_doi_badge("\n# Tool\n", "D", "U").unwrap(), format!("{}\n\n\n# Tool\n", badge));
}

#[test]
fn a_readme_with_a_badge_stays() {
    assert_eq!(with_doi_badge("# T\nsee https://doi.org/10.5281/zenodo.1\n", "D", "U"), None);
    assert_eq!(with_doi_badge("zenodo and doi.org", "D", "U"), None);
    assert!(with_doi_badge("only doi.org here", "D", "U").is_some());
    assert!(with_doi_badge("only zenodo here", "D", "U").is_some());
}
