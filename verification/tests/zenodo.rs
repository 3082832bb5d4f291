use release_scholar::zenodo::{
    api_base, base_web_url, deposition_url, depositions_url, publish_url, token_file,
    token_from_file, token_from_variable, token_variable, upload_url, ZENODO_API,
    ZENODO_SANDBOX_API,
};

#[test]
fn bases() {
    assert_eq!(api_base(false), "https://zenodo.org/api");
    assert_eq!(api_base(true), "https://sandbox.zenodo.org/api");
    assert_eq!(base_web_url(ZENODO_API), "https://zenodo.org");
    assert_eq!(base_web_url(ZENODO_SANDBOX_API), "https://sandbox.zenodo.org");
    assert_eq!(base_web_url(""), "https://zenodo.org");
}

#[test]
fn deposit_addresses() {
    assert_eq!(depositions_url(ZENODO_API), "https://zenodo.org/api/deposit/depositions");
    assert_eq!(deposition_url(ZENODO_API, 42), "https://zenodo.org/api/deposit/depositions/42");
    assert_eq!(
        publish_url(ZENODO_SANDBOX_API, 7),
        "https://sandbox.zenodo.org/api/deposit/depositions/7/actions/publish"
    );
    assert_eq!(upload_url("https://b/ucket", "a.tar.gz"), "https://b/ucket/a.tar.gz");
}

#[test]
fn token_sources() {
    assert_eq!(token_variable(false), "ZENODO_TOKEN");
    assert_eq!(token_variable(true), "ZENODO_SANDBOX_TOKEN");
    assert_eq!(token_file(false), "token");
    assert_eq!(token_file(true), "sandbox-token");
}

#[test]
fn tokens() {
    assert_eq!(token_from_variable(""), None);
    assert_eq!(token_from_variable(" abc \n"), Some("abc".to_string()));
    assert_eq!(token_from_variable("   "), Some(String::new()));
    assert_eq!(token_from_file(""), None);
    assert_eq!(token_from_file("  \n"), None);
    assert_eq!(token_from_file("abc\n"), Some("abc".to_string()));
    assert_eq!(token_from_file("\ta b\r\n"), Some("a b".to_string()));
}
