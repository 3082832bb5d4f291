use release_scholar::config::{
    default_archive_dir, default_language, default_required_files, AuthorConfig, Config, Forge,
    MirrorsConfig,
};

fn author(name: Option<&str>, orcid: Option<&str>, email: Option<&str>) -> AuthorConfig {
    AuthorConfig {
        name: name.map(|s| s.to_string()),
        orcid: orcid.map(|s| s.to_string()),
        email: email.map(|s| s.to_string()),
    }
}

#[test]
fn defaults() {
    assert_eq!(default_language(), "eng");
    assert_eq!(default_archive_dir(), "release");
    assert_eq!(
        default_required_files(),
        vec!["LICENSE", "README.md", "CHANGELOG.md", "CITATION.cff"]
    );
    let config = Config::default();
    assert_eq!(config.forge, Forge::Codeberg);
    assert_eq!(config.forge_url, None);
    assert_eq!(config.required_files, default_required_files());
    assert_eq!(config.archive_dir, "release");
    assert_eq!(config.language, "eng");
    assert!(config.author.is_none());
    assert!(config.mirrors.is_none());
    assert_eq!(Forge::default(), Forge::Codeberg);
    let nobody = AuthorConfig::default();
    assert!(nobody.name.is_none() && nobody.orcid.is_none() && nobody.email.is_none());
    let mirrors = MirrorsConfig::default();
    assert!(mirrors.codeberg_user.is_none() && mirrors.gitlab_token.is_none());
}

#[test]
fn forge_names() {
    assert_eq!(Forge::Codeberg.name(), "codeberg");
    assert_eq!(Forge::Github.name(), "github");
    assert_eq!(Forge::Gitlab.name(), "gitlab");
}

#[test]
fn merge_fills_only_the_gaps() {
    let mut mine = author(Some("Jane"), None, None);
    let fallback = author(Some("Other"), Some("0000"), None);
    mine.merge_with_fallback(&fallback);
    assert_eq!(mine.name, Some("Jane".to_string()));
    assert_eq!(mine.orcid, Some("0000".to_string()));
    assert_eq!(mine.email, None);
}

#[test]
fn merge_with_an_empty_fallback_changes_nothing() {
    let mut mine = author(None, Some("1"), Some("a@b"));
    mine.merge_with_fallback(&AuthorConfig::default());
    assert_eq!(mine.name, None);
    assert_eq!(mine.orcid, Some("1".to_string()));
    assert_eq!(mine.email, Some("a@b".to_string()));
}

#[test]
fn global_settings_fill_author_and_mirrors() {
    let mut project = Config::default();
    project.language = "deu".to_string();
    project.author = Some(author(None, None, Some("me@example.org")));
    let mut global = Config::default();
    global.language = "fra".to_string();
    global.forge = Forge::Github;
    global.author = Some(author(Some("Jane Doe"), None, Some("global@example.org")));
    let mut mirrors = MirrorsConfig::default();
    mirrors.github_user = Some("jane".to_string());
    global.mirrors = Some(mirrors);

    let merged = project.merge_global(global);
    assert_eq!(merged.language, "deu");
    assert_eq!(merged.forge, Forge::Codeberg);
    let merged_author = merged.author.unwrap();
    assert_eq!(merged_author.name, Some("Jane Doe".to_string()));
    assert_eq!(merged_author.email, Some("me@example.org".to_string()));
    assert_eq!(merged.mirrors.unwrap().github_user, Some("jane".to_string()));
}

#[test]
fn project_mirrors_win_and_global_author_is_taken_whole() {
    let mut project = Config::default();
    let mut own = MirrorsConfig::default();
    own.gitlab_user = Some("own".to_string());
    project.mirrors = Some(own);
    let mut global = Config::default();
    let mut theirs = MirrorsConfig::default();
    theirs.gitlab_user = Some("theirs".to_string());
    theirs.github_user = Some("theirs".to_string());
    global.mirrors = Some(theirs);
    global.author = Some(author(Some("G"), Some("o"), Some("e")));

    let merged = project.merge_global(global);
    let mirrors = merged.mirrors.unwrap();
    assert_eq!(mirrors.gitlab_user, Some("own".to_string()));
    assert_eq!(mirrors.github_user, None);
    let a = merged.author.unwrap();
    assert_eq!((a.name, a.orcid, a.email), (Some("G".into()), Some("o".into()), Some("e".into())));
}

#[test]
fn without_a_global_author_the_project_author_stays() {
    let mut project = Config::default();
    project.author = Some(author(Some("P"), None, None));
    let merged = project.merge_global(Config::default());
    let a = merged.author.unwrap();
    assert_eq!(a.name, Some("P".to_string()));
    assert_eq!(a.orcid, None);
    assert!(merged.mirrors.is_none());
}
