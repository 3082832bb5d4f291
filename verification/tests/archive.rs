use release_scholar::archive::checksum::{checksum_line, sha256_bytes};
use release_scholar::archive::tarball::{
    archive_file_name, archive_prefix, child_path, entry_path, tag_reference, tar_mode,
    version_tag, GIT_EXECUTABLE,
};

#[test]
fn sha256_of_known_inputs() {
    assert_eq!(
        sha256_bytes(b"abc"),
        "ba7816bf8f01cfea414140de5dae2223b00361a396177a9cb410ff61f20015ad"
    );
    assert_eq!(
        sha256_bytes(b""),
        "e3b0c44298fc1c149afbf4c8996fb92427ae41e4649b934ca495991b7852b855"
    );
    assert_eq!(sha256_bytes(&[0u8; 1000]).len(), 64);
}

#[test]
fn checksum_file_line() {
    assert_eq!(checksum_line("abcd", "tool-v1.0.0.tar.gz"), "abcd  tool-v1.0.0.tar.gz\n");
}

#[test]
fn modes() {
    assert_eq!(GIT_EXECUTABLE, 0o100755);
    assert_eq!(tar_mode(0o100755), 0o755);
    assert_eq!(tar_mode(0o100644), 0o644);
    assert_eq!(tar_mode(0o120000), 0o644);
    assert_eq!(tar_mode(0), 0o644);
    assert_eq!(tar_mode(0o755), 0o644);
}

#[test]
fn names() {
    assert_eq!(version_tag("1.2.3"), "v1.2.3");
    assert_eq!(tag_reference("v1.2.3"), "refs/tags/v1.2.3");
    assert_eq!(archive_prefix("tool", "v1.2.3"), "tool-v1.2.3");
    assert_eq!(archive_file_name("tool", "v1.2.3"), "tool-v1.2.3.tar.gz");
    assert_eq!(entry_path("tool-v1.2.3", "src/lib.rs"), "tool-v1.2.3/src/lib.rs");
    assert_eq!(child_path("", "src"), "src");
    assert_eq!(child_path("src", "lib.rs"), "src/lib.rs");
    assert_eq!(child_path("a/b", ""), "a/b/");
}
