use openbsd_update::probe::{fetch_command, probe_url, repository_location};
use openbsd_update::version::Version;

#[test]
fn default_repository_when_unconfigured() {
    assert_eq!(repository_location(None), "https://ftp.openbsd.org/pub/OpenBSD");
}

#[test]
fn configured_repository_is_used_as_read() {
    let configured = "https://cdn.openbsd.org/pub/OpenBSD\n".to_string();
    assert_eq!(repository_location(Some(configured.clone())), configured);
}

#[test]
fn signature_url_names_release_and_machine() {
    let url = probe_url(
        "https://ftp.openbsd.org/pub/OpenBSD",
        Version { major: 7, minor: 5 },
        "amd64",
    );
    assert_eq!(url, "https://ftp.openbsd.org/pub/OpenBSD/7.5/amd64/SHA256.sig");
}

#[test]
fn fetch_writes_to_standard_output() {
    let argv = fetch_command("https://example.org/7.5/arm64/SHA256.sig".to_string());
    assert_eq!(
        argv,
        vec!["/usr/bin/ftp", "-V", "-o", "-", "https://example.org/7.5/arm64/SHA256.sig"]
    );
}
