use vstd::prelude::*;
use crate::version::{Version, version_text};

verus! {

/// The mirror used when no installation URL is configured.
pub open spec fn default_location() -> Seq<char> {
    "https://ftp.openbsd.org/pub/OpenBSD"@
}

/// The base URL of the release repository: the configured one, if any,
/// else the default mirror. A configured value is used as it was read.
pub fn repository_location(configured: Option<String>) -> (r: String)
    ensures
        r@ == (match configured {
            Some(s) => s@,
            None => default_location(),
        }),
{
    match configured {
        Some(s) => s,
        None => String::from_str("https://ftp.openbsd.org/pub/OpenBSD"),
    }
}

/// The address of the signature manifest of release `v` for `machine`
/// under the repository at `location`.
pub open spec fn signature_url(location: Seq<char>, v: Version, machine: Seq<char>) -> Seq<char> {
    location + "/"@ + version_text(v) + "/"@ + machine + "/SHA256.sig"@
}

/// Builds the address whose reachability tells that release `v` is published.
pub fn probe_url(location: &str, v: Version, machine: &str) -> (r: String)
    ensures
        r@ == signature_url(location@, v, machine@),
{
    let mut url = String::from_str(location);
    url.append("/");
    let text = v.to_string();
    url.append(text.as_str());
    url.append("/");
    url.append(machine);
    url.append("/SHA256.sig");
    assert(url@ =~= signature_url(location@, v, machine@));
    url
}

/// The read-only fetch of `url`, with its output sent to standard output.
pub open spec fn fetch_argv(url: Seq<char>) -> Seq<Seq<char>> {
    seq!["/usr/bin/ftp"@, "-V"@, "-o"@, "-"@, url]
}

/// The command line that fetches `url` without side effects.
pub fn fetch_command(url: String) -> (r: Vec<String>)
    ensures
        r.deep_view() == fetch_argv(url@),
{
    let mut argv: Vec<String> = Vec::new();
    argv.push(String::from_str("/usr/bin/ftp"));
    argv.push(String::from_str("-V"));
    argv.push(String::from_str("-o"));
    argv.push(String::from_str("-"));
    argv.push(url);
    assert(argv.deep_view() =~= fetch_argv(url@));
    argv
}

} // verus!
