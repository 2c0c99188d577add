//! The dependency installer's decisions: resolving the pair of helper
//! binaries to download for a processor architecture and operating system,
//! locating the tunnel client binary, and planning the installation.
//!
//! Resolution is an exhaustive match; a combination it does not cover has
//! no dependency set at all and is a fatal condition for the caller.

use vstd::prelude::*;
use crate::errors::TerminalError;
use crate::fetch::{resolve_target, target_resolves, DownloadTarget};
use crate::paths::{files_exist, spec_files_exist};
use crate::platform::{Arch, Os};

verus! {

/// The pair of download URLs for `(arch, os)`: the tunnel daemon and the
/// tunnel client, or `None` where the combination is unsupported.
pub open spec fn spec_download_urls(arch: Arch, os: Os) -> Option<(Seq<char>, Seq<char>)> {
    match os {
        Os::Windows => Some(
            (
                "https://github.com/cloudflare/cloudflared/releases/latest/download/cloudflared-windows-amd64.exe"@,
                "https://api.localxpose.io/api/v2/downloads/loclx-windows-amd64.zip"@,
            ),
        ),
        Os::Linux => match arch {
            Arch::X86_64 => Some(
                (
                    "https://github.com/cloudflare/cloudflared/releases/latest/download/cloudflared-linux-amd64"@,
                    "https://api.localxpose.io/api/v2/downloads/loclx-linux-amd64.zip"@,
                ),
            ),
            Arch::Aarch64 => Some(
                (
                    "https://github.com/cloudflare/cloudflared/releases/latest/download/cloudflared-linux-arm64"@,
                    "https://api.localxpose.io/api/v2/downloads/loclx-linux-arm64.zip"@,
                ),
            ),
            Arch::Other => None,
        },
    }
}

/// Resolves the pair of download URLs for `(arch, os)`.  Exactly the
/// combinations with a dependency set succeed; any other is an error the
/// caller treats as fatal.
pub fn get_download_urls(arch: Arch, os: Os) -> (r: Result<Vec<&'static str>, TerminalError>)
    ensures
        r is Ok <==> spec_download_urls(arch, os) is Some,
        r matches Ok(u) ==> (spec_download_urls(arch, os) matches Some(p) && u@.len() == 2 && u@[0]@
            == p.0 && u@[1]@ == p.1),
        r matches Err(e) ==> e.spec_message() == "Unsupported architecture or OS"@,
{
    let mut urls: Vec<&'static str> = Vec::new();
    match os {
        Os::Windows => {
            urls.push(
                "https://github.com/cloudflare/cloudflared/releases/latest/download/cloudflared-windows-amd64.exe",
            );
            urls.push("https://api.localxpose.io/api/v2/downloads/loclx-windows-amd64.zip");
            Ok(urls)
        },
        Os::Linux => match arch {
            Arch::X86_64 => {
                urls.push(
                    "https://github.com/cloudflare/cloudflared/releases/latest/download/cloudflared-linux-amd64",
                );
                urls.push("https://api.localxpose.io/api/v2/downloads/loclx-linux-amd64.zip");
                Ok(urls)
            },
            Arch::Aarch64 => {
                urls.push(
                    "https://github.com/cloudflare/cloudflared/releases/latest/download/cloudflared-linux-arm64",
                );
                urls.push("https://api.localxpose.io/api/v2/downloads/loclx-linux-arm64.zip");
                Ok(urls)
            },
            Arch::Other => Err(TerminalError::new("Unsupported architecture or OS")),
        },
    }
}

/// A URL that names the secure web scheme followed by a host part.
pub open spec fn is_https_url(s: Seq<char>) -> bool {
    s.len() > "https://"@.len() && s.subrange(0, "https://"@.len() as int) == "https://"@
}

/// For every supported architecture and operating-system pair, dependency
/// resolution yields exactly two well-formed download URLs.
pub proof fn lemma_download_urls_well_formed(arch: Arch, os: Os)
    requires
        spec_download_urls(arch, os) is Some,
    ensures
        spec_download_urls(arch, os) matches Some(p) && is_https_url(p.0) && is_https_url(p.1),
{
    reveal_strlit("https://");
    assert("https://"@.len() == 8);
    reveal_strlit(
        "https://github.com/cloudflare/cloudflared/releases/latest/download/cloudflared-windows-amd64.exe",
    );
    reveal_strlit(
        "https://github.com/cloudflare/cloudflared/releases/latest/download/cloudflared-linux-amd64",
    );
    reveal_strlit(
        "https://github.com/cloudflare/cloudflared/releases/latest/download/cloudflared-linux-arm64",
    );
    reveal_strlit("https://api.localxpose.io/api/v2/downloads/loclx-windows-amd64.zip");
    reveal_strlit("https://api.localxpose.io/api/v2/downloads/loclx-linux-amd64.zip");
    reveal_strlit("https://api.localxpose.io/api/v2/downloads/loclx-linux-arm64.zip");
    match os {
        Os::Windows => {
            assert("https://github.com/cloudflare/cloudflared/releases/latest/download/cloudflared-windows-amd64.exe"@.subrange(0, 8) =~= "https://"@);
            assert("https://api.localxpose.io/api/v2/downloads/loclx-windows-amd64.zip"@.subrange(0, 8) =~= "https://"@);
        },
        Os::Linux => match arch {
            Arch::X86_64 => {
                assert("https://github.com/cloudflare/cloudflared/releases/latest/download/cloudflared-linux-amd64"@.subrange(0, 8) =~= "https://"@);
                assert("https://api.localxpose.io/api/v2/downloads/loclx-linux-amd64.zip"@.subrange(0, 8) =~= "https://"@);
            },
            Arch::Aarch64 => {
                assert("https://github.com/cloudflare/cloudflared/releases/latest/download/cloudflared-linux-arm64"@.subrange(0, 8) =~= "https://"@);
                assert("https://api.localxpose.io/api/v2/downloads/loclx-linux-arm64.zip"@.subrange(0, 8) =~= "https://"@);
            },
            Arch::Other => {
            },
        },
    }
}

/// The tunnel daemon binary's path below the server directory for
/// `(arch, os)`, or an error where the combination is unsupported or the
/// server directory is unknown.
pub fn get_cloudflare_file(arch: Arch, os: Os, server_dir: Option<&str>) -> (r: Result<
    String,
    TerminalError,
>)
    ensures
        r is Ok <==> (server_dir is Some && (os == Os::Windows || arch != Arch::Other)),
        os == Os::Windows ==> (server_dir matches Some(s) ==> (r matches Ok(p) && p@ == s@
            + "/cloudflared-windows-amd64.exe"@)),
        os == Os::Linux && arch == Arch::X86_64 ==> (server_dir matches Some(s) ==> (r matches Ok(
            p,
        ) && p@ == s@ + "/cloudflared-linux-amd64"@)),
        os == Os::Linux && arch == Arch::Aarch64 ==> (server_dir matches Some(s) ==> (r matches Ok(
            p,
        ) && p@ == s@ + "/cloudflared-linux-arm64"@)),
{
    let dir = match server_dir {
        Some(d) => d,
        None => {
            return Err(TerminalError::new("Failed to get server directory"));
        },
    };
    match os {
        Os::Windows => Ok(String::from_str(dir).concat("/cloudflared-windows-amd64.exe")),
        Os::Linux => match arch {
            Arch::X86_64 => Ok(String::from_str(dir).concat("/cloudflared-linux-amd64")),
            Arch::Aarch64 => Ok(String::from_str(dir).concat("/cloudflared-linux-arm64")),
            Arch::Other => Err(TerminalError::new("Unsupported architecture or OS")),
        },
    }
}

/// The tunnel daemon's binary file name on Linux, by architecture.
pub fn cloudflared_binary_name(arch: Arch) -> (r: Result<&'static str, TerminalError>)
    ensures
        arch == Arch::X86_64 ==> (r matches Ok(n) && n@ == "cloudflared-linux-amd64"@),
        arch == Arch::Aarch64 ==> (r matches Ok(n) && n@ == "cloudflared-linux-arm64"@),
        r is Err <==> arch == Arch::Other,
{
    match arch {
        Arch::X86_64 => Ok("cloudflared-linux-amd64"),
        Arch::Aarch64 => Ok("cloudflared-linux-arm64"),
        Arch::Other => Err(TerminalError::new("Unsupported architecture")),
    }
}

/// Plans the dependency installation.  When the full required set of
/// helper binaries is already present in the binary directory, the plan is
/// empty and nothing is fetched; otherwise the plan holds one download
/// target per resolved URL, to be fetched independently of each other.
/// An unsupported platform is an error the caller treats as fatal.
pub fn install_dependencies(arch: Arch, os: Os, present: &Vec<String>) -> (r: Result<
    Vec<DownloadTarget>,
    TerminalError,
>)
    ensures
        r is Ok <==> spec_download_urls(arch, os) is Some,
        spec_files_exist(present@, os) ==> (r matches Ok(v) ==> v@.len() == 0),
        !spec_files_exist(present@, os) ==> (spec_download_urls(arch, os) matches Some(p) ==> (
        r matches Ok(v) && v@.len() == 2 && target_resolves(v@[0], p.0, os) && target_resolves(
            v@[1],
            p.1,
            os,
        ))),
{
    let urls = match get_download_urls(arch, os) {
        Ok(u) => u,
        Err(e) => {
            return Err(e);
        },
    };
    if files_exist(present, os) {
        return Ok(Vec::new());
    }
    let mut targets: Vec<DownloadTarget> = Vec::new();
    targets.push(resolve_target(urls[0], os));
    targets.push(resolve_target(urls[1], os));
    Ok(targets)
}

} // verus!
