//! The archive fetcher's decisions: deriving a file name from a download
//! URL, classifying the archive kind by its extension, and planning an
//! idempotent fetch.
//!
//! The cache policy is presence-only: when the expected artifact already
//! exists at its target path, the plan carries no download at all.

use vstd::prelude::*;
use crate::errors::TerminalError;
use crate::platform::Os;
use crate::text::{after_last, contains_char, contains_str, ends_with_str, eq_str};

verus! {

/// The browser-like agent sent with download requests; binary-release
/// hosts reject default client agents.
pub const USER_AGENT: &'static str =
    "Mozilla/5.0 (Windows NT 10.0; Win64; x64; rv:109.0) Gecko/20100101 Firefox/113.0";

/// How a downloaded artifact is post-processed, derived from the trailing
/// extension of its file name.
#[derive(Clone, Copy, Debug, PartialEq, Eq, Structural)]
pub enum ArchiveKind {
    /// The downloaded file itself is the final artifact.
    Plain,
    /// A zip archive, extracted entry by entry.
    Zip,
    /// A gzipped tar archive, decompressed and untarred.
    TarGz,
    /// An extension this system does not recognise; a hard failure on
    /// Windows, accepted as-is elsewhere.
    Unknown,
}

/// The file name derived from a URL: its final `/`-separated segment, or a
/// generic temporary name when that segment is absent.
pub open spec fn url_file_name(u: Seq<char>) -> Seq<char> {
    if crate::text::last_segment(u, '/').len() == 0 {
        "tmp.bin"@
    } else {
        crate::text::last_segment(u, '/')
    }
}

/// Derives the file name for a download URL.
pub fn file_name_from_url(url: &str) -> (r: String)
    ensures
        r@ == url_file_name(url@),
{
    let seg = after_last(url, '/');
    if seg.unicode_len() == 0 {
        String::from_str("tmp.bin")
    } else {
        String::from_str(seg)
    }
}

/// The extension of a file name: what follows the last `.`, or empty when
/// the name holds no `.` at all.
pub open spec fn file_extension(name: Seq<char>) -> Seq<char> {
    if crate::text::has_char(name, '.') {
        crate::text::last_segment(name, '.')
    } else {
        Seq::empty()
    }
}

/// The extension of `name`, empty when it has none.
pub fn extension_of(name: &str) -> (r: &str)
    ensures
        r@ == file_extension(name@),
{
    if contains_char(name, '.') {
        after_last(name, '.')
    } else {
        proof {
            reveal_strlit("");
            assert(""@ =~= Seq::<char>::empty());
        }
        ""
    }
}

/// The archive kind of a file name, decided by its trailing extension.
pub open spec fn spec_archive_kind(name: Seq<char>) -> ArchiveKind {
    if crate::text::has_suffix(name, ".tar.gz"@) || file_extension(name) == "tgz"@ {
        ArchiveKind::TarGz
    } else if file_extension(name) == "exe"@ {
        ArchiveKind::Plain
    } else if file_extension(name) == "zip"@ {
        ArchiveKind::Zip
    } else {
        ArchiveKind::Unknown
    }
}

/// Classifies a file name by its trailing extension.
pub fn archive_kind_of(name: &str) -> (r: ArchiveKind)
    ensures
        r == spec_archive_kind(name@),
{
    let ext = extension_of(name);
    if ends_with_str(name, ".tar.gz") || eq_str(ext, "tgz") {
        ArchiveKind::TarGz
    } else if eq_str(ext, "exe") {
        ArchiveKind::Plain
    } else if eq_str(ext, "zip") {
        ArchiveKind::Zip
    } else {
        ArchiveKind::Unknown
    }
}

/// One artifact to acquire: where it is downloaded from, the file name its
/// final form is probed under, and how it is post-processed.
pub struct DownloadTarget {
    /// The download URL.
    pub url: String,
    /// The file name of the final artifact below the server directory;
    /// its presence makes the fetch a no-op.
    pub expected_file_name: String,
    /// Post-processing, derived from the URL's file name.
    pub archive_kind: ArchiveKind,
}

/// The name the final artifact is expected under: the tunnel client's
/// archives unpack to a fixed binary name per platform, any other URL
/// keeps its own file name.
pub open spec fn spec_expected_binary_name(u: Seq<char>, os: Os) -> Seq<char> {
    if crate::text::seq_contains(url_file_name(u), "loclx"@) {
        match os {
            Os::Windows => "loclx.exe"@,
            Os::Linux => "loclx"@,
        }
    } else {
        url_file_name(u)
    }
}

/// `t` is the download target resolved from `u` on `os`.
pub open spec fn target_resolves(t: DownloadTarget, u: Seq<char>, os: Os) -> bool {
    &&& t.url@ == u
    &&& t.expected_file_name@ == spec_expected_binary_name(u, os)
    &&& t.archive_kind == spec_archive_kind(url_file_name(u))
}

/// Resolves a download URL into a target.
pub fn resolve_target(url: &str, os: Os) -> (t: DownloadTarget)
    ensures
        target_resolves(t, url@, os),
{
    let file_name = file_name_from_url(url);
    let kind = archive_kind_of(file_name.as_str());
    let expected = if contains_str(file_name.as_str(), "loclx") {
        match os {
            Os::Windows => String::from_str("loclx.exe"),
            Os::Linux => String::from_str("loclx"),
        }
    } else {
        file_name
    };
    DownloadTarget { url: String::from_str(url), expected_file_name: expected, archive_kind: kind }
}

/// What the fetcher does for one target.
pub enum FetchStep {
    /// The artifact is already present at this path; nothing is fetched.
    UseExisting { path: String },
    /// The artifact is fetched from `url` and written to `save_path`, then
    /// post-processed according to `kind`.
    Download { url: String, save_path: String, kind: ArchiveKind },
}

/// Plans one fetch.  When the expected artifact is already present the
/// plan is to use it — no download happens, which makes fetching
/// idempotent; otherwise the artifact is downloaded beside it under the
/// URL's own file name.
pub fn fetch_plan(target: &DownloadTarget, server_dir: &str, target_present: bool) -> (r: FetchStep)
    ensures
        target_present ==> (r matches FetchStep::UseExisting { path } && path@ == server_dir@
            + "/"@ + target.expected_file_name@),
        !target_present ==> (r matches FetchStep::Download { url, save_path, kind } && url@
            == target.url@ && save_path@ == server_dir@ + "/"@ + url_file_name(target.url@) && kind
            == target.archive_kind),
{
    if target_present {
        let path = String::from_str(server_dir).concat("/").concat(
            target.expected_file_name.as_str(),
        );
        FetchStep::UseExisting { path }
    } else {
        let name = file_name_from_url(target.url.as_str());
        let save_path = String::from_str(server_dir).concat("/").concat(name.as_str());
        FetchStep::Download {
            url: target.url.clone(),
            save_path,
            kind: target.archive_kind,
        }
    }
}

/// How a downloaded artifact is post-processed.
#[derive(Clone, Copy, Debug, PartialEq, Eq, Structural)]
pub enum UnpackAction {
    /// The file is kept as downloaded.
    KeepAsIs,
    /// The file is a zip archive and is extracted.
    ExtractZip,
    /// The file is a gzipped tar archive and is extracted.
    ExtractTarGz,
}

/// Decides the post-processing for an archive kind on `os`.  A kind that
/// calls for no post-processing keeps the file; an unrecognised kind is a
/// hard failure on Windows and is accepted as-is elsewhere.
pub fn unpack_plan(kind: ArchiveKind, os: Os) -> (r: Result<UnpackAction, TerminalError>)
    ensures
        kind == ArchiveKind::Plain ==> (r matches Ok(a) && a == UnpackAction::KeepAsIs),
        kind == ArchiveKind::Zip ==> (r matches Ok(a) && a == UnpackAction::ExtractZip),
        kind == ArchiveKind::TarGz && os == Os::Linux ==> (r matches Ok(a) && a
            == UnpackAction::ExtractTarGz),
        kind == ArchiveKind::Unknown && os == Os::Linux ==> (r matches Ok(a) && a
            == UnpackAction::KeepAsIs),
        r is Err <==> (os == Os::Windows && (kind == ArchiveKind::TarGz || kind
            == ArchiveKind::Unknown)),
        r matches Err(e) ==> e.spec_message() == "Unknown file type"@,
{
    match (kind, os) {
        (ArchiveKind::Plain, _) => Ok(UnpackAction::KeepAsIs),
        (ArchiveKind::Zip, _) => Ok(UnpackAction::ExtractZip),
        (ArchiveKind::TarGz, Os::Linux) => Ok(UnpackAction::ExtractTarGz),
        (ArchiveKind::Unknown, Os::Linux) => Ok(UnpackAction::KeepAsIs),
        (ArchiveKind::TarGz, Os::Windows) => Err(TerminalError::new("Unknown file type")),
        (ArchiveKind::Unknown, Os::Windows) => Err(TerminalError::new("Unknown file type")),
    }
}

} // verus!
