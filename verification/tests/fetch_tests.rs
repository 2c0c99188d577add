use haxrs::fetch::{
    archive_kind_of, fetch_plan, file_name_from_url, resolve_target, unpack_plan, ArchiveKind,
    FetchStep, UnpackAction,
};
use haxrs::platform::Os;

#[test]
fn file_name_is_last_url_segment() {
    assert_eq!(file_name_from_url("https://host/a/b/tool.zip"), "tool.zip");
    assert_eq!(file_name_from_url("https://host/cloudflared-linux-amd64"), "cloudflared-linux-amd64");
    assert_eq!(file_name_from_url("no-slashes"), "no-slashes");
}

#[test]
fn file_name_falls_back_when_segment_absent() {
    assert_eq!(file_name_from_url("https://host/a/"), "tmp.bin");
    assert_eq!(file_name_from_url(""), "tmp.bin");
}

#[test]
fn archive_kind_by_extension() {
    assert_eq!(archive_kind_of("setup.exe"), ArchiveKind::Plain);
    assert_eq!(archive_kind_of("bundle.zip"), ArchiveKind::Zip);
    assert_eq!(archive_kind_of("bundle.tgz"), ArchiveKind::TarGz);
    assert_eq!(archive_kind_of("bundle.tar.gz"), ArchiveKind::TarGz);
    assert_eq!(archive_kind_of("cloudflared-linux-amd64"), ArchiveKind::Unknown);
    assert_eq!(archive_kind_of("strange.rar"), ArchiveKind::Unknown);
}

#[test]
fn resolve_target_remaps_tunnel_client_binary() {
    let t = resolve_target("https://api.localxpose.io/api/v2/downloads/loclx-linux-amd64.zip", Os::Linux);
    assert_eq!(t.url, "https://api.localxpose.io/api/v2/downloads/loclx-linux-amd64.zip");
    assert_eq!(t.expected_file_name, "loclx");
    assert_eq!(t.archive_kind, ArchiveKind::Zip);

    let w = resolve_target("https://api.localxpose.io/api/v2/downloads/loclx-windows-amd64.zip", Os::Windows);
    assert_eq!(w.expected_file_name, "loclx.exe");
}

#[test]
fn resolve_target_keeps_other_names() {
    let t = resolve_target(
        "https://github.com/cloudflare/cloudflared/releases/latest/download/cloudflared-linux-amd64",
        Os::Linux,
    );
    assert_eq!(t.expected_file_name, "cloudflared-linux-amd64");
    assert_eq!(t.archive_kind, ArchiveKind::Unknown);
}

#[test]
fn fetch_is_idempotent_when_target_present() {
    let target = resolve_target("https://host/dir/tool.zip", Os::Linux);
    // First fetch: the artifact is missing, so the plan downloads it.
    let first = fetch_plan(&target, "/srv/.server", false);
    match first {
        FetchStep::Download { url, save_path, kind } => {
            assert_eq!(url, "https://host/dir/tool.zip");
            assert_eq!(save_path, "/srv/.server/tool.zip");
            assert_eq!(kind, ArchiveKind::Zip);
        },
        FetchStep::UseExisting { .. } => panic!("expected a download"),
    }
    // Second fetch with the target present: no download is planned at all.
    let second = fetch_plan(&target, "/srv/.server", true);
    match second {
        FetchStep::UseExisting { path } => assert_eq!(path, "/srv/.server/tool.zip"),
        FetchStep::Download { .. } => panic!("a second fetch must not download"),
    }
}

#[test]
fn unpack_decision_table() {
    assert_eq!(unpack_plan(ArchiveKind::Plain, Os::Linux).unwrap(), UnpackAction::KeepAsIs);
    assert_eq!(unpack_plan(ArchiveKind::Plain, Os::Windows).unwrap(), UnpackAction::KeepAsIs);
    assert_eq!(unpack_plan(ArchiveKind::Zip, Os::Windows).unwrap(), UnpackAction::ExtractZip);
    assert_eq!(unpack_plan(ArchiveKind::TarGz, Os::Linux).unwrap(), UnpackAction::ExtractTarGz);
    assert_eq!(unpack_plan(ArchiveKind::Unknown, Os::Linux).unwrap(), UnpackAction::KeepAsIs);
    let e = unpack_plan(ArchiveKind::Unknown, Os::Windows).unwrap_err();
    assert_eq!(e.message(), "Unknown file type");
    assert!(unpack_plan(ArchiveKind::TarGz, Os::Windows).is_err());
}
