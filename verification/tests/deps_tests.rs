use haxrs::deps::{cloudflared_binary_name, get_cloudflare_file, get_download_urls, install_dependencies};
use haxrs::paths::files_exist;
use haxrs::platform::{Arch, Os};

#[test]
fn download_urls_linux_x86_64() {
    let urls = get_download_urls(Arch::X86_64, Os::Linux).unwrap();
    assert_eq!(urls.len(), 2);
    assert_eq!(
        urls[0],
        "https://github.com/cloudflare/cloudflared/releases/latest/download/cloudflared-linux-amd64"
    );
    assert_eq!(urls[1], "https://api.localxpose.io/api/v2/downloads/loclx-linux-amd64.zip");
}

#[test]
fn download_urls_linux_aarch64() {
    let urls = get_download_urls(Arch::Aarch64, Os::Linux).unwrap();
    assert_eq!(urls.len(), 2);
    assert_eq!(
        urls[0],
        "https://github.com/cloudflare/cloudflared/releases/latest/download/cloudflared-linux-arm64"
    );
    assert_eq!(urls[1], "https://api.localxpose.io/api/v2/downloads/loclx-linux-arm64.zip");
}

#[test]
fn download_urls_windows_any_arch() {
    for arch in [Arch::X86_64, Arch::Aarch64, Arch::Other] {
        let urls = get_download_urls(arch, Os::Windows).unwrap();
        assert_eq!(urls.len(), 2);
        assert_eq!(
            urls[0],
            "https://github.com/cloudflare/cloudflared/releases/latest/download/cloudflared-windows-amd64.exe"
        );
        assert_eq!(urls[1], "https://api.localxpose.io/api/v2/downloads/loclx-windows-amd64.zip");
    }
}

#[test]
fn download_urls_all_supported_pairs_are_https() {
    let supported = [
        (Arch::X86_64, Os::Linux),
        (Arch::Aarch64, Os::Linux),
        (Arch::X86_64, Os::Windows),
        (Arch::Aarch64, Os::Windows),
        (Arch::Other, Os::Windows),
    ];
    for (arch, os) in supported {
        let urls = get_download_urls(arch, os).unwrap();
        assert_eq!(urls.len(), 2);
        for url in urls {
            assert!(url.starts_with("https://"));
            assert!(url.len() > "https://".len());
        }
    }
}

#[test]
fn download_urls_unsupported_pair_fails() {
    let r = get_download_urls(Arch::Other, Os::Linux);
    assert!(r.is_err());
    assert_eq!(r.unwrap_err().message(), "Unsupported architecture or OS");
}

#[test]
fn cloudflare_file_per_platform() {
    let dir = Some("/srv/.server");
    assert_eq!(
        get_cloudflare_file(Arch::X86_64, Os::Linux, dir).unwrap(),
        "/srv/.server/cloudflared-linux-amd64"
    );
    assert_eq!(
        get_cloudflare_file(Arch::Aarch64, Os::Linux, dir).unwrap(),
        "/srv/.server/cloudflared-linux-arm64"
    );
    assert_eq!(
        get_cloudflare_file(Arch::Other, Os::Windows, dir).unwrap(),
        "/srv/.server/cloudflared-windows-amd64.exe"
    );
    assert!(get_cloudflare_file(Arch::Other, Os::Linux, dir).is_err());
    assert!(get_cloudflare_file(Arch::X86_64, Os::Linux, None).is_err());
}

#[test]
fn cloudflared_binary_names() {
    assert_eq!(cloudflared_binary_name(Arch::X86_64).unwrap(), "cloudflared-linux-amd64");
    assert_eq!(cloudflared_binary_name(Arch::Aarch64).unwrap(), "cloudflared-linux-arm64");
    assert!(cloudflared_binary_name(Arch::Other).is_err());
}

#[test]
fn install_plan_empty_when_binaries_present() {
    let present = vec!["loclx".to_string(), "cloudflared-linux-amd64".to_string()];
    assert!(files_exist(&present, Os::Linux));
    let plan = install_dependencies(Arch::X86_64, Os::Linux, &present).unwrap();
    assert!(plan.is_empty());
}

#[test]
fn install_plan_fetches_both_when_missing() {
    let present = vec!["loclx".to_string()];
    assert!(!files_exist(&present, Os::Linux));
    let plan = install_dependencies(Arch::X86_64, Os::Linux, &present).unwrap();
    assert_eq!(plan.len(), 2);
    assert_eq!(
        plan[0].url,
        "https://github.com/cloudflare/cloudflared/releases/latest/download/cloudflared-linux-amd64"
    );
    assert_eq!(plan[0].expected_file_name, "cloudflared-linux-amd64");
    assert_eq!(plan[1].url, "https://api.localxpose.io/api/v2/downloads/loclx-linux-amd64.zip");
    assert_eq!(plan[1].expected_file_name, "loclx");
}

#[test]
fn install_plan_unsupported_platform_fails() {
    let present: Vec<String> = Vec::new();
    assert!(install_dependencies(Arch::Other, Os::Linux, &present).is_err());
}

#[test]
fn files_exist_requires_full_set() {
    let only_loclx = vec!["loclx".to_string()];
    assert!(!files_exist(&only_loclx, Os::Linux));
    let alt = vec!["cloudflared-linux-386".to_string(), "loclx".to_string()];
    assert!(files_exist(&alt, Os::Linux));
    let win = vec!["loclx.exe".to_string(), "cloudflared-windows-amd64.exe".to_string()];
    assert!(files_exist(&win, Os::Windows));
    assert!(!files_exist(&win, Os::Linux));
    let none: Vec<String> = Vec::new();
    assert!(!files_exist(&none, Os::Linux));
}
