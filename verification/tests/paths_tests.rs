use haxrs::errors::{MyIOError, MyStrError, TerminalError};
use haxrs::paths::{get_data_dir, get_server_dir, get_sites_dir, setup_directories, site_dir};
use haxrs::platform::{arch_from_name, os_from_name, Arch, Os};
use haxrs::text::{parse_u16, trim_str, u16_to_string};

#[test]
fn data_dir_per_platform() {
    assert_eq!(get_data_dir(Os::Linux, Some("/home/user")).unwrap(), "/home/user/.haxrs");
    assert_eq!(get_data_dir(Os::Windows, Some("C:/Users/u/AppData/Roaming")).unwrap(), "C:/Users/u/AppData/Roaming/HaxRS");
    assert!(get_data_dir(Os::Linux, None).is_none());
}

#[test]
fn server_and_sites_dirs_below_data_dir() {
    assert_eq!(get_server_dir(Some("/home/user/.haxrs")).unwrap(), "/home/user/.haxrs/zphisher/.server");
    assert_eq!(get_sites_dir(Some("/home/user/.haxrs")).unwrap(), "/home/user/.haxrs/zphisher/.server/sites");
    assert!(get_server_dir(None).is_none());
    assert!(get_sites_dir(None).is_none());
}

#[test]
fn selected_site_directory() {
    assert_eq!(site_dir("/d/.server/sites", "microsoft"), "/d/.server/sites/microsoft");
}

#[test]
fn startup_plan_creates_and_removes_expected_paths() {
    let plan = setup_directories(Some("/home/user/.haxrs")).unwrap();
    assert_eq!(
        plan.create_dirs,
        vec![
            "/home/user/.haxrs/zphisher/.server".to_string(),
            "/home/user/.haxrs/zphisher/auth".to_string(),
            "/home/user/.haxrs/zphisher/.server/www".to_string(),
        ]
    );
    assert_eq!(
        plan.remove_files,
        vec![
            "/home/user/.haxrs/zphisher/.server/.loclx".to_string(),
            "/home/user/.haxrs/zphisher/.server/.cld.log".to_string(),
        ]
    );
}

#[test]
fn startup_plan_fails_without_data_dir() {
    let r = setup_directories(None);
    assert_eq!(r.unwrap_err().message(), "Failed to get home directory");
}

#[test]
fn platform_names_map_to_enums() {
    assert_eq!(os_from_name("linux"), Some(Os::Linux));
    assert_eq!(os_from_name("windows"), Some(Os::Windows));
    assert_eq!(os_from_name("macos"), None);
    assert_eq!(arch_from_name("x86_64"), Arch::X86_64);
    assert_eq!(arch_from_name("aarch64"), Arch::Aarch64);
    assert_eq!(arch_from_name("riscv64"), Arch::Other);
}

#[test]
fn error_messages_carry_through() {
    let e = TerminalError::new("boom");
    assert_eq!(e.message(), "boom");
    let io: TerminalError = MyIOError("disk gone".to_string()).into();
    assert_eq!(io.message(), "disk gone");
    let s: TerminalError = MyStrError("plain reason".to_string()).into();
    assert_eq!(s.message(), "plain reason");
    assert_eq!(TerminalError::ClearError("no tty".to_string()).message(), "no tty");
    assert_eq!(TerminalError::ReqwestError("timeout".to_string()).message(), "timeout");
}

#[test]
fn decimal_helpers() {
    assert_eq!(u16_to_string(0), "0");
    assert_eq!(u16_to_string(8080), "8080");
    assert_eq!(u16_to_string(65535), "65535");
    assert_eq!(parse_u16("65535"), Some(65535));
    assert_eq!(parse_u16("65536"), None);
    assert_eq!(parse_u16("+17"), Some(17));
    assert_eq!(parse_u16(""), None);
    assert_eq!(parse_u16("1 2"), None);
    assert_eq!(trim_str("  padded\t"), "padded");
}
