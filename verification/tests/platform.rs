use cloudflared::platform::Platform;

#[test]
fn operating_systems_map_to_platforms() {
    assert_eq!(Platform::from_os("linux"), Platform::Linux);
    assert_eq!(Platform::from_os("macos"), Platform::MacOs);
    assert_eq!(Platform::from_os("windows"), Platform::Windows);
    assert_eq!(Platform::from_os("freebsd"), Platform::Other);
    assert_eq!(Platform::from_os("android"), Platform::Other);
    assert_eq!(Platform::from_os(""), Platform::Other);
    assert_eq!(Platform::from_os("Linux"), Platform::Other);
    assert_eq!(Platform::from_os("linux "), Platform::Other);
    assert_eq!(Platform::from_os("mac"), Platform::Other);
}

#[test]
fn install_paths_are_fixed() {
    assert_eq!(Platform::Linux.install_path(), "/tmp/cloudflared");
    assert_eq!(Platform::MacOs.install_path(), "/tmp/cloudflared");
    assert_eq!(Platform::Other.install_path(), "/tmp/cloudflared");
    assert_eq!(Platform::Windows.install_path(), "C:\\Windows\\Temp\\cloudflared.exe");
}

#[test]
fn install_dirs_hold_the_install_paths() {
    assert_eq!(Platform::Linux.install_dir(), "/tmp");
    assert_eq!(Platform::MacOs.install_dir(), "/tmp");
    assert_eq!(Platform::Other.install_dir(), "/tmp");
    assert_eq!(Platform::Windows.install_dir(), "C:\\Windows\\Temp");
    for platform in [Platform::Linux, Platform::MacOs, Platform::Windows, Platform::Other] {
        assert!(platform.install_path().starts_with(platform.install_dir()));
    }
}

#[test]
fn asset_names_are_fixed() {
    assert_eq!(Platform::Linux.asset_name(), Some("cloudflared-linux-amd64"));
    assert_eq!(Platform::MacOs.asset_name(), Some("cloudflared-darwin-amd64.tgz"));
    assert_eq!(Platform::Windows.asset_name(), Some("cloudflared-windows-amd64.exe"));
    assert_eq!(Platform::Other.asset_name(), None);
}

#[test]
fn download_paths_are_fixed() {
    assert_eq!(Platform::Linux.download_path(), "/tmp/cloudflared");
    assert_eq!(Platform::MacOs.download_path(), "/tmp/cloudflared.tgz");
    assert_eq!(Platform::Windows.download_path(), "C:\\Windows\\Temp\\cloudflared.exe");
    assert_eq!(Platform::Other.download_path(), "/tmp/cloudflared");
}

#[test]
fn only_the_macos_asset_is_an_archive() {
    assert!(Platform::MacOs.needs_extraction());
    assert!(!Platform::Linux.needs_extraction());
    assert!(!Platform::Windows.needs_extraction());
    assert!(!Platform::Other.needs_extraction());
}
