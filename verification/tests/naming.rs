use mojo_extension::names::{Arch, Os, asset_name, binary_path, version_dir};

#[test]
fn asset_name_linux_x86_64() {
    assert_eq!(asset_name(Arch::X8664, Os::Linux), "magic-x86_64-linux.tar.gz".to_string());
}

#[test]
fn asset_name_windows_x86_64() {
    assert_eq!(asset_name(Arch::X8664, Os::Windows), "magic-x86_64-windows.exe".to_string());
}

#[test]
fn asset_name_mac_aarch64() {
    assert_eq!(asset_name(Arch::Aarch64, Os::Mac), "magic-aarch64-macos.tar.gz".to_string());
}

#[test]
fn asset_name_is_deterministic() {
    let first = asset_name(Arch::X86, Os::Linux);
    let second = asset_name(Arch::X86, Os::Linux);
    assert_eq!(first, second);
    assert_eq!(first, "magic-x86-linux.tar.gz".to_string());
}

#[test]
fn version_dir_example() {
    assert_eq!(version_dir("1.2.3"), "magic-1.2.3".to_string());
}

#[test]
fn binary_path_example() {
    assert_eq!(binary_path("1.2.3"), "magic-1.2.3/magic".to_string());
}
