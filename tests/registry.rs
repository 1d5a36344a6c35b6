use emulatorx::error::ManagerError;
use emulatorx::registry::{all_packages, lookup, same_text, ArchiveKind, Package, Platform};

#[test]
fn lookup_known_ids() {
    assert_eq!(lookup("Dolphin").ok(), Some(Package::Dolphin));
    assert_eq!(lookup("mGBA").ok(), Some(Package::Mgba));
    assert_eq!(lookup("Mesen").ok(), Some(Package::Mesen));
}

#[test]
fn lookup_unknown_id_fails() {
    assert!(matches!(lookup("NotAnEmulator"), Err(ManagerError::UnknownPackage)));
    assert!(matches!(lookup("dolphin"), Err(ManagerError::UnknownPackage)));
    assert!(matches!(lookup(""), Err(ManagerError::UnknownPackage)));
}

#[test]
fn every_package_is_found_by_its_id() {
    let all = all_packages();
    assert_eq!(all.len(), 11);
    for p in all {
        assert_eq!(lookup(p.id()).ok(), Some(p));
    }
}

#[test]
fn descriptors_of_two_kinds() {
    assert_eq!(Package::Dolphin.archive_kind(), ArchiveKind::SevenZip);
    assert_eq!(Package::Xenia.archive_kind(), ArchiveKind::Zip);
    assert_eq!(Package::Dolphin.dir_key(), "dolphin");
    assert_eq!(Package::DuckStation.dir_key(), "duckstation");
    assert_eq!(Package::Dolphin.staging_file_name(), "dolphin.7z");
    assert_eq!(Package::Xenia.staging_file_name(), "xenia.zip");
    assert_eq!(
        Package::Dolphin.source_url(),
        "https://dl.dolphin-emu.org/releases/2412/dolphin-2412-x64.7z"
    );
}

#[test]
fn platforms_from_os_names() {
    assert_eq!(Platform::from_os("windows"), Platform::Windows);
    assert_eq!(Platform::from_os("linux"), Platform::Linux);
    assert_eq!(Platform::from_os("macos"), Platform::MacOs);
    assert_eq!(Platform::from_os("freebsd"), Platform::Other);
}

#[test]
fn executable_relative_paths() {
    let rel = Package::Dolphin.executable_rel_path(Platform::Windows).ok().unwrap();
    assert_eq!(rel, vec!["Dolphin-x64".to_string(), "Dolphin.exe".to_string()]);
    let rel = Package::Ppsspp.executable_rel_path(Platform::Windows).ok().unwrap();
    assert_eq!(rel, vec!["PPSSPPWindows64.exe".to_string()]);
    assert!(matches!(
        Package::Dolphin.executable_rel_path(Platform::Linux),
        Err(ManagerError::UnsupportedPlatform)
    ));
}

#[test]
fn text_comparison() {
    assert!(same_text("abc", "abc"));
    assert!(!same_text("abc", "abd"));
    assert!(!same_text("abc", "ab"));
    assert!(same_text("", ""));
}

#[test]
fn error_messages_are_not_empty() {
    assert_eq!(ManagerError::UnknownPackage.message(), "unknown package");
    assert!(!ManagerError::TruncatedDownload(1000, 900).message().is_empty());
}
