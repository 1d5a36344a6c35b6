use emulatorx::error::ManagerError;
use emulatorx::layout::{
    confirm_executable, executable_candidate, install_root, package_path, rom_path,
    settings_path, staging_dir, staging_path, working_directory,
};
use emulatorx::registry::{Package, Platform};

fn path(parts: &[&str]) -> Vec<String> {
    parts.iter().map(|s| s.to_string()).collect()
}

#[test]
fn root_and_package_paths() {
    let root = install_root(&path(&["home", "u", ".local", "share"]));
    assert_eq!(root, path(&["home", "u", ".local", "share", "EmulatorX", "emulators"]));
    assert_eq!(package_path(&root, Package::Pcsx2).last().unwrap(), "pcsx2");
    assert_eq!(settings_path(&path(&["r"])), path(&["r", "settings.json"]));
    assert_eq!(rom_path(&path(&["r"]), "game.iso"), path(&["r", "roms", "game.iso"]));
}

#[test]
fn staging_paths() {
    let temp = path(&["tmp"]);
    assert_eq!(staging_dir(&temp), path(&["tmp", "emulatorx_downloads"]));
    assert_eq!(staging_path(&temp, Package::Dolphin), path(&["tmp", "emulatorx_downloads", "dolphin.7z"]));
    assert_eq!(staging_path(&temp, Package::Xemu), path(&["tmp", "emulatorx_downloads", "xemu.zip"]));
}

#[test]
fn resolve_dolphin_on_windows() {
    let root = path(&["root"]);
    let exe = executable_candidate(&root, "Dolphin", Platform::Windows).ok().unwrap();
    assert_eq!(exe, path(&["root", "dolphin", "Dolphin-x64", "Dolphin.exe"]));
    assert_eq!(working_directory(&exe), path(&["root", "dolphin", "Dolphin-x64"]));
}

#[test]
fn resolve_failures() {
    let root = path(&["root"]);
    assert!(matches!(
        executable_candidate(&root, "Unknown", Platform::Windows),
        Err(ManagerError::UnknownPackage)
    ));
    assert!(matches!(
        executable_candidate(&root, "Xenia", Platform::Linux),
        Err(ManagerError::UnsupportedPlatform)
    ));
}

#[test]
fn confirm_reports_listing_on_miss() {
    let exe = path(&["root", "dolphin", "Dolphin-x64", "Dolphin.exe"]);
    assert_eq!(confirm_executable(exe.clone(), true, vec![]).ok(), Some(exe.clone()));
    match confirm_executable(exe.clone(), false, path(&["Dolphin-2412"])) {
        Err(ManagerError::ExecutableNotFound { searched, listing }) => {
            assert_eq!(searched, exe);
            assert_eq!(listing, path(&["Dolphin-2412"]));
        }
        _ => panic!("expected ExecutableNotFound"),
    }
}
