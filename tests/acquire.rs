use emulatorx::acquire::{Acquisition, Action, Event, Phase};
use emulatorx::error::ManagerError;
use emulatorx::layout::executable_candidate;
use emulatorx::manage::{probe_paths, statuses, uninstall_target, uninstall_verdict};
use emulatorx::registry::{ArchiveKind, Package, Platform};

fn path(parts: &[&str]) -> Vec<String> {
    parts.iter().map(|s| s.to_string()).collect()
}

fn begin(name: &str) -> (Acquisition, Action) {
    Acquisition::start(name, &path(&["root"]), &path(&["tmp"])).ok().unwrap()
}

/// Drives an acquisition through download, staging and clearing, checking the
/// actions, and returns it waiting on extraction.
fn up_to_extraction(name: &str) -> Acquisition {
    let (mut acq, first) = begin(name);
    assert!(matches!(first, Action::Download { .. }));
    assert!(matches!(acq.step(Event::Response { status: 200, size: 2_000_000 }), Action::WriteStaging { .. }));
    assert!(matches!(acq.step(Event::Completed), Action::ClearInstallDir { .. }));
    assert!(matches!(acq.step(Event::Completed), Action::Extract { .. }));
    acq
}

#[test]
fn dolphin_end_to_end() {
    let (mut acq, first) = begin("Dolphin");
    assert_eq!(acq.package, Package::Dolphin);
    match first {
        Action::Download { url, staging_dir } => {
            assert_eq!(url, "https://dl.dolphin-emu.org/releases/2412/dolphin-2412-x64.7z");
            assert_eq!(staging_dir, path(&["tmp", "emulatorx_downloads"]));
        }
        _ => panic!("expected a download"),
    }
    match acq.step(Event::Response { status: 200, size: 1_500_000 }) {
        Action::WriteStaging { path: p } => {
            assert_eq!(p, path(&["tmp", "emulatorx_downloads", "dolphin.7z"]))
        }
        _ => panic!("expected staging"),
    }
    match acq.step(Event::Completed) {
        Action::ClearInstallDir { path: p } => assert_eq!(p, path(&["root", "dolphin"])),
        _ => panic!("expected clearing"),
    }
    match acq.step(Event::Completed) {
        Action::Extract { archive, kind, dest } => {
            assert_eq!(archive, path(&["tmp", "emulatorx_downloads", "dolphin.7z"]));
            assert_eq!(kind, ArchiveKind::SevenZip);
            assert_eq!(dest, path(&["root", "dolphin"]));
        }
        _ => panic!("expected extraction"),
    }
    match acq.step(Event::Completed) {
        Action::RemoveStaging { path: p } => {
            assert_eq!(p, path(&["tmp", "emulatorx_downloads", "dolphin.7z"]))
        }
        _ => panic!("expected staging removal"),
    }
    assert!(matches!(acq.step(Event::Completed), Action::Finish));
    assert!(matches!(acq.phase, Phase::Done(Ok(()))));
    assert!(acq.into_result().is_ok());

    let exe = executable_candidate(&path(&["root"]), "Dolphin", Platform::from_os("windows"))
        .ok()
        .unwrap();
    assert_eq!(exe, path(&["root", "dolphin", "Dolphin-x64", "Dolphin.exe"]));

    let target = uninstall_target(&path(&["root"]), "Dolphin").ok().unwrap();
    assert_eq!(target, path(&["root", "dolphin"]));
    assert!(uninstall_verdict(true, true).is_ok());
    assert!(matches!(uninstall_verdict(false, false), Err(ManagerError::NotInstalled)));
}

#[test]
fn unknown_package_never_starts() {
    assert!(matches!(
        Acquisition::start("Nope", &path(&["root"]), &path(&["tmp"])),
        Err(ManagerError::UnknownPackage)
    ));
    assert!(matches!(uninstall_target(&path(&["root"]), "Nope"), Err(ManagerError::UnknownPackage)));
}

#[test]
fn failed_extraction_rolls_back() {
    let mut acq = up_to_extraction("Xenia");
    match acq.step(Event::Failed) {
        Action::RemoveInstallDir { path: p } => assert_eq!(p, path(&["root", "xenia"])),
        _ => panic!("expected rollback"),
    }
    assert!(matches!(acq.step(Event::Completed), Action::Finish));
    assert!(matches!(acq.into_result(), Err(ManagerError::ArchiveCorrupt)));
}

#[test]
fn blocked_rollback_reports_cleanup_failure() {
    let mut acq = up_to_extraction("Xenia");
    acq.step(Event::Failed);
    acq.step(Event::Failed);
    assert!(matches!(acq.into_result(), Err(ManagerError::CleanupFailed)));
}

#[test]
fn reinstall_clears_before_extracting() {
    for _ in 0..2 {
        let mut acq = up_to_extraction("PCSX2");
        acq.step(Event::Completed);
        acq.step(Event::Completed);
        assert!(acq.into_result().is_ok());
    }
}

#[test]
fn download_failures() {
    let (mut acq, _) = begin("mGBA");
    assert!(matches!(acq.step(Event::Response { status: 200, size: 999_999 }), Action::Finish));
    assert!(matches!(acq.into_result(), Err(ManagerError::SuspiciouslySmallDownload(999_999))));

    let (mut acq, _) = begin("mGBA");
    acq.step(Event::Response { status: 500, size: 2_000_000 });
    assert!(matches!(acq.into_result(), Err(ManagerError::DownloadFailed(500))));

    let (mut acq, _) = begin("mGBA");
    acq.step(Event::Failed);
    assert!(matches!(acq.into_result(), Err(ManagerError::TransportFailed)));
}

#[test]
fn storage_failures() {
    let (mut acq, _) = begin("xemu");
    acq.step(Event::Response { status: 200, size: 1_000_000 });
    acq.step(Event::Failed);
    assert!(matches!(acq.into_result(), Err(ManagerError::StorageFailed)));

    let mut acq = up_to_extraction("xemu");
    acq.step(Event::Completed);
    acq.step(Event::Failed);
    assert!(matches!(acq.into_result(), Err(ManagerError::StorageFailed)));
}

#[test]
fn clearing_failure() {
    let (mut acq, _) = begin("RPCS3");
    acq.step(Event::Response { status: 200, size: 1_000_000 });
    acq.step(Event::Completed);
    acq.step(Event::Failed);
    assert!(matches!(acq.into_result(), Err(ManagerError::CleanupFailed)));
}

#[test]
fn installation_statuses() {
    let paths = probe_paths(&path(&["root"]));
    assert_eq!(paths.len(), 11);
    assert_eq!(paths[0], path(&["root", "dolphin"]));
    assert_eq!(paths[10], path(&["root", "mesen"]));
    let mut found = vec![false; 11];
    found[0] = true;
    let s = statuses(&found);
    assert_eq!(s.len(), 11);
    assert_eq!(s[0].name, "Dolphin");
    assert!(s[0].installed);
    assert_eq!(s[1].name, "Xenia");
    assert!(!s[1].installed);
}

#[test]
fn uninstall_blocked() {
    assert!(matches!(uninstall_verdict(true, false), Err(ManagerError::CleanupFailed)));
}
