use vstd::prelude::*;
use vstd::string::*;
use crate::error::ManagerError;

verus! {

/// A package the manager knows how to acquire, install and launch.
#[derive(Clone, Copy, Debug, PartialEq, Eq, Structural)]
pub enum Package {
    Dolphin,
    Xenia,
    Pcsx2,
    Rpcs3,
    DuckStation,
    Mgba,
    Xemu,
    Ppsspp,
    Flycast,
    Zsnes,
    Mesen,
}

/// The container format a package's archive ships in.
#[derive(Clone, Copy, Debug, PartialEq, Eq, Structural)]
pub enum ArchiveKind {
    SevenZip,
    Zip,
}

/// The host platform, as far as executable resolution cares.
#[derive(Clone, Copy, Debug, PartialEq, Eq, Structural)]
pub enum Platform {
    Windows,
    Linux,
    MacOs,
    Other,
}

/// The stable identifier of a package, which is also its display name.
pub open spec fn id_of(p: Package) -> Seq<char> {
    match p {
        Package::Dolphin => "Dolphin"@,
        Package::Xenia => "Xenia"@,
        Package::Pcsx2 => "PCSX2"@,
        Package::Rpcs3 => "RPCS3"@,
        Package::DuckStation => "DuckStation"@,
        Package::Mgba => "mGBA"@,
        Package::Xemu => "xemu"@,
        Package::Ppsspp => "PPSSPP"@,
        Package::Flycast => "Flycast"@,
        Package::Zsnes => "ZSNES"@,
        Package::Mesen => "Mesen"@,
    }
}

/// The name of the package's subdirectory under the installation root.
pub open spec fn dir_key_of(p: Package) -> Seq<char> {
    match p {
        Package::Dolphin => "dolphin"@,
        Package::Xenia => "xenia"@,
        Package::Pcsx2 => "pcsx2"@,
        Package::Rpcs3 => "rpcs3"@,
        Package::DuckStation => "duckstation"@,
        Package::Mgba => "mgba"@,
        Package::Xemu => "xemu"@,
        Package::Ppsspp => "ppsspp"@,
        Package::Flycast => "flycast"@,
        Package::Zsnes => "zsnes"@,
        Package::Mesen => "mesen"@,
    }
}

pub open spec fn archive_kind_of(p: Package) -> ArchiveKind {
    match p {
        Package::Dolphin | Package::Pcsx2 | Package::Rpcs3 | Package::Mgba => ArchiveKind::SevenZip,
        _ => ArchiveKind::Zip,
    }
}

pub open spec fn source_url_of(p: Package) -> Seq<char> {
    match p {
        Package::Dolphin => "https://dl.dolphin-emu.org/releases/2412/dolphin-2412-x64.7z"@,
        Package::Xenia => "https://github.com/xenia-project/release-builds-windows/releases/latest/download/xenia_master.zip"@,
        Package::Pcsx2 => "https://github.com/PCSX2/pcsx2/releases/download/v2.0.0/pcsx2-v2.0.0-windows-x64-Qt.7z"@,
        Package::Rpcs3 => "https://github.com/RPCS3/rpcs3-binaries-win/releases/download/build-394fc8eb79845caaf9528d7c1ac6fd78d653863c/rpcs3-v0.0.34-17416-394fc8eb_win64.7z"@,
        Package::DuckStation => "https://github.com/stenzek/duckstation/releases/download/latest/duckstation-windows-x64-release.zip"@,
        Package::Mgba => "https://github.com/mgba-emu/mgba/releases/download/0.10.4/mGBA-0.10.4-win32.7z"@,
        Package::Xemu => "https://github.com/xemu-project/xemu/releases/latest/download/xemu-win-x86_64-release.zip"@,
        Package::Ppsspp => "https://www.ppsspp.org/files/1_18_1/ppsspp_win.zip"@,
        Package::Flycast => "https://github.com/flyinghead/flycast/releases/download/v2.4/flycast-win64-2.4.zip"@,
        Package::Zsnes => "https://www.fosshub.com/ZSNES.html?dwl=zsnes151.zip"@,
        Package::Mesen => "https://nightly.link/SourMesen/Mesen2/workflows/build/master/Mesen%20%28Windows%20-%20net8.0%20-%20AoT%29.zip"@,
    }
}

/// The file extension of an archive kind, dot included.
pub open spec fn extension_of(k: ArchiveKind) -> Seq<char> {
    match k {
        ArchiveKind::SevenZip => ".7z"@,
        ArchiveKind::Zip => ".zip"@,
    }
}

/// The path of the package's launchable binary relative to its install
/// directory, one path component per element; `None` where the platform is
/// not covered.
pub open spec fn executable_rel_of(p: Package, platform: Platform) -> Option<Seq<Seq<char>>> {
    if platform != Platform::Windows {
        None
    } else {
        Some(
            match p {
                Package::Dolphin => seq!["Dolphin-x64"@, "Dolphin.exe"@],
                Package::Xenia => seq!["xenia.exe"@],
                Package::Pcsx2 => seq!["pcsx2-qt.exe"@],
                Package::Rpcs3 => seq!["rpcs3.exe"@],
                Package::DuckStation => seq!["duckstation-qt-x64-ReleaseLTCG.exe"@],
                Package::Mgba => seq!["mGBA.exe"@],
                Package::Xemu => seq!["xemu.exe"@],
                Package::Ppsspp => seq!["PPSSPPWindows64.exe"@],
                Package::Flycast => seq!["flycast.exe"@],
                Package::Zsnes => seq!["zsnesw.exe"@],
                Package::Mesen => seq!["Mesen.exe"@],
            },
        )
    }
}

/// The package registered under `name`, if any.
pub open spec fn package_named(name: Seq<char>) -> Option<Package> {
    if name == "Dolphin"@ {
        Some(Package::Dolphin)
    } else if name == "Xenia"@ {
        Some(Package::Xenia)
    } else if name == "PCSX2"@ {
        Some(Package::Pcsx2)
    } else if name == "RPCS3"@ {
        Some(Package::Rpcs3)
    } else if name == "DuckStation"@ {
        Some(Package::DuckStation)
    } else if name == "mGBA"@ {
        Some(Package::Mgba)
    } else if name == "xemu"@ {
        Some(Package::Xemu)
    } else if name == "PPSSPP"@ {
        Some(Package::Ppsspp)
    } else if name == "Flycast"@ {
        Some(Package::Flycast)
    } else if name == "ZSNES"@ {
        Some(Package::Zsnes)
    } else if name == "Mesen"@ {
        Some(Package::Mesen)
    } else {
        None
    }
}

/// Each package is found under its own id, so no two packages share an id.
pub proof fn lemma_id_names_package(p: Package)
    ensures
        package_named(id_of(p)) == Some(p),
{
    reveal_strlit("Dolphin");
    reveal_strlit("Xenia");
    reveal_strlit("PCSX2");
    reveal_strlit("RPCS3");
    reveal_strlit("DuckStation");
    reveal_strlit("mGBA");
    reveal_strlit("xemu");
    reveal_strlit("PPSSPP");
    reveal_strlit("Flycast");
    reveal_strlit("ZSNES");
    reveal_strlit("Mesen");
    match p {
        Package::Dolphin => {},
        Package::Xenia => {
            assert("Xenia"@.len() != "Dolphin"@.len());
        },
        Package::Pcsx2 => {
            assert("PCSX2"@.len() != "Dolphin"@.len());
            assert("PCSX2"@[0] != "Xenia"@[0]);
        },
        Package::Rpcs3 => {
            assert("RPCS3"@.len() != "Dolphin"@.len());
            assert("RPCS3"@[0] != "Xenia"@[0]);
            assert("RPCS3"@[0] != "PCSX2"@[0]);
        },
        Package::DuckStation => {
            assert("DuckStation"@.len() != "Dolphin"@.len());
            assert("DuckStation"@.len() != "Xenia"@.len());
            assert("DuckStation"@.len() != "PCSX2"@.len());
            assert("DuckStation"@.len() != "RPCS3"@.len());
        },
        Package::Mgba => {
            assert("mGBA"@.len() != "Dolphin"@.len());
            assert("mGBA"@.len() != "Xenia"@.len());
            assert("mGBA"@.len() != "PCSX2"@.len());
            assert("mGBA"@.len() != "RPCS3"@.len());
            assert("mGBA"@.len() != "DuckStation"@.len());
        },
        Package::Xemu => {
            assert("xemu"@.len() != "Dolphin"@.len());
            assert("xemu"@.len() != "Xenia"@.len());
            assert("xemu"@.len() != "PCSX2"@.len());
            assert("xemu"@.len() != "RPCS3"@.len());
            assert("xemu"@.len() != "DuckStation"@.len());
            assert("xemu"@[0] != "mGBA"@[0]);
        },
        Package::Ppsspp => {
            assert("PPSSPP"@.len() != "Dolphin"@.len());
            assert("PPSSPP"@.len() != "Xenia"@.len());
            assert("PPSSPP"@.len() != "PCSX2"@.len());
            assert("PPSSPP"@.len() != "RPCS3"@.len());
            assert("PPSSPP"@.len() != "DuckStation"@.len());
            assert("PPSSPP"@.len() != "mGBA"@.len());
            assert("PPSSPP"@.len() != "xemu"@.len());
        },
        Package::Flycast => {
            assert("Flycast"@[0] != "Dolphin"@[0]);
            assert("Flycast"@.len() != "Xenia"@.len());
            assert("Flycast"@.len() != "PCSX2"@.len());
            assert("Flycast"@.len() != "RPCS3"@.len());
            assert("Flycast"@.len() != "DuckStation"@.len());
            assert("Flycast"@.len() != "mGBA"@.len());
            assert("Flycast"@.len() != "xemu"@.len());
            assert("Flycast"@.len() != "PPSSPP"@.len());
        },
        Package::Zsnes => {
            assert("ZSNES"@.len() != "Dolphin"@.len());
            assert("ZSNES"@[0] != "Xenia"@[0]);
            assert("ZSNES"@[0] != "PCSX2"@[0]);
            assert("ZSNES"@[0] != "RPCS3"@[0]);
            assert("ZSNES"@.len() != "DuckStation"@.len());
            assert("ZSNES"@.len() != "mGBA"@.len());
            assert("ZSNES"@.len() != "xemu"@.len());
            assert("ZSNES"@.len() != "PPSSPP"@.len());
            assert("ZSNES"@.len() != "Flycast"@.len());
        },
        Package::Mesen => {
            assert("Mesen"@.len() != "Dolphin"@.len());
            assert("Mesen"@[0] != "Xenia"@[0]);
            assert("Mesen"@[0] != "PCSX2"@[0]);
            assert("Mesen"@[0] != "RPCS3"@[0]);
            assert("Mesen"@.len() != "DuckStation"@.len());
            assert("Mesen"@.len() != "mGBA"@.len());
            assert("Mesen"@.len() != "xemu"@.len());
            assert("Mesen"@.len() != "PPSSPP"@.len());
            assert("Mesen"@.len() != "Flycast"@.len());
            assert("Mesen"@[0] != "ZSNES"@[0]);
        },
    }
}

/// Every registered package, in registry order.
pub open spec fn registry_order() -> Seq<Package> {
    seq![
        Package::Dolphin,
        Package::Xenia,
        Package::Pcsx2,
        Package::Rpcs3,
        Package::DuckStation,
        Package::Mgba,
        Package::Xemu,
        Package::Ppsspp,
        Package::Flycast,
        Package::Zsnes,
        Package::Mesen,
    ]
}

/// The view of a path held as one `String` per component.
pub open spec fn components(v: Seq<String>) -> Seq<Seq<char>> {
    v.map_values(|s: String| s@)
}

/// Whether two strings hold the same characters.
pub fn same_text(a: &str, b: &str) -> (r: bool)
    ensures
        r == (a@ == b@),
{
    let n = a.unicode_len();
    if n != b.unicode_len() {
        return false;
    }
    let mut i: usize = 0;
    while i < n
        invariant
            i <= n,
            n == a@.len(),
            n == b@.len(),
            forall|j: int| 0 <= j < i ==> a@[j] == b@[j],
        decreases n - i,
    {
        if a.get_char(i) != b.get_char(i) {
            return false;
        }
        i += 1;
    }
    assert(a@ =~= b@);
    true
}

/// Looks a package up by its id.
pub fn lookup(name: &str) -> (r: Result<Package, ManagerError>)
    ensures
        match package_named(name@) {
            Some(p) => r == Ok::<Package, ManagerError>(p),
            None => r == Err::<Package, ManagerError>(ManagerError::UnknownPackage),
        },
{
    if same_text(name, "Dolphin") {
        Ok(Package::Dolphin)
    } else if same_text(name, "Xenia") {
        Ok(Package::Xenia)
    } else if same_text(name, "PCSX2") {
        Ok(Package::Pcsx2)
    } else if same_text(name, "RPCS3") {
        Ok(Package::Rpcs3)
    } else if same_text(name, "DuckStation") {
        Ok(Package::DuckStation)
    } else if same_text(name, "mGBA") {
        Ok(Package::Mgba)
    } else if same_text(name, "xemu") {
        Ok(Package::Xemu)
    } else if same_text(name, "PPSSPP") {
        Ok(Package::Ppsspp)
    } else if same_text(name, "Flycast") {
        Ok(Package::Flycast)
    } else if same_text(name, "ZSNES") {
        Ok(Package::Zsnes)
    } else if same_text(name, "Mesen") {
        Ok(Package::Mesen)
    } else {
        Err(ManagerError::UnknownPackage)
    }
}

impl Package {
    /// The package's stable id.
    pub fn id(&self) -> (r: &'static str)
        ensures
            r@ == id_of(*self),
    {
        match self {
            Package::Dolphin => "Dolphin",
            Package::Xenia => "Xenia",
            Package::Pcsx2 => "PCSX2",
            Package::Rpcs3 => "RPCS3",
            Package::DuckStation => "DuckStation",
            Package::Mgba => "mGBA",
            Package::Xemu => "xemu",
            Package::Ppsspp => "PPSSPP",
            Package::Flycast => "Flycast",
            Package::Zsnes => "ZSNES",
            Package::Mesen => "Mesen",
        }
    }

    /// The name of the package's directory under the installation root.
    pub fn dir_key(&self) -> (r: &'static str)
        ensures
            r@ == dir_key_of(*self),
    {
        match self {
            Package::Dolphin => "dolphin",
            Package::Xenia => "xenia",
            Package::Pcsx2 => "pcsx2",
            Package::Rpcs3 => "rpcs3",
            Package::DuckStation => "duckstation",
            Package::Mgba => "mgba",
            Package::Xemu => "xemu",
            Package::Ppsspp => "ppsspp",
            Package::Flycast => "flycast",
            Package::Zsnes => "zsnes",
            Package::Mesen => "mesen",
        }
    }

    /// Where the package's archive is downloaded from.
    pub fn source_url(&self) -> (r: &'static str)
        ensures
            r@ == source_url_of(*self),
    {
        match self {
            Package::Dolphin => "https://dl.dolphin-emu.org/releases/2412/dolphin-2412-x64.7z",
            Package::Xenia => "https://github.com/xenia-project/release-builds-windows/releases/latest/download/xenia_master.zip",
            Package::Pcsx2 => "https://github.com/PCSX2/pcsx2/releases/download/v2.0.0/pcsx2-v2.0.0-windows-x64-Qt.7z",
            Package::Rpcs3 => "https://github.com/RPCS3/rpcs3-binaries-win/releases/download/build-394fc8eb79845caaf9528d7c1ac6fd78d653863c/rpcs3-v0.0.34-17416-394fc8eb_win64.7z",
            Package::DuckStation => "https://github.com/stenzek/duckstation/releases/download/latest/duckstation-windows-x64-release.zip",
            Package::Mgba => "https://github.com/mgba-emu/mgba/releases/download/0.10.4/mGBA-0.10.4-win32.7z",
            Package::Xemu => "https://github.com/xemu-project/xemu/releases/latest/download/xemu-win-x86_64-release.zip",
            Package::Ppsspp => "https://www.ppsspp.org/files/1_18_1/ppsspp_win.zip",
            Package::Flycast => "https://github.com/flyinghead/flycast/releases/download/v2.4/flycast-win64-2.4.zip",
            Package::Zsnes => "https://www.fosshub.com/ZSNES.html?dwl=zsnes151.zip",
            Package::Mesen => "https://nightly.link/SourMesen/Mesen2/workflows/build/master/Mesen%20%28Windows%20-%20net8.0%20-%20AoT%29.zip",
        }
    }

    /// The container format of the package's archive.
    pub fn archive_kind(&self) -> (r: ArchiveKind)
        ensures
            r == archive_kind_of(*self),
    {
        match self {
            Package::Dolphin | Package::Pcsx2 | Package::Rpcs3 | Package::Mgba => ArchiveKind::SevenZip,
            _ => ArchiveKind::Zip,
        }
    }

    /// The name of the staging file the archive is downloaded to: the
    /// directory key followed by the archive's extension.
    pub fn staging_file_name(&self) -> (r: String)
        ensures
            r@ == dir_key_of(*self) + extension_of(archive_kind_of(*self)),
    {
        let base = String::from_str(self.dir_key());
        match self.archive_kind() {
            ArchiveKind::SevenZip => base.concat(".7z"),
            ArchiveKind::Zip => base.concat(".zip"),
        }
    }

    /// The launchable binary's path relative to the install directory, one
    /// component per element; fails with `UnsupportedPlatform` where the
    /// platform is not covered.
    pub fn executable_rel_path(&self, platform: Platform) -> (r: Result<Vec<String>, ManagerError>)
        ensures
            match executable_rel_of(*self, platform) {
                Some(rel) => r is Ok && components(r->Ok_0@) == rel,
                None => r == Err::<Vec<String>, ManagerError>(ManagerError::UnsupportedPlatform),
            },
    {
        if platform != Platform::Windows {
            return Err(ManagerError::UnsupportedPlatform);
        }
        let mut v: Vec<String> = Vec::new();
        match self {
            Package::Dolphin => {
                v.push(String::from_str("Dolphin-x64"));
                v.push(String::from_str("Dolphin.exe"));
            },
            Package::Xenia => {
                v.push(String::from_str("xenia.exe"));
            },
            Package::Pcsx2 => {
                v.push(String::from_str("pcsx2-qt.exe"));
            },
            Package::Rpcs3 => {
                v.push(String::from_str("rpcs3.exe"));
            },
            Package::DuckStation => {
                v.push(String::from_str("duckstation-qt-x64-ReleaseLTCG.exe"));
            },
            Package::Mgba => {
                v.push(String::from_str("mGBA.exe"));
            },
            Package::Xemu => {
                v.push(String::from_str("xemu.exe"));
            },
            Package::Ppsspp => {
                v.push(String::from_str("PPSSPPWindows64.exe"));
            },
            Package::Flycast => {
                v.push(String::from_str("flycast.exe"));
            },
            Package::Zsnes => {
                v.push(String::from_str("zsnesw.exe"));
            },
            Package::Mesen => {
                v.push(String::from_str("Mesen.exe"));
            },
        }
        assert(components(v@) =~= executable_rel_of(*self, platform).unwrap());
        Ok(v)
    }
}

impl Platform {
    /// The platform named by an operating-system id such as `"windows"`.
    pub fn from_os(os: &str) -> (r: Platform)
        ensures
            r == platform_named(os@),
    {
        if same_text(os, "windows") {
            Platform::Windows
        } else if same_text(os, "linux") {
            Platform::Linux
        } else if same_text(os, "macos") {
            Platform::MacOs
        } else {
            Platform::Other
        }
    }
}

pub open spec fn platform_named(os: Seq<char>) -> Platform {
    if os == "windows"@ {
        Platform::Windows
    } else if os == "linux"@ {
        Platform::Linux
    } else if os == "macos"@ {
        Platform::MacOs
    } else {
        Platform::Other
    }
}

/// Every registered package, in registry order.
pub fn all_packages() -> (r: Vec<Package>)
    ensures
        r@ == registry_order(),
{
    let mut v: Vec<Package> = Vec::new();
    v.push(Package::Dolphin);
    v.push(Package::Xenia);
    v.push(Package::Pcsx2);
    v.push(Package::Rpcs3);
    v.push(Package::DuckStation);
    v.push(Package::Mgba);
    v.push(Package::Xemu);
    v.push(Package::Ppsspp);
    v.push(Package::Flycast);
    v.push(Package::Zsnes);
    v.push(Package::Mesen);
    assert(v@ =~= registry_order());
    v
}

} // verus!
