use vstd::prelude::*;

verus! {

/// Every way an operation of the package manager can fail.
///
/// Each failure is terminal for the operation that raised it: nothing here retries.
pub enum ManagerError {
    /// The package id is not a key of the registry.
    UnknownPackage,
    /// The package has no executable for the host platform.
    UnsupportedPlatform,
    /// The server answered with a status outside the success range.
    DownloadFailed(u16),
    /// The request could not be made or its body could not be read.
    TransportFailed,
    /// An archive download smaller than the minimum size.
    SuspiciouslySmallDownload(u64),
    /// A streamed download whose length differs from the declared one:
    /// `(expected, actual)`.
    TruncatedDownload(u64, u64),
    /// The archive could not be extracted.
    ArchiveCorrupt,
    /// An install directory could not be removed or recreated.
    CleanupFailed,
    /// A staging file or directory could not be written or removed.
    StorageFailed,
    /// The resolved executable does not exist; carries the path searched and the
    /// top-level entries of the package's install directory.
    ExecutableNotFound { searched: Vec<String>, listing: Vec<String> },
    /// The operating system refused to start the process.
    SpawnFailed(String),
    /// The package is not installed.
    NotInstalled,
}

/// The human-readable description of an error.
pub open spec fn message_of(e: ManagerError) -> Seq<char> {
    match e {
        ManagerError::UnknownPackage => "unknown package"@,
        ManagerError::UnsupportedPlatform => "unsupported platform"@,
        ManagerError::DownloadFailed(_) => "download failed with an error status"@,
        ManagerError::TransportFailed => "download failed"@,
        ManagerError::SuspiciouslySmallDownload(_) => "download seems too small"@,
        ManagerError::TruncatedDownload(_, _) => "download incomplete"@,
        ManagerError::ArchiveCorrupt => "archive extraction failed"@,
        ManagerError::CleanupFailed => "could not clear the install directory"@,
        ManagerError::StorageFailed => "could not write or remove a staging file"@,
        ManagerError::ExecutableNotFound { .. } => "executable not found"@,
        ManagerError::SpawnFailed(_) => "failed to launch"@,
        ManagerError::NotInstalled => "package is not installed"@,
    }
}

impl ManagerError {
    /// A short human-readable description of the error.
    pub fn message(&self) -> (r: String)
        ensures
            r@ == message_of(*self),
    {
        let m = match self {
            ManagerError::UnknownPackage => "unknown package",
            ManagerError::UnsupportedPlatform => "unsupported platform",
            ManagerError::DownloadFailed(_) => "download failed with an error status",
            ManagerError::TransportFailed => "download failed",
            ManagerError::SuspiciouslySmallDownload(_) => "download seems too small",
            ManagerError::TruncatedDownload(_, _) => "download incomplete",
            ManagerError::ArchiveCorrupt => "archive extraction failed",
            ManagerError::CleanupFailed => "could not clear the install directory",
            ManagerError::StorageFailed => "could not write or remove a staging file",
            ManagerError::ExecutableNotFound { .. } => "executable not found",
            ManagerError::SpawnFailed(_) => "failed to launch",
            ManagerError::NotInstalled => "package is not installed",
        };
        String::from_str(m)
    }
}

} // verus!
