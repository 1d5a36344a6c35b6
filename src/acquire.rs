use vstd::prelude::*;
use crate::error::ManagerError;
use crate::fetch::{archive_verdict, check_archive_download};
use crate::layout::{copy_path, package_path, package_path_of, staging_path, staging_path_of};
use crate::registry::{
    archive_kind_of, components, lookup, package_named, source_url_of, ArchiveKind, Package,
};

verus! {

/// Where an acquisition stands: each phase but `Done` has one action pending,
/// whose outcome the caller reports with the next event.
pub enum Phase {
    /// Downloading the archive into memory.
    Downloading,
    /// Writing the archive to its staging file.
    Staging,
    /// Removing any prior install directory and creating it empty.
    Clearing,
    /// Extracting the staged archive into the empty install directory.
    Extracting,
    /// Removing the install directory after a failed extraction.
    RollingBack,
    /// Removing the staging file after a successful extraction.
    CleaningUp,
    /// Finished, with the acquisition's result.
    Done(Result<(), ManagerError>),
}

/// The outcome of the action last requested.
#[derive(Clone, Copy, Debug, PartialEq, Eq, Structural)]
pub enum Event {
    /// The server's answer to a download: its status and the body's length.
    Response { status: u16, size: u64 },
    /// The action succeeded.
    Completed,
    /// The action failed.
    Failed,
}

/// The work the caller is to do next. Paths hold one component per element.
pub enum Action {
    /// Create `staging_dir` if needed, then GET `url` and read the whole body.
    Download { url: String, staging_dir: Vec<String> },
    /// Write the downloaded body to `path`.
    WriteStaging { path: Vec<String> },
    /// Remove `path` recursively if it exists, then create it empty.
    ClearInstallDir { path: Vec<String> },
    /// Extract the archive at `archive`, of format `kind`, into `dest`.
    Extract { archive: Vec<String>, kind: ArchiveKind, dest: Vec<String> },
    /// Remove `path` recursively.
    RemoveInstallDir { path: Vec<String> },
    /// Remove the file at `path`.
    RemoveStaging { path: Vec<String> },
    /// Nothing is left to do; the result is in the phase.
    Finish,
}

/// One acquisition of one package: download, stage, clear, extract, clean up,
/// with the install directory removed again if extraction fails.
pub struct Acquisition {
    pub package: Package,
    pub staging: Vec<String>,
    pub install: Vec<String>,
    pub phase: Phase,
}

/// The phase that follows `ph` when its action ends with `ev`.
pub open spec fn next_phase(ph: Phase, ev: Event) -> Phase {
    match ph {
        Phase::Downloading => match ev {
            Event::Response { status, size } => match archive_verdict(status, size) {
                Ok(_) => Phase::Staging,
                Err(e) => Phase::Done(Err(e)),
            },
            _ => Phase::Done(Err(ManagerError::TransportFailed)),
        },
        Phase::Staging => if ev == Event::Completed {
            Phase::Clearing
        } else {
            Phase::Done(Err(ManagerError::StorageFailed))
        },
        Phase::Clearing => if ev == Event::Completed {
            Phase::Extracting
        } else {
            Phase::Done(Err(ManagerError::CleanupFailed))
        },
        Phase::Extracting => if ev == Event::Completed {
            Phase::CleaningUp
        } else {
            Phase::RollingBack
        },
        Phase::RollingBack => if ev == Event::Completed {
            Phase::Done(Err(ManagerError::ArchiveCorrupt))
        } else {
            Phase::Done(Err(ManagerError::CleanupFailed))
        },
        Phase::CleaningUp => if ev == Event::Completed {
            Phase::Done(Ok(()))
        } else {
            Phase::Done(Err(ManagerError::StorageFailed))
        },
        Phase::Done(r) => Phase::Done(r),
    }
}

/// Whether `a` is the action pending in phase `ph` of an acquisition of `p`
/// whose staging file is `staging` and whose install directory is `install`.
pub open spec fn is_action_for(
    a: Action,
    ph: Phase,
    p: Package,
    staging: Seq<Seq<char>>,
    install: Seq<Seq<char>>,
) -> bool {
    match ph {
        Phase::Downloading => match a {
            Action::Download { url, staging_dir } => url@ == source_url_of(p) && components(
                staging_dir@,
            ) == staging.drop_last(),
            _ => false,
        },
        Phase::Staging => match a {
            Action::WriteStaging { path } => components(path@) == staging,
            _ => false,
        },
        Phase::Clearing => match a {
            Action::ClearInstallDir { path } => components(path@) == install,
            _ => false,
        },
        Phase::Extracting => match a {
            Action::Extract { archive, kind, dest } => components(archive@) == staging && kind
                == archive_kind_of(p) && components(dest@) == install,
            _ => false,
        },
        Phase::RollingBack => match a {
            Action::RemoveInstallDir { path } => components(path@) == install,
            _ => false,
        },
        Phase::CleaningUp => match a {
            Action::RemoveStaging { path } => components(path@) == staging,
            _ => false,
        },
        Phase::Done(_) => a is Finish,
    }
}

impl Acquisition {
    pub open spec fn staging_view(&self) -> Seq<Seq<char>> {
        components(self.staging@)
    }

    pub open spec fn install_view(&self) -> Seq<Seq<char>> {
        components(self.install@)
    }

    /// Begins acquiring the package named `name`, installed under `root`,
    /// staged under `temp`. An unknown name fails at once, before any action.
    pub fn start(name: &str, root: &Vec<String>, temp: &Vec<String>) -> (r: Result<
        (Acquisition, Action),
        ManagerError,
    >)
        ensures
            match package_named(name@) {
                None => r == Err::<(Acquisition, Action), ManagerError>(
                    ManagerError::UnknownPackage,
                ),
                Some(p) => r is Ok && {
                    let (acq, a) = r->Ok_0;
                    &&& acq.package == p
                    &&& acq.phase == Phase::Downloading
                    &&& acq.staging_view() == staging_path_of(components(temp@), p)
                    &&& acq.install_view() == package_path_of(components(root@), p)
                    &&& is_action_for(a, acq.phase, p, acq.staging_view(), acq.install_view())
                },
            },
    {
        let p = lookup(name)?;
        let staging = staging_path(temp, p);
        let install = package_path(root, p);
        let mut staging_dir = copy_path(&staging);
        staging_dir.pop();
        assert(components(staging_dir@) =~= components(staging@).drop_last());
        let url = String::from_str(p.source_url());
        let acq = Acquisition { package: p, staging, install, phase: Phase::Downloading };
        Ok((acq, Action::Download { url, staging_dir }))
    }

    /// Takes the outcome of the pending action and returns the next one.
    pub fn step(&mut self, ev: Event) -> (a: Action)
        ensures
            final(self).phase == next_phase(old(self).phase, ev),
            final(self).package == old(self).package,
            final(self).staging_view() == old(self).staging_view(),
            final(self).install_view() == old(self).install_view(),
            is_action_for(
                a,
                final(self).phase,
                final(self).package,
                final(self).staging_view(),
                final(self).install_view(),
            ),
    {
        let completed = ev == Event::Completed;
        let next = match self.phase {
            Phase::Downloading => match ev {
                Event::Response { status, size } => match check_archive_download(status, size) {
                    Ok(()) => Phase::Staging,
                    Err(e) => Phase::Done(Err(e)),
                },
                _ => Phase::Done(Err(ManagerError::TransportFailed)),
            },
            Phase::Staging => if completed {
                Phase::Clearing
            } else {
                Phase::Done(Err(ManagerError::StorageFailed))
            },
            Phase::Clearing => if completed {
                Phase::Extracting
            } else {
                Phase::Done(Err(ManagerError::CleanupFailed))
            },
            Phase::Extracting => if completed {
                Phase::CleaningUp
            } else {
                Phase::RollingBack
            },
            Phase::RollingBack => if completed {
                Phase::Done(Err(ManagerError::ArchiveCorrupt))
            } else {
                Phase::Done(Err(ManagerError::CleanupFailed))
            },
            Phase::CleaningUp => if completed {
                Phase::Done(Ok(()))
            } else {
                Phase::Done(Err(ManagerError::StorageFailed))
            },
            Phase::Done(_) => return Action::Finish,
        };
        self.phase = next;
        match self.phase {
            Phase::Downloading => {
                let mut staging_dir = copy_path(&self.staging);
                staging_dir.pop();
                assert(components(staging_dir@) =~= components(self.staging@).drop_last());
                Action::Download { url: String::from_str(self.package.source_url()), staging_dir }
            },
            Phase::Staging => Action::WriteStaging { path: copy_path(&self.staging) },
            Phase::Clearing => Action::ClearInstallDir { path: copy_path(&self.install) },
            Phase::Extracting => Action::Extract {
                archive: copy_path(&self.staging),
                kind: self.package.archive_kind(),
                dest: copy_path(&self.install),
            },
            Phase::RollingBack => Action::RemoveInstallDir { path: copy_path(&self.install) },
            Phase::CleaningUp => Action::RemoveStaging { path: copy_path(&self.staging) },
            Phase::Done(_) => Action::Finish,
        }
    }

    /// The result of a finished acquisition.
    pub fn into_result(self) -> (r: Result<(), ManagerError>)
        requires
            self.phase is Done,
        ensures
            self.phase == Phase::Done(r),
    {
        match self.phase {
            Phase::Done(r) => r,
            _ => Err(ManagerError::StorageFailed),
        }
    }
}

} // verus!
