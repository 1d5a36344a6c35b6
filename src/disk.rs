use vstd::prelude::*;
use crate::acquire::{next_phase, Event, Phase};
use crate::error::ManagerError;

verus! {

/// What a package's install directory holds, as far as installation cares.
#[derive(Clone, Copy, Debug, PartialEq, Eq, Structural)]
pub enum DirState {
    /// The directory does not exist: the package is not installed.
    Absent,
    /// The directory exists and is empty.
    Empty,
    /// The directory holds exactly one archive's complete extraction.
    Complete,
    /// The directory exists with contents nothing vouches for: a partial
    /// extraction, an extraction over stale files, or a blocked removal.
    Unknown,
}

/// The on-disk state one acquisition touches: the package's install directory
/// and whether the staging file holds the downloaded archive.
#[derive(Clone, Copy, Debug, PartialEq, Eq, Structural)]
pub struct World {
    pub install: DirState,
    pub staged: bool,
}

/// A package is installed exactly when its install directory exists.
pub open spec fn installed(w: World) -> bool {
    w.install != DirState::Absent
}

/// What the action pending in phase `ph` does to `w` when it ends with `ev`.
pub open spec fn effect(w: World, ph: Phase, ev: Event) -> World {
    let ok = ev == Event::Completed;
    match ph {
        Phase::Downloading => w,
        Phase::Staging => World { staged: ok, ..w },
        Phase::Clearing => World {
            install: if ok {
                DirState::Empty
            } else {
                DirState::Unknown
            },
            ..w
        },
        Phase::Extracting => World {
            install: if ok && w.install == DirState::Empty {
                DirState::Complete
            } else {
                DirState::Unknown
            },
            ..w
        },
        Phase::RollingBack => World {
            install: if ok {
                DirState::Absent
            } else {
                DirState::Unknown
            },
            ..w
        },
        Phase::CleaningUp => if ok {
            World { staged: false, ..w }
        } else {
            w
        },
        Phase::Done(_) => w,
    }
}

/// What holds of the disk in each phase of an acquisition that began with the
/// install directory in state `orig`.
pub open spec fn consistent(ph: Phase, w: World, orig: DirState) -> bool {
    match ph {
        Phase::Downloading | Phase::Staging => w.install == orig,
        Phase::Clearing => w.install == orig && w.staged,
        Phase::Extracting => w.install == DirState::Empty && w.staged,
        Phase::RollingBack => w.staged,
        Phase::CleaningUp => w.install == DirState::Complete,
        Phase::Done(Ok(_)) => w.install == DirState::Complete && !w.staged,
        Phase::Done(Err(ManagerError::ArchiveCorrupt)) => w.install == DirState::Absent && w.staged,
        Phase::Done(Err(ManagerError::CleanupFailed)) => true,
        Phase::Done(Err(ManagerError::StorageFailed)) => w.install == orig || w.install
            == DirState::Complete,
        Phase::Done(Err(_)) => w.install == orig,
    }
}

/// Every step keeps the disk consistent with the acquisition's phase, whatever
/// the outcome of the action.
pub proof fn lemma_step_consistent(ph: Phase, w: World, orig: DirState, ev: Event)
    requires
        consistent(ph, w, orig),
    ensures
        consistent(next_phase(ph, ev), effect(w, ph, ev), orig),
{
}

/// A failed extraction rolls back: the next step removes the install directory,
/// and when that removal succeeds the acquisition ends with `ArchiveCorrupt`,
/// the package not installed and the staging archive kept. A blocked removal
/// ends with `CleanupFailed` instead.
pub proof fn lemma_extraction_failure_rolls_back(w: World, orig: DirState, ev: Event, ev2: Event)
    requires
        consistent(Phase::Extracting, w, orig),
        ev != Event::Completed,
    ensures
        next_phase(Phase::Extracting, ev) == Phase::RollingBack,
        ev2 == Event::Completed ==> {
            let w2 = effect(effect(w, Phase::Extracting, ev), Phase::RollingBack, ev2);
            &&& next_phase(Phase::RollingBack, ev2) == Phase::Done(
                Err(ManagerError::ArchiveCorrupt),
            )
            &&& w2.install == DirState::Absent
            &&& !installed(w2)
            &&& w2.staged
        },
        ev2 != Event::Completed ==> next_phase(Phase::RollingBack, ev2) == Phase::Done(
            Err(ManagerError::CleanupFailed),
        ),
{
}

/// The phase reached and the disk left by feeding `evs`, one by one, to an
/// acquisition in phase `ph` on disk `w`.
pub open spec fn run(ph: Phase, w: World, evs: Seq<Event>) -> (Phase, World)
    decreases evs.len(),
{
    if evs.len() == 0 {
        (ph, w)
    } else {
        run(next_phase(ph, evs[0]), effect(w, ph, evs[0]), evs.drop_first())
    }
}

/// Any sequence of outcomes keeps the disk consistent with the phase.
pub proof fn lemma_run_consistent(ph: Phase, w: World, orig: DirState, evs: Seq<Event>)
    requires
        consistent(ph, w, orig),
    ensures
        consistent(run(ph, w, evs).0, run(ph, w, evs).1, orig),
    decreases evs.len(),
{
    if evs.len() > 0 {
        lemma_step_consistent(ph, w, orig, evs[0]);
        lemma_run_consistent(next_phase(ph, evs[0]), effect(w, ph, evs[0]), orig, evs.drop_first());
    }
}

/// An acquisition that succeeds leaves the package installed with exactly the
/// new archive's contents and no staging file, whatever the install directory
/// held before: reinstalling over an earlier install leaves nothing of it.
pub proof fn lemma_acquire_success_replaces(w: World, evs: Seq<Event>)
    ensures
        run(Phase::Downloading, w, evs).0 == Phase::Done(Ok(())) ==> {
            let after = run(Phase::Downloading, w, evs).1;
            &&& installed(after)
            &&& after.install == DirState::Complete
            &&& !after.staged
        },
{
    lemma_run_consistent(Phase::Downloading, w, w.install, evs);
}

/// An acquisition that ends with `ArchiveCorrupt` leaves no install directory,
/// and keeps the staged archive for inspection.
pub proof fn lemma_acquire_rollback(w: World, evs: Seq<Event>)
    ensures
        run(Phase::Downloading, w, evs).0 == Phase::Done(Err(ManagerError::ArchiveCorrupt)) ==> {
            let after = run(Phase::Downloading, w, evs).1;
            &&& !installed(after)
            &&& after.install == DirState::Absent
            &&& after.staged
        },
{
    lemma_run_consistent(Phase::Downloading, w, w.install, evs);
}

/// An acquisition that fails at the download (a failed request, an error
/// status, a body under the minimum size) leaves the install directory as it
/// found it.
pub proof fn lemma_acquire_download_failure_untouched(w: World, evs: Seq<Event>)
    ensures
        ({
            let end = run(Phase::Downloading, w, evs).0;
            end == Phase::Done(Err(ManagerError::TransportFailed)) || (end is Done && end->Done_0
                is Err && (end->Done_0->Err_0 is DownloadFailed
                || end->Done_0->Err_0 is SuspiciouslySmallDownload))
        }) ==> run(Phase::Downloading, w, evs).1.install == w.install,
{
    lemma_run_consistent(Phase::Downloading, w, w.install, evs);
}

/// What removing the install directory during an uninstall does to `w`.
pub open spec fn after_removal(w: World, removed: bool) -> World {
    World {
        install: if removed {
            DirState::Absent
        } else {
            w.install
        },
        ..w
    }
}

/// After a successful uninstall the package is not installed.
pub proof fn lemma_uninstall_removes(w: World)
    ensures
        !installed(after_removal(w, true)),
{
}

} // verus!
