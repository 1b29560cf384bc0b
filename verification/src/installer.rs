//! The installation as a whole: dependencies, then the archive, then the
//! system directory, each begun only when the one before it succeeded.

use vstd::prelude::*;
use crate::archive::{
    acquired, extract_advance, extract_start, get_config_files, path_result, ArchiveExtractor,
    ArchiveExtractorView, ExtractTurnView,
};
use crate::clock::{lemma_stamp_shape_is_met, stamp_shape};
use crate::command::{Request, RequestView, Response, ResponseView};
use crate::dependencies::{
    deps_advance, deps_start, managers, DependencyInstaller, DependencyInstallerView,
    DepsTurnView, PackageManager, PackageManagerView,
};
use crate::error::{InstallError, InstallErrorView};
use crate::sync::{
    sync_advance, sync_start, SyncTurnView, SynchronizerView, SystemDirectorySynchronizer,
};
use crate::text::texts;
use crate::turn::{Turn, TurnView};

verus! {

/// The places an installation works on.
#[derive(Clone, Debug, PartialEq, Eq)]
pub struct Locations {
    /// The local archive that holds the configuration, if one is named.
    pub archive: Option<String>,
    /// The scratch directory into which the archive is extracted. It is
    /// emptied first, so it must serve no other purpose.
    pub scratch_dir: String,
    /// The system directory that receives the configuration.
    pub target_dir: String,
    /// What the name of a backup directory begins with.
    pub backup_prefix: String,
}

/// The places of an installation as the contracts see them.
pub struct LocationsView {
    pub archive: Option<Seq<char>>,
    pub scratch_dir: Seq<char>,
    pub target_dir: Seq<char>,
    pub backup_prefix: Seq<char>,
}

impl View for Locations {
    type V = LocationsView;

    open spec fn view(&self) -> LocationsView {
        LocationsView {
            archive: match self.archive {
                Some(path) => Some(path@),
                None => None,
            },
            scratch_dir: self.scratch_dir@,
            target_dir: self.target_dir@,
            backup_prefix: self.backup_prefix@,
        }
    }
}

/// The component at work.
#[derive(Debug, PartialEq, Eq)]
pub enum Stage {
    Dependencies(DependencyInstaller),
    Acquisition(ArchiveExtractor),
    Synchronization(SystemDirectorySynchronizer),
    /// The installation has ended, well or badly.
    Stopped,
}

/// The component at work, as the contracts see it.
pub enum StageView {
    Dependencies(DependencyInstallerView),
    Acquisition(ArchiveExtractorView),
    Synchronization(SynchronizerView),
    Stopped,
}

impl View for Stage {
    type V = StageView;

    open spec fn view(&self) -> StageView {
        match self {
            Stage::Dependencies(machine) => StageView::Dependencies(machine@),
            Stage::Acquisition(machine) => StageView::Acquisition(machine@),
            Stage::Synchronization(machine) => StageView::Synchronization(machine@),
            Stage::Stopped => StageView::Stopped,
        }
    }
}

/// One installation in progress.
#[derive(Debug, PartialEq, Eq)]
pub struct Installer {
    locations: Locations,
    stage: Stage,
    cause: Option<InstallError>,
}

/// An installation in progress as the contracts see it.
pub struct InstallerView {
    pub locations: LocationsView,
    pub stage: StageView,
    /// Why the acquisition failed, where the extractor ended with an
    /// error: the installation itself reports only that it failed.
    pub cause: Option<InstallErrorView>,
}

impl View for Installer {
    type V = InstallerView;

    closed spec fn view(&self) -> InstallerView {
        InstallerView {
            locations: self.locations@,
            stage: self.stage@,
            cause: match self.cause {
                Some(error) => Some(error@),
                None => None,
            },
        }
    }
}

/// The installer at rest, with the last word to the driver.
pub open spec fn install_stop(locations: LocationsView, request: RequestView) -> (
    InstallerView,
    RequestView,
) {
    (InstallerView { locations, stage: StageView::Stopped, cause: None }, request)
}

/// What follows a move of the synchronizer: its request is passed on;
/// its result ends the installation.
pub open spec fn install_on_sync(locations: LocationsView, turn: SyncTurnView) -> (
    InstallerView,
    RequestView,
) {
    match turn {
        TurnView::Ask(machine, request) => (
            InstallerView { locations, stage: StageView::Synchronization(machine), cause: None },
            request,
        ),
        TurnView::Done(Ok(_)) => install_stop(locations, RequestView::Finished),
        TurnView::Done(Err(error)) => install_stop(locations, RequestView::Failed(error)),
    }
}

/// What follows the settled acquisition: with a configuration directory
/// the synchronizer begins; without one the installation ends.
pub open spec fn install_on_acquired(
    locations: LocationsView,
    config: Result<Seq<char>, InstallErrorView>,
) -> (InstallerView, RequestView) {
    match config {
        Ok(config_dir) => install_on_sync(
            locations,
            sync_start(config_dir, locations.target_dir, locations.backup_prefix),
        ),
        Err(error) => install_stop(locations, RequestView::Failed(error)),
    }
}

/// What follows a move of the extractor: its request is passed on; its
/// result settles the acquisition. Where it is an error, the installer
/// keeps it as the cause of the failure that it reports.
pub open spec fn install_on_extract(locations: LocationsView, turn: ExtractTurnView) -> (
    InstallerView,
    RequestView,
) {
    match turn {
        TurnView::Ask(machine, request) => (
            InstallerView { locations, stage: StageView::Acquisition(machine), cause: None },
            request,
        ),
        TurnView::Done(result) => match (acquired(Some(result)), result) {
            (Err(error), Err(cause)) => (
                InstallerView { locations, stage: StageView::Stopped, cause: Some(cause) },
                RequestView::Failed(error),
            ),
            (config, _) => install_on_acquired(locations, config),
        },
    }
}

/// The beginning of the acquisition: the extractor starts on the local
/// archive, if one is named.
pub open spec fn install_acquire(locations: LocationsView) -> (InstallerView, RequestView) {
    match locations.archive {
        Some(archive) => install_on_extract(
            locations,
            extract_start(archive, locations.scratch_dir),
        ),
        None => install_on_acquired(locations, acquired(None)),
    }
}

/// What follows a move of the dependency installer: its request is
/// passed on; its success begins the acquisition; its failure ends the
/// installation.
pub open spec fn install_on_deps(locations: LocationsView, turn: DepsTurnView) -> (
    InstallerView,
    RequestView,
) {
    match turn {
        TurnView::Ask(machine, request) => (
            InstallerView { locations, stage: StageView::Dependencies(machine), cause: None },
            request,
        ),
        TurnView::Done(Ok(_)) => install_acquire(locations),
        TurnView::Done(Err(error)) => install_stop(locations, RequestView::Failed(error)),
    }
}

/// The first move of an installation.
pub open spec fn install_start(
    managers: Seq<PackageManagerView>,
    dependencies: Seq<Seq<char>>,
    locations: LocationsView,
) -> (InstallerView, RequestView) {
    install_on_deps(locations, deps_start(managers, dependencies))
}

/// The move of an installation on an answer. `stamp` is the time read
/// for the name of a backup directory.
pub open spec fn install_advance(state: InstallerView, response: ResponseView, stamp: Seq<char>) -> (
    InstallerView,
    RequestView,
) {
    match state.stage {
        StageView::Dependencies(machine) => install_on_deps(
            state.locations,
            deps_advance(machine, response),
        ),
        StageView::Acquisition(machine) => install_on_extract(
            state.locations,
            extract_advance(machine, response),
        ),
        StageView::Synchronization(machine) => install_on_sync(
            state.locations,
            sync_advance(machine, response, stamp),
        ),
        StageView::Stopped => (state, RequestView::Failed(InstallErrorView::UnexpectedResponse)),
    }
}

/// The view of a move of the installer.
pub open spec fn move_view(step: (Installer, Request)) -> (InstallerView, RequestView) {
    (step.0@, step.1@)
}

impl Installer {
    fn stop(locations: Locations, request: Request) -> (step: (Installer, Request))
        ensures
            move_view(step) == install_stop(locations@, request@),
    {
        (Installer { locations, stage: Stage::Stopped, cause: None }, request)
    }

    fn on_sync(locations: Locations, turn: Turn<SystemDirectorySynchronizer, ()>) -> (step: (
        Installer,
        Request,
    ))
        ensures
            move_view(step) == install_on_sync(locations@, turn@),
    {
        match turn {
            Turn::Ask(machine, request) => (
                Installer { locations, stage: Stage::Synchronization(machine), cause: None },
                request,
            ),
            Turn::Done(Ok(_)) => Self::stop(locations, Request::Finished),
            Turn::Done(Err(error)) => Self::stop(locations, Request::Failed(error)),
        }
    }

    fn on_acquired(locations: Locations, config: Result<String, InstallError>) -> (step: (
        Installer,
        Request,
    ))
        ensures
            move_view(step) == install_on_acquired(locations@, path_result(config)),
    {
        match config {
            Ok(config_dir) => {
                let turn = SystemDirectorySynchronizer::start(
                    config_dir,
                    locations.target_dir.clone(),
                    locations.backup_prefix.clone(),
                );
                Self::on_sync(locations, turn)
            },
            Err(error) => Self::stop(locations, Request::Failed(error)),
        }
    }

    fn on_extract(locations: Locations, turn: Turn<ArchiveExtractor, String>) -> (step: (
        Installer,
        Request,
    ))
        ensures
            move_view(step) == install_on_extract(locations@, turn@),
    {
        match turn {
            Turn::Ask(machine, request) => (
                Installer { locations, stage: Stage::Acquisition(machine), cause: None },
                request,
            ),
            Turn::Done(result) => {
                let config = get_config_files(Some(&result));
                match (config, result) {
                    (Err(error), Err(cause)) => (
                        Installer { locations, stage: Stage::Stopped, cause: Some(cause) },
                        Request::Failed(error),
                    ),
                    (config, _) => Self::on_acquired(locations, config),
                }
            },
        }
    }

    fn acquire(locations: Locations) -> (step: (Installer, Request))
        ensures
            move_view(step) == install_acquire(locations@),
    {
        match &locations.archive {
            Some(archive) => {
                let turn = ArchiveExtractor::start(archive.clone(), locations.scratch_dir.clone());
                Self::on_extract(locations, turn)
            },
            None => {
                let config = get_config_files(None);
                Self::on_acquired(locations, config)
            },
        }
    }

    fn on_deps(locations: Locations, turn: Turn<DependencyInstaller, ()>) -> (step: (
        Installer,
        Request,
    ))
        ensures
            move_view(step) == install_on_deps(locations@, turn@),
    {
        match turn {
            Turn::Ask(machine, request) => (
                Installer { locations, stage: Stage::Dependencies(machine), cause: None },
                request,
            ),
            Turn::Done(Ok(_)) => Self::acquire(locations),
            Turn::Done(Err(error)) => Self::stop(locations, Request::Failed(error)),
        }
    }

    /// Begins an installation with the first lookup of a dependency.
    pub fn start(
        package_managers: Vec<PackageManager>,
        dependencies: Vec<String>,
        locations: Locations,
    ) -> (step: (Installer, Request))
        ensures
            move_view(step) == install_start(
                managers(package_managers@),
                texts(dependencies@),
                locations@,
            ),
    {
        let turn = DependencyInstaller::start(package_managers, dependencies);
        Self::on_deps(locations, turn)
    }

    /// Takes the answer to the request of the previous move, with the
    /// time to name a backup directory by.
    pub fn advance_at(self, response: Response, stamp: &str) -> (step: (Installer, Request))
        ensures
            move_view(step) == install_advance(self@, response@, stamp@),
    {
        let Installer { locations, stage, cause } = self;
        match stage {
            Stage::Dependencies(machine) => Self::on_deps(locations, machine.advance(response)),
            Stage::Acquisition(machine) => Self::on_extract(locations, machine.advance(response)),
            Stage::Synchronization(machine) => Self::on_sync(
                locations,
                machine.advance_at(response, stamp),
            ),
            Stage::Stopped => (
                Installer { locations, stage: Stage::Stopped, cause },
                Request::Failed(InstallError::UnexpectedResponse),
            ),
        }
    }

    /// Takes the answer to the request of the previous move. Where the
    /// answer says that the target exists, the backup directory is named
    /// after the local time of this call.
    pub fn advance(self, response: Response) -> (step: (Installer, Request))
        ensures
            exists|stamp: Seq<char>|
                stamp_shape(stamp) && move_view(step) == #[trigger] install_advance(
                    self@,
                    response@,
                    stamp,
                ),
    {
        let Installer { locations, stage, cause } = self;
        match stage {
            Stage::Synchronization(machine) => {
                let turn = machine.advance(response);
                let ghost stamp = choose|stamp: Seq<char>|
                    stamp_shape(stamp) && turn@ == #[trigger] sync_advance(
                        machine@,
                        response@,
                        stamp,
                    );
                let step = Self::on_sync(locations, turn);
                assert(stamp_shape(stamp) && move_view(step) == install_advance(
                    self@,
                    response@,
                    stamp,
                ));
                step
            },
            other => {
                let rest = Installer { locations, stage: other, cause };
                let step = rest.advance_at(response, "");
                proof {
                    let any = "19700101_000000"@;
                    lemma_stamp_shape_is_met();
                    assert(stamp_shape(any) && move_view(step) == install_advance(
                        self@,
                        response@,
                        any,
                    ));
                }
                step
            },
        }
    }

    /// Why the acquisition failed, where the installation stopped on
    /// the extractor's error; `None` in every other state.
    pub fn failure_cause(&self) -> (res: Option<&InstallError>)
        ensures
            match res {
                Some(error) => self@.cause == Some(error@),
                None => self@.cause is None,
            },
    {
        match &self.cause {
            Some(error) => Some(error),
            None => None,
        }
    }
}

} // verus!
