//! What holds of whole runs of the installer: it follows the component
//! at work, and hands over from one to the next.

use vstd::prelude::*;
use crate::archive::{config_directory, extract_advance, extract_start, ExtractTurnView};
use crate::archive_laws::{
    extract_run, law_smooth_extraction, smooth_extraction, smooth_extraction_requests,
};
use crate::command::{DirEntryView, RequestView, ResponseView};
use crate::dependencies::{
    deps_advance, deps_start, lookup_found, DepsTurnView, PackageManagerView,
};
use crate::error::InstallErrorView;
use crate::dependency_laws::{
    all_lookups, deps_run, law_all_found_installs_nothing, lookup_requests,
};
use crate::installer::{
    install_acquire, install_advance, install_on_deps, install_on_extract, install_on_sync,
    install_start, install_stop, InstallerView, LocationsView,
};
use crate::sync::{sync_advance, sync_start, SyncTurnView};
use crate::sync_laws::{
    law_sync_creates_absent_target, replacement_requests, replacement_succeeds, sync_run,
};

verus! {

/// A run: the answers are handed in one by one until the installer has
/// stopped. The result holds the requests that were answered and where
/// the installer then stands. `stamp` is the time read where the target
/// is found to exist.
pub open spec fn install_run(
    step: (InstallerView, RequestView),
    answers: Seq<ResponseView>,
    stamp: Seq<char>,
) -> (Seq<RequestView>, (InstallerView, RequestView))
    decreases answers.len(),
{
    if step.0.stage is Stopped || answers.len() == 0 {
        (Seq::empty(), step)
    } else {
        let rest = install_run(
            install_advance(step.0, answers[0], stamp),
            answers.drop_first(),
            stamp,
        );
        (seq![step.1] + rest.0, rest.1)
    }
}

/// A run over two batches of answers is the run over the first followed
/// by the run over the second from where the first one ended.
pub proof fn lemma_install_run_concat(
    step: (InstallerView, RequestView),
    first: Seq<ResponseView>,
    second: Seq<ResponseView>,
    stamp: Seq<char>,
)
    ensures
        install_run(step, first + second, stamp) == ({
            let head = install_run(step, first, stamp);
            let tail = install_run(head.1, second, stamp);
            (head.0 + tail.0, tail.1)
        }),
    decreases first.len(),
{
    let head = install_run(step, first, stamp);
    let tail = install_run(head.1, second, stamp);
    if step.0.stage is Stopped {
        assert(head.0 + tail.0 =~= Seq::<RequestView>::empty());
    } else if first.len() == 0 {
        assert(first + second =~= second);
        assert(head.0 + tail.0 =~= tail.0);
    } else {
        let next = install_advance(step.0, first[0], stamp);
        lemma_install_run_concat(next, first.drop_first(), second, stamp);
        assert((first + second).drop_first() =~= first.drop_first() + second);
        assert((first + second)[0] == first[0]);
        let inner = install_run(next, first.drop_first(), stamp);
        assert(head.0 == seq![step.1] + inner.0);
        assert((seq![step.1] + inner.0) + tail.0 =~= seq![step.1] + (inner.0 + tail.0));
    }
}

/// While the dependency installer is at work, the installer asks what
/// it asks; when it finishes, the installer goes on from its result.
pub proof fn law_installer_follows_dependencies(
    locations: LocationsView,
    turn: DepsTurnView,
    answers: Seq<ResponseView>,
    stamp: Seq<char>,
)
    requires
        turn is Ask,
        deps_run(turn, answers).0.len() == answers.len(),
    ensures
        install_run(install_on_deps(locations, turn), answers, stamp) == (
            deps_run(turn, answers).0,
            install_on_deps(locations, deps_run(turn, answers).1),
        ),
    decreases answers.len(),
{
    if answers.len() > 0 {
        let machine = turn->Ask_0;
        let next = deps_advance(machine, answers[0]);
        let rest = answers.drop_first();
        assert(deps_run(turn, answers).0 == seq![turn->Ask_1] + deps_run(next, rest).0);
        if next is Ask {
            law_installer_follows_dependencies(locations, next, rest, stamp);
        } else {
            assert(rest.len() == 0);
        }
    }
}

/// While the extractor is at work, the installer asks what it asks; when
/// it finishes, the installer goes on from its result.
pub proof fn law_installer_follows_extractor(
    locations: LocationsView,
    turn: ExtractTurnView,
    answers: Seq<ResponseView>,
    stamp: Seq<char>,
)
    requires
        turn is Ask,
        extract_run(turn, answers).0.len() == answers.len(),
    ensures
        install_run(install_on_extract(locations, turn), answers, stamp) == (
            extract_run(turn, answers).0,
            install_on_extract(locations, extract_run(turn, answers).1),
        ),
    decreases answers.len(),
{
    if answers.len() > 0 {
        let machine = turn->Ask_0;
        let next = extract_advance(machine, answers[0]);
        let rest = answers.drop_first();
        assert(extract_run(turn, answers).0 == seq![turn->Ask_1] + extract_run(next, rest).0);
        if next is Ask {
            law_installer_follows_extractor(locations, next, rest, stamp);
        } else {
            assert(rest.len() == 0);
        }
    }
}

/// While the synchronizer is at work, the installer asks what it asks;
/// when it finishes, the installer stops with its result.
pub proof fn law_installer_follows_synchronizer(
    locations: LocationsView,
    turn: SyncTurnView,
    answers: Seq<ResponseView>,
    stamp: Seq<char>,
)
    requires
        turn is Ask,
        sync_run(turn, answers, stamp).0.len() == answers.len(),
    ensures
        install_run(install_on_sync(locations, turn), answers, stamp) == (
            sync_run(turn, answers, stamp).0,
            install_on_sync(locations, sync_run(turn, answers, stamp).1),
        ),
    decreases answers.len(),
{
    if answers.len() > 0 {
        let machine = turn->Ask_0;
        let next = sync_advance(machine, answers[0], stamp);
        let rest = answers.drop_first();
        assert(sync_run(turn, answers, stamp).0 == seq![turn->Ask_1] + sync_run(
            next,
            rest,
            stamp,
        ).0);
        if next is Ask {
            law_installer_follows_synchronizer(locations, next, rest, stamp);
        } else {
            assert(rest.len() == 0);
        }
    }
}

/// An installation in which every dependency is found, the extraction
/// goes well and leaves the configuration root `config_dir`, and the
/// target does not exist: the dependencies are looked up, the archive is
/// extracted, the target is created and written, in this order and with
/// nothing in between, and the installation is reported as complete.
pub proof fn law_smooth_installation(
    managers: Seq<PackageManagerView>,
    dependencies: Seq<Seq<char>>,
    locations: LocationsView,
    lookups: Seq<ResponseView>,
    existed: bool,
    old: Seq<DirEntryView>,
    stdout: Seq<char>,
    stderr: Seq<char>,
    found: Seq<DirEntryView>,
    config_dir: Seq<char>,
    writes: Seq<ResponseView>,
    stamp: Seq<char>,
)
    requires
        lookups.len() == dependencies.len(),
        all_lookups(lookups),
        forall|i: int| 0 <= i < lookups.len() ==> lookup_found(#[trigger] lookups[i]) == Some(true),
        locations.archive is Some,
        config_directory(locations.scratch_dir, found) == Ok::<Seq<char>, InstallErrorView>(config_dir),
        replacement_succeeds(writes),
    ensures
        install_run(
            install_start(managers, dependencies, locations),
            lookups + smooth_extraction(existed, old, stdout, stderr, found) + (seq![
                ResponseView::Exists(true),
                ResponseView::Exists(false),
            ] + writes),
            stamp,
        ) == (
            lookup_requests(dependencies, 0, dependencies.len()) + smooth_extraction_requests(
                locations.archive->0,
                locations.scratch_dir,
                existed,
                old,
            ) + (seq![
                RequestView::PathExists(config_dir),
                RequestView::PathExists(locations.target_dir),
            ] + replacement_requests(config_dir, locations.target_dir)),
            install_stop(locations, RequestView::Finished),
        ),
{
    let archive = locations.archive->0;
    let scratch = locations.scratch_dir;
    let extraction = smooth_extraction(existed, old, stdout, stderr, found);
    let syncing = seq![ResponseView::Exists(true), ResponseView::Exists(false)] + writes;
    let start = install_start(managers, dependencies, locations);

    // The dependencies.
    law_all_found_installs_nothing(managers, dependencies, lookups);
    let looked = lookup_requests(dependencies, 0, dependencies.len());
    let acquiring = install_acquire(locations);
    assert(install_run(start, lookups, stamp) == (looked, acquiring)) by {
        let turn = deps_start(managers, dependencies);
        if turn is Ask {
            law_installer_follows_dependencies(locations, turn, lookups, stamp);
        } else {
            assert(dependencies.len() == 0);
            assert(looked =~= Seq::<RequestView>::empty());
        }
    }

    // The archive.
    law_smooth_extraction(archive, scratch, existed, old, stdout, stderr, found);
    let extracted = smooth_extraction_requests(archive, scratch, existed, old);
    let synchronizing = install_on_sync(
        locations,
        sync_start(config_dir, locations.target_dir, locations.backup_prefix),
    );
    assert(install_run(acquiring, extraction, stamp) == (extracted, synchronizing)) by {
        assert(extracted.len() == extraction.len());
        law_installer_follows_extractor(
            locations,
            extract_start(archive, scratch),
            extraction,
            stamp,
        );
    }

    // The system directory.
    law_sync_creates_absent_target(
        config_dir,
        locations.target_dir,
        locations.backup_prefix,
        stamp,
        writes,
    );
    let written = seq![
        RequestView::PathExists(config_dir),
        RequestView::PathExists(locations.target_dir),
    ] + replacement_requests(config_dir, locations.target_dir);
    assert(install_run(synchronizing, syncing, stamp) == (
        written,
        install_stop(locations, RequestView::Finished),
    )) by {
        assert(written.len() == syncing.len());
        law_installer_follows_synchronizer(
            locations,
            sync_start(config_dir, locations.target_dir, locations.backup_prefix),
            syncing,
            stamp,
        );
    }

    lemma_install_run_concat(start, lookups, extraction, stamp);
    lemma_install_run_concat(start, lookups + extraction, syncing, stamp);
}

} // verus!
