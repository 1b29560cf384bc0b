//! What holds of whole runs of the dependency installer.

use vstd::prelude::*;
use crate::command::{RequestView, ResponseView};
use crate::dependencies::{
    binary_path_text, deps_advance, deps_after_lookups, deps_probe, deps_start,
    install_command_text, install_invocation_view, lookup_found, lookup_invocation_view,
    missing_of,
    DependencyInstallerView, DepsPhaseView, DepsTurnView, PackageManagerView,
};
use crate::error::InstallErrorView;
use crate::turn::TurnView;

verus! {

/// A run: the answers are handed in one by one for as long as the
/// component asks. The result holds the requests that were answered and
/// where the component then stands.
pub open spec fn deps_run(turn: DepsTurnView, answers: Seq<ResponseView>) -> (
    Seq<RequestView>,
    DepsTurnView,
)
    decreases answers.len(),
{
    match turn {
        TurnView::Ask(machine, request) => if answers.len() > 0 {
            let rest = deps_run(deps_advance(machine, answers[0]), answers.drop_first());
            (seq![request] + rest.0, rest.1)
        } else {
            (Seq::empty(), turn)
        },
        TurnView::Done(_) => (Seq::empty(), turn),
    }
}

/// The installer having finished with `result`.
pub open spec fn deps_done(result: Result<(), InstallErrorView>) -> DepsTurnView {
    TurnView::Done(result)
}

/// Every answer is one to a lookup.
pub open spec fn all_lookups(answers: Seq<ResponseView>) -> bool {
    forall|i: int| 0 <= i < answers.len() ==> lookup_found(#[trigger] answers[i]) is Some
}

/// Whether each lookup found its executable.
pub open spec fn lookup_flags(answers: Seq<ResponseView>) -> Seq<bool> {
    Seq::new(answers.len(), |i: int| lookup_found(answers[i])->0)
}

/// The answers that say, of one path after another, whether it exists.
pub open spec fn probe_answers(present: Seq<bool>) -> Seq<ResponseView> {
    Seq::new(present.len(), |i: int| ResponseView::Exists(present[i]))
}

/// The lookups of `count` dependencies, beginning with that at `from`.
pub open spec fn lookup_requests(dependencies: Seq<Seq<char>>, from: int, count: nat) -> Seq<
    RequestView,
> {
    Seq::new(count, |i: int| RequestView::Run(lookup_invocation_view(dependencies[from + i])))
}

/// The probes for the executables of `count` managers, beginning with
/// that at `from`.
pub open spec fn probe_requests(managers: Seq<PackageManagerView>, from: int, count: nat) -> Seq<
    RequestView,
> {
    Seq::new(count, |i: int| RequestView::PathExists(binary_path_text(managers[from + i])))
}

/// A run over two batches of answers is the run over the first followed
/// by the run over the second from where the first one ended.
pub proof fn lemma_deps_run_concat(turn: DepsTurnView, first: Seq<ResponseView>, second: Seq<ResponseView>)
    ensures
        deps_run(turn, first + second) == ({
            let head = deps_run(turn, first);
            let tail = deps_run(head.1, second);
            (head.0 + tail.0, tail.1)
        }),
    decreases first.len(),
{
    let head = deps_run(turn, first);
    let tail = deps_run(head.1, second);
    match turn {
        TurnView::Ask(machine, request) => {
            if first.len() > 0 {
                let next = deps_advance(machine, first[0]);
                lemma_deps_run_concat(next, first.drop_first(), second);
                assert((first + second).drop_first() =~= first.drop_first() + second);
                assert((first + second)[0] == first[0]);
                let inner = deps_run(next, first.drop_first());
                assert(head.0 == seq![request] + inner.0);
                assert((seq![request] + inner.0) + tail.0 =~= seq![request] + (inner.0 + tail.0));
            } else {
                assert(first + second =~= second);
                assert(head.0 + tail.0 =~= tail.0);
            }
        },
        TurnView::Done(_) => {
            assert(head.0 + tail.0 =~= Seq::<RequestView>::empty());
        },
    }
}

/// With every flag set, nothing is missing.
pub proof fn lemma_all_found_none_missing(dependencies: Seq<Seq<char>>, found: Seq<bool>)
    requires
        found.len() >= dependencies.len(),
        forall|i: int| 0 <= i < dependencies.len() ==> found[i],
    ensures
        missing_of(dependencies, found).len() == 0,
    decreases dependencies.len(),
{
    if dependencies.len() > 0 {
        lemma_all_found_none_missing(dependencies.drop_last(), found);
    }
}

/// The lookups that remain once `found` is known: each is asked in turn,
/// and then the installer stands where all the answers together put it.
proof fn lemma_lookups_run(
    managers: Seq<PackageManagerView>,
    dependencies: Seq<Seq<char>>,
    found: Seq<bool>,
    lookups: Seq<ResponseView>,
)
    requires
        found.len() + lookups.len() == dependencies.len(),
        all_lookups(lookups),
    ensures
        deps_run(deps_after_lookups(managers, dependencies, found), lookups) == (
            lookup_requests(dependencies, found.len() as int, lookups.len()),
            deps_after_lookups(managers, dependencies, found + lookup_flags(lookups)),
        ),
    decreases lookups.len(),
{
    let turn = deps_after_lookups(managers, dependencies, found);
    if lookups.len() == 0 {
        assert(found + lookup_flags(lookups) =~= found);
        assert(lookup_requests(dependencies, found.len() as int, 0) =~= Seq::empty());
        match turn {
            TurnView::Ask(machine, request) => {},
            TurnView::Done(_) => {},
        }
    } else {
        let first = lookups[0];
        assert(lookup_found(first) is Some);
        let grown = found.push(lookup_found(first)->0);
        let rest = lookups.drop_first();
        assert(all_lookups(rest)) by {
            assert forall|i: int| 0 <= i < rest.len() implies lookup_found(
                #[trigger] rest[i],
            ) is Some by {
                assert(rest[i] == lookups[i + 1]);
            }
        }
        lemma_lookups_run(managers, dependencies, grown, rest);
        assert(grown + lookup_flags(rest) =~= found + lookup_flags(lookups));
        assert(seq![RequestView::Run(lookup_invocation_view(dependencies[found.len() as int]))]
            + lookup_requests(dependencies, grown.len() as int, rest.len()) =~= lookup_requests(
            dependencies,
            found.len() as int,
            lookups.len(),
        ));
    }
}

/// The probes from manager `from` on, where the executables before
/// `chosen` do not exist and that of `chosen` does: each is asked in
/// turn, and then the install command of `chosen` is run.
proof fn lemma_probes_run_to_install(
    managers: Seq<PackageManagerView>,
    dependencies: Seq<Seq<char>>,
    missing: Seq<Seq<char>>,
    from: int,
    present: Seq<bool>,
    chosen: int,
)
    requires
        0 <= from <= chosen < managers.len(),
        present.len() == managers.len(),
        present[chosen],
        forall|i: int| from <= i < chosen ==> !present[i],
    ensures
        deps_run(
            deps_probe(managers, dependencies, missing, from),
            probe_answers(present.subrange(from, chosen + 1)),
        ) == (
            probe_requests(managers, from, (chosen + 1 - from) as nat),
            install_turn(managers, dependencies, install_command_text(managers[chosen], missing)),
        ),
    decreases chosen - from,
{
    let answers = probe_answers(present.subrange(from, chosen + 1));
    let request = RequestView::PathExists(binary_path_text(managers[from]));
    assert(answers[0] == ResponseView::Exists(present[from]));
    if from == chosen {
        let installing = install_turn(
            managers,
            dependencies,
            install_command_text(managers[chosen], missing),
        );
        assert(answers.drop_first() =~= Seq::<ResponseView>::empty());
        assert(deps_run(installing, Seq::empty()) == (Seq::<RequestView>::empty(), installing));
        assert(seq![request] + Seq::<RequestView>::empty() =~= probe_requests(managers, from, 1));
    } else {
        lemma_probes_run_to_install(managers, dependencies, missing, from + 1, present, chosen);
        assert(answers.drop_first() =~= probe_answers(present.subrange(from + 1, chosen + 1)));
        assert(seq![request] + probe_requests(managers, from + 1, (chosen - from) as nat)
            =~= probe_requests(managers, from, (chosen + 1 - from) as nat));
    }
}

/// The probes from manager `from` on, where no executable exists: each
/// is asked in turn, and then the installer gives up.
proof fn lemma_probes_run_to_failure(
    managers: Seq<PackageManagerView>,
    dependencies: Seq<Seq<char>>,
    missing: Seq<Seq<char>>,
    from: int,
    present: Seq<bool>,
)
    requires
        0 <= from <= managers.len(),
        present.len() == managers.len(),
        forall|i: int| from <= i < managers.len() ==> !present[i],
    ensures
        deps_run(
            deps_probe(managers, dependencies, missing, from),
            probe_answers(present.subrange(from, managers.len() as int)),
        ) == (
            probe_requests(managers, from, (managers.len() - from) as nat),
            deps_done(Err(InstallErrorView::NoPackageManagerFound { missing })),
        ),
    decreases managers.len() - from,
{
    let answers = probe_answers(present.subrange(from, managers.len() as int));
    if from == managers.len() {
        assert(probe_requests(managers, from, 0) =~= Seq::empty());
    } else {
        let request = RequestView::PathExists(binary_path_text(managers[from]));
        assert(answers[0] == ResponseView::Exists(present[from]));
        lemma_probes_run_to_failure(managers, dependencies, missing, from + 1, present);
        assert(answers.drop_first() =~= probe_answers(
            present.subrange(from + 1, managers.len() as int),
        ));
        assert(seq![request] + probe_requests(
            managers,
            from + 1,
            (managers.len() - from - 1) as nat,
        ) =~= probe_requests(managers, from, (managers.len() - from) as nat));
    }
}

/// The installer while `command` runs, asking for it to be run.
pub open spec fn install_turn(
    managers: Seq<PackageManagerView>,
    dependencies: Seq<Seq<char>>,
    command: Seq<char>,
) -> DepsTurnView {
    TurnView::Ask(
        DependencyInstallerView {
            managers,
            dependencies,
            phase: DepsPhaseView::Installing { command },
        },
        RequestView::Run(install_invocation_view(command)),
    )
}

/// Where every required executable is found, the installer looks each
/// one up, in order, and is done: it probes no package manager and runs
/// no install command.
pub proof fn law_all_found_installs_nothing(
    managers: Seq<PackageManagerView>,
    dependencies: Seq<Seq<char>>,
    lookups: Seq<ResponseView>,
)
    requires
        lookups.len() == dependencies.len(),
        all_lookups(lookups),
        forall|i: int| 0 <= i < lookups.len() ==> lookup_found(#[trigger] lookups[i]) == Some(true),
    ensures
        deps_run(deps_start(managers, dependencies), lookups) == (
            lookup_requests(dependencies, 0, dependencies.len()),
            deps_done(Ok(())),
        ),
        forall|i: int, command: Seq<char>|
            0 <= i < dependencies.len() ==> #[trigger] lookup_requests(
                dependencies,
                0,
                dependencies.len(),
            )[i] != RequestView::Run(#[trigger] install_invocation_view(command)),
{
    lemma_lookups_run(managers, dependencies, Seq::empty(), lookups);
    let found = Seq::<bool>::empty() + lookup_flags(lookups);
    assert forall|i: int| 0 <= i < dependencies.len() implies found[i] by {
        assert(lookup_found(lookups[i]) == Some(true));
    }
    lemma_all_found_none_missing(dependencies, found);
    assert forall|i: int, command: Seq<char>| 0 <= i < dependencies.len() implies #[trigger] lookup_requests(
        dependencies,
        0,
        dependencies.len(),
    )[i] != RequestView::Run(#[trigger] install_invocation_view(command)) by {
        reveal_strlit("which");
        reveal_strlit("sh");
        assert("which"@.len() != "sh"@.len());
    }
}

/// Where something is missing, the package managers are probed in list
/// order up to the first whose executable exists, and the command that
/// is then run is made of that manager's update command, its name, its
/// install arguments and the missing dependencies, joined by spaces in
/// the order of the dependency list.
pub proof fn law_first_present_manager_installs(
    managers: Seq<PackageManagerView>,
    dependencies: Seq<Seq<char>>,
    lookups: Seq<ResponseView>,
    present: Seq<bool>,
    chosen: int,
)
    requires
        lookups.len() == dependencies.len(),
        all_lookups(lookups),
        missing_of(dependencies, lookup_flags(lookups)).len() > 0,
        present.len() == managers.len(),
        0 <= chosen < managers.len(),
        present[chosen],
        forall|i: int| 0 <= i < chosen ==> !present[i],
    ensures
        deps_run(
            deps_start(managers, dependencies),
            lookups + probe_answers(present.take(chosen + 1)),
        ) == (
            lookup_requests(dependencies, 0, dependencies.len()) + probe_requests(
                managers,
                0,
                (chosen + 1) as nat,
            ),
            install_turn(
                managers,
                dependencies,
                install_command_text(
                    managers[chosen],
                    missing_of(dependencies, lookup_flags(lookups)),
                ),
            ),
        ),
{
    let missing = missing_of(dependencies, lookup_flags(lookups));
    let probes = probe_answers(present.take(chosen + 1));
    lemma_lookups_run(managers, dependencies, Seq::empty(), lookups);
    assert(Seq::<bool>::empty() + lookup_flags(lookups) =~= lookup_flags(lookups));
    lemma_probes_run_to_install(managers, dependencies, missing, 0, present, chosen);
    assert(present.take(chosen + 1) =~= present.subrange(0, chosen + 1));
    lemma_deps_run_concat(deps_start(managers, dependencies), lookups, probes);
}

/// Where something is missing and no package manager's executable
/// exists, every manager is probed, in list order, and the installer
/// gives up, naming what is missing.
pub proof fn law_no_manager_present_fails(
    managers: Seq<PackageManagerView>,
    dependencies: Seq<Seq<char>>,
    lookups: Seq<ResponseView>,
    present: Seq<bool>,
)
    requires
        lookups.len() == dependencies.len(),
        all_lookups(lookups),
        missing_of(dependencies, lookup_flags(lookups)).len() > 0,
        present.len() == managers.len(),
        forall|i: int| 0 <= i < present.len() ==> !present[i],
    ensures
        deps_run(deps_start(managers, dependencies), lookups + probe_answers(present)) == (
            lookup_requests(dependencies, 0, dependencies.len()) + probe_requests(
                managers,
                0,
                managers.len(),
            ),
            deps_done(
                Err(
                    InstallErrorView::NoPackageManagerFound {
                        missing: missing_of(dependencies, lookup_flags(lookups)),
                    },
                ),
            ),
        ),
{
    let missing = missing_of(dependencies, lookup_flags(lookups));
    lemma_lookups_run(managers, dependencies, Seq::empty(), lookups);
    assert(Seq::<bool>::empty() + lookup_flags(lookups) =~= lookup_flags(lookups));
    lemma_probes_run_to_failure(managers, dependencies, missing, 0, present);
    assert(present.subrange(0, managers.len() as int) =~= present);
    lemma_deps_run_concat(deps_start(managers, dependencies), lookups, probe_answers(present));
}

/// Whether the dependency at `i` counts as not found.
pub open spec fn not_found(found: Seq<bool>, i: int) -> bool {
    !(0 <= i < found.len() && found[i])
}

/// The missing dependencies are the dependencies at the positions that
/// were not found: each such position is taken exactly once, and in the
/// order of the dependency list. The positions are returned.
pub proof fn law_missing_selects_in_order(dependencies: Seq<Seq<char>>, found: Seq<bool>) -> (picks:
    Seq<int>)
    ensures
        picks.len() == missing_of(dependencies, found).len(),
        forall|k: int|
            0 <= k < picks.len() ==> 0 <= #[trigger] picks[k] < dependencies.len() && not_found(
                found,
                picks[k],
            ) && missing_of(dependencies, found)[k] == dependencies[picks[k]],
        forall|k: int, l: int| 0 <= k < l < picks.len() ==> picks[k] < picks[l],
        forall|i: int|
            0 <= i < dependencies.len() && #[trigger] not_found(found, i) ==> picks.contains(i),
    decreases dependencies.len(),
{
    if dependencies.len() == 0 {
        Seq::empty()
    } else {
        let last = dependencies.len() - 1;
        let earlier = law_missing_selects_in_order(dependencies.drop_last(), found);
        if not_found(found, last) {
            let picks = earlier.push(last);
            assert forall|i: int|
                0 <= i < dependencies.len() && #[trigger] not_found(found, i) implies picks.contains(
                i,
            ) by {
                if i == last {
                    assert(picks[picks.len() - 1] == i);
                } else {
                    assert(earlier.contains(i));
                    let k = choose|k: int| 0 <= k < earlier.len() && earlier[k] == i;
                    assert(picks[k] == i);
                }
            }
            picks
        } else {
            earlier
        }
    }
}

} // verus!
