//! What holds of whole runs of the synchronizer.

use vstd::prelude::*;
use crate::clock::backup_dir_text;
use crate::command::{DirEntryView, RequestView, ResponseView};
use crate::error::InstallErrorView;
use crate::sync::{
    create_dir_invocation_view, mirror_invocation_view, permission_invocation_view,
    sync_advance, sync_ask, sync_create_target, sync_fix, sync_start, PermissionPass,
    SyncPhaseView, SyncTurnView, SynchronizerView,
};
use crate::turn::TurnView;

verus! {

/// A run: the answers are handed in one by one for as long as the
/// component asks. The result holds the requests that were answered and
/// where the component then stands. `stamp` is the time read where the
/// target is found to exist.
pub open spec fn sync_run(turn: SyncTurnView, answers: Seq<ResponseView>, stamp: Seq<char>) -> (
    Seq<RequestView>,
    SyncTurnView,
)
    decreases answers.len(),
{
    match turn {
        TurnView::Ask(machine, request) => if answers.len() > 0 {
            let rest = sync_run(
                sync_advance(machine, answers[0], stamp),
                answers.drop_first(),
                stamp,
            );
            (seq![request] + rest.0, rest.1)
        } else {
            (Seq::empty(), turn)
        },
        TurnView::Done(_) => (Seq::empty(), turn),
    }
}

/// The synchronizer having finished with `result`.
pub open spec fn sync_done(result: Result<(), InstallErrorView>) -> SyncTurnView {
    TurnView::Done(result)
}

/// The answer reports a process that ended with status zero.
pub open spec fn succeeded(answer: ResponseView) -> bool {
    answer is Exit && answer->success
}

/// The steps that write the target: it is created, the source is
/// mirrored into it, and the three permission passes run over it.
pub open spec fn replacement_requests(source: Seq<char>, target: Seq<char>) -> Seq<RequestView> {
    seq![
        RequestView::Run(create_dir_invocation_view(target)),
        RequestView::Run(mirror_invocation_view(source, target)),
        RequestView::Run(permission_invocation_view(target, PermissionPass::Directories)),
        RequestView::Run(permission_invocation_view(target, PermissionPass::Files)),
        RequestView::Run(permission_invocation_view(target, PermissionPass::Binaries)),
    ]
}

/// The answers to the steps that write the target, where each one that
/// must succeed does: four successes, and any exit status of the pass
/// over `*.bin`.
pub open spec fn replacement_succeeds(answers: Seq<ResponseView>) -> bool {
    &&& answers.len() == 5
    &&& succeeded(answers[0])
    &&& succeeded(answers[1])
    &&& succeeded(answers[2])
    &&& succeeded(answers[3])
    &&& answers[4] is Exit
}

/// Where the target does not exist, no backup directory is asked for:
/// the target is created and made a mirror of the source, and its
/// permissions are normalised.
pub proof fn law_sync_creates_absent_target(
    source: Seq<char>,
    target: Seq<char>,
    backup_prefix: Seq<char>,
    stamp: Seq<char>,
    writes: Seq<ResponseView>,
)
    requires
        replacement_succeeds(writes),
    ensures
        sync_run(
            sync_start(source, target, backup_prefix),
            seq![ResponseView::Exists(true), ResponseView::Exists(false)] + writes,
            stamp,
        ) == (
            seq![RequestView::PathExists(source), RequestView::PathExists(target)]
                + replacement_requests(source, target),
            sync_done(Ok(())),
        ),
{
    let answers = seq![ResponseView::Exists(true), ResponseView::Exists(false)] + writes;
    let a1 = answers.drop_first();
    let a2 = a1.drop_first();
    let a3 = a2.drop_first();
    let a4 = a3.drop_first();
    let a5 = a4.drop_first();
    let a6 = a5.drop_first();
    let a7 = a6.drop_first();
    assert(a7.len() == 0);
    assert(answers[0] == ResponseView::Exists(true));
    assert(a1[0] == ResponseView::Exists(false));
    assert(a2[0] == writes[0] && a3[0] == writes[1] && a4[0] == writes[2] && a5[0] == writes[3]
        && a6[0] == writes[4]);
    reveal_with_fuel(sync_run, 9);
    let run = sync_run(sync_start(source, target, backup_prefix), answers, stamp);
    assert(run.0 =~= seq![RequestView::PathExists(source), RequestView::PathExists(target)]
        + replacement_requests(source, target));
}

/// Where the target exists and holds something, a backup directory named
/// by the prefix and the time is created and filled with a mirror of the
/// target before anything is written to the target.
pub proof fn law_sync_backs_up_filled_target(
    source: Seq<char>,
    target: Seq<char>,
    backup_prefix: Seq<char>,
    stamp: Seq<char>,
    created: ResponseView,
    held: Seq<DirEntryView>,
    saved: ResponseView,
    writes: Seq<ResponseView>,
)
    requires
        succeeded(created),
        held.len() > 0,
        succeeded(saved),
        replacement_succeeds(writes),
    ensures
        sync_run(
            sync_start(source, target, backup_prefix),
            seq![
                ResponseView::Exists(true),
                ResponseView::Exists(true),
                created,
                ResponseView::Entries(held),
                saved,
            ] + writes,
            stamp,
        ) == (
            seq![
                RequestView::PathExists(source),
                RequestView::PathExists(target),
                RequestView::Run(
                    create_dir_invocation_view(backup_dir_text(backup_prefix, stamp)),
                ),
                RequestView::ListDir(target),
                RequestView::Run(
                    mirror_invocation_view(target, backup_dir_text(backup_prefix, stamp)),
                ),
            ] + replacement_requests(source, target),
            sync_done(Ok(())),
        ),
{
    let answers = seq![
        ResponseView::Exists(true),
        ResponseView::Exists(true),
        created,
        ResponseView::Entries(held),
        saved,
    ] + writes;
    let a1 = answers.drop_first();
    let a2 = a1.drop_first();
    let a3 = a2.drop_first();
    let a4 = a3.drop_first();
    let a5 = a4.drop_first();
    let a6 = a5.drop_first();
    let a7 = a6.drop_first();
    let a8 = a7.drop_first();
    let a9 = a8.drop_first();
    let a10 = a9.drop_first();
    assert(a10.len() == 0);
    assert(answers[0] == ResponseView::Exists(true));
    assert(a1[0] == ResponseView::Exists(true));
    assert(a2[0] == created);
    assert(a3[0] == ResponseView::Entries(held));
    assert(a4[0] == saved);
    assert(a5[0] == writes[0] && a6[0] == writes[1] && a7[0] == writes[2] && a8[0] == writes[3]
        && a9[0] == writes[4]);
    reveal_with_fuel(sync_run, 12);
    let run = sync_run(sync_start(source, target, backup_prefix), answers, stamp);
    assert(run.0 =~= seq![
        RequestView::PathExists(source),
        RequestView::PathExists(target),
        RequestView::Run(create_dir_invocation_view(backup_dir_text(backup_prefix, stamp))),
        RequestView::ListDir(target),
        RequestView::Run(mirror_invocation_view(target, backup_dir_text(backup_prefix, stamp))),
    ] + replacement_requests(source, target));
}

/// Where the target exists and is empty, the backup directory is
/// created but nothing is copied into it.
pub proof fn law_sync_skips_backup_of_empty_target(
    source: Seq<char>,
    target: Seq<char>,
    backup_prefix: Seq<char>,
    stamp: Seq<char>,
    created: ResponseView,
    writes: Seq<ResponseView>,
)
    requires
        succeeded(created),
        replacement_succeeds(writes),
    ensures
        sync_run(
            sync_start(source, target, backup_prefix),
            seq![
                ResponseView::Exists(true),
                ResponseView::Exists(true),
                created,
                ResponseView::Entries(Seq::empty()),
            ] + writes,
            stamp,
        ) == (
            seq![
                RequestView::PathExists(source),
                RequestView::PathExists(target),
                RequestView::Run(
                    create_dir_invocation_view(backup_dir_text(backup_prefix, stamp)),
                ),
                RequestView::ListDir(target),
            ] + replacement_requests(source, target),
            sync_done(Ok(())),
        ),
{
    let answers = seq![
        ResponseView::Exists(true),
        ResponseView::Exists(true),
        created,
        ResponseView::Entries(Seq::empty()),
    ] + writes;
    let a1 = answers.drop_first();
    let a2 = a1.drop_first();
    let a3 = a2.drop_first();
    let a4 = a3.drop_first();
    let a5 = a4.drop_first();
    let a6 = a5.drop_first();
    let a7 = a6.drop_first();
    let a8 = a7.drop_first();
    let a9 = a8.drop_first();
    assert(a9.len() == 0);
    assert(answers[0] == ResponseView::Exists(true));
    assert(a1[0] == ResponseView::Exists(true));
    assert(a2[0] == created);
    assert(a3[0] == ResponseView::Entries(Seq::<DirEntryView>::empty()));
    assert(a4[0] == writes[0] && a5[0] == writes[1] && a6[0] == writes[2] && a7[0] == writes[3]
        && a8[0] == writes[4]);
    reveal_with_fuel(sync_run, 11);
    let run = sync_run(sync_start(source, target, backup_prefix), answers, stamp);
    assert(run.0 =~= seq![
        RequestView::PathExists(source),
        RequestView::PathExists(target),
        RequestView::Run(create_dir_invocation_view(backup_dir_text(backup_prefix, stamp))),
        RequestView::ListDir(target),
    ] + replacement_requests(source, target));
}

/// The permission passes from `pass` on, one request each.
pub open spec fn fix_requests(target: Seq<char>, pass: PermissionPass) -> Seq<RequestView> {
    match pass {
        PermissionPass::Directories => seq![
            RequestView::Run(permission_invocation_view(target, PermissionPass::Directories)),
            RequestView::Run(permission_invocation_view(target, PermissionPass::Files)),
            RequestView::Run(permission_invocation_view(target, PermissionPass::Binaries)),
        ],
        PermissionPass::Files => seq![
            RequestView::Run(permission_invocation_view(target, PermissionPass::Files)),
            RequestView::Run(permission_invocation_view(target, PermissionPass::Binaries)),
        ],
        PermissionPass::Binaries => seq![
            RequestView::Run(permission_invocation_view(target, PermissionPass::Binaries)),
        ],
    }
}

/// A run that ends well from a permission pass on asks for that pass and
/// those that follow it, and for nothing else.
proof fn lemma_success_from_fix(
    state: SynchronizerView,
    pass: PermissionPass,
    answers: Seq<ResponseView>,
    stamp: Seq<char>,
)
    requires
        sync_run(sync_fix(state, pass), answers, stamp).1 == sync_done(Ok(())),
    ensures
        sync_run(sync_fix(state, pass), answers, stamp).0 == fix_requests(state.target, pass),
    decreases answers.len(),
{
    let turn = sync_fix(state, pass);
    let machine = turn->Ask_0;
    assert(answers.len() > 0);
    let next = sync_advance(machine, answers[0], stamp);
    let rest = answers.drop_first();
    assert(sync_run(turn, answers, stamp).1 == sync_run(next, rest, stamp).1);
    match pass {
        PermissionPass::Directories => {
            assert(next == sync_fix(state, PermissionPass::Files));
            lemma_success_from_fix(state, PermissionPass::Files, rest, stamp);
            assert(sync_run(turn, answers, stamp).0 =~= fix_requests(state.target, pass));
        },
        PermissionPass::Files => {
            assert(next == sync_fix(state, PermissionPass::Binaries));
            lemma_success_from_fix(state, PermissionPass::Binaries, rest, stamp);
            assert(sync_run(turn, answers, stamp).0 =~= fix_requests(state.target, pass));
        },
        PermissionPass::Binaries => {
            assert(next is Done);
            assert(sync_run(next, rest, stamp).0 =~= Seq::<RequestView>::empty());
            assert(sync_run(turn, answers, stamp).0 =~= fix_requests(state.target, pass));
        },
    }
}

/// A run that ends well from the creation of the target on asks for the
/// steps that write the target, and for nothing else.
proof fn lemma_success_from_create_target(
    state: SynchronizerView,
    answers: Seq<ResponseView>,
    stamp: Seq<char>,
)
    requires
        sync_run(sync_create_target(state), answers, stamp).1 == sync_done(Ok(())),
    ensures
        sync_run(sync_create_target(state), answers, stamp).0 == replacement_requests(
            state.source,
            state.target,
        ),
{
    let turn = sync_create_target(state);
    let machine = turn->Ask_0;
    assert(answers.len() > 0);
    let mirroring = sync_advance(machine, answers[0], stamp);
    let a1 = answers.drop_first();
    assert(sync_run(turn, answers, stamp).1 == sync_run(mirroring, a1, stamp).1);
    assert(mirroring == sync_ask(
        state,
        SyncPhaseView::Mirroring,
        RequestView::Run(mirror_invocation_view(state.source, state.target)),
    ));
    assert(a1.len() > 0);
    let fixing = sync_advance(mirroring->Ask_0, a1[0], stamp);
    let a2 = a1.drop_first();
    assert(sync_run(mirroring, a1, stamp).1 == sync_run(fixing, a2, stamp).1);
    assert(fixing == sync_fix(state, PermissionPass::Directories));
    lemma_success_from_fix(state, PermissionPass::Directories, a2, stamp);
    assert(sync_run(turn, answers, stamp).0 =~= replacement_requests(state.source, state.target));
}

/// Putting a request before requests leaves their end as it was.
proof fn lemma_ends_with_after(first: RequestView, requests: Seq<RequestView>, tail: Seq<RequestView>)
    requires
        tail.is_suffix_of(requests),
    ensures
        tail.is_suffix_of(seq![first] + requests),
{
    let longer = seq![first] + requests;
    assert(longer.subrange(longer.len() - tail.len(), longer.len() as int) =~= requests.subrange(
        requests.len() - tail.len(),
        requests.len() as int,
    ));
}

/// Whatever the target held before, a synchronization that ends well
/// ends with the same steps: the target is created, the source is
/// mirrored into it, and the three permission passes run over it. These
/// steps depend on the source and the target alone, so a second run with
/// the same source asks for the same writes as the first.
pub proof fn law_successful_sync_ends_with_replacement(
    source: Seq<char>,
    target: Seq<char>,
    backup_prefix: Seq<char>,
    stamp: Seq<char>,
    answers: Seq<ResponseView>,
)
    requires
        sync_run(sync_start(source, target, backup_prefix), answers, stamp).1 == sync_done(Ok(())),
    ensures
        replacement_requests(source, target).is_suffix_of(
            sync_run(sync_start(source, target, backup_prefix), answers, stamp).0,
        ),
{
    let tail = replacement_requests(source, target);
    let start = sync_start(source, target, backup_prefix);
    let state = start->Ask_0;
    assert(tail.subrange(0, tail.len() as int) =~= tail);
    // The source is probed.
    assert(answers.len() > 0);
    let a1 = answers.drop_first();
    let t1 = sync_advance(state, answers[0], stamp);
    assert(sync_run(start, answers, stamp).1 == sync_run(t1, a1, stamp).1);
    assert(t1 == sync_ask(state, SyncPhaseView::TargetProbe, RequestView::PathExists(target)));
    // The target is probed.
    assert(a1.len() > 0);
    let a2 = a1.drop_first();
    let t2 = sync_advance(t1->Ask_0, a1[0], stamp);
    assert(sync_run(t1, a1, stamp).1 == sync_run(t2, a2, stamp).1);
    if a1[0] == ResponseView::Exists(false) {
        assert(t2 == sync_create_target(state));
        lemma_success_from_create_target(state, a2, stamp);
        lemma_ends_with_after(RequestView::PathExists(target), sync_run(t2, a2, stamp).0, tail);
    } else {
        // The backup directory is created.
        let backup_dir = backup_dir_text(backup_prefix, stamp);
        assert(t2 == sync_ask(
            state,
            SyncPhaseView::BackupCreate { backup_dir },
            RequestView::Run(create_dir_invocation_view(backup_dir)),
        ));
        assert(a2.len() > 0);
        let a3 = a2.drop_first();
        let t3 = sync_advance(t2->Ask_0, a2[0], stamp);
        assert(sync_run(t2, a2, stamp).1 == sync_run(t3, a3, stamp).1);
        assert(t3 == sync_ask(
            state,
            SyncPhaseView::TargetScan { backup_dir },
            RequestView::ListDir(target),
        ));
        // The target is listed.
        assert(a3.len() > 0);
        let a4 = a3.drop_first();
        let t4 = sync_advance(t3->Ask_0, a3[0], stamp);
        assert(sync_run(t3, a3, stamp).1 == sync_run(t4, a4, stamp).1);
        if t4 == sync_create_target(state) {
            lemma_success_from_create_target(state, a4, stamp);
        } else {
            // The target is saved.
            assert(t4 == sync_ask(
                state,
                SyncPhaseView::BackingUp,
                RequestView::Run(mirror_invocation_view(target, backup_dir)),
            ));
            assert(a4.len() > 0);
            let a5 = a4.drop_first();
            let t5 = sync_advance(t4->Ask_0, a4[0], stamp);
            assert(sync_run(t4, a4, stamp).1 == sync_run(t5, a5, stamp).1);
            assert(t5 == sync_create_target(state));
            lemma_success_from_create_target(state, a5, stamp);
            lemma_ends_with_after(t4->Ask_1, sync_run(t5, a5, stamp).0, tail);
        }
        lemma_ends_with_after(t3->Ask_1, sync_run(t4, a4, stamp).0, tail);
        lemma_ends_with_after(t2->Ask_1, sync_run(t3, a3, stamp).0, tail);
        lemma_ends_with_after(t1->Ask_1, sync_run(t2, a2, stamp).0, tail);
    }
    lemma_ends_with_after(RequestView::PathExists(source), sync_run(t1, a1, stamp).0, tail);
}

/// Putting a request before requests and before what they begin keeps
/// the one the beginning of the other.
proof fn lemma_prefix_after(first: RequestView, requests: Seq<RequestView>, whole: Seq<RequestView>)
    requires
        requests.is_prefix_of(whole),
    ensures
        (seq![first] + requests).is_prefix_of(seq![first] + whole),
{
    let longer = seq![first] + requests;
    assert(longer =~= (seq![first] + whole).subrange(0, longer.len() as int));
}

/// Whatever the answers, a run from a permission pass on asks for that
/// pass and those that follow it, in order, as far as it gets.
proof fn lemma_run_from_fix(
    state: SynchronizerView,
    pass: PermissionPass,
    answers: Seq<ResponseView>,
    stamp: Seq<char>,
)
    ensures
        sync_run(sync_fix(state, pass), answers, stamp).0.is_prefix_of(
            fix_requests(state.target, pass),
        ),
    decreases answers.len(),
{
    let turn = sync_fix(state, pass);
    let whole = fix_requests(state.target, pass);
    if answers.len() > 0 {
        let next = sync_advance(turn->Ask_0, answers[0], stamp);
        let rest = answers.drop_first();
        let later = sync_run(next, rest, stamp).0;
        match pass.following() {
            Some(following) => {
                if next == sync_fix(state, following) {
                    lemma_run_from_fix(state, following, rest, stamp);
                    lemma_prefix_after(turn->Ask_1, later, fix_requests(state.target, following));
                    assert(seq![turn->Ask_1] + fix_requests(state.target, following) =~= whole);
                } else {
                    assert(next is Done);
                    assert(seq![turn->Ask_1] + later =~= whole.subrange(0, 1));
                }
            },
            None => {
                assert(next is Done);
                assert(seq![turn->Ask_1] + later =~= whole.subrange(0, 1));
            },
        }
    }
}

/// Whatever the answers, a run from the creation of the target on asks
/// for the steps that write the target, in order, as far as it gets.
proof fn lemma_run_from_create_target(
    state: SynchronizerView,
    answers: Seq<ResponseView>,
    stamp: Seq<char>,
)
    ensures
        sync_run(sync_create_target(state), answers, stamp).0.is_prefix_of(
            replacement_requests(state.source, state.target),
        ),
{
    let turn = sync_create_target(state);
    let whole = replacement_requests(state.source, state.target);
    let fixes = fix_requests(state.target, PermissionPass::Directories);
    if answers.len() > 0 {
        let mirroring = sync_advance(turn->Ask_0, answers[0], stamp);
        let a1 = answers.drop_first();
        assert(sync_run(turn, answers, stamp).0 == seq![turn->Ask_1] + sync_run(
            mirroring,
            a1,
            stamp,
        ).0);
        if mirroring is Ask {
            if a1.len() > 0 {
                let fixing = sync_advance(mirroring->Ask_0, a1[0], stamp);
                let a2 = a1.drop_first();
                assert(sync_run(mirroring, a1, stamp).0 == seq![mirroring->Ask_1] + sync_run(
                    fixing,
                    a2,
                    stamp,
                ).0);
                if fixing is Ask {
                    assert(fixing == sync_fix(state, PermissionPass::Directories));
                    lemma_run_from_fix(state, PermissionPass::Directories, a2, stamp);
                    lemma_prefix_after(mirroring->Ask_1, sync_run(fixing, a2, stamp).0, fixes);
                    lemma_prefix_after(
                        turn->Ask_1,
                        sync_run(mirroring, a1, stamp).0,
                        seq![mirroring->Ask_1] + fixes,
                    );
                    assert(seq![turn->Ask_1] + (seq![mirroring->Ask_1] + fixes) =~= whole);
                } else {
                    assert(sync_run(turn, answers, stamp).0 =~= whole.subrange(0, 2));
                }
            } else {
                assert(sync_run(turn, answers, stamp).0 =~= whole.subrange(0, 1));
            }
        } else {
            assert(sync_run(turn, answers, stamp).0 =~= whole.subrange(0, 1));
        }
    }
}

/// Where the target does not exist, then, whatever the later answers,
/// the run asks for nothing but the steps that write the target, in
/// order, as far as it gets: no backup directory is asked for.
pub proof fn law_absent_target_is_only_written(
    source: Seq<char>,
    target: Seq<char>,
    backup_prefix: Seq<char>,
    stamp: Seq<char>,
    later: Seq<ResponseView>,
)
    ensures
        sync_run(
            sync_start(source, target, backup_prefix),
            seq![ResponseView::Exists(true), ResponseView::Exists(false)] + later,
            stamp,
        ).0.is_prefix_of(
            seq![RequestView::PathExists(source), RequestView::PathExists(target)]
                + replacement_requests(source, target),
        ),
{
    let answers = seq![ResponseView::Exists(true), ResponseView::Exists(false)] + later;
    let start = sync_start(source, target, backup_prefix);
    let state = start->Ask_0;
    let a1 = answers.drop_first();
    let a2 = a1.drop_first();
    assert(answers[0] == ResponseView::Exists(true));
    assert(a1[0] == ResponseView::Exists(false));
    let t1 = sync_advance(state, answers[0], stamp);
    let t2 = sync_advance(t1->Ask_0, a1[0], stamp);
    assert(t2 == sync_create_target(state));
    lemma_run_from_create_target(state, a2, stamp);
    let writes = replacement_requests(source, target);
    lemma_prefix_after(RequestView::PathExists(target), sync_run(t2, a2, stamp).0, writes);
    lemma_prefix_after(
        RequestView::PathExists(source),
        sync_run(t1, a1, stamp).0,
        seq![RequestView::PathExists(target)] + writes,
    );
    assert(seq![RequestView::PathExists(source)] + (seq![RequestView::PathExists(target)]
        + writes) =~= seq![RequestView::PathExists(source), RequestView::PathExists(target)]
        + writes);
}

/// Where the target exists and holds something, then, whatever the
/// other answers, the run asks for these steps, in order, as far as it
/// gets: the backup directory is created, the target is listed and
/// mirrored into the backup directory, and only then come the steps that
/// write the target.
pub proof fn law_filled_target_is_saved_before_written(
    source: Seq<char>,
    target: Seq<char>,
    backup_prefix: Seq<char>,
    stamp: Seq<char>,
    answers: Seq<ResponseView>,
)
    requires
        answers.len() >= 2,
        answers[0] == ResponseView::Exists(true),
        answers[1] == ResponseView::Exists(true),
        answers.len() > 3 ==> answers[3] is Entries && answers[3]->Entries_0.len() > 0,
    ensures
        sync_run(sync_start(source, target, backup_prefix), answers, stamp).0.is_prefix_of(
            seq![
                RequestView::PathExists(source),
                RequestView::PathExists(target),
                RequestView::Run(
                    create_dir_invocation_view(backup_dir_text(backup_prefix, stamp)),
                ),
                RequestView::ListDir(target),
                RequestView::Run(
                    mirror_invocation_view(target, backup_dir_text(backup_prefix, stamp)),
                ),
            ] + replacement_requests(source, target),
        ),
{
    let backup_dir = backup_dir_text(backup_prefix, stamp);
    let writes = replacement_requests(source, target);
    let q0 = RequestView::PathExists(source);
    let q1 = RequestView::PathExists(target);
    let q2 = RequestView::Run(create_dir_invocation_view(backup_dir));
    let q3 = RequestView::ListDir(target);
    let q4 = RequestView::Run(mirror_invocation_view(target, backup_dir));
    let whole = seq![q0, q1, q2, q3, q4] + writes;
    let start = sync_start(source, target, backup_prefix);
    let state = start->Ask_0;
    let a1 = answers.drop_first();
    let a2 = a1.drop_first();
    assert(a1[0] == answers[1]);
    let t1 = sync_advance(state, answers[0], stamp);
    let t2 = sync_advance(t1->Ask_0, a1[0], stamp);
    assert(t2->Ask_1 == q2);
    let run = sync_run(start, answers, stamp).0;
    assert(run == seq![q0] + sync_run(t1, a1, stamp).0);
    assert(sync_run(t1, a1, stamp).0 == seq![q1] + sync_run(t2, a2, stamp).0);
    if a2.len() == 0 {
        assert(run =~= whole.subrange(0, 2));
    } else {
        let t3 = sync_advance(t2->Ask_0, a2[0], stamp);
        let a3 = a2.drop_first();
        assert(sync_run(t2, a2, stamp).0 == seq![q2] + sync_run(t3, a3, stamp).0);
        if t3 is Done || a3.len() == 0 {
            assert(run =~= whole.subrange(0, 3));
        } else {
            assert(t3->Ask_1 == q3);
            assert(a3[0] == answers[3]);
            let t4 = sync_advance(t3->Ask_0, a3[0], stamp);
            let a4 = a3.drop_first();
            assert(sync_run(t3, a3, stamp).0 == seq![q3] + sync_run(t4, a4, stamp).0);
            assert(t4 == sync_ask(state, SyncPhaseView::BackingUp, q4));
            if a4.len() == 0 {
                assert(run =~= whole.subrange(0, 4));
            } else {
                let t5 = sync_advance(t4->Ask_0, a4[0], stamp);
                let a5 = a4.drop_first();
                assert(sync_run(t4, a4, stamp).0 == seq![q4] + sync_run(t5, a5, stamp).0);
                if t5 is Done {
                    assert(run =~= whole.subrange(0, 5));
                } else {
                    assert(t5 == sync_create_target(state));
                    lemma_run_from_create_target(state, a5, stamp);
                    let last = sync_run(t5, a5, stamp).0;
                    lemma_prefix_after(q4, last, writes);
                    lemma_prefix_after(q3, seq![q4] + last, seq![q4] + writes);
                    lemma_prefix_after(q2, seq![q3] + (seq![q4] + last), seq![q3] + (seq![q4] + writes));
                    lemma_prefix_after(
                        q1,
                        seq![q2] + (seq![q3] + (seq![q4] + last)),
                        seq![q2] + (seq![q3] + (seq![q4] + writes)),
                    );
                    lemma_prefix_after(
                        q0,
                        seq![q1] + (seq![q2] + (seq![q3] + (seq![q4] + last))),
                        seq![q1] + (seq![q2] + (seq![q3] + (seq![q4] + writes))),
                    );
                    assert(seq![q0] + (seq![q1] + (seq![q2] + (seq![q3] + (seq![q4] + writes))))
                        =~= whole);
                }
            }
        }
    }
}

} // verus!
