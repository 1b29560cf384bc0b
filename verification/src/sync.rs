//! Replacing the system directory by the new configuration: backup of
//! what is there, a one-way mirror, and normalised permissions.

use vstd::prelude::*;
use crate::clock::{
    backup_dir_name, backup_dir_text, lemma_stamp_shape_is_met, local_timestamp, stamp_shape,
};
use crate::command::{
    Invocation, InvocationView, Request, RequestView, Response, ResponseView, Streams,
};
use crate::error::{InstallError, InstallErrorView, PermissionScope};
use crate::turn::{Turn, TurnView};

verus! {

/// Creating a directory, with its missing parents, under elevated
/// privilege.
pub open spec fn create_dir_invocation_view(dir: Seq<char>) -> InvocationView {
    InvocationView {
        program: "sudo"@,
        args: seq!["mkdir"@, "-p"@, dir],
        env: Seq::empty(),
        streams: Streams::Inherit,
    }
}

/// Builds the creation of `dir` under elevated privilege.
pub fn create_dir_with_sudo(dir: &str) -> (res: Invocation)
    ensures
        res@ == create_dir_invocation_view(dir@),
{
    let mut args: Vec<String> = Vec::new();
    args.push(String::from_str("mkdir"));
    args.push(String::from_str("-p"));
    args.push(String::from_str(dir));
    let env: Vec<(String, String)> = Vec::new();
    let res = Invocation { program: String::from_str("sudo"), args, env, streams: Streams::Inherit };
    proof {
        assert(res@.args =~= create_dir_invocation_view(dir@).args);
        assert(res@.env =~= create_dir_invocation_view(dir@).env);
    }
    res
}

/// The one-way mirror of the contents of `source` into `dest`, under
/// elevated privilege and a UTF-8 locale: attributes are kept, names are
/// converted to UTF-8, and what `dest` holds beyond `source` is deleted.
/// The trailing slashes make it the contents that are copied, not the
/// directory. Both streams are collected.
pub open spec fn mirror_invocation_view(source: Seq<char>, dest: Seq<char>) -> InvocationView {
    InvocationView {
        program: "sudo"@,
        args: seq![
            "rsync"@,
            "-a"@,
            "--iconv=UTF-8,UTF-8"@,
            "--delete"@,
            source + "/"@,
            dest + "/"@,
        ],
        env: seq![("LANG"@, "zh_CN.UTF-8"@), ("LC_ALL"@, "zh_CN.UTF-8"@)],
        streams: Streams::Capture,
    }
}

/// Builds the mirror of the contents of `source` into `dest`.
pub fn run_rsync_with_sudo(source: &str, dest: &str) -> (res: Invocation)
    ensures
        res@ == mirror_invocation_view(source@, dest@),
{
    let mut from = String::from_str(source);
    from.append("/");
    let mut to = String::from_str(dest);
    to.append("/");
    let mut args: Vec<String> = Vec::new();
    args.push(String::from_str("rsync"));
    args.push(String::from_str("-a"));
    args.push(String::from_str("--iconv=UTF-8,UTF-8"));
    args.push(String::from_str("--delete"));
    args.push(from);
    args.push(to);
    let mut env: Vec<(String, String)> = Vec::new();
    env.push((String::from_str("LANG"), String::from_str("zh_CN.UTF-8")));
    env.push((String::from_str("LC_ALL"), String::from_str("zh_CN.UTF-8")));
    let res = Invocation { program: String::from_str("sudo"), args, env, streams: Streams::Capture };
    proof {
        assert(res@.args =~= mirror_invocation_view(source@, dest@).args);
        assert(res@.env =~= mirror_invocation_view(source@, dest@).env);
    }
    res
}

/// One of the three passes that normalise permissions, in the order in
/// which they run.
#[derive(Clone, Copy, Debug, PartialEq, Eq, Structural)]
pub enum PermissionPass {
    /// Every directory gets mode 755.
    Directories,
    /// Every regular file gets mode 644.
    Files,
    /// Every entry named `*.bin` gets mode 755.
    Binaries,
}

impl PermissionPass {
    /// The test by which `find` selects the entries of the pass.
    pub open spec fn selector(self) -> Seq<Seq<char>> {
        match self {
            PermissionPass::Directories => seq!["-type"@, "d"@],
            PermissionPass::Files => seq!["-type"@, "f"@],
            PermissionPass::Binaries => seq!["-name"@, "*.bin"@],
        }
    }

    /// The mode that the pass sets.
    pub open spec fn mode(self) -> Seq<char> {
        match self {
            PermissionPass::Directories => "755"@,
            PermissionPass::Files => "644"@,
            PermissionPass::Binaries => "755"@,
        }
    }

    /// The pass that follows, if any.
    pub open spec fn following(self) -> Option<PermissionPass> {
        match self {
            PermissionPass::Directories => Some(PermissionPass::Files),
            PermissionPass::Files => Some(PermissionPass::Binaries),
            PermissionPass::Binaries => None,
        }
    }

    /// The error with which a non-zero status of the pass ends the
    /// installation. The pass over `*.bin` has none: not every
    /// configuration holds such files, so its failure is passed over.
    pub open spec fn failure(self) -> Option<InstallErrorView> {
        match self {
            PermissionPass::Directories => Some(
                InstallErrorView::PermissionFixFailed(PermissionScope::Directories),
            ),
            PermissionPass::Files => Some(InstallErrorView::PermissionFixFailed(PermissionScope::Files)),
            PermissionPass::Binaries => None,
        }
    }
}

/// The recursive find-and-set-mode of one pass over `dir`, under elevated
/// privilege.
pub open spec fn permission_invocation_view(dir: Seq<char>, pass: PermissionPass) -> InvocationView {
    InvocationView {
        program: "sudo"@,
        args: seq!["find"@, dir] + pass.selector() + seq![
            "-exec"@,
            "chmod"@,
            pass.mode(),
            "{}"@,
            ";"@,
        ],
        env: Seq::empty(),
        streams: Streams::Inherit,
    }
}

/// Builds the permission pass `pass` over `dir`.
pub fn fix_permissions(dir: &str, pass: PermissionPass) -> (res: Invocation)
    ensures
        res@ == permission_invocation_view(dir@, pass),
{
    let mut args: Vec<String> = Vec::new();
    args.push(String::from_str("find"));
    args.push(String::from_str(dir));
    match pass {
        PermissionPass::Directories => {
            args.push(String::from_str("-type"));
            args.push(String::from_str("d"));
        },
        PermissionPass::Files => {
            args.push(String::from_str("-type"));
            args.push(String::from_str("f"));
        },
        PermissionPass::Binaries => {
            args.push(String::from_str("-name"));
            args.push(String::from_str("*.bin"));
        },
    }
    args.push(String::from_str("-exec"));
    args.push(String::from_str("chmod"));
    match pass {
        PermissionPass::Files => {
            args.push(String::from_str("644"));
        },
        _ => {
            args.push(String::from_str("755"));
        },
    }
    args.push(String::from_str("{}"));
    args.push(String::from_str(";"));
    let env: Vec<(String, String)> = Vec::new();
    let res = Invocation { program: String::from_str("sudo"), args, env, streams: Streams::Inherit };
    proof {
        assert(res@.args =~= permission_invocation_view(dir@, pass).args);
        assert(res@.env =~= permission_invocation_view(dir@, pass).env);
    }
    res
}

/// Where the synchronizer stands between two moves.
#[derive(Debug, PartialEq, Eq)]
pub enum SyncPhase {
    /// Asked whether the source exists.
    SourceProbe,
    /// Asked whether the target exists.
    TargetProbe,
    /// The backup directory is being created.
    BackupCreate { backup_dir: String },
    /// Asked for what the target holds.
    TargetScan { backup_dir: String },
    /// The target is being copied into the backup directory.
    BackingUp,
    /// The target directory is being created.
    TargetCreate,
    /// The source is being mirrored into the target.
    Mirroring,
    /// The given permission pass is running.
    Fixing(PermissionPass),
}

/// The phase of a synchronizer as the contracts see it.
pub enum SyncPhaseView {
    SourceProbe,
    TargetProbe,
    BackupCreate { backup_dir: Seq<char> },
    TargetScan { backup_dir: Seq<char> },
    BackingUp,
    TargetCreate,
    Mirroring,
    Fixing(PermissionPass),
}

impl View for SyncPhase {
    type V = SyncPhaseView;

    open spec fn view(&self) -> SyncPhaseView {
        match self {
            SyncPhase::SourceProbe => SyncPhaseView::SourceProbe,
            SyncPhase::TargetProbe => SyncPhaseView::TargetProbe,
            SyncPhase::BackupCreate { backup_dir } => SyncPhaseView::BackupCreate {
                backup_dir: backup_dir@,
            },
            SyncPhase::TargetScan { backup_dir } => SyncPhaseView::TargetScan {
                backup_dir: backup_dir@,
            },
            SyncPhase::BackingUp => SyncPhaseView::BackingUp,
            SyncPhase::TargetCreate => SyncPhaseView::TargetCreate,
            SyncPhase::Mirroring => SyncPhaseView::Mirroring,
            SyncPhase::Fixing(pass) => SyncPhaseView::Fixing(*pass),
        }
    }
}

/// Makes a system directory equal to a configuration directory, after
/// saving what the system directory held.
#[derive(Debug, PartialEq, Eq)]
pub struct SystemDirectorySynchronizer {
    source: String,
    target: String,
    backup_prefix: String,
    phase: SyncPhase,
}

/// A synchronizer as the contracts see it.
pub struct SynchronizerView {
    pub source: Seq<char>,
    pub target: Seq<char>,
    pub backup_prefix: Seq<char>,
    pub phase: SyncPhaseView,
}

impl View for SystemDirectorySynchronizer {
    type V = SynchronizerView;

    closed spec fn view(&self) -> SynchronizerView {
        SynchronizerView {
            source: self.source@,
            target: self.target@,
            backup_prefix: self.backup_prefix@,
            phase: self.phase@,
        }
    }
}

/// A move of the synchronizer as the contracts see it.
pub type SyncTurnView = TurnView<SynchronizerView, ()>;

/// The synchronizer `state` moved to `phase`, asking for the given step.
pub open spec fn sync_ask(state: SynchronizerView, phase: SyncPhaseView, request: RequestView) -> SyncTurnView {
    TurnView::Ask(
        SynchronizerView {
            source: state.source,
            target: state.target,
            backup_prefix: state.backup_prefix,
            phase,
        },
        request,
    )
}

/// The synchronizer giving up with `error`.
pub open spec fn sync_fail(error: InstallErrorView) -> SyncTurnView {
    TurnView::Done(Err(error))
}

/// The first move of a synchronizer.
pub open spec fn sync_start(source: Seq<char>, target: Seq<char>, backup_prefix: Seq<char>) -> SyncTurnView {
    TurnView::Ask(
        SynchronizerView { source, target, backup_prefix, phase: SyncPhaseView::SourceProbe },
        RequestView::PathExists(source),
    )
}

/// The result of a move on an answer that is no answer to the step asked
/// for.
pub open spec fn sync_stray(response: ResponseView) -> SyncTurnView {
    match response {
        ResponseView::Unable(detail) => sync_fail(InstallErrorView::StepUnable { detail }),
        _ => sync_fail(InstallErrorView::UnexpectedResponse),
    }
}

/// The move that asks for the target directory to be created.
pub open spec fn sync_create_target(state: SynchronizerView) -> SyncTurnView {
    sync_ask(
        state,
        SyncPhaseView::TargetCreate,
        RequestView::Run(create_dir_invocation_view(state.target)),
    )
}

/// The move that asks for the permission pass `pass` over the target.
pub open spec fn sync_fix(state: SynchronizerView, pass: PermissionPass) -> SyncTurnView {
    sync_ask(
        state,
        SyncPhaseView::Fixing(pass),
        RequestView::Run(permission_invocation_view(state.target, pass)),
    )
}

/// The move once the permission pass `pass` has ended.
pub open spec fn sync_after_fix(state: SynchronizerView, pass: PermissionPass, success: bool) -> SyncTurnView {
    if !success && pass.failure() is Some {
        sync_fail(pass.failure()->0)
    } else {
        match pass.following() {
            Some(next) => sync_fix(state, next),
            None => TurnView::Done(Ok(())),
        }
    }
}

/// The move of a synchronizer on an answer. `stamp` is the time read for
/// the name of the backup directory; it matters only where the target
/// was just found to exist.
pub open spec fn sync_advance(state: SynchronizerView, response: ResponseView, stamp: Seq<char>) -> SyncTurnView {
    match state.phase {
        SyncPhaseView::SourceProbe => match response {
            ResponseView::Exists(present) => if present {
                sync_ask(state, SyncPhaseView::TargetProbe, RequestView::PathExists(state.target))
            } else {
                sync_fail(InstallErrorView::SourceNotFound { config_dir: state.source })
            },
            _ => sync_stray(response),
        },
        SyncPhaseView::TargetProbe => match response {
            ResponseView::Exists(present) => if present {
                let backup_dir = backup_dir_text(state.backup_prefix, stamp);
                sync_ask(
                    state,
                    SyncPhaseView::BackupCreate { backup_dir },
                    RequestView::Run(create_dir_invocation_view(backup_dir)),
                )
            } else {
                sync_create_target(state)
            },
            _ => sync_stray(response),
        },
        SyncPhaseView::BackupCreate { backup_dir } => match response {
            ResponseView::Exit { success, .. } => if success {
                sync_ask(
                    state,
                    SyncPhaseView::TargetScan { backup_dir },
                    RequestView::ListDir(state.target),
                )
            } else {
                sync_fail(InstallErrorView::BackupDirCreateFailed)
            },
            _ => sync_stray(response),
        },
        SyncPhaseView::TargetScan { backup_dir } => match response {
            ResponseView::Entries(held) => if held.len() > 0 {
                sync_ask(
                    state,
                    SyncPhaseView::BackingUp,
                    RequestView::Run(mirror_invocation_view(state.target, backup_dir)),
                )
            } else {
                sync_create_target(state)
            },
            _ => sync_stray(response),
        },
        SyncPhaseView::BackingUp => match response {
            ResponseView::Exit { success, .. } => if success {
                sync_create_target(state)
            } else {
                sync_fail(InstallErrorView::BackupFailed)
            },
            _ => sync_stray(response),
        },
        SyncPhaseView::TargetCreate => match response {
            ResponseView::Exit { success, .. } => if success {
                sync_ask(
                    state,
                    SyncPhaseView::Mirroring,
                    RequestView::Run(mirror_invocation_view(state.source, state.target)),
                )
            } else {
                sync_fail(InstallErrorView::TargetDirCreateFailed)
            },
            _ => sync_stray(response),
        },
        SyncPhaseView::Mirroring => match response {
            ResponseView::Exit { success, stdout, stderr } => if success {
                sync_fix(state, PermissionPass::Directories)
            } else {
                sync_fail(InstallErrorView::SyncFailed { stdout, stderr })
            },
            _ => sync_stray(response),
        },
        SyncPhaseView::Fixing(pass) => match response {
            ResponseView::Exit { success, .. } => sync_after_fix(state, pass, success),
            _ => sync_stray(response),
        },
    }
}

impl SystemDirectorySynchronizer {
    fn stray(response: Response) -> (turn: Turn<SystemDirectorySynchronizer, ()>)
        ensures
            turn@ == sync_stray(response@),
    {
        match response {
            Response::Unable(detail) => Turn::Done(Err(InstallError::StepUnable { detail })),
            _ => Turn::Done(Err(InstallError::UnexpectedResponse)),
        }
    }

    fn create_target(self) -> (turn: Turn<SystemDirectorySynchronizer, ()>)
        ensures
            turn@ == sync_create_target(self@),
    {
        let request = Request::Run(create_dir_with_sudo(self.target.as_str()));
        Turn::Ask(
            SystemDirectorySynchronizer {
                source: self.source,
                target: self.target,
                backup_prefix: self.backup_prefix,
                phase: SyncPhase::TargetCreate,
            },
            request,
        )
    }

    fn fix(self, pass: PermissionPass) -> (turn: Turn<SystemDirectorySynchronizer, ()>)
        ensures
            turn@ == sync_fix(self@, pass),
    {
        let request = Request::Run(fix_permissions(self.target.as_str(), pass));
        Turn::Ask(
            SystemDirectorySynchronizer {
                source: self.source,
                target: self.target,
                backup_prefix: self.backup_prefix,
                phase: SyncPhase::Fixing(pass),
            },
            request,
        )
    }

    fn after_fix(self, pass: PermissionPass, success: bool) -> (turn: Turn<
        SystemDirectorySynchronizer,
        (),
    >)
        ensures
            turn@ == sync_after_fix(self@, pass, success),
    {
        match pass {
            PermissionPass::Directories => {
                if success {
                    self.fix(PermissionPass::Files)
                } else {
                    Turn::Done(Err(InstallError::PermissionFixFailed(PermissionScope::Directories)))
                }
            },
            PermissionPass::Files => {
                if success {
                    self.fix(PermissionPass::Binaries)
                } else {
                    Turn::Done(Err(InstallError::PermissionFixFailed(PermissionScope::Files)))
                }
            },
            PermissionPass::Binaries => Turn::Done(Ok(())),
        }
    }

    /// Begins by asking whether the source exists.
    pub fn start(source: String, target: String, backup_prefix: String) -> (turn: Turn<
        SystemDirectorySynchronizer,
        (),
    >)
        ensures
            turn@ == sync_start(source@, target@, backup_prefix@),
    {
        let request = Request::PathExists(source.clone());
        Turn::Ask(
            SystemDirectorySynchronizer {
                source,
                target,
                backup_prefix,
                phase: SyncPhase::SourceProbe,
            },
            request,
        )
    }

    /// Takes the answer to the request of the previous move, with the
    /// time to name a backup directory by.
    pub fn advance_at(self, response: Response, stamp: &str) -> (turn: Turn<
        SystemDirectorySynchronizer,
        (),
    >)
        ensures
            turn@ == sync_advance(self@, response@, stamp@),
    {
        let SystemDirectorySynchronizer { source, target, backup_prefix, phase } = self;
        match phase {
            SyncPhase::SourceProbe => match response {
                Response::Exists(present) => {
                    if present {
                        let request = Request::PathExists(target.clone());
                        Turn::Ask(
                            SystemDirectorySynchronizer {
                                source,
                                target,
                                backup_prefix,
                                phase: SyncPhase::TargetProbe,
                            },
                            request,
                        )
                    } else {
                        Turn::Done(Err(InstallError::SourceNotFound { config_dir: source }))
                    }
                },
                other => Self::stray(other),
            },
            SyncPhase::TargetProbe => match response {
                Response::Exists(present) => {
                    if present {
                        let backup_dir = backup_dir_name(backup_prefix.as_str(), stamp);
                        let request = Request::Run(create_dir_with_sudo(backup_dir.as_str()));
                        Turn::Ask(
                            SystemDirectorySynchronizer {
                                source,
                                target,
                                backup_prefix,
                                phase: SyncPhase::BackupCreate { backup_dir },
                            },
                            request,
                        )
                    } else {
                        (SystemDirectorySynchronizer {
                            source,
                            target,
                            backup_prefix,
                            phase: SyncPhase::TargetProbe,
                        }).create_target()
                    }
                },
                other => Self::stray(other),
            },
            SyncPhase::BackupCreate { backup_dir } => match response {
                Response::Exit { success, stdout: _, stderr: _ } => {
                    if success {
                        let request = Request::ListDir(target.clone());
                        Turn::Ask(
                            SystemDirectorySynchronizer {
                                source,
                                target,
                                backup_prefix,
                                phase: SyncPhase::TargetScan { backup_dir },
                            },
                            request,
                        )
                    } else {
                        Turn::Done(Err(InstallError::BackupDirCreateFailed))
                    }
                },
                other => Self::stray(other),
            },
            SyncPhase::TargetScan { backup_dir } => match response {
                Response::Entries(held) => {
                    if held.len() > 0 {
                        let request = Request::Run(
                            run_rsync_with_sudo(target.as_str(), backup_dir.as_str()),
                        );
                        Turn::Ask(
                            SystemDirectorySynchronizer {
                                source,
                                target,
                                backup_prefix,
                                phase: SyncPhase::BackingUp,
                            },
                            request,
                        )
                    } else {
                        (SystemDirectorySynchronizer {
                            source,
                            target,
                            backup_prefix,
                            phase: SyncPhase::TargetScan { backup_dir },
                        }).create_target()
                    }
                },
                other => Self::stray(other),
            },
            SyncPhase::BackingUp => match response {
                Response::Exit { success, stdout: _, stderr: _ } => {
                    if success {
                        (SystemDirectorySynchronizer {
                            source,
                            target,
                            backup_prefix,
                            phase: SyncPhase::BackingUp,
                        }).create_target()
                    } else {
                        Turn::Done(Err(InstallError::BackupFailed))
                    }
                },
                other => Self::stray(other),
            },
            SyncPhase::TargetCreate => match response {
                Response::Exit { success, stdout: _, stderr: _ } => {
                    if success {
                        let request = Request::Run(
                            run_rsync_with_sudo(source.as_str(), target.as_str()),
                        );
                        Turn::Ask(
                            SystemDirectorySynchronizer {
                                source,
                                target,
                                backup_prefix,
                                phase: SyncPhase::Mirroring,
                            },
                            request,
                        )
                    } else {
                        Turn::Done(Err(InstallError::TargetDirCreateFailed))
                    }
                },
                other => Self::stray(other),
            },
            SyncPhase::Mirroring => match response {
                Response::Exit { success, stdout, stderr } => {
                    if success {
                        (SystemDirectorySynchronizer {
                            source,
                            target,
                            backup_prefix,
                            phase: SyncPhase::Mirroring,
                        }).fix(PermissionPass::Directories)
                    } else {
                        Turn::Done(Err(InstallError::SyncFailed { stdout, stderr }))
                    }
                },
                other => Self::stray(other),
            },
            SyncPhase::Fixing(pass) => match response {
                Response::Exit { success, stdout: _, stderr: _ } => {
                    (SystemDirectorySynchronizer {
                        source,
                        target,
                        backup_prefix,
                        phase: SyncPhase::Fixing(pass),
                    }).after_fix(pass, success)
                },
                other => Self::stray(other),
            },
        }
    }

    /// Takes the answer to the request of the previous move. Where the
    /// answer says that the target exists, the backup directory is named
    /// after the local time of this call.
    pub fn advance(self, response: Response) -> (turn: Turn<SystemDirectorySynchronizer, ()>)
        ensures
            exists|stamp: Seq<char>|
                stamp_shape(stamp) && turn@ == #[trigger] sync_advance(self@, response@, stamp),
    {
        let ghost before = self@;
        match self.phase {
            SyncPhase::TargetProbe => {
                let stamp = local_timestamp();
                let turn = self.advance_at(response, stamp.as_str());
                assert(stamp_shape(stamp@) && turn@ == sync_advance(before, response@, stamp@));
                turn
            },
            _ => {
                let turn = self.advance_at(response, "");
                proof {
                    let any = "19700101_000000"@;
                    lemma_stamp_shape_is_met();
                    law_stamp_matters_at_target_probe_only(before, response@, ""@, any);
                    assert(stamp_shape(any) && turn@ == sync_advance(before, response@, any));
                }
                turn
            },
        }
    }
}

/// The time read matters to no move but the one that finds the target
/// to exist.
pub proof fn law_stamp_matters_at_target_probe_only(
    state: SynchronizerView,
    response: ResponseView,
    one: Seq<char>,
    other: Seq<char>,
)
    requires
        !(state.phase is TargetProbe && response == ResponseView::Exists(true)),
    ensures
        sync_advance(state, response, one) == sync_advance(state, response, other),
{
}

} // verus!
