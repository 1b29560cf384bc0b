//! Dependency checking and installation: which required executables are
//! missing, which package manager serves, and the one command that
//! installs what is missing.

use vstd::prelude::*;
use crate::command::{
    Invocation, InvocationView, Request, RequestView, Response, ResponseView, Streams,
};
use crate::error::{InstallError, InstallErrorView};
use crate::text::{join, joined, texts};
use crate::turn::{Turn, TurnView};

verus! {

/// A system package manager: its name, the command that refreshes its
/// index, and the arguments that make it install packages unattended.
/// Its executable is expected at `/usr/bin/<name>`.
#[derive(Clone, Debug, PartialEq, Eq)]
pub struct PackageManager {
    pub name: String,
    pub update_cmd: String,
    pub install_args: String,
}

/// A package manager as the contracts see it.
pub struct PackageManagerView {
    pub name: Seq<char>,
    pub update_cmd: Seq<char>,
    pub install_args: Seq<char>,
}

impl View for PackageManager {
    type V = PackageManagerView;

    open spec fn view(&self) -> PackageManagerView {
        PackageManagerView {
            name: self.name@,
            update_cmd: self.update_cmd@,
            install_args: self.install_args@,
        }
    }
}

/// The views of a list of package managers, in order of preference.
pub open spec fn managers(list: Seq<PackageManager>) -> Seq<PackageManagerView> {
    Seq::new(list.len(), |i: int| list[i]@)
}

/// Where the executable of a package manager is looked for.
pub open spec fn binary_path_text(manager: PackageManagerView) -> Seq<char> {
    "/usr/bin/"@ + manager.name
}

/// The composite shell command: refresh the index and, only if that
/// succeeded, install every missing dependency with elevated privilege.
pub open spec fn install_command_text(
    manager: PackageManagerView,
    missing: Seq<Seq<char>>,
) -> Seq<char> {
    manager.update_cmd + " && sudo "@ + manager.name + " "@ + manager.install_args + " "@
        + joined(missing, " "@)
}

impl PackageManager {
    /// Describes a package manager.
    pub fn new(name: &str, update_cmd: &str, install_args: &str) -> (res: PackageManager)
        ensures
            res@ == (PackageManagerView {
                name: name@,
                update_cmd: update_cmd@,
                install_args: install_args@,
            }),
    {
        PackageManager {
            name: String::from_str(name),
            update_cmd: String::from_str(update_cmd),
            install_args: String::from_str(install_args),
        }
    }

    /// The path at which the executable of the manager is looked for.
    pub fn binary_path(&self) -> (res: String)
        ensures
            res@ == binary_path_text(self@),
    {
        let mut path = String::from_str("/usr/bin/");
        path.append(self.name.as_str());
        path
    }

    /// The shell command that refreshes the index and then installs
    /// `missing`.
    pub fn install_command(&self, missing: &Vec<String>) -> (res: String)
        ensures
            res@ == install_command_text(self@, texts(missing@)),
    {
        let mut command = self.update_cmd.clone();
        command.append(" && sudo ");
        command.append(self.name.as_str());
        command.append(" ");
        command.append(self.install_args.as_str());
        command.append(" ");
        let names = join(missing, " ");
        command.append(names.as_str());
        command
    }
}

/// The dependencies that were not found, in the order of `dependencies`.
/// `found[i]` says whether `dependencies[i]` was found; a dependency
/// without a flag counts as not found.
pub open spec fn missing_of(dependencies: Seq<Seq<char>>, found: Seq<bool>) -> Seq<Seq<char>>
    decreases dependencies.len(),
{
    if dependencies.len() == 0 {
        Seq::empty()
    } else {
        let earlier = missing_of(dependencies.drop_last(), found);
        let last = dependencies.len() - 1;
        if last < found.len() && found[last] {
            earlier
        } else {
            earlier.push(dependencies.last())
        }
    }
}

/// Picks the dependencies that the lookups did not find.
pub fn missing_dependencies(dependencies: &Vec<String>, found: &Vec<bool>) -> (res: Vec<String>)
    ensures
        texts(res@) == missing_of(texts(dependencies@), found@),
{
    let mut missing: Vec<String> = Vec::new();
    let ghost names = texts(dependencies@);
    let mut i: usize = 0;
    proof {
        assert(texts(missing@) =~= missing_of(names.take(0), found@));
    }
    while i < dependencies.len()
        invariant
            i <= dependencies.len(),
            names == texts(dependencies@),
            texts(missing@) == missing_of(names.take(i as int), found@),
        decreases dependencies.len() - i,
    {
        proof {
            assert(names.take(i + 1).drop_last() =~= names.take(i as int));
            assert(names.take(i + 1).last() == dependencies@[i as int]@);
        }
        let present = i < found.len() && found[i];
        if !present {
            let ghost before = texts(missing@);
            missing.push(dependencies[i].clone());
            proof {
                assert(texts(missing@) =~= before.push(dependencies@[i as int]@));
            }
        }
        i = i + 1;
    }
    proof {
        assert(names.take(dependencies.len() as int) =~= names);
    }
    missing
}

/// The lookup of one executable on the search path; its exit status alone
/// is the answer.
pub open spec fn lookup_invocation_view(dependency: Seq<char>) -> InvocationView {
    InvocationView {
        program: "which"@,
        args: seq![dependency],
        env: Seq::empty(),
        streams: Streams::Discard,
    }
}

/// Builds the lookup of `dependency` on the search path.
pub fn lookup_invocation(dependency: &str) -> (res: Invocation)
    ensures
        res@ == lookup_invocation_view(dependency@),
{
    let mut args: Vec<String> = Vec::new();
    args.push(String::from_str(dependency));
    let env: Vec<(String, String)> = Vec::new();
    let res = Invocation { program: String::from_str("which"), args, env, streams: Streams::Discard };
    proof {
        assert(res@.args =~= seq![dependency@]);
        assert(res@.env =~= Seq::empty());
    }
    res
}

/// The composite command handed to a shell, with the streams of the
/// installer, so that the user sees the progress and can enter a password.
pub open spec fn install_invocation_view(command: Seq<char>) -> InvocationView {
    InvocationView {
        program: "sh"@,
        args: seq!["-c"@, command],
        env: Seq::empty(),
        streams: Streams::Inherit,
    }
}

/// Builds the run of `command` by a shell.
pub fn install_invocation(command: &str) -> (res: Invocation)
    ensures
        res@ == install_invocation_view(command@),
{
    let mut args: Vec<String> = Vec::new();
    args.push(String::from_str("-c"));
    args.push(String::from_str(command));
    let env: Vec<(String, String)> = Vec::new();
    let res = Invocation { program: String::from_str("sh"), args, env, streams: Streams::Inherit };
    proof {
        assert(res@.args =~= seq!["-c"@, command@]);
        assert(res@.env =~= Seq::empty());
    }
    res
}

/// Where the dependency installer stands between two moves.
#[derive(Debug, PartialEq, Eq)]
pub enum DepsPhase {
    /// The lookups of the first `found.len()` dependencies were answered;
    /// the answer for the next one is awaited.
    Lookup { found: Vec<bool> },
    /// Dependencies are missing; the executables of the managers before
    /// `index` do not exist, and the answer for that of `index` is
    /// awaited.
    Probe { missing: Vec<String>, index: usize },
    /// The install command is running.
    Installing { command: String },
}

/// The phase of a dependency installer as the contracts see it.
pub enum DepsPhaseView {
    Lookup { found: Seq<bool> },
    Probe { missing: Seq<Seq<char>>, index: int },
    Installing { command: Seq<char> },
}

impl View for DepsPhase {
    type V = DepsPhaseView;

    open spec fn view(&self) -> DepsPhaseView {
        match self {
            DepsPhase::Lookup { found } => DepsPhaseView::Lookup { found: found@ },
            DepsPhase::Probe { missing, index } => DepsPhaseView::Probe {
                missing: texts(missing@),
                index: *index as int,
            },
            DepsPhase::Installing { command } => DepsPhaseView::Installing { command: command@ },
        }
    }
}

/// Checks a list of required executables and installs the missing ones
/// through the first package manager that is present.
#[derive(Debug, PartialEq, Eq)]
pub struct DependencyInstaller {
    managers: Vec<PackageManager>,
    dependencies: Vec<String>,
    phase: DepsPhase,
}

/// A dependency installer as the contracts see it.
pub struct DependencyInstallerView {
    pub managers: Seq<PackageManagerView>,
    pub dependencies: Seq<Seq<char>>,
    pub phase: DepsPhaseView,
}

impl View for DependencyInstaller {
    type V = DependencyInstallerView;

    closed spec fn view(&self) -> DependencyInstallerView {
        DependencyInstallerView {
            managers: managers(self.managers@),
            dependencies: texts(self.dependencies@),
            phase: self.phase@,
        }
    }
}

/// A move of the dependency installer as the contracts see it.
pub type DepsTurnView = TurnView<DependencyInstallerView, ()>;

/// The move once `found` holds the answers so far: look up the next
/// dependency; or, all being answered, finish if none is missing, else
/// turn to the package managers.
pub open spec fn deps_after_lookups(
    managers: Seq<PackageManagerView>,
    dependencies: Seq<Seq<char>>,
    found: Seq<bool>,
) -> DepsTurnView {
    if found.len() < dependencies.len() {
        TurnView::Ask(
            DependencyInstallerView {
                managers,
                dependencies,
                phase: DepsPhaseView::Lookup { found },
            },
            RequestView::Run(lookup_invocation_view(dependencies[found.len() as int])),
        )
    } else if missing_of(dependencies, found).len() == 0 {
        TurnView::Done(Ok(()))
    } else {
        deps_probe(managers, dependencies, missing_of(dependencies, found), 0)
    }
}

/// The move once the managers before `index` are known to be absent:
/// probe the executable of the next one, or give up if none is left.
pub open spec fn deps_probe(
    managers: Seq<PackageManagerView>,
    dependencies: Seq<Seq<char>>,
    missing: Seq<Seq<char>>,
    index: int,
) -> DepsTurnView {
    if 0 <= index < managers.len() {
        TurnView::Ask(
            DependencyInstallerView {
                managers,
                dependencies,
                phase: DepsPhaseView::Probe { missing, index },
            },
            RequestView::PathExists(binary_path_text(managers[index])),
        )
    } else {
        TurnView::Done(Err(InstallErrorView::NoPackageManagerFound { missing }))
    }
}

/// What the answer to a lookup says of the executable: it is found
/// where the lookup ran and ended with status zero. A lookup that ended
/// otherwise, or could not be run at all, is no fault: the executable
/// counts as absent. `None` stands for an answer that is none to a
/// lookup.
pub open spec fn lookup_found(response: ResponseView) -> Option<bool> {
    match response {
        ResponseView::Exit { success, .. } => Some(success),
        ResponseView::Unable(_) => Some(false),
        _ => None,
    }
}

/// The first move of a dependency installer.
pub open spec fn deps_start(
    managers: Seq<PackageManagerView>,
    dependencies: Seq<Seq<char>>,
) -> DepsTurnView {
    deps_after_lookups(managers, dependencies, Seq::empty())
}

/// The move of a dependency installer on an answer.
pub open spec fn deps_advance(state: DependencyInstallerView, response: ResponseView) -> DepsTurnView {
    match state.phase {
        DepsPhaseView::Lookup { found } => match lookup_found(response) {
            Some(present) => deps_after_lookups(
                state.managers,
                state.dependencies,
                found.push(present),
            ),
            None => TurnView::Done(Err(InstallErrorView::UnexpectedResponse)),
        },
        DepsPhaseView::Probe { missing, index } => match response {
            ResponseView::Exists(present) => if present {
                let command = install_command_text(state.managers[index], missing);
                TurnView::Ask(
                    DependencyInstallerView {
                        managers: state.managers,
                        dependencies: state.dependencies,
                        phase: DepsPhaseView::Installing { command },
                    },
                    RequestView::Run(install_invocation_view(command)),
                )
            } else {
                deps_probe(state.managers, state.dependencies, missing, index + 1)
            },
            ResponseView::Unable(detail) => TurnView::Done(
                Err(InstallErrorView::StepUnable { detail }),
            ),
            _ => TurnView::Done(Err(InstallErrorView::UnexpectedResponse)),
        },
        DepsPhaseView::Installing { command } => match response {
            ResponseView::Exit { success, .. } => if success {
                TurnView::Done(Ok(()))
            } else {
                TurnView::Done(Err(InstallErrorView::InstallCommandFailed { command }))
            },
            ResponseView::Unable(detail) => TurnView::Done(
                Err(InstallErrorView::StepUnable { detail }),
            ),
            _ => TurnView::Done(Err(InstallErrorView::UnexpectedResponse)),
        },
    }
}

impl DependencyInstaller {
    #[verifier::type_invariant]
    spec fn well_formed(self) -> bool {
        match self.phase {
            DepsPhase::Lookup { found } => found.len() < self.dependencies.len(),
            DepsPhase::Probe { missing, index } => index < self.managers.len(),
            DepsPhase::Installing { command } => true,
        }
    }

    fn after_lookups(
        managers: Vec<PackageManager>,
        dependencies: Vec<String>,
        found: Vec<bool>,
    ) -> (turn: Turn<DependencyInstaller, ()>)
        requires
            found.len() <= dependencies.len(),
        ensures
            turn@ == deps_after_lookups(self::managers(managers@), texts(dependencies@), found@),
    {
        if found.len() < dependencies.len() {
            let invocation = lookup_invocation(dependencies[found.len()].as_str());
            Turn::Ask(
                DependencyInstaller { managers, dependencies, phase: DepsPhase::Lookup { found } },
                Request::Run(invocation),
            )
        } else {
            let missing = missing_dependencies(&dependencies, &found);
            if missing.len() == 0 {
                Turn::Done(Ok(()))
            } else {
                Self::probe(managers, dependencies, missing, 0)
            }
        }
    }

    fn probe(
        managers: Vec<PackageManager>,
        dependencies: Vec<String>,
        missing: Vec<String>,
        index: usize,
    ) -> (turn: Turn<DependencyInstaller, ()>)
        ensures
            turn@ == deps_probe(
                self::managers(managers@),
                texts(dependencies@),
                texts(missing@),
                index as int,
            ),
    {
        if index < managers.len() {
            let path = managers[index].binary_path();
            Turn::Ask(
                DependencyInstaller {
                    managers,
                    dependencies,
                    phase: DepsPhase::Probe { missing, index },
                },
                Request::PathExists(path),
            )
        } else {
            Turn::Done(Err(InstallError::NoPackageManagerFound { missing }))
        }
    }

    /// Begins with the first lookup; with nothing to look up, the work is
    /// done at once.
    pub fn start(managers: Vec<PackageManager>, dependencies: Vec<String>) -> (turn: Turn<
        DependencyInstaller,
        (),
    >)
        ensures
            turn@ == deps_start(self::managers(managers@), texts(dependencies@)),
    {
        Self::after_lookups(managers, dependencies, Vec::new())
    }

    /// Takes the answer to the request of the previous move.
    pub fn advance(self, response: Response) -> (turn: Turn<DependencyInstaller, ()>)
        ensures
            turn@ == deps_advance(self@, response@),
    {
        proof {
            use_type_invariant(&self);
        }
        let DependencyInstaller { managers, dependencies, phase } = self;
        match phase {
            DepsPhase::Lookup { found } => {
                let present = match response {
                    Response::Exit { success, stdout: _, stderr: _ } => Some(success),
                    Response::Unable(_) => Some(false),
                    _ => None,
                };
                match present {
                    Some(present) => {
                        let mut found = found;
                        found.push(present);
                        Self::after_lookups(managers, dependencies, found)
                    },
                    None => Turn::Done(Err(InstallError::UnexpectedResponse)),
                }
            },
            DepsPhase::Probe { missing, index } => match response {
                Response::Exists(present) => {
                    if present {
                        let command = managers[index].install_command(&missing);
                        let invocation = install_invocation(command.as_str());
                        Turn::Ask(
                            DependencyInstaller {
                                managers,
                                dependencies,
                                phase: DepsPhase::Installing { command },
                            },
                            Request::Run(invocation),
                        )
                    } else {
                        Self::probe(managers, dependencies, missing, index + 1)
                    }
                },
                Response::Unable(detail) => Turn::Done(Err(InstallError::StepUnable { detail })),
                _ => Turn::Done(Err(InstallError::UnexpectedResponse)),
            },
            DepsPhase::Installing { command } => match response {
                Response::Exit { success, stdout: _, stderr: _ } => {
                    if success {
                        Turn::Done(Ok(()))
                    } else {
                        Turn::Done(Err(InstallError::InstallCommandFailed { command }))
                    }
                },
                Response::Unable(detail) => Turn::Done(Err(InstallError::StepUnable { detail })),
                _ => Turn::Done(Err(InstallError::UnexpectedResponse)),
            },
        }
    }
}


} // verus!
