use rime_install::command::{Invocation, Request, Response, Streams};
use rime_install::defaults::{known_package_managers, required_dependencies};
use rime_install::dependencies::{
    install_invocation, lookup_invocation, missing_dependencies, DependencyInstaller,
    PackageManager,
};
use rime_install::error::InstallError;
use rime_install::text::join;
use rime_install::turn::Turn;

fn names(list: &[&str]) -> Vec<String> {
    list.iter().map(|s| s.to_string()).collect()
}

fn exit(success: bool) -> Response {
    Response::Exit { success, stdout: String::new(), stderr: String::new() }
}

fn lookup(name: &str) -> Request {
    Request::Run(Invocation {
        program: "which".to_string(),
        args: names(&[name]),
        env: vec![],
        streams: Streams::Discard,
    })
}

fn shell(command: &str) -> Request {
    Request::Run(Invocation {
        program: "sh".to_string(),
        args: names(&["-c", command]),
        env: vec![],
        streams: Streams::Inherit,
    })
}

/// Feeds the answers one by one and collects every request asked,
/// the pending one included.
fn drive_deps(
    first: Turn<DependencyInstaller, ()>,
    answers: Vec<Response>,
) -> (Vec<Request>, Option<Result<(), InstallError>>) {
    let mut asked = Vec::new();
    let mut turn = first;
    let mut answers = answers.into_iter();
    loop {
        match turn {
            Turn::Done(result) => return (asked, Some(result)),
            Turn::Ask(machine, request) => {
                asked.push(request);
                match answers.next() {
                    Some(answer) => turn = machine.advance(answer),
                    None => return (asked, None),
                }
            }
        }
    }
}

#[test]
fn join_puts_separator_between_neighbours() {
    assert_eq!(join(&names(&[]), " "), "");
    assert_eq!(join(&names(&["curl"]), " "), "curl");
    assert_eq!(join(&names(&["curl", "7z", "rsync"]), " "), "curl 7z rsync");
    assert_eq!(join(&names(&["a", "", "b"]), ", "), "a, , b");
}

#[test]
fn binary_path_is_under_usr_bin() {
    let pm = PackageManager::new("pacman", "sudo pacman -Sy", "-S --noconfirm");
    assert_eq!(pm.name, "pacman");
    assert_eq!(pm.update_cmd, "sudo pacman -Sy");
    assert_eq!(pm.install_args, "-S --noconfirm");
    assert_eq!(pm.binary_path(), "/usr/bin/pacman");
}

#[test]
fn install_command_chains_update_and_install() {
    let pm = PackageManager::new("apt", "sudo apt update", "install -y");
    assert_eq!(
        pm.install_command(&names(&["curl", "rsync"])),
        "sudo apt update && sudo apt install -y curl rsync"
    );
    let pm = PackageManager::new("pacman", "sudo pacman -Sy", "-S --noconfirm");
    assert_eq!(
        pm.install_command(&names(&["7z"])),
        "sudo pacman -Sy && sudo pacman -S --noconfirm 7z"
    );
}

#[test]
fn missing_dependencies_keeps_list_order() {
    let deps = names(&["curl", "7z", "rsync"]);
    assert_eq!(missing_dependencies(&deps, &vec![true, true, true]), names(&[]));
    assert_eq!(missing_dependencies(&deps, &vec![false, true, false]), names(&["curl", "rsync"]));
    assert_eq!(missing_dependencies(&deps, &vec![false, false, false]), deps);
    assert_eq!(missing_dependencies(&deps, &vec![true, false, true]), names(&["7z"]));
}

#[test]
fn missing_dependencies_counts_unanswered_as_missing() {
    let deps = names(&["curl", "7z", "rsync"]);
    assert_eq!(missing_dependencies(&deps, &vec![true]), names(&["7z", "rsync"]));
    assert_eq!(missing_dependencies(&deps, &vec![]), deps);
    assert_eq!(missing_dependencies(&deps, &vec![true, true, true, false]), names(&[]));
    assert_eq!(missing_dependencies(&names(&[]), &vec![false]), names(&[]));
}

#[test]
fn lookup_invocation_discards_output() {
    let inv = lookup_invocation("rsync");
    assert_eq!(Request::Run(inv), lookup("rsync"));
}

#[test]
fn install_invocation_goes_through_shell_with_inherited_streams() {
    let inv = install_invocation("sudo apt update && sudo apt install -y curl");
    assert_eq!(inv.program, "sh");
    assert_eq!(inv.args, names(&["-c", "sudo apt update && sudo apt install -y curl"]));
    assert!(inv.env.is_empty());
    assert_eq!(inv.streams, Streams::Inherit);
}

#[test]
fn all_dependencies_found_runs_no_install() {
    let first = DependencyInstaller::start(known_package_managers(), required_dependencies());
    let (asked, result) = drive_deps(first, vec![exit(true), exit(true), exit(true)]);
    assert_eq!(asked, vec![lookup("curl"), lookup("7z"), lookup("rsync")]);
    assert_eq!(result, Some(Ok(())));
}

#[test]
fn no_dependencies_is_done_at_once() {
    let first = DependencyInstaller::start(known_package_managers(), vec![]);
    assert_eq!(first, Turn::Done(Ok(())));
}

#[test]
fn resolver_with_one_candidate_present() {
    let first = DependencyInstaller::start(known_package_managers(), required_dependencies());
    let answers = vec![
        exit(false),
        exit(true),
        exit(false),
        Response::Exists(false),
        Response::Exists(true),
    ];
    let (asked, result) = drive_deps(first, answers);
    assert_eq!(
        asked,
        vec![
            lookup("curl"),
            lookup("7z"),
            lookup("rsync"),
            Request::PathExists("/usr/bin/pacman".to_string()),
            Request::PathExists("/usr/bin/apt".to_string()),
            shell("sudo apt update && sudo apt install -y curl rsync"),
        ]
    );
    assert_eq!(result, None);
}

#[test]
fn resolver_with_several_candidates_takes_the_first() {
    // pacman and dnf both exist: the probe of pacman settles it, apt and
    // dnf are never asked about.
    let first = DependencyInstaller::start(known_package_managers(), required_dependencies());
    let answers = vec![exit(true), exit(false), exit(true), Response::Exists(true), exit(true)];
    let (asked, result) = drive_deps(first, answers);
    assert_eq!(
        asked,
        vec![
            lookup("curl"),
            lookup("7z"),
            lookup("rsync"),
            Request::PathExists("/usr/bin/pacman".to_string()),
            shell("sudo pacman -Sy && sudo pacman -S --noconfirm 7z"),
        ]
    );
    assert_eq!(result, Some(Ok(())));
}

#[test]
fn resolver_with_last_candidate_only() {
    let first = DependencyInstaller::start(known_package_managers(), required_dependencies());
    let answers = vec![
        exit(false),
        exit(false),
        exit(false),
        Response::Exists(false),
        Response::Exists(false),
        Response::Exists(true),
        exit(true),
    ];
    let (asked, result) = drive_deps(first, answers);
    assert_eq!(
        asked[6],
        shell("sudo dnf check-update && sudo dnf install -y curl 7z rsync")
    );
    assert_eq!(asked.len(), 7);
    assert_eq!(result, Some(Ok(())));
}

#[test]
fn resolver_with_no_candidate_fails_with_missing_names() {
    let first = DependencyInstaller::start(known_package_managers(), required_dependencies());
    let answers = vec![
        exit(true),
        exit(false),
        exit(false),
        Response::Exists(false),
        Response::Exists(false),
        Response::Exists(false),
    ];
    let (asked, result) = drive_deps(first, answers);
    assert_eq!(asked.len(), 6);
    assert_eq!(
        result,
        Some(Err(InstallError::NoPackageManagerFound { missing: names(&["7z", "rsync"]) }))
    );
}

#[test]
fn no_known_manager_at_all_fails_without_probing() {
    let first = DependencyInstaller::start(vec![], names(&["curl"]));
    let (asked, result) = drive_deps(first, vec![exit(false)]);
    assert_eq!(asked, vec![lookup("curl")]);
    assert_eq!(
        result,
        Some(Err(InstallError::NoPackageManagerFound { missing: names(&["curl"]) }))
    );
}

#[test]
fn failed_install_command_is_reported_with_the_command() {
    let first = DependencyInstaller::start(known_package_managers(), names(&["curl"]));
    let answers = vec![exit(false), Response::Exists(true), exit(false)];
    let (_, result) = drive_deps(first, answers);
    assert_eq!(
        result,
        Some(Err(InstallError::InstallCommandFailed {
            command: "sudo pacman -Sy && sudo pacman -S --noconfirm curl".to_string(),
        }))
    );
}

#[test]
fn lookup_that_cannot_run_counts_as_absent() {
    let first = DependencyInstaller::start(known_package_managers(), names(&["curl", "7z"]));
    let answers = vec![
        Response::Unable("no such file".to_string()),
        exit(true),
        Response::Exists(true),
    ];
    let (asked, result) = drive_deps(first, answers);
    assert_eq!(
        asked,
        vec![
            lookup("curl"),
            lookup("7z"),
            Request::PathExists("/usr/bin/pacman".to_string()),
            shell("sudo pacman -Sy && sudo pacman -S --noconfirm curl"),
        ]
    );
    assert_eq!(result, None);
}

#[test]
fn probe_or_install_that_cannot_run_ends_the_installer() {
    let first = DependencyInstaller::start(known_package_managers(), names(&["curl"]));
    let (_, result) =
        drive_deps(first, vec![exit(false), Response::Unable("no stat".to_string())]);
    assert_eq!(result, Some(Err(InstallError::StepUnable { detail: "no stat".to_string() })));

    let first = DependencyInstaller::start(known_package_managers(), names(&["curl"]));
    let answers =
        vec![exit(false), Response::Exists(true), Response::Unable("no shell".to_string())];
    let (_, result) = drive_deps(first, answers);
    assert_eq!(result, Some(Err(InstallError::StepUnable { detail: "no shell".to_string() })));
}

#[test]
fn answer_of_the_wrong_kind_is_refused() {
    let first = DependencyInstaller::start(known_package_managers(), names(&["curl"]));
    let (_, result) = drive_deps(first, vec![Response::Exists(true)]);
    assert_eq!(result, Some(Err(InstallError::UnexpectedResponse)));

    let first = DependencyInstaller::start(known_package_managers(), names(&["curl"]));
    let (_, result) = drive_deps(first, vec![exit(false), Response::Done]);
    assert_eq!(result, Some(Err(InstallError::UnexpectedResponse)));

    let first = DependencyInstaller::start(known_package_managers(), names(&["curl"]));
    let (_, result) =
        drive_deps(first, vec![exit(false), Response::Exists(true), Response::Entries(vec![])]);
    assert_eq!(result, Some(Err(InstallError::UnexpectedResponse)));
}

#[test]
fn known_package_managers_are_pacman_apt_dnf() {
    let list = known_package_managers();
    assert_eq!(
        list,
        vec![
            PackageManager::new("pacman", "sudo pacman -Sy", "-S --noconfirm"),
            PackageManager::new("apt", "sudo apt update", "install -y"),
            PackageManager::new("dnf", "sudo dnf check-update", "install -y"),
        ]
    );
    assert_eq!(required_dependencies(), names(&["curl", "7z", "rsync"]));
}
