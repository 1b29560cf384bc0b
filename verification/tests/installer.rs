use rime_install::command::{DirEntry, Invocation, Request, Response, Streams};
use rime_install::defaults::{known_package_managers, required_dependencies, standard_locations};
use rime_install::error::InstallError;
use rime_install::installer::{Installer, Locations};

const ARCHIVE: &str = "./pkg.zip";
const WHEN: &str = "20250607_080910";

fn list(items: &[&str]) -> Vec<String> {
    items.iter().map(|s| s.to_string()).collect()
}

fn run(program: &str, args: &[&str], env: &[(&str, &str)], streams: Streams) -> Request {
    Request::Run(Invocation {
        program: program.to_string(),
        args: list(args),
        env: env.iter().map(|(k, v)| (k.to_string(), v.to_string())).collect(),
        streams,
    })
}

fn which(name: &str) -> Request {
    run("which", &[name], &[], Streams::Discard)
}

fn unpack() -> Request {
    run(
        "7z",
        &["x", "-y", "-o./extracted", "-bso0", "-bse0", ARCHIVE],
        &[("LANG", "C.UTF-8")],
        Streams::Capture,
    )
}

fn copy(source: &str, dest: &str) -> Request {
    let from = format!("{}/", source);
    let to = format!("{}/", dest);
    run(
        "sudo",
        &["rsync", "-a", "--iconv=UTF-8,UTF-8", "--delete", &from, &to],
        &[("LANG", "zh_CN.UTF-8"), ("LC_ALL", "zh_CN.UTF-8")],
        Streams::Capture,
    )
}

fn elevated(args: &[&str]) -> Request {
    run("sudo", args, &[], Streams::Inherit)
}

fn fine() -> Response {
    Response::Exit { success: true, stdout: String::new(), stderr: String::new() }
}

fn bad() -> Response {
    Response::Exit { success: false, stdout: String::new(), stderr: "boom".to_string() }
}

fn item(path: &str, is_dir: bool) -> DirEntry {
    DirEntry { path: path.to_string(), is_dir }
}

fn install(answers: Vec<Response>) -> Vec<Request> {
    let (mut installer, first) = Installer::start(
        known_package_managers(),
        required_dependencies(),
        standard_locations(Some(ARCHIVE)),
    );
    let mut asked = vec![first];
    for answer in answers {
        let (next, request) = installer.advance_at(answer, WHEN);
        installer = next;
        asked.push(request);
    }
    asked
}

#[test]
fn standard_locations_are_fixed() {
    assert_eq!(
        standard_locations(Some("./a.zip")),
        Locations {
            archive: Some("./a.zip".to_string()),
            scratch_dir: "./extracted".to_string(),
            target_dir: "/usr/share/rime-data".to_string(),
            backup_prefix: "/usr/share/rime-backup".to_string(),
        }
    );
    assert_eq!(standard_locations(None).archive, None);
}

#[test]
fn end_to_end_into_absent_target() {
    // The archive holds pkg/a.txt and pkg/sub/b.bin; the target does not
    // exist yet.
    let answers = vec![
        fine(),
        fine(),
        fine(),
        Response::Exists(true),
        Response::Entries(vec![]),
        fine(),
        Response::Entries(vec![item("./extracted/pkg", true)]),
        Response::Exists(true),
        Response::Exists(false),
        fine(),
        fine(),
        fine(),
        fine(),
        fine(),
    ];
    let asked = install(answers);
    let target = "/usr/share/rime-data";
    assert_eq!(
        asked,
        vec![
            which("curl"),
            which("7z"),
            which("rsync"),
            Request::PathExists("./extracted".to_string()),
            Request::ListDir("./extracted".to_string()),
            unpack(),
            Request::ListDir("./extracted".to_string()),
            Request::PathExists("./extracted/pkg".to_string()),
            Request::PathExists(target.to_string()),
            elevated(&["mkdir", "-p", target]),
            copy("./extracted/pkg", target),
            elevated(&["find", target, "-type", "d", "-exec", "chmod", "755", "{}", ";"]),
            elevated(&["find", target, "-type", "f", "-exec", "chmod", "644", "{}", ";"]),
            elevated(&["find", target, "-name", "*.bin", "-exec", "chmod", "755", "{}", ";"]),
            Request::Finished,
        ]
    );
    // No backup directory was asked for.
    assert!(asked.iter().all(|request| match request {
        Request::Run(invocation) =>
            invocation.args.iter().all(|arg| !arg.contains("rime-backup")),
        _ => true,
    }));
}

#[test]
fn end_to_end_over_existing_target() {
    // The target holds old.txt; the archive holds only new.txt, flat.
    let answers = vec![
        fine(),
        fine(),
        fine(),
        Response::Exists(true),
        Response::Entries(vec![item("./extracted/stale", false)]),
        Response::Done,
        fine(),
        Response::Entries(vec![item("./extracted/new.txt", false)]),
        Response::Exists(true),
        Response::Exists(true),
        fine(),
        Response::Entries(vec![item("/usr/share/rime-data/old.txt", false)]),
        fine(),
        fine(),
        fine(),
        fine(),
        fine(),
        bad(),
    ];
    let asked = install(answers);
    let target = "/usr/share/rime-data";
    let backup = "/usr/share/rime-backup-20250607_080910";
    assert_eq!(
        asked,
        vec![
            which("curl"),
            which("7z"),
            which("rsync"),
            Request::PathExists("./extracted".to_string()),
            Request::ListDir("./extracted".to_string()),
            Request::RemoveFile("./extracted/stale".to_string()),
            unpack(),
            Request::ListDir("./extracted".to_string()),
            Request::PathExists("./extracted".to_string()),
            Request::PathExists(target.to_string()),
            elevated(&["mkdir", "-p", backup]),
            Request::ListDir(target.to_string()),
            copy(target, backup),
            elevated(&["mkdir", "-p", target]),
            copy("./extracted", target),
            elevated(&["find", target, "-type", "d", "-exec", "chmod", "755", "{}", ";"]),
            elevated(&["find", target, "-type", "f", "-exec", "chmod", "644", "{}", ";"]),
            elevated(&["find", target, "-name", "*.bin", "-exec", "chmod", "755", "{}", ";"]),
            Request::Finished,
        ]
    );
}

#[test]
fn installs_missing_dependencies_before_extracting() {
    let answers = vec![
        fine(),
        bad(),
        fine(),
        Response::Exists(false),
        Response::Exists(true),
        fine(),
    ];
    let asked = install(answers);
    assert_eq!(
        asked[3..],
        [
            Request::PathExists("/usr/bin/pacman".to_string()),
            Request::PathExists("/usr/bin/apt".to_string()),
            run("sh", &["-c", "sudo apt update && sudo apt install -y 7z"], &[], Streams::Inherit),
            Request::PathExists("./extracted".to_string()),
        ]
    );
}

#[test]
fn failed_dependency_install_stops_the_installation() {
    let answers = vec![bad(), fine(), fine(), Response::Exists(true), bad()];
    let asked = install(answers);
    assert_eq!(
        asked.last(),
        Some(&Request::Failed(InstallError::InstallCommandFailed {
            command: "sudo pacman -Sy && sudo pacman -S --noconfirm curl".to_string(),
        }))
    );
}

#[test]
fn failed_extraction_is_an_acquisition_failure() {
    let answers = vec![fine(), fine(), fine(), Response::Exists(true), Response::Entries(vec![]), bad()];
    let asked = install(answers);
    assert_eq!(asked.last(), Some(&Request::Failed(InstallError::ConfigAcquisitionFailed)));
}

#[test]
fn empty_extraction_is_an_acquisition_failure() {
    let answers = vec![
        fine(),
        fine(),
        fine(),
        Response::Exists(true),
        Response::Entries(vec![]),
        fine(),
        Response::Entries(vec![]),
    ];
    let asked = install(answers);
    assert_eq!(asked.last(), Some(&Request::Failed(InstallError::ConfigAcquisitionFailed)));
}

#[test]
fn no_archive_is_an_acquisition_failure() {
    let (installer, first) =
        Installer::start(known_package_managers(), vec![], standard_locations(None));
    assert_eq!(first, Request::Failed(InstallError::ConfigAcquisitionFailed));
    let (_, again) = installer.advance_at(fine(), WHEN);
    assert_eq!(again, Request::Failed(InstallError::UnexpectedResponse));
}

#[test]
fn failed_sync_stops_the_installation() {
    let answers = vec![
        fine(),
        fine(),
        fine(),
        Response::Exists(true),
        Response::Entries(vec![]),
        fine(),
        Response::Entries(vec![item("./extracted/pkg", true)]),
        Response::Exists(true),
        Response::Exists(false),
        bad(),
    ];
    let asked = install(answers);
    assert_eq!(asked.last(), Some(&Request::Failed(InstallError::TargetDirCreateFailed)));
}

#[test]
fn nothing_is_asked_after_the_end() {
    let answers = vec![fine(), fine(), fine(), Response::Exists(true), Response::Entries(vec![]), bad(), fine()];
    let asked = install(answers);
    assert_eq!(asked[asked.len() - 2], Request::Failed(InstallError::ConfigAcquisitionFailed));
    assert_eq!(asked[asked.len() - 1], Request::Failed(InstallError::UnexpectedResponse));
}

#[test]
fn advance_reads_the_clock_for_the_backup() {
    let (mut installer, _) = Installer::start(vec![], vec![], standard_locations(Some(ARCHIVE)));
    let answers = vec![
        Response::Exists(true),
        Response::Entries(vec![]),
        fine(),
        Response::Entries(vec![item("./extracted/pkg", true)]),
        Response::Exists(true),
    ];
    for answer in answers {
        let (next, _) = installer.advance(answer);
        installer = next;
    }
    let (_, request) = installer.advance(Response::Exists(true));
    match request {
        Request::Run(invocation) => {
            let stamp = invocation.args[2].strip_prefix("/usr/share/rime-backup-").expect("prefix");
            assert_eq!(stamp.len(), 15);
            assert_eq!(stamp.as_bytes()[8], b'_');
        }
        other => panic!("unexpected request {:?}", other),
    }
}

fn install_to_end(archive: Option<&str>, answers: Vec<Response>) -> (Installer, Request) {
    let (mut installer, mut request) =
        Installer::start(known_package_managers(), vec![], standard_locations(archive));
    for answer in answers {
        let (next, asked) = installer.advance_at(answer, WHEN);
        installer = next;
        request = asked;
    }
    (installer, request)
}

#[test]
fn failed_extraction_keeps_its_cause() {
    let answers = vec![Response::Exists(true), Response::Entries(vec![]), bad()];
    let (installer, request) = install_to_end(Some(ARCHIVE), answers);
    assert_eq!(request, Request::Failed(InstallError::ConfigAcquisitionFailed));
    assert_eq!(
        installer.failure_cause(),
        Some(&InstallError::ExtractionFailed { stderr: "boom".to_string() })
    );
    // The cause stays with the stopped installer.
    let (installer, request) = installer.advance_at(fine(), WHEN);
    assert_eq!(request, Request::Failed(InstallError::UnexpectedResponse));
    assert_eq!(
        installer.failure_cause(),
        Some(&InstallError::ExtractionFailed { stderr: "boom".to_string() })
    );
}

#[test]
fn empty_extraction_keeps_its_cause() {
    let answers = vec![
        Response::Exists(true),
        Response::Entries(vec![]),
        fine(),
        Response::Entries(vec![]),
    ];
    let (installer, request) = install_to_end(Some(ARCHIVE), answers);
    assert_eq!(request, Request::Failed(InstallError::ConfigAcquisitionFailed));
    assert_eq!(installer.failure_cause(), Some(&InstallError::NoConfigDirectoryFound));
}

#[test]
fn unreadable_scratch_keeps_its_cause() {
    let answers = vec![Response::Exists(true), Response::Unable("denied".to_string())];
    let (installer, request) = install_to_end(Some(ARCHIVE), answers);
    assert_eq!(request, Request::Failed(InstallError::ConfigAcquisitionFailed));
    assert_eq!(
        installer.failure_cause(),
        Some(&InstallError::StepUnable { detail: "denied".to_string() })
    );
}

#[test]
fn no_cause_where_the_extractor_gave_no_error() {
    let (installer, request) = install_to_end(None, vec![]);
    assert_eq!(request, Request::Failed(InstallError::ConfigAcquisitionFailed));
    assert_eq!(installer.failure_cause(), None);

    let (installer, _) = install_to_end(Some(ARCHIVE), vec![Response::Exists(true)]);
    assert_eq!(installer.failure_cause(), None);

    let answers = vec![
        Response::Exists(true),
        Response::Entries(vec![]),
        fine(),
        Response::Entries(vec![item("./extracted/pkg", true)]),
        Response::Exists(false),
    ];
    let (installer, request) = install_to_end(Some(ARCHIVE), answers);
    assert_eq!(
        request,
        Request::Failed(InstallError::SourceNotFound { config_dir: "./extracted/pkg".to_string() })
    );
    assert_eq!(installer.failure_cause(), None);
}
