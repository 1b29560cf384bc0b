use rime_install::archive::{
    extract_invocation, find_config_directory, get_config_files, ArchiveExtractor,
};
use rime_install::command::{DirEntry, Invocation, Request, Response, Streams};
use rime_install::error::InstallError;
use rime_install::turn::Turn;

fn entry(path: &str, is_dir: bool) -> DirEntry {
    DirEntry { path: path.to_string(), is_dir }
}

fn seven_zip(archive: &str, scratch: &str) -> Request {
    Request::Run(Invocation {
        program: "7z".to_string(),
        args: vec![
            "x".to_string(),
            "-y".to_string(),
            format!("-o{}", scratch),
            "-bso0".to_string(),
            "-bse0".to_string(),
            archive.to_string(),
        ],
        env: vec![("LANG".to_string(), "C.UTF-8".to_string())],
        streams: Streams::Capture,
    })
}

fn drive_extract(
    first: Turn<ArchiveExtractor, String>,
    answers: Vec<Response>,
) -> (Vec<Request>, Option<Result<String, InstallError>>) {
    let mut asked = Vec::new();
    let mut turn = first;
    let mut answers = answers.into_iter();
    loop {
        match turn {
            Turn::Done(result) => return (asked, Some(result)),
            Turn::Ask(machine, request) => {
                asked.push(request);
                match answers.next() {
                    Some(answer) => turn = machine.advance(answer),
                    None => return (asked, None),
                }
            }
        }
    }
}

fn tool_exit(success: bool, stderr: &str) -> Response {
    Response::Exit { success, stdout: String::new(), stderr: stderr.to_string() }
}

#[test]
fn extract_invocation_is_quiet_and_assumes_yes() {
    assert_eq!(
        Request::Run(extract_invocation("./pkg.zip", "./extracted")),
        seven_zip("./pkg.zip", "./extracted")
    );
    let inv = extract_invocation("a b.zip", "/tmp/out");
    assert_eq!(inv.args[2], "-o/tmp/out");
    assert_eq!(inv.args[5], "a b.zip");
}

#[test]
fn single_subdirectory_is_the_config_directory() {
    let list = vec![entry("./extracted/pkg", true)];
    assert_eq!(find_config_directory("./extracted", &list), Ok("./extracted/pkg".to_string()));
}

#[test]
fn flat_archive_uses_the_scratch_directory() {
    let list = vec![entry("./extracted/a.yaml", false)];
    assert_eq!(find_config_directory("./extracted", &list), Ok("./extracted".to_string()));
    let list = vec![entry("./extracted/a.yaml", false), entry("./extracted/b.txt", false)];
    assert_eq!(find_config_directory("./extracted", &list), Ok("./extracted".to_string()));
}

#[test]
fn empty_scratch_has_no_config_directory() {
    assert_eq!(
        find_config_directory("./extracted", &vec![]),
        Err(InstallError::NoConfigDirectoryFound)
    );
}

#[test]
fn first_directory_wins_over_files_and_later_directories() {
    let list = vec![
        entry("./extracted/readme.txt", false),
        entry("./extracted/second", true),
        entry("./extracted/third", true),
        entry("./extracted/last.bin", false),
    ];
    assert_eq!(find_config_directory("./extracted", &list), Ok("./extracted/second".to_string()));
}

#[test]
fn get_config_files_hands_on_the_directory() {
    let local = Ok("./extracted/pkg".to_string());
    assert_eq!(get_config_files(Some(&local)), Ok("./extracted/pkg".to_string()));
}

#[test]
fn get_config_files_reports_acquisition_failure() {
    assert_eq!(get_config_files(None), Err(InstallError::ConfigAcquisitionFailed));
    let local = Err(InstallError::NoConfigDirectoryFound);
    assert_eq!(get_config_files(Some(&local)), Err(InstallError::ConfigAcquisitionFailed));
    let local = Err(InstallError::ExtractionFailed { stderr: "bad".to_string() });
    assert_eq!(get_config_files(Some(&local)), Err(InstallError::ConfigAcquisitionFailed));
    let local = Err(InstallError::StepUnable { detail: "x".to_string() });
    assert_eq!(get_config_files(Some(&local)), Err(InstallError::ConfigAcquisitionFailed));
}

#[test]
fn extraction_into_existing_scratch_clears_it_first() {
    let first = ArchiveExtractor::start("./pkg.zip".to_string(), "./extracted".to_string());
    let old = vec![entry("./extracted/old_dir", true), entry("./extracted/old.txt", false)];
    let answers = vec![
        Response::Exists(true),
        Response::Entries(old),
        Response::Done,
        Response::Done,
        tool_exit(true, ""),
        Response::Entries(vec![entry("./extracted/pkg", true)]),
    ];
    let (asked, result) = drive_extract(first, answers);
    assert_eq!(
        asked,
        vec![
            Request::PathExists("./extracted".to_string()),
            Request::ListDir("./extracted".to_string()),
            Request::RemoveDirAll("./extracted/old_dir".to_string()),
            Request::RemoveFile("./extracted/old.txt".to_string()),
            seven_zip("./pkg.zip", "./extracted"),
            Request::ListDir("./extracted".to_string()),
        ]
    );
    assert_eq!(result, Some(Ok("./extracted/pkg".to_string())));
}

#[test]
fn extraction_creates_missing_scratch() {
    let first = ArchiveExtractor::start("./pkg.zip".to_string(), "./extracted".to_string());
    let answers = vec![
        Response::Exists(false),
        Response::Done,
        Response::Entries(vec![]),
        tool_exit(true, ""),
        Response::Entries(vec![entry("./extracted/a.txt", false)]),
    ];
    let (asked, result) = drive_extract(first, answers);
    assert_eq!(
        asked,
        vec![
            Request::PathExists("./extracted".to_string()),
            Request::CreateDirAll("./extracted".to_string()),
            Request::ListDir("./extracted".to_string()),
            seven_zip("./pkg.zip", "./extracted"),
            Request::ListDir("./extracted".to_string()),
        ]
    );
    assert_eq!(result, Some(Ok("./extracted".to_string())));
}

#[test]
fn failed_tool_reports_its_stderr() {
    let first = ArchiveExtractor::start("./pkg.zip".to_string(), "./extracted".to_string());
    let answers = vec![
        Response::Exists(true),
        Response::Entries(vec![]),
        tool_exit(false, "ERROR: cannot open archive"),
    ];
    let (asked, result) = drive_extract(first, answers);
    assert_eq!(asked.len(), 3);
    assert_eq!(
        result,
        Some(Err(InstallError::ExtractionFailed {
            stderr: "ERROR: cannot open archive".to_string()
        }))
    );
}

#[test]
fn extraction_that_leaves_nothing_has_no_config_directory() {
    let first = ArchiveExtractor::start("./pkg.zip".to_string(), "./extracted".to_string());
    let answers = vec![
        Response::Exists(true),
        Response::Entries(vec![]),
        tool_exit(true, ""),
        Response::Entries(vec![]),
    ];
    let (_, result) = drive_extract(first, answers);
    assert_eq!(result, Some(Err(InstallError::NoConfigDirectoryFound)));
}

#[test]
fn removal_that_cannot_be_done_ends_the_extraction() {
    let first = ArchiveExtractor::start("./pkg.zip".to_string(), "./extracted".to_string());
    let answers = vec![
        Response::Exists(true),
        Response::Entries(vec![entry("./extracted/locked", true)]),
        Response::Unable("permission denied".to_string()),
    ];
    let (asked, result) = drive_extract(first, answers);
    assert_eq!(asked.last(), Some(&Request::RemoveDirAll("./extracted/locked".to_string())));
    assert_eq!(
        result,
        Some(Err(InstallError::StepUnable { detail: "permission denied".to_string() }))
    );
}

#[test]
fn extractor_refuses_answers_of_the_wrong_kind() {
    let first = ArchiveExtractor::start("./pkg.zip".to_string(), "./extracted".to_string());
    let (_, result) = drive_extract(first, vec![Response::Done]);
    assert_eq!(result, Some(Err(InstallError::UnexpectedResponse)));
    let first = ArchiveExtractor::start("./pkg.zip".to_string(), "./extracted".to_string());
    let (_, result) = drive_extract(first, vec![Response::Exists(true), Response::Exists(true)]);
    assert_eq!(result, Some(Err(InstallError::UnexpectedResponse)));
}
