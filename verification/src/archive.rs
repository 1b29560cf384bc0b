//! Extraction of the configuration archive into a scratch directory, and
//! the choice of the configuration root inside what was extracted.

use vstd::prelude::*;
use crate::command::{
    entries, DirEntry, DirEntryView, Invocation, InvocationView, Request, RequestView, Response,
    ResponseView, Streams,
};
use crate::error::{InstallError, InstallErrorView};
use crate::turn::{Turn, TurnView};

verus! {

/// The archive tool called to extract `archive` into `scratch`: it
/// overwrites without asking, keeps quiet on both streams, and decodes
/// file names under a fixed UTF-8 locale. What it still writes is
/// collected.
pub open spec fn extract_invocation_view(archive: Seq<char>, scratch: Seq<char>) -> InvocationView {
    InvocationView {
        program: "7z"@,
        args: seq!["x"@, "-y"@, "-o"@ + scratch, "-bso0"@, "-bse0"@, archive],
        env: seq![("LANG"@, "C.UTF-8"@)],
        streams: Streams::Capture,
    }
}

/// Builds the call of the archive tool that extracts `archive` into
/// `scratch`.
pub fn extract_invocation(archive: &str, scratch: &str) -> (res: Invocation)
    ensures
        res@ == extract_invocation_view(archive@, scratch@),
{
    let mut output = String::from_str("-o");
    output.append(scratch);
    let mut args: Vec<String> = Vec::new();
    args.push(String::from_str("x"));
    args.push(String::from_str("-y"));
    args.push(output);
    args.push(String::from_str("-bso0"));
    args.push(String::from_str("-bse0"));
    args.push(String::from_str(archive));
    let mut env: Vec<(String, String)> = Vec::new();
    env.push((String::from_str("LANG"), String::from_str("C.UTF-8")));
    let res = Invocation { program: String::from_str("7z"), args, env, streams: Streams::Capture };
    proof {
        assert(res@.args =~= extract_invocation_view(archive@, scratch@).args);
        assert(res@.env =~= extract_invocation_view(archive@, scratch@).env);
    }
    res
}

/// The index of the first directory among `list[start..]`, if there is
/// one.
pub open spec fn first_directory_from(list: Seq<DirEntryView>, start: int) -> Option<int>
    decreases list.len() - start,
{
    if start < 0 || start >= list.len() {
        None
    } else if list[start].is_dir {
        Some(start)
    } else {
        first_directory_from(list, start + 1)
    }
}

/// The configuration root in a scratch directory with the entries
/// `list`: the first entry that is a directory; without one, the scratch
/// directory itself, provided it holds anything at all.
pub open spec fn config_directory(scratch: Seq<char>, list: Seq<DirEntryView>) -> Result<
    Seq<char>,
    InstallErrorView,
> {
    match first_directory_from(list, 0) {
        Some(i) => Ok(list[i].path),
        None => if list.len() > 0 {
            Ok(scratch)
        } else {
            Err(InstallErrorView::NoConfigDirectoryFound)
        },
    }
}

/// The view of a result that carries a path.
pub open spec fn path_result(result: Result<String, InstallError>) -> Result<
    Seq<char>,
    InstallErrorView,
> {
    match result {
        Ok(path) => Ok(path@),
        Err(error) => Err(error@),
    }
}

/// Picks the configuration root among the immediate entries of the
/// scratch directory, taken in enumeration order.
pub fn find_config_directory(extract_dir: &str, list: &Vec<DirEntry>) -> (res: Result<
    String,
    InstallError,
>)
    ensures
        path_result(res) == config_directory(extract_dir@, entries(list@)),
{
    let ghost views = entries(list@);
    let mut i: usize = 0;
    while i < list.len()
        invariant
            i <= list.len(),
            views == entries(list@),
            first_directory_from(views, 0) == first_directory_from(views, i as int),
        decreases list.len() - i,
    {
        if list[i].is_dir {
            return Ok(list[i].path.clone());
        }
        i = i + 1;
    }
    if list.len() > 0 {
        Ok(String::from_str(extract_dir))
    } else {
        Err(InstallError::NoConfigDirectoryFound)
    }
}

/// What the installer goes on with after the attempt on the local
/// archive: the directory it gave, or the one acquisition error.
/// `None` stands for no local archive having been named.
pub open spec fn acquired(local: Option<Result<Seq<char>, InstallErrorView>>) -> Result<
    Seq<char>,
    InstallErrorView,
> {
    match local {
        Some(Ok(dir)) => Ok(dir),
        _ => Err(InstallErrorView::ConfigAcquisitionFailed),
    }
}

/// The view of the outcome of the attempt on the local archive.
pub open spec fn local_outcome(local: Option<&Result<String, InstallError>>) -> Option<
    Result<Seq<char>, InstallErrorView>,
> {
    match local {
        Some(result) => Some(path_result(*result)),
        None => None,
    }
}

/// Settles where the configuration comes from. The local archive is the
/// only source: whatever went wrong with it, the installer is told that
/// the configuration could not be acquired.
pub fn get_config_files(local: Option<&Result<String, InstallError>>) -> (res: Result<
    String,
    InstallError,
>)
    ensures
        path_result(res) == acquired(local_outcome(local)),
{
    match local {
        Some(Ok(dir)) => Ok(dir.clone()),
        _ => Err(InstallError::ConfigAcquisitionFailed),
    }
}

/// Where the extractor stands between two moves.
#[derive(Debug, PartialEq, Eq)]
pub enum ExtractPhase {
    /// Asked whether the scratch directory exists.
    ScratchProbe,
    /// Asked for the scratch directory to be created.
    ScratchCreate,
    /// Asked for the old contents of the scratch directory.
    ScratchScan,
    /// The old entries before `index` are removed; the removal of that
    /// at `index` was asked for.
    Clearing { old: Vec<DirEntry>, index: usize },
    /// The archive tool is running.
    Extracting,
    /// Asked for what the scratch directory holds after extraction.
    Locating,
}

/// The phase of an extractor, with texts as character sequences.
pub enum ExtractPhaseView {
    ScratchProbe,
    ScratchCreate,
    ScratchScan,
    Clearing { old: Seq<DirEntryView>, index: int },
    Extracting,
    Locating,
}

impl View for ExtractPhase {
    type V = ExtractPhaseView;

    open spec fn view(&self) -> ExtractPhaseView {
        match self {
            ExtractPhase::ScratchProbe => ExtractPhaseView::ScratchProbe,
            ExtractPhase::ScratchCreate => ExtractPhaseView::ScratchCreate,
            ExtractPhase::ScratchScan => ExtractPhaseView::ScratchScan,
            ExtractPhase::Clearing { old, index } => ExtractPhaseView::Clearing {
                old: entries(old@),
                index: *index as int,
            },
            ExtractPhase::Extracting => ExtractPhaseView::Extracting,
            ExtractPhase::Locating => ExtractPhaseView::Locating,
        }
    }
}

/// Extracts a local archive into a scratch directory, which it empties
/// first, and finds the configuration root in the result.
#[derive(Debug, PartialEq, Eq)]
pub struct ArchiveExtractor {
    archive: String,
    scratch: String,
    phase: ExtractPhase,
}

/// An extractor as the contracts see it.
pub struct ArchiveExtractorView {
    pub archive: Seq<char>,
    pub scratch: Seq<char>,
    pub phase: ExtractPhaseView,
}

impl View for ArchiveExtractor {
    type V = ArchiveExtractorView;

    closed spec fn view(&self) -> ArchiveExtractorView {
        ArchiveExtractorView { archive: self.archive@, scratch: self.scratch@, phase: self.phase@ }
    }
}

/// A move of the extractor as the contracts see it.
pub type ExtractTurnView = TurnView<ArchiveExtractorView, Seq<char>>;

/// The request that removes one old entry of the scratch directory.
pub open spec fn removal(entry: DirEntryView) -> RequestView {
    if entry.is_dir {
        RequestView::RemoveDirAll(entry.path)
    } else {
        RequestView::RemoveFile(entry.path)
    }
}

/// The extractor in the given phase, asking for the given step.
pub open spec fn extract_ask(
    archive: Seq<char>,
    scratch: Seq<char>,
    phase: ExtractPhaseView,
    request: RequestView,
) -> ExtractTurnView {
    TurnView::Ask(ArchiveExtractorView { archive, scratch, phase }, request)
}

/// The move once the old entries before `index` are removed: remove the
/// next one, or, none being left, run the archive tool.
pub open spec fn extract_clear(
    archive: Seq<char>,
    scratch: Seq<char>,
    old: Seq<DirEntryView>,
    index: int,
) -> ExtractTurnView {
    if 0 <= index < old.len() {
        extract_ask(archive, scratch, ExtractPhaseView::Clearing { old, index }, removal(old[index]))
    } else {
        extract_ask(
            archive,
            scratch,
            ExtractPhaseView::Extracting,
            RequestView::Run(extract_invocation_view(archive, scratch)),
        )
    }
}

/// The first move of an extractor.
pub open spec fn extract_start(archive: Seq<char>, scratch: Seq<char>) -> ExtractTurnView {
    extract_ask(archive, scratch, ExtractPhaseView::ScratchProbe, RequestView::PathExists(scratch))
}

/// The result of a move on an answer that is no answer to the step asked
/// for.
pub open spec fn extract_stray(response: ResponseView) -> ExtractTurnView {
    match response {
        ResponseView::Unable(detail) => TurnView::Done(Err(InstallErrorView::StepUnable { detail })),
        _ => TurnView::Done(Err(InstallErrorView::UnexpectedResponse)),
    }
}

/// The move of an extractor on an answer.
pub open spec fn extract_advance(state: ArchiveExtractorView, response: ResponseView) -> ExtractTurnView {
    let archive = state.archive;
    let scratch = state.scratch;
    let scan = extract_ask(archive, scratch, ExtractPhaseView::ScratchScan, RequestView::ListDir(scratch));
    match state.phase {
        ExtractPhaseView::ScratchProbe => match response {
            ResponseView::Exists(present) => if present {
                scan
            } else {
                extract_ask(
                    archive,
                    scratch,
                    ExtractPhaseView::ScratchCreate,
                    RequestView::CreateDirAll(scratch),
                )
            },
            _ => extract_stray(response),
        },
        ExtractPhaseView::ScratchCreate => match response {
            ResponseView::Done => scan,
            _ => extract_stray(response),
        },
        ExtractPhaseView::ScratchScan => match response {
            ResponseView::Entries(old) => extract_clear(archive, scratch, old, 0),
            _ => extract_stray(response),
        },
        ExtractPhaseView::Clearing { old, index } => match response {
            ResponseView::Done => extract_clear(archive, scratch, old, index + 1),
            _ => extract_stray(response),
        },
        ExtractPhaseView::Extracting => match response {
            ResponseView::Exit { success, stdout, stderr } => if success {
                extract_ask(archive, scratch, ExtractPhaseView::Locating, RequestView::ListDir(scratch))
            } else {
                TurnView::Done(Err(InstallErrorView::ExtractionFailed { stderr }))
            },
            _ => extract_stray(response),
        },
        ExtractPhaseView::Locating => match response {
            ResponseView::Entries(found) => TurnView::Done(config_directory(scratch, found)),
            _ => extract_stray(response),
        },
    }
}

impl ArchiveExtractor {
    #[verifier::type_invariant]
    spec fn well_formed(self) -> bool {
        match self.phase {
            ExtractPhase::Clearing { old, index } => index < old.len(),
            _ => true,
        }
    }

    fn stray(response: Response) -> (turn: Turn<ArchiveExtractor, String>)
        ensures
            turn@ == extract_stray(response@),
    {
        match response {
            Response::Unable(detail) => Turn::Done(Err(InstallError::StepUnable { detail })),
            _ => Turn::Done(Err(InstallError::UnexpectedResponse)),
        }
    }

    fn scan(archive: String, scratch: String) -> (turn: Turn<ArchiveExtractor, String>)
        ensures
            turn@ == extract_ask(
                archive@,
                scratch@,
                ExtractPhaseView::ScratchScan,
                RequestView::ListDir(scratch@),
            ),
    {
        let request = Request::ListDir(scratch.clone());
        Turn::Ask(ArchiveExtractor { archive, scratch, phase: ExtractPhase::ScratchScan }, request)
    }

    fn clear(archive: String, scratch: String, old: Vec<DirEntry>, index: usize) -> (turn: Turn<
        ArchiveExtractor,
        String,
    >)
        ensures
            turn@ == extract_clear(archive@, scratch@, entries(old@), index as int),
    {
        if index < old.len() {
            let path = old[index].path.clone();
            let request = if old[index].is_dir {
                Request::RemoveDirAll(path)
            } else {
                Request::RemoveFile(path)
            };
            Turn::Ask(
                ArchiveExtractor { archive, scratch, phase: ExtractPhase::Clearing { old, index } },
                request,
            )
        } else {
            let request = Request::Run(extract_invocation(archive.as_str(), scratch.as_str()));
            Turn::Ask(ArchiveExtractor { archive, scratch, phase: ExtractPhase::Extracting }, request)
        }
    }

    /// Begins by asking whether the scratch directory exists.
    pub fn start(archive: String, scratch: String) -> (turn: Turn<ArchiveExtractor, String>)
        ensures
            turn@ == extract_start(archive@, scratch@),
    {
        let request = Request::PathExists(scratch.clone());
        Turn::Ask(ArchiveExtractor { archive, scratch, phase: ExtractPhase::ScratchProbe }, request)
    }

    /// Takes the answer to the request of the previous move.
    pub fn advance(self, response: Response) -> (turn: Turn<ArchiveExtractor, String>)
        ensures
            turn@ == extract_advance(self@, response@),
    {
        proof {
            use_type_invariant(&self);
        }
        let ArchiveExtractor { archive, scratch, phase } = self;
        match phase {
            ExtractPhase::ScratchProbe => match response {
                Response::Exists(present) => {
                    if present {
                        Self::scan(archive, scratch)
                    } else {
                        let request = Request::CreateDirAll(scratch.clone());
                        Turn::Ask(
                            ArchiveExtractor { archive, scratch, phase: ExtractPhase::ScratchCreate },
                            request,
                        )
                    }
                },
                other => Self::stray(other),
            },
            ExtractPhase::ScratchCreate => match response {
                Response::Done => Self::scan(archive, scratch),
                other => Self::stray(other),
            },
            ExtractPhase::ScratchScan => match response {
                Response::Entries(old) => Self::clear(archive, scratch, old, 0),
                other => Self::stray(other),
            },
            ExtractPhase::Clearing { old, index } => match response {
                Response::Done => Self::clear(archive, scratch, old, index + 1),
                other => Self::stray(other),
            },
            ExtractPhase::Extracting => match response {
                Response::Exit { success, stdout: _, stderr } => {
                    if success {
                        let request = Request::ListDir(scratch.clone());
                        Turn::Ask(
                            ArchiveExtractor { archive, scratch, phase: ExtractPhase::Locating },
                            request,
                        )
                    } else {
                        Turn::Done(Err(InstallError::ExtractionFailed { stderr }))
                    }
                },
                other => Self::stray(other),
            },
            ExtractPhase::Locating => match response {
                Response::Entries(found) => {
                    let result = find_config_directory(scratch.as_str(), &found);
                    Turn::Done(result)
                },
                other => Self::stray(other),
            },
        }
    }
}

} // verus!
