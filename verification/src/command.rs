//! The vocabulary between the library and whoever drives it: the outside
//! steps the library asks for, and the observations it is handed back.

use vstd::prelude::*;
use crate::error::{InstallError, InstallErrorView};
use crate::text::texts;

verus! {

/// How the standard output and error streams of a child process are wired.
#[derive(Clone, Copy, Debug, PartialEq, Eq, Structural)]
pub enum Streams {
    /// Both streams are thrown away.
    Discard,
    /// Both streams go to the terminal of the installer, so that prompts
    /// reach the user.
    Inherit,
    /// Both streams are collected and handed back with the exit status.
    Capture,
}

/// One process to run: program, arguments, extra environment, streams.
#[derive(Clone, Debug, PartialEq, Eq)]
pub struct Invocation {
    pub program: String,
    pub args: Vec<String>,
    pub env: Vec<(String, String)>,
    pub streams: Streams,
}

/// An invocation as the contracts see it.
pub struct InvocationView {
    pub program: Seq<char>,
    pub args: Seq<Seq<char>>,
    pub env: Seq<(Seq<char>, Seq<char>)>,
    pub streams: Streams,
}

/// The character sequences of a list of name/value pairs, in order.
pub open spec fn pairs(list: Seq<(String, String)>) -> Seq<(Seq<char>, Seq<char>)> {
    Seq::new(list.len(), |i: int| (list[i].0@, list[i].1@))
}

impl View for Invocation {
    type V = InvocationView;

    open spec fn view(&self) -> InvocationView {
        InvocationView {
            program: self.program@,
            args: texts(self.args@),
            env: pairs(self.env@),
            streams: self.streams,
        }
    }
}

/// One entry of a directory listing: its full path and whether it is a
/// directory.
#[derive(Clone, Debug, PartialEq, Eq)]
pub struct DirEntry {
    pub path: String,
    pub is_dir: bool,
}

/// A directory entry as the contracts see it.
pub struct DirEntryView {
    pub path: Seq<char>,
    pub is_dir: bool,
}

impl View for DirEntry {
    type V = DirEntryView;

    open spec fn view(&self) -> DirEntryView {
        DirEntryView { path: self.path@, is_dir: self.is_dir }
    }
}

/// The views of a directory listing, in enumeration order.
pub open spec fn entries(list: Seq<DirEntry>) -> Seq<DirEntryView> {
    Seq::new(list.len(), |i: int| list[i]@)
}

/// What the driver is asked to do next.
#[derive(Clone, Debug, PartialEq, Eq)]
pub enum Request {
    /// Run the process and wait for it; answer with `Response::Exit`.
    Run(Invocation),
    /// Say whether the path exists; answer with `Response::Exists`.
    PathExists(String),
    /// List the immediate entries of the directory; answer with
    /// `Response::Entries`.
    ListDir(String),
    /// Create the directory and its missing parents; answer with
    /// `Response::Done`.
    CreateDirAll(String),
    /// Remove the directory with everything below it; answer with
    /// `Response::Done`.
    RemoveDirAll(String),
    /// Remove the file; answer with `Response::Done`.
    RemoveFile(String),
    /// The installation is complete.
    Finished,
    /// The installation was given up for the reason carried.
    Failed(InstallError),
}

/// A request as the contracts see it.
pub enum RequestView {
    Run(InvocationView),
    PathExists(Seq<char>),
    ListDir(Seq<char>),
    CreateDirAll(Seq<char>),
    RemoveDirAll(Seq<char>),
    RemoveFile(Seq<char>),
    Finished,
    Failed(InstallErrorView),
}

impl View for Request {
    type V = RequestView;

    open spec fn view(&self) -> RequestView {
        match self {
            Request::Run(invocation) => RequestView::Run(invocation@),
            Request::PathExists(path) => RequestView::PathExists(path@),
            Request::ListDir(path) => RequestView::ListDir(path@),
            Request::CreateDirAll(path) => RequestView::CreateDirAll(path@),
            Request::RemoveDirAll(path) => RequestView::RemoveDirAll(path@),
            Request::RemoveFile(path) => RequestView::RemoveFile(path@),
            Request::Finished => RequestView::Finished,
            Request::Failed(error) => RequestView::Failed(error@),
        }
    }
}

/// What the driver observed when it carried out a request.
#[derive(Clone, Debug, PartialEq, Eq)]
pub enum Response {
    /// The process ran; `success` says whether its exit status was zero.
    /// The two texts are empty unless the streams were captured.
    Exit { success: bool, stdout: String, stderr: String },
    /// Whether the path exists.
    Exists(bool),
    /// The entries of the directory, in enumeration order.
    Entries(Vec<DirEntry>),
    /// The step was carried out.
    Done,
    /// The step could not be carried out at all.
    Unable(String),
}

/// An answer as the contracts see it.
pub enum ResponseView {
    Exit { success: bool, stdout: Seq<char>, stderr: Seq<char> },
    Exists(bool),
    Entries(Seq<DirEntryView>),
    Done,
    Unable(Seq<char>),
}

impl View for Response {
    type V = ResponseView;

    open spec fn view(&self) -> ResponseView {
        match self {
            Response::Exit { success, stdout, stderr } => ResponseView::Exit {
                success: *success,
                stdout: stdout@,
                stderr: stderr@,
            },
            Response::Exists(present) => ResponseView::Exists(*present),
            Response::Entries(list) => ResponseView::Entries(entries(list@)),
            Response::Done => ResponseView::Done,
            Response::Unable(detail) => ResponseView::Unable(detail@),
        }
    }
}

} // verus!
