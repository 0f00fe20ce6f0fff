//! What the pipeline asks of the host it runs on, and what the host answers.
//!
//! The library performs no input or output of its own. Each operation is a
//! step function: from its state and the answer to its last request it
//! gives the next state and, until it has finished, the next request.
use vstd::prelude::*;
use crate::command::{Command, CommandView};

verus! {

/// The seven kinds of namespace of a process.
#[derive(Clone, Copy, Debug, PartialEq, Eq, Structural)]
pub enum NamespaceKind {
    Mnt,
    Uts,
    Ipc,
    Net,
    Pid,
    Cgroup,
    User,
}

/// An open descriptor on a namespace, and the device and inode that identify
/// the namespace behind it.
#[derive(Clone, Copy, Debug, PartialEq, Eq, Structural)]
pub struct NamespaceDescriptor {
    pub descriptor: i32,
    pub device: u64,
    pub inode: u64,
}

impl NamespaceDescriptor {
    /// Whether both descriptors are open on one namespace.
    pub open spec fn same_namespace(self, other: NamespaceDescriptor) -> bool {
        self.device == other.device && self.inode == other.inode
    }
}

/// Something for the host to do.
#[derive(Debug)]
pub enum Request {
    /// Run a process and wait for it.
    Run { command: Command },
    /// Read a file from its start, `at_most` bytes of it.
    ReadFile { path: String, at_most: u64 },
    /// Tell whether anything exists at a path.
    PathExists { path: String },
    /// Open a namespace descriptor read-only and identify the namespace.
    OpenNamespace { path: String },
    /// Attach the caller to the namespace behind an open descriptor.
    SetNamespace { descriptor: i32, kind: NamespaceKind },
    /// Set the real, effective and saved user and group ids to 0.
    BecomeRoot,
    /// Create a directory and the directories above it.
    MakeDir { path: String },
    /// Mount a filesystem.
    Mount { source: String, target: String, fstype: String, read_only: bool },
    /// Create a block device node.
    MakeNode { path: String, device: u64, mode: u32 },
    /// Unmount what is mounted at a path.
    Unmount { target: String },
    /// Remove a directory and what is in it.
    RemoveDir { path: String },
    /// Write a file, replacing what was there.
    WriteFile { path: String, contents: String },
}

/// The mathematical value of a [`Request`].
pub enum RequestView {
    Run { command: CommandView },
    ReadFile { path: Seq<char>, at_most: u64 },
    PathExists { path: Seq<char> },
    OpenNamespace { path: Seq<char> },
    SetNamespace { descriptor: i32, kind: NamespaceKind },
    BecomeRoot,
    MakeDir { path: Seq<char> },
    Mount { source: Seq<char>, target: Seq<char>, fstype: Seq<char>, read_only: bool },
    MakeNode { path: Seq<char>, device: u64, mode: u32 },
    Unmount { target: Seq<char> },
    RemoveDir { path: Seq<char> },
    WriteFile { path: Seq<char>, contents: Seq<char> },
}

impl View for Request {
    type V = RequestView;

    open spec fn view(&self) -> RequestView {
        match self {
            Request::Run { command } => RequestView::Run { command: command@ },
            Request::ReadFile { path, at_most } => RequestView::ReadFile {
                path: path@,
                at_most: *at_most,
            },
            Request::PathExists { path } => RequestView::PathExists { path: path@ },
            Request::OpenNamespace { path } => RequestView::OpenNamespace { path: path@ },
            Request::SetNamespace { descriptor, kind } => RequestView::SetNamespace {
                descriptor: *descriptor,
                kind: *kind,
            },
            Request::BecomeRoot => RequestView::BecomeRoot,
            Request::MakeDir { path } => RequestView::MakeDir { path: path@ },
            Request::Mount { source, target, fstype, read_only } => RequestView::Mount {
                source: source@,
                target: target@,
                fstype: fstype@,
                read_only: *read_only,
            },
            Request::MakeNode { path, device, mode } => RequestView::MakeNode {
                path: path@,
                device: *device,
                mode: *mode,
            },
            Request::Unmount { target } => RequestView::Unmount { target: target@ },
            Request::RemoveDir { path } => RequestView::RemoveDir { path: path@ },
            Request::WriteFile { path, contents } => RequestView::WriteFile {
                path: path@,
                contents: contents@,
            },
        }
    }
}

/// What the host answers to a [`Request`].
#[derive(Debug)]
pub enum Response {
    /// The process ran and ended: its exit code, if no signal ended it, what
    /// it wrote to standard output, and what it wrote to standard error as
    /// far as that is text.
    Exited { code: Option<i32>, stdout: Vec<u8>, stderr: String },
    /// The bytes that were read.
    Contents { bytes: Vec<u8> },
    /// Whether the path exists.
    Exists { present: bool },
    /// The descriptor that was opened.
    Opened { descriptor: NamespaceDescriptor },
    /// The request was carried out.
    Done,
    /// Nothing was done, because what was to be created exists already.
    AlreadyExists,
    /// The request could not be carried out, and why.
    Failed { detail: String },
}

/// The mathematical value of a [`Response`].
pub enum ResponseView {
    Exited { code: Option<i32>, stdout: Seq<u8>, stderr: Seq<char> },
    Contents { bytes: Seq<u8> },
    Exists { present: bool },
    Opened { descriptor: NamespaceDescriptor },
    Done,
    AlreadyExists,
    Failed { detail: Seq<char> },
}

impl View for Response {
    type V = ResponseView;

    open spec fn view(&self) -> ResponseView {
        match self {
            Response::Exited { code, stdout, stderr } => ResponseView::Exited {
                code: *code,
                stdout: stdout@,
                stderr: stderr@,
            },
            Response::Contents { bytes } => ResponseView::Contents { bytes: bytes@ },
            Response::Exists { present } => ResponseView::Exists { present: *present },
            Response::Opened { descriptor } => ResponseView::Opened { descriptor: *descriptor },
            Response::Done => ResponseView::Done,
            Response::AlreadyExists => ResponseView::AlreadyExists,
            Response::Failed { detail } => ResponseView::Failed { detail: detail@ },
        }
    }
}

impl ResponseView {
    /// Whether this answers that a process ended with exit code zero.
    pub open spec fn succeeded(self) -> bool {
        self matches ResponseView::Exited { code: Some(c), .. } && c == 0
    }

    /// What a failed process or request left as explanation.
    pub open spec fn detail(self) -> Seq<char> {
        match self {
            ResponseView::Exited { stderr, .. } => stderr,
            ResponseView::Failed { detail } => detail,
            _ => Seq::empty(),
        }
    }
}

/// The view of an optional request.
pub open spec fn request_view(request: Option<Request>) -> Option<RequestView> {
    match request {
        Some(r) => Some(r@),
        None => None,
    }
}

/// The view of an optional response.
pub open spec fn response_view(response: Option<Response>) -> Option<ResponseView> {
    match response {
        Some(r) => Some(r@),
        None => None,
    }
}

impl Response {
    /// Whether this answers that a process ended with exit code zero.
    pub fn succeeded(&self) -> (r: bool)
        ensures
            r == self@.succeeded(),
    {
        match self {
            Response::Exited { code: Some(c), .. } => *c == 0,
            _ => false,
        }
    }

    /// What a failed process or request left as explanation.
    pub fn detail(&self) -> (r: String)
        ensures
            r@ == self@.detail(),
    {
        match self {
            Response::Exited { stderr, .. } => stderr.clone(),
            Response::Failed { detail } => detail.clone(),
            _ => String::new(),
        }
    }
}

} // verus!
