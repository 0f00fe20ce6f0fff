use vstd::prelude::*;
use crate::text::joined;

verus! {

/// The kinds of failure the injection pipeline tells apart.
#[derive(Clone, Copy, Debug, PartialEq, Eq, Structural)]
pub enum FailureKind {
    /// No runtime matched the target token.
    ResolutionFailure,
    /// The image file is absent, too small, or unreadable.
    ImageInvalid,
    /// No loop device could be reserved or bound.
    LoopExhausted,
    /// A namespace descriptor could not be opened, or attaching was rejected.
    NamespaceDenied,
    /// No filesystem type was accepted, or the tmpfs mount failed.
    MountFailed,
    /// A helper process could not be run or reported failure.
    SubprocessFailed,
    /// The target is a bare process, which no container engine can run a command in.
    NoExecChannel,
}

/// A failure: its kind, and a message naming the step that failed.
#[derive(Debug)]
pub struct Failure {
    pub kind: FailureKind,
    pub message: String,
}

/// The mathematical value of an [`Failure`].
pub struct FailureView {
    pub kind: FailureKind,
    pub message: Seq<char>,
}

impl View for Failure {
    type V = FailureView;

    open spec fn view(&self) -> FailureView {
        FailureView { kind: self.kind, message: self.message@ }
    }
}

impl Failure {
    /// An error of `kind` whose message is `message`.
    pub fn new(kind: FailureKind, message: &str) -> (e: Failure)
        ensures
            e@ == (FailureView { kind, message: message@ }),
    {
        Failure { kind, message: message.to_owned() }
    }

    /// An error of `kind` whose message is `context` followed by `detail`.
    pub fn with_detail(kind: FailureKind, context: &str, detail: &str) -> (e: Failure)
        ensures
            e@ == (FailureView { kind, message: context@ + detail@ }),
    {
        Failure { kind, message: joined(context, detail) }
    }

    /// The message, as the caller prints it.
    pub fn to_string(&self) -> (s: String)
        ensures
            s@ == self@.message,
    {
        self.message.clone()
    }
}

} // verus!
