//! Taking the debug image out of a target: every step is tried, whatever
//! became of the steps before it, and the loop device is released last.
use vstd::prelude::*;
use crate::failure::{Failure, FailureView};
use crate::host::{
    request_view, response_view, NamespaceKind, Request, RequestView, Response, ResponseView,
};
use crate::image::{
    cleanup_step, ImageManager, ImageManagerView, LoopCleanup, LoopCleanupView,
};
use crate::mount::{
    failure_view, mount_table_request, nsenter, nsenter_invocation, read_mount_table, table_lists,
    MountManager, CRASHCART_LOOP_DIR, CRASHCART_MOUNT_PATH, UNMOUNT_SCRIPT,
};
use crate::namespace::{enter_single_namespace, entry_step, Entry, EntryView, NamespaceGuard};
use crate::text::owned;

verus! {

/// A step of taking the image out from inside the target's mount namespace.
#[derive(Clone, Copy, Debug, PartialEq, Eq, Structural)]
pub enum Teardown {
    /// Is the image mounted?
    ProbeTree,
    UnmountTree,
    /// Is the mount path there?
    CheckTree,
    RemoveTree,
    /// Is the tmpfs for the device node mounted?
    ProbeLoopDir,
    UnmountLoopDir,
    /// Is the directory of the device node there?
    CheckLoopDir,
    RemoveLoopDir,
}

/// How far taking the image out has come.
#[derive(Debug)]
pub enum UnmountState {
    /// Nothing was asked yet.
    Start,
    /// The unmount script is running.
    Scripting,
    /// The target's mount namespace is being entered.
    Entering { entry: Entry },
    /// The caller works in the target's mount namespace, at `stage`.
    Working { guard: NamespaceGuard, stage: Teardown },
    /// The caller is being put back into its own mount namespace.
    Leaving,
    /// The loop device is being released.
    Releasing { cleanup: LoopCleanup },
    /// Taking the image out has come to its end: with `failure`, or well.
    Finished { failure: Option<Failure> },
}

/// The mathematical value of an [`UnmountState`].
pub enum UnmountStateView {
    Start,
    Scripting,
    Entering { entry: EntryView },
    Working { guard: NamespaceGuard, stage: Teardown },
    Leaving,
    Releasing { cleanup: LoopCleanupView },
    Finished { failure: Option<FailureView> },
}

impl View for UnmountState {
    type V = UnmountStateView;

    open spec fn view(&self) -> UnmountStateView {
        match self {
            UnmountState::Start => UnmountStateView::Start,
            UnmountState::Scripting => UnmountStateView::Scripting,
            UnmountState::Entering { entry } => UnmountStateView::Entering { entry: entry@ },
            UnmountState::Working { guard, stage } => UnmountStateView::Working {
                guard: *guard,
                stage: *stage,
            },
            UnmountState::Leaving => UnmountStateView::Leaving,
            UnmountState::Releasing { cleanup } => UnmountStateView::Releasing {
                cleanup: cleanup@,
            },
            UnmountState::Finished { failure } => UnmountStateView::Finished {
                failure: failure_view(*failure),
            },
        }
    }
}

/// What a step of taking the image out gives: the handle after it, the
/// next state, and the next request.
pub type UnmountTurn = (ImageManagerView, UnmountStateView, Option<RequestView>);

/// What releasing the loop device came to, once it has come to its end.
pub open spec fn release_outcome(cleanup: LoopCleanupView) -> Option<FailureView> {
    match cleanup {
        LoopCleanupView::Failed { failure } => Some(failure),
        _ => None,
    }
}

/// Taking the image out goes on after a step of releasing the loop device:
/// what releasing comes to is what taking the image out comes to.
pub open spec fn after_release(
    image: ImageManagerView,
    cleanup: LoopCleanupView,
    request: Option<RequestView>,
) -> UnmountTurn {
    if cleanup.finished() {
        (image, UnmountStateView::Finished { failure: release_outcome(cleanup) }, None)
    } else {
        (image, UnmountStateView::Releasing { cleanup }, request)
    }
}

/// The loop device is released: the last step, taken from the caller's own namespace.
pub open spec fn begin_release(image: ImageManagerView) -> UnmountTurn {
    let (released, cleanup, request) = cleanup_step(image, LoopCleanupView::Start, None);
    after_release(released, cleanup, request)
}

/// The work in the target ends: the caller is put back into the namespace
/// it came from, and then the loop device is released.
pub open spec fn leave_target(image: ImageManagerView, guard: NamespaceGuard) -> UnmountTurn {
    match guard.spec_release() {
        Some(request) => (image, UnmountStateView::Leaving, Some(request)),
        None => begin_release(image),
    }
}

/// The next stage is `stage`, and `request` is what it asks.
pub open spec fn teardown_turn(
    image: ImageManagerView,
    guard: NamespaceGuard,
    stage: Teardown,
    request: RequestView,
) -> UnmountTurn {
    (image, UnmountStateView::Working { guard, stage }, Some(request))
}

/// Whether the host answered with a mount table that lists `path`.
pub open spec fn answers_mounted(response: Option<ResponseView>, path: Seq<char>) -> bool {
    response matches Some(ResponseView::Contents { bytes }) && table_lists(bytes, path) == Some(
        true,
    )
}

/// Whether the host answered that the path is there.
pub open spec fn answers_present(response: Option<ResponseView>) -> bool {
    response matches Some(ResponseView::Exists { present }) && present
}

/// One step of the work in the target's mount namespace.
///
/// The image is unmounted where the mount table lists the mount path;
/// the mount path is removed where it is there; the tmpfs is unmounted where
/// the mount table lists it; its directory is removed where it is there. No
/// answer of the host stops the next step: a step that fails is passed
/// over, and a question that gets no answer counts as answered with no.
pub open spec fn teardown_step(
    image: ImageManagerView,
    guard: NamespaceGuard,
    stage: Teardown,
    response: Option<ResponseView>,
) -> UnmountTurn {
    let check_tree = teardown_turn(
        image,
        guard,
        Teardown::CheckTree,
        RequestView::PathExists { path: CRASHCART_MOUNT_PATH@ },
    );
    let probe_loop = teardown_turn(image, guard, Teardown::ProbeLoopDir, read_mount_table());
    let check_loop = teardown_turn(
        image,
        guard,
        Teardown::CheckLoopDir,
        RequestView::PathExists { path: CRASHCART_LOOP_DIR@ },
    );
    match stage {
        Teardown::ProbeTree => if answers_mounted(response, CRASHCART_MOUNT_PATH@) {
            teardown_turn(
                image,
                guard,
                Teardown::UnmountTree,
                RequestView::Unmount { target: CRASHCART_MOUNT_PATH@ },
            )
        } else {
            check_tree
        },
        Teardown::UnmountTree => check_tree,
        Teardown::CheckTree => if answers_present(response) {
            teardown_turn(
                image,
                guard,
                Teardown::RemoveTree,
                RequestView::RemoveDir { path: CRASHCART_MOUNT_PATH@ },
            )
        } else {
            probe_loop
        },
        Teardown::RemoveTree => probe_loop,
        Teardown::ProbeLoopDir => if answers_mounted(response, CRASHCART_LOOP_DIR@) {
            teardown_turn(
                image,
                guard,
                Teardown::UnmountLoopDir,
                RequestView::Unmount { target: CRASHCART_LOOP_DIR@ },
            )
        } else {
            check_loop
        },
        Teardown::UnmountLoopDir => check_loop,
        Teardown::CheckLoopDir => if answers_present(response) {
            teardown_turn(
                image,
                guard,
                Teardown::RemoveLoopDir,
                RequestView::RemoveDir { path: CRASHCART_LOOP_DIR@ },
            )
        } else {
            leave_target(image, guard)
        },
        Teardown::RemoveLoopDir => leave_target(image, guard),
    }
}

/// One step of taking the image out of the target `pid`.
///
/// The work in the target is done as `nsenter` has it, by a script, or by
/// the caller in the target's mount namespace. Whatever comes of it, and
/// even where the namespace cannot be entered, the loop device is released
/// at the end, from the caller's own namespace; what releasing comes to is
/// the outcome.
pub open spec fn unmount_step(
    nsenter: bool,
    pid: u32,
    image: ImageManagerView,
    state: UnmountStateView,
    response: Option<ResponseView>,
) -> UnmountTurn {
    match state {
        UnmountStateView::Start => if nsenter {
            (
                image,
                UnmountStateView::Scripting,
                Some(RequestView::Run { command: nsenter_invocation(pid, UNMOUNT_SCRIPT@) }),
            )
        } else {
            let (entry, request) = entry_step(pid, NamespaceKind::Mnt, EntryView::Start, None);
            (image, UnmountStateView::Entering { entry }, request)
        },
        UnmountStateView::Scripting => begin_release(image),
        UnmountStateView::Entering { entry } => {
            let (entry, request) = entry_step(pid, NamespaceKind::Mnt, entry, response);
            match entry {
                EntryView::Entered { guard } => teardown_turn(
                    image,
                    guard,
                    Teardown::ProbeTree,
                    read_mount_table(),
                ),
                EntryView::Failed { .. } => begin_release(image),
                _ => (image, UnmountStateView::Entering { entry }, request),
            }
        },
        UnmountStateView::Working { guard, stage } => teardown_step(image, guard, stage, response),
        UnmountStateView::Leaving => begin_release(image),
        UnmountStateView::Releasing { cleanup } => {
            let (released, cleanup, request) = cleanup_step(image, cleanup, response);
            after_release(released, cleanup, request)
        },
        UnmountStateView::Finished { .. } => (image, state, None),
    }
}

fn do_after_release(cleanup: LoopCleanup, request: Option<Request>) -> (next: (
    UnmountState,
    Option<Request>,
))
    ensures
        forall|image: ImageManagerView|
            (image, next.0@, request_view(next.1)) == #[trigger] after_release(
                image,
                cleanup@,
                request_view(request),
            ),
{
    match cleanup {
        LoopCleanup::Released => (UnmountState::Finished { failure: None }, None),
        LoopCleanup::Failed { failure } => (UnmountState::Finished { failure: Some(failure) }, None),
        _ => (UnmountState::Releasing { cleanup }, request),
    }
}

fn do_begin_release(image: &mut ImageManager) -> (next: (UnmountState, Option<Request>))
    ensures
        (final(image)@, next.0@, request_view(next.1)) == begin_release(old(image)@),
{
    let (cleanup, request) = image.cleanup_loop_device(LoopCleanup::Start, None);
    do_after_release(cleanup, request)
}

fn do_leave_target(image: &mut ImageManager, guard: NamespaceGuard) -> (next: (
    UnmountState,
    Option<Request>,
))
    ensures
        (final(image)@, next.0@, request_view(next.1)) == leave_target(old(image)@, guard),
{
    match guard.release() {
        Some(request) => (UnmountState::Leaving, Some(request)),
        None => do_begin_release(image),
    }
}

/// Whether the host answered with a mount table that lists `path`.
fn is_listed(manager: &MountManager, response: &Option<Response>, path: &str) -> (r: bool)
    ensures
        r == answers_mounted(response_view(*response), path@),
{
    match response {
        Some(Response::Contents { bytes }) => match manager.is_mounted(bytes.as_slice(), path) {
            Ok(found) => found,
            Err(_) => false,
        },
        _ => false,
    }
}

/// Whether the host answered that the path is there.
fn is_present(response: &Option<Response>) -> (r: bool)
    ensures
        r == answers_present(response_view(*response)),
{
    match response {
        Some(Response::Exists { present }) => *present,
        _ => false,
    }
}

fn do_teardown(
    manager: &MountManager,
    image: &mut ImageManager,
    guard: NamespaceGuard,
    stage: Teardown,
    response: Option<Response>,
) -> (next: (UnmountState, Option<Request>))
    ensures
        (final(image)@, next.0@, request_view(next.1)) == teardown_step(
            old(image)@,
            guard,
            stage,
            response_view(response),
        ),
{
    let after_tree = match stage {
        Teardown::ProbeTree => {
            if is_listed(manager, &response, CRASHCART_MOUNT_PATH) {
                return (
                    UnmountState::Working { guard, stage: Teardown::UnmountTree },
                    Some(Request::Unmount { target: owned(CRASHCART_MOUNT_PATH) }),
                );
            }
            Teardown::CheckTree
        },
        Teardown::UnmountTree => Teardown::CheckTree,
        Teardown::CheckTree => {
            if is_present(&response) {
                return (
                    UnmountState::Working { guard, stage: Teardown::RemoveTree },
                    Some(Request::RemoveDir { path: owned(CRASHCART_MOUNT_PATH) }),
                );
            }
            Teardown::ProbeLoopDir
        },
        Teardown::RemoveTree => Teardown::ProbeLoopDir,
        Teardown::ProbeLoopDir => {
            if is_listed(manager, &response, CRASHCART_LOOP_DIR) {
                return (
                    UnmountState::Working { guard, stage: Teardown::UnmountLoopDir },
                    Some(Request::Unmount { target: owned(CRASHCART_LOOP_DIR) }),
                );
            }
            Teardown::CheckLoopDir
        },
        Teardown::UnmountLoopDir => Teardown::CheckLoopDir,
        Teardown::CheckLoopDir => {
            if is_present(&response) {
                return (
                    UnmountState::Working { guard, stage: Teardown::RemoveLoopDir },
                    Some(Request::RemoveDir { path: owned(CRASHCART_LOOP_DIR) }),
                );
            }
            return do_leave_target(image, guard);
        },
        Teardown::RemoveLoopDir => {
            return do_leave_target(image, guard);
        },
    };
    let request = match after_tree {
        Teardown::CheckTree => Request::PathExists { path: owned(CRASHCART_MOUNT_PATH) },
        Teardown::ProbeLoopDir => mount_table_request(),
        _ => Request::PathExists { path: owned(CRASHCART_LOOP_DIR) },
    };
    (UnmountState::Working { guard, stage: after_tree }, Some(request))
}

fn do_unmount(
    manager: &MountManager,
    nsenter_script: bool,
    pid: u32,
    image: &mut ImageManager,
    state: UnmountState,
    response: Option<Response>,
) -> (next: (UnmountState, Option<Request>))
    ensures
        (final(image)@, next.0@, request_view(next.1)) == unmount_step(
            nsenter_script,
            pid,
            old(image)@,
            state@,
            response_view(response),
        ),
{
    match state {
        UnmountState::Start => {
            if nsenter_script {
                (
                    UnmountState::Scripting,
                    Some(Request::Run { command: nsenter(pid, UNMOUNT_SCRIPT) }),
                )
            } else {
                let (entry, request) = enter_single_namespace(
                    pid,
                    NamespaceKind::Mnt,
                    Entry::Start,
                    None,
                );
                (UnmountState::Entering { entry }, request)
            }
        },
        UnmountState::Scripting => do_begin_release(image),
        UnmountState::Entering { entry } => {
            let (entry, request) = enter_single_namespace(pid, NamespaceKind::Mnt, entry, response);
            match entry {
                Entry::Entered { guard } => (
                    UnmountState::Working { guard, stage: Teardown::ProbeTree },
                    Some(mount_table_request()),
                ),
                Entry::Failed { .. } => do_begin_release(image),
                _ => (UnmountState::Entering { entry }, request),
            }
        },
        UnmountState::Working { guard, stage } => do_teardown(manager, image, guard, stage, response),
        UnmountState::Leaving => do_begin_release(image),
        UnmountState::Releasing { cleanup } => {
            let (cleanup, request) = image.cleanup_loop_device(cleanup, response);
            do_after_release(cleanup, request)
        },
        UnmountState::Finished { failure } => (UnmountState::Finished { failure }, None),
    }
}

impl MountManager {
    /// One step of taking the image out of the target `pid`, with the
    /// caller itself working in the target's mount namespace: from the state
    /// and the host's answer to the last request, the next state and the
    /// next request. The first step takes `UnmountState::Start` and no
    /// answer; `None` comes back as request once the state is `Finished`.
    /// See [`unmount_step`].
    pub fn unmount(
        &self,
        pid: u32,
        image: &mut ImageManager,
        state: UnmountState,
        response: Option<Response>,
    ) -> (next: (UnmountState, Option<Request>))
        ensures
            (final(image)@, next.0@, request_view(next.1)) == unmount_step(
                false,
                pid,
                old(image)@,
                state@,
                response_view(response),
            ),
    {
        do_unmount(self, false, pid, image, state, response)
    }

    /// One step of taking the image out of the target `pid` by a script
    /// that `nsenter` runs in the target's mount namespace: from the state and
    /// the host's answer to the last request, the next state and the next
    /// request. The first step takes `UnmountState::Start` and no answer;
    /// `None` comes back as request once the state is `Finished`. See
    /// [`unmount_step`].
    pub fn unmount_with_nsenter(
        &self,
        pid: u32,
        image: &mut ImageManager,
        state: UnmountState,
        response: Option<Response>,
    ) -> (next: (UnmountState, Option<Request>))
        ensures
            (final(image)@, next.0@, request_view(next.1)) == unmount_step(
                true,
                pid,
                old(image)@,
                state@,
                response_view(response),
            ),
    {
        do_unmount(self, true, pid, image, state, response)
    }
}

} // verus!
