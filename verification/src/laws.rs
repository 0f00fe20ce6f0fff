//! What holds of every run of the pipeline against the model of the host.
use vstd::prelude::*;
use crate::host::{NamespaceKind, RequestView, ResponseView};
use crate::image::{
    associate_invocation, cleanup_step, detach_invocation, find_free_invocation, setup_step,
    ImageManagerView, LoopCleanupView, LoopSetupView, IMAGE_HEADER_SIZE,
};
use crate::model::{
    advance, answers, answers_well, carried_out, faultless_run, lemma_kept_by_faultless,
    lemma_kept_by_plausible, plausible, plausible_run, run_on, Machine, Run, Tree,
    World,
};
use crate::failure::FailureView;
use crate::mount::{
    after_binding, fail_outside, leave, loop_minor, make_device_node,
    make_dir, mount_image, mount_step, mount_tmpfs, read_mount_table,
    recorded_device, work_step, write_rc_file, MountStateView, Stage, Strategy,
    CRASHCART_DEVICE_NODE, CRASHCART_LOOP_DIR, CRASHCART_MOUNT_PATH,
};
use crate::namespace::{
    entry_step, own_namespace_path, target_namespace_path, EntryView, NamespaceGuard,
};
use crate::unmount::{
    begin_release, teardown_step, unmount_step, Teardown, UnmountStateView,
};

verus! {

/// Mounting in the target `pid`, as a step function.
pub open spec fn mounting(strategy: Strategy, pid: u32) -> Machine<MountStateView> {
    |image: ImageManagerView, state: MountStateView, response: Option<ResponseView>|
        mount_step(strategy, pid, image, state, response)
}

/// Taking the image out of the target `pid`, as a step function.
pub open spec fn unmounting(nsenter: bool, pid: u32) -> Machine<UnmountStateView> {
    |image: ImageManagerView, state: UnmountStateView, response: Option<ResponseView>|
        unmount_step(nsenter, pid, image, state, response)
}

/// The run of a step function before its first step.
pub open spec fn start<S>(state: S, image: ImageManagerView, world: World) -> Run<S> {
    Run { image, state, pending: None, world }
}

/// Whether `guard` can put the caller back into the namespace it started
/// in: it holds a descriptor that is open on that namespace, or it holds
/// nothing and the caller never left.
pub open spec fn guards_home(world: World, guard: NamespaceGuard) -> bool {
    match guard.original {
        Some(d) => world.open.dom().contains(d.descriptor) && world.open[d.descriptor]
            == world.home,
        None => world.attached == world.home,
    }
}

/// Whether a request leaves the caller where it is and the open descriptors as they are.
pub open spec fn stays(pending: Option<RequestView>) -> bool {
    pending matches Some(request) ==> !(request is SetNamespace) && !(request is OpenNamespace)
}

/// Whether entering the mount namespace has the caller where the state of
/// entering says it is.
pub open spec fn entering_from_home(world: World, entry: EntryView, pending: Option<RequestView>) -> bool {
    match entry {
        EntryView::Start => world.attached == world.home && pending is None,
        EntryView::OpeningCurrent => world.attached == world.home && pending == Some(
            RequestView::OpenNamespace { path: own_namespace_path(NamespaceKind::Mnt) },
        ),
        EntryView::OpeningTarget { current } => {
            &&& world.attached == world.home
            &&& pending matches Some(RequestView::OpenNamespace { .. })
            &&& world.open.dom().contains(current.descriptor)
            &&& world.open[current.descriptor] == world.home
        },
        EntryView::Attaching { current } => {
            &&& world.attached == world.home
            &&& pending matches Some(RequestView::SetNamespace { .. })
            &&& world.open.dom().contains(current.descriptor)
            &&& world.open[current.descriptor] == world.home
        },
        EntryView::Elevating { current } => {
            &&& stays(pending)
            &&& world.open.dom().contains(current.descriptor)
            &&& world.open[current.descriptor] == world.home
        },
        EntryView::Entered { guard } => guards_home(world, guard) && pending is None,
        EntryView::Failed { .. } => world.attached == world.home && pending is None,
    }
}

/// Whether the request that puts the caller back is pending.
pub open spec fn returning_home(world: World, pending: Option<RequestView>) -> bool {
    pending matches Some(RequestView::SetNamespace { descriptor, .. })
        && world.open.dom().contains(descriptor) && world.open[descriptor] == world.home
}

/// Where the caller is while the image is mounted: in the namespace it
/// started in, or in the target's with the way back at hand.
pub open spec fn mount_at_home(world: World, state: MountStateView, pending: Option<RequestView>) -> bool {
    match state {
        MountStateView::Entering { entry, .. } => {
            &&& entering_from_home(world, entry, pending)
            &&& !(entry is Start) && !(entry is Entered) && !(entry is Failed)
        },
        MountStateView::Working { guard, .. } => guards_home(world, guard) && stays(pending)
            && pending is Some,
        MountStateView::Leaving { .. } => returning_home(world, pending),
        MountStateView::Finished { .. } => world.attached == world.home && pending is None,
        _ => world.attached == world.home && stays(pending),
    }
}

/// See [`mount_at_home`].
pub open spec fn mount_keeps_home(run: Run<MountStateView>) -> bool {
    mount_at_home(run.world, run.state, run.pending)
}

proof fn lemma_fail_outside_home(world: World, image: ImageManagerView, failure: FailureView, fresh: bool)
    requires
        world.attached == world.home,
    ensures
        mount_at_home(
            world,
            fail_outside(image, failure, fresh).1,
            fail_outside(image, failure, fresh).2,
        ),
{
}

proof fn lemma_leave_home(
    world: World,
    image: ImageManagerView,
    guard: NamespaceGuard,
    failure: Option<FailureView>,
    fresh: bool,
)
    requires
        guards_home(world, guard),
    ensures
        mount_at_home(
            world,
            leave(image, guard, failure, fresh).1,
            leave(image, guard, failure, fresh).2,
        ),
{
    if guard.original is None {
        if failure is Some {
            lemma_fail_outside_home(world, image, failure->0, fresh);
        }
    }
}

proof fn lemma_work_home(
    world: World,
    image: ImageManagerView,
    guard: NamespaceGuard,
    fresh: bool,
    stage: Stage,
    response: Option<ResponseView>,
)
    requires
        guards_home(world, guard),
    ensures
        mount_at_home(
            world,
            work_step(image, guard, fresh, stage, response).1,
            work_step(image, guard, fresh, stage, response).2,
        ),
{
    let turn = work_step(image, guard, fresh, stage, response);
    if !(turn.1 is Working) {
        assert forall|failure: Option<FailureView>|
            mount_at_home(
                world,
                (#[trigger] leave(image, guard, failure, fresh)).1,
                leave(image, guard, failure, fresh).2,
            ) by {
            lemma_leave_home(world, image, guard, failure, fresh);
        }
    }
}

proof fn lemma_entry_home(
    pid: u32,
    world: World,
    entry: EntryView,
    pending: Option<RequestView>,
    response: Option<ResponseView>,
)
    requires
        entering_from_home(world, entry, pending),
        !(entry is Entered) && !(entry is Failed),
        match pending {
            Some(request) => response matches Some(answer) && plausible(world, request, answer),
            None => response is None,
        },
    ensures
        entering_from_home(
            match (pending, response) {
                (Some(request), Some(answer)) => carried_out(world, request, answer),
                _ => world,
            },
            entry_step(pid, NamespaceKind::Mnt, entry, response).0,
            entry_step(pid, NamespaceKind::Mnt, entry, response).1,
        ),
        !(entry_step(pid, NamespaceKind::Mnt, entry, response).0 is Start),
{
}

proof fn lemma_after_binding_home(
    strategy: Strategy,
    pid: u32,
    world: World,
    image: ImageManagerView,
    setup: LoopSetupView,
    request: Option<RequestView>,
    fresh: bool,
)
    requires
        world.attached == world.home,
        stays(request),
    ensures
        mount_at_home(
            world,
            after_binding(strategy, pid, image, setup, request, fresh).1,
            after_binding(strategy, pid, image, setup, request, fresh).2,
        ),
{
    if setup is Bound {
        match strategy {
            Strategy::InProcess => {},
            Strategy::Nsenter => {
                assert forall|failure: FailureView|
                    mount_at_home(
                        world,
                        (#[trigger] fail_outside(image, failure, fresh)).1,
                        fail_outside(image, failure, fresh).2,
                    ) by {
                    lemma_fail_outside_home(world, image, failure, fresh);
                }
            },
        }
    }
}

/// Every plausible answer keeps [`mount_keeps_home`].
pub proof fn lemma_mount_keeps_home(
    strategy: Strategy,
    pid: u32,
    run: Run<MountStateView>,
    response: Option<ResponseView>,
)
    requires
        mount_keeps_home(run),
        answers(run, response),
    ensures
        mount_keeps_home(advance(mounting(strategy, pid), run, response)),
{
    let next = advance(mounting(strategy, pid), run, response);
    let world = next.world;
    let image = run.image;
    assert((next.image, next.state, next.pending) == mount_step(
        strategy,
        pid,
        image,
        run.state,
        response,
    ));
    match run.state {
        MountStateView::Start => {},
        MountStateView::Verifying => {
            assert(world.attached == world.home);
            assert forall|i: ImageManagerView, s: LoopSetupView, r: Option<RequestView>, f: bool|
                stays(r) implies mount_at_home(
                world,
                (#[trigger] after_binding(strategy, pid, i, s, r, f)).1,
                after_binding(strategy, pid, i, s, r, f).2,
            ) by {
                lemma_after_binding_home(strategy, pid, world, i, s, r, f);
            }
        },
        MountStateView::Binding { setup, fresh } => {
            assert(world.attached == world.home);
            assert forall|i: ImageManagerView, s: LoopSetupView, r: Option<RequestView>, f: bool|
                stays(r) implies mount_at_home(
                world,
                (#[trigger] after_binding(strategy, pid, i, s, r, f)).1,
                after_binding(strategy, pid, i, s, r, f).2,
            ) by {
                lemma_after_binding_home(strategy, pid, world, i, s, r, f);
            }
        },
        MountStateView::Scripting { fresh } => {
            assert(world.attached == world.home);
            assert forall|failure: FailureView|
                mount_at_home(
                    world,
                    (#[trigger] fail_outside(image, failure, fresh)).1,
                    fail_outside(image, failure, fresh).2,
                ) by {
                lemma_fail_outside_home(world, image, failure, fresh);
            }
        },
        MountStateView::Entering { entry, fresh } => {
            lemma_entry_home(pid, run.world, entry, run.pending, response);
            let stepped = entry_step(pid, NamespaceKind::Mnt, entry, response);
            if stepped.0 is Failed {
                lemma_fail_outside_home(world, image, stepped.0->failure, fresh);
            }
        },
        MountStateView::Working { guard, fresh, stage } => {
            assert(guards_home(world, guard));
            lemma_work_home(world, image, guard, fresh, stage, response);
        },
        MountStateView::Leaving { failure, fresh } => {
            assert(world.attached == world.home);
            if failure is Some {
                lemma_fail_outside_home(world, image, failure->0, fresh);
            }
        },
        MountStateView::RollingBack { cleanup, cause } => {},
        MountStateView::Finished { failure } => {},
    }
}

/// Where the caller is while the image is taken out: in the namespace it
/// started in, or in the target's with the way back at hand.
pub open spec fn unmount_at_home(
    world: World,
    state: UnmountStateView,
    pending: Option<RequestView>,
) -> bool {
    match state {
        UnmountStateView::Entering { entry } => {
            &&& entering_from_home(world, entry, pending)
            &&& !(entry is Start) && !(entry is Entered) && !(entry is Failed)
        },
        UnmountStateView::Working { guard, .. } => guards_home(world, guard) && stays(pending)
            && pending is Some,
        UnmountStateView::Leaving => returning_home(world, pending),
        UnmountStateView::Finished { .. } => world.attached == world.home && pending is None,
        _ => world.attached == world.home && stays(pending),
    }
}

/// See [`unmount_at_home`].
pub open spec fn unmount_keeps_home(run: Run<UnmountStateView>) -> bool {
    unmount_at_home(run.world, run.state, run.pending)
}

proof fn lemma_begin_release_home(world: World, image: ImageManagerView)
    requires
        world.attached == world.home,
    ensures
        unmount_at_home(world, begin_release(image).1, begin_release(image).2),
{
}

proof fn lemma_teardown_home(
    world: World,
    image: ImageManagerView,
    guard: NamespaceGuard,
    stage: Teardown,
    response: Option<ResponseView>,
)
    requires
        guards_home(world, guard),
    ensures
        unmount_at_home(
            world,
            teardown_step(image, guard, stage, response).1,
            teardown_step(image, guard, stage, response).2,
        ),
{
    if guard.original is None {
        lemma_begin_release_home(world, image);
    }
}

/// Every plausible answer keeps [`unmount_keeps_home`].
pub proof fn lemma_unmount_keeps_home(
    nsenter: bool,
    pid: u32,
    run: Run<UnmountStateView>,
    response: Option<ResponseView>,
)
    requires
        unmount_keeps_home(run),
        answers(run, response),
    ensures
        unmount_keeps_home(advance(unmounting(nsenter, pid), run, response)),
{
    let next = advance(unmounting(nsenter, pid), run, response);
    let world = next.world;
    let image = run.image;
    assert((next.image, next.state, next.pending) == unmount_step(
        nsenter,
        pid,
        image,
        run.state,
        response,
    ));
    match run.state {
        UnmountStateView::Start => {},
        UnmountStateView::Scripting => {
            lemma_begin_release_home(world, image);
        },
        UnmountStateView::Entering { entry } => {
            lemma_entry_home(pid, run.world, entry, run.pending, response);
            let stepped = entry_step(pid, NamespaceKind::Mnt, entry, response);
            if stepped.0 is Failed {
                lemma_begin_release_home(world, image);
            }
        },
        UnmountStateView::Working { guard, stage } => {
            assert(guards_home(world, guard));
            lemma_teardown_home(world, image, guard, stage, response);
        },
        UnmountStateView::Leaving => {
            assert(world.attached == world.home);
            lemma_begin_release_home(world, image);
        },
        UnmountStateView::Releasing { cleanup } => {},
        UnmountStateView::Finished { failure } => {},
    }
}

/// Namespace restoration. Whatever the host answers while the image is
/// mounted, as long as it is plausible, and whether mounting ends well or
/// badly: once it has ended, the caller is attached to the mount namespace
/// that it started in.
pub proof fn law_mount_restores_namespace(
    strategy: Strategy,
    pid: u32,
    image: ImageManagerView,
    world: World,
    responses: Seq<Option<ResponseView>>,
)
    requires
        world.attached == world.home,
        plausible_run(mounting(strategy, pid), start(MountStateView::Start, image, world), responses),
    ensures
        ({
            let end = run_on(
                mounting(strategy, pid),
                start(MountStateView::Start, image, world),
                responses,
            );
            end.state is Finished ==> end.world.attached == world.home
        }),
{
    let machine = mounting(strategy, pid);
    let kept = |r: Run<MountStateView>| mount_keeps_home(r) && r.world.home == world.home;
    assert forall|r: Run<MountStateView>, a: Option<ResponseView>|
        kept(r) && answers(r, a) implies #[trigger] kept(advance(machine, r, a)) by {
        lemma_mount_keeps_home(strategy, pid, r, a);
    }
    lemma_kept_by_plausible(machine, kept, start(MountStateView::Start, image, world), responses);
}

/// Namespace restoration. Whatever the host answers while the image is
/// taken out, as long as it is plausible, and whatever taking it out comes
/// to: once it has ended, the caller is attached to the mount namespace that
/// it started in.
pub proof fn law_unmount_restores_namespace(
    nsenter: bool,
    pid: u32,
    image: ImageManagerView,
    world: World,
    responses: Seq<Option<ResponseView>>,
)
    requires
        world.attached == world.home,
        plausible_run(
            unmounting(nsenter, pid),
            start(UnmountStateView::Start, image, world),
            responses,
        ),
    ensures
        ({
            let end = run_on(
                unmounting(nsenter, pid),
                start(UnmountStateView::Start, image, world),
                responses,
            );
            end.state is Finished ==> end.world.attached == world.home
        }),
{
    let machine = unmounting(nsenter, pid);
    let kept = |r: Run<UnmountStateView>| unmount_keeps_home(r) && r.world.home == world.home;
    assert forall|r: Run<UnmountStateView>, a: Option<ResponseView>|
        kept(r) && answers(r, a) implies #[trigger] kept(advance(machine, r, a)) by {
        lemma_unmount_keeps_home(nsenter, pid, r, a);
    }
    lemma_kept_by_plausible(
        machine,
        kept,
        start(UnmountStateView::Start, image, world),
        responses,
    );
}

/// The two paths that the pipeline mounts at are two paths.
pub proof fn lemma_paths_differ()
    ensures
        CRASHCART_MOUNT_PATH@ != CRASHCART_LOOP_DIR@,
{
    reveal_strlit("/dev/crashcart");
    reveal_strlit("/dev/cc-loop");
    assert(CRASHCART_MOUNT_PATH@.len() == 14);
    assert(CRASHCART_LOOP_DIR@.len() == 12);
}

/// A loop device is not the option that releases one.
pub proof fn lemma_device_is_no_option(device: Seq<char>)
    requires
        loop_minor(device) is Some,
    ensures
        device != "-d"@,
{
    reveal_strlit("/dev/loop");
    reveal_strlit("-d");
    assert("/dev/loop"@[0] == '/');
    assert(device.subrange(0, 9)[0] == device[0]);
}

/// Whether the handle and the host fit at the start of a run: the caller
/// is in the namespace it started in, the handle is the handle of the host's
/// image, and a device that the handle records is a loop device and bound.
pub open spec fn fit(pid: u32, image: ImageManagerView, world: World) -> bool {
    &&& world.pid == pid
    &&& world.attached == world.home
    &&& image.image_path == world.image_path
    &&& image.loop_device matches Some(device) ==> world.bound.contains(device) && loop_minor(
        device,
    ) is Some
}

/// What does not change in a run that began with `origin`.
pub open spec fn settled(origin: World, world: World) -> bool {
    &&& world.pid == origin.pid
    &&& world.image_path == origin.image_path
    &&& world.home == origin.home
    &&& world.target == origin.target
    &&& world.outside == origin.outside
}

/// Whether the image is bound as a run that began with `first` and
/// `origin` has it once it is bound: to the device that the handle recorded
/// at the start, with nothing bound anew; or to a device that was free.
pub open spec fn bound_on_course(
    first: ImageManagerView,
    origin: World,
    image: ImageManagerView,
    world: World,
) -> bool {
    &&& image.image_path == first.image_path
    &&& image.loop_device matches Some(device) && loop_minor(device) is Some && match first.loop_device {
        Some(recorded) => device == recorded && world.bound == origin.bound,
        None => world.bound == origin.bound.insert(device) && !origin.bound.contains(device),
    }
}

/// What is in the target once mounting has ended well, where `before` was there before.
pub open spec fn mounted_from(before: Tree) -> Tree {
    if before.tree_mounted {
        before
    } else {
        Tree::injected()
    }
}

/// Whether `tree` and the pending request are what the stage has them be,
/// where `before` was in the target at the start.
pub open spec fn staged(
    before: Tree,
    tree: Tree,
    stage: Stage,
    pending: Option<RequestView>,
    device: Seq<char>,
) -> bool {
    let dirs = Tree { loop_dir: true, tree_dir: true, ..before };
    let tmpfs = Tree { loop_mounted: true, ..dirs };
    match stage {
        Stage::ProbeTree => tree == before && pending == Some(read_mount_table()),
        Stage::MakeLoopDir => !before.tree_mounted && tree == before && pending == Some(
            make_dir(CRASHCART_LOOP_DIR@),
        ),
        Stage::MakeMountDir => !before.tree_mounted && tree == (Tree { loop_dir: true, ..before })
            && pending == Some(make_dir(CRASHCART_MOUNT_PATH@)),
        Stage::ProbeLoopDir => !before.tree_mounted && tree == dirs && pending == Some(
            read_mount_table(),
        ),
        Stage::MountTmpfs => !before.tree_mounted && !before.loop_mounted && tree == dirs && pending
            == Some(mount_tmpfs()),
        Stage::MakeNode => !before.tree_mounted && tree == tmpfs && pending == Some(
            make_device_node(CRASHCART_DEVICE_NODE@, loop_minor(device)->0),
        ),
        Stage::MountImage { failed } => !before.tree_mounted && failed == 0 && tree == (Tree {
            node: true,
            ..tmpfs
        }) && pending == Some(mount_image(CRASHCART_DEVICE_NODE@, 0)),
        Stage::WriteRc => !before.tree_mounted && tree == (Tree {
            node: true,
            tree_mounted: true,
            ..tmpfs
        }) && pending == Some(write_rc_file()),
    }
}

/// Whether a run of mounting, with the caller working in the target, is
/// where a host on which nothing fails has it: see the cases.
pub open spec fn mount_on_course(first: ImageManagerView, origin: World, run: Run<MountStateView>) -> bool {
    let world = run.world;
    let image = run.image;
    let before = origin.inside;
    &&& settled(origin, world)
    &&& match run.state {
        MountStateView::Start => {
            &&& run.pending is None
            &&& image == first
            &&& world.bound == origin.bound
            &&& world.inside == before
            &&& world.attached == world.home
        },
        MountStateView::Verifying => {
            &&& run.pending == Some(
                RequestView::ReadFile { path: image.image_path, at_most: IMAGE_HEADER_SIZE },
            )
            &&& image == first
            &&& world.bound == origin.bound
            &&& world.inside == before
            &&& world.attached == world.home
        },
        MountStateView::Binding { setup, fresh } => {
            &&& fresh
            &&& image == first
            &&& first.loop_device is None
            &&& world.bound == origin.bound
            &&& world.inside == before
            &&& world.attached == world.home
            &&& match setup {
                LoopSetupView::Finding => run.pending == Some(
                    RequestView::Run { command: find_free_invocation() },
                ),
                LoopSetupView::Associating { device } => {
                    &&& run.pending == Some(
                        RequestView::Run {
                            command: associate_invocation(device, image.image_path),
                        },
                    )
                    &&& !origin.bound.contains(device)
                    &&& loop_minor(device) is Some
                },
                _ => false,
            }
        },
        MountStateView::Entering { entry, fresh } => {
            &&& fresh == (first.loop_device is None)
            &&& bound_on_course(first, origin, image, world)
            &&& world.inside == before
            &&& world.attached == world.home
            &&& match entry {
                EntryView::OpeningCurrent => run.pending == Some(
                    RequestView::OpenNamespace { path: own_namespace_path(NamespaceKind::Mnt) },
                ),
                EntryView::OpeningTarget { current } => {
                    &&& run.pending == Some(
                        RequestView::OpenNamespace {
                            path: target_namespace_path(world.pid, NamespaceKind::Mnt),
                        },
                    )
                    &&& world.open.dom().contains(current.descriptor)
                    &&& world.open[current.descriptor] == world.home
                    &&& (current.device, current.inode) == world.home
                },
                EntryView::Attaching { current } => {
                    &&& run.pending matches Some(RequestView::SetNamespace { descriptor, kind })
                    &&& world.open.dom().contains(descriptor)
                    &&& world.open[descriptor] == world.target
                    &&& world.open.dom().contains(current.descriptor)
                    &&& world.open[current.descriptor] == world.home
                },
                _ => false,
            }
        },
        MountStateView::Working { guard, fresh, stage } => {
            &&& fresh == (first.loop_device is None)
            &&& bound_on_course(first, origin, image, world)
            &&& world.attached == world.target
            &&& guards_home(world, guard)
            &&& staged(before, world.inside, stage, run.pending, recorded_device(image))
        },
        MountStateView::Leaving { failure, fresh } => {
            &&& failure is None
            &&& bound_on_course(first, origin, image, world)
            &&& returning_home(world, run.pending)
            &&& world.inside == mounted_from(before)
        },
        MountStateView::Finished { failure } => {
            &&& failure is None
            &&& run.pending is None
            &&& bound_on_course(first, origin, image, world)
            &&& world.inside == mounted_from(before)
            &&& world.attached == world.home
        },
        _ => false,
    }
}

proof fn lemma_probe_on_course(
    pid: u32,
    first: ImageManagerView,
    origin: World,
    run: Run<MountStateView>,
    response: Option<ResponseView>,
)
    requires
        mount_on_course(first, origin, run),
        run.state matches MountStateView::Working { stage: Stage::ProbeTree, .. },
        answers_well(run, response),
    ensures
        mount_on_course(first, origin, advance(mounting(Strategy::InProcess, pid), run, response)),
{
    let next = advance(mounting(Strategy::InProcess, pid), run, response);
    let guard = run.state->Working_guard;
    let fresh = run.state->Working_fresh;
    assert((next.image, next.state, next.pending) == work_step(
        run.image,
        guard,
        fresh,
        Stage::ProbeTree,
        response,
    ));
    assert(run.world.here() == run.world.inside);
    assert(next.world == run.world);
}

proof fn lemma_work_on_course(
    pid: u32,
    first: ImageManagerView,
    origin: World,
    run: Run<MountStateView>,
    response: Option<ResponseView>,
)
    requires
        mount_on_course(first, origin, run),
        run.state is Working,
        answers_well(run, response),
    ensures
        mount_on_course(first, origin, advance(mounting(Strategy::InProcess, pid), run, response)),
{
    let stage = run.state->stage;
    if stage == Stage::ProbeTree {
        lemma_probe_on_course(pid, first, origin, run, response);
    } else {
        lemma_paths_differ();
        let next = advance(mounting(Strategy::InProcess, pid), run, response);
        let guard = run.state->Working_guard;
        let fresh = run.state->Working_fresh;
        assert((next.image, next.state, next.pending) == work_step(
            run.image,
            guard,
            fresh,
            stage,
            response,
        ));
        assert(run.world.here() == run.world.inside);
        assert(next.world == carried_out(run.world, run.pending->0, response->0));
        assert(guards_home(next.world, guard));
    }
}

/// Every answer of a host on which nothing fails keeps [`mount_on_course`].
pub proof fn lemma_mount_on_course(
    pid: u32,
    first: ImageManagerView,
    origin: World,
    run: Run<MountStateView>,
    response: Option<ResponseView>,
)
    requires
        fit(pid, first, origin),
        mount_on_course(first, origin, run),
        answers_well(run, response),
    ensures
        mount_on_course(first, origin, advance(mounting(Strategy::InProcess, pid), run, response)),
{
    let next = advance(mounting(Strategy::InProcess, pid), run, response);
    assert((next.image, next.state, next.pending) == mount_step(
        Strategy::InProcess,
        pid,
        run.image,
        run.state,
        response,
    ));
    match run.state {
        MountStateView::Start => {},
        MountStateView::Verifying => {},
        MountStateView::Binding { setup, fresh } => {
            if setup is Associating {
                lemma_device_is_no_option(setup->Associating_device);
            }
        },
        MountStateView::Entering { entry, fresh } => {},
        MountStateView::Working { .. } => {
            lemma_work_on_course(pid, first, origin, run, response);
        },
        MountStateView::Leaving { .. } => {},
        MountStateView::Finished { .. } => {},
        _ => {},
    }
}

/// Whether `tree` and the pending request are what the stage of taking
/// the image out has them be, where `before` was in the target at the start.
pub open spec fn unstaged(before: Tree, tree: Tree, stage: Teardown, pending: Option<RequestView>) -> bool {
    let unmounted = if before.tree_mounted {
        Tree { tree_mounted: false, rc_file: false, ..before }
    } else {
        before
    };
    let removed = Tree { tree_mounted: false, tree_dir: false, rc_file: false, ..before };
    let released = if before.loop_mounted {
        Tree { loop_mounted: false, node: false, ..removed }
    } else {
        removed
    };
    match stage {
        Teardown::ProbeTree => tree == before && pending == Some(read_mount_table()),
        Teardown::UnmountTree => before.tree_mounted && tree == before && pending == Some(
            RequestView::Unmount { target: CRASHCART_MOUNT_PATH@ },
        ),
        Teardown::CheckTree => tree == unmounted && pending == Some(
            RequestView::PathExists { path: CRASHCART_MOUNT_PATH@ },
        ),
        Teardown::RemoveTree => unmounted.tree_dir && tree == unmounted && pending == Some(
            RequestView::RemoveDir { path: CRASHCART_MOUNT_PATH@ },
        ),
        Teardown::ProbeLoopDir => tree == removed && pending == Some(read_mount_table()),
        Teardown::UnmountLoopDir => before.loop_mounted && tree == removed && pending == Some(
            RequestView::Unmount { target: CRASHCART_LOOP_DIR@ },
        ),
        Teardown::CheckLoopDir => tree == released && pending == Some(
            RequestView::PathExists { path: CRASHCART_LOOP_DIR@ },
        ),
        Teardown::RemoveLoopDir => released.loop_dir && tree == released && pending == Some(
            RequestView::RemoveDir { path: CRASHCART_LOOP_DIR@ },
        ),
    }
}

/// The loop devices that are bound once the device that `first` records was released.
pub open spec fn released_from(first: ImageManagerView, bound: Set<Seq<char>>) -> Set<Seq<char>> {
    match first.loop_device {
        Some(device) => bound.remove(device),
        None => bound,
    }
}

/// Whether a run of taking the image out, with the caller working in the
/// target, is where a host on which nothing fails has it: see the cases.
pub open spec fn unmount_on_course(
    first: ImageManagerView,
    origin: World,
    run: Run<UnmountStateView>,
) -> bool {
    let world = run.world;
    let before = origin.inside;
    &&& settled(origin, world)
    &&& match run.state {
        UnmountStateView::Start => {
            &&& run.pending is None
            &&& run.image == first
            &&& world.bound == origin.bound
            &&& world.inside == before
            &&& world.attached == world.home
        },
        UnmountStateView::Entering { entry } => {
            &&& run.image == first
            &&& world.bound == origin.bound
            &&& world.inside == before
            &&& world.attached == world.home
            &&& match entry {
                EntryView::OpeningCurrent => run.pending == Some(
                    RequestView::OpenNamespace { path: own_namespace_path(NamespaceKind::Mnt) },
                ),
                EntryView::OpeningTarget { current } => {
                    &&& run.pending == Some(
                        RequestView::OpenNamespace {
                            path: target_namespace_path(world.pid, NamespaceKind::Mnt),
                        },
                    )
                    &&& world.open.dom().contains(current.descriptor)
                    &&& world.open[current.descriptor] == world.home
                    &&& (current.device, current.inode) == world.home
                },
                EntryView::Attaching { current } => {
                    &&& run.pending matches Some(RequestView::SetNamespace { descriptor, kind })
                    &&& world.open.dom().contains(descriptor)
                    &&& world.open[descriptor] == world.target
                    &&& world.open.dom().contains(current.descriptor)
                    &&& world.open[current.descriptor] == world.home
                },
                _ => false,
            }
        },
        UnmountStateView::Working { guard, stage } => {
            &&& run.image == first
            &&& world.bound == origin.bound
            &&& world.attached == world.target
            &&& guards_home(world, guard)
            &&& unstaged(before, world.inside, stage, run.pending)
        },
        UnmountStateView::Leaving => {
            &&& run.image == first
            &&& world.bound == origin.bound
            &&& returning_home(world, run.pending)
            &&& world.inside == Tree::clean()
        },
        UnmountStateView::Releasing { cleanup } => {
            &&& cleanup is Detaching
            &&& run.image == first
            &&& first.loop_device matches Some(device) && run.pending == Some(
                RequestView::Run { command: detach_invocation(device) },
            )
            &&& world.bound == origin.bound
            &&& world.inside == Tree::clean()
            &&& world.attached == world.home
        },
        UnmountStateView::Finished { failure } => {
            &&& failure is None
            &&& run.pending is None
            &&& run.image == (ImageManagerView { loop_device: None, ..first })
            &&& world.bound == released_from(first, origin.bound)
            &&& world.inside == Tree::clean()
            &&& world.attached == world.home
        },
        _ => false,
    }
}

proof fn lemma_teardown_on_course(
    pid: u32,
    first: ImageManagerView,
    origin: World,
    run: Run<UnmountStateView>,
    response: Option<ResponseView>,
)
    requires
        origin.inside.well_formed(),
        unmount_on_course(first, origin, run),
        run.state is Working,
        answers_well(run, response),
    ensures
        unmount_on_course(first, origin, advance(unmounting(false, pid), run, response)),
{
    lemma_paths_differ();
    let next = advance(unmounting(false, pid), run, response);
    let guard = run.state->guard;
    let stage = run.state->stage;
    assert((next.image, next.state, next.pending) == teardown_step(
        run.image,
        guard,
        stage,
        response,
    ));
    assert(run.world.here() == run.world.inside);
    assert(next.world == carried_out(run.world, run.pending->0, response->0));
    assert(guards_home(next.world, guard));
    match stage {
        Teardown::ProbeTree => {},
        Teardown::UnmountTree => {},
        Teardown::CheckTree => {},
        Teardown::RemoveTree => {},
        Teardown::ProbeLoopDir => {},
        Teardown::UnmountLoopDir => {},
        Teardown::CheckLoopDir => {},
        Teardown::RemoveLoopDir => {},
    }
}

/// Every answer of a host on which nothing fails keeps [`unmount_on_course`].
pub proof fn lemma_unmount_on_course(
    pid: u32,
    first: ImageManagerView,
    origin: World,
    run: Run<UnmountStateView>,
    response: Option<ResponseView>,
)
    requires
        fit(pid, first, origin),
        origin.inside.well_formed(),
        unmount_on_course(first, origin, run),
        answers_well(run, response),
    ensures
        unmount_on_course(first, origin, advance(unmounting(false, pid), run, response)),
{
    let next = advance(unmounting(false, pid), run, response);
    assert((next.image, next.state, next.pending) == unmount_step(
        false,
        pid,
        run.image,
        run.state,
        response,
    ));
    match run.state {
        UnmountStateView::Start => {},
        UnmountStateView::Entering { entry } => {},
        UnmountStateView::Working { .. } => {
            lemma_teardown_on_course(pid, first, origin, run, response);
        },
        UnmountStateView::Leaving => {},
        UnmountStateView::Releasing { .. } => {},
        UnmountStateView::Finished { .. } => {},
        _ => {},
    }
}

/// A run of mounting against a host on which nothing fails stays on course.
pub proof fn lemma_mount_stays_on_course(
    pid: u32,
    image: ImageManagerView,
    world: World,
    responses: Seq<Option<ResponseView>>,
)
    requires
        fit(pid, image, world),
        faultless_run(
            mounting(Strategy::InProcess, pid),
            start(MountStateView::Start, image, world),
            responses,
        ),
    ensures
        mount_on_course(
            image,
            world,
            run_on(
                mounting(Strategy::InProcess, pid),
                start(MountStateView::Start, image, world),
                responses,
            ),
        ),
{
    let machine = mounting(Strategy::InProcess, pid);
    let kept = |r: Run<MountStateView>| mount_on_course(image, world, r);
    assert forall|r: Run<MountStateView>, a: Option<ResponseView>|
        kept(r) && answers_well(r, a) implies #[trigger] kept(advance(machine, r, a)) by {
        lemma_mount_on_course(pid, image, world, r, a);
    }
    lemma_kept_by_faultless(machine, kept, start(MountStateView::Start, image, world), responses);
}

/// A run of taking the image out against a host on which nothing fails stays on course.
pub proof fn lemma_unmount_stays_on_course(
    pid: u32,
    image: ImageManagerView,
    world: World,
    responses: Seq<Option<ResponseView>>,
)
    requires
        fit(pid, image, world),
        world.inside.well_formed(),
        faultless_run(unmounting(false, pid), start(UnmountStateView::Start, image, world), responses),
    ensures
        unmount_on_course(
            image,
            world,
            run_on(unmounting(false, pid), start(UnmountStateView::Start, image, world), responses),
        ),
{
    let machine = unmounting(false, pid);
    let kept = |r: Run<UnmountStateView>| unmount_on_course(image, world, r);
    assert forall|r: Run<UnmountStateView>, a: Option<ResponseView>|
        kept(r) && answers_well(r, a) implies #[trigger] kept(advance(machine, r, a)) by {
        lemma_unmount_on_course(pid, image, world, r, a);
    }
    lemma_kept_by_faultless(
        machine,
        kept,
        start(UnmountStateView::Start, image, world),
        responses,
    );
}

/// Mounting on a host on which nothing fails does not fail. Once it has
/// ended, the image is mounted in the target, the handle records the loop
/// device it is bound to, and that device is bound; nothing has changed in
/// any other mount namespace.
pub proof fn law_mount_succeeds(
    pid: u32,
    image: ImageManagerView,
    world: World,
    responses: Seq<Option<ResponseView>>,
)
    requires
        fit(pid, image, world),
        faultless_run(
            mounting(Strategy::InProcess, pid),
            start(MountStateView::Start, image, world),
            responses,
        ),
    ensures
        ({
            let end = run_on(
                mounting(Strategy::InProcess, pid),
                start(MountStateView::Start, image, world),
                responses,
            );
            end.state is Finished ==> {
                &&& end.state == MountStateView::Finished { failure: None }
                &&& end.world.inside.tree_mounted
                &&& end.world.inside == mounted_from(world.inside)
                &&& end.world.outside == world.outside
                &&& end.image.loop_device matches Some(device) && end.world.bound.contains(device)
                &&& fit(pid, end.image, end.world)
            }
        }),
{
    lemma_mount_stays_on_course(pid, image, world, responses);
}

/// Idempotent mount. Mounting twice in a row, on a host on which nothing
/// fails, leaves the host and the handle as mounting once leaves them: the
/// second call ends well and mounts nothing, creates nothing, and binds no
/// loop device.
pub proof fn law_mount_idempotent(
    pid: u32,
    image: ImageManagerView,
    world: World,
    first: Seq<Option<ResponseView>>,
    second: Seq<Option<ResponseView>>,
)
    requires
        fit(pid, image, world),
        faultless_run(
            mounting(Strategy::InProcess, pid),
            start(MountStateView::Start, image, world),
            first,
        ),
        run_on(
            mounting(Strategy::InProcess, pid),
            start(MountStateView::Start, image, world),
            first,
        ).state is Finished,
        ({
            let once = run_on(
                mounting(Strategy::InProcess, pid),
                start(MountStateView::Start, image, world),
                first,
            );
            let again = start(MountStateView::Start, once.image, once.world);
            &&& faultless_run(mounting(Strategy::InProcess, pid), again, second)
            &&& run_on(mounting(Strategy::InProcess, pid), again, second).state is Finished
        }),
    ensures
        ({
            let once = run_on(
                mounting(Strategy::InProcess, pid),
                start(MountStateView::Start, image, world),
                first,
            );
            let twice = run_on(
                mounting(Strategy::InProcess, pid),
                start(MountStateView::Start, once.image, once.world),
                second,
            );
            &&& twice.state == MountStateView::Finished { failure: None }
            &&& twice.image == once.image
            &&& twice.world.inside == once.world.inside
            &&& twice.world.outside == once.world.outside
            &&& twice.world.bound == once.world.bound
            &&& twice.world.attached == once.world.attached
        }),
{
    let machine = mounting(Strategy::InProcess, pid);
    let once = run_on(machine, start(MountStateView::Start, image, world), first);
    lemma_mount_stays_on_course(pid, image, world, first);
    assert(fit(pid, once.image, once.world));
    lemma_mount_stays_on_course(pid, once.image, once.world, second);
}

/// Symmetric teardown. After mounting and then taking the image out, on a
/// host on which nothing fails, neither the image nor the tmpfs is mounted
/// in the target, nothing of the pipeline is left there, and the loop
/// device that mounting reserved is bound no more.
pub proof fn law_symmetric_teardown(
    pid: u32,
    image: ImageManagerView,
    world: World,
    up: Seq<Option<ResponseView>>,
    down: Seq<Option<ResponseView>>,
)
    requires
        fit(pid, image, world),
        world.inside.well_formed(),
        faultless_run(
            mounting(Strategy::InProcess, pid),
            start(MountStateView::Start, image, world),
            up,
        ),
        run_on(
            mounting(Strategy::InProcess, pid),
            start(MountStateView::Start, image, world),
            up,
        ).state is Finished,
        ({
            let mounted = run_on(
                mounting(Strategy::InProcess, pid),
                start(MountStateView::Start, image, world),
                up,
            );
            let back = start(UnmountStateView::Start, mounted.image, mounted.world);
            &&& faultless_run(unmounting(false, pid), back, down)
            &&& run_on(unmounting(false, pid), back, down).state is Finished
        }),
    ensures
        ({
            let mounted = run_on(
                mounting(Strategy::InProcess, pid),
                start(MountStateView::Start, image, world),
                up,
            );
            let end = run_on(
                unmounting(false, pid),
                start(UnmountStateView::Start, mounted.image, mounted.world),
                down,
            );
            &&& end.state == UnmountStateView::Finished { failure: None }
            &&& !end.world.inside.tree_mounted
            &&& !end.world.inside.loop_mounted
            &&& end.world.inside == Tree::clean()
            &&& mounted.image.loop_device matches Some(device) && !end.world.bound.contains(device)
            &&& end.image.loop_device is None
            &&& end.world.attached == world.attached
        }),
{
    let mounted = run_on(
        mounting(Strategy::InProcess, pid),
        start(MountStateView::Start, image, world),
        up,
    );
    lemma_mount_stays_on_course(pid, image, world, up);
    assert(fit(pid, mounted.image, mounted.world));
    assert(mounted.world.inside.well_formed());
    lemma_unmount_stays_on_course(pid, mounted.image, mounted.world, down);
}

/// Round trip. On a target in which nothing of the pipeline is, with a
/// handle that is bound to nothing, mounting and then taking the image out,
/// on a host on which nothing fails, leaves the target, every other mount
/// namespace, the loop devices and the handle as they were.
pub proof fn law_mount_unmount_round_trip(
    pid: u32,
    image: ImageManagerView,
    world: World,
    up: Seq<Option<ResponseView>>,
    down: Seq<Option<ResponseView>>,
)
    requires
        fit(pid, image, world),
        world.inside == Tree::clean(),
        image.loop_device is None,
        faultless_run(
            mounting(Strategy::InProcess, pid),
            start(MountStateView::Start, image, world),
            up,
        ),
        run_on(
            mounting(Strategy::InProcess, pid),
            start(MountStateView::Start, image, world),
            up,
        ).state is Finished,
        ({
            let mounted = run_on(
                mounting(Strategy::InProcess, pid),
                start(MountStateView::Start, image, world),
                up,
            );
            let back = start(UnmountStateView::Start, mounted.image, mounted.world);
            &&& faultless_run(unmounting(false, pid), back, down)
            &&& run_on(unmounting(false, pid), back, down).state is Finished
        }),
    ensures
        ({
            let mounted = run_on(
                mounting(Strategy::InProcess, pid),
                start(MountStateView::Start, image, world),
                up,
            );
            let end = run_on(
                unmounting(false, pid),
                start(UnmountStateView::Start, mounted.image, mounted.world),
                down,
            );
            &&& mounted.world.inside == Tree::injected()
            &&& end.world.inside == world.inside
            &&& end.world.outside == world.outside
            &&& end.world.bound == world.bound
            &&& end.world.attached == world.attached
            &&& end.image == image
        }),
{
    let mounted = run_on(
        mounting(Strategy::InProcess, pid),
        start(MountStateView::Start, image, world),
        up,
    );
    lemma_mount_stays_on_course(pid, image, world, up);
    assert(fit(pid, mounted.image, mounted.world));
    lemma_unmount_stays_on_course(pid, mounted.image, mounted.world, down);
    let end = run_on(
        unmounting(false, pid),
        start(UnmountStateView::Start, mounted.image, mounted.world),
        down,
    );
    let device = mounted.image.loop_device->0;
    assert(world.bound.insert(device).remove(device) =~= world.bound);
}

/// Binding the image to a loop device, as a step function.
pub open spec fn binding() -> Machine<LoopSetupView> {
    |image: ImageManagerView, state: LoopSetupView, response: Option<ResponseView>|
        setup_step(image, state, response)
}

/// Releasing the loop device, as a step function.
pub open spec fn releasing() -> Machine<LoopCleanupView> {
    |image: ImageManagerView, state: LoopCleanupView, response: Option<ResponseView>|
        cleanup_step(image, state, response)
}

/// Whether a run of binding a handle that is bound to nothing is where a
/// host on which nothing fails has it.
pub open spec fn bind_on_course(first: ImageManagerView, origin: World, run: Run<LoopSetupView>) -> bool {
    let world = run.world;
    &&& first.loop_device is None
    &&& world == (World { bound: world.bound, ..origin })
    &&& match run.state {
        LoopSetupView::Start => run.pending is None && run.image == first && world.bound
            == origin.bound,
        LoopSetupView::Finding => {
            &&& run.pending == Some(RequestView::Run { command: find_free_invocation() })
            &&& run.image == first
            &&& world.bound == origin.bound
        },
        LoopSetupView::Associating { device } => {
            &&& run.pending == Some(
                RequestView::Run { command: associate_invocation(device, first.image_path) },
            )
            &&& run.image == first
            &&& world.bound == origin.bound
            &&& !origin.bound.contains(device)
            &&& loop_minor(device) is Some
        },
        LoopSetupView::Bound { device } => {
            &&& run.pending is None
            &&& run.image == (ImageManagerView { loop_device: Some(device), ..first })
            &&& world.bound == origin.bound.insert(device)
            &&& !origin.bound.contains(device)
        },
        LoopSetupView::Failed { .. } => false,
    }
}

/// Whether a run of releasing the loop device is where a host on which
/// nothing fails has it.
pub open spec fn release_on_course(
    first: ImageManagerView,
    origin: World,
    run: Run<LoopCleanupView>,
) -> bool {
    let world = run.world;
    &&& world == (World { bound: world.bound, ..origin })
    &&& match run.state {
        LoopCleanupView::Start => run.pending is None && run.image == first && world.bound
            == origin.bound,
        LoopCleanupView::Detaching => {
            &&& first.loop_device matches Some(device) && run.pending == Some(
                RequestView::Run { command: detach_invocation(device) },
            )
            &&& run.image == first
            &&& world.bound == origin.bound
        },
        LoopCleanupView::Released => {
            &&& run.pending is None
            &&& run.image == (ImageManagerView { loop_device: None, ..first })
            &&& world.bound == released_from(first, origin.bound)
        },
        LoopCleanupView::Failed { .. } => false,
    }
}

proof fn lemma_bind_on_course(
    first: ImageManagerView,
    origin: World,
    run: Run<LoopSetupView>,
    response: Option<ResponseView>,
)
    requires
        bind_on_course(first, origin, run),
        answers_well(run, response),
    ensures
        bind_on_course(first, origin, advance(binding(), run, response)),
{
    let next = advance(binding(), run, response);
    assert((next.image, next.state, next.pending) == setup_step(run.image, run.state, response));
    if run.state is Associating {
        lemma_device_is_no_option(run.state->Associating_device);
    }
}

proof fn lemma_release_on_course(
    first: ImageManagerView,
    origin: World,
    run: Run<LoopCleanupView>,
    response: Option<ResponseView>,
)
    requires
        release_on_course(first, origin, run),
        answers_well(run, response),
    ensures
        release_on_course(first, origin, advance(releasing(), run, response)),
{
    let next = advance(releasing(), run, response);
    assert((next.image, next.state, next.pending) == cleanup_step(run.image, run.state, response));
}

/// Loop round trip. Binding a handle that is bound to nothing and then
/// releasing it, on a host on which nothing fails, binds a device that was
/// free, releases that same device, and leaves the set of bound loop
/// devices, the rest of the host and the handle as they were.
pub proof fn law_loop_round_trip(
    image: ImageManagerView,
    world: World,
    bind: Seq<Option<ResponseView>>,
    release: Seq<Option<ResponseView>>,
)
    requires
        image.loop_device is None,
        faultless_run(binding(), start(LoopSetupView::Start, image, world), bind),
        run_on(binding(), start(LoopSetupView::Start, image, world), bind).state is Bound,
        ({
            let bound = run_on(binding(), start(LoopSetupView::Start, image, world), bind);
            let back = start(LoopCleanupView::Start, bound.image, bound.world);
            &&& faultless_run(releasing(), back, release)
            &&& run_on(releasing(), back, release).state.finished()
        }),
    ensures
        ({
            let bound = run_on(binding(), start(LoopSetupView::Start, image, world), bind);
            let end = run_on(
                releasing(),
                start(LoopCleanupView::Start, bound.image, bound.world),
                release,
            );
            &&& bound.image.loop_device matches Some(device) && !world.bound.contains(device)
                && bound.world.bound == world.bound.insert(device)
            &&& end.state == LoopCleanupView::Released
            &&& end.world.bound == world.bound
            &&& end.world == world
            &&& end.image == image
        }),
{
    let bound = run_on(binding(), start(LoopSetupView::Start, image, world), bind);
    let kept = |r: Run<LoopSetupView>| bind_on_course(image, world, r);
    assert forall|r: Run<LoopSetupView>, a: Option<ResponseView>|
        kept(r) && answers_well(r, a) implies #[trigger] kept(advance(binding(), r, a)) by {
        lemma_bind_on_course(image, world, r, a);
    }
    lemma_kept_by_faultless(binding(), kept, start(LoopSetupView::Start, image, world), bind);
    let back = start(LoopCleanupView::Start, bound.image, bound.world);
    let held = |r: Run<LoopCleanupView>| release_on_course(bound.image, bound.world, r);
    assert forall|r: Run<LoopCleanupView>, a: Option<ResponseView>|
        held(r) && answers_well(r, a) implies #[trigger] held(advance(releasing(), r, a)) by {
        lemma_release_on_course(bound.image, bound.world, r, a);
    }
    lemma_kept_by_faultless(releasing(), held, back, release);
    let device = bound.image.loop_device->0;
    assert(world.bound.insert(device).remove(device) =~= world.bound);
}

} // verus!
