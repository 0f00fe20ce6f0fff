//! A model of the host, and what the pipeline does to it.
//!
//! The library never touches the host: it hands out requests. What it
//! guarantees of the host is therefore stated over a model: what a request
//! does once it is carried out, and what the host answers where nothing
//! fails. The laws at the end of this file hold of every run of the step
//! functions against that model.
use vstd::prelude::*;
use crate::host::{NamespaceKind, RequestView, ResponseView};
use crate::image::{classify, find_free_invocation, free_device, ImageManagerView};
use crate::mount::{
    loop_minor, table_lists, CRASHCART_LOOP_DIR, CRASHCART_MOUNT_PATH, MOUNT_TABLE,
};
use crate::namespace::{own_namespace_path, target_namespace_path};

verus! {

/// What identifies a namespace: the device and the inode of its descriptor.
pub type NamespaceId = (u64, u64);

/// What the pipeline leaves behind in a mount namespace.
pub struct Tree {
    /// The image is mounted at the mount path.
    pub tree_mounted: bool,
    /// The mount path is there.
    pub tree_dir: bool,
    /// The tmpfs is mounted that holds the device node.
    pub loop_mounted: bool,
    /// The directory of the device node is there.
    pub loop_dir: bool,
    /// The device node is there.
    pub node: bool,
    /// The rc file is there.
    pub rc_file: bool,
}

impl Tree {
    /// Nothing of the pipeline is there.
    pub open spec fn clean() -> Tree {
        Tree {
            tree_mounted: false,
            tree_dir: false,
            loop_mounted: false,
            loop_dir: false,
            node: false,
            rc_file: false,
        }
    }

    /// The image is injected.
    pub open spec fn injected() -> Tree {
        Tree {
            tree_mounted: true,
            tree_dir: true,
            loop_mounted: true,
            loop_dir: true,
            node: true,
            rc_file: true,
        }
    }

    /// What is there stands where it can stand: a mount on its directory,
    /// the device node and the rc file in theirs.
    pub open spec fn well_formed(self) -> bool {
        &&& self.tree_mounted ==> self.tree_dir
        &&& self.rc_file ==> self.tree_dir
        &&& self.loop_mounted ==> self.loop_dir
        &&& self.node ==> self.loop_dir
    }
}

/// The host, as far as the pipeline changes it or asks about it.
pub struct World {
    /// The process that is the target.
    pub pid: u32,
    /// The image file.
    pub image_path: Seq<char>,
    /// The mount namespace that the caller started in.
    pub home: NamespaceId,
    /// The mount namespace of the target.
    pub target: NamespaceId,
    /// The mount namespace that the caller is attached to.
    pub attached: NamespaceId,
    /// The namespaces behind the descriptors that are open.
    pub open: Map<i32, NamespaceId>,
    /// The loop devices that are bound.
    pub bound: Set<Seq<char>>,
    /// What is there in the target's mount namespace.
    pub inside: Tree,
    /// What is there in any other mount namespace.
    pub outside: Tree,
}

impl World {
    /// What is there in the mount namespace that the caller is attached to.
    pub open spec fn here(self) -> Tree {
        if self.attached == self.target {
            self.inside
        } else {
            self.outside
        }
    }

    /// The world with `tree` in the mount namespace that the caller is attached to.
    pub open spec fn with_here(self, tree: Tree) -> World {
        if self.attached == self.target {
            World { inside: tree, ..self }
        } else {
            World { outside: tree, ..self }
        }
    }
}

/// `tree` once the request was carried out in its namespace.
pub open spec fn tree_after(tree: Tree, request: RequestView, response: ResponseView) -> Tree {
    match request {
        RequestView::MakeDir { path } => if response != ResponseView::Done {
            tree
        } else if path == CRASHCART_MOUNT_PATH@ {
            Tree { tree_dir: true, ..tree }
        } else if path == CRASHCART_LOOP_DIR@ {
            Tree { loop_dir: true, ..tree }
        } else {
            tree
        },
        RequestView::Mount { target, .. } => if response != ResponseView::Done {
            tree
        } else if target == CRASHCART_MOUNT_PATH@ {
            Tree { tree_mounted: true, ..tree }
        } else if target == CRASHCART_LOOP_DIR@ {
            Tree { loop_mounted: true, ..tree }
        } else {
            tree
        },
        RequestView::MakeNode { .. } => if response == ResponseView::Done {
            Tree { node: true, ..tree }
        } else {
            tree
        },
        RequestView::WriteFile { .. } => if response == ResponseView::Done {
            Tree { rc_file: true, ..tree }
        } else {
            tree
        },
        RequestView::Unmount { target } => if response != ResponseView::Done {
            tree
        } else if target == CRASHCART_MOUNT_PATH@ {
            Tree { tree_mounted: false, rc_file: false, ..tree }
        } else if target == CRASHCART_LOOP_DIR@ {
            Tree { loop_mounted: false, node: false, ..tree }
        } else {
            tree
        },
        RequestView::RemoveDir { path } => if response != ResponseView::Done {
            tree
        } else if path == CRASHCART_MOUNT_PATH@ {
            Tree { tree_dir: false, rc_file: false, ..tree }
        } else if path == CRASHCART_LOOP_DIR@ {
            Tree { loop_dir: false, node: false, ..tree }
        } else {
            tree
        },
        _ => tree,
    }
}

/// The loop devices that are bound once the process has run.
pub open spec fn bound_after(
    bound: Set<Seq<char>>,
    request: RequestView,
    response: ResponseView,
) -> Set<Seq<char>> {
    match request {
        RequestView::Run { command } => if command.program == "losetup"@ && command.args.len() == 2
            && response.succeeded() {
            if command.args[0] == "-d"@ {
                bound.remove(command.args[1])
            } else {
                bound.insert(command.args[0])
            }
        } else {
            bound
        },
        _ => bound,
    }
}

/// The host once `request` was answered with `response`: what the request
/// does where it is carried out, and nothing where the answer says that it
/// was not.
pub open spec fn carried_out(world: World, request: RequestView, response: ResponseView) -> World {
    match request {
        RequestView::Run { .. } => World {
            bound: bound_after(world.bound, request, response),
            ..world
        },
        RequestView::OpenNamespace { .. } => match response {
            ResponseView::Opened { descriptor } => World {
                open: world.open.insert(
                    descriptor.descriptor,
                    (descriptor.device, descriptor.inode),
                ),
                ..world
            },
            _ => world,
        },
        RequestView::SetNamespace { descriptor, .. } => if response == ResponseView::Done
            && world.open.dom().contains(descriptor) {
            World { attached: world.open[descriptor], ..world }
        } else {
            world
        },
        _ => world.with_here(tree_after(world.here(), request, response)),
    }
}

/// Whether `response` may be what the host answers to `request`: the
/// host may fail where it likes, but what it does answer is true of it, a
/// descriptor that it opens is a new one, and it does not refuse to put the
/// caller back into the namespace that the caller started in.
pub open spec fn plausible(world: World, request: RequestView, response: ResponseView) -> bool {
    match request {
        RequestView::OpenNamespace { path } => response matches ResponseView::Opened {
            descriptor,
        } ==> {
            &&& !world.open.dom().contains(descriptor.descriptor)
            &&& path == own_namespace_path(NamespaceKind::Mnt) ==> (
            descriptor.device,
            descriptor.inode,
            ) == world.attached
            &&& path == target_namespace_path(world.pid, NamespaceKind::Mnt) ==> (
            descriptor.device,
            descriptor.inode,
            ) == world.target
        },
        RequestView::SetNamespace { descriptor, .. } => world.open.dom().contains(descriptor)
            && world.open[descriptor] == world.home ==> response == ResponseView::Done,
        RequestView::ReadFile { path, .. } => response matches ResponseView::Contents { bytes } ==> {
            &&& path == world.image_path ==> classify(bytes) is Some
            &&& path == MOUNT_TABLE@ ==> {
                &&& table_lists(bytes, CRASHCART_MOUNT_PATH@) == Some(world.here().tree_mounted)
                &&& table_lists(bytes, CRASHCART_LOOP_DIR@) == Some(world.here().loop_mounted)
            }
        },
        RequestView::PathExists { path } => response matches ResponseView::Exists { present } ==> {
            &&& path == CRASHCART_MOUNT_PATH@ ==> present == world.here().tree_dir
            &&& path == CRASHCART_LOOP_DIR@ ==> present == world.here().loop_dir
        },
        RequestView::Run { command } => command == find_free_invocation() && response.succeeded()
            ==> {
            &&& free_device(response->stdout) matches Some(device)
            &&& !world.bound.contains(device)
            &&& loop_minor(device) is Some
        },
        RequestView::MakeNode { .. } => {
            &&& response == ResponseView::AlreadyExists ==> world.here().node
            &&& response == ResponseView::Done ==> !world.here().node
        },
        _ => true,
    }
}

/// Whether `response` is what the host answers to `request` where nothing
/// fails: it is plausible, and it says that the request was carried out.
pub open spec fn truthful(world: World, request: RequestView, response: ResponseView) -> bool {
    &&& plausible(world, request, response)
    &&& match request {
        RequestView::Run { .. } => response.succeeded(),
        RequestView::ReadFile { .. } => response is Contents,
        RequestView::PathExists { .. } => response is Exists,
        RequestView::OpenNamespace { .. } => response is Opened,
        RequestView::MakeNode { .. } => response == ResponseView::Done || response
            == ResponseView::AlreadyExists,
        _ => response == ResponseView::Done,
    }
}

/// A step function together with the host it runs against: the handle,
/// the state, the request that the host has not answered yet, and the host.
pub struct Run<S> {
    pub image: ImageManagerView,
    pub state: S,
    pub pending: Option<RequestView>,
    pub world: World,
}

/// A step function.
pub type Machine<S> = spec_fn(ImageManagerView, S, Option<ResponseView>) -> (
    ImageManagerView,
    S,
    Option<RequestView>,
);

/// The run once the host has answered the pending request with
/// `response`: the request is carried out, and the step function takes the
/// answer.
pub open spec fn advance<S>(machine: Machine<S>, run: Run<S>, response: Option<ResponseView>) -> Run<
    S,
> {
    let world = match (run.pending, response) {
        (Some(request), Some(answer)) => carried_out(run.world, request, answer),
        _ => run.world,
    };
    let (image, state, pending) = machine(run.image, run.state, response);
    Run { image, state, pending, world }
}

/// Whether `response` answers the pending request, and plausibly so.
pub open spec fn answers<S>(run: Run<S>, response: Option<ResponseView>) -> bool {
    match run.pending {
        Some(request) => response matches Some(answer) && plausible(run.world, request, answer),
        None => response is None,
    }
}

/// Whether `response` answers the pending request as a host does on which nothing fails.
pub open spec fn answers_well<S>(run: Run<S>, response: Option<ResponseView>) -> bool {
    match run.pending {
        Some(request) => response matches Some(answer) && truthful(run.world, request, answer),
        None => response is None,
    }
}

/// The run once the host has given the answers `responses`, one after the other.
pub open spec fn run_on<S>(machine: Machine<S>, run: Run<S>, responses: Seq<Option<ResponseView>>) -> Run<
    S,
>
    decreases responses.len(),
{
    if responses.len() == 0 {
        run
    } else {
        run_on(machine, advance(machine, run, responses[0]), responses.drop_first())
    }
}

/// Whether each of `responses` plausibly answers the request pending when it is given.
pub open spec fn plausible_run<S>(
    machine: Machine<S>,
    run: Run<S>,
    responses: Seq<Option<ResponseView>>,
) -> bool
    decreases responses.len(),
{
    responses.len() == 0 || (answers(run, responses[0]) && plausible_run(
        machine,
        advance(machine, run, responses[0]),
        responses.drop_first(),
    ))
}

/// Whether each of `responses` answers the request pending when it is
/// given as a host does on which nothing fails.
pub open spec fn faultless_run<S>(
    machine: Machine<S>,
    run: Run<S>,
    responses: Seq<Option<ResponseView>>,
) -> bool
    decreases responses.len(),
{
    responses.len() == 0 || (answers_well(run, responses[0]) && faultless_run(
        machine,
        advance(machine, run, responses[0]),
        responses.drop_first(),
    ))
}

/// What holds at the start and is kept by every plausible answer holds at the end.
pub proof fn lemma_kept_by_plausible<S>(
    machine: Machine<S>,
    kept: spec_fn(Run<S>) -> bool,
    run: Run<S>,
    responses: Seq<Option<ResponseView>>,
)
    requires
        kept(run),
        plausible_run(machine, run, responses),
        forall|r: Run<S>, a: Option<ResponseView>|
            kept(r) && answers(r, a) ==> #[trigger] kept(advance(machine, r, a)),
    ensures
        kept(run_on(machine, run, responses)),
    decreases responses.len(),
{
    if responses.len() > 0 {
        lemma_kept_by_plausible(
            machine,
            kept,
            advance(machine, run, responses[0]),
            responses.drop_first(),
        );
    }
}

/// What holds at the start and is kept by every answer of a host on
/// which nothing fails holds at the end.
pub proof fn lemma_kept_by_faultless<S>(
    machine: Machine<S>,
    kept: spec_fn(Run<S>) -> bool,
    run: Run<S>,
    responses: Seq<Option<ResponseView>>,
)
    requires
        kept(run),
        faultless_run(machine, run, responses),
        forall|r: Run<S>, a: Option<ResponseView>|
            kept(r) && answers_well(r, a) ==> #[trigger] kept(advance(machine, r, a)),
    ensures
        kept(run_on(machine, run, responses)),
    decreases responses.len(),
{
    if responses.len() > 0 {
        lemma_kept_by_faultless(
            machine,
            kept,
            advance(machine, run, responses[0]),
            responses.drop_first(),
        );
    }
}

} // verus!
