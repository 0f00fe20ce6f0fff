//! Entering the namespaces of a target process, and leaving them again.
use vstd::prelude::*;
use crate::command::{push_word, push_words, Command, CommandView, Streams, exit_code, reported_code};
use crate::failure::{Failure, FailureKind, FailureView};
use crate::host::{
    request_view, response_view, NamespaceDescriptor, NamespaceKind, Request, RequestView, Response,
    ResponseView,
};
use crate::text::{joined, decimal, decimal_text, owned};

verus! {

impl NamespaceKind {
    /// The name of the kind, as it stands under `/proc/<pid>/ns/`.
    pub open spec fn spec_name(self) -> Seq<char> {
        match self {
            NamespaceKind::Mnt => "mnt"@,
            NamespaceKind::Uts => "uts"@,
            NamespaceKind::Ipc => "ipc"@,
            NamespaceKind::Net => "net"@,
            NamespaceKind::Pid => "pid"@,
            NamespaceKind::Cgroup => "cgroup"@,
            NamespaceKind::User => "user"@,
        }
    }

    /// The name of the kind, as it stands under `/proc/<pid>/ns/`.
    pub fn name(self) -> (r: &'static str)
        ensures
            r@ == self.spec_name(),
    {
        match self {
            NamespaceKind::Mnt => "mnt",
            NamespaceKind::Uts => "uts",
            NamespaceKind::Ipc => "ipc",
            NamespaceKind::Net => "net",
            NamespaceKind::Pid => "pid",
            NamespaceKind::Cgroup => "cgroup",
            NamespaceKind::User => "user",
        }
    }
}

/// The path of the caller's own namespace descriptor of a kind.
pub open spec fn own_namespace_path(kind: NamespaceKind) -> Seq<char> {
    "/proc/self/ns/"@ + kind.spec_name()
}

/// The path of the namespace descriptor of a kind of the process `pid`.
pub open spec fn target_namespace_path(pid: u32, kind: NamespaceKind) -> Seq<char> {
    "/proc/"@ + decimal_text(pid as nat) + "/ns/"@ + kind.spec_name()
}

/// Holds the descriptor of the namespace that the caller left, so that the
/// caller can be put back. It holds nothing where the caller was in the
/// target's namespace from the start: then there is nothing to put back.
#[derive(Clone, Copy, Debug, PartialEq, Eq, Structural)]
pub struct NamespaceGuard {
    pub original: Option<NamespaceDescriptor>,
    pub kind: NamespaceKind,
}

impl NamespaceGuard {
    /// What putting the caller back takes: to attach it to the namespace it
    /// left, with the flag of the kind it was entered with; or nothing.
    pub open spec fn spec_release(self) -> Option<RequestView> {
        match self.original {
            Some(d) => Some(RequestView::SetNamespace { descriptor: d.descriptor, kind: self.kind }),
            None => None,
        }
    }

    /// A guard that holds nothing.
    pub fn new(kind: NamespaceKind) -> (g: NamespaceGuard)
        ensures
            g == (NamespaceGuard { original: None, kind }),
    {
        NamespaceGuard { original: None, kind }
    }

    /// The request that puts the caller back where it was, or `None` where
    /// the guard holds nothing. The guard is used up.
    pub fn release(self) -> (r: Option<Request>)
        ensures
            request_view(r) == self.spec_release(),
    {
        match self.original {
            Some(d) => Some(Request::SetNamespace { descriptor: d.descriptor, kind: self.kind }),
            None => None,
        }
    }
}

/// How far entering a namespace has come.
#[derive(Debug)]
pub enum Entry {
    /// Nothing was asked yet.
    Start,
    /// The caller's own descriptor is being opened.
    OpeningCurrent,
    /// The target's descriptor is being opened.
    OpeningTarget { current: NamespaceDescriptor },
    /// The caller is being attached to the target's namespace.
    Attaching { current: NamespaceDescriptor },
    /// The caller's user and group ids are being reset.
    Elevating { current: NamespaceDescriptor },
    /// The caller is in the target's namespace.
    Entered { guard: NamespaceGuard },
    /// The namespace could not be entered; the caller is where it was.
    Failed { failure: Failure },
}

/// The mathematical value of an [`Entry`].
pub enum EntryView {
    Start,
    OpeningCurrent,
    OpeningTarget { current: NamespaceDescriptor },
    Attaching { current: NamespaceDescriptor },
    Elevating { current: NamespaceDescriptor },
    Entered { guard: NamespaceGuard },
    Failed { failure: FailureView },
}

impl View for Entry {
    type V = EntryView;

    open spec fn view(&self) -> EntryView {
        match self {
            Entry::Start => EntryView::Start,
            Entry::OpeningCurrent => EntryView::OpeningCurrent,
            Entry::OpeningTarget { current } => EntryView::OpeningTarget { current: *current },
            Entry::Attaching { current } => EntryView::Attaching { current: *current },
            Entry::Elevating { current } => EntryView::Elevating { current: *current },
            Entry::Entered { guard } => EntryView::Entered { guard: *guard },
            Entry::Failed { failure } => EntryView::Failed { failure: failure@ },
        }
    }
}

impl EntryView {
    /// Whether entering has come to its end, well or badly.
    pub open spec fn finished(self) -> bool {
        self is Entered || self is Failed
    }
}

/// The failure to enter a namespace, with what the host said of it.
pub open spec fn denied(context: Seq<char>, response: Option<ResponseView>) -> FailureView {
    FailureView {
        kind: FailureKind::NamespaceDenied,
        message: context + match response {
            Some(r) => r.detail(),
            None => Seq::empty(),
        },
    }
}

/// One step of entering the namespace of kind `kind` of the process `pid`.
///
/// The caller's own descriptor is opened, then the target's. Where both
/// are open on one namespace, the caller stays and the guard holds
/// nothing. Else the caller is attached to the target's namespace and the
/// guard holds the caller's own descriptor; for the user namespace the
/// caller's ids are reset before that.
pub open spec fn entry_step(
    pid: u32,
    kind: NamespaceKind,
    state: EntryView,
    response: Option<ResponseView>,
) -> (EntryView, Option<RequestView>) {
    match state {
        EntryView::Start => (
            EntryView::OpeningCurrent,
            Some(RequestView::OpenNamespace { path: own_namespace_path(kind) }),
        ),
        EntryView::OpeningCurrent => match response {
            Some(ResponseView::Opened { descriptor }) => (
                EntryView::OpeningTarget { current: descriptor },
                Some(RequestView::OpenNamespace { path: target_namespace_path(pid, kind) }),
            ),
            _ => (
                EntryView::Failed {
                    failure: denied("Failed to open current namespace: "@, response),
                },
                None,
            ),
        },
        EntryView::OpeningTarget { current } => match response {
            Some(ResponseView::Opened { descriptor }) => if current.same_namespace(descriptor) {
                (EntryView::Entered { guard: NamespaceGuard { original: None, kind } }, None)
            } else {
                (
                    EntryView::Attaching { current },
                    Some(RequestView::SetNamespace { descriptor: descriptor.descriptor, kind }),
                )
            },
            _ => (
                EntryView::Failed {
                    failure: denied("Failed to open target namespace: "@, response),
                },
                None,
            ),
        },
        EntryView::Attaching { current } => match response {
            Some(ResponseView::Done) => if kind == NamespaceKind::User {
                (EntryView::Elevating { current }, Some(RequestView::BecomeRoot))
            } else {
                (
                    EntryView::Entered { guard: NamespaceGuard { original: Some(current), kind } },
                    None,
                )
            },
            _ => (
                EntryView::Failed {
                    failure: denied(
                        "Failed to enter "@ + kind.spec_name() + " namespace: "@,
                        response,
                    ),
                },
                None,
            ),
        },
        EntryView::Elevating { current } => (
            EntryView::Entered { guard: NamespaceGuard { original: Some(current), kind } },
            None,
        ),
        EntryView::Entered { guard } => (state, None),
        EntryView::Failed { failure } => (state, None),
    }
}

/// The failure to enter a namespace, with what the host said of it.
fn deny(context: &str, response: &Option<Response>) -> (f: Failure)
    ensures
        f@ == denied(context@, response_view(*response)),
{
    match response {
        Some(r) => {
            let detail = r.detail();
            Failure::with_detail(FailureKind::NamespaceDenied, context, detail.as_str())
        },
        None => {
            assert(context@ + Seq::<char>::empty() =~= context@);
            Failure::new(FailureKind::NamespaceDenied, context)
        },
    }
}

/// The path of the namespace descriptor of a kind of the process `pid`.
fn target_path(pid: u32, kind: NamespaceKind) -> (r: String)
    ensures
        r@ == target_namespace_path(pid, kind),
{
    let a = joined("/proc/", decimal(pid).as_str());
    let b = joined(a.as_str(), "/ns/");
    joined(b.as_str(), kind.name())
}

/// One step of entering the namespace of kind `kind` of the process `pid`:
/// from the state and the host's answer to the last request, the next state
/// and the next request. The first step takes `Entry::Start` and no answer;
/// `None` comes back as request once the state is `Entered` or `Failed`.
pub fn enter_single_namespace(
    pid: u32,
    kind: NamespaceKind,
    state: Entry,
    response: Option<Response>,
) -> (next: (Entry, Option<Request>))
    ensures
        (next.0@, request_view(next.1)) == entry_step(pid, kind, state@, response_view(response)),
{
    match state {
        Entry::Start => (
            Entry::OpeningCurrent,
            Some(Request::OpenNamespace { path: joined("/proc/self/ns/", kind.name()) }),
        ),
        Entry::OpeningCurrent => match response {
            Some(Response::Opened { descriptor }) => (
                Entry::OpeningTarget { current: descriptor },
                Some(Request::OpenNamespace { path: target_path(pid, kind) }),
            ),
            _ => (
                Entry::Failed { failure: deny("Failed to open current namespace: ", &response) },
                None,
            ),
        },
        Entry::OpeningTarget { current } => match response {
            Some(Response::Opened { descriptor }) => {
                if current.device == descriptor.device && current.inode == descriptor.inode {
                    (Entry::Entered { guard: NamespaceGuard::new(kind) }, None)
                } else {
                    (
                        Entry::Attaching { current },
                        Some(Request::SetNamespace { descriptor: descriptor.descriptor, kind }),
                    )
                }
            },
            _ => (
                Entry::Failed { failure: deny("Failed to open target namespace: ", &response) },
                None,
            ),
        },
        Entry::Attaching { current } => match response {
            Some(Response::Done) => {
                if kind == NamespaceKind::User {
                    (Entry::Elevating { current }, Some(Request::BecomeRoot))
                } else {
                    (
                        Entry::Entered { guard: NamespaceGuard { original: Some(current), kind } },
                        None,
                    )
                }
            },
            _ => {
                let head = joined("Failed to enter ", kind.name());
                let context = joined(head.as_str(), " namespace: ");
                (Entry::Failed { failure: deny(context.as_str(), &response) }, None)
            },
        },
        Entry::Elevating { current } => (
            Entry::Entered { guard: NamespaceGuard { original: Some(current), kind } },
            None,
        ),
        Entry::Entered { guard } => (Entry::Entered { guard }, None),
        Entry::Failed { failure } => (Entry::Failed { failure }, None),
    }
}

/// Enters mount namespaces.
#[derive(Debug)]
pub struct NamespaceManager;

impl NamespaceManager {
    /// The manager: it holds nothing.
    pub fn new() -> (m: NamespaceManager) {
        NamespaceManager
    }

    /// One step of entering the mount namespace of the process `pid`: the
    /// step of [`enter_single_namespace`] for the kind `Mnt`.
    pub fn enter_mount_namespace(&self, pid: u32, state: Entry, response: Option<Response>) -> (next:
        (Entry, Option<Request>))
        ensures
            (next.0@, request_view(next.1)) == entry_step(
                pid,
                NamespaceKind::Mnt,
                state@,
                response_view(response),
            ),
    {
        enter_single_namespace(pid, NamespaceKind::Mnt, state, response)
    }
}

/// The kinds that [`enter_all_namespaces`] enters, in its order.
pub open spec fn all_kinds() -> Seq<NamespaceKind> {
    seq![
        NamespaceKind::Mnt,
        NamespaceKind::Uts,
        NamespaceKind::Ipc,
        NamespaceKind::Net,
        NamespaceKind::Pid,
        NamespaceKind::Cgroup,
    ]
}

/// The `index`-th kind of [`all_kinds`].
fn kind_at(index: usize) -> (kind: NamespaceKind)
    requires
        index < 6,
    ensures
        kind == all_kinds()[index as int],
{
    if index == 0 {
        NamespaceKind::Mnt
    } else if index == 1 {
        NamespaceKind::Uts
    } else if index == 2 {
        NamespaceKind::Ipc
    } else if index == 3 {
        NamespaceKind::Net
    } else if index == 4 {
        NamespaceKind::Pid
    } else {
        NamespaceKind::Cgroup
    }
}

/// How far entering all namespaces has come: the guards of the kinds dealt
/// with, and the entry under way for the next kind.
#[derive(Debug)]
pub struct EnterAll {
    pub guards: Vec<NamespaceGuard>,
    pub entry: Entry,
}

/// The mathematical value of an [`EnterAll`].
pub struct EnterAllView {
    pub guards: Seq<NamespaceGuard>,
    pub entry: EntryView,
}

impl View for EnterAll {
    type V = EnterAllView;

    open spec fn view(&self) -> EnterAllView {
        EnterAllView { guards: self.guards@, entry: self.entry@ }
    }
}

impl EnterAllView {
    /// Whether every kind was dealt with.
    pub open spec fn finished(self) -> bool {
        self.guards.len() >= all_kinds().len()
    }
}

/// The guard that dealing with a kind leaves: the one it was entered with,
/// or one that holds nothing where it could not be entered.
pub open spec fn guard_of(kind: NamespaceKind, entry: EntryView) -> NamespaceGuard {
    match entry {
        EntryView::Entered { guard } => guard,
        _ => NamespaceGuard { original: None, kind },
    }
}

/// One step of entering the namespaces of the process `pid`, kind by kind in
/// the order of [`all_kinds`]. A kind that cannot be entered is passed
/// over: its guard holds nothing, and the next kind is taken up.
pub open spec fn enter_all_step(pid: u32, state: EnterAllView, response: Option<ResponseView>) -> (
    EnterAllView,
    Option<RequestView>,
) {
    if state.finished() {
        (state, None)
    } else {
        let kind = all_kinds()[state.guards.len() as int];
        let (entry, request) = entry_step(pid, kind, state.entry, response);
        if entry.finished() {
            let guards = state.guards.push(guard_of(kind, entry));
            if guards.len() < all_kinds().len() {
                let (first, request) = entry_step(
                    pid,
                    all_kinds()[guards.len() as int],
                    EntryView::Start,
                    None,
                );
                (EnterAllView { guards, entry: first }, request)
            } else {
                (EnterAllView { guards, entry: EntryView::Start }, None)
            }
        } else {
            (EnterAllView { guards: state.guards, entry }, request)
        }
    }
}

impl EnterAll {
    /// The state before anything was asked.
    pub fn new() -> (s: EnterAll)
        ensures
            s@ == (EnterAllView { guards: Seq::empty(), entry: EntryView::Start }),
    {
        EnterAll { guards: Vec::new(), entry: Entry::Start }
    }
}

/// One step of entering the mount, uts, ipc, net, pid and cgroup namespaces
/// of the process `pid`, in that order. The first step takes
/// [`EnterAll::new`] and no answer; once `None` comes back as request, the
/// state holds one guard for each kind, in that order.
pub fn enter_all_namespaces(pid: u32, state: EnterAll, response: Option<Response>) -> (next: (
    EnterAll,
    Option<Request>,
))
    ensures
        (next.0@, request_view(next.1)) == enter_all_step(pid, state@, response_view(response)),
{
    let EnterAll { guards, entry } = state;
    let mut guards = guards;
    if guards.len() >= 6 {
        return (EnterAll { guards, entry }, None);
    }
    let kind = kind_at(guards.len());
    let (entry, request) = enter_single_namespace(pid, kind, entry, response);
    match entry {
        Entry::Entered { guard } => {
            guards.push(guard);
        },
        Entry::Failed { .. } => {
            guards.push(NamespaceGuard::new(kind));
        },
        _ => {
            return (EnterAll { guards, entry }, request);
        },
    }
    if guards.len() < 6 {
        let (first, request) = enter_single_namespace(pid, kind_at(guards.len()), Entry::Start, None);
        (EnterAll { guards, entry: first }, request)
    } else {
        (EnterAll { guards, entry: Entry::Start }, None)
    }
}

/// The dynamic linker of the injected tree, told to use the injected libraries.
pub open spec fn injected_linker() -> Seq<Seq<char>> {
    seq![
        "/dev/crashcart/lib64/ld-linux-x86-64.so.2"@,
        "--library-path"@,
        "/dev/crashcart/lib:/dev/crashcart/lib64:/dev/crashcart/usr/lib:/dev/crashcart/usr/lib64"@,
    ]
}

/// The debug shell of the injected tree, run through the injected linker.
pub open spec fn injected_shell() -> Seq<Seq<char>> {
    injected_linker() + seq![
        "/dev/crashcart/usr/bin/bash"@,
        "--rcfile"@,
        "/dev/crashcart/.crashcartrc"@,
        "-i"@,
    ]
}

/// The `nsenter` invocation that runs `command` in the mount, uts, ipc, net
/// and pid namespaces of the process `pid`, or the injected debug shell
/// where `command` is empty, with `env` added to its environment.
pub open spec fn namespace_invocation(
    pid: u32,
    command: Seq<Seq<char>>,
    env: Option<(Seq<char>, Seq<char>)>,
) -> CommandView {
    CommandView {
        program: "nsenter"@,
        args: seq!["-t"@, decimal_text(pid as nat), "-m"@, "-u"@, "-i"@, "-n"@, "-p"@, "--"@] + (
        if command.len() == 0 {
            injected_shell()
        } else {
            command
        }),
        env,
        streams: Streams::Inherited,
    }
}

/// The process to run so that `command` runs in the namespaces of the
/// process `pid`: see [`namespace_invocation`]. `env_var`, a name and a
/// value, is set for that process alone.
pub fn exec_in_namespace(pid: u32, command: &[String], env_var: Option<(&str, &str)>) -> (c:
    Command)
    ensures
        c@ == namespace_invocation(
            pid,
            command.deep_view(),
            match env_var {
                Some((key, value)) => Some((key@, value@)),
                None => None,
            },
        ),
{
    let mut args: Vec<String> = Vec::new();
    assert(args.deep_view() =~= Seq::<Seq<char>>::empty());
    push_word(&mut args, "-t");
    push_word(&mut args, decimal(pid).as_str());
    push_word(&mut args, "-m");
    push_word(&mut args, "-u");
    push_word(&mut args, "-i");
    push_word(&mut args, "-n");
    push_word(&mut args, "-p");
    push_word(&mut args, "--");
    let ghost head = args.deep_view();
    assert(head =~= seq![
        "-t"@,
        decimal_text(pid as nat),
        "-m"@,
        "-u"@,
        "-i"@,
        "-n"@,
        "-p"@,
        "--"@,
    ]);
    if command.len() == 0 {
        push_word(&mut args, "/dev/crashcart/lib64/ld-linux-x86-64.so.2");
        push_word(&mut args, "--library-path");
        push_word(
            &mut args,
            "/dev/crashcart/lib:/dev/crashcart/lib64:/dev/crashcart/usr/lib:/dev/crashcart/usr/lib64",
        );
        push_word(&mut args, "/dev/crashcart/usr/bin/bash");
        push_word(&mut args, "--rcfile");
        push_word(&mut args, "/dev/crashcart/.crashcartrc");
        push_word(&mut args, "-i");
        assert(args.deep_view() =~= head + injected_shell());
    } else {
        push_words(&mut args, command);
    }
    let env = match env_var {
        Some((key, value)) => Some((owned(key), owned(value))),
        None => None,
    };
    Command { program: owned("nsenter"), args, env, streams: Streams::Inherited }
}

/// What running a command in the target came to: the command's own exit
/// code, -1 where a signal ended it, or the failure to run it at all.
pub open spec fn exec_outcome(response: ResponseView) -> Result<i32, FailureView> {
    match response {
        ResponseView::Exited { code, .. } => Ok(reported_code(code)),
        _ => Err(
            FailureView {
                kind: FailureKind::SubprocessFailed,
                message: "Failed to execute command in target: "@ + response.detail(),
            },
        ),
    }
}

/// The exit code to hand on once the host has answered the request to run a
/// command in the target: see [`exec_outcome`].
pub fn exec_status(response: &Response) -> (r: Result<i32, Failure>)
    ensures
        match r {
            Ok(code) => exec_outcome(response@) == Ok::<i32, FailureView>(code),
            Err(e) => exec_outcome(response@) == Err::<i32, FailureView>(e@),
        },
{
    match response {
        Response::Exited { code, .. } => Ok(exit_code(*code)),
        _ => {
            let detail = response.detail();
            Err(
                Failure::with_detail(
                    FailureKind::SubprocessFailed,
                    "Failed to execute command in target: ",
                    detail.as_str(),
                ),
            )
        },
    }
}

} // verus!
