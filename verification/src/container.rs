//! Resolving a target token to a process: container engines and bare process ids.
use vstd::prelude::*;
use crate::command::{push_word, push_words, Command, CommandView, Streams};
use crate::failure::{Failure, FailureKind, FailureView};
use crate::host::{Response, ResponseView};
use crate::text::{
    chars_of, joined, decimal, decimal_text, decode, owned, parse_decimal, parse_u32, starts_with,
    trim_range, trimmed_text,
};

verus! {

/// A container engine whose command-line client can be asked about a target.
#[derive(Clone, Copy, Debug, PartialEq, Eq, Structural)]
pub enum Engine {
    Docker,
    Podman,
    Containerd,
}

/// A resolved target: a container of one of three engines, or a bare process.
#[derive(Debug, Clone)]
pub enum ContainerRuntime {
    Docker { id: String },
    Containerd { id: String },
    Podman { id: String },
    Pid { pid: u32 },
}

/// The mathematical value of a [`ContainerRuntime`].
pub enum ContainerRuntimeView {
    Docker { id: Seq<char> },
    Containerd { id: Seq<char> },
    Podman { id: Seq<char> },
    Pid { pid: u32 },
}

impl View for ContainerRuntime {
    type V = ContainerRuntimeView;

    open spec fn view(&self) -> ContainerRuntimeView {
        match self {
            ContainerRuntime::Docker { id } => ContainerRuntimeView::Docker { id: id@ },
            ContainerRuntime::Containerd { id } => ContainerRuntimeView::Containerd { id: id@ },
            ContainerRuntime::Podman { id } => ContainerRuntimeView::Podman { id: id@ },
            ContainerRuntime::Pid { pid } => ContainerRuntimeView::Pid { pid: *pid },
        }
    }
}

/// The command run in a container when the caller names none: the debug
/// shell of the injected tree, interactive, with the injected rc file.
pub open spec fn default_shell() -> Seq<Seq<char>> {
    seq!["/dev/crashcart/bin/bash"@, "--rcfile"@, "/dev/crashcart/.crashcartrc"@, "-i"@]
}

/// `command`, or the default shell where `command` is empty.
pub open spec fn command_or_shell(command: Seq<Seq<char>>) -> Seq<Seq<char>> {
    if command.len() == 0 {
        default_shell()
    } else {
        command
    }
}

/// The tag under which containerd runs a command for the caller whose
/// process id is `host_pid`.
pub open spec fn exec_tag(host_pid: u32) -> Seq<char> {
    "crashcart-"@ + decimal_text(host_pid as nat)
}

/// The engine invocation that runs `command` in the container `runtime`
/// through its engine; `None` for a bare process, which has no engine.
pub open spec fn exec_invocation(
    runtime: ContainerRuntimeView,
    command: Seq<Seq<char>>,
    host_pid: u32,
) -> Option<CommandView> {
    let tail = command_or_shell(command);
    match runtime {
        ContainerRuntimeView::Docker { id } => Some(
            CommandView {
                program: "docker"@,
                args: seq!["exec"@, "-it"@, id] + tail,
                env: None,
                streams: Streams::Inherited,
            },
        ),
        ContainerRuntimeView::Podman { id } => Some(
            CommandView {
                program: "podman"@,
                args: seq!["exec"@, "-it"@, id] + tail,
                env: None,
                streams: Streams::Inherited,
            },
        ),
        ContainerRuntimeView::Containerd { id } => Some(
            CommandView {
                program: "ctr"@,
                args: seq!["task"@, "exec"@, "--exec-id"@, exec_tag(host_pid), id] + tail,
                env: None,
                streams: Streams::Inherited,
            },
        ),
        ContainerRuntimeView::Pid { .. } => None,
    }
}

/// Appends `command` to `args`, or the default shell where `command` is empty.
fn push_command_or_shell(args: &mut Vec<String>, command: &[String])
    ensures
        final(args).deep_view() == old(args).deep_view() + command_or_shell(command.deep_view()),
{
    if command.len() == 0 {
        let ghost before = args.deep_view();
        push_word(args, "/dev/crashcart/bin/bash");
        push_word(args, "--rcfile");
        push_word(args, "/dev/crashcart/.crashcartrc");
        push_word(args, "-i");
        assert(args.deep_view() =~= before + default_shell());
    } else {
        push_words(args, command);
    }
}

impl ContainerRuntime {
    /// The invocation of the container's engine that runs `command` in it,
    /// or the debug shell where `command` is empty. `host_pid` is the
    /// caller's own process id. A bare process is refused: it has no engine.
    pub fn exec_command(&self, command: &[String], host_pid: u32) -> (r: Result<Command, Failure>)
        ensures
            match r {
                Ok(c) => exec_invocation(self@, command.deep_view(), host_pid) == Some(c@),
                Err(e) => self@ is Pid && e@ == (FailureView {
                    kind: FailureKind::NoExecChannel,
                    message: "raw PID has no runtime exec channel"@,
                }),
            },
    {
        let mut args: Vec<String> = Vec::new();
        assert(args.deep_view() =~= Seq::<Seq<char>>::empty());
        match self {
            ContainerRuntime::Docker { id } => {
                push_word(&mut args, "exec");
                push_word(&mut args, "-it");
                push_word(&mut args, id.as_str());
                assert(args.deep_view() =~= seq!["exec"@, "-it"@, id@]);
                push_command_or_shell(&mut args, command);
                Ok(Command::new("docker", args, Streams::Inherited))
            },
            ContainerRuntime::Podman { id } => {
                push_word(&mut args, "exec");
                push_word(&mut args, "-it");
                push_word(&mut args, id.as_str());
                assert(args.deep_view() =~= seq!["exec"@, "-it"@, id@]);
                push_command_or_shell(&mut args, command);
                Ok(Command::new("podman", args, Streams::Inherited))
            },
            ContainerRuntime::Containerd { id } => {
                let tag = joined("crashcart-", decimal(host_pid).as_str());
                push_word(&mut args, "task");
                push_word(&mut args, "exec");
                push_word(&mut args, "--exec-id");
                push_word(&mut args, tag.as_str());
                push_word(&mut args, id.as_str());
                assert(args.deep_view() =~= seq![
                    "task"@,
                    "exec"@,
                    "--exec-id"@,
                    exec_tag(host_pid),
                    id@,
                ]);
                push_command_or_shell(&mut args, command);
                Ok(Command::new("ctr", args, Streams::Inherited))
            },
            ContainerRuntime::Pid { .. } => Err(
                Failure::new(FailureKind::NoExecChannel, "raw PID has no runtime exec channel"),
            ),
        }
    }
}

impl Engine {
    /// The command-line client of the engine.
    pub open spec fn spec_program(self) -> Seq<char> {
        match self {
            Engine::Docker => "docker"@,
            Engine::Podman => "podman"@,
            Engine::Containerd => "ctr"@,
        }
    }

    /// The command-line client of the engine.
    pub fn program(self) -> (r: &'static str)
        ensures
            r@ == self.spec_program(),
    {
        match self {
            Engine::Docker => "docker",
            Engine::Podman => "podman",
            Engine::Containerd => "ctr",
        }
    }
}

/// The engines, in the order in which they are asked about a target.
pub open spec fn probe_order() -> Seq<Engine> {
    seq![Engine::Docker, Engine::Podman, Engine::Containerd]
}

/// The invocation that asks `engine` whether it knows the container `id`.
/// What it writes to standard error is discarded.
pub open spec fn probe_invocation(engine: Engine, id: Seq<char>) -> CommandView {
    CommandView {
        program: engine.spec_program(),
        args: match engine {
            Engine::Containerd => seq!["container"@, "info"@, id],
            _ => seq!["inspect"@, id],
        },
        env: None,
        streams: Streams::Quiet,
    }
}

/// The container `id` of `engine`.
pub open spec fn container_of(engine: Engine, id: Seq<char>) -> ContainerRuntimeView {
    match engine {
        Engine::Docker => ContainerRuntimeView::Docker { id },
        Engine::Podman => ContainerRuntimeView::Podman { id },
        Engine::Containerd => ContainerRuntimeView::Containerd { id },
    }
}

/// What resolving a target has come to, short of failure.
#[derive(Debug)]
pub enum Detection {
    /// The target is resolved.
    Resolved { runtime: ContainerRuntime },
    /// `engine` is to be asked next, by running `command`: whether the
    /// command ends with exit code zero is its answer.
    Probe { engine: Engine, command: Command },
}

/// The mathematical value of a [`Detection`].
pub enum DetectionView {
    Resolved { runtime: ContainerRuntimeView },
    Probe { engine: Engine, command: CommandView },
}

impl View for Detection {
    type V = DetectionView;

    open spec fn view(&self) -> DetectionView {
        match self {
            Detection::Resolved { runtime } => DetectionView::Resolved { runtime: runtime@ },
            Detection::Probe { engine, command } => DetectionView::Probe {
                engine: *engine,
                command: command@,
            },
        }
    }
}

/// The failure to resolve `target`.
pub open spec fn not_found(target: Seq<char>) -> FailureView {
    FailureView {
        kind: FailureKind::ResolutionFailure,
        message: "container or process not found: "@ + target,
    }
}

/// What resolving `target` through the engines comes to from the `k`-th
/// engine on, where `answers` holds the answers of the engines asked so far.
pub open spec fn probe_from(target: Seq<char>, answers: Seq<bool>, k: nat) -> Result<
    DetectionView,
    FailureView,
>
    decreases 3 - k,
{
    if k >= 3 {
        Err(not_found(target))
    } else if k >= answers.len() {
        Ok(
            DetectionView::Probe {
                engine: probe_order()[k as int],
                command: probe_invocation(probe_order()[k as int], target),
            },
        )
    } else if answers[k as int] {
        Ok(DetectionView::Resolved { runtime: container_of(probe_order()[k as int], target) })
    } else {
        probe_from(target, answers, k + 1)
    }
}

/// What resolving `target` comes to, where `answers` holds the answers of
/// the engines asked so far, in the order of [`probe_order`].
///
/// A target that reads as a number is that process, and no engine is
/// asked. Else the first engine that answered yes has the container; where
/// all that were asked answered no, the next engine is asked, and after the
/// last the target is not found.
pub open spec fn detection(target: Seq<char>, answers: Seq<bool>) -> Result<
    DetectionView,
    FailureView,
> {
    match parse_u32(target) {
        Some(pid) => Ok(DetectionView::Resolved { runtime: ContainerRuntimeView::Pid { pid } }),
        None => probe_from(target, answers, 0),
    }
}

/// An engine is asked only after the target failed to read as a number and
/// every engine before it answered no, and the engines are asked in the
/// order docker, podman, containerd.
pub proof fn lemma_probe_order(target: Seq<char>, answers: Seq<bool>)
    ensures
        detection(target, answers) matches Ok(DetectionView::Probe { engine, command }) ==> {
            &&& parse_u32(target) is None
            &&& answers.len() < 3
            &&& engine == probe_order()[answers.len() as int]
            &&& command == probe_invocation(engine, target)
            &&& forall|i: int| 0 <= i < answers.len() ==> !answers[i]
        },
{
    reveal_with_fuel(probe_from, 4);
}

/// The engine that is asked as the `k`-th.
fn engine_at(k: usize) -> (engine: Engine)
    requires
        k < 3,
    ensures
        engine == probe_order()[k as int],
{
    if k == 0 {
        Engine::Docker
    } else if k == 1 {
        Engine::Podman
    } else {
        Engine::Containerd
    }
}

/// The invocation of [`probe_invocation`].
fn probe_command(engine: Engine, id: &str) -> (c: Command)
    ensures
        c@ == probe_invocation(engine, id@),
{
    let mut args: Vec<String> = Vec::new();
    match engine {
        Engine::Containerd => {
            push_word(&mut args, "container");
            push_word(&mut args, "info");
            push_word(&mut args, id);
            assert(args.deep_view() =~= seq!["container"@, "info"@, id@]);
        },
        _ => {
            push_word(&mut args, "inspect");
            push_word(&mut args, id);
            assert(args.deep_view() =~= seq!["inspect"@, id@]);
        },
    }
    Command::new(engine.program(), args, Streams::Quiet)
}

/// The container `id` of `engine`.
fn container(engine: Engine, id: &str) -> (r: ContainerRuntime)
    ensures
        r@ == container_of(engine, id@),
{
    match engine {
        Engine::Docker => ContainerRuntime::Docker { id: owned(id) },
        Engine::Podman => ContainerRuntime::Podman { id: owned(id) },
        Engine::Containerd => ContainerRuntime::Containerd { id: owned(id) },
    }
}

impl ContainerRuntime {
    /// One step of resolving `target`: see [`detection`]. `answers` holds,
    /// in the order docker, podman, containerd, whether the probes run so far
    /// ended with exit code zero; the first step takes none. The caller runs
    /// the probe that comes back, adds its answer, and asks again, until the
    /// target is resolved or not found.
    pub fn detect(target: &str, answers: &[bool]) -> (r: Result<Detection, Failure>)
        ensures
            match r {
                Ok(d) => detection(target@, answers@) == Ok::<DetectionView, FailureView>(d@),
                Err(e) => detection(target@, answers@) == Err::<DetectionView, FailureView>(e@),
            },
            r matches Ok(Detection::Probe { engine, .. }) ==> {
                &&& parse_u32(target@) is None
                &&& answers@.len() < 3
                &&& engine == probe_order()[answers@.len() as int]
                &&& forall|i: int| 0 <= i < answers@.len() ==> !answers@[i]
            },
    {
        proof {
            lemma_probe_order(target@, answers@);
        }
        let chars = chars_of(target);
        assert(chars@.subrange(0, chars@.len() as int) =~= chars@);
        match parse_decimal(chars.as_slice(), 0, chars.len()) {
            Some(pid) => {
                return Ok(Detection::Resolved { runtime: ContainerRuntime::Pid { pid } });
            },
            None => {},
        }
        let mut k: usize = 0;
        while k < 3
            invariant
                k <= 3,
                detection(target@, answers@) == probe_from(target@, answers@, k as nat),
            decreases 3 - k,
        {
            let engine = engine_at(k);
            proof {
                lemma_probe_order(target@, answers@);
            }
            if k >= answers.len() {
                return Ok(Detection::Probe { engine, command: probe_command(engine, target) });
            }
            if answers[k] {
                return Ok(Detection::Resolved { runtime: container(engine, target) });
            }
            k += 1;
        }
        Err(
            Failure::with_detail(
                FailureKind::ResolutionFailure,
                "container or process not found: ",
                target,
            ),
        )
    }
}

/// What the pipeline reads of one entry of containerd's task list: its
/// `ID`, where that is a string, and its `Pid`, where that is a number
/// that fits 64 bits without sign.
#[derive(Debug)]
pub struct TaskRecord {
    pub id: Option<String>,
    pub pid: Option<u64>,
}

/// The mathematical value of a [`TaskRecord`].
pub struct TaskRecordView {
    pub id: Option<Seq<char>>,
    pub pid: Option<u64>,
}

impl View for TaskRecord {
    type V = TaskRecordView;

    open spec fn view(&self) -> TaskRecordView {
        TaskRecordView {
            id: match self.id {
                Some(id) => Some(id@),
                None => None,
            },
            pid: self.pid,
        }
    }
}

impl DeepView for TaskRecord {
    type V = TaskRecordView;

    open spec fn deep_view(&self) -> TaskRecordView {
        self@
    }
}

/// `serde_json::Error`: why a text is no JSON of the shape asked for. The
/// pipeline hands it on unread.
#[verifier::external_type_specification]
#[verifier::external_body]
pub struct ExJsonError(serde_json::Error);

/// The task list that `stdout` is the JSON text of: of each element of the
/// JSON array, the string under `ID` and the number under `Pid`. `None`
/// where `stdout` is no JSON array.
pub uninterp spec fn task_list(stdout: Seq<u8>) -> Option<Seq<TaskRecordView>>;

/// `serde_json::from_slice`, read as a list of `serde_json::Value`; of each
/// value `Value::get` with the keys `ID` and `Pid`, then `Value::as_str`
/// and `Value::as_u64`. The result is the one that [`task_list`] names:
/// the contract claims no more than that the same bytes give the same list.
#[verifier::external_body]
fn parse_task_list(stdout: &[u8]) -> (r: Result<Vec<TaskRecord>, serde_json::Error>)
    ensures
        match r {
            Ok(tasks) => task_list(stdout@) == Some(tasks.deep_view()),
            Err(_) => task_list(stdout@) is None,
        },
{
    let values: Vec<serde_json::Value> = serde_json::from_slice(stdout)?;
    Ok(
        values.iter().map(
            |v| TaskRecord {
                id: v.get("ID").and_then(|x| x.as_str()).map(|x| x.to_string()),
                pid: v.get("Pid").and_then(|x| x.as_u64()),
            },
        ).collect(),
    )
}

/// Whether `task` is the task of the container `id`: its `ID` begins with
/// `id`, and it has a `Pid`.
pub open spec fn is_task_of(task: TaskRecordView, id: Seq<char>) -> bool {
    &&& task.id matches Some(name) && id.is_prefix_of(name)
    &&& task.pid is Some
}

/// The process of the first of `tasks` that is the task of the container
/// `id`: its `Pid`, cut to 32 bits.
pub open spec fn find_task(tasks: Seq<TaskRecordView>, id: Seq<char>) -> Option<u32>
    decreases tasks.len(),
{
    if tasks.len() == 0 {
        None
    } else if is_task_of(tasks[0], id) {
        Some(tasks[0].pid->0 as u32)
    } else {
        find_task(tasks.drop_first(), id)
    }
}

/// The process of the first of `tasks` that is the task of the container
/// `id`: see [`find_task`].
pub fn find_task_pid(tasks: &[TaskRecord], id: &str) -> (r: Option<u32>)
    ensures
        r == find_task(tasks.deep_view(), id@),
{
    let want = chars_of(id);
    let mut i: usize = 0;
    assert(tasks.deep_view().skip(0) =~= tasks.deep_view());
    while i < tasks.len()
        invariant
            i <= tasks@.len(),
            want@ == id@,
            find_task(tasks.deep_view(), id@) == find_task(tasks.deep_view().skip(i as int), id@),
        decreases tasks@.len() - i,
    {
        let task = &tasks[i];
        proof {
            let rest = tasks.deep_view().skip(i as int);
            assert(rest[0] == task@);
            assert(rest.drop_first() =~= tasks.deep_view().skip(i + 1));
        }
        match (&task.id, task.pid) {
            (Some(name), Some(pid)) => {
                let chars = chars_of(name.as_str());
                if starts_with(chars.as_slice(), want.as_slice()) {
                    return Some(#[verifier::truncate] (pid as u32));
                }
            },
            _ => {},
        }
        i += 1;
    }
    None
}

/// The number that an engine wrote when asked for the process of a
/// container: its output as text, without the white space around it, read
/// as a number.
pub open spec fn inspected_pid(stdout: Seq<u8>) -> Option<u32> {
    match trimmed_text(stdout) {
        Some(text) => parse_u32(text),
        None => None,
    }
}

/// The number of [`inspected_pid`].
pub fn parse_inspected_pid(stdout: &[u8]) -> (r: Option<u32>)
    ensures
        r == inspected_pid(stdout@),
{
    match decode(stdout) {
        Some(text) => {
            let chars = chars_of(text);
            let (a, b) = trim_range(chars.as_slice());
            parse_decimal(chars.as_slice(), a, b)
        },
        None => None,
    }
}

/// The process of a target, or how to learn it.
#[derive(Debug)]
pub enum PidLookup {
    /// The process is known.
    Known { pid: u32 },
    /// The engine is to be asked, by running `command`.
    Ask { command: Command },
}

/// The mathematical value of a [`PidLookup`].
pub enum PidLookupView {
    Known { pid: u32 },
    Ask { command: CommandView },
}

impl View for PidLookup {
    type V = PidLookupView;

    open spec fn view(&self) -> PidLookupView {
        match self {
            PidLookup::Known { pid } => PidLookupView::Known { pid: *pid },
            PidLookup::Ask { command } => PidLookupView::Ask { command: command@ },
        }
    }
}

/// The invocation that asks `engine` for the process of the container `id`.
pub open spec fn pid_invocation(engine: Engine, id: Seq<char>) -> CommandView {
    CommandView {
        program: engine.spec_program(),
        args: match engine {
            Engine::Containerd => seq!["task"@, "list"@, "--format"@, "json"@],
            _ => seq!["inspect"@, "--format"@, "{{.State.Pid}}"@, id],
        },
        env: None,
        streams: Streams::Captured,
    }
}

/// The name of the engine in messages.
pub open spec fn engine_title(engine: Engine) -> Seq<char> {
    match engine {
        Engine::Docker => "Docker"@,
        Engine::Podman => "Podman"@,
        Engine::Containerd => "containerd"@,
    }
}

/// A failure of an engine's client.
pub open spec fn engine_failed(message: Seq<char>) -> FailureView {
    FailureView { kind: FailureKind::SubprocessFailed, message }
}

/// The failure to find a task of the container `id`.
pub open spec fn no_such_task(id: Seq<char>) -> FailureView {
    FailureView { kind: FailureKind::ResolutionFailure, message: "no such task: "@ + id }
}

/// The process of the container `id` of `engine`, going by what the engine
/// answered when asked.
///
/// An engine that could not be run, or did not end with exit code zero,
/// has failed, and what it wrote to standard error says why. Docker and
/// podman write the process as a number. Of containerd's task list the first
/// task counts whose `ID` begins with `id` and that has a `Pid`.
pub open spec fn engine_pid(engine: Engine, id: Seq<char>, response: ResponseView) -> Result<
    u32,
    FailureView,
> {
    if !response.succeeded() {
        Err(
            engine_failed(
                "Failed to get "@ + engine_title(engine) + " container PID: "@ + response.detail(),
            ),
        )
    } else {
        let stdout = response->stdout;
        match engine {
            Engine::Containerd => match task_list(stdout) {
                None => Err(engine_failed("Failed to parse containerd task list"@)),
                Some(tasks) => match find_task(tasks, id) {
                    Some(pid) => Ok(pid),
                    None => Err(no_such_task(id)),
                },
            },
            _ => match inspected_pid(stdout) {
                Some(pid) => Ok(pid),
                None => Err(
                    engine_failed("Failed to parse "@ + engine_title(engine) + " PID"@),
                ),
            },
        }
    }
}

impl ContainerRuntimeView {
    /// The engine of a container and the container's id; `None` for a bare process.
    pub open spec fn container(self) -> Option<(Engine, Seq<char>)> {
        match self {
            ContainerRuntimeView::Docker { id } => Some((Engine::Docker, id)),
            ContainerRuntimeView::Podman { id } => Some((Engine::Podman, id)),
            ContainerRuntimeView::Containerd { id } => Some((Engine::Containerd, id)),
            ContainerRuntimeView::Pid { .. } => None,
        }
    }
}

/// One step of learning the process of `runtime`.
///
/// A bare process is known as it is, and no engine is asked. Of a
/// container the engine is asked first; its answer then gives the process
/// or the failure: see [`engine_pid`].
pub open spec fn pid_lookup(runtime: ContainerRuntimeView, response: Option<ResponseView>) -> Result<
    PidLookupView,
    FailureView,
> {
    match runtime {
        ContainerRuntimeView::Pid { pid } => Ok(PidLookupView::Known { pid }),
        _ => {
            let (engine, id) = runtime.container()->0;
            match response {
                None => Ok(PidLookupView::Ask { command: pid_invocation(engine, id) }),
                Some(r) => match engine_pid(engine, id, r) {
                    Ok(pid) => Ok(PidLookupView::Known { pid }),
                    Err(e) => Err(e),
                },
            }
        },
    }
}

/// The invocation of [`pid_invocation`].
fn pid_command(engine: Engine, id: &str) -> (c: Command)
    ensures
        c@ == pid_invocation(engine, id@),
{
    let mut args: Vec<String> = Vec::new();
    match engine {
        Engine::Containerd => {
            push_word(&mut args, "task");
            push_word(&mut args, "list");
            push_word(&mut args, "--format");
            push_word(&mut args, "json");
            assert(args.deep_view() =~= seq!["task"@, "list"@, "--format"@, "json"@]);
        },
        _ => {
            push_word(&mut args, "inspect");
            push_word(&mut args, "--format");
            push_word(&mut args, "{{.State.Pid}}");
            push_word(&mut args, id);
            assert(args.deep_view() =~= seq!["inspect"@, "--format"@, "{{.State.Pid}}"@, id@]);
        },
    }
    Command::new(engine.program(), args, Streams::Captured)
}

/// The name of the engine in messages.
fn title(engine: Engine) -> (r: &'static str)
    ensures
        r@ == engine_title(engine),
{
    match engine {
        Engine::Docker => "Docker",
        Engine::Podman => "Podman",
        Engine::Containerd => "containerd",
    }
}

/// The process of the container `id` of `engine`, going by the engine's
/// answer: see [`engine_pid`].
pub fn pid_from_response(engine: Engine, id: &str, response: &Response) -> (r: Result<u32, Failure>)
    ensures
        match r {
            Ok(pid) => engine_pid(engine, id@, response@) == Ok::<u32, FailureView>(pid),
            Err(e) => engine_pid(engine, id@, response@) == Err::<u32, FailureView>(e@),
        },
{
    match response {
        Response::Exited { code: Some(0), stdout, .. } => match engine {
            Engine::Containerd => match parse_task_list(stdout.as_slice()) {
                Err(_) => Err(
                    Failure::new(
                        FailureKind::SubprocessFailed,
                        "Failed to parse containerd task list",
                    ),
                ),
                Ok(tasks) => match find_task_pid(tasks.as_slice(), id) {
                    Some(pid) => Ok(pid),
                    None => Err(
                        Failure::with_detail(FailureKind::ResolutionFailure, "no such task: ", id),
                    ),
                },
            },
            _ => match parse_inspected_pid(stdout.as_slice()) {
                Some(pid) => Ok(pid),
                None => {
                    let head = joined("Failed to parse ", title(engine));
                    Err(Failure::with_detail(FailureKind::SubprocessFailed, head.as_str(), " PID"))
                },
            },
        },
        _ => {
            let head = joined("Failed to get ", title(engine));
            let context = joined(head.as_str(), " container PID: ");
            let detail = response.detail();
            Err(
                Failure::with_detail(
                    FailureKind::SubprocessFailed,
                    context.as_str(),
                    detail.as_str(),
                ),
            )
        },
    }
}

impl ContainerRuntime {
    /// One step of learning the process of the target: see [`pid_lookup`].
    /// The first step takes no answer. A bare process is known at once;
    /// for a container the command to run comes back, and the second step
    /// takes what the host answered to it.
    pub fn get_pid(&self, response: Option<&Response>) -> (r: Result<PidLookup, Failure>)
        ensures
            match r {
                Ok(lookup) => pid_lookup(
                    self@,
                    match response {
                        Some(r) => Some(r@),
                        None => None,
                    },
                ) == Ok::<PidLookupView, FailureView>(lookup@),
                Err(e) => pid_lookup(
                    self@,
                    match response {
                        Some(r) => Some(r@),
                        None => None,
                    },
                ) == Err::<PidLookupView, FailureView>(e@),
            },
            self@ matches ContainerRuntimeView::Pid { pid } ==> r matches Ok(
                PidLookup::Known { pid: known },
            ) && known == pid,
    {
        let (engine, id) = match self {
            ContainerRuntime::Pid { pid } => {
                return Ok(PidLookup::Known { pid: *pid });
            },
            ContainerRuntime::Docker { id } => (Engine::Docker, id),
            ContainerRuntime::Podman { id } => (Engine::Podman, id),
            ContainerRuntime::Containerd { id } => (Engine::Containerd, id),
        };
        match response {
            None => Ok(PidLookup::Ask { command: pid_command(engine, id.as_str()) }),
            Some(r) => match pid_from_response(engine, id.as_str(), r) {
                Ok(pid) => Ok(PidLookup::Known { pid }),
                Err(e) => Err(e),
            },
        }
    }
}

} // verus!
