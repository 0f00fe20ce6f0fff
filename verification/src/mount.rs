//! Attaching the debug image inside a target's mount namespace, and taking it out again.
use vstd::prelude::*;
use vstd::slice::slice_subrange;
use crate::command::{push_word, Command, CommandView, Streams};
use crate::failure::{Failure, FailureKind, FailureView};
use crate::host::{
    request_view, response_view, NamespaceKind, Request, RequestView, Response, ResponseView,
};
use crate::image::{
    classify, cleanup_step, setup_step, too_small, ImageManager, ImageManagerView, LoopCleanup,
    LoopCleanupView, LoopSetup, LoopSetupView, IMAGE_HEADER_SIZE,
};
use crate::namespace::{
    enter_single_namespace, entry_step, Entry, EntryView, NamespaceGuard, NamespaceManager,
};
use crate::text::{
    chars_of, joined, decimal, decimal_text, decode, decoded, field, field_range, owned,
    parse_decimal, parse_u32, range_equals, starts_with, strip_prefix,
};

verus! {

/// Where the image is mounted in the target.
pub const CRASHCART_MOUNT_PATH: &'static str = "/dev/crashcart";

/// The directory in the target that holds the device node, on a tmpfs of its own.
pub const CRASHCART_LOOP_DIR: &'static str = "/dev/cc-loop";

/// The device node of the bound loop device in the target.
pub const CRASHCART_DEVICE_NODE: &'static str = "/dev/cc-loop/crashcart";

/// The rc file of the debug shell.
pub const CRASHCART_RC_FILE: &'static str = "/dev/crashcart/.crashcartrc";

/// The mount table of the namespace the caller is in.
pub const MOUNT_TABLE: &'static str = "/proc/mounts";

/// What is written to the rc file.
pub const RC_CONTENTS: &'static str =
    "# Crashcart environment setup\nexport PATH=\"/dev/crashcart/bin:$PATH\"\nexport PS1=\"[crashcart] \\u@\\h:\\w\\$ \"\necho \"Crashcart debugging environment loaded\"\necho \"Available tools in /dev/crashcart/bin and /dev/crashcart/sbin\"\n";

/// The major device number of loop devices.
pub const LOOP_MAJOR: u64 = 7;

/// The permissions of the device node: read and write for owner and group.
pub const DEVICE_NODE_MODE: u32 = 0o660;

/// How many filesystem types are tried.
pub const FILESYSTEM_TYPES: usize = 3;

/// How many bytes of `bytes` come before its first line feed.
pub open spec fn line_width(bytes: Seq<u8>) -> nat
    decreases bytes.len(),
{
    if bytes.len() > 0 && bytes[0] != 0x0A {
        1 + line_width(bytes.drop_first())
    } else {
        0
    }
}

/// Whether the mount table `table` has a line whose second field, the
/// mount point, is `path`. Lines are read in order; `None` where a line that
/// is no UTF-8 text comes before any such line.
pub open spec fn table_lists(table: Seq<u8>, path: Seq<char>) -> Option<bool>
    decreases table.len(),
{
    if table.len() == 0 {
        Some(false)
    } else {
        let width = line_width(table);
        match decoded(table.take(width as int)) {
            None => None,
            Some(line) => if field(line, 1) == Some(path) {
                Some(true)
            } else if width < table.len() {
                table_lists(table.skip(width as int + 1), path)
            } else {
                Some(false)
            },
        }
    }
}

/// The failure to make sense of the mount table.
pub open spec fn unreadable_table() -> FailureView {
    FailureView { kind: FailureKind::MountFailed, message: "Failed to read /proc/mounts line"@ }
}

/// The minor number of the loop device at `device`: what follows
/// `/dev/loop`, read as a number.
pub open spec fn loop_minor(device: Seq<char>) -> Option<u32> {
    match strip_prefix(device, "/dev/loop"@) {
        Some(rest) => parse_u32(rest),
        None => None,
    }
}

/// The device number that Linux composes of a major and a minor number.
pub open spec fn device_number(major: u64, minor: u64) -> u64 {
    ((major & 0xffff_f000) << 32) | ((major & 0x0000_0fff) << 8) | ((minor & 0xffff_ff00) << 12) | (
    minor & 0x0000_00ff)
}

/// `nix::sys::stat::makedev`: the device number of a major and a minor
/// number, composed bit by bit as the Linux kernel lays it out.
pub assume_specification[ nix::sys::stat::makedev ](major: u64, minor: u64) -> (dev:
    nix::libc::dev_t)
    ensures
        dev == device_number(major, minor),
;

/// The failure that a loop device with no minor number in its path is refused with.
pub open spec fn invalid_loop_device(device: Seq<char>) -> FailureView {
    FailureView {
        kind: FailureKind::LoopExhausted,
        message: "Invalid loop device path: "@ + device,
    }
}

/// The `index`-th filesystem type that mounting tries.
pub open spec fn filesystem_type(index: int) -> Seq<char> {
    if index == 0 {
        "ext4"@
    } else if index == 1 {
        "ext3"@
    } else {
        "ext2"@
    }
}

/// The request to create the directory at `path`.
pub open spec fn make_dir(path: Seq<char>) -> RequestView {
    RequestView::MakeDir { path }
}

/// The request to read the mount table.
pub open spec fn read_mount_table() -> RequestView {
    RequestView::ReadFile { path: MOUNT_TABLE@, at_most: u64::MAX }
}

/// The request to mount the tmpfs that holds the device node.
pub open spec fn mount_tmpfs() -> RequestView {
    RequestView::Mount {
        source: "tmpfs"@,
        target: CRASHCART_LOOP_DIR@,
        fstype: "tmpfs"@,
        read_only: false,
    }
}

/// The request to create the node at `path` for the loop device with the minor number `minor`.
pub open spec fn make_device_node(path: Seq<char>, minor: u32) -> RequestView {
    RequestView::MakeNode {
        path,
        device: device_number(LOOP_MAJOR, minor as u64),
        mode: DEVICE_NODE_MODE,
    }
}

/// The request to mount the device at `source` read-only at the mount
/// path, as the `index`-th filesystem type.
pub open spec fn mount_image(source: Seq<char>, index: int) -> RequestView {
    RequestView::Mount {
        source,
        target: CRASHCART_MOUNT_PATH@,
        fstype: filesystem_type(index),
        read_only: true,
    }
}

/// The request to write the rc file of the debug shell.
pub open spec fn write_rc_file() -> RequestView {
    RequestView::WriteFile { path: CRASHCART_RC_FILE@, contents: RC_CONTENTS@ }
}

/// The failure of every filesystem type.
pub open spec fn no_filesystem() -> FailureView {
    FailureView {
        kind: FailureKind::MountFailed,
        message: "Failed to mount filesystem with any supported type"@,
    }
}

proof fn lemma_line_width_step(s: Seq<u8>, i: int, to: int)
    requires
        0 <= i <= to <= s.len(),
    ensures
        i < to && s[i] != 0x0A ==> line_width(s.subrange(i, to)) == 1 + line_width(
            s.subrange(i + 1, to),
        ),
        i == to || s[i] == 0x0A ==> line_width(s.subrange(i, to)) == 0,
{
    if i < to {
        assert(s.subrange(i, to)[0] == s[i]);
        assert(s.subrange(i, to).drop_first() =~= s.subrange(i + 1, to));
    }
}

/// The end of the line of `table` that starts at `from`: the place of its line feed, or the end.
fn line_end(table: &[u8], from: usize) -> (end: usize)
    requires
        from <= table@.len(),
    ensures
        from <= end <= table@.len(),
        end == from + line_width(table@.subrange(from as int, table@.len() as int)),
{
    let n = table.len();
    let mut i = from;
    while i < n && table[i] != 0x0A
        invariant
            from <= i <= n == table@.len(),
            line_width(table@.subrange(from as int, n as int)) == (i - from) + line_width(
                table@.subrange(i as int, n as int),
            ),
        decreases n - i,
    {
        proof {
            lemma_line_width_step(table@, i as int, n as int);
        }
        i += 1;
    }
    proof {
        lemma_line_width_step(table@, i as int, n as int);
    }
    i
}

/// Mounts and unmounts the debug image in a target.
#[derive(Debug)]
pub struct MountManager {
    namespace_manager: NamespaceManager,
}

impl MountManager {
    /// The manager: it holds nothing but the means to enter namespaces.
    pub fn new() -> (m: MountManager) {
        MountManager { namespace_manager: NamespaceManager::new() }
    }

    /// Whether the mount table `table` lists `path` as a mount point: see [`table_lists`].
    pub fn is_mounted(&self, table: &[u8], path: &str) -> (r: Result<bool, Failure>)
        ensures
            match r {
                Ok(found) => table_lists(table@, path@) == Some(found),
                Err(e) => table_lists(table@, path@) is None && e@ == unreadable_table(),
            },
    {
        let want = chars_of(path);
        let n = table.len();
        let mut pos: usize = 0;
        assert(table@.subrange(0, n as int) =~= table@);
        while pos < n
            invariant
                pos <= n == table@.len(),
                want@ == path@,
                table_lists(table@, path@) == table_lists(
                    table@.subrange(pos as int, n as int),
                    path@,
                ),
            decreases n - pos,
        {
            let end = line_end(table, pos);
            let line_bytes = slice_subrange(table, pos, end);
            proof {
                let rest = table@.subrange(pos as int, n as int);
                assert(rest.take(end - pos) =~= line_bytes@);
                if end < n {
                    assert(rest.skip(end - pos + 1) =~= table@.subrange(end + 1, n as int));
                }
            }
            match decode(line_bytes) {
                None => {
                    return Err(
                        Failure::new(FailureKind::MountFailed, "Failed to read /proc/mounts line"),
                    );
                },
                Some(line) => {
                    let chars = chars_of(line);
                    assert(chars@.subrange(0, chars@.len() as int) =~= chars@);
                    match field_range(chars.as_slice(), 0, chars.len(), 1) {
                        Some((a, b)) => {
                            if range_equals(chars.as_slice(), a, b, want.as_slice()) {
                                return Ok(true);
                            }
                        },
                        None => {},
                    }
                },
            }
            if end >= n {
                return Ok(false);
            }
            pos = end + 1;
        }
        Ok(false)
    }

    /// The request to create the device node at `device_path` for the loop
    /// device `loop_device`, with major number 7 and the minor number that
    /// the device's path ends in. A path that ends in none is refused.
    pub fn create_device_node(&self, device_path: &str, loop_device: &str) -> (r: Result<
        Request,
        Failure,
    >)
        ensures
            match r {
                Ok(request) => loop_minor(loop_device@) matches Some(minor) && request@
                    == make_device_node(device_path@, minor),
                Err(e) => loop_minor(loop_device@) is None && e@ == invalid_loop_device(
                    loop_device@,
                ),
            },
    {
        match minor_of(loop_device) {
            Some(minor) => Ok(
                Request::MakeNode {
                    path: owned(device_path),
                    device: nix::sys::stat::makedev(LOOP_MAJOR, minor as u64),
                    mode: DEVICE_NODE_MODE,
                },
            ),
            None => Err(
                Failure::with_detail(
                    FailureKind::LoopExhausted,
                    "Invalid loop device path: ",
                    loop_device,
                ),
            ),
        }
    }

    /// The request to mount the device at `device_path` read-only at the
    /// mount path, as the filesystem type that is tried after `failed`
    /// types have failed: ext4, then ext3, then ext2. Once all three have
    /// failed, mounting has.
    pub fn mount_filesystem(&self, device_path: &str, failed: usize) -> (r: Result<Request, Failure>)
        ensures
            match r {
                Ok(request) => failed < FILESYSTEM_TYPES && request@ == mount_image(
                    device_path@,
                    failed as int,
                ),
                Err(e) => failed >= FILESYSTEM_TYPES && e@ == no_filesystem(),
            },
    {
        if failed >= FILESYSTEM_TYPES {
            return Err(
                Failure::new(
                    FailureKind::MountFailed,
                    "Failed to mount filesystem with any supported type",
                ),
            );
        }
        let fstype = if failed == 0 {
            "ext4"
        } else if failed == 1 {
            "ext3"
        } else {
            "ext2"
        };
        Ok(
            Request::Mount {
                source: owned(device_path),
                target: owned(CRASHCART_MOUNT_PATH),
                fstype: owned(fstype),
                read_only: true,
            },
        )
    }

    /// The request to write the rc file of the debug shell into the mounted tree.
    pub fn setup_crashcart_environment(&self) -> (request: Request)
        ensures
            request@ == write_rc_file(),
    {
        Request::WriteFile { path: owned(CRASHCART_RC_FILE), contents: owned(RC_CONTENTS) }
    }
}

/// The minor number of the loop device at `device`: see [`loop_minor`].
pub fn minor_of(device: &str) -> (r: Option<u32>)
    ensures
        r == loop_minor(device@),
{
    let chars = chars_of(device);
    let prefix = chars_of("/dev/loop");
    if starts_with(chars.as_slice(), prefix.as_slice()) {
        assert(chars@.skip(prefix@.len() as int) =~= chars@.subrange(
            prefix@.len() as int,
            chars@.len() as int,
        ));
        parse_decimal(chars.as_slice(), prefix.len(), chars.len())
    } else {
        None
    }
}

/// The start of the script that mounts the image, up to the minor number
/// of the device node.
pub const MOUNT_SCRIPT_HEAD: &'static str =
    "#!/bin/bash\nset -euo pipefail\n\n# Check if already mounted\nif mountpoint -q /dev/crashcart 2>/dev/null; then\n    echo \"Crashcart already mounted\"\n    exit 0\nfi\n\n# Create mount directories\nmkdir -p /dev/cc-loop\nmkdir -p /dev/crashcart\n\n# Mount tmpfs for loop devices if not already mounted\nif ! mountpoint -q /dev/cc-loop 2>/dev/null; then\n    mount -t tmpfs tmpfs /dev/cc-loop\nfi\n\n# Create device node\nmknod /dev/cc-loop/crashcart b 7 ";

/// The script that mounts the image, from the minor number of the device
/// node to the contents of the rc file.
pub const MOUNT_SCRIPT_BODY: &'static str =
    " 2>/dev/null || true\n\n# Mount the filesystem\nmount -t ext4 -o ro /dev/cc-loop/crashcart /dev/crashcart 2>/dev/null \\\n    || mount -t ext3 -o ro /dev/cc-loop/crashcart /dev/crashcart 2>/dev/null \\\n    || mount -t ext2 -o ro /dev/cc-loop/crashcart /dev/crashcart\n\n# Write the shell rc file\ncat > /dev/crashcart/.crashcartrc <<'CRASHCARTRC'\n";

/// The end of the script that mounts the image, after the contents of the rc file.
pub const MOUNT_SCRIPT_TAIL: &'static str =
    "CRASHCARTRC\n\necho \"Successfully mounted crashcart image\"\n";

/// The script that takes the image out of the target. No step of it stops the next.
pub const UNMOUNT_SCRIPT: &'static str =
    "#!/bin/bash\nset -uo pipefail\n\n# Unmount the filesystem\nif mountpoint -q /dev/crashcart 2>/dev/null; then\n    umount /dev/crashcart || echo \"warning: could not unmount /dev/crashcart\" >&2\nfi\n\n# Clean up directories\nrm -rf /dev/crashcart || echo \"warning: could not remove /dev/crashcart\" >&2\n\n# Unmount tmpfs if mounted\nif mountpoint -q /dev/cc-loop 2>/dev/null; then\n    umount /dev/cc-loop || echo \"warning: could not unmount /dev/cc-loop\" >&2\nfi\n\nrm -rf /dev/cc-loop || echo \"warning: could not remove /dev/cc-loop\" >&2\n\necho \"Successfully cleaned up crashcart mount\"\n";

/// The script that mounts the image in the target from the loop device
/// with the minor number `minor`: the steps of the in-process strategy, in
/// its order, with the mount left alone where the image is mounted already.
pub open spec fn mount_script(minor: u32) -> Seq<char> {
    MOUNT_SCRIPT_HEAD@ + decimal_text(minor as nat) + MOUNT_SCRIPT_BODY@ + RC_CONTENTS@
        + MOUNT_SCRIPT_TAIL@
}

/// The invocation that runs `script` with bash in the mount namespace of the process `pid`.
pub open spec fn nsenter_invocation(pid: u32, script: Seq<char>) -> CommandView {
    CommandView {
        program: "nsenter"@,
        args: seq!["-t"@, decimal_text(pid as nat), "-m"@, "--"@, "bash"@, "-c"@, script],
        env: None,
        streams: Streams::Captured,
    }
}

/// The invocation that runs `script` with bash in the mount namespace of the process `pid`.
pub(crate) fn nsenter(pid: u32, script: &str) -> (c: Command)
    ensures
        c@ == nsenter_invocation(pid, script@),
{
    let mut args: Vec<String> = Vec::new();
    push_word(&mut args, "-t");
    push_word(&mut args, decimal(pid).as_str());
    push_word(&mut args, "-m");
    push_word(&mut args, "--");
    push_word(&mut args, "bash");
    push_word(&mut args, "-c");
    push_word(&mut args, script);
    assert(args.deep_view() =~= seq![
        "-t"@,
        decimal_text(pid as nat),
        "-m"@,
        "--"@,
        "bash"@,
        "-c"@,
        script@,
    ]);
    Command::new("nsenter", args, Streams::Captured)
}

/// The script of [`mount_script`].
fn mount_script_text(minor: u32) -> (r: String)
    ensures
        r@ == mount_script(minor),
{
    let a = joined(MOUNT_SCRIPT_HEAD, decimal(minor).as_str());
    let b = joined(a.as_str(), MOUNT_SCRIPT_BODY);
    let c = joined(b.as_str(), RC_CONTENTS);
    joined(c.as_str(), MOUNT_SCRIPT_TAIL)
}

/// How the work inside the target is done.
#[derive(Clone, Copy, Debug, PartialEq, Eq, Structural)]
pub enum Strategy {
    /// The caller enters the target's mount namespace and works there itself.
    InProcess,
    /// A script does the work, run in the target's mount namespace by `nsenter`.
    Nsenter,
}

/// A step of mounting the image from inside the target's mount namespace.
#[derive(Clone, Copy, Debug, PartialEq, Eq, Structural)]
pub enum Stage {
    /// Is the image mounted already?
    ProbeTree,
    MakeLoopDir,
    MakeMountDir,
    /// Is the tmpfs for the device node mounted already?
    ProbeLoopDir,
    MountTmpfs,
    MakeNode,
    /// Mount the image, after `failed` filesystem types have failed.
    MountImage { failed: usize },
    WriteRc,
}

/// How far mounting the image has come.
#[derive(Debug)]
pub enum MountState {
    /// Nothing was asked yet.
    Start,
    /// The start of the image file is being read.
    Verifying,
    /// The image is being bound to a loop device. `fresh` tells that the
    /// handle recorded no device before.
    Binding { setup: LoopSetup, fresh: bool },
    /// The mount script is running.
    Scripting { fresh: bool },
    /// The target's mount namespace is being entered.
    Entering { entry: Entry, fresh: bool },
    /// The caller works in the target's mount namespace, at `stage`.
    Working { guard: NamespaceGuard, fresh: bool, stage: Stage },
    /// The caller is being put back into its own mount namespace.
    Leaving { failure: Option<Failure>, fresh: bool },
    /// Mounting has failed, and the loop device bound for it is being released.
    RollingBack { cleanup: LoopCleanup, cause: Failure },
    /// Mounting has come to its end: with `failure`, or well.
    Finished { failure: Option<Failure> },
}

/// The mathematical value of a [`MountState`].
pub enum MountStateView {
    Start,
    Verifying,
    Binding { setup: LoopSetupView, fresh: bool },
    Scripting { fresh: bool },
    Entering { entry: EntryView, fresh: bool },
    Working { guard: NamespaceGuard, fresh: bool, stage: Stage },
    Leaving { failure: Option<FailureView>, fresh: bool },
    RollingBack { cleanup: LoopCleanupView, cause: FailureView },
    Finished { failure: Option<FailureView> },
}

/// The view of an optional failure.
pub open spec fn failure_view(failure: Option<Failure>) -> Option<FailureView> {
    match failure {
        Some(f) => Some(f@),
        None => None,
    }
}

impl View for MountState {
    type V = MountStateView;

    open spec fn view(&self) -> MountStateView {
        match self {
            MountState::Start => MountStateView::Start,
            MountState::Verifying => MountStateView::Verifying,
            MountState::Binding { setup, fresh } => MountStateView::Binding {
                setup: setup@,
                fresh: *fresh,
            },
            MountState::Scripting { fresh } => MountStateView::Scripting { fresh: *fresh },
            MountState::Entering { entry, fresh } => MountStateView::Entering {
                entry: entry@,
                fresh: *fresh,
            },
            MountState::Working { guard, fresh, stage } => MountStateView::Working {
                guard: *guard,
                fresh: *fresh,
                stage: *stage,
            },
            MountState::Leaving { failure, fresh } => MountStateView::Leaving {
                failure: failure_view(*failure),
                fresh: *fresh,
            },
            MountState::RollingBack { cleanup, cause } => MountStateView::RollingBack {
                cleanup: cleanup@,
                cause: cause@,
            },
            MountState::Finished { failure } => MountStateView::Finished {
                failure: failure_view(*failure),
            },
        }
    }
}

/// What a step of mounting gives: the handle after it, the next state, and
/// the next request.
pub type MountTurn = (ImageManagerView, MountStateView, Option<RequestView>);

/// A failure of the work in the target, with what the host said of it.
pub open spec fn mount_failed(context: Seq<char>, response: Option<ResponseView>) -> FailureView {
    FailureView {
        kind: FailureKind::MountFailed,
        message: context + match response {
            Some(r) => r.detail(),
            None => Seq::empty(),
        },
    }
}

/// The device that the handle records, or the empty path where it records none.
pub open spec fn recorded_device(image: ImageManagerView) -> Seq<char> {
    match image.loop_device {
        Some(d) => d,
        None => Seq::empty(),
    }
}

/// Mounting ends with `failure` while the caller is in its own namespace.
/// A loop device that this run bound is released first; one that was bound
/// before is left alone.
pub open spec fn fail_outside(image: ImageManagerView, failure: FailureView, fresh: bool) -> MountTurn {
    if fresh {
        let (released, cleanup, request) = cleanup_step(image, LoopCleanupView::Start, None);
        if cleanup.finished() {
            (released, MountStateView::Finished { failure: Some(failure) }, None)
        } else {
            (released, MountStateView::RollingBack { cleanup, cause: failure }, request)
        }
    } else {
        (image, MountStateView::Finished { failure: Some(failure) }, None)
    }
}

/// Mounting goes on once the caller is back in its own namespace.
pub open spec fn after_leave(image: ImageManagerView, failure: Option<FailureView>, fresh: bool) -> MountTurn {
    match failure {
        None => (image, MountStateView::Finished { failure: None }, None),
        Some(f) => fail_outside(image, f, fresh),
    }
}

/// The work in the target ends, with `failure` or well: whatever came of
/// it, the caller is put back into the namespace it came from.
pub open spec fn leave(
    image: ImageManagerView,
    guard: NamespaceGuard,
    failure: Option<FailureView>,
    fresh: bool,
) -> MountTurn {
    match guard.spec_release() {
        Some(request) => (image, MountStateView::Leaving { failure, fresh }, Some(request)),
        None => after_leave(image, failure, fresh),
    }
}

/// The work in the target begins, once the image is bound.
pub open spec fn begin_work(strategy: Strategy, pid: u32, image: ImageManagerView, fresh: bool) -> MountTurn {
    match strategy {
        Strategy::InProcess => {
            let (entry, request) = entry_step(pid, NamespaceKind::Mnt, EntryView::Start, None);
            (image, MountStateView::Entering { entry, fresh }, request)
        },
        Strategy::Nsenter => match loop_minor(recorded_device(image)) {
            Some(minor) => (
                image,
                MountStateView::Scripting { fresh },
                Some(RequestView::Run { command: nsenter_invocation(pid, mount_script(minor)) }),
            ),
            None => fail_outside(image, invalid_loop_device(recorded_device(image)), fresh),
        },
    }
}

/// Mounting goes on after a step of binding the image.
pub open spec fn after_binding(
    strategy: Strategy,
    pid: u32,
    image: ImageManagerView,
    setup: LoopSetupView,
    request: Option<RequestView>,
    fresh: bool,
) -> MountTurn {
    match setup {
        LoopSetupView::Bound { .. } => begin_work(strategy, pid, image, fresh),
        LoopSetupView::Failed { failure } => (
            image,
            MountStateView::Finished { failure: Some(failure) },
            None,
        ),
        _ => (image, MountStateView::Binding { setup, fresh }, request),
    }
}

/// The device node is created next, for the device that the handle records.
pub open spec fn node_stage(image: ImageManagerView, guard: NamespaceGuard, fresh: bool) -> MountTurn {
    match loop_minor(recorded_device(image)) {
        Some(minor) => (
            image,
            MountStateView::Working { guard, fresh, stage: Stage::MakeNode },
            Some(make_device_node(CRASHCART_DEVICE_NODE@, minor)),
        ),
        None => leave(image, guard, Some(invalid_loop_device(recorded_device(image))), fresh),
    }
}

/// The next stage is `stage`, and `request` is what it asks.
pub open spec fn stage_turn(
    image: ImageManagerView,
    guard: NamespaceGuard,
    fresh: bool,
    stage: Stage,
    request: RequestView,
) -> MountTurn {
    (image, MountStateView::Working { guard, fresh, stage }, Some(request))
}

/// One step of the work in the target's mount namespace.
///
/// Where the mount table lists the mount path, the image is mounted
/// already and nothing more is done. Else both directories are created,
/// the tmpfs is mounted unless the mount table lists it, the device node is
/// created or found there, the image is mounted read-only as the first of
/// ext4, ext3 and ext2 that the host accepts, and the rc file is written.
/// The first step that fails ends the work.
pub open spec fn work_step(
    image: ImageManagerView,
    guard: NamespaceGuard,
    fresh: bool,
    stage: Stage,
    response: Option<ResponseView>,
) -> MountTurn {
    match stage {
        Stage::ProbeTree => match response {
            Some(ResponseView::Contents { bytes }) => match table_lists(
                bytes,
                CRASHCART_MOUNT_PATH@,
            ) {
                Some(true) => leave(image, guard, None, fresh),
                Some(false) => stage_turn(
                    image,
                    guard,
                    fresh,
                    Stage::MakeLoopDir,
                    make_dir(CRASHCART_LOOP_DIR@),
                ),
                None => leave(image, guard, Some(unreadable_table()), fresh),
            },
            _ => leave(
                image,
                guard,
                Some(mount_failed("Failed to open /proc/mounts: "@, response)),
                fresh,
            ),
        },
        Stage::MakeLoopDir => match response {
            Some(ResponseView::Done) => stage_turn(
                image,
                guard,
                fresh,
                Stage::MakeMountDir,
                make_dir(CRASHCART_MOUNT_PATH@),
            ),
            _ => leave(
                image,
                guard,
                Some(mount_failed("Failed to create loop device directory: "@, response)),
                fresh,
            ),
        },
        Stage::MakeMountDir => match response {
            Some(ResponseView::Done) => stage_turn(
                image,
                guard,
                fresh,
                Stage::ProbeLoopDir,
                read_mount_table(),
            ),
            _ => leave(
                image,
                guard,
                Some(mount_failed("Failed to create mount point: "@, response)),
                fresh,
            ),
        },
        Stage::ProbeLoopDir => match response {
            Some(ResponseView::Contents { bytes }) => match table_lists(bytes, CRASHCART_LOOP_DIR@) {
                Some(true) => node_stage(image, guard, fresh),
                Some(false) => stage_turn(image, guard, fresh, Stage::MountTmpfs, mount_tmpfs()),
                None => leave(image, guard, Some(unreadable_table()), fresh),
            },
            _ => leave(
                image,
                guard,
                Some(mount_failed("Failed to open /proc/mounts: "@, response)),
                fresh,
            ),
        },
        Stage::MountTmpfs => match response {
            Some(ResponseView::Done) => node_stage(image, guard, fresh),
            _ => leave(
                image,
                guard,
                Some(mount_failed("Failed to mount tmpfs for loop devices: "@, response)),
                fresh,
            ),
        },
        Stage::MakeNode => match response {
            Some(ResponseView::Done) | Some(ResponseView::AlreadyExists) => stage_turn(
                image,
                guard,
                fresh,
                Stage::MountImage { failed: 0 },
                mount_image(CRASHCART_DEVICE_NODE@, 0),
            ),
            _ => leave(
                image,
                guard,
                Some(mount_failed("Failed to create device node: "@, response)),
                fresh,
            ),
        },
        Stage::MountImage { failed } => match response {
            Some(ResponseView::Done) => stage_turn(
                image,
                guard,
                fresh,
                Stage::WriteRc,
                write_rc_file(),
            ),
            _ => if failed + 1 < FILESYSTEM_TYPES {
                stage_turn(
                    image,
                    guard,
                    fresh,
                    Stage::MountImage { failed: (failed + 1) as usize },
                    mount_image(CRASHCART_DEVICE_NODE@, failed + 1),
                )
            } else {
                leave(image, guard, Some(no_filesystem()), fresh)
            },
        },
        Stage::WriteRc => match response {
            Some(ResponseView::Done) => leave(image, guard, None, fresh),
            _ => leave(
                image,
                guard,
                Some(mount_failed("Failed to create .crashcartrc: "@, response)),
                fresh,
            ),
        },
    }
}

/// The failure to read the image file, with what the host said of it.
pub open spec fn image_unreadable(response: Option<ResponseView>) -> FailureView {
    FailureView {
        kind: FailureKind::ImageInvalid,
        message: "Failed to open image file: "@ + match response {
            Some(r) => r.detail(),
            None => Seq::empty(),
        },
    }
}

/// The failure of the mount script, with what it wrote to standard error.
pub open spec fn script_failed(response: Option<ResponseView>) -> FailureView {
    FailureView {
        kind: FailureKind::SubprocessFailed,
        message: "Mount script failed: "@ + match response {
            Some(r) => r.detail(),
            None => Seq::empty(),
        },
    }
}

/// One step of mounting the image in the target `pid`.
///
/// The image is verified, then bound to a loop device unless the handle
/// records one; then the work in the target is done as `strategy` has it.
/// Once the image is bound, whatever fails later has the loop device that
/// this run bound released before mounting ends with the failure.
pub open spec fn mount_step(
    strategy: Strategy,
    pid: u32,
    image: ImageManagerView,
    state: MountStateView,
    response: Option<ResponseView>,
) -> MountTurn {
    match state {
        MountStateView::Start => (
            image,
            MountStateView::Verifying,
            Some(RequestView::ReadFile { path: image.image_path, at_most: IMAGE_HEADER_SIZE }),
        ),
        MountStateView::Verifying => match response {
            Some(ResponseView::Contents { bytes }) => match classify(bytes) {
                None => (image, MountStateView::Finished { failure: Some(too_small()) }, None),
                Some(_) => {
                    let (bound, setup, request) = setup_step(image, LoopSetupView::Start, None);
                    after_binding(strategy, pid, bound, setup, request, image.loop_device is None)
                },
            },
            _ => (
                image,
                MountStateView::Finished { failure: Some(image_unreadable(response)) },
                None,
            ),
        },
        MountStateView::Binding { setup, fresh } => {
            let (bound, setup, request) = setup_step(image, setup, response);
            after_binding(strategy, pid, bound, setup, request, fresh)
        },
        MountStateView::Scripting { fresh } => match response {
            Some(ResponseView::Exited { code: Some(0), .. }) => (
                image,
                MountStateView::Finished { failure: None },
                None,
            ),
            _ => fail_outside(image, script_failed(response), fresh),
        },
        MountStateView::Entering { entry, fresh } => {
            let (entry, request) = entry_step(pid, NamespaceKind::Mnt, entry, response);
            match entry {
                EntryView::Entered { guard } => stage_turn(
                    image,
                    guard,
                    fresh,
                    Stage::ProbeTree,
                    read_mount_table(),
                ),
                EntryView::Failed { failure } => fail_outside(image, failure, fresh),
                _ => (image, MountStateView::Entering { entry, fresh }, request),
            }
        },
        MountStateView::Working { guard, fresh, stage } => work_step(
            image,
            guard,
            fresh,
            stage,
            response,
        ),
        MountStateView::Leaving { failure, fresh } => after_leave(image, failure, fresh),
        MountStateView::RollingBack { cleanup, cause: failure } => {
            let (released, cleanup, request) = cleanup_step(image, cleanup, response);
            if cleanup.finished() {
                (released, MountStateView::Finished { failure: Some(failure) }, None)
            } else {
                (released, MountStateView::RollingBack { cleanup, cause: failure }, request)
            }
        },
        MountStateView::Finished { .. } => (image, state, None),
    }
}

/// A failure of `kind` whose message is `context`, then what the host said.
fn failure_of(kind: FailureKind, context: &str, response: &Option<Response>) -> (f: Failure)
    ensures
        f@ == (FailureView {
            kind,
            message: context@ + match response_view(*response) {
                Some(r) => r.detail(),
                None => Seq::empty(),
            },
        }),
{
    match response {
        Some(r) => {
            let detail = r.detail();
            Failure::with_detail(kind, context, detail.as_str())
        },
        None => {
            assert(context@ + Seq::<char>::empty() =~= context@);
            Failure::new(kind, context)
        },
    }
}

/// The device that the handle records, or the empty path.
fn device_of(image: &ImageManager) -> (r: String)
    ensures
        r@ == recorded_device(image@),
{
    match image.get_loop_device() {
        Some(d) => owned(d),
        None => String::new(),
    }
}

fn do_fail_outside(image: &mut ImageManager, failure: Failure, fresh: bool) -> (next: (
    MountState,
    Option<Request>,
))
    ensures
        (final(image)@, next.0@, request_view(next.1)) == fail_outside(
            old(image)@,
            failure@,
            fresh,
        ),
{
    if fresh {
        let (cleanup, request) = image.cleanup_loop_device(LoopCleanup::Start, None);
        match cleanup {
            LoopCleanup::Released | LoopCleanup::Failed { .. } => (
                MountState::Finished { failure: Some(failure) },
                None,
            ),
            _ => (MountState::RollingBack { cleanup, cause: failure }, request),
        }
    } else {
        (MountState::Finished { failure: Some(failure) }, None)
    }
}

fn do_after_leave(image: &mut ImageManager, failure: Option<Failure>, fresh: bool) -> (next: (
    MountState,
    Option<Request>,
))
    ensures
        (final(image)@, next.0@, request_view(next.1)) == after_leave(
            old(image)@,
            failure_view(failure),
            fresh,
        ),
{
    match failure {
        None => (MountState::Finished { failure: None }, None),
        Some(f) => do_fail_outside(image, f, fresh),
    }
}

fn do_leave(
    image: &mut ImageManager,
    guard: NamespaceGuard,
    failure: Option<Failure>,
    fresh: bool,
) -> (next: (MountState, Option<Request>))
    ensures
        (final(image)@, next.0@, request_view(next.1)) == leave(
            old(image)@,
            guard,
            failure_view(failure),
            fresh,
        ),
{
    match guard.release() {
        Some(request) => (MountState::Leaving { failure, fresh }, Some(request)),
        None => do_after_leave(image, failure, fresh),
    }
}

fn do_begin_work(strategy: Strategy, pid: u32, image: &mut ImageManager, fresh: bool) -> (next: (
    MountState,
    Option<Request>,
))
    ensures
        (final(image)@, next.0@, request_view(next.1)) == begin_work(
            strategy,
            pid,
            old(image)@,
            fresh,
        ),
{
    match strategy {
        Strategy::InProcess => {
            let (entry, request) = enter_single_namespace(
                pid,
                NamespaceKind::Mnt,
                Entry::Start,
                None,
            );
            (MountState::Entering { entry, fresh }, request)
        },
        Strategy::Nsenter => {
            let device = device_of(image);
            match minor_of(device.as_str()) {
                Some(minor) => {
                    let script = mount_script_text(minor);
                    (
                        MountState::Scripting { fresh },
                        Some(Request::Run { command: nsenter(pid, script.as_str()) }),
                    )
                },
                None => {
                    let failure = Failure::with_detail(
                        FailureKind::LoopExhausted,
                        "Invalid loop device path: ",
                        device.as_str(),
                    );
                    do_fail_outside(image, failure, fresh)
                },
            }
        },
    }
}

fn do_after_binding(
    strategy: Strategy,
    pid: u32,
    image: &mut ImageManager,
    setup: LoopSetup,
    request: Option<Request>,
    fresh: bool,
) -> (next: (MountState, Option<Request>))
    ensures
        (final(image)@, next.0@, request_view(next.1)) == after_binding(
            strategy,
            pid,
            old(image)@,
            setup@,
            request_view(request),
            fresh,
        ),
{
    match setup {
        LoopSetup::Bound { .. } => do_begin_work(strategy, pid, image, fresh),
        LoopSetup::Failed { failure } => (MountState::Finished { failure: Some(failure) }, None),
        _ => (MountState::Binding { setup, fresh }, request),
    }
}

fn do_node_stage(manager: &MountManager, image: &mut ImageManager, guard: NamespaceGuard, fresh: bool) -> (next:
    (MountState, Option<Request>))
    ensures
        (final(image)@, next.0@, request_view(next.1)) == node_stage(old(image)@, guard, fresh),
{
    let device = device_of(image);
    match manager.create_device_node(CRASHCART_DEVICE_NODE, device.as_str()) {
        Ok(request) => (
            MountState::Working { guard, fresh, stage: Stage::MakeNode },
            Some(request),
        ),
        Err(failure) => do_leave(image, guard, Some(failure), fresh),
    }
}

/// The request to read the mount table.
pub(crate) fn mount_table_request() -> (r: Request)
    ensures
        r@ == read_mount_table(),
{
    Request::ReadFile { path: owned(MOUNT_TABLE), at_most: u64::MAX }
}

fn do_work(
    manager: &MountManager,
    image: &mut ImageManager,
    guard: NamespaceGuard,
    fresh: bool,
    stage: Stage,
    response: Option<Response>,
) -> (next: (MountState, Option<Request>))
    ensures
        (final(image)@, next.0@, request_view(next.1)) == work_step(
            old(image)@,
            guard,
            fresh,
            stage,
            response_view(response),
        ),
{
    match stage {
        Stage::ProbeTree => match &response {
            Some(Response::Contents { bytes }) => {
                match manager.is_mounted(bytes.as_slice(), CRASHCART_MOUNT_PATH) {
                    Ok(true) => do_leave(image, guard, None, fresh),
                    Ok(false) => (
                        MountState::Working { guard, fresh, stage: Stage::MakeLoopDir },
                        Some(Request::MakeDir { path: owned(CRASHCART_LOOP_DIR) }),
                    ),
                    Err(failure) => do_leave(image, guard, Some(failure), fresh),
                }
            },
            _ => {
                let failure = failure_of(
                    FailureKind::MountFailed,
                    "Failed to open /proc/mounts: ",
                    &response,
                );
                do_leave(image, guard, Some(failure), fresh)
            },
        },
        Stage::MakeLoopDir => match &response {
            Some(Response::Done) => (
                MountState::Working { guard, fresh, stage: Stage::MakeMountDir },
                Some(Request::MakeDir { path: owned(CRASHCART_MOUNT_PATH) }),
            ),
            _ => {
                let failure = failure_of(
                    FailureKind::MountFailed,
                    "Failed to create loop device directory: ",
                    &response,
                );
                do_leave(image, guard, Some(failure), fresh)
            },
        },
        Stage::MakeMountDir => match &response {
            Some(Response::Done) => (
                MountState::Working { guard, fresh, stage: Stage::ProbeLoopDir },
                Some(mount_table_request()),
            ),
            _ => {
                let failure = failure_of(
                    FailureKind::MountFailed,
                    "Failed to create mount point: ",
                    &response,
                );
                do_leave(image, guard, Some(failure), fresh)
            },
        },
        Stage::ProbeLoopDir => match &response {
            Some(Response::Contents { bytes }) => {
                match manager.is_mounted(bytes.as_slice(), CRASHCART_LOOP_DIR) {
                    Ok(true) => do_node_stage(manager, image, guard, fresh),
                    Ok(false) => (
                        MountState::Working { guard, fresh, stage: Stage::MountTmpfs },
                        Some(
                            Request::Mount {
                                source: owned("tmpfs"),
                                target: owned(CRASHCART_LOOP_DIR),
                                fstype: owned("tmpfs"),
                                read_only: false,
                            },
                        ),
                    ),
                    Err(failure) => do_leave(image, guard, Some(failure), fresh),
                }
            },
            _ => {
                let failure = failure_of(
                    FailureKind::MountFailed,
                    "Failed to open /proc/mounts: ",
                    &response,
                );
                do_leave(image, guard, Some(failure), fresh)
            },
        },
        Stage::MountTmpfs => match &response {
            Some(Response::Done) => do_node_stage(manager, image, guard, fresh),
            _ => {
                let failure = failure_of(
                    FailureKind::MountFailed,
                    "Failed to mount tmpfs for loop devices: ",
                    &response,
                );
                do_leave(image, guard, Some(failure), fresh)
            },
        },
        Stage::MakeNode => match &response {
            Some(Response::Done) | Some(Response::AlreadyExists) => {
                match manager.mount_filesystem(CRASHCART_DEVICE_NODE, 0) {
                    Ok(request) => (
                        MountState::Working { guard, fresh, stage: Stage::MountImage { failed: 0 } },
                        Some(request),
                    ),
                    Err(failure) => do_leave(image, guard, Some(failure), fresh),
                }
            },
            _ => {
                let failure = failure_of(
                    FailureKind::MountFailed,
                    "Failed to create device node: ",
                    &response,
                );
                do_leave(image, guard, Some(failure), fresh)
            },
        },
        Stage::MountImage { failed } => match &response {
            Some(Response::Done) => (
                MountState::Working { guard, fresh, stage: Stage::WriteRc },
                Some(manager.setup_crashcart_environment()),
            ),
            _ => {
                if failed < FILESYSTEM_TYPES - 1 {
                    match manager.mount_filesystem(CRASHCART_DEVICE_NODE, failed + 1) {
                        Ok(request) => (
                            MountState::Working {
                                guard,
                                fresh,
                                stage: Stage::MountImage { failed: failed + 1 },
                            },
                            Some(request),
                        ),
                        Err(failure) => do_leave(image, guard, Some(failure), fresh),
                    }
                } else {
                    let failure = Failure::new(
                        FailureKind::MountFailed,
                        "Failed to mount filesystem with any supported type",
                    );
                    do_leave(image, guard, Some(failure), fresh)
                }
            },
        },
        Stage::WriteRc => match &response {
            Some(Response::Done) => do_leave(image, guard, None, fresh),
            _ => {
                let failure = failure_of(
                    FailureKind::MountFailed,
                    "Failed to create .crashcartrc: ",
                    &response,
                );
                do_leave(image, guard, Some(failure), fresh)
            },
        },
    }
}

fn do_mount(
    manager: &MountManager,
    strategy: Strategy,
    pid: u32,
    image: &mut ImageManager,
    state: MountState,
    response: Option<Response>,
) -> (next: (MountState, Option<Request>))
    ensures
        (final(image)@, next.0@, request_view(next.1)) == mount_step(
            strategy,
            pid,
            old(image)@,
            state@,
            response_view(response),
        ),
{
    match state {
        MountState::Start => (
            MountState::Verifying,
            Some(Request::ReadFile { path: owned(image.image_path()), at_most: IMAGE_HEADER_SIZE }),
        ),
        MountState::Verifying => match &response {
            Some(Response::Contents { bytes }) => {
                match image.verify_image(bytes.as_slice()) {
                    Err(failure) => (MountState::Finished { failure: Some(failure) }, None),
                    Ok(_) => {
                        let fresh = image.get_loop_device().is_none();
                        let (setup, request) = image.setup_loop_device(LoopSetup::Start, None);
                        do_after_binding(strategy, pid, image, setup, request, fresh)
                    },
                }
            },
            _ => {
                let failure = failure_of(
                    FailureKind::ImageInvalid,
                    "Failed to open image file: ",
                    &response,
                );
                (MountState::Finished { failure: Some(failure) }, None)
            },
        },
        MountState::Binding { setup, fresh } => {
            let (setup, request) = image.setup_loop_device(setup, response);
            do_after_binding(strategy, pid, image, setup, request, fresh)
        },
        MountState::Scripting { fresh } => match &response {
            Some(Response::Exited { code: Some(0), .. }) => (
                MountState::Finished { failure: None },
                None,
            ),
            _ => {
                let failure = failure_of(
                    FailureKind::SubprocessFailed,
                    "Mount script failed: ",
                    &response,
                );
                do_fail_outside(image, failure, fresh)
            },
        },
        MountState::Entering { entry, fresh } => {
            let (entry, request) = manager.namespace_manager.enter_mount_namespace(
                pid,
                entry,
                response,
            );
            match entry {
                Entry::Entered { guard } => (
                    MountState::Working { guard, fresh, stage: Stage::ProbeTree },
                    Some(mount_table_request()),
                ),
                Entry::Failed { failure } => do_fail_outside(image, failure, fresh),
                _ => (MountState::Entering { entry, fresh }, request),
            }
        },
        MountState::Working { guard, fresh, stage } => do_work(
            manager,
            image,
            guard,
            fresh,
            stage,
            response,
        ),
        MountState::Leaving { failure, fresh } => do_after_leave(image, failure, fresh),
        MountState::RollingBack { cleanup, cause: failure } => {
            let (cleanup, request) = image.cleanup_loop_device(cleanup, response);
            match cleanup {
                LoopCleanup::Released | LoopCleanup::Failed { .. } => (
                    MountState::Finished { failure: Some(failure) },
                    None,
                ),
                _ => (MountState::RollingBack { cleanup, cause: failure }, request),
            }
        },
        MountState::Finished { failure } => (MountState::Finished { failure }, None),
    }
}

impl MountManager {
    /// One step of mounting the image in the target `pid`, with the caller
    /// itself working in the target's mount namespace: from the state and
    /// the host's answer to the last request, the next state and the next
    /// request. The first step takes `MountState::Start` and no answer;
    /// `None` comes back as request once the state is `Finished`. See
    /// [`mount_step`].
    pub fn mount(&self, pid: u32, image: &mut ImageManager, state: MountState, response: Option<Response>) -> (next:
        (MountState, Option<Request>))
        ensures
            (final(image)@, next.0@, request_view(next.1)) == mount_step(
                Strategy::InProcess,
                pid,
                old(image)@,
                state@,
                response_view(response),
            ),
    {
        do_mount(self, Strategy::InProcess, pid, image, state, response)
    }

    /// One step of mounting the image in the target `pid` by a script that
    /// `nsenter` runs in the target's mount namespace: from the state and the
    /// host's answer to the last request, the next state and the next
    /// request. The first step takes `MountState::Start` and no answer;
    /// `None` comes back as request once the state is `Finished`. See
    /// [`mount_step`].
    pub fn mount_with_nsenter(
        &self,
        pid: u32,
        image: &mut ImageManager,
        state: MountState,
        response: Option<Response>,
    ) -> (next: (MountState, Option<Request>))
        ensures
            (final(image)@, next.0@, request_view(next.1)) == mount_step(
                Strategy::Nsenter,
                pid,
                old(image)@,
                state@,
                response_view(response),
            ),
    {
        do_mount(self, Strategy::Nsenter, pid, image, state, response)
    }
}

} // verus!
