use crashcart::failure::{Failure, FailureKind};
use crashcart::host::{NamespaceDescriptor, Request, Response};
use crashcart::mount::{
    minor_of, MountState, CRASHCART_DEVICE_NODE, CRASHCART_LOOP_DIR, CRASHCART_MOUNT_PATH,
    CRASHCART_RC_FILE, RC_CONTENTS,
};
use crashcart::unmount::UnmountState;
use crashcart::{ImageManager, MountManager};

const HOST_NS: u64 = 1000;
const TARGET_NS: u64 = 2000;

/// A host that keeps its state in memory: one target with a mount
/// namespace of its own, and a pool of loop devices.
struct Host {
    attached: u64,
    descriptors: Vec<(i32, u64)>,
    bound: Vec<String>,
    next_free: u32,
    tree_mounted: bool,
    tree_dir: bool,
    loop_mounted: bool,
    loop_dir: bool,
    node: Option<u64>,
    rc_file: Option<String>,
    image: Vec<u8>,
    accepted_fstype: &'static str,
    refuse: Option<&'static str>,
    log: Vec<String>,
}

impl Host {
    fn new() -> Host {
        let mut image = vec![0u8; 4096];
        image[1080] = 0x53;
        image[1081] = 0xEF;
        Host {
            attached: HOST_NS,
            descriptors: Vec::new(),
            bound: Vec::new(),
            next_free: 3,
            tree_mounted: false,
            tree_dir: false,
            loop_mounted: false,
            loop_dir: false,
            node: None,
            rc_file: None,
            image,
            accepted_fstype: "ext4",
            refuse: None,
            log: Vec::new(),
        }
    }

    fn mount_table(&self) -> Vec<u8> {
        let mut text = String::from("proc /proc proc rw,nosuid 0 0\n\ntmpfs /dev tmpfs rw 0 0\n");
        if self.loop_mounted {
            text.push_str("tmpfs /dev/cc-loop tmpfs rw,relatime 0 0\n");
        }
        if self.tree_mounted {
            text.push_str("/dev/cc-loop/crashcart /dev/crashcart ext4 ro,relatime 0 0\n");
        }
        text.into_bytes()
    }

    fn in_target(&self) -> bool {
        self.attached == TARGET_NS
    }

    fn refused(&self, what: &str) -> bool {
        self.refuse == Some(what)
    }

    fn perform(&mut self, request: &Request) -> Response {
        let failed = || Response::Failed { detail: "refused".to_string() };
        match request {
            Request::Run { command } => {
                let args: Vec<&str> = command.args.iter().map(|a| a.as_str()).collect();
                self.log.push(format!("{} {}", command.program, args.join(" ")));
                assert_eq!(command.program, "losetup");
                assert_eq!(self.attached, HOST_NS, "losetup must run on the host");
                let done = |code: i32, stdout: String| Response::Exited {
                    code: Some(code),
                    stdout: stdout.into_bytes(),
                    stderr: String::new(),
                };
                match args.as_slice() {
                    ["-f"] => done(0, format!("/dev/loop{}\n", self.next_free)),
                    ["-d", device] => {
                        if self.refused("detach") {
                            return done(1, String::new());
                        }
                        self.bound.retain(|d| d != device);
                        done(0, String::new())
                    }
                    [device, _image] => {
                        self.bound.push(device.to_string());
                        self.next_free += 1;
                        done(0, String::new())
                    }
                    _ => panic!("unexpected losetup call"),
                }
            }
            Request::ReadFile { path, at_most } => {
                self.log.push(format!("read {}", path));
                if path == "/proc/mounts" {
                    assert!(self.in_target());
                    Response::Contents { bytes: self.mount_table() }
                } else {
                    let n = (*at_most as usize).min(self.image.len());
                    Response::Contents { bytes: self.image[..n].to_vec() }
                }
            }
            Request::PathExists { path } => {
                self.log.push(format!("exists {}", path));
                assert!(self.in_target());
                let present = if path == CRASHCART_MOUNT_PATH { self.tree_dir } else { self.loop_dir };
                Response::Exists { present }
            }
            Request::OpenNamespace { path } => {
                self.log.push(format!("open {}", path));
                if self.refused("open") {
                    return failed();
                }
                let inode = if path.starts_with("/proc/self/") { self.attached } else { TARGET_NS };
                let descriptor = 10 + self.descriptors.len() as i32;
                self.descriptors.push((descriptor, inode));
                Response::Opened { descriptor: NamespaceDescriptor { descriptor, device: 4, inode } }
            }
            Request::SetNamespace { descriptor, .. } => {
                self.log.push(format!("setns {}", descriptor));
                let found = self.descriptors.iter().find(|(d, _)| d == descriptor).unwrap();
                self.attached = found.1;
                Response::Done
            }
            Request::BecomeRoot => Response::Done,
            Request::MakeDir { path } => {
                self.log.push(format!("mkdir {}", path));
                assert!(self.in_target());
                if path == CRASHCART_MOUNT_PATH {
                    self.tree_dir = true;
                } else {
                    assert_eq!(path, CRASHCART_LOOP_DIR);
                    self.loop_dir = true;
                }
                Response::Done
            }
            Request::Mount { source, target, fstype, read_only } => {
                self.log.push(format!("mount -t {} {} {}", fstype, source, target));
                assert!(self.in_target());
                if target == CRASHCART_LOOP_DIR {
                    assert_eq!((source.as_str(), fstype.as_str(), *read_only), ("tmpfs", "tmpfs", false));
                    if self.refused("tmpfs") {
                        return failed();
                    }
                    self.loop_mounted = true;
                    Response::Done
                } else {
                    assert_eq!(target, CRASHCART_MOUNT_PATH);
                    assert_eq!(source, CRASHCART_DEVICE_NODE);
                    assert!(*read_only);
                    if fstype != self.accepted_fstype {
                        return failed();
                    }
                    self.tree_mounted = true;
                    Response::Done
                }
            }
            Request::MakeNode { path, device, mode } => {
                self.log.push(format!("mknod {} {:#x} {:o}", path, device, mode));
                assert!(self.in_target());
                assert_eq!(path, CRASHCART_DEVICE_NODE);
                if self.refused("mknod") {
                    return failed();
                }
                if self.node.is_some() {
                    return Response::AlreadyExists;
                }
                self.node = Some(*device);
                Response::Done
            }
            Request::Unmount { target } => {
                self.log.push(format!("umount {}", target));
                assert!(self.in_target());
                if self.refused("umount") {
                    return failed();
                }
                if target == CRASHCART_MOUNT_PATH {
                    self.tree_mounted = false;
                    self.rc_file = None;
                } else {
                    self.loop_mounted = false;
                    self.node = None;
                }
                Response::Done
            }
            Request::RemoveDir { path } => {
                self.log.push(format!("rmdir {}", path));
                assert!(self.in_target());
                if path == CRASHCART_MOUNT_PATH {
                    self.tree_dir = false;
                } else {
                    self.loop_dir = false;
                }
                Response::Done
            }
            Request::WriteFile { path, contents } => {
                self.log.push(format!("write {}", path));
                assert!(self.in_target());
                assert_eq!(path, CRASHCART_RC_FILE);
                if self.refused("write") {
                    return failed();
                }
                self.rc_file = Some(contents.clone());
                Response::Done
            }
        }
    }

    fn clean(&self) -> bool {
        !self.tree_mounted && !self.tree_dir && !self.loop_mounted && !self.loop_dir
            && self.node.is_none() && self.rc_file.is_none()
    }
}

fn mount(host: &mut Host, image: &mut ImageManager) -> Option<Failure> {
    let manager = MountManager::new();
    let mut state = MountState::Start;
    let mut response = None;
    loop {
        let (next, request) = manager.mount(4711, image, state, response.take());
        state = next;
        match request {
            Some(request) => response = Some(host.perform(&request)),
            None => match state {
                MountState::Finished { failure } => return failure,
                other => panic!("mounting stopped at {:?}", other),
            },
        }
    }
}

fn unmount(host: &mut Host, image: &mut ImageManager) -> Option<Failure> {
    let manager = MountManager::new();
    let mut state = UnmountState::Start;
    let mut response = None;
    loop {
        let (next, request) = manager.unmount(4711, image, state, response.take());
        state = next;
        match request {
            Some(request) => response = Some(host.perform(&request)),
            None => match state {
                UnmountState::Finished { failure } => return failure,
                other => panic!("unmounting stopped at {:?}", other),
            },
        }
    }
}

fn count(host: &Host, prefix: &str) -> usize {
    host.log.iter().filter(|l| l.starts_with(prefix)).count()
}

#[test]
fn mount_sets_everything_up_in_the_target() {
    let mut host = Host::new();
    let mut image = ImageManager::new("/images/crashcart.img", true).unwrap();
    assert!(mount(&mut host, &mut image).is_none());
    assert_eq!(
        host.log,
        [
            "read /images/crashcart.img",
            "losetup -f",
            "losetup /dev/loop3 /images/crashcart.img",
            "open /proc/self/ns/mnt",
            "open /proc/4711/ns/mnt",
            "setns 11",
            "read /proc/mounts",
            "mkdir /dev/cc-loop",
            "mkdir /dev/crashcart",
            "read /proc/mounts",
            "mount -t tmpfs tmpfs /dev/cc-loop",
            "mknod /dev/cc-loop/crashcart 0x703 660",
            "mount -t ext4 /dev/cc-loop/crashcart /dev/crashcart",
            "write /dev/crashcart/.crashcartrc",
            "setns 10",
        ]
    );
    assert!(host.tree_mounted && host.tree_dir && host.loop_mounted && host.loop_dir);
    assert_eq!(host.node, Some(0x703));
    assert_eq!(host.rc_file.as_deref(), Some(RC_CONTENTS));
    assert_eq!(host.attached, HOST_NS);
    assert_eq!(host.bound, ["/dev/loop3"]);
    assert_eq!(image.get_loop_device(), Some("/dev/loop3"));
}

#[test]
fn second_mount_changes_nothing() {
    let mut host = Host::new();
    let mut image = ImageManager::new("/images/crashcart.img", true).unwrap();
    assert!(mount(&mut host, &mut image).is_none());
    host.log.clear();
    assert!(mount(&mut host, &mut image).is_none());
    assert_eq!(
        host.log,
        [
            "read /images/crashcart.img",
            "open /proc/self/ns/mnt",
            "open /proc/4711/ns/mnt",
            "setns 13",
            "read /proc/mounts",
            "setns 12",
        ]
    );
    let table = String::from_utf8(host.mount_table()).unwrap();
    let entries = table.lines().filter(|l| l.split_whitespace().nth(1) == Some("/dev/crashcart"));
    assert_eq!(entries.count(), 1);
    assert_eq!(host.bound, ["/dev/loop3"]);
    assert_eq!(host.attached, HOST_NS);
}

#[test]
fn mount_then_unmount_returns_to_clean() {
    let mut host = Host::new();
    let mut image = ImageManager::new("/images/crashcart.img", true).unwrap();
    assert!(host.clean());
    assert!(mount(&mut host, &mut image).is_none());
    host.log.clear();
    assert!(unmount(&mut host, &mut image).is_none());
    assert_eq!(
        host.log,
        [
            "open /proc/self/ns/mnt",
            "open /proc/4711/ns/mnt",
            "setns 13",
            "read /proc/mounts",
            "umount /dev/crashcart",
            "exists /dev/crashcart",
            "rmdir /dev/crashcart",
            "read /proc/mounts",
            "umount /dev/cc-loop",
            "exists /dev/cc-loop",
            "rmdir /dev/cc-loop",
            "setns 12",
            "losetup -d /dev/loop3",
        ]
    );
    assert!(host.clean());
    assert!(host.bound.is_empty());
    assert!(!host.bound.contains(&"/dev/loop3".to_string()));
    assert_eq!(image.get_loop_device(), None);
    assert_eq!(host.attached, HOST_NS);
}

#[test]
fn unmount_of_a_clean_target_only_looks() {
    let mut host = Host::new();
    let mut image = ImageManager::new("/images/crashcart.img", true).unwrap();
    assert!(unmount(&mut host, &mut image).is_none());
    assert_eq!(count(&host, "umount"), 0);
    assert_eq!(count(&host, "rmdir"), 0);
    assert_eq!(count(&host, "losetup"), 0);
    assert!(host.clean());
    assert_eq!(host.attached, HOST_NS);
}

#[test]
fn unmount_goes_on_after_a_failed_step() {
    let mut host = Host::new();
    let mut image = ImageManager::new("/images/crashcart.img", true).unwrap();
    assert!(mount(&mut host, &mut image).is_none());
    host.log.clear();
    host.refuse = Some("umount");
    assert!(unmount(&mut host, &mut image).is_none());
    assert_eq!(count(&host, "umount"), 2);
    assert_eq!(count(&host, "rmdir"), 2);
    assert_eq!(host.log.last().unwrap(), "losetup -d /dev/loop3");
    assert_eq!(host.attached, HOST_NS);
    assert!(host.bound.is_empty());
}

#[test]
fn unmount_releases_the_loop_device_even_without_the_namespace() {
    let mut host = Host::new();
    let mut image = ImageManager::new("/images/crashcart.img", true).unwrap();
    assert!(mount(&mut host, &mut image).is_none());
    host.log.clear();
    host.refuse = Some("open");
    assert!(unmount(&mut host, &mut image).is_none());
    assert_eq!(host.log, ["open /proc/self/ns/mnt", "losetup -d /dev/loop3"]);
    assert_eq!(image.get_loop_device(), None);
}

#[test]
fn unmount_reports_a_failed_release() {
    let mut host = Host::new();
    let mut image = ImageManager::new("/images/crashcart.img", true).unwrap();
    assert!(mount(&mut host, &mut image).is_none());
    host.refuse = Some("detach");
    let failure = unmount(&mut host, &mut image).unwrap();
    assert_eq!(failure.kind, FailureKind::SubprocessFailed);
    assert_eq!(failure.to_string(), "Failed to detach loop device /dev/loop3");
    assert_eq!(image.get_loop_device(), Some("/dev/loop3"));
}

#[test]
fn filesystem_types_are_tried_in_order() {
    for (fstype, tries) in [("ext4", 1), ("ext3", 2), ("ext2", 3)] {
        let mut host = Host::new();
        host.accepted_fstype = fstype;
        let mut image = ImageManager::new("/images/crashcart.img", true).unwrap();
        assert!(mount(&mut host, &mut image).is_none());
        let mounts: Vec<&String> =
            host.log.iter().filter(|l| l.ends_with(" /dev/crashcart") && l.starts_with("mount")).collect();
        assert_eq!(mounts.len(), tries);
        assert_eq!(
            mounts.last().unwrap().as_str(),
            format!("mount -t {} /dev/cc-loop/crashcart /dev/crashcart", fstype)
        );
    }
}

#[test]
fn failed_mount_restores_the_namespace_and_releases_the_device() {
    let mut host = Host::new();
    host.accepted_fstype = "xfs";
    let mut image = ImageManager::new("/images/crashcart.img", true).unwrap();
    let failure = mount(&mut host, &mut image).unwrap();
    assert_eq!(failure.kind, FailureKind::MountFailed);
    assert_eq!(failure.to_string(), "Failed to mount filesystem with any supported type");
    assert_eq!(host.attached, HOST_NS);
    let n = host.log.len();
    assert_eq!(host.log[n - 2], "setns 10");
    assert_eq!(host.log[n - 1], "losetup -d /dev/loop3");
    assert!(host.bound.is_empty());
    assert_eq!(image.get_loop_device(), None);
}

#[test]
fn each_failing_step_ends_the_mount_with_its_failure() {
    for (what, kind, message) in [
        ("open", FailureKind::NamespaceDenied, "Failed to open current namespace: refused"),
        ("tmpfs", FailureKind::MountFailed, "Failed to mount tmpfs for loop devices: refused"),
        ("mknod", FailureKind::MountFailed, "Failed to create device node: refused"),
        ("write", FailureKind::MountFailed, "Failed to create .crashcartrc: refused"),
    ] {
        let mut host = Host::new();
        host.refuse = Some(what);
        let mut image = ImageManager::new("/images/crashcart.img", true).unwrap();
        let failure = mount(&mut host, &mut image).unwrap();
        assert_eq!(failure.kind, kind);
        assert_eq!(failure.to_string(), message);
        assert_eq!(host.attached, HOST_NS, "{}", what);
        assert!(host.bound.is_empty(), "{}", what);
        assert_eq!(image.get_loop_device(), None);
    }
}

#[test]
fn existing_device_node_is_accepted() {
    let mut host = Host::new();
    host.loop_dir = true;
    host.loop_mounted = true;
    host.node = Some(0x703);
    let mut image = ImageManager::new("/images/crashcart.img", true).unwrap();
    assert!(mount(&mut host, &mut image).is_none());
    assert_eq!(count(&host, "mount -t tmpfs"), 0);
    assert!(host.tree_mounted);
}

#[test]
fn small_image_is_refused_before_anything_is_bound() {
    let mut host = Host::new();
    host.image = vec![0u8; 512];
    let mut image = ImageManager::new("/images/crashcart.img", true).unwrap();
    let failure = mount(&mut host, &mut image).unwrap();
    assert_eq!(failure.kind, FailureKind::ImageInvalid);
    assert_eq!(host.log, ["read /images/crashcart.img"]);
}

#[test]
fn minors_of_loop_devices() {
    assert_eq!(minor_of("/dev/loop0"), Some(0));
    assert_eq!(minor_of("/dev/loop12"), Some(12));
    assert_eq!(minor_of("/dev/loop"), None);
    assert_eq!(minor_of("/dev/sda1"), None);
    assert_eq!(minor_of("loop3"), None);
    assert_eq!(minor_of("/dev/loop3p1"), None);
}

#[test]
fn device_numbers_follow_the_kernel_layout() {
    let manager = MountManager::new();
    let device = |path: &str| match manager.create_device_node("/n", path).unwrap() {
        Request::MakeNode { path, device, mode } => {
            assert_eq!(path, "/n");
            assert_eq!(mode, 0o660);
            device
        }
        other => panic!("unexpected request {:?}", other),
    };
    assert_eq!(device("/dev/loop0"), 0x700);
    assert_eq!(device("/dev/loop255"), 0x7ff);
    assert_eq!(device("/dev/loop256"), 0x100700);
    let e = manager.create_device_node("/n", "/dev/nbd0").unwrap_err();
    assert_eq!(e.kind, FailureKind::LoopExhausted);
    assert_eq!(e.to_string(), "Invalid loop device path: /dev/nbd0");
}

#[test]
fn mount_table_is_matched_on_the_second_field() {
    let manager = MountManager::new();
    let table = b"/dev/sda1 / ext4 rw 0 0\n/dev/crashcart /mnt ext4 rw 0 0\n\n  tmpfs\t/dev/cc-loop  tmpfs rw 0 0\nnoeol /last";
    assert!(manager.is_mounted(table, "/").unwrap());
    assert!(manager.is_mounted(table, "/dev/cc-loop").unwrap());
    assert!(manager.is_mounted(table, "/last").unwrap());
    assert!(!manager.is_mounted(table, "/dev/crashcart").unwrap());
    assert!(!manager.is_mounted(table, "tmpfs").unwrap());
    assert!(!manager.is_mounted(b"", "/").unwrap());
    assert!(!manager.is_mounted(b"one\n", "one").unwrap());
    // A line that is no text stops the search, unless a match came first.
    let broken = b"a /x b\n\xff\xfe\nc /y d\n";
    assert!(manager.is_mounted(broken, "/x").unwrap());
    let e = manager.is_mounted(broken, "/y").unwrap_err();
    assert_eq!(e.kind, FailureKind::MountFailed);
}

#[test]
fn filesystem_requests_by_attempt() {
    let manager = MountManager::new();
    for (failed, fstype) in [(0usize, "ext4"), (1, "ext3"), (2, "ext2")] {
        match manager.mount_filesystem("/dev/cc-loop/crashcart", failed).unwrap() {
            Request::Mount { source, target, fstype: got, read_only } => {
                assert_eq!(source, "/dev/cc-loop/crashcart");
                assert_eq!(target, "/dev/crashcart");
                assert_eq!(got, fstype);
                assert!(read_only);
            }
            other => panic!("unexpected request {:?}", other),
        }
    }
    let e = manager.mount_filesystem("/dev/cc-loop/crashcart", 3).unwrap_err();
    assert_eq!(e.kind, FailureKind::MountFailed);
    match manager.setup_crashcart_environment() {
        Request::WriteFile { path, contents } => {
            assert_eq!(path, "/dev/crashcart/.crashcartrc");
            assert!(contents.contains("export PATH=\"/dev/crashcart/bin:$PATH\""));
            assert!(contents.contains("export PS1=\"[crashcart] \\u@\\h:\\w\\$ \""));
        }
        other => panic!("unexpected request {:?}", other),
    }
}
