use crashcart::command::Streams;
use crashcart::failure::FailureKind;
use crashcart::host::{Request, Response};
use crashcart::mount::MountState;
use crashcart::unmount::UnmountState;
use crashcart::{ImageManager, MountManager};

fn exited(code: i32, stdout: &str, stderr: &str) -> Response {
    Response::Exited {
        code: Some(code),
        stdout: stdout.as_bytes().to_vec(),
        stderr: stderr.to_string(),
    }
}

fn ext_image() -> Response {
    let mut bytes = vec![0u8; 1082];
    bytes[1080] = 0x53;
    bytes[1081] = 0xEF;
    Response::Contents { bytes }
}

fn argv(request: &Option<Request>) -> Vec<String> {
    match request {
        Some(Request::Run { command }) => {
            let mut v = vec![command.program.clone()];
            v.extend(command.args.iter().cloned());
            v
        }
        other => panic!("a process to run was expected, not {:?}", other),
    }
}

/// Runs the mount up to the point where the script is asked for.
fn until_script(image: &mut ImageManager, device: &str) -> (MountState, Option<Request>) {
    let manager = MountManager::new();
    let (state, request) = manager.mount_with_nsenter(9, image, MountState::Start, None);
    assert!(matches!(
        request,
        Some(Request::ReadFile { ref path, at_most: 1082 }) if path == "/images/cc.img"
    ));
    let (state, request) = manager.mount_with_nsenter(9, image, state, Some(ext_image()));
    assert_eq!(argv(&request), ["losetup", "-f"]);
    let (state, request) =
        manager.mount_with_nsenter(9, image, state, Some(exited(0, &format!("{}\n", device), "")));
    assert_eq!(argv(&request), ["losetup", device, "/images/cc.img"]);
    manager.mount_with_nsenter(9, image, state, Some(exited(0, "", "")))
}

#[test]
fn mount_script_runs_in_the_mount_namespace() {
    let manager = MountManager::new();
    let mut image = ImageManager::new("/images/cc.img", true).unwrap();
    let (state, request) = until_script(&mut image, "/dev/loop12");
    let args = argv(&request);
    assert_eq!(args[..7], ["nsenter", "-t", "9", "-m", "--", "bash", "-c"]);
    assert_eq!(args.len(), 8);
    let script = &args[7];
    assert!(script.starts_with("#!/bin/bash\nset -euo pipefail\n"));
    assert!(script.contains("if mountpoint -q /dev/crashcart 2>/dev/null; then"));
    assert!(script.contains("\nmknod /dev/cc-loop/crashcart b 7 12 2>/dev/null || true\n"));
    assert!(script.contains("mount -t tmpfs tmpfs /dev/cc-loop"));
    let ext4 = script.find("mount -t ext4 -o ro /dev/cc-loop/crashcart /dev/crashcart").unwrap();
    let ext3 = script.find("mount -t ext3 -o ro /dev/cc-loop/crashcart /dev/crashcart").unwrap();
    let ext2 = script.find("mount -t ext2 -o ro /dev/cc-loop/crashcart /dev/crashcart").unwrap();
    assert!(ext4 < ext3 && ext3 < ext2);
    assert!(script.contains("cat > /dev/crashcart/.crashcartrc <<'CRASHCARTRC'\n# Crashcart environment setup\n"));
    if let Some(Request::Run { command }) = &request {
        assert_eq!(command.streams, Streams::Captured);
    }
    let (state, request) = manager.mount_with_nsenter(9, &mut image, state, Some(exited(0, "", "")));
    assert!(request.is_none());
    assert!(matches!(state, MountState::Finished { failure: None }));
    assert_eq!(image.get_loop_device(), Some("/dev/loop12"));
}

#[test]
fn second_scripted_mount_binds_nothing() {
    let manager = MountManager::new();
    let mut image = ImageManager::new("/images/cc.img", true).unwrap();
    let (state, _) = until_script(&mut image, "/dev/loop1");
    let _ = manager.mount_with_nsenter(9, &mut image, state, Some(exited(0, "", "")));
    let (state, _) = manager.mount_with_nsenter(9, &mut image, MountState::Start, None);
    let (_, request) = manager.mount_with_nsenter(9, &mut image, state, Some(ext_image()));
    assert_eq!(argv(&request)[0], "nsenter");
}

#[test]
fn failed_script_releases_the_fresh_device() {
    let manager = MountManager::new();
    let mut image = ImageManager::new("/images/cc.img", true).unwrap();
    let (state, _) = until_script(&mut image, "/dev/loop1");
    let (state, request) =
        manager.mount_with_nsenter(9, &mut image, state, Some(exited(32, "", "mount: wrong fs type")));
    assert_eq!(argv(&request), ["losetup", "-d", "/dev/loop1"]);
    let (state, request) = manager.mount_with_nsenter(9, &mut image, state, Some(exited(0, "", "")));
    assert!(request.is_none());
    match state {
        MountState::Finished { failure: Some(failure) } => {
            assert_eq!(failure.kind, FailureKind::SubprocessFailed);
            assert_eq!(failure.to_string(), "Mount script failed: mount: wrong fs type");
        }
        other => panic!("a failure was expected, not {:?}", other),
    }
    assert_eq!(image.get_loop_device(), None);
}

#[test]
fn failed_script_keeps_a_device_bound_before() {
    let manager = MountManager::new();
    let mut image = ImageManager::new("/images/cc.img", true).unwrap();
    let (state, _) = until_script(&mut image, "/dev/loop1");
    let _ = manager.mount_with_nsenter(9, &mut image, state, Some(exited(0, "", "")));
    let (state, _) = manager.mount_with_nsenter(9, &mut image, MountState::Start, None);
    let (state, _) = manager.mount_with_nsenter(9, &mut image, state, Some(ext_image()));
    let (state, request) = manager.mount_with_nsenter(9, &mut image, state, Some(exited(1, "", "x")));
    assert!(request.is_none());
    assert!(matches!(state, MountState::Finished { failure: Some(_) }));
    assert_eq!(image.get_loop_device(), Some("/dev/loop1"));
}

#[test]
fn device_without_minor_is_refused_and_released() {
    let manager = MountManager::new();
    let mut image = ImageManager::new("/images/cc.img", true).unwrap();
    let (state, request) = until_script(&mut image, "/dev/nbd0");
    assert_eq!(argv(&request), ["losetup", "-d", "/dev/nbd0"]);
    let (state, _) = manager.mount_with_nsenter(9, &mut image, state, Some(exited(0, "", "")));
    match state {
        MountState::Finished { failure: Some(failure) } => {
            assert_eq!(failure.kind, FailureKind::LoopExhausted);
            assert_eq!(failure.to_string(), "Invalid loop device path: /dev/nbd0");
        }
        other => panic!("a failure was expected, not {:?}", other),
    }
}

#[test]
fn unreadable_image_fails() {
    let manager = MountManager::new();
    let mut image = ImageManager::new("/images/cc.img", true).unwrap();
    let (state, _) = manager.mount_with_nsenter(9, &mut image, MountState::Start, None);
    let denied = Response::Failed { detail: "EACCES".into() };
    let (state, request) = manager.mount_with_nsenter(9, &mut image, state, Some(denied));
    assert!(request.is_none());
    match state {
        MountState::Finished { failure: Some(failure) } => {
            assert_eq!(failure.kind, FailureKind::ImageInvalid);
            assert_eq!(failure.to_string(), "Failed to open image file: EACCES");
        }
        other => panic!("a failure was expected, not {:?}", other),
    }
}

#[test]
fn scripted_unmount_releases_the_device_whatever_the_script_did() {
    for code in [0, 1] {
        let manager = MountManager::new();
        let mut image = ImageManager::new("/images/cc.img", true).unwrap();
        let (state, _) = until_script(&mut image, "/dev/loop4");
        let _ = manager.mount_with_nsenter(9, &mut image, state, Some(exited(0, "", "")));

        let (state, request) = manager.unmount_with_nsenter(9, &mut image, UnmountState::Start, None);
        let args = argv(&request);
        assert_eq!(args[..7], ["nsenter", "-t", "9", "-m", "--", "bash", "-c"]);
        assert!(args[7].contains("umount /dev/crashcart"));
        assert!(args[7].contains("rm -rf /dev/cc-loop"));
        assert!(!args[7].contains("set -e"));
        let (state, request) =
            manager.unmount_with_nsenter(9, &mut image, state, Some(exited(code, "", "busy")));
        assert_eq!(argv(&request), ["losetup", "-d", "/dev/loop4"]);
        let (state, request) =
            manager.unmount_with_nsenter(9, &mut image, state, Some(exited(0, "", "")));
        assert!(request.is_none());
        assert!(matches!(state, UnmountState::Finished { failure: None }));
        assert_eq!(image.get_loop_device(), None);
    }
}
