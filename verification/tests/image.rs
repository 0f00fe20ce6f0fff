use crashcart::failure::FailureKind;
use crashcart::host::{Request, Response};
use crashcart::image::{ImageFormat, LoopCleanup, LoopSetup, IMAGE_HEADER_SIZE};
use crashcart::ImageManager;

fn exited(code: i32, stdout: &str) -> Response {
    Response::Exited { code: Some(code), stdout: stdout.as_bytes().to_vec(), stderr: String::new() }
}

fn argv(request: &Option<Request>) -> Vec<String> {
    match request {
        Some(Request::Run { command }) => {
            let mut v = vec![command.program.clone()];
            v.extend(command.args.iter().cloned());
            v
        }
        _ => panic!("a process to run was expected"),
    }
}

#[test]
fn missing_image_is_invalid_and_named() {
    let e = ImageManager::new("/images/none.img", false).unwrap_err();
    assert_eq!(e.kind, FailureKind::ImageInvalid);
    assert_eq!(e.to_string(), "Image file does not exist: /images/none.img");
}

#[test]
fn image_of_512_bytes_is_refused() {
    let image = ImageManager::new("crashcart.img", true).unwrap();
    let e = image.verify_image(&vec![0u8; 512]).unwrap_err();
    assert_eq!(e.kind, FailureKind::ImageInvalid);
    assert_eq!(e.to_string(), "Image file too small");
}

#[test]
fn image_with_magic_is_ext() {
    let image = ImageManager::new("crashcart.img", true).unwrap();
    let mut bytes = vec![0u8; 4096];
    bytes[1080] = 0x53;
    bytes[1081] = 0xEF;
    assert_eq!(image.verify_image(&bytes).unwrap(), ImageFormat::Ext);
}

#[test]
fn image_without_magic_passes_unrecognized() {
    let image = ImageManager::new("crashcart.img", true).unwrap();
    let mut bytes = vec![0u8; 4096];
    assert_eq!(image.verify_image(&bytes).unwrap(), ImageFormat::Unrecognized);
    bytes[1080] = 0xEF;
    bytes[1081] = 0x53;
    assert_eq!(image.verify_image(&bytes).unwrap(), ImageFormat::Unrecognized);
    bytes[1080] = 0x53;
    assert_eq!(image.verify_image(&bytes).unwrap(), ImageFormat::Unrecognized);
}

#[test]
fn image_sizes_at_the_edges() {
    let image = ImageManager::new("crashcart.img", true).unwrap();
    assert!(image.verify_image(&vec![0u8; 1023]).is_err());
    assert_eq!(image.verify_image(&vec![0u8; 1024]).unwrap(), ImageFormat::Unrecognized);
    // Too short to hold both magic bytes.
    let mut short = vec![0u8; 1081];
    short[1080] = 0x53;
    assert_eq!(image.verify_image(&short).unwrap(), ImageFormat::Unrecognized);
    let mut exact = vec![0u8; 1082];
    exact[1080] = 0x53;
    exact[1081] = 0xEF;
    assert_eq!(image.verify_image(&exact).unwrap(), ImageFormat::Ext);
}

#[test]
fn header_decides_the_format() {
    let image = ImageManager::new("crashcart.img", true).unwrap();
    let mut bytes = vec![7u8; 5000];
    bytes[1080] = 0x53;
    bytes[1081] = 0xEF;
    let header = &bytes[..IMAGE_HEADER_SIZE as usize];
    assert_eq!(image.verify_image(header).unwrap(), image.verify_image(&bytes).unwrap());
}

#[test]
fn loop_setup_binds_and_records() {
    let mut image = ImageManager::new("/tmp/crashcart.img", true).unwrap();
    let (state, request) = image.setup_loop_device(LoopSetup::Start, None);
    assert_eq!(argv(&request), ["losetup", "-f"]);
    let (state, request) = image.setup_loop_device(state, Some(exited(0, "  /dev/loop3\n")));
    assert_eq!(argv(&request), ["losetup", "/dev/loop3", "/tmp/crashcart.img"]);
    assert_eq!(image.get_loop_device(), None);
    let (state, request) = image.setup_loop_device(state, Some(exited(0, "")));
    assert!(request.is_none());
    assert!(matches!(state, LoopSetup::Bound { ref device } if device == "/dev/loop3"));
    assert_eq!(image.get_loop_device(), Some("/dev/loop3"));
}

#[test]
fn loop_setup_returns_the_cached_device() {
    let mut image = ImageManager::new("/tmp/crashcart.img", true).unwrap();
    let (state, _) = image.setup_loop_device(LoopSetup::Start, None);
    let (state, _) = image.setup_loop_device(state, Some(exited(0, "/dev/loop7\n")));
    let _ = image.setup_loop_device(state, Some(exited(0, "")));
    let (state, request) = image.setup_loop_device(LoopSetup::Start, None);
    assert!(request.is_none());
    assert!(matches!(state, LoopSetup::Bound { ref device } if device == "/dev/loop7"));
}

#[test]
fn loop_setup_fails_without_a_free_device() {
    let mut image = ImageManager::new("/tmp/crashcart.img", true).unwrap();
    let (state, _) = image.setup_loop_device(LoopSetup::Start, None);
    let (state, request) = image.setup_loop_device(state, Some(exited(1, "/dev/loop3\n")));
    assert!(request.is_none());
    match state {
        LoopSetup::Failed { failure } => {
            assert_eq!(failure.kind, FailureKind::LoopExhausted);
            assert_eq!(failure.to_string(), "losetup -f failed");
        }
        _ => panic!("a failure was expected"),
    }
    let (state, _) = image.setup_loop_device(LoopSetup::Start, None);
    let (state, _) = image.setup_loop_device(state, Some(exited(0, " \n")));
    match state {
        LoopSetup::Failed { failure } => {
            assert_eq!(failure.kind, FailureKind::LoopExhausted);
            assert_eq!(failure.to_string(), "losetup -f returned no device");
        }
        _ => panic!("a failure was expected"),
    }
    let (state, _) = image.setup_loop_device(LoopSetup::Start, None);
    let bad = Response::Exited { code: Some(0), stdout: vec![0xff, 0xfe], stderr: String::new() };
    let (state, _) = image.setup_loop_device(state, Some(bad));
    assert!(matches!(state, LoopSetup::Failed { .. }));
}

#[test]
fn loop_setup_fails_when_the_bind_fails() {
    let mut image = ImageManager::new("/tmp/crashcart.img", true).unwrap();
    let (state, _) = image.setup_loop_device(LoopSetup::Start, None);
    let (state, _) = image.setup_loop_device(state, Some(exited(0, "/dev/loop3\n")));
    let (state, request) = image.setup_loop_device(state, Some(exited(1, "")));
    assert!(request.is_none());
    match state {
        LoopSetup::Failed { failure } => {
            assert_eq!(failure.kind, FailureKind::LoopExhausted);
            assert_eq!(
                failure.to_string(),
                "Failed to associate /dev/loop3 with /tmp/crashcart.img"
            );
        }
        _ => panic!("a failure was expected"),
    }
    assert_eq!(image.get_loop_device(), None);
}

#[test]
fn bind_then_release_leaves_nothing_recorded() {
    let mut image = ImageManager::new("/tmp/crashcart.img", true).unwrap();
    let (state, _) = image.setup_loop_device(LoopSetup::Start, None);
    let (state, _) = image.setup_loop_device(state, Some(exited(0, "/dev/loop3\n")));
    let _ = image.setup_loop_device(state, Some(exited(0, "")));
    let (state, request) = image.cleanup_loop_device(LoopCleanup::Start, None);
    assert_eq!(argv(&request), ["losetup", "-d", "/dev/loop3"]);
    let (state, request) = image.cleanup_loop_device(state, Some(exited(0, "")));
    assert!(request.is_none());
    assert!(matches!(state, LoopCleanup::Released));
    assert_eq!(image.get_loop_device(), None);
}

#[test]
fn release_without_binding_asks_nothing() {
    let mut image = ImageManager::new("/tmp/crashcart.img", true).unwrap();
    let (state, request) = image.cleanup_loop_device(LoopCleanup::Start, None);
    assert!(request.is_none());
    assert!(matches!(state, LoopCleanup::Released));
}

#[test]
fn failed_release_keeps_the_record() {
    let mut image = ImageManager::new("/tmp/crashcart.img", true).unwrap();
    let (state, _) = image.setup_loop_device(LoopSetup::Start, None);
    let (state, _) = image.setup_loop_device(state, Some(exited(0, "/dev/loop3\n")));
    let _ = image.setup_loop_device(state, Some(exited(0, "")));
    let (state, _) = image.cleanup_loop_device(LoopCleanup::Start, None);
    let (state, _) = image.cleanup_loop_device(state, Some(exited(1, "")));
    match state {
        LoopCleanup::Failed { failure } => {
            assert_eq!(failure.kind, FailureKind::SubprocessFailed);
            assert_eq!(failure.to_string(), "Failed to detach loop device /dev/loop3");
        }
        _ => panic!("a failure was expected"),
    }
    assert_eq!(image.get_loop_device(), Some("/dev/loop3"));
}
