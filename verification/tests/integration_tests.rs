use crashcart::container::Detection;
use crashcart::failure::FailureKind;
use crashcart::{ContainerRuntime, ImageManager};
use std::path::Path;

#[test]
fn test_container_detection_with_invalid_id() {
    let result = ContainerRuntime::detect("nonexistent-container", &[false, false, false]);
    assert!(result.is_err());
}

#[test]
fn test_container_detection_with_pid() {
    let pid: u32 = 4242;
    let result = ContainerRuntime::detect(&pid.to_string(), &[]);
    assert!(result.is_ok());

    if let Ok(detection) = result {
        match detection {
            Detection::Resolved { runtime: ContainerRuntime::Pid { pid: detected_pid } } => {
                assert_eq!(detected_pid, pid);
            }
            _ => panic!("Expected PID runtime"),
        }
    }
}

#[test]
fn test_image_manager_with_nonexistent_file() {
    let path = Path::new("nonexistent.img");
    let result = ImageManager::new("nonexistent.img", path.exists());
    assert!(result.is_err());
}

#[test]
fn test_image_manager_creation() {
    let result = ImageManager::new("test.img", true);
    assert!(result.is_ok());
    let image = result.unwrap();
    assert_eq!(image.image_path(), "test.img");
    assert_eq!(image.get_loop_device(), None);
    let refused = image.verify_image(b"test data").unwrap_err();
    assert_eq!(refused.kind, FailureKind::ImageInvalid);
}
