pub mod command;
pub mod container;
pub mod failure;
pub mod host;
pub mod image;
pub mod laws;
pub mod model;
pub mod mount;
pub mod namespace;
pub mod text;
pub mod unmount;

pub use container::ContainerRuntime;
pub use image::ImageManager;
pub use mount::MountManager;
pub use namespace::NamespaceManager;
