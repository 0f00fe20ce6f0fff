//! The debug image: what it must look like, and the loop device it is bound to.
use vstd::prelude::*;
use crate::command::{push_word, Command, CommandView, Streams};
use crate::failure::{Failure, FailureKind, FailureView};
use crate::host::{request_view, response_view, Request, RequestView, Response, ResponseView};
use crate::text::{joined, owned, trimmed, trimmed_text};

verus! {

/// Smallest size, in bytes, of a usable image.
pub const MIN_IMAGE_SIZE: usize = 1024;

/// Offset of the two magic bytes of an ext2/3/4 superblock.
pub const EXT_MAGIC_OFFSET: usize = 1080;

/// How many bytes from the start of an image decide what it is.
pub const IMAGE_HEADER_SIZE: u64 = 1082;

/// What an image was recognised as.
#[derive(Clone, Copy, Debug, PartialEq, Eq, Structural)]
pub enum ImageFormat {
    /// An ext2/3/4 superblock was found.
    Ext,
    /// No superblock was found: the image may be an archive, and mounting will tell.
    Unrecognized,
}

/// Whether `bytes` carries the ext2/3/4 magic number at its fixed offset.
pub open spec fn has_ext_magic(bytes: Seq<u8>) -> bool {
    &&& bytes.len() >= EXT_MAGIC_OFFSET + 2
    &&& bytes[EXT_MAGIC_OFFSET as int] == 0x53
    &&& bytes[EXT_MAGIC_OFFSET + 1] == 0xEF
}

/// The format of an image with these contents, or `None` where it is too
/// small to be an image.
pub open spec fn classify(bytes: Seq<u8>) -> Option<ImageFormat> {
    if bytes.len() < MIN_IMAGE_SIZE {
        None
    } else if has_ext_magic(bytes) {
        Some(ImageFormat::Ext)
    } else {
        Some(ImageFormat::Unrecognized)
    }
}

/// The failure that an image too small to be one is refused with.
pub open spec fn too_small() -> FailureView {
    FailureView { kind: FailureKind::ImageInvalid, message: "Image file too small"@ }
}

/// The first [`IMAGE_HEADER_SIZE`] bytes of an image decide what it is:
/// whoever reads that many, or the whole image where it is shorter, has
/// read enough.
pub proof fn lemma_header_decides(bytes: Seq<u8>, n: int)
    requires
        IMAGE_HEADER_SIZE <= n,
    ensures
        classify(
            if n <= bytes.len() {
                bytes.take(n)
            } else {
                bytes
            },
        ) == classify(bytes),
{
}

/// The image file, and the loop device it is bound to while it is bound.
///
/// The handle is the one owner of the binding: it cannot be duplicated, and
/// the device is recorded here from the moment it is bound until it is
/// released.
#[derive(Debug)]
pub struct ImageManager {
    image_path: String,
    loop_device: Option<String>,
}

/// The mathematical value of an [`ImageManager`].
pub struct ImageManagerView {
    pub image_path: Seq<char>,
    pub loop_device: Option<Seq<char>>,
}

impl View for ImageManager {
    type V = ImageManagerView;

    closed spec fn view(&self) -> ImageManagerView {
        ImageManagerView {
            image_path: self.image_path@,
            loop_device: match self.loop_device {
                Some(d) => Some(d@),
                None => None,
            },
        }
    }
}

/// The invocation that asks for a free loop device.
pub open spec fn find_free_invocation() -> CommandView {
    CommandView { program: "losetup"@, args: seq!["-f"@], env: None, streams: Streams::Captured }
}

/// The invocation that binds `device` to the image file at `image_path`.
pub open spec fn associate_invocation(device: Seq<char>, image_path: Seq<char>) -> CommandView {
    CommandView {
        program: "losetup"@,
        args: seq![device, image_path],
        env: None,
        streams: Streams::Inherited,
    }
}

/// The invocation that releases `device`.
pub open spec fn detach_invocation(device: Seq<char>) -> CommandView {
    CommandView {
        program: "losetup"@,
        args: seq!["-d"@, device],
        env: None,
        streams: Streams::Inherited,
    }
}

/// The device that `losetup -f` names in what it wrote: its output as text,
/// without the white space around it. `None` where the output is no text
/// or names nothing.
pub open spec fn free_device(stdout: Seq<u8>) -> Option<Seq<char>> {
    match trimmed_text(stdout) {
        Some(d) => if d.len() > 0 {
            Some(d)
        } else {
            None
        },
        None => None,
    }
}

/// How far binding the image to a loop device has come.
#[derive(Debug)]
pub enum LoopSetup {
    /// Nothing was asked yet.
    Start,
    /// A free device is being asked for.
    Finding,
    /// `device` is being bound to the image.
    Associating { device: String },
    /// The image is bound to `device`.
    Bound { device: String },
    /// The image could not be bound; the handle records no device.
    Failed { failure: Failure },
}

/// The mathematical value of a [`LoopSetup`].
pub enum LoopSetupView {
    Start,
    Finding,
    Associating { device: Seq<char> },
    Bound { device: Seq<char> },
    Failed { failure: FailureView },
}

impl View for LoopSetup {
    type V = LoopSetupView;

    open spec fn view(&self) -> LoopSetupView {
        match self {
            LoopSetup::Start => LoopSetupView::Start,
            LoopSetup::Finding => LoopSetupView::Finding,
            LoopSetup::Associating { device } => LoopSetupView::Associating { device: device@ },
            LoopSetup::Bound { device } => LoopSetupView::Bound { device: device@ },
            LoopSetup::Failed { failure } => LoopSetupView::Failed { failure: failure@ },
        }
    }
}

impl LoopSetupView {
    /// Whether binding has come to its end, well or badly.
    pub open spec fn finished(self) -> bool {
        self is Bound || self is Failed
    }
}

/// A failure to reserve or bind a loop device.
pub open spec fn exhausted(message: Seq<char>) -> FailureView {
    FailureView { kind: FailureKind::LoopExhausted, message }
}

/// One step of binding the image to a loop device.
///
/// A handle that records a device is bound already: the device is
/// returned and nothing is asked. Else a free device is asked for, then
/// bound to the image, and recorded in the handle once the host says it is
/// bound.
pub open spec fn setup_step(
    image: ImageManagerView,
    state: LoopSetupView,
    response: Option<ResponseView>,
) -> (ImageManagerView, LoopSetupView, Option<RequestView>) {
    match state {
        LoopSetupView::Start => match image.loop_device {
            Some(device) => (image, LoopSetupView::Bound { device }, None),
            None => (
                image,
                LoopSetupView::Finding,
                Some(RequestView::Run { command: find_free_invocation() }),
            ),
        },
        LoopSetupView::Finding => match response {
            Some(ResponseView::Exited { code: Some(0), stdout, .. }) => match free_device(stdout) {
                Some(device) => (
                    image,
                    LoopSetupView::Associating { device },
                    Some(
                        RequestView::Run {
                            command: associate_invocation(device, image.image_path),
                        },
                    ),
                ),
                None => (
                    image,
                    LoopSetupView::Failed {
                        failure: exhausted("losetup -f returned no device"@),
                    },
                    None,
                ),
            },
            _ => (
                image,
                LoopSetupView::Failed { failure: exhausted("losetup -f failed"@) },
                None,
            ),
        },
        LoopSetupView::Associating { device } => match response {
            Some(ResponseView::Exited { code: Some(0), .. }) => (
                ImageManagerView { loop_device: Some(device), ..image },
                LoopSetupView::Bound { device },
                None,
            ),
            _ => (
                image,
                LoopSetupView::Failed {
                    failure: exhausted(
                        "Failed to associate "@ + device + " with "@ + image.image_path,
                    ),
                },
                None,
            ),
        },
        LoopSetupView::Bound { .. } => (image, state, None),
        LoopSetupView::Failed { .. } => (image, state, None),
    }
}

/// How far releasing the loop device has come.
#[derive(Debug)]
pub enum LoopCleanup {
    /// Nothing was asked yet.
    Start,
    /// The device is being released.
    Detaching,
    /// The handle records no device: none was bound, or it was released.
    Released,
    /// The device could not be released; the handle still records it.
    Failed { failure: Failure },
}

/// The mathematical value of a [`LoopCleanup`].
pub enum LoopCleanupView {
    Start,
    Detaching,
    Released,
    Failed { failure: FailureView },
}

impl View for LoopCleanup {
    type V = LoopCleanupView;

    open spec fn view(&self) -> LoopCleanupView {
        match self {
            LoopCleanup::Start => LoopCleanupView::Start,
            LoopCleanup::Detaching => LoopCleanupView::Detaching,
            LoopCleanup::Released => LoopCleanupView::Released,
            LoopCleanup::Failed { failure } => LoopCleanupView::Failed { failure: failure@ },
        }
    }
}

impl LoopCleanupView {
    /// Whether releasing has come to its end, well or badly.
    pub open spec fn finished(self) -> bool {
        self is Released || self is Failed
    }
}

/// The failure to release `device`.
pub open spec fn not_detached(device: Seq<char>) -> FailureView {
    FailureView {
        kind: FailureKind::SubprocessFailed,
        message: "Failed to detach loop device "@ + device,
    }
}

/// One step of releasing the loop device.
///
/// A handle that records no device has nothing to release, and nothing is
/// asked. Else the recorded device is released, and the record is cleared
/// once the host says it is released.
pub open spec fn cleanup_step(
    image: ImageManagerView,
    state: LoopCleanupView,
    response: Option<ResponseView>,
) -> (ImageManagerView, LoopCleanupView, Option<RequestView>) {
    match state {
        LoopCleanupView::Start => match image.loop_device {
            Some(device) => (
                image,
                LoopCleanupView::Detaching,
                Some(RequestView::Run { command: detach_invocation(device) }),
            ),
            None => (image, LoopCleanupView::Released, None),
        },
        LoopCleanupView::Detaching => match response {
            Some(ResponseView::Exited { code: Some(0), .. }) => (
                ImageManagerView { loop_device: None, ..image },
                LoopCleanupView::Released,
                None,
            ),
            _ => (
                image,
                LoopCleanupView::Failed {
                    failure: not_detached(
                        match image.loop_device {
                            Some(device) => device,
                            None => Seq::empty(),
                        },
                    ),
                },
                None,
            ),
        },
        LoopCleanupView::Released => (image, state, None),
        LoopCleanupView::Failed { .. } => (image, state, None),
    }
}

impl ImageManager {
    /// The handle of the image file at `image_path`, bound to no device.
    /// `exists` says whether the host found a file there: without one there
    /// is no handle.
    pub fn new(image_path: &str, exists: bool) -> (r: Result<ImageManager, Failure>)
        ensures
            match r {
                Ok(image) => exists && image@ == (ImageManagerView {
                    image_path: image_path@,
                    loop_device: None,
                }),
                Err(e) => !exists && e@ == (FailureView {
                    kind: FailureKind::ImageInvalid,
                    message: "Image file does not exist: "@ + image_path@,
                }),
            },
    {
        if !exists {
            return Err(
                Failure::with_detail(
                    FailureKind::ImageInvalid,
                    "Image file does not exist: ",
                    image_path,
                ),
            );
        }
        Ok(ImageManager { image_path: owned(image_path), loop_device: None })
    }

    /// The loop device that the image is bound to, if it is bound.
    pub fn get_loop_device(&self) -> (r: Option<&str>)
        ensures
            match r {
                Some(d) => self@.loop_device == Some(d@),
                None => self@.loop_device is None,
            },
    {
        match &self.loop_device {
            Some(d) => Some(d.as_str()),
            None => None,
        }
    }

    /// The path of the image file.
    pub fn image_path(&self) -> (r: &str)
        ensures
            r@ == self@.image_path,
    {
        self.image_path.as_str()
    }

    /// What the image is, going by its contents from the first byte on: an
    /// ext2/3/4 filesystem where the magic number stands at its offset,
    /// something mounting will have to tell otherwise. An image of fewer
    /// than [`MIN_IMAGE_SIZE`] bytes is refused.
    pub fn verify_image(&self, contents: &[u8]) -> (r: Result<ImageFormat, Failure>)
        ensures
            match r {
                Ok(format) => classify(contents@) == Some(format),
                Err(e) => classify(contents@) is None && e@ == too_small(),
            },
            r matches Ok(ImageFormat::Ext) <==> contents@.len() >= MIN_IMAGE_SIZE && has_ext_magic(
                contents@,
            ),
    {
        if contents.len() < MIN_IMAGE_SIZE {
            return Err(Failure::new(FailureKind::ImageInvalid, "Image file too small"));
        }
        if contents.len() >= EXT_MAGIC_OFFSET + 2 && contents[EXT_MAGIC_OFFSET] == 0x53
            && contents[EXT_MAGIC_OFFSET + 1] == 0xEF {
            Ok(ImageFormat::Ext)
        } else {
            Ok(ImageFormat::Unrecognized)
        }
    }

    /// One step of binding the image to a loop device: from the state and
    /// the host's answer to the last request, the next state and the next
    /// request. The first step takes `LoopSetup::Start` and no answer;
    /// `None` comes back as request once the state is `Bound` or `Failed`.
    /// See [`setup_step`].
    pub fn setup_loop_device(&mut self, state: LoopSetup, response: Option<Response>) -> (next: (
        LoopSetup,
        Option<Request>,
    ))
        ensures
            (final(self)@, next.0@, request_view(next.1)) == setup_step(
                old(self)@,
                state@,
                response_view(response),
            ),
    {
        match state {
            LoopSetup::Start => match &self.loop_device {
                Some(device) => (LoopSetup::Bound { device: device.clone() }, None),
                None => {
                    let mut args: Vec<String> = Vec::new();
                    push_word(&mut args, "-f");
                    assert(args.deep_view() =~= seq!["-f"@]);
                    (
                        LoopSetup::Finding,
                        Some(
                            Request::Run { command: Command::new("losetup", args, Streams::Captured) },
                        ),
                    )
                },
            },
            LoopSetup::Finding => match response {
                Some(Response::Exited { code: Some(0), stdout, .. }) => {
                    match trimmed(stdout.as_slice()) {
                        Some(device) => {
                            if device.as_str().unicode_len() == 0 {
                                return (
                                    LoopSetup::Failed {
                                        failure: Failure::new(
                                            FailureKind::LoopExhausted,
                                            "losetup -f returned no device",
                                        ),
                                    },
                                    None,
                                );
                            }
                            let mut args: Vec<String> = Vec::new();
                            push_word(&mut args, device.as_str());
                            push_word(&mut args, self.image_path.as_str());
                            assert(args.deep_view() =~= seq![device@, self.image_path@]);
                            (
                                LoopSetup::Associating { device },
                                Some(
                                    Request::Run {
                                        command: Command::new("losetup", args, Streams::Inherited),
                                    },
                                ),
                            )
                        },
                        None => (
                            LoopSetup::Failed {
                                failure: Failure::new(
                                    FailureKind::LoopExhausted,
                                    "losetup -f returned no device",
                                ),
                            },
                            None,
                        ),
                    }
                },
                _ => (
                    LoopSetup::Failed {
                        failure: Failure::new(FailureKind::LoopExhausted, "losetup -f failed"),
                    },
                    None,
                ),
            },
            LoopSetup::Associating { device } => match response {
                Some(Response::Exited { code: Some(0), .. }) => {
                    self.loop_device = Some(device.clone());
                    (LoopSetup::Bound { device }, None)
                },
                _ => {
                    let a = joined("Failed to associate ", device.as_str());
                    let b = joined(a.as_str(), " with ");
                    (
                        LoopSetup::Failed {
                            failure: Failure::with_detail(
                                FailureKind::LoopExhausted,
                                b.as_str(),
                                self.image_path.as_str(),
                            ),
                        },
                        None,
                    )
                },
            },
            LoopSetup::Bound { device } => (LoopSetup::Bound { device }, None),
            LoopSetup::Failed { failure } => (LoopSetup::Failed { failure }, None),
        }
    }

    /// One step of releasing the loop device: from the state and the host's
    /// answer to the last request, the next state and the next request. The
    /// first step takes `LoopCleanup::Start` and no answer; `None` comes back
    /// as request once the state is `Released` or `Failed`. See
    /// [`cleanup_step`].
    pub fn cleanup_loop_device(&mut self, state: LoopCleanup, response: Option<Response>) -> (next:
        (LoopCleanup, Option<Request>))
        ensures
            (final(self)@, next.0@, request_view(next.1)) == cleanup_step(
                old(self)@,
                state@,
                response_view(response),
            ),
    {
        match state {
            LoopCleanup::Start => match &self.loop_device {
                Some(device) => {
                    let mut args: Vec<String> = Vec::new();
                    push_word(&mut args, "-d");
                    push_word(&mut args, device.as_str());
                    assert(args.deep_view() =~= seq!["-d"@, device@]);
                    (
                        LoopCleanup::Detaching,
                        Some(
                            Request::Run {
                                command: Command::new("losetup", args, Streams::Inherited),
                            },
                        ),
                    )
                },
                None => (LoopCleanup::Released, None),
            },
            LoopCleanup::Detaching => match response {
                Some(Response::Exited { code: Some(0), .. }) => {
                    self.loop_device = None;
                    (LoopCleanup::Released, None)
                },
                _ => {
                    let failure = match &self.loop_device {
                        Some(device) => Failure::with_detail(
                            FailureKind::SubprocessFailed,
                            "Failed to detach loop device ",
                            device.as_str(),
                        ),
                        None => Failure::with_detail(
                            FailureKind::SubprocessFailed,
                            "Failed to detach loop device ",
                            "",
                        ),
                    };
                    proof {
                        reveal_strlit("");
                        assert(""@ =~= Seq::<char>::empty());
                    }
                    (LoopCleanup::Failed { failure }, None)
                },
            },
            LoopCleanup::Released => (LoopCleanup::Released, None),
            LoopCleanup::Failed { failure } => (LoopCleanup::Failed { failure }, None),
        }
    }
}

} // verus!
