//! The live preview of the camera that is selected.

use vstd::prelude::*;

use crate::camera::Camera;
use crate::device::DeviceKind;
use crate::devices::{is_camera_record, AssetResolver, DeviceRecord};
use crate::text::{
    chars_of, clone_optional, optional_text, same_optional_text, string_of, strip_prefix,
    without_prefix,
};

verus! {

/// The id of the camera that a record is about.
pub open spec fn camera_uid(record: Option<DeviceRecord>) -> Option<Seq<char>> {
    match record {
        Some(r) => if r.kind == DeviceKind::Camera {
            strip_prefix(r.config_key@, "camera-"@)
        } else {
            None
        },
        None => None,
    }
}

/// The id of the selected camera, read back from the key of its record; nothing
/// while something else is selected.
pub fn active_camera_uid(record: Option<&DeviceRecord>) -> (uid: Option<String>)
    ensures
        optional_text(uid) == camera_uid(
            match record {
                Some(r) => Some(*r),
                None => None,
            },
        ),
{
    match record {
        Some(r) => if r.kind == DeviceKind::Camera {
            let key: Vec<char> = chars_of(r.config_key.as_str());
            let prefix: Vec<char> = chars_of("camera-");
            match without_prefix(key.as_slice(), prefix.as_slice()) {
                Some(rest) => Some(string_of(rest)),
                None => None,
            }
        } else {
            None
        },
        None => None,
    }
}

/// The preview of a camera is found again by the record that was made for it.
pub proof fn cameras_are_found_by_their_records(
    record: DeviceRecord,
    camera: Camera,
    cache: AssetResolver,
)
    requires
        is_camera_record(record, camera, cache),
    ensures
        camera_uid(Some(record)) == Some(camera.unique_id@),
{
    let key = "camera-"@ + camera.unique_id@;
    assert(key.skip("camera-"@.len() as int) =~= camera.unique_id@);
    assert(key.take("camera-"@.len() as int) =~= "camera-"@);
}

// ── Pictures ────────────────────────────────────────────────────────────────

/// A picture that can be shown.
#[derive(Debug)]
pub struct Picture {
    /// Pixels per row.
    pub width: u32,
    /// Rows.
    pub height: u32,
    /// Four bytes per pixel, blue first.
    pub bgra: Vec<u8>,
}

/// The bytes with the first and the third of every four exchanged. A rest of less
/// than four bytes stays as it is.
pub open spec fn swapped(bytes: Seq<u8>) -> Seq<u8> {
    Seq::new(
        bytes.len(),
        |i: int|
            if i / 4 * 4 + 4 > bytes.len() {
                bytes[i]
            } else if i % 4 == 0 {
                bytes[i + 2]
            } else if i % 4 == 2 {
                bytes[i - 2]
            } else {
                bytes[i]
            },
    )
}

/// Exchange red and blue.
pub fn swap_red_and_blue(rgba: &[u8]) -> (bgra: Vec<u8>)
    ensures
        bgra@ == swapped(rgba@),
{
    let n: usize = rgba.len();
    let mut bgra: Vec<u8> = Vec::new();
    let mut i: usize = 0;
    while i < n
        invariant
            i <= n,
            n == rgba@.len(),
            bgra@.len() == i,
            forall|j: int| 0 <= j < i ==> bgra@[j] == swapped(rgba@)[j],
        decreases n - i,
    {
        let whole: bool = n - i / 4 * 4 >= 4;
        let byte: u8 = if !whole {
            rgba[i]
        } else if i % 4 == 0 {
            rgba[i + 2]
        } else if i % 4 == 2 {
            rgba[i - 2]
        } else {
            rgba[i]
        };
        bgra.push(byte);
        i = i + 1;
    }
    assert(bgra@ =~= swapped(rgba@));
    bgra
}

/// Exchanging twice restores the bytes.
pub proof fn swapping_twice_restores(bytes: Seq<u8>)
    ensures
        swapped(swapped(bytes)) == bytes,
{
    assert forall|i: int| 0 <= i < bytes.len() implies swapped(swapped(bytes))[i] == bytes[i] by {
        if i / 4 * 4 + 4 <= bytes.len() {
            if i % 4 == 0 {
                assert((i + 2) / 4 == i / 4 && (i + 2) % 4 == 2);
            } else if i % 4 == 2 {
                assert((i - 2) / 4 == i / 4 && (i - 2) % 4 == 0);
            }
        }
    }
    assert(swapped(swapped(bytes)) =~= bytes);
}

/// The bytes are enough for a picture of these dimensions.
pub open spec fn fits(width: u32, height: u32, len: int) -> bool {
    4 * width <= usize::MAX && 4 * width * height <= len
}

/// `image::RgbaImage::from_raw` takes bytes as a picture of four channels. It gives
/// one exactly where the bytes are enough, and keeps them as they are.
#[verifier::external_body]
fn framed(width: u32, height: u32, bytes: Vec<u8>) -> (out: Option<Vec<u8>>)
    ensures
        out is Some == fits(width, height, bytes@.len() as int),
        out matches Some(kept) ==> kept@ == bytes@,
{
    image::RgbaImage::from_raw(width, height, bytes).map(|picture| picture.into_raw())
}

/// The picture of one RGBA frame. The screen wants blue first, so red and blue are
/// exchanged; there is none where bytes are missing.
pub fn build_image(width: u32, height: u32, rgba: &[u8]) -> (picture: Option<Picture>)
    ensures
        picture is Some == fits(width, height, rgba@.len() as int),
        picture matches Some(p) ==> p.width == width && p.height == height && p.bgra@ == swapped(
            rgba@,
        ),
{
    let bytes: Vec<u8> = swap_red_and_blue(rgba);
    match framed(width, height, bytes) {
        Some(bgra) => Some(Picture { width, height, bgra }),
        None => None,
    }
}

// ── The preview ─────────────────────────────────────────────────────────────

/// The state of the preview. It follows the selected camera.
#[derive(Debug)]
pub struct CameraPreview {
    /// Whether a stream is open.
    pub streaming: bool,
    /// The camera that the preview is about.
    pub streaming_uid: Option<String>,
    /// The picture that is shown. It is replaced only when a new frame arrived, so
    /// that memory stays flat.
    pub current_image: Option<Picture>,
    /// The number of the frame that is shown.
    pub last_generation: u64,
}

/// What the preview shows.
#[derive(Debug, Clone, Copy, PartialEq, Eq, Structural)]
pub enum PreviewContent {
    /// The picture.
    Picture,
    /// A note that the preview is starting.
    Starting,
    /// A note that access must be granted.
    NoAccess,
}

impl PreviewContent {
    /// The words as characters.
    pub open spec fn note_text(self) -> Option<Seq<char>> {
        match self {
            PreviewContent::Picture => None,
            PreviewContent::Starting => Some("Starting preview…"@),
            PreviewContent::NoAccess => Some("Enable Camera access in Settings to preview."@),
        }
    }

    /// The words in place of a picture.
    pub fn note(self) -> (note: Option<&'static str>)
        ensures
            match note {
                Some(text) => self.note_text() == Some(text@),
                None => self.note_text() is None,
            },
    {
        match self {
            PreviewContent::Picture => None,
            PreviewContent::Starting => Some("Starting preview…"),
            PreviewContent::NoAccess => Some("Enable Camera access in Settings to preview."),
        }
    }
}

impl CameraPreview {
    /// A preview of nothing.
    pub fn new() -> (out: Self)
        ensures
            !out.streaming,
            out.streaming_uid is None,
            out.current_image is None,
            out.last_generation == 0,
    {
        CameraPreview {
            streaming: false,
            streaming_uid: None,
            current_image: None,
            last_generation: 0,
        }
    }

    /// Follow the selection. A change of camera closes the stream; the camera whose
    /// stream is to be opened comes back, none where access was not granted. The
    /// user is never asked from here.
    pub fn sync_stream(&mut self, record: Option<&DeviceRecord>, granted: bool) -> (start: Option<
        String,
    >)
        ensures
            ({
                let target = camera_uid(
                    match record {
                        Some(r) => Some(*r),
                        None => None,
                    },
                );
                &&& optional_text(final(self).streaming_uid) == target
                &&& final(self).current_image == old(self).current_image
                &&& if target == optional_text(old(self).streaming_uid) {
                    start is None && *final(self) == *old(self)
                } else {
                    &&& !final(self).streaming
                    &&& final(self).last_generation == 0
                    &&& optional_text(start) == if granted {
                        target
                    } else {
                        None
                    }
                }
            }),
    {
        let target: Option<String> = active_camera_uid(record);
        let same: bool = same_optional_text(
            crate::text::borrow_optional(&target),
            crate::text::borrow_optional(&self.streaming_uid),
        );
        if same {
            return None;
        }
        self.streaming = false;
        self.last_generation = 0;
        self.streaming_uid = clone_optional(&target);
        if granted {
            target
        } else {
            None
        }
    }

    /// Note whether the stream could be opened.
    pub fn stream_started(&mut self, opened: bool)
        ensures
            final(self).streaming == opened,
            final(self).streaming_uid == old(self).streaming_uid,
            final(self).current_image == old(self).current_image,
            final(self).last_generation == old(self).last_generation,
    {
        self.streaming = opened;
    }

    /// Show the newest frame. Nothing happens while its number is that of the
    /// picture that is shown; without a stream the picture goes. The picture that
    /// is no longer shown comes back.
    pub fn refresh(&mut self, generation: u64, picture: Option<Picture>) -> (dropped: Option<
        Picture,
    >)
        ensures
            final(self).streaming == old(self).streaming,
            final(self).streaming_uid == old(self).streaming_uid,
            if !old(self).streaming {
                &&& final(self).current_image is None
                &&& final(self).last_generation == old(self).last_generation
                &&& dropped == old(self).current_image
            } else if generation != old(self).last_generation && picture is Some {
                &&& final(self).current_image == picture
                &&& final(self).last_generation == generation
                &&& dropped == old(self).current_image
            } else {
                &&& final(self).current_image == old(self).current_image
                &&& final(self).last_generation == old(self).last_generation
                &&& dropped is None
            },
    {
        let mut dropped: Option<Picture> = None;
        if !self.streaming {
            std::mem::swap(&mut dropped, &mut self.current_image);
        } else if generation != self.last_generation {
            match picture {
                Some(p) => {
                    std::mem::swap(&mut dropped, &mut self.current_image);
                    self.current_image = Some(p);
                    self.last_generation = generation;
                },
                None => {},
            }
        }
        dropped
    }

    /// What the preview shows.
    pub open spec fn shows(self, granted: bool) -> PreviewContent {
        if self.current_image is Some {
            PreviewContent::Picture
        } else if granted {
            PreviewContent::Starting
        } else {
            PreviewContent::NoAccess
        }
    }

    /// What the preview shows.
    pub fn content(&self, granted: bool) -> (content: PreviewContent)
        ensures
            content == self.shows(granted),
    {
        match self.current_image {
            Some(_) => PreviewContent::Picture,
            None => if granted {
                PreviewContent::Starting
            } else {
                PreviewContent::NoAccess
            },
        }
    }
}

} // verus!
