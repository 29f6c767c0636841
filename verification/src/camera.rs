//! Discovery of Logitech USB video cameras.
//!
//! Mice and keyboards speak HID++; webcams do not. Every Logitech camera is a
//! standard USB video device, so detection goes by the USB vendor id and needs no
//! table of models.

use vstd::prelude::*;
use vstd::string::*;

use crate::text::{
    after_first, ascii_lower, before_first, chars_of, following, head, lowercased, parse_number,
    parsed_number, preceding,
};

verus! {

/// Logitech's USB vendor id: `1133` in decimal.
pub const LOGITECH_VID: u16 = 0x046d;

/// A connected USB video camera.
#[derive(Debug, PartialEq, Eq)]
pub struct Camera {
    /// Human-readable name.
    pub name: String,
    /// Stable per-device identifier from the platform's capture layer. Keys the
    /// device, so that two identical cameras stay distinct.
    pub unique_id: String,
    /// USB vendor id.
    pub vendor_id: u16,
    /// USB product id.
    pub product_id: u16,
    /// Largest supported frame size, when the platform reports formats.
    pub max_resolution: Option<(u32, u32)>,
    /// Highest supported frame rate, when known.
    pub max_fps: Option<u32>,
}

impl Clone for Camera {
    fn clone(&self) -> (out: Self)
        ensures
            out == *self,
    {
        Camera {
            name: self.name.clone(),
            unique_id: self.unique_id.clone(),
            vendor_id: self.vendor_id,
            product_id: self.product_id,
            max_resolution: self.max_resolution,
            max_fps: self.max_fps,
        }
    }
}

/// What a platform reports of one camera.
#[derive(Debug)]
pub struct RawCamera {
    /// Human-readable name.
    pub name: String,
    /// Stable per-device identifier.
    pub unique_id: String,
    /// The platform's model text, which names the USB ids in decimal.
    pub model_id: String,
    /// Width of the largest frame; zero when unknown.
    pub max_width: u32,
    /// Height of the largest frame; zero when unknown.
    pub max_height: u32,
    /// Highest frame rate; zero when unknown.
    pub max_fps: u32,
}

/// How many characters at the front of `s` are decimal digits.
pub open spec fn digit_run(s: Seq<char>) -> nat
    decreases s.len(),
{
    if s.len() > 0 && '0' <= s[0] <= '9' {
        1 + digit_run(s.skip(1))
    } else {
        0
    }
}

/// The decimal digits at the front of `s`.
pub open spec fn leading_digits(s: Seq<char>) -> Seq<char> {
    s.take(digit_run(s) as int)
}

/// What stands between the first and the second `marker`, or after the only one.
pub open spec fn second_part(s: Seq<char>, marker: Seq<char>) -> Option<Seq<char>> {
    match after_first(s, marker) {
        Some(rest) => Some(before_first(rest, marker)),
        None => None,
    }
}

/// The decimal number right after `marker`, up to the largest 16-bit number.
pub open spec fn marked_number(s: Seq<char>, marker: Seq<char>) -> Option<int> {
    match second_part(s, marker) {
        Some(rest) => parse_number(leading_digits(rest), 10, 0xffff),
        None => None,
    }
}

/// The vendor and product id that a platform's model text names.
pub open spec fn usb_ids(model_id: Seq<char>) -> Option<(int, int)> {
    match (marked_number(model_id, "VendorID_"@), marked_number(model_id, "ProductID_"@)) {
        (Some(vendor), Some(product)) => Some((vendor, product)),
        _ => None,
    }
}

fn count_digits(s: &[char]) -> (n: usize)
    ensures
        n == digit_run(s@),
        n <= s@.len(),
{
    let len: usize = s.len();
    let mut i: usize = 0;
    assert(s@.skip(0) =~= s@);
    while i < len && '0' <= s[i] && s[i] <= '9'
        invariant
            i <= len,
            len == s@.len(),
            digit_run(s@) == i + digit_run(s@.skip(i as int)),
        decreases len - i,
    {
        assert(s@.skip(i as int).skip(1) =~= s@.skip(i as int + 1));
        i = i + 1;
    }
    i
}

/// What stands between the first and the second `marker`, or after the only one.
fn part_after<'a>(s: &'a [char], marker: &[char]) -> (out: Option<&'a [char]>)
    ensures
        match out {
            Some(rest) => second_part(s@, marker@) == Some(rest@),
            None => second_part(s@, marker@) is None,
        },
{
    match following(s, marker) {
        Some(rest) => Some(preceding(rest, marker)),
        None => None,
    }
}

/// Read the decimal number immediately following `marker` in `haystack`.
fn parse_marker(haystack: &str, marker: &str) -> (out: Option<u16>)
    ensures
        match out {
            Some(n) => marked_number(haystack@, marker@) == Some(n as int),
            None => marked_number(haystack@, marker@) is None,
        },
{
    let text: Vec<char> = chars_of(haystack);
    let mark: Vec<char> = chars_of(marker);
    match part_after(text.as_slice(), mark.as_slice()) {
        Some(rest) => match parsed_number(head(rest, count_digits(rest)), 10, 0xffff) {
            Some(n) => Some(n as u16),
            None => None,
        },
        None => None,
    }
}

/// Pull the USB vendor and product id out of a model text such as
/// `"UVC Camera VendorID_1133 ProductID_2195"`. `None` if either is absent.
pub fn parse_vid_pid(model_id: &str) -> (out: Option<(u16, u16)>)
    ensures
        match out {
            Some(ids) => usb_ids(model_id@) == Some((ids.0 as int, ids.1 as int)),
            None => usb_ids(model_id@) is None,
        },
{
    match parse_marker(model_id, "VendorID_") {
        Some(vendor_id) => match parse_marker(model_id, "ProductID_") {
            Some(product_id) => Some((vendor_id, product_id)),
            None => None,
        },
        None => None,
    }
}

/// The four hexadecimal digits right after `marker`.
pub open spec fn marked_hex(s: Seq<char>, marker: Seq<char>) -> Option<int> {
    match second_part(s, marker) {
        Some(rest) => if rest.len() >= 4 {
            parse_number(rest.take(4), 16, 0xffff)
        } else {
            None
        },
        None => None,
    }
}

/// The vendor and product id that a device path names.
pub open spec fn path_ids(path: Seq<char>) -> Option<(int, int)> {
    let lower = ascii_lower(path);
    match (marked_hex(lower, "vid_"@), marked_hex(lower, "pid_"@)) {
        (Some(vendor), Some(product)) => Some((vendor, product)),
        _ => None,
    }
}

fn hex_after(text: &[char], marker: &str) -> (out: Option<u16>)
    ensures
        match out {
            Some(n) => marked_hex(text@, marker@) == Some(n as int),
            None => marked_hex(text@, marker@) is None,
        },
{
    let mark: Vec<char> = chars_of(marker);
    match part_after(text, mark.as_slice()) {
        Some(rest) => if rest.len() >= 4 {
            match parsed_number(head(rest, 4), 16, 0xffff) {
                Some(n) => Some(n as u16),
                None => None,
            }
        } else {
            None
        },
        None => None,
    }
}

/// Pull the USB vendor and product id out of a device path such as
/// `\\?\usb#vid_046d&pid_0893&mi_00#…`, whatever the case of its letters.
pub fn parse_device_path_ids(path: &str) -> (out: Option<(u16, u16)>)
    ensures
        match out {
            Some(ids) => path_ids(path@) == Some((ids.0 as int, ids.1 as int)),
            None => path_ids(path@) is None,
        },
{
    let chars: Vec<char> = chars_of(path);
    let lower: Vec<char> = lowercased(chars.as_slice());
    match hex_after(lower.as_slice(), "vid_") {
        Some(vendor_id) => match hex_after(lower.as_slice(), "pid_") {
            Some(product_id) => Some((vendor_id, product_id)),
            None => None,
        },
        None => None,
    }
}

impl Camera {
    /// The camera has these texts and ids, and no known format.
    pub open spec fn is_plain(
        self,
        name: Seq<char>,
        unique_id: Seq<char>,
        ids: (int, int),
    ) -> bool {
        &&& self.name@ == name
        &&& self.unique_id@ == unique_id
        &&& self.vendor_id == ids.0
        &&& self.product_id == ids.1
        &&& self.max_resolution is None
        &&& self.max_fps is None
    }

    /// Build a camera from what a platform reports.
    ///
    /// `None` when `model_id` carries no USB ids: it is not a USB camera and
    /// cannot be attributed to a vendor.
    pub fn from_raw(name: &str, unique_id: &str, model_id: &str) -> (out: Option<Self>)
        ensures
            match out {
                Some(camera) => usb_ids(model_id@) matches Some(ids) && camera.is_plain(
                    name@,
                    unique_id@,
                    ids,
                ),
                None => usb_ids(model_id@) is None,
            },
    {
        match parse_vid_pid(model_id) {
            Some((vendor_id, product_id)) => Some(
                Camera {
                    name: name.to_string(),
                    unique_id: unique_id.to_string(),
                    vendor_id,
                    product_id,
                    max_resolution: None,
                    max_fps: None,
                },
            ),
            None => None,
        }
    }

    /// Build a camera from a device path and the friendly name beside it, which
    /// may be missing.
    ///
    /// `None` when the path carries no USB ids, as for a virtual camera.
    pub fn from_device_path(path: &str, friendly_name: Option<&str>) -> (out: Option<Self>)
        ensures
            match out {
                Some(camera) => path_ids(path@) matches Some(ids) && camera.is_plain(
                    match friendly_name {
                        Some(name) => name@,
                        None => "Camera"@,
                    },
                    path@,
                    ids,
                ),
                None => path_ids(path@) is None,
            },
    {
        match parse_device_path_ids(path) {
            Some((vendor_id, product_id)) => {
                let name: String = match friendly_name {
                    Some(name) => name.to_string(),
                    None => "Camera".to_string(),
                };
                Some(
                    Camera {
                        name,
                        unique_id: path.to_string(),
                        vendor_id,
                        product_id,
                        max_resolution: None,
                        max_fps: None,
                    },
                )
            },
            None => None,
        }
    }
}

impl RawCamera {
    /// `camera` is this report with the formats that it names.
    pub open spec fn gives(self, camera: Camera) -> bool {
        &&& usb_ids(self.model_id@) == Some((camera.vendor_id as int, camera.product_id as int))
        &&& camera.name@ == self.name@
        &&& camera.unique_id@ == self.unique_id@
        &&& camera.max_resolution == if self.max_width > 0 && self.max_height > 0 {
            Some((self.max_width, self.max_height))
        } else {
            None
        }
        &&& camera.max_fps == if self.max_fps > 0 {
            Some(self.max_fps)
        } else {
            None
        }
    }

    /// The report is of a USB camera.
    pub open spec fn is_usb(self) -> bool {
        usb_ids(self.model_id@) is Some
    }

    /// The report is of a Logitech USB camera.
    pub open spec fn is_logitech(self) -> bool {
        usb_ids(self.model_id@) matches Some(ids) && ids.0 == LOGITECH_VID
    }
}

/// The reports of USB cameras, in order.
pub open spec fn usb_reports(raws: Seq<RawCamera>) -> Seq<RawCamera> {
    raws.filter(|raw: RawCamera| raw.is_usb())
}

/// The reports of Logitech cameras, in order.
pub open spec fn logitech_reports(raws: Seq<RawCamera>) -> Seq<RawCamera> {
    raws.filter(|raw: RawCamera| raw.is_logitech())
}

/// `cameras` stands for `reports`, one for one.
pub open spec fn stand_for(cameras: Seq<Camera>, reports: Seq<RawCamera>) -> bool {
    &&& cameras.len() == reports.len()
    &&& forall|i: int| 0 <= i < cameras.len() ==> reports[i].gives(#[trigger] cameras[i])
}

/// Every USB camera that the platform reports, in order.
pub fn enumerate_all(raws: &[RawCamera]) -> (cameras: Vec<Camera>)
    ensures
        stand_for(cameras@, usb_reports(raws@)),
{
    let mut cameras: Vec<Camera> = Vec::new();
    let n: usize = raws.len();
    let mut i: usize = 0;
    proof {
        reveal(Seq::filter);
    }
    while i < n
        invariant
            i <= n,
            n == raws@.len(),
            stand_for(cameras@, usb_reports(raws@.take(i as int))),
        decreases n - i,
    {
        let raw: &RawCamera = &raws[i];
        proof {
            reveal(Seq::filter);
            assert(raws@.take(i as int + 1).drop_last() =~= raws@.take(i as int));
        }
        match Camera::from_raw(raw.name.as_str(), raw.unique_id.as_str(), raw.model_id.as_str()) {
            Some(camera) => {
                let mut camera: Camera = camera;
                if raw.max_width > 0 && raw.max_height > 0 {
                    camera.max_resolution = Some((raw.max_width, raw.max_height));
                }
                if raw.max_fps > 0 {
                    camera.max_fps = Some(raw.max_fps);
                }
                cameras.push(camera);
            },
            None => {},
        }
        i = i + 1;
    }
    assert(raws@.take(n as int) =~= raws@);
    cameras
}

/// Keep the Logitech cameras, in order.
///
/// Built-in cameras, virtual cameras and the webcams of other vendors are
/// filtered out.
#[must_use]
pub fn enumerate_cameras(raws: &[RawCamera]) -> (cameras: Vec<Camera>)
    ensures
        stand_for(cameras@, logitech_reports(raws@)),
{
    let all: Vec<Camera> = enumerate_all(raws);
    let ghost reports = usb_reports(raws@);
    let mut cameras: Vec<Camera> = Vec::new();
    let n: usize = all.len();
    let mut i: usize = 0;
    proof {
        reveal(Seq::filter);
    }
    while i < n
        invariant
            i <= n,
            n == all@.len(),
            stand_for(all@, reports),
            stand_for(cameras@, logitech_reports(reports.take(i as int))),
        decreases n - i,
    {
        proof {
            reveal(Seq::filter);
            assert(reports.take(i as int + 1).drop_last() =~= reports.take(i as int));
            assert(reports[i as int].gives(all@[i as int]));
        }
        if all[i].vendor_id == LOGITECH_VID {
            cameras.push(all[i].clone());
        }
        i = i + 1;
    }
    proof {
        assert(reports.take(n as int) =~= reports);
        lemma_logitech_are_usb(raws@);
    }
    cameras
}

/// Filtering the USB cameras for Logitech ones gives the Logitech ones.
proof fn lemma_logitech_are_usb(raws: Seq<RawCamera>)
    ensures
        logitech_reports(usb_reports(raws)) == logitech_reports(raws),
    decreases raws.len(),
{
    reveal(Seq::filter);
    if raws.len() > 0 {
        lemma_logitech_are_usb(raws.drop_last());
        let usb = usb_reports(raws.drop_last());
        if raws.last().is_usb() {
            assert(usb_reports(raws) =~= usb.push(raws.last()));
            assert(usb.push(raws.last()).drop_last() =~= usb);
        }
    }
}

/// Every enumerated camera is a Logitech camera.
pub proof fn enumerated_cameras_are_logitech(raws: Seq<RawCamera>, cameras: Seq<Camera>, i: int)
    requires
        stand_for(cameras, logitech_reports(raws)),
        0 <= i < cameras.len(),
    ensures
        cameras[i].vendor_id == LOGITECH_VID,
{
    broadcast use vstd::seq_lib::group_filter_ensures;

    assert(logitech_reports(raws)[i].gives(cameras[i]));
    assert(logitech_reports(raws)[i].is_logitech());
}

} // verus!
