//! Camera controls over USB Video Class requests.
//!
//! A control is a class request to an entity of the camera: the Camera Terminal
//! (lens) or the Processing Unit (image). A change lands in the camera's own
//! registers and is seen by every application. This module finds the entities in
//! the configuration descriptor, picks the camera among those attached, builds the
//! requests and reads the replies.

use vstd::prelude::*;

use crate::controls::{
    all_controls, all_toggles, batch_outcome, first_failure, AutoState, AutoToggle, CameraControl,
    CameraState, ControlError, ControlRange,
};
use crate::text::{
    chars_of, cut_last_bytes, parse_number, parsed_number, strip_prefix, without_last_bytes,
    without_prefix,
};

verus! {

/// Which entity a control request addresses.
#[derive(Debug, Clone, Copy, PartialEq, Eq, Structural)]
pub enum Unit {
    /// The lens.
    CameraTerminal,
    /// The image.
    Processing,
}

/// Request code: set the present value.
pub const UVC_SET_CUR: u8 = 0x01;

/// Request code: get the present value.
pub const UVC_GET_CUR: u8 = 0x81;

/// Request code: get the smallest value.
pub const UVC_GET_MIN: u8 = 0x82;

/// Request code: get the largest value.
pub const UVC_GET_MAX: u8 = 0x83;

/// Request code: get the factory value.
pub const UVC_GET_DEF: u8 = 0x87;

/// Request type: class request from an interface.
pub const RT_GET: u8 = 0xA1;

/// Request type: class request to an interface.
pub const RT_SET: u8 = 0x21;

/// The exposure mode that is fully manual. Every other mode counts as automatic.
pub const AE_MANUAL: u8 = 0x01;

impl CameraControl {
    /// The entity that has the control.
    pub open spec fn unit_of(self) -> Unit {
        match self {
            CameraControl::Zoom | CameraControl::Focus | CameraControl::Exposure =>
                Unit::CameraTerminal,
            _ => Unit::Processing,
        }
    }

    /// The control selector within its entity.
    pub open spec fn selector_of(self) -> u16 {
        match self {
            CameraControl::Zoom => 0x0B,
            CameraControl::Focus => 0x06,
            CameraControl::Exposure => 0x04,
            CameraControl::Brightness => 0x02,
            CameraControl::Contrast => 0x03,
            CameraControl::Saturation => 0x07,
            CameraControl::Sharpness => 0x08,
            CameraControl::WhiteBalance => 0x0A,
            CameraControl::Tint => 0x06,
        }
    }

    /// How many bytes the control's value has.
    pub open spec fn len_of(self) -> int {
        if self == CameraControl::Exposure {
            4
        } else {
            2
        }
    }

    /// The control's value has a sign.
    pub open spec fn is_signed(self) -> bool {
        self == CameraControl::Brightness || self == CameraControl::Tint
    }

    /// The entity that has the control.
    pub fn unit(self) -> (unit: Unit)
        ensures
            unit == self.unit_of(),
    {
        match self {
            CameraControl::Zoom | CameraControl::Focus | CameraControl::Exposure =>
                Unit::CameraTerminal,
            _ => Unit::Processing,
        }
    }

    /// The control selector within its entity. Focus and tint share a number by
    /// coincidence: they address different entities.
    pub fn selector(self) -> (selector: u16)
        ensures
            selector == self.selector_of(),
    {
        match self {
            CameraControl::Zoom => 0x0B,
            CameraControl::Focus => 0x06,
            CameraControl::Exposure => 0x04,
            CameraControl::Brightness => 0x02,
            CameraControl::Contrast => 0x03,
            CameraControl::Saturation => 0x07,
            CameraControl::Sharpness => 0x08,
            CameraControl::WhiteBalance => 0x0A,
            CameraControl::Tint => 0x06,
        }
    }

    /// How many bytes the control's value has: exposure time has four.
    pub fn payload_len(self) -> (len: usize)
        ensures
            len == self.len_of(),
    {
        match self {
            CameraControl::Exposure => 4,
            _ => 2,
        }
    }

    /// Whether the control's value has a sign.
    pub fn signed(self) -> (yes: bool)
        ensures
            yes == self.is_signed(),
    {
        match self {
            CameraControl::Brightness | CameraControl::Tint => true,
            _ => false,
        }
    }
}

impl AutoToggle {
    /// The entity that has the mode.
    pub open spec fn unit_of(self) -> Unit {
        match self {
            AutoToggle::Focus | AutoToggle::Exposure => Unit::CameraTerminal,
            AutoToggle::WhiteBalance => Unit::Processing,
        }
    }

    /// The mode's selector within its entity.
    pub open spec fn selector_of(self) -> u16 {
        match self {
            AutoToggle::Focus => 0x08,
            AutoToggle::Exposure => 0x02,
            AutoToggle::WhiteBalance => 0x0B,
        }
    }

    /// The entity that has the mode.
    pub fn unit(self) -> (unit: Unit)
        ensures
            unit == self.unit_of(),
    {
        match self {
            AutoToggle::Focus | AutoToggle::Exposure => Unit::CameraTerminal,
            AutoToggle::WhiteBalance => Unit::Processing,
        }
    }

    /// The mode's selector within its entity.
    pub fn selector(self) -> (selector: u16)
        ensures
            selector == self.selector_of(),
    {
        match self {
            AutoToggle::Focus => 0x08,
            AutoToggle::Exposure => 0x02,
            AutoToggle::WhiteBalance => 0x0B,
        }
    }
}

// ── Which camera ────────────────────────────────────────────────────────────

/// The USB location that a camera's unique id begins with: everything but the
/// last eight digits, which are the vendor and product id.
pub open spec fn location_of(unique_id: Seq<char>) -> Option<int> {
    let digits = match strip_prefix(unique_id, "0x"@) {
        Some(rest) => rest,
        None => unique_id,
    };
    match without_last_bytes(digits, 8) {
        Some(location) => parse_number(location, 16, 0xffff_ffff),
        None => None,
    }
}

/// The USB location that a camera's unique id begins with.
///
/// The location is not padded, so it is found from the end of the id: taking a
/// fixed number of digits from its front would swallow a digit of the vendor id.
pub fn location_hint(unique_id: &str) -> (location: Option<u32>)
    ensures
        match location {
            Some(l) => location_of(unique_id@) == Some(l as int),
            None => location_of(unique_id@) is None,
        },
{
    let chars: Vec<char> = chars_of(unique_id);
    let prefix: Vec<char> = chars_of("0x");
    let digits: &[char] = match without_prefix(chars.as_slice(), prefix.as_slice()) {
        Some(rest) => rest,
        None => chars.as_slice(),
    };
    match cut_last_bytes(digits, 8) {
        Some(location) => match parsed_number(location, 16, 0xffff_ffff) {
            Some(l) => Some(l as u32),
            None => None,
        },
        None => None,
    }
}

/// What became of an attached device: not a usable Logitech camera, or opened at
/// a location that may be unknown.
pub type Attached = Option<Option<u32>>;

/// The first device opened at `location`.
pub open spec fn first_at(devices: Seq<Attached>, location: u32) -> Option<int>
    decreases devices.len(),
{
    if devices.len() == 0 {
        None
    } else {
        match first_at(devices.drop_last(), location) {
            Some(i) => Some(i),
            None => if devices.last() == Some(Some(location)) {
                Some(devices.len() - 1)
            } else {
                None
            },
        }
    }
}

/// The devices that were opened, by position.
pub open spec fn opened_positions(devices: Seq<Attached>) -> Seq<int>
    decreases devices.len(),
{
    if devices.len() == 0 {
        Seq::empty()
    } else if devices.last() is Some {
        opened_positions(devices.drop_last()).push(devices.len() - 1)
    } else {
        opened_positions(devices.drop_last())
    }
}

/// The device to use: the first one at the wanted location or, without a wanted
/// location, the only one opened. Two that cannot be told apart are refused
/// rather than writing into the wrong camera.
pub open spec fn chosen_device(devices: Seq<Attached>, wanted: Option<u32>) -> Result<
    int,
    ControlError,
> {
    match wanted {
        Some(location) => match first_at(devices, location) {
            Some(i) => Ok(i),
            None => Err(ControlError::NotFound),
        },
        None => {
            let opened = opened_positions(devices);
            if opened.len() == 0 {
                Err(ControlError::NotFound)
            } else if opened.len() == 1 {
                Ok(opened[0])
            } else {
                Err(ControlError::Ambiguous)
            }
        },
    }
}

/// What to do with a device that was just opened.
#[derive(Debug, Clone, Copy, PartialEq, Eq, Structural)]
pub enum Offer {
    /// Keep it open and look no further.
    KeepAndStop,
    /// Keep it open and look on.
    Keep,
    /// Close it and look on.
    Close,
}

/// A search among the attached devices, one after the other.
pub struct DeviceSearch {
    wanted: Option<u32>,
    offered: usize,
    chosen: Option<usize>,
    several: bool,
    seen: Ghost<Seq<Attached>>,
}

impl DeviceSearch {
    /// The devices offered so far.
    pub closed spec fn devices(self) -> Seq<Attached> {
        self.seen@
    }

    /// The wanted location.
    pub closed spec fn location(self) -> Option<u32> {
        self.wanted
    }

    /// The search has found the wanted location.
    pub open spec fn is_over(self) -> bool {
        self.location() matches Some(l) && first_at(self.devices(), l) is Some
    }

    #[verifier::type_invariant]
    spec fn inv(self) -> bool {
        &&& self.offered == self.seen@.len()
        &&& match self.wanted {
            Some(l) => first_at(self.seen@, l) == match self.chosen {
                Some(i) => Some(i as int),
                None => None::<int>,
            } && !self.several,
            None => {
                let opened = opened_positions(self.seen@);
                &&& self.chosen is Some == (opened.len() > 0)
                &&& self.chosen matches Some(i) ==> i == opened[0]
                &&& self.several == (opened.len() > 1)
            },
        }
    }

    /// Begin a search for the camera with this unique id.
    pub fn new(unique_id: &str) -> (out: Self)
        ensures
            out.devices().len() == 0,
            match out.location() {
                Some(l) => location_of(unique_id@) == Some(l as int),
                None => location_of(unique_id@) is None,
            },
    {
        DeviceSearch {
            wanted: location_hint(unique_id),
            offered: 0,
            chosen: None,
            several: false,
            seen: Ghost(Seq::empty()),
        }
    }

    /// Offer the next device: `None` when it is not a usable camera.
    pub fn offer(&mut self, device: Attached) -> (what: Offer)
        requires
            !old(self).is_over(),
            old(self).devices().len() < usize::MAX,
        ensures
            final(self).location() == old(self).location(),
            final(self).devices() == old(self).devices().push(device),
            what == match old(self).location() {
                Some(l) => if device == Some(Some(l)) {
                    Offer::KeepAndStop
                } else {
                    Offer::Close
                },
                None => if device is Some && opened_positions(old(self).devices()).len() == 0 {
                    Offer::Keep
                } else {
                    Offer::Close
                },
            },
    {
        proof {
            use_type_invariant(&*self);
        }
        let ghost now = self.seen@.push(device);
        assert(now.drop_last() =~= self.seen@);
        let i: usize = self.offered;
        let wanted: Option<u32> = self.wanted;
        let chosen: Option<usize> = self.chosen;
        let several: bool = self.several;
        let mut next_chosen: Option<usize> = chosen;
        let mut next_several: bool = several;
        let mut what: Offer = Offer::Close;
        match device {
            Some(location) => match wanted {
                Some(l) => {
                    if location == Some(l) {
                        next_chosen = Some(i);
                        what = Offer::KeepAndStop;
                    }
                },
                None => {
                    if chosen.is_none() {
                        next_chosen = Some(i);
                        what = Offer::Keep;
                    } else {
                        next_several = true;
                    }
                },
            },
            None => {},
        }
        *self = DeviceSearch {
            wanted,
            offered: i + 1,
            chosen: next_chosen,
            several: next_several,
            seen: Ghost(now),
        };
        what
    }

    /// The position of the device to use; every other one that was kept is to be
    /// closed.
    pub fn finish(&self) -> (out: Result<usize, ControlError>)
        ensures
            match chosen_device(self.devices(), self.location()) {
                Ok(i) => out == Ok::<usize, ControlError>(i as usize) && i <= usize::MAX,
                Err(e) => out == Err::<usize, ControlError>(e),
            },
    {
        proof {
            use_type_invariant(self);
        }
        if self.several {
            return Err(ControlError::Ambiguous);
        }
        match self.chosen {
            Some(i) => Ok(i),
            None => Err(ControlError::NotFound),
        }
    }
}

/// A camera whose location is known is never confused with another one: what is
/// chosen was opened at that location.
pub proof fn located_cameras_are_exact(devices: Seq<Attached>, location: u32)
    ensures
        match chosen_device(devices, Some(location)) {
            Ok(i) => 0 <= i < devices.len() && devices[i] == Some(Some(location)),
            Err(e) => e == ControlError::NotFound && forall|i: int|
                0 <= i < devices.len() ==> #[trigger] devices[i] != Some(Some(location)),
        },
    decreases devices.len(),
{
    if devices.len() > 0 {
        let fewer = devices.drop_last();
        located_cameras_are_exact(fewer, location);
        match first_at(fewer, location) {
            Some(i) => {
                assert(fewer[i] == devices[i]);
            },
            None => {
                if devices.last() != Some(Some(location)) {
                    assert forall|i: int| 0 <= i < devices.len() implies #[trigger] devices[i]
                        != Some(Some(location)) by {
                        if i < fewer.len() {
                            assert(fewer[i] == devices[i]);
                        }
                    }
                }
            },
        }
    }
}

// ── The entities of a camera ────────────────────────────────────────────────

/// The entities that a control request can address.
#[derive(Debug, Clone, Copy, PartialEq, Eq, Structural)]
pub struct VcTopology {
    /// The number of the VideoControl interface.
    pub vc_interface: u8,
    /// The id of the Processing Unit.
    pub processing_unit: u8,
    /// The id of the Camera Terminal, when the descriptor lists one.
    pub camera_terminal: Option<u8>,
}

/// The descriptors in a configuration descriptor, each led by its length, up to
/// the first one that is too short or too long.
pub open spec fn descriptors(blob: Seq<u8>) -> Seq<Seq<u8>>
    decreases blob.len(),
{
    if blob.len() < 2 || blob[0] < 2 || blob[0] > blob.len() {
        Seq::empty()
    } else {
        seq![blob.take(blob[0] as int)] + descriptors(blob.skip(blob[0] as int))
    }
}

/// The descriptor of a VideoControl interface.
pub open spec fn is_video_control(d: Seq<u8>) -> bool {
    d.len() >= 9 && d[1] == 0x04 && d[5] == 0x0E && d[6] == 0x01
}

/// The descriptor of a camera sensor's input terminal.
pub open spec fn is_camera_terminal(d: Seq<u8>) -> bool {
    d.len() >= 8 && d[1] == 0x24 && d[2] == 0x02 && d[4] + 256 * d[5] == 0x0201
}

/// The descriptor of a Processing Unit.
pub open spec fn is_processing_unit(d: Seq<u8>) -> bool {
    d.len() >= 4 && d[1] == 0x24 && d[2] == 0x05
}

/// The number of the last VideoControl interface.
pub open spec fn last_video_control(ds: Seq<Seq<u8>>) -> Option<u8>
    decreases ds.len(),
{
    if ds.len() == 0 {
        None
    } else if is_video_control(ds.last()) {
        Some(ds.last()[2])
    } else {
        last_video_control(ds.drop_last())
    }
}

/// The id of the first camera terminal that follows a VideoControl interface.
pub open spec fn first_camera_terminal(ds: Seq<Seq<u8>>) -> Option<u8>
    decreases ds.len(),
{
    if ds.len() == 0 {
        None
    } else {
        match first_camera_terminal(ds.drop_last()) {
            Some(id) => Some(id),
            None => if is_camera_terminal(ds.last()) && last_video_control(ds.drop_last()) is Some {
                Some(ds.last()[3])
            } else {
                None
            },
        }
    }
}

/// The entities that descriptors name: those up to the first Processing Unit that
/// follows a VideoControl interface.
pub open spec fn topology_of(ds: Seq<Seq<u8>>) -> Option<VcTopology>
    decreases ds.len(),
{
    if ds.len() == 0 {
        None
    } else {
        match topology_of(ds.drop_last()) {
            Some(t) => Some(t),
            None => match last_video_control(ds.drop_last()) {
                Some(vc) => if is_processing_unit(ds.last()) {
                    Some(
                        VcTopology {
                            vc_interface: vc,
                            processing_unit: ds.last()[3],
                            camera_terminal: first_camera_terminal(ds.drop_last()),
                        },
                    )
                } else {
                    None
                },
                None => None,
            },
        }
    }
}

/// What follows the first descriptors does not change what they name.
proof fn lemma_topology_stays(ds: Seq<Seq<u8>>, more: Seq<Seq<u8>>)
    requires
        topology_of(ds) is Some,
    ensures
        topology_of(ds + more) == topology_of(ds),
    decreases more.len(),
{
    if more.len() == 0 {
        assert(ds + more =~= ds);
    } else {
        lemma_topology_stays(ds, more.drop_last());
        assert((ds + more).drop_last() =~= ds + more.drop_last());
    }
}

/// Walk a configuration descriptor for the entities of its VideoControl
/// interface.
pub fn scan_descriptors(blob: &[u8]) -> (out: Option<VcTopology>)
    ensures
        out == topology_of(descriptors(blob@)),
{
    let total: usize = blob.len();
    let mut off: usize = 0;
    let mut vc_interface: Option<u8> = None;
    let mut camera_terminal: Option<u8> = None;
    let ghost mut done: Seq<Seq<u8>> = Seq::empty();
    let ghost all = descriptors(blob@);
    proof {
        assert(blob@.skip(0) =~= blob@);
        assert(done + descriptors(blob@.skip(0)) =~= all);
    }
    while total >= 2 && off <= total - 2
        invariant
            off <= total,
            total == blob@.len(),
            all == descriptors(blob@),
            all == done + descriptors(blob@.skip(off as int)),
            vc_interface == last_video_control(done),
            camera_terminal == first_camera_terminal(done),
            topology_of(done) is None,
        ensures
            off <= total,
            topology_of(done) is None,
            all == done,
        decreases total - off,
    {
        let len: usize = blob[off] as usize;
        let ghost rest = blob@.skip(off as int);
        assert(rest[0] == blob@[off as int]);
        if len < 2 || len > total - off {
            assert(descriptors(rest) =~= Seq::<Seq<u8>>::empty());
            assert(done + descriptors(rest) =~= done);
            break;
        }
        let ghost d = rest.take(len as int);
        let ghost before = done;
        proof {
            assert(rest.skip(len as int) =~= blob@.skip(off as int + len as int));
            assert(descriptors(rest) == seq![d] + descriptors(rest.skip(len as int)));
            done = done.push(d);
            assert(done + descriptors(rest.skip(len as int)) =~= before + descriptors(rest));
            assert(done.drop_last() =~= before);
            assert(forall|k: int| 0 <= k < len ==> d[k] == blob@[off + k]);
        }
        let dtype: u8 = blob[off + 1];
        assert(d[1] == dtype);
        if dtype == 0x04 && len >= 9 {
            let class: u8 = blob[off + 5];
            let sub: u8 = blob[off + 6];
            assert(d[5] == class && d[6] == sub);
            if class == 0x0E && sub == 0x01 {
                assert(d[2] == blob@[off + 2]);
                vc_interface = Some(blob[off + 2]);
            }
        } else if dtype == 0x24 && len >= 4 && vc_interface.is_some() {
            let subtype: u8 = blob[off + 2];
            let id: u8 = blob[off + 3];
            assert(d[2] == subtype && d[3] == id);
            if subtype == 0x02 && len >= 8 {
                assert(d[4] == blob@[off + 4] && d[5] == blob@[off + 5]);
                if blob[off + 4] == 0x01 && blob[off + 5] == 0x02 {
                    if camera_terminal.is_none() {
                        camera_terminal = Some(id);
                    }
                }
            } else if subtype == 0x05 {
                proof {
                    lemma_topology_stays(done, descriptors(rest.skip(len as int)));
                }
                match vc_interface {
                    Some(vc) => {
                        return Some(
                            VcTopology { vc_interface: vc, processing_unit: id, camera_terminal },
                        );
                    },
                    None => {},
                }
            }
        }
        off = off + len;
    }
    None
}

/// The entities that the first configuration with any names.
pub open spec fn first_topology(blobs: Seq<Vec<u8>>) -> Option<VcTopology>
    decreases blobs.len(),
{
    if blobs.len() == 0 {
        None
    } else {
        match topology_of(descriptors(blobs[0]@)) {
            Some(t) => Some(t),
            None => first_topology(blobs.skip(1)),
        }
    }
}

/// The entities of a camera, from its configuration descriptors.
pub fn video_control_topology(blobs: &[Vec<u8>]) -> (out: Option<VcTopology>)
    ensures
        out == first_topology(blobs@),
{
    let n: usize = blobs.len();
    let mut i: usize = 0;
    assert(blobs@.skip(0) =~= blobs@);
    while i < n
        invariant
            i <= n,
            n == blobs@.len(),
            first_topology(blobs@) == first_topology(blobs@.skip(i as int)),
        decreases n - i,
    {
        match scan_descriptors(blobs[i].as_slice()) {
            Some(t) => {
                return Some(t);
            },
            None => {},
        }
        assert(blobs@.skip(i as int).skip(1) =~= blobs@.skip(i as int + 1));
        i = i + 1;
    }
    None
}

/// The length of a whole configuration descriptor, from its first four bytes.
pub fn total_length(header: [u8; 4]) -> (len: usize)
    ensures
        len == header@[2] + 256 * header@[3],
{
    header[2] as usize + 256 * header[3] as usize
}

/// What was found of an attached device while it was being opened.
#[derive(Debug)]
pub struct ServiceFacts {
    /// The USB vendor id that the device reports.
    pub vendor_id: u16,
    /// The location, when the device reported one.
    pub location: Option<u32>,
    /// Whether the device could be opened.
    pub opened: bool,
    /// Its configuration descriptors.
    pub configurations: Vec<Vec<u8>>,
}

/// The topology and the location of an attached device, if it is a usable camera
/// of the wanted vendor.
pub fn try_open(facts: &ServiceFacts, wanted_vendor: u16) -> (out: Option<
    (VcTopology, Option<u32>),
>)
    ensures
        match out {
            Some(found) => facts.vendor_id == wanted_vendor && facts.opened && first_topology(
                facts.configurations@,
            ) == Some(found.0) && found.1 == facts.location,
            None => facts.vendor_id != wanted_vendor || !facts.opened || first_topology(
                facts.configurations@,
            ) is None,
        },
{
    if facts.vendor_id != wanted_vendor || !facts.opened {
        return None;
    }
    match video_control_topology(facts.configurations.as_slice()) {
        Some(topology) => Some((topology, facts.location)),
        None => None,
    }
}

// ── Requests ────────────────────────────────────────────────────────────────

/// A control transfer.
#[derive(Debug, PartialEq, Eq)]
pub struct ControlRequest {
    /// Direction, type and recipient.
    pub request_type: u8,
    /// Request code.
    pub request: u8,
    /// The selector in the high byte.
    pub value: u16,
    /// The entity in the high byte, the interface in the low byte.
    pub index: u16,
    /// The bytes to send, or room for those to receive.
    pub data: Vec<u8>,
}

impl VcTopology {
    /// The id of the entity that `unit` stands for.
    pub open spec fn entity_of(self, unit: Unit) -> Option<u8> {
        match unit {
            Unit::Processing => Some(self.processing_unit),
            Unit::CameraTerminal => self.camera_terminal,
        }
    }

    /// The id of the entity that `unit` stands for; a camera without a camera
    /// terminal has no lens controls.
    pub fn entity(&self, unit: Unit) -> (out: Result<u8, ControlError>)
        ensures
            match self.entity_of(unit) {
                Some(id) => out == Ok::<u8, ControlError>(id),
                None => out == Err::<u8, ControlError>(ControlError::Unsupported),
            },
    {
        match unit {
            Unit::Processing => Ok(self.processing_unit),
            Unit::CameraTerminal => match self.camera_terminal {
                Some(id) => Ok(id),
                None => Err(ControlError::Unsupported),
            },
        }
    }

    /// `r` is the request with this type, code, selector and data to `entity`.
    pub open spec fn addresses(
        self,
        r: ControlRequest,
        request_type: u8,
        request: u8,
        selector: u16,
        entity: u8,
        data: Seq<u8>,
    ) -> bool {
        &&& r.request_type == request_type
        &&& r.request == request
        &&& r.value == 256 * selector
        &&& r.index == 256 * entity + self.vc_interface
        &&& r.data@ == data
    }

    fn request_to(
        &self,
        request_type: u8,
        request: u8,
        selector: u16,
        entity: u8,
        data: Vec<u8>,
    ) -> (r: ControlRequest)
        requires
            selector <= 0xff,
        ensures
            self.addresses(r, request_type, request, selector, entity, data@),
    {
        ControlRequest {
            request_type,
            request,
            value: 256 * selector,
            index: 256 * entity as u16 + self.vc_interface as u16,
            data,
        }
    }

    /// The request that reads `control`.
    pub fn get_request(&self, control: CameraControl, request: u8) -> (out: Result<
        ControlRequest,
        ControlError,
    >)
        ensures
            match self.entity_of(control.unit_of()) {
                Some(id) => out matches Ok(r) && self.addresses(
                    r,
                    RT_GET,
                    request,
                    control.selector_of(),
                    id,
                    Seq::new(control.len_of() as nat, |i: int| 0u8),
                ),
                None => out == Err::<ControlRequest, ControlError>(ControlError::Unsupported),
            },
            out matches Ok(r) ==> {
                &&& control == CameraControl::Zoom ==> r.value == 0x0b00
                &&& control == CameraControl::Focus ==> r.value == 0x0600
                &&& control == CameraControl::Exposure ==> r.value == 0x0400
                &&& control == CameraControl::Brightness ==> r.value == 0x0200
                &&& control == CameraControl::Contrast ==> r.value == 0x0300
                &&& control == CameraControl::Saturation ==> r.value == 0x0700
                &&& control == CameraControl::Sharpness ==> r.value == 0x0800
                &&& control == CameraControl::WhiteBalance ==> r.value == 0x0a00
                &&& control == CameraControl::Tint ==> r.value == 0x0600
            },
            control == CameraControl::Zoom || control == CameraControl::Focus || control
                == CameraControl::Exposure ==> match self.camera_terminal {
                Some(id) => out matches Ok(r) && r.index == 0x100 * id + self.vc_interface,
                None => out is Err,
            },
            control != CameraControl::Zoom && control != CameraControl::Focus && control
                != CameraControl::Exposure ==> (out matches Ok(r) && r.index == 0x100
                * self.processing_unit + self.vc_interface),
            out matches Ok(r) ==> r.request_type == 0xa1 && r.request == request && r.data@.len()
                == if control == CameraControl::Exposure {
                4int
            } else {
                2int
            },
    {
        match self.entity(control.unit()) {
            Ok(entity) => {
                let mut data: Vec<u8> = Vec::new();
                data.push(0);
                data.push(0);
                if control.payload_len() == 4 {
                    data.push(0);
                    data.push(0);
                }
                assert(data@ =~= Seq::new(control.len_of() as nat, |i: int| 0u8));
                Ok(self.request_to(RT_GET, request, control.selector(), entity, data))
            },
            Err(e) => Err(e),
        }
    }

    /// The request that sets `control` to `value`.
    pub fn set_request(&self, control: CameraControl, value: i32) -> (out: Result<
        ControlRequest,
        ControlError,
    >)
        ensures
            match self.entity_of(control.unit_of()) {
                Some(id) => out matches Ok(r) && self.addresses(
                    r,
                    RT_SET,
                    UVC_SET_CUR,
                    control.selector_of(),
                    id,
                    encoded(control, value),
                ),
                None => out == Err::<ControlRequest, ControlError>(ControlError::Unsupported),
            },
            out matches Ok(r) ==> {
                &&& control == CameraControl::Zoom ==> r.value == 0x0b00
                &&& control == CameraControl::Focus ==> r.value == 0x0600
                &&& control == CameraControl::Exposure ==> r.value == 0x0400
                &&& control == CameraControl::Brightness ==> r.value == 0x0200
                &&& control == CameraControl::Contrast ==> r.value == 0x0300
                &&& control == CameraControl::Saturation ==> r.value == 0x0700
                &&& control == CameraControl::Sharpness ==> r.value == 0x0800
                &&& control == CameraControl::WhiteBalance ==> r.value == 0x0a00
                &&& control == CameraControl::Tint ==> r.value == 0x0600
            },
            control == CameraControl::Zoom || control == CameraControl::Focus || control
                == CameraControl::Exposure ==> match self.camera_terminal {
                Some(id) => out matches Ok(r) && r.index == 0x100 * id + self.vc_interface,
                None => out is Err,
            },
            control != CameraControl::Zoom && control != CameraControl::Focus && control
                != CameraControl::Exposure ==> (out matches Ok(r) && r.index == 0x100
                * self.processing_unit + self.vc_interface),
            out matches Ok(r) ==> r.request_type == 0x21 && r.request == 0x01,
            out matches Ok(r) && 0 <= value <= 0xffff ==> {
                let data = out->Ok_0.data@;
                data[0] + 0x100 * data[1] == value
            },
    {
        match self.entity(control.unit()) {
            Ok(entity) => {
                let data: Vec<u8> = encode(control, value);
                Ok(self.request_to(RT_SET, UVC_SET_CUR, control.selector(), entity, data))
            },
            Err(e) => Err(e),
        }
    }

    /// The request that reads `toggle`.
    pub fn get_auto_request(&self, toggle: AutoToggle, request: u8) -> (out: Result<
        ControlRequest,
        ControlError,
    >)
        ensures
            match self.entity_of(toggle.unit_of()) {
                Some(id) => out matches Ok(r) && self.addresses(
                    r,
                    RT_GET,
                    request,
                    toggle.selector_of(),
                    id,
                    seq![0u8],
                ),
                None => out == Err::<ControlRequest, ControlError>(ControlError::Unsupported),
            },
            out matches Ok(r) ==> {
                &&& toggle == AutoToggle::Focus ==> r.value == 0x0800
                &&& toggle == AutoToggle::Exposure ==> r.value == 0x0200
                &&& toggle == AutoToggle::WhiteBalance ==> r.value == 0x0b00
                &&& r.request_type == 0xa1
                &&& r.request == request
            },
            toggle != AutoToggle::WhiteBalance ==> match self.camera_terminal {
                Some(id) => out matches Ok(r) && r.index == 0x100 * id + self.vc_interface,
                None => out is Err,
            },
            toggle == AutoToggle::WhiteBalance ==> (out matches Ok(r) && r.index == 0x100
                * self.processing_unit + self.vc_interface),
    {
        match self.entity(toggle.unit()) {
            Ok(entity) => {
                let mut data: Vec<u8> = Vec::new();
                data.push(0);
                assert(data@ =~= seq![0u8]);
                Ok(self.request_to(RT_GET, request, toggle.selector(), entity, data))
            },
            Err(e) => Err(e),
        }
    }

    /// The requests that switch `toggle`, to be tried in order until one succeeds.
    /// Cameras support subsets of the exposure modes, so automatic exposure tries
    /// each of them, the most automatic first.
    pub fn set_auto_requests(&self, toggle: AutoToggle, on: bool) -> (out: Result<
        Vec<ControlRequest>,
        ControlError,
    >)
        ensures
            match self.entity_of(toggle.unit_of()) {
                Some(id) => out matches Ok(rs) && rs@.len() == auto_modes(toggle, on).len() && (
                forall|i: int|
                    0 <= i < rs@.len() ==> self.addresses(
                        #[trigger] rs@[i],
                        RT_SET,
                        UVC_SET_CUR,
                        toggle.selector_of(),
                        id,
                        seq![auto_modes(toggle, on)[i]],
                    )),
                None => out == Err::<Vec<ControlRequest>, ControlError>(ControlError::Unsupported),
            },
    {
        match self.entity(toggle.unit()) {
            Ok(entity) => {
                let modes: Vec<u8> = auto_candidates(toggle, on);
                let mut out: Vec<ControlRequest> = Vec::new();
                let n: usize = modes.len();
                let mut i: usize = 0;
                while i < n
                    invariant
                        i <= n,
                        n == modes@.len(),
                        out@.len() == i,
                        forall|k: int|
                            0 <= k < i ==> self.addresses(
                                #[trigger] out@[k],
                                RT_SET,
                                UVC_SET_CUR,
                                toggle.selector_of(),
                                entity,
                                seq![modes@[k]],
                            ),
                    decreases n - i,
                {
                    let mut data: Vec<u8> = Vec::new();
                    data.push(modes[i]);
                    assert(data@ =~= seq![modes@[i as int]]);
                    out.push(
                        self.request_to(RT_SET, UVC_SET_CUR, toggle.selector(), entity, data),
                    );
                    i = i + 1;
                }
                Ok(out)
            },
            Err(e) => Err(e),
        }
    }
}

/// The mode bytes that switch `toggle`, in the order in which they are tried.
pub open spec fn auto_modes(toggle: AutoToggle, on: bool) -> Seq<u8> {
    match (toggle, on) {
        (AutoToggle::Exposure, true) => seq![0x02u8, 0x08u8, 0x04u8],
        (AutoToggle::Exposure, false) => seq![AE_MANUAL],
        (_, true) => seq![1u8],
        (_, false) => seq![0u8],
    }
}

fn auto_candidates(toggle: AutoToggle, on: bool) -> (modes: Vec<u8>)
    ensures
        modes@ == auto_modes(toggle, on),
{
    let mut modes: Vec<u8> = Vec::new();
    match toggle {
        AutoToggle::Exposure => {
            if on {
                modes.push(0x02);
                modes.push(0x08);
                modes.push(0x04);
            } else {
                modes.push(AE_MANUAL);
            }
        },
        _ => {
            if on {
                modes.push(1);
            } else {
                modes.push(0);
            }
        },
    }
    assert(modes@ =~= auto_modes(toggle, on));
    modes
}

/// What a mode byte says of `toggle`.
pub open spec fn auto_flag(toggle: AutoToggle, mode: u8) -> bool {
    match toggle {
        AutoToggle::Exposure => mode != AE_MANUAL,
        _ => mode != 0,
    }
}

/// Every mode that switches a toggle on is read back as on, and every mode that
/// switches it off as off.
pub proof fn auto_modes_are_read_back(toggle: AutoToggle, on: bool, i: int)
    requires
        0 <= i < auto_modes(toggle, on).len(),
    ensures
        auto_flag(toggle, auto_modes(toggle, on)[i]) == on,
{
}

// ── Replies ─────────────────────────────────────────────────────────────────

/// The number that two bytes write, the low one first.
pub open spec fn le16(b: Seq<u8>) -> int {
    b[0] + 256 * b[1]
}

/// The number that four bytes write, the low one first.
pub open spec fn le32(b: Seq<u8>) -> int {
    b[0] + 256 * b[1] + 65536 * b[2] + 16777216 * b[3]
}

/// The value that the bytes of a reply give for `control`. An exposure time that
/// is too large is held at the largest value.
pub open spec fn decoded(control: CameraControl, bytes: Seq<u8>) -> int {
    if control.len_of() == 4 {
        if le32(bytes) > i32::MAX {
            i32::MAX as int
        } else {
            le32(bytes)
        }
    } else if control.is_signed() && le16(bytes) >= 0x8000 {
        le16(bytes) - 0x1_0000
    } else {
        le16(bytes)
    }
}

/// The value that the bytes of a reply give for `control`.
pub fn decode(control: CameraControl, bytes: [u8; 4]) -> (value: i32)
    ensures
        value == decoded(control, bytes@),
{
    let low: i64 = bytes[0] as i64 + 256 * bytes[1] as i64;
    if control.payload_len() == 4 {
        let wide: i64 = low + 65536 * bytes[2] as i64 + 16777216 * bytes[3] as i64;
        if wide > 0x7fff_ffff {
            i32::MAX
        } else {
            wide as i32
        }
    } else if control.signed() && low >= 0x8000 {
        (low - 0x1_0000) as i32
    } else {
        low as i32
    }
}

/// The bytes of `value` for `control`, the low one first, cut to the control's
/// size.
pub open spec fn encoded(control: CameraControl, value: i32) -> Seq<u8> {
    let n = value as int % 0x1_0000_0000;
    let all = seq![
        (n % 256) as u8,
        (n / 256 % 256) as u8,
        (n / 65536 % 256) as u8,
        (n / 16777216) as u8,
    ];
    all.take(control.len_of())
}

/// The bytes of `value` for `control`.
pub fn encode(control: CameraControl, value: i32) -> (data: Vec<u8>)
    ensures
        data@ == encoded(control, value),
{
    let n: u64 = if value >= 0 {
        value as u64
    } else {
        (value as i64 + 0x1_0000_0000) as u64
    };
    assert(n == value as int % 0x1_0000_0000);
    let mut data: Vec<u8> = Vec::new();
    data.push((n % 256) as u8);
    data.push((n / 256 % 256) as u8);
    if control.payload_len() == 4 {
        data.push((n / 65536 % 256) as u8);
        data.push((n / 16777216) as u8);
    }
    assert(data@ =~= encoded(control, value));
    data
}

/// The control's size holds `value`.
pub open spec fn representable(control: CameraControl, value: i32) -> bool {
    if control.len_of() == 4 {
        value >= 0
    } else if control.is_signed() {
        -0x8000 <= value <= 0x7fff
    } else {
        0 <= value <= 0xffff
    }
}

/// A value that fits the control is read back as it was written.
pub proof fn values_are_read_back(control: CameraControl, value: i32, reply: Seq<u8>)
    requires
        representable(control, value),
        reply.len() == 4,
        forall|i: int| 0 <= i < control.len_of() ==> #[trigger] reply[i] == encoded(
            control,
            value,
        )[i],
    ensures
        decoded(control, reply) == value,
{
    let n = value as int % 0x1_0000_0000;
    assert(reply[0] == n % 256);
    assert(reply[1] == n / 256 % 256);
    if control.len_of() == 4 {
        assert(reply[2] == n / 65536 % 256);
        assert(reply[3] == n / 16777216);
        assert(n == n % 256 + 256 * (n / 256 % 256) + 65536 * (n / 65536 % 256) + 16777216 * (n
            / 16777216));
    } else {
        assert(n % 65536 == n % 256 + 256 * (n / 256 % 256));
    }
}

/// The replies to the four reads of a control; `None` where the camera refused.
#[derive(Debug)]
pub struct RangeReplies {
    /// To the read of the smallest value.
    pub min: Option<[u8; 4]>,
    /// To the read of the largest value.
    pub max: Option<[u8; 4]>,
    /// To the read of the factory value.
    pub default: Option<[u8; 4]>,
    /// To the read of the present value.
    pub current: Option<[u8; 4]>,
}

/// The range that the replies give: none unless the camera told both bounds and
/// the factory value. Without a present value the factory value stands in.
pub open spec fn range_of(control: CameraControl, replies: RangeReplies) -> Option<ControlRange> {
    match (replies.min, replies.max, replies.default) {
        (Some(min), Some(max), Some(default)) => Some(
            ControlRange {
                min: decoded(control, min@) as i32,
                max: decoded(control, max@) as i32,
                default: decoded(control, default@) as i32,
                current: match replies.current {
                    Some(current) => decoded(control, current@) as i32,
                    None => decoded(control, default@) as i32,
                },
            },
        ),
        _ => None,
    }
}

/// What the replies give for a control of an opened camera.
pub open spec fn range_outcome(
    topology: VcTopology,
    control: CameraControl,
    replies: RangeReplies,
) -> Option<ControlRange> {
    if topology.entity_of(control.unit_of()) is Some {
        range_of(control, replies)
    } else {
        None
    }
}

fn range_read(topology: &VcTopology, control: CameraControl, replies: &RangeReplies) -> (out: Option<
    ControlRange,
>)
    ensures
        out == range_outcome(*topology, control, *replies),
{
    match topology.entity(control.unit()) {
        Ok(_) => {},
        Err(_) => {
            return None;
        },
    }
    match (replies.min, replies.max, replies.default) {
        (Some(min), Some(max), Some(default)) => {
            let value: i32 = decode(control, default);
            Some(
                ControlRange {
                    min: decode(control, min),
                    max: decode(control, max),
                    default: value,
                    current: match replies.current {
                        Some(current) => decode(control, current),
                        None => value,
                    },
                },
            )
        },
        _ => None,
    }
}

/// The range of one control: the error of opening the camera, or what the camera
/// replied. A camera that lacks the control or refuses a read gives
/// [`ControlError::Unsupported`].
pub fn control_range(
    opened: Result<VcTopology, ControlError>,
    control: CameraControl,
    replies: &RangeReplies,
) -> (out: Result<ControlRange, ControlError>)
    ensures
        match opened {
            Ok(topology) => match range_outcome(topology, control, *replies) {
                Some(range) => out == Ok::<ControlRange, ControlError>(range),
                None => out == Err::<ControlRange, ControlError>(ControlError::Unsupported),
            },
            Err(e) => out == Err::<ControlRange, ControlError>(e),
        },
{
    match opened {
        Ok(topology) => match range_read(&topology, control, replies) {
            Some(range) => Ok(range),
            None => Err(ControlError::Unsupported),
        },
        Err(e) => Err(e),
    }
}

/// The replies to the two reads of an automatic mode.
#[derive(Debug)]
pub struct AutoReplies {
    /// To the read of the present mode.
    pub current: Option<u8>,
    /// To the read of the factory mode.
    pub default: Option<u8>,
}

/// The state that the replies give for an automatic mode of an opened camera.
pub open spec fn auto_outcome(
    topology: VcTopology,
    toggle: AutoToggle,
    replies: AutoReplies,
) -> Option<AutoState> {
    if topology.entity_of(toggle.unit_of()) is Some {
        match (replies.current, replies.default) {
            (Some(current), Some(default)) => Some(
                AutoState {
                    current: auto_flag(toggle, current),
                    default: auto_flag(toggle, default),
                },
            ),
            _ => None,
        }
    } else {
        None
    }
}

fn flag_of(toggle: AutoToggle, mode: u8) -> (on: bool)
    ensures
        on == auto_flag(toggle, mode),
{
    match toggle {
        AutoToggle::Exposure => mode != AE_MANUAL,
        _ => mode != 0,
    }
}

fn auto_read(topology: &VcTopology, toggle: AutoToggle, replies: &AutoReplies) -> (out: Option<
    AutoState,
>)
    ensures
        out == auto_outcome(*topology, toggle, *replies),
{
    match topology.entity(toggle.unit()) {
        Ok(_) => {},
        Err(_) => {
            return None;
        },
    }
    match (replies.current, replies.default) {
        (Some(current), Some(default)) => Some(
            AutoState { current: flag_of(toggle, current), default: flag_of(toggle, default) },
        ),
        _ => None,
    }
}

/// The replies to all reads of a camera, in the order of the controls and of the
/// automatic modes.
#[derive(Debug)]
pub struct StateReplies {
    /// Per control.
    pub controls: Vec<RangeReplies>,
    /// Per automatic mode.
    pub autos: Vec<AutoReplies>,
}

/// The supported ones among the first `n` controls.
pub open spec fn supported_controls(topology: VcTopology, replies: Seq<RangeReplies>, n: int) -> Seq<
    (CameraControl, ControlRange),
>
    decreases n,
{
    if n <= 0 {
        Seq::empty()
    } else {
        let control = all_controls()[n - 1];
        let before = supported_controls(topology, replies, n - 1);
        match range_outcome(topology, control, replies[n - 1]) {
            Some(range) => before.push((control, range)),
            None => before,
        }
    }
}

/// The supported ones among the first `n` automatic modes.
pub open spec fn supported_autos(topology: VcTopology, replies: Seq<AutoReplies>, n: int) -> Seq<
    (AutoToggle, AutoState),
>
    decreases n,
{
    if n <= 0 {
        Seq::empty()
    } else {
        let toggle = all_toggles()[n - 1];
        let before = supported_autos(topology, replies, n - 1);
        match auto_outcome(topology, toggle, replies[n - 1]) {
            Some(state) => before.push((toggle, state)),
            None => before,
        }
    }
}

/// The state is what the replies give: controls and modes that the camera refuses
/// are left out.
pub open spec fn is_state(state: CameraState, topology: VcTopology, replies: StateReplies) -> bool {
    &&& state.controls@ == supported_controls(topology, replies.controls@, 9)
    &&& state.autos@ == supported_autos(topology, replies.autos@, 3)
}

/// Every supported control and automatic mode of a camera.
pub fn read_camera_state(opened: Result<VcTopology, ControlError>, replies: &StateReplies) -> (out:
    Result<CameraState, ControlError>)
    requires
        replies.controls@.len() == 9,
        replies.autos@.len() == 3,
    ensures
        match opened {
            Ok(topology) => out matches Ok(state) && is_state(state, topology, *replies),
            Err(e) => out == Err::<CameraState, ControlError>(e),
        },
{
    let topology: VcTopology = match opened {
        Ok(topology) => topology,
        Err(e) => {
            return Err(e);
        },
    };
    let mut state: CameraState = CameraState::default();
    let controls: [CameraControl; 9] = CameraControl::ALL;
    assert(controls@ =~= all_controls());
    let mut i: usize = 0;
    while i < 9
        invariant
            i <= 9,
            replies.controls@.len() == 9,
            controls@ == all_controls(),
            state.autos@.len() == 0,
            state.controls@ == supported_controls(topology, replies.controls@, i as int),
        decreases 9 - i,
    {
        match range_read(&topology, controls[i], &replies.controls[i]) {
            Some(range) => {
                state.controls.push((controls[i], range));
            },
            None => {},
        }
        i = i + 1;
    }
    let toggles: [AutoToggle; 3] = AutoToggle::ALL;
    assert(toggles@ =~= all_toggles());
    let mut k: usize = 0;
    while k < 3
        invariant
            k <= 3,
            replies.autos@.len() == 3,
            toggles@ == all_toggles(),
            state.controls@ == supported_controls(topology, replies.controls@, 9),
            state.autos@ == supported_autos(topology, replies.autos@, k as int),
        decreases 3 - k,
    {
        match auto_read(&topology, toggles[k], &replies.autos[k]) {
            Some(auto_state) => {
                state.autos.push((toggles[k], auto_state));
            },
            None => {},
        }
        k = k + 1;
    }
    Ok(state)
}

/// Every supported control of a camera.
pub fn control_ranges(opened: Result<VcTopology, ControlError>, replies: &StateReplies) -> (out:
    Result<Vec<(CameraControl, ControlRange)>, ControlError>)
    requires
        replies.controls@.len() == 9,
        replies.autos@.len() == 3,
    ensures
        match opened {
            Ok(topology) => out matches Ok(controls) && controls@ == supported_controls(
                topology,
                replies.controls@,
                9,
            ),
            Err(e) => out == Err::<Vec<(CameraControl, ControlRange)>, ControlError>(e),
        },
{
    match read_camera_state(opened, replies) {
        Ok(state) => Ok(state.controls),
        Err(e) => Err(e),
    }
}

/// The outcome of writing a control: the error of opening the camera, or whether
/// the camera has the control and took the request.
pub fn set_control(
    opened: Result<VcTopology, ControlError>,
    control: CameraControl,
    accepted: bool,
) -> (out: Result<(), ControlError>)
    ensures
        match opened {
            Ok(topology) => out == if topology.entity_of(control.unit_of()) is Some && accepted {
                Ok::<(), ControlError>(())
            } else {
                Err(ControlError::Unsupported)
            },
            Err(e) => out == Err::<(), ControlError>(e),
        },
{
    match opened {
        Ok(topology) => match topology.entity(control.unit()) {
            Ok(_) => if accepted {
                Ok(())
            } else {
                Err(ControlError::Unsupported)
            },
            Err(e) => Err(e),
        },
        Err(e) => Err(e),
    }
}

/// The outcome of switching an automatic mode: `accepted` tells for each request
/// of [`VcTopology::set_auto_requests`] that was sent whether the camera took it.
/// One that was taken is enough.
pub fn set_auto(
    opened: Result<VcTopology, ControlError>,
    toggle: AutoToggle,
    accepted: &[bool],
) -> (out: Result<(), ControlError>)
    ensures
        match opened {
            Ok(topology) => out == if topology.entity_of(toggle.unit_of()) is Some
                && accepted@.contains(true) {
                Ok::<(), ControlError>(())
            } else {
                Err(ControlError::Unsupported)
            },
            Err(e) => out == Err::<(), ControlError>(e),
        },
{
    let topology: VcTopology = match opened {
        Ok(topology) => topology,
        Err(e) => {
            return Err(e);
        },
    };
    match topology.entity(toggle.unit()) {
        Ok(_) => {},
        Err(e) => {
            return Err(e);
        },
    }
    let n: usize = accepted.len();
    let mut i: usize = 0;
    while i < n
        invariant
            i <= n,
            n == accepted@.len(),
            opened == Ok::<VcTopology, ControlError>(topology),
            topology.entity_of(toggle.unit_of()) is Some,
            forall|k: int| 0 <= k < i ==> !#[trigger] accepted@[k],
        decreases n - i,
    {
        if accepted[i] {
            assert(accepted@[i as int]);
            assert(accepted@.contains(true));
            return Ok(());
        }
        i = i + 1;
    }
    Err(ControlError::Unsupported)
}

/// The outcome of a batch of writes: the error of opening the camera, or the
/// first failure among the writes, all of which were attempted.
pub fn apply_settings(
    opened: Result<VcTopology, ControlError>,
    outcomes: &[Result<(), ControlError>],
) -> (out: Result<(), ControlError>)
    ensures
        match opened {
            Ok(_) => out == first_failure(outcomes@),
            Err(e) => out == Err::<(), ControlError>(e),
        },
{
    match opened {
        Ok(_) => batch_outcome(outcomes),
        Err(e) => Err(e),
    }
}

} // verus!
