//! The application icon: one drawing in every size that macOS asks for.

use vstd::prelude::*;

verus! {

/// The icons of one application.
#[verifier::external_type_specification]
#[verifier::external_body]
pub struct ExIconFamily(icns::IconFamily);

/// A place in an icon file: the side of its icon in pixels and its four-letter
/// code.
#[derive(Debug, Clone, Copy)]
pub struct IconSlot {
    /// The side in pixels.
    pub side: u32,
    /// The code.
    pub code: [u8; 4],
}

/// The number of places that are filled.
pub const SLOTS: usize = 10;

/// The side, in pixels, of the icon in each place.
pub open spec fn side_of(slot: int) -> int {
    if slot == 0 {
        16
    } else if slot == 1 || slot == 2 {
        32
    } else if slot == 3 {
        64
    } else if slot == 4 {
        128
    } else if slot == 5 || slot == 6 {
        256
    } else if slot == 7 || slot == 8 {
        512
    } else {
        1024
    }
}

/// The code of each place: `icp4`, `ic11`, `icp5`, `ic12`, `ic07`, `ic13`, `ic08`,
/// `ic14`, `ic09` and `ic10`.
pub open spec fn code_of(slot: int) -> Seq<u8> {
    if slot == 0 {
        seq![0x69u8, 0x63u8, 0x70u8, 0x34u8]
    } else if slot == 1 {
        seq![0x69u8, 0x63u8, 0x31u8, 0x31u8]
    } else if slot == 2 {
        seq![0x69u8, 0x63u8, 0x70u8, 0x35u8]
    } else if slot == 3 {
        seq![0x69u8, 0x63u8, 0x31u8, 0x32u8]
    } else if slot == 4 {
        seq![0x69u8, 0x63u8, 0x30u8, 0x37u8]
    } else if slot == 5 {
        seq![0x69u8, 0x63u8, 0x31u8, 0x33u8]
    } else if slot == 6 {
        seq![0x69u8, 0x63u8, 0x30u8, 0x38u8]
    } else if slot == 7 {
        seq![0x69u8, 0x63u8, 0x31u8, 0x34u8]
    } else if slot == 8 {
        seq![0x69u8, 0x63u8, 0x30u8, 0x39u8]
    } else {
        seq![0x69u8, 0x63u8, 0x31u8, 0x30u8]
    }
}

/// `slot` is the place number `i`.
pub open spec fn is_slot(slot: IconSlot, i: int) -> bool {
    slot.side == side_of(i) && slot.code@ == code_of(i)
}

/// The number of bytes of an icon with four channels.
pub open spec fn pixel_bytes(side: int) -> int {
    4 * side * side
}

/// The place number `i`.
pub fn icon_slot(i: usize) -> (slot: IconSlot)
    requires
        i < SLOTS,
    ensures
        is_slot(slot, i as int),
{
    let slot: IconSlot = if i == 0 {
        IconSlot { side: 16, code: [0x69, 0x63, 0x70, 0x34] }
    } else if i == 1 {
        IconSlot { side: 32, code: [0x69, 0x63, 0x31, 0x31] }
    } else if i == 2 {
        IconSlot { side: 32, code: [0x69, 0x63, 0x70, 0x35] }
    } else if i == 3 {
        IconSlot { side: 64, code: [0x69, 0x63, 0x31, 0x32] }
    } else if i == 4 {
        IconSlot { side: 128, code: [0x69, 0x63, 0x30, 0x37] }
    } else if i == 5 {
        IconSlot { side: 256, code: [0x69, 0x63, 0x31, 0x33] }
    } else if i == 6 {
        IconSlot { side: 256, code: [0x69, 0x63, 0x30, 0x38] }
    } else if i == 7 {
        IconSlot { side: 512, code: [0x69, 0x63, 0x31, 0x34] }
    } else if i == 8 {
        IconSlot { side: 512, code: [0x69, 0x63, 0x30, 0x39] }
    } else {
        IconSlot { side: 1024, code: [0x69, 0x63, 0x31, 0x30] }
    };
    assert(slot.code@ =~= code_of(i as int));
    slot
}

/// Whether these bytes are a PNG drawing that can be decoded.
pub uninterp spec fn decodes(bytes: Seq<u8>) -> bool;

/// Whether these are RGBA pixels that decoding the drawing and resizing it to a square
/// of this side gives.
pub uninterp spec fn is_resized(drawing: Seq<u8>, side: int, pixels: Seq<u8>) -> bool;

/// What an icon family holds: the code and the pixels of each icon, in the order in
/// which they were added.
pub uninterp spec fn held(family: icns::IconFamily) -> Seq<(Seq<u8>, Seq<u8>)>;

/// The icon file with these icons.
pub uninterp spec fn icon_file(icons: Seq<(Seq<u8>, Seq<u8>)>) -> Seq<u8>;

/// `image::load_from_memory_with_format` decodes a PNG drawing, and
/// `DynamicImage::resize_exact` with the Lanczos filter resizes it; the pixels are
/// taken as RGBA bytes. There are pixels exactly for the bytes that can be decoded,
/// which depends on the bytes alone, and their number is that of the wanted square.
/// They come out of floating point whose precision differs between machines, so it is
/// only said that they belong to the drawing and the side, not that there is one such
/// result.
#[verifier::external_body]
fn resized(drawing: &[u8], side: u32) -> (pixels: Option<Vec<u8>>)
    requires
        0 < side <= 1024,
    ensures
        pixels is Some == decodes(drawing@),
        pixels matches Some(p) ==> is_resized(drawing@, side as int, p@) && p@.len() == pixel_bytes(
            side as int,
        ),
{
    let filter = image::imageops::FilterType::Lanczos3;
    match image::load_from_memory_with_format(drawing, image::ImageFormat::Png) {
        Ok(image) => Some(image.resize_exact(side, side, filter).to_rgba8().into_raw()),
        Err(_) => None,
    }
}

/// `IconFamily::new` gives a family without icons.
pub assume_specification[ icns::IconFamily::new ]() -> (family: icns::IconFamily)
    ensures
        held(family) == Seq::<(Seq<u8>, Seq<u8>)>::empty(),
;

/// `IconFamily::add_icon_with_type` adds an icon with four channels behind those
/// that the family holds. It refuses pixels whose number does not fit the place,
/// and the family is then as before. The types of the ten places carry no mask, so
/// that nothing else is added.
#[verifier::external_body]
fn add_icon(family: &mut icns::IconFamily, slot: IconSlot, pixels: Vec<u8>) -> (added: bool)
    requires
        exists|i: int| 0 <= i < SLOTS && #[trigger] is_slot(slot, i),
    ensures
        added == (pixels@.len() == pixel_bytes(slot.side as int)),
        held(*final(family)) == if added {
            held(*old(family)).push((slot.code@, pixels@))
        } else {
            held(*old(family))
        },
{
    let image = icns::Image::from_data(icns::PixelFormat::RGBA, slot.side, slot.side, pixels);
    match (icns::IconType::from_ostype(icns::OSType(slot.code)), image) {
        (Some(kind), Ok(icon)) => family.add_icon_with_type(&icon, kind).is_ok(),
        _ => false,
    }
}

/// `IconFamily::write` gives the file of what the family holds. It starts with the
/// four letters `icns`.
#[verifier::external_body]
fn written(family: &icns::IconFamily) -> (bytes: Vec<u8>)
    requires
        held(*family).len() <= SLOTS,
    ensures
        bytes@ == icon_file(held(*family)),
        bytes@.len() >= 8,
        bytes@[0] == 0x69,
        bytes@[1] == 0x63,
        bytes@[2] == 0x6e,
        bytes@[3] == 0x73,
{
    let mut bytes = Vec::new();
    let _ = family.write(&mut bytes);
    bytes
}

/// Every place has the pixels of one icon.
pub open spec fn fill_slots(pixels: Seq<Vec<u8>>) -> bool {
    &&& pixels.len() == SLOTS
    &&& forall|i: int|
        0 <= i < pixels.len() ==> (#[trigger] pixels[i])@.len() == pixel_bytes(side_of(i))
}

/// The icons with these pixels in the first `n` places.
pub open spec fn icons_of(pixels: Seq<Vec<u8>>, n: int) -> Seq<(Seq<u8>, Seq<u8>)> {
    Seq::new(n as nat, |i: int| (code_of(i), pixels[i]@))
}

/// The icon file with one icon in every place; nothing where an icon is missing or
/// has the wrong size.
pub fn write_icns(pixels: Vec<Vec<u8>>) -> (file: Option<Vec<u8>>)
    ensures
        file is Some == fill_slots(pixels@),
        file matches Some(bytes) ==> bytes@ == icon_file(icons_of(pixels@, SLOTS as int)) && (
        bytes@.len() >= 8 && bytes@[0] == 0x69 && bytes@[1] == 0x63 && bytes@[2] == 0x6e
            && bytes@[3] == 0x73),
{
    if pixels.len() != SLOTS {
        return None;
    }
    let mut family: icns::IconFamily = icns::IconFamily::new();
    let mut i: usize = 0;
    assert(held(family) =~= icons_of(pixels@, 0));
    while i < SLOTS
        invariant
            i <= SLOTS,
            pixels@.len() == SLOTS,
            held(family) == icons_of(pixels@, i as int),
            forall|j: int|
                0 <= j < i ==> (#[trigger] pixels@[j])@.len() == pixel_bytes(side_of(j)),
        decreases SLOTS - i,
    {
        let slot: IconSlot = icon_slot(i);
        assert(is_slot(slot, i as int));
        if !add_icon(&mut family, slot, pixels[i].clone()) {
            assert(pixels@[i as int]@.len() != pixel_bytes(side_of(i as int)));
            return None;
        }
        i = i + 1;
        assert(held(family) =~= icons_of(pixels@, i as int));
    }
    Some(written(&family))
}

/// Every place has the pixels of the drawing, resized for it.
pub open spec fn drawn_from(drawing: Seq<u8>, pixels: Seq<Vec<u8>>) -> bool {
    &&& fill_slots(pixels)
    &&& forall|i: int|
        0 <= i < SLOTS ==> is_resized(drawing, side_of(i), (#[trigger] pixels[i])@)
}

/// The application icon drawn from one drawing, which is resized for every place.
/// There is none for a drawing that cannot be decoded.
pub fn generate_macos_icns(drawing: &[u8]) -> (file: Option<Vec<u8>>)
    ensures
        file is Some == decodes(drawing@),
        file matches Some(bytes) ==> exists|pixels: Seq<Vec<u8>>| #[trigger]
            drawn_from(drawing@, pixels) && bytes@ == icon_file(icons_of(pixels, SLOTS as int)),
{
    let mut pixels: Vec<Vec<u8>> = Vec::new();
    let mut i: usize = 0;
    while i < SLOTS
        invariant
            i <= SLOTS,
            pixels@.len() == i,
            i > 0 ==> decodes(drawing@),
            forall|j: int|
                0 <= j < i ==> (#[trigger] pixels@[j])@.len() == pixel_bytes(side_of(j))
                    && is_resized(drawing@, side_of(j), pixels@[j]@),
        decreases SLOTS - i,
    {
        let slot: IconSlot = icon_slot(i);
        match resized(drawing, slot.side) {
            Some(icon) => {
                pixels.push(icon);
            },
            None => {
                return None;
            },
        }
        i = i + 1;
    }
    assert(drawn_from(drawing@, pixels@));
    write_icns(pixels)
}

} // verus!
