//! Laws of cameras: how they are recognised, previewed and captured, and what their pictures
//! show.

use vstd::prelude::*;
use vstd::string::*;

use crate::camera::{
    enumerate_all, enumerate_cameras, logitech_reports, marked_number, parse_device_path_ids,
    parse_vid_pid, usb_reports, Camera, RawCamera,
};
use crate::camera_preview::{
    active_camera_uid, build_image, swap_red_and_blue, CameraPreview, Picture, PreviewContent,
};
use crate::capture::{CameraAuthorization, CameraStream, Capture, CaptureError, Frame};
use crate::capture_windows::{
    access_or_setup, activate_source, best_frame_size, find_link, negotiated, open_reader,
    reader_turn, sample_frame, sample_row, sample_rows, start_stream, ReaderStep, SampleRead,
    SetupReport, StrideHint,
};
use crate::controls::{
    batch_outcome, settings_batch, AutoToggle, CameraControl, CameraState, ControlError,
    ControlRange, SettingWrite,
};
use crate::device::DeviceKind;
use crate::devices::DeviceRecord;
use crate::glow::{
    is_painted, load_glow_geometry, run_start, segments_paint_the_gaps, GlowGeometry, GlowMask,
};
use crate::icon::{icon_slot, write_icns, IconSlot};
use crate::text::{
    ascii_lower, decimal, digit_value, find_from, hex4, lemma_digits_value, lemma_find_from,
    occurs_at,
};
use crate::uvc_windows::{
    apply_settings, auto_write, control_range, control_write, find_source, has_auto,
    read_camera_state, set_auto, set_control, source_at, supported_controls, Prop, PropRange,
    PropReport, PropWrite, StateReports,
};

verus! {

// ── Recognising cameras ─────────────────────────────────────────────────────

/// A camera is recognised by the numbers in its model text, and shown with the name and the
/// id that were reported.
pub proof fn cameras_are_recognised_by_their_numbers(
    name: &str,
    id: &str,
    model: &str,
    ids: Option<(u16, u16)>,
    camera: Option<Camera>,
    path: &str,
    friendly: Option<&str>,
    path_numbers: Option<(u16, u16)>,
    found: Option<Camera>,
)
    requires
        call_ensures(parse_vid_pid, (model,), ids),
        call_ensures(Camera::from_raw, (name, id, model), camera),
        call_ensures(parse_device_path_ids, (path,), path_numbers),
        call_ensures(Camera::from_device_path, (path, friendly), found),
    ensures
        camera is Some <==> ids is Some,
        camera matches Some(c) ==> c.name@ == name@ && c.unique_id@ == id@ && (c.vendor_id,
            c.product_id) == ids->0 && c.max_resolution is None && c.max_fps is None,
        found is Some <==> path_numbers is Some,
        found matches Some(c) ==> c.unique_id@ == path@ && (c.vendor_id, c.product_id)
            == path_numbers->0,
        found matches Some(c) ==> (friendly matches Some(text) ==> c.name@ == text@),
        found matches Some(c) ==> friendly is None ==> c.name@ == "Camera"@,
{
}

/// `camera` is what was reported: its name, its id, and its best picture where one is known.
pub open spec fn is_reported(camera: Camera, raw: RawCamera) -> bool {
    &&& camera.name@ == raw.name@
    &&& camera.unique_id@ == raw.unique_id@
    &&& camera.max_resolution == if raw.max_width == 0 || raw.max_height == 0 {
        None
    } else {
        Some((raw.max_width, raw.max_height))
    }
    &&& camera.max_fps == if raw.max_fps == 0 {
        None
    } else {
        Some(raw.max_fps)
    }
}

proof fn lemma_filtered(raws: Seq<RawCamera>, kept: spec_fn(RawCamera) -> bool)
    ensures
        forall|k: int|
            0 <= k < raws.filter(kept).len() ==> raws.contains(#[trigger] raws.filter(kept)[k]),
        forall|i: int|
            0 <= i < raws.len() && kept(#[trigger] raws[i]) ==> raws.filter(kept).contains(raws[i]),
    decreases raws.len(),
{
    reveal(Seq::filter);
    if raws.len() > 0 {
        let front = raws.drop_last();
        lemma_filtered(front, kept);
        let less = front.filter(kept);
        let out = raws.filter(kept);
        assert forall|k: int| 0 <= k < out.len() implies raws.contains(#[trigger] out[k]) by {
            if k < less.len() {
                assert(out[k] == less[k]);
                assert(front.contains(less[k]));
                let i = choose|i: int| 0 <= i < front.len() && front[i] == less[k];
                assert(raws[i] == out[k]);
            } else {
                assert(raws[raws.len() - 1] == out[k]);
            }
        }
        assert forall|i: int| 0 <= i < raws.len() && kept(#[trigger] raws[i]) implies out.contains(
            raws[i],
        ) by {
            if i < front.len() {
                assert(front[i] == raws[i]);
                assert(less.contains(front[i]));
                let k = choose|k: int| 0 <= k < less.len() && less[k] == front[i];
                assert(out[k] == raws[i]);
            } else {
                assert(out[out.len() - 1] == raws[i]);
            }
        }
    }
}

/// Every camera whose model text gives the numbers of the vendor 0x046d is enumerated as it was
/// reported, and no camera of another vendor is.
pub proof fn cameras_of_the_vendor_are_enumerated(
    raws: &[RawCamera],
    cameras: Vec<Camera>,
    i: int,
    j: int,
    model: &str,
    ids: Option<(u16, u16)>,
)
    requires
        call_ensures(enumerate_cameras, (raws,), cameras),
        0 <= i < raws@.len(),
        model@ == raws@[i].model_id@,
        call_ensures(parse_vid_pid, (model,), ids),
    ensures
        ids matches Some(n) ==> n.0 == 0x046d ==> exists|k: int|
            0 <= k < cameras@.len() && is_reported(#[trigger] cameras@[k], raws@[i])
                && cameras@[k].vendor_id == 0x046d && cameras@[k].product_id == n.1,
        0 <= j < cameras@.len() ==> cameras@[j].vendor_id == 0x046d && exists|k: int|
            0 <= k < raws@.len() && is_reported(cameras@[j], #[trigger] raws@[k]),
{
    lemma_filtered(raws@, |raw: RawCamera| raw.is_logitech());
    let out = logitech_reports(raws@);
    if let Some(n) = ids {
        if n.0 == 0x046d {
            assert(raws@[i].is_logitech());
            let k = choose|k: int| 0 <= k < out.len() && out[k] == raws@[i];
            assert(out[k].gives(cameras@[k]));
        }
    }
    if 0 <= j < cameras@.len() {
        assert(out[j].gives(cameras@[j]));
        assert(raws@.contains(out[j]));
        let k = choose|k: int| 0 <= k < raws@.len() && raws@[k] == out[j];
        crate::camera::enumerated_cameras_are_logitech(raws@, cameras@, j);
        assert(is_reported(cameras@[j], raws@[k]));
    }
}

/// Every USB camera, of whatever vendor, is enumerated where all are asked for.
pub proof fn all_usb_cameras_are_enumerated(
    raws: &[RawCamera],
    cameras: Vec<Camera>,
    i: int,
    model: &str,
    ids: Option<(u16, u16)>,
)
    requires
        call_ensures(enumerate_all, (raws,), cameras),
        0 <= i < raws@.len(),
        model@ == raws@[i].model_id@,
        call_ensures(parse_vid_pid, (model,), ids),
    ensures
        ids matches Some(n) ==> exists|k: int|
            0 <= k < cameras@.len() && is_reported(#[trigger] cameras@[k], raws@[i])
                && cameras@[k].vendor_id == n.0 && cameras@[k].product_id == n.1,
{
    lemma_filtered(raws@, |raw: RawCamera| raw.is_usb());
    let out = usb_reports(raws@);
    if ids is Some {
        assert(raws@[i].is_usb());
        let k = choose|k: int| 0 <= k < out.len() && out[k] == raws@[i];
        assert(out[k].gives(cameras@[k]));
    }
}

proof fn lemma_after_marker(s: Seq<char>, marker: Seq<char>, a: Seq<char>, t: Seq<char>, n: int)
    requires
        s == a + marker + t,
        forall|j: int| 0 <= j < a.len() ==> !#[trigger] stands_at(s, marker, j),
        marker.len() > 0,
        0 <= n <= t.len(),
        forall|j: int| 0 <= j < n ==> t[j] != marker[0],
    ensures
        crate::camera::second_part(s, marker) is Some,
        n <= crate::camera::second_part(s, marker)->0.len() <= t.len(),
        crate::camera::second_part(s, marker)->0 == t.take(
            crate::camera::second_part(s, marker)->0.len() as int,
        ),
{
    lemma_find_from(s, marker, 0);
    let i = a.len() as int;
    assert(s.subrange(i, i + marker.len()) =~= marker);
    assert(occurs_at(s, marker, i));
    assert forall|j: int| 0 <= j < i implies !occurs_at(s, marker, j) by {
        assert(!stands_at(s, marker, j));
        if occurs_at(s, marker, j) {
            let here = s.subrange(j, j + marker.len());
            assert forall|k: int| 0 <= k < marker.len() implies s[j + k]
                == #[trigger] marker[k] by {
                assert(here[k] == s[j + k]);
            }
        }
    }
    let found = find_from(s, marker, 0)->0;
    assert(found == i) by {
        if found < i {
            assert(!occurs_at(s, marker, found));
        }
    }
    assert(s.skip(i + marker.len()) =~= t);
    lemma_find_from(t, marker, 0);
    if let Some(k) = find_from(t, marker, 0) {
        if k < n {
            assert(t.subrange(k, k + marker.len())[0] == t[k]);
        }
    } else {
        assert(t.take(t.len() as int) =~= t);
    }
}

proof fn lemma_digit_run(d: Seq<char>, r: Seq<char>)
    requires
        forall|i: int| 0 <= i < d.len() ==> '0' <= #[trigger] d[i] <= '9',
        r.len() == 0 || !('0' <= r[0] <= '9'),
    ensures
        crate::camera::digit_run(d + r) == d.len(),
    decreases d.len(),
{
    let s = d + r;
    if d.len() > 0 {
        assert('0' <= d[0] <= '9');
        assert(s[0] == d[0]);
        let e = d.skip(1);
        assert(forall|i: int| 0 <= i < e.len() ==> e[i] == d[i + 1]);
        lemma_digit_run(e, r);
        assert(s.skip(1) =~= e + r);
    } else if r.len() > 0 {
        assert(s[0] == r[0]);
    }
}

proof fn lemma_decimal_figures(n: nat)
    ensures
        decimal(n).len() > 0,
        forall|i: int| 0 <= i < decimal(n).len() ==> '0' <= #[trigger] decimal(n)[i] <= '9',
{
    lemma_digits_value(n, 10);
    assert forall|i: int| 0 <= i < decimal(n).len() implies '0' <= #[trigger] decimal(n)[i]
        <= '9' by {
        assert(0 <= digit_value(decimal(n)[i]) < 10);
    }
}

proof fn lemma_marked(s: Seq<char>, marker: Seq<char>, a: Seq<char>, n: u16, rest: Seq<char>)
    requires
        s == a + marker + (decimal(n as nat) + rest),
        forall|j: int| 0 <= j < a.len() ==> !#[trigger] stands_at(s, marker, j),
        marker.len() > 0,
        !('0' <= marker[0] <= '9'),
        rest.len() == 0 || !('0' <= rest[0] <= '9'),
    ensures
        marked_number(s, marker) == Some(n as int),
{
    let d = decimal(n as nat);
    let t = d + rest;
    lemma_decimal_figures(n as nat);
    assert forall|j: int| 0 <= j < d.len() implies t[j] != marker[0] by {
        assert(t[j] == d[j]);
    }
    lemma_after_marker(s, marker, a, t, d.len() as int);
    let part = crate::camera::second_part(s, marker)->0;
    let more = part.skip(d.len() as int);
    assert(part =~= d + more);
    if more.len() > 0 {
        assert(more[0] == rest[0]);
    }
    lemma_digit_run(d, more);
    assert(crate::camera::leading_digits(part) =~= d);
    lemma_digits_value(n as nat, 10);
    assert(d[0] != '+');
}

/// `part` stands in `s` from position `i` on.
pub open spec fn stands_at(s: Seq<char>, part: Seq<char>, i: int) -> bool {
    0 <= i && i + part.len() <= s.len() && forall|k: int|
        0 <= k < part.len() ==> s[i + k] == #[trigger] part[k]
}

/// The numbers in a model text are those behind the words for the vendor and the product,
/// wherever the words first stand.
pub proof fn model_texts_give_their_numbers(
    model: &str,
    vendor: u16,
    product: u16,
    before_vendor: Seq<char>,
    behind_vendor: Seq<char>,
    before_product: Seq<char>,
    behind_product: Seq<char>,
    ids: Option<(u16, u16)>,
)
    requires
        call_ensures(parse_vid_pid, (model,), ids),
        model@ == before_vendor + "VendorID_"@ + (decimal(vendor as nat) + behind_vendor),
        model@ == before_product + "ProductID_"@ + (decimal(product as nat) + behind_product),
        behind_vendor.len() == 0 || !('0' <= behind_vendor[0] <= '9'),
        behind_product.len() == 0 || !('0' <= behind_product[0] <= '9'),
        forall|j: int|
            0 <= j < before_vendor.len() ==> !#[trigger] stands_at(model@, "VendorID_"@, j),
        forall|j: int|
            0 <= j < before_product.len() ==> !#[trigger] stands_at(model@, "ProductID_"@, j),
    ensures
        ids == Some((vendor, product)),
{
    reveal_strlit("VendorID_");
    reveal_strlit("ProductID_");
    lemma_marked(model@, "VendorID_"@, before_vendor, vendor, behind_vendor);
    lemma_marked(model@, "ProductID_"@, before_product, product, behind_product);
}

/// The numbers in a device path are the four digits behind `vid_` and `pid_`, in whatever
/// case, wherever those first stand.
pub proof fn device_paths_give_their_numbers(
    path: &str,
    vendor: u16,
    product: u16,
    before_vendor: Seq<char>,
    behind_vendor: Seq<char>,
    before_product: Seq<char>,
    behind_product: Seq<char>,
    ids: Option<(u16, u16)>,
)
    requires
        call_ensures(parse_device_path_ids, (path,), ids),
        ascii_lower(path@) == before_vendor + "vid_"@ + (hex4(vendor as nat) + behind_vendor),
        ascii_lower(path@) == before_product + "pid_"@ + (hex4(product as nat) + behind_product),
        forall|j: int|
            0 <= j < before_vendor.len() ==> !#[trigger] stands_at(
                ascii_lower(path@),
                "vid_"@,
                j,
            ),
        forall|j: int|
            0 <= j < before_product.len() ==> !#[trigger] stands_at(
                ascii_lower(path@),
                "pid_"@,
                j,
            ),
    ensures
        ids == Some((vendor, product)),
{
    reveal_strlit("vid_");
    reveal_strlit("pid_");
    lemma_marked_hex(ascii_lower(path@), "vid_"@, before_vendor, vendor, behind_vendor);
    lemma_marked_hex(ascii_lower(path@), "pid_"@, before_product, product, behind_product);
}

proof fn lemma_marked_hex(s: Seq<char>, marker: Seq<char>, a: Seq<char>, n: u16, rest: Seq<char>)
    requires
        s == a + marker + (hex4(n as nat) + rest),
        forall|j: int| 0 <= j < a.len() ==> !#[trigger] stands_at(s, marker, j),
        marker.len() > 0,
        digit_value(marker[0]) < 0,
    ensures
        crate::camera::marked_hex(s, marker) == Some(n as int),
{
    let d = hex4(n as nat);
    let t = d + rest;
    lemma_digits_value(n as nat, 16);
    crate::text::lemma_hex4_len(n as nat);
    crate::text::lemma_zero_padded(crate::text::hex(n as nat), 4, 16);
    assert forall|j: int| 0 <= j < d.len() implies t[j] != marker[0] by {
        assert(t[j] == d[j]);
        assert(0 <= digit_value(d[j]) < 16);
    }
    lemma_after_marker(s, marker, a, t, 4);
    let part = crate::camera::second_part(s, marker)->0;
    assert(part.take(4) =~= d);
    assert(0 <= digit_value(d[0]) < 16);
    assert(d[0] != '+');
}

// ── The preview ─────────────────────────────────────────────────────────────

/// The previewed camera is the one of the record, by the id in its key; no other device has a
/// preview.
pub proof fn previews_follow_the_record(
    record: DeviceRecord,
    id: Seq<char>,
    uid: Option<String>,
    none: Option<String>,
)
    requires
        record.config_key@ == "camera-"@ + id,
        call_ensures(active_camera_uid, (Some(&record),), uid),
        call_ensures(active_camera_uid, (None,), none),
    ensures
        record.kind == DeviceKind::Camera ==> (uid matches Some(text) && text@ == id),
        record.kind != DeviceKind::Camera ==> uid is None,
        none is None,
{
    reveal_strlit("camera-");
    assert(record.config_key@.subrange(0, 7) =~= "camera-"@);
    assert(record.config_key@.skip(7) =~= id);
}

/// Turning red and blue round keeps every pixel's green and alpha, and is undone by itself.
pub proof fn red_and_blue_change_places(rgba: &[u8], bgra: Vec<u8>, pixel: int)
    requires
        call_ensures(swap_red_and_blue, (rgba,), bgra),
        0 <= pixel,
        4 * pixel + 4 <= rgba@.len(),
    ensures
        bgra@.len() == rgba@.len(),
        bgra@[4 * pixel] == rgba@[4 * pixel + 2],
        bgra@[4 * pixel + 1] == rgba@[4 * pixel + 1],
        bgra@[4 * pixel + 2] == rgba@[4 * pixel],
        bgra@[4 * pixel + 3] == rgba@[4 * pixel + 3],
{
    assert((4 * pixel) / 4 == pixel && (4 * pixel) % 4 == 0);
    assert((4 * pixel + 1) / 4 == pixel && (4 * pixel + 1) % 4 == 1);
    assert((4 * pixel + 2) / 4 == pixel && (4 * pixel + 2) % 4 == 2);
    assert((4 * pixel + 3) / 4 == pixel && (4 * pixel + 3) % 4 == 3);
}

/// A picture is made of enough bytes only, with the size that was given and red and blue
/// turned round.
pub proof fn pictures_need_enough_bytes(
    width: u32,
    height: u32,
    rgba: &[u8],
    picture: Option<Picture>,
    turned: Vec<u8>,
)
    requires
        call_ensures(build_image, (width, height, rgba), picture),
        call_ensures(swap_red_and_blue, (rgba,), turned),
        4 * width <= usize::MAX,
    ensures
        picture is Some <==> rgba@.len() >= 4 * width * height,
        picture matches Some(p) ==> p.width == width && p.height == height && p.bgra@ == turned@,
{
}

/// The preview follows the current record: a camera that is already shown goes on, another
/// one is started where access was granted, and without a camera nothing is.
pub proof fn the_preview_follows_the_selection(
    preview: &mut CameraPreview,
    record: Option<&DeviceRecord>,
    granted: bool,
    start: Option<String>,
    wanted: Option<String>,
)
    requires
        call_ensures(CameraPreview::sync_stream, (preview, record, granted), start),
        call_ensures(active_camera_uid, (record,), wanted),
    ensures
        final(preview).streaming_uid is Some <==> wanted is Some,
        wanted matches Some(uid) ==> final(preview).streaming_uid->0@ == uid@,
        start matches Some(uid) ==> granted && wanted is Some && uid@ == wanted->0@,
        wanted is Some && old(preview).streaming_uid is Some && wanted->0@
            == old(preview).streaming_uid->0@ ==> start is None && *final(preview) == *old(preview),
        wanted is Some && granted && (old(preview).streaming_uid is None
            || wanted->0@ != old(preview).streaming_uid->0@) ==> start is Some
                && !final(preview).streaming
            && final(preview).last_generation == 0,
        wanted is None && old(preview).streaming_uid is Some ==> !final(preview).streaming,
        final(preview).current_image == old(preview).current_image,
{
}

/// A new picture replaces the shown one once, and a stream that is over shows nothing.
pub proof fn new_pictures_replace_old_ones(
    preview: &mut CameraPreview,
    generation: u64,
    picture: Option<Picture>,
    dropped: Option<Picture>,
    starting: &mut CameraPreview,
    opened: bool,
)
    requires
        call_ensures(CameraPreview::refresh, (preview, generation, picture), dropped),
        call_ensures(CameraPreview::stream_started, (starting, opened), ()),
    ensures
        !old(preview).streaming ==> final(preview).current_image is None && dropped
            == old(preview).current_image,
        old(preview).streaming && generation == old(preview).last_generation ==> *final(preview)
            == *old(preview) && dropped is None,
        old(preview).streaming && generation != old(preview).last_generation && picture is Some ==>
            final(preview).current_image == picture && final(preview).last_generation == generation
            && dropped == old(preview).current_image,
        old(preview).streaming && picture is None ==> final(preview).current_image
            == old(preview).current_image && final(preview).last_generation
                == old(preview).last_generation,
        final(starting).streaming == opened,
        final(starting).streaming_uid == old(starting).streaming_uid,
{
}

/// The preview shows its picture, or says that it starts, or that access is missing.
pub proof fn previews_say_what_is_missing(
    preview: CameraPreview,
    granted: bool,
    content: PreviewContent,
    note: Option<&'static str>,
)
    requires
        call_ensures(CameraPreview::content, (&preview, granted), content),
        call_ensures(PreviewContent::note, (content,), note),
    ensures
        preview.current_image is Some <==> note is None,
        preview.current_image is Some ==> content is Picture,
        preview.current_image is None && granted ==> (note matches Some(text) && text@
            == "Starting preview…"@),
        preview.current_image is None && !granted ==> (note matches Some(text) && text@
            == "Enable Camera access in Settings to preview."@),
{
}

// ── Capturing on Windows ────────────────────────────────────────────────────

/// The width of a packed size is its upper half, the height its lower half.
pub open spec fn packs(size: u64, width: int, height: int) -> bool {
    0 <= height < 0x1_0000_0000 && size == width * 0x1_0000_0000 + height
}

/// The distance of a width from 1280.
pub open spec fn off_target(width: int) -> int {
    if width >= 1280 {
        width - 1280
    } else {
        1280 - width
    }
}

proof fn lemma_packs(size: u64, width: int, height: int)
    requires
        packs(size, width, height),
    ensures
        crate::capture_windows::width_of(size) == width,
        crate::capture_windows::height_of(size) == height,
{
    assert(size as int / 0x1_0000_0000 == width && size as int % 0x1_0000_0000 == height)
        by (nonlinear_arith)
        requires
            size == width * 0x1_0000_0000 + height,
            0 <= height < 0x1_0000_0000,
    ;
}

/// The format that is asked for is one that the camera offers, and no offered one is closer
/// to 1280 pixels.
pub proof fn the_closest_width_is_chosen(
    sizes: &[Option<u64>],
    best: Option<u64>,
    i: int,
    w: int,
    h: int,
    width: int,
    height: int,
)
    requires
        call_ensures(best_frame_size, (sizes,), best),
        0 <= i < sizes@.len(),
        sizes@[i] matches Some(size) ==> packs(size, w, h),
        best matches Some(size) ==> packs(size, width, height),
    ensures
        sizes@[i] is Some ==> best is Some,
        best is Some ==> sizes@.contains(best),
        sizes@[i] is Some ==> off_target(width) <= off_target(w),
{
    if let Some(size) = sizes@[i] {
        lemma_packs(size, w, h);
        assert(sizes@[i] is Some);
    }
    if let Some(size) = best {
        lemma_packs(size, width, height);
        let k = choose|k: int|
            0 <= k < sizes@.len() && #[trigger] sizes@[k] == Some(size)
                && crate::capture_windows::is_closest(sizes@, k);
        assert(sizes@[i] is Some ==> crate::capture_windows::width_gap(size)
            <= crate::capture_windows::width_gap(sizes@[i]->0));
    }
}

/// The rows of a sample lie as far apart as the camera says, upside down where the distance
/// is negative; where it says nothing they are packed.
pub proof fn rows_lie_as_the_camera_says(
    size: u64,
    stride: Option<u32>,
    hint: StrideHint,
    width: int,
    height: int,
)
    requires
        packs(size, width, height),
        call_ensures(negotiated, (size, stride), hint),
    ensures
        hint.width == width,
        hint.height == height,
        stride is None ==> hint.stride == 4 * width,
        stride matches Some(s) ==> (s < 0x8000_0000 ==> hint.stride == s) && (s >= 0x8000_0000 ==>
            hint.stride == s - 0x1_0000_0000),
{
    lemma_packs(size, width, height);
}

proof fn lemma_sample_rows(data: Seq<u8>, hint: StrideHint, n: int, y: int, b: int)
    requires
        0 <= n <= hint.height,
        crate::capture_windows::fits(data.len() as int, hint),
    ensures
        sample_rows(data, hint, n).len() == n * (4 * hint.width),
        0 <= y < n && 0 <= b < 4 * hint.width ==> {
            &&& 0 <= y * (4 * hint.width) + b < n * (4 * hint.width)
            &&& sample_rows(data, hint, n)[y * (4 * hint.width) + b] == sample_row(data, hint, y)[b]
        },
    decreases n,
{
    let wide = 4 * hint.width;
    if n > 0 {
        lemma_sample_rows(data, hint, n - 1, y, b);
        let last = n - 1;
        let source = if hint.stride < 0 {
            hint.height - 1 - last
        } else {
            last
        };
        let apart = crate::capture_windows::row_distance(hint);
        assert(0 <= source * apart && source * apart <= (hint.height - 1) * apart)
            by (nonlinear_arith)
            requires
                0 <= source <= hint.height - 1,
                apart >= 0,
        ;
        assert(apart * (hint.height - 1) == (hint.height - 1) * apart) by (nonlinear_arith);
        assert(sample_row(data, hint, last).len() == wide);
        assert((n - 1) * wide + wide == n * wide) by (nonlinear_arith);
        if 0 <= y < n && 0 <= b < wide {
            assert(0 <= y * wide + b < n * wide && (y < n - 1 ==> y * wide + b < (n - 1) * wide)
                && (y == n - 1 ==> y * wide + b == (n - 1) * wide + b)) by (nonlinear_arith)
                requires
                    0 <= y < n,
                    0 <= b < wide,
            ;
        }
    } else {
        assert(n * wide == 0) by (nonlinear_arith)
            requires
                n == 0,
        ;
    }
}

/// A frame shows every row of its sample once: in order where the rows go down, and in
/// reverse where they go up. Only a sample that holds all its rows gives a frame.
pub proof fn frames_show_every_row(
    data: &[u8],
    hint: StrideHint,
    frame: Option<Frame>,
    y: int,
    b: int,
)
    requires
        call_ensures(sample_frame, (data, hint), frame),
        0 <= y < hint.height,
        0 <= b < 4 * hint.width,
    ensures
        ({
            let apart = if hint.stride < 0 {
                -hint.stride
            } else {
                hint.stride as int
            };
            let row = if hint.stride < 0 {
                hint.height - 1 - y
            } else {
                y
            };
            &&& frame is Some <==> hint.width > 0 && hint.height > 0 && apart * (hint.height - 1)
                + 4 * hint.width <= data@.len()
            &&& frame matches Some(f) ==> f.width == hint.width && f.height == hint.height
                && f.bgra@.len() == hint.height * (4 * hint.width) && f.bgra@[y * (4 * hint.width)
                + b] == data@[row * apart + b]
        }),
{
    if frame is Some {
        lemma_sample_rows(data@, hint, hint.height as int, y, b);
        let apart = crate::capture_windows::row_distance(hint);
        let row = if hint.stride < 0 {
            hint.height - 1 - y
        } else {
            y
        };
        assert(0 <= row * apart && row * apart <= (hint.height - 1) * apart) by (nonlinear_arith)
            requires
                0 <= row <= hint.height - 1,
                apart >= 0,
        ;
        assert(apart * (hint.height - 1) == (hint.height - 1) * apart) by (nonlinear_arith);
    }
}

/// A camera is found by its id in whatever case it is written: the first of them, or none.
pub proof fn cameras_are_found_in_any_case(
    links: &[Option<String>],
    id: &str,
    out: Result<usize, CaptureError>,
    j: int,
)
    requires
        call_ensures(find_link, (links, id), out),
    ensures
        out matches Ok(i) ==> i < links@.len() && links@[i as int] is Some && ascii_lower(
            links@[i as int]->0@,
        ) == ascii_lower(id@),
        0 <= j < links@.len() && links@[j] is Some && ascii_lower(links@[j]->0@) == ascii_lower(id@)
            ==> (out matches Ok(i) && i <= j),
        out is Err ==> out == Err::<usize, CaptureError>(CaptureError::NotFound),
{
    if 0 <= j < links@.len() && links@[j] is Some && ascii_lower(links@[j]->0@) == ascii_lower(
        id@,
    ) {
        assert(crate::capture_windows::link_matches(links@[j], id@));
        if out is Err {
            assert(crate::capture_windows::lacks_link(links@, id@));
        }
    }
}

/// A refusal by the system is told as one, and every other failure with its text.
pub proof fn refusals_are_told_as_such(
    code: i32,
    text: String,
    e: CaptureError,
    links: &[Option<String>],
    id: &str,
    found: Result<usize, CaptureError>,
    activated: Result<usize, CaptureError>,
    failed: Result<usize, CaptureError>,
)
    requires
        call_ensures(access_or_setup, (code, text), e),
        call_ensures(find_link, (links, id), found),
        call_ensures(activate_source, (links, id, Ok(())), activated),
        call_ensures(activate_source, (links, id, Err((code, text))), failed),
    ensures
        code == -2147024891 ==> e == CaptureError::AccessDenied,
        code != -2147024891 ==> e == CaptureError::Setup(text),
        found is Ok ==> activated == found,
        found is Err ==> activated == Err::<usize, CaptureError>(CaptureError::NotFound)
            && failed == Err::<usize, CaptureError>(CaptureError::NotFound),
        found is Ok ==> failed == Err::<usize, CaptureError>(e),
{
    if let Ok(i) = found {
        assert(crate::capture_windows::is_first_link(links@, id@, i as int));
        if let Ok(k) = activated {
            assert(crate::capture_windows::is_first_link(links@, id@, k as int));
            if i < k {
                assert(!crate::capture_windows::link_matches(links@[i as int], id@));
            }
            if k < i {
                assert(!crate::capture_windows::link_matches(links@[k as int], id@));
            }
        }
    }
}

/// The step with this outcome is followed by `next`.
pub open spec fn reads_on(step: ReaderStep, has_size: bool, next: ReaderStep) -> bool {
    call_ensures(
        open_reader,
        (step, Ok::<(), (i32, String)>(()), has_size),
        Ok::<ReaderStep, CaptureError>(next),
    )
}

/// A reader is set up step by step: it processes video before it is made, its type is
/// complete before it is set, and what was agreed on is read last.
pub proof fn readers_are_set_up_in_order(steps: Seq<ReaderStep>, has_size: bool)
    requires
        steps.len() == if has_size {
            11int
        } else {
            10
        },
        steps[0] == ReaderStep::Attributes,
        reads_on(steps[0], has_size, steps[1]),
        reads_on(steps[1], has_size, steps[2]),
        reads_on(steps[2], has_size, steps[3]),
        reads_on(steps[3], has_size, steps[4]),
        reads_on(steps[4], has_size, steps[5]),
        reads_on(steps[5], has_size, steps[6]),
        reads_on(steps[6], has_size, steps[7]),
        reads_on(steps[7], has_size, steps[8]),
        reads_on(steps[8], has_size, steps[9]),
        has_size ==> reads_on(steps[9], has_size, steps[10]),
    ensures
        steps[1] == ReaderStep::EnableProcessing,
        steps[2] == ReaderStep::Reader,
        steps[3] == ReaderStep::OutputType,
        steps[4] == ReaderStep::MajorType,
        steps[5] == ReaderStep::Subtype,
        has_size ==> steps[6] == ReaderStep::FrameSize && steps[7] == ReaderStep::SetType
            && steps[8] == ReaderStep::CurrentType && steps[9] == ReaderStep::CurrentSize
            && steps[10] == ReaderStep::Ready,
        !has_size ==> steps[6] == ReaderStep::SetType && steps[7] == ReaderStep::CurrentType
            && steps[8] == ReaderStep::CurrentSize && steps[9] == ReaderStep::Ready,
{
}

/// A reader that cannot be set up fails with the text of the step; only making the reader can
/// be a refusal.
pub proof fn failed_readers_say_why(
    step: ReaderStep,
    code: i32,
    text: String,
    has_size: bool,
    out: Result<ReaderStep, CaptureError>,
)
    requires
        call_ensures(open_reader, (step, Err((code, text)), has_size), out),
    ensures
        step is Reader && code == -2147024891 ==> out == Err::<ReaderStep, CaptureError>(
            CaptureError::AccessDenied,
        ),
        !(step is Reader) || code != -2147024891 ==> out == Err::<ReaderStep, CaptureError>(
            CaptureError::Setup(text),
        ),
{
}

/// A turn of the reader delivers what it read, and goes on until it is stopped or fails.
pub proof fn reading_goes_on_until_it_is_stopped(
    stream: &mut CameraStream,
    read: SampleRead,
    hint: StrideHint,
    stop: bool,
    go_on: bool,
    frame: Option<Frame>,
    data: &[u8],
)
    requires
        call_ensures(reader_turn, (stream, &read, hint, stop), go_on),
        read matches SampleRead::Bytes(bytes) ==> data@ == bytes@ && call_ensures(
            sample_frame,
            (data, hint),
            frame,
        ),
    ensures
        go_on <==> !stop && !(read is Failed),
        stop || !(read is Bytes) || frame is None ==> *final(stream) == *old(stream) || read
            is Bytes && !stop && frame is Some,
        read is Bytes && !stop && frame is Some ==> {
            &&& final(stream).waiting() matches Some(f)
            &&& f.width == frame->0.width
            &&& f.height == frame->0.height
            &&& f.bgra@ == frame->0.bgra@
            &&& final(stream).delivered() == (old(stream).delivered() + 1)
                % 0x1_0000_0000_0000_0000
        },
{
}

/// A stream starts when its setup says so; silence is a timeout.
pub proof fn streams_start_when_set_up(
    report: SetupReport,
    out: Result<(), CaptureError>,
    allowed: CameraAuthorization,
    granted: bool,
    started: Result<(), CaptureError>,
    frame: Option<Frame>,
    time_is_up: bool,
    polled: Capture,
)
    requires
        call_ensures(start_stream, (report,), out),
        call_ensures(crate::capture_windows::camera_authorization, (), allowed),
        call_ensures(crate::capture_windows::camera_access_granted, (), granted),
        call_ensures(
            crate::capture_windows::capture_frame,
            (started, frame, time_is_up),
            polled,
        ),
    ensures
        out is Ok <==> report is Ready,
        report is Silent ==> out == Err::<(), CaptureError>(CaptureError::Timeout),
        report matches SetupReport::NotStarted(text) ==> out == Err::<(), CaptureError>(
            CaptureError::Setup(text),
        ),
        report matches SetupReport::Failed(e) ==> out == Err::<(), CaptureError>(e),
        allowed == CameraAuthorization::Granted && granted,
        started matches Err(e) ==> polled == Capture::Done(Err(e)),
        started is Ok && frame is Some ==> polled == Capture::Done(Ok(frame->0)),
        started is Ok && frame is None && time_is_up ==> polled == Capture::Done(
            Err(CaptureError::Timeout),
        ),
        polled is Wait <==> started is Ok && frame is None && !time_is_up,
{
}

// ── Controls on Windows ─────────────────────────────────────────────────────

/// Every control is set through the property that the system defines for it, by hand.
pub proof fn controls_are_set_through_their_property(
    control: CameraControl,
    value: i32,
    write: PropWrite,
    prop: Prop,
)
    requires
        call_ensures(control_write, (control, value), write),
        call_ensures(CameraControl::prop, (control,), prop),
    ensures
        write.prop == prop,
        write.value == value,
        write.flags == 2,
        control == CameraControl::Zoom ==> prop == Prop::CameraControl(3),
        control == CameraControl::Exposure ==> prop == Prop::CameraControl(4),
        control == CameraControl::Focus ==> prop == Prop::CameraControl(6),
        control == CameraControl::Brightness ==> prop == Prop::VideoProcAmp(0),
        control == CameraControl::Contrast ==> prop == Prop::VideoProcAmp(1),
        control == CameraControl::Tint ==> prop == Prop::VideoProcAmp(2),
        control == CameraControl::Saturation ==> prop == Prop::VideoProcAmp(3),
        control == CameraControl::Sharpness ==> prop == Prop::VideoProcAmp(4),
        control == CameraControl::WhiteBalance ==> prop == Prop::VideoProcAmp(6),
{
}

/// An automatic mode is switched on the property of its control, keeping the value that is in
/// force.
pub proof fn modes_are_switched_on_their_property(
    toggle: AutoToggle,
    on: bool,
    present: Option<i32>,
    write: PropWrite,
    prop: Prop,
    flags: i32,
    can: bool,
)
    requires
        call_ensures(auto_write, (toggle, on, present), write),
        call_ensures(AutoToggle::prop, (toggle,), prop),
        call_ensures(has_auto, (flags,), can),
    ensures
        write.prop == prop,
        write.flags == if on {
            1i32
        } else {
            2
        },
        present matches Some(v) ==> write.value == v,
        present is None ==> write.value == 0,
        toggle == AutoToggle::Focus ==> prop == Prop::CameraControl(6),
        toggle == AutoToggle::Exposure ==> prop == Prop::CameraControl(4),
        toggle == AutoToggle::WhiteBalance ==> prop == Prop::VideoProcAmp(6),
        can <==> flags as int % 2 == 1,
{
}

/// The range of a control is what the system reports, with its default in force where the
/// present value cannot be told; a control without a range is unsupported.
pub proof fn ranges_are_as_reported(
    opened: Result<PropReport, ControlError>,
    out: Result<ControlRange, ControlError>,
)
    requires
        call_ensures(control_range, (opened,), out),
    ensures
        opened matches Err(e) ==> out == Err::<ControlRange, ControlError>(e),
        opened matches Ok(report) ==> report.range is None ==> out == Err::<
            ControlRange,
            ControlError,
        >(ControlError::Unsupported),
        opened matches Ok(report) ==> (report.range matches Some(r) ==> (out matches Ok(range)
            && range.min == r.min && range.max == r.max && range.default == r.default
            && range.current == match report.present {
            Some(p) => p.0,
            None => r.default,
        })),
{
}

proof fn lemma_listed_control(reports: Seq<PropReport>, n: int, i: int)
    requires
        0 <= i < n <= 9,
        reports[i].range is Some,
    ensures
        exists|k: int|
            0 <= k < supported_controls(reports, n).len() && (
            #[trigger] supported_controls(reports, n)[k]).0 == crate::controls::all_controls()[i]
                && supported_controls(reports, n)[k].1.min == reports[i].range->0.min
                && supported_controls(reports, n)[k].1.max == reports[i].range->0.max,
    decreases n,
{
    let all = supported_controls(reports, n);
    if i == n - 1 {
        assert(all[all.len() - 1].0 == crate::controls::all_controls()[i]);
    } else {
        lemma_listed_control(reports, n - 1, i);
        let less = supported_controls(reports, n - 1);
        let k = choose|k: int|
            0 <= k < less.len() && (#[trigger] less[k]).0 == crate::controls::all_controls()[i]
                && less[k].1.min == reports[i].range->0.min && less[k].1.max
                == reports[i].range->0.max;
        assert(all[k] == less[k]);
    }
}

/// Every control with a range is listed with it; the reports come in the order zoom, focus,
/// exposure, brightness, contrast, saturation, sharpness, white balance, tint.
pub proof fn reported_controls_are_listed(
    reports: StateReports,
    out: Result<CameraState, ControlError>,
    i: int,
    control: CameraControl,
)
    requires
        reports.controls@.len() == 9,
        reports.autos@.len() == 3,
        call_ensures(read_camera_state, (Ok(&reports),), out),
        0 <= i < 9,
        crate::uvc_laws::reads_at(i, control),
        reports.controls@[i].range is Some,
    ensures
        out matches Ok(state) && exists|k: int|
            0 <= k < state.controls@.len() && (#[trigger] state.controls@[k]).0 == control
                && state.controls@[k].1.min == reports.controls@[i].range->0.min
                && state.controls@[k].1.max == reports.controls@[i].range->0.max,
{
    lemma_listed_control(reports.controls@, 9, i);
}

/// Writing succeeds when the system says so, and an unknown property is unsupported.
pub proof fn writes_end_as_the_system_says(
    opened: Result<bool, ControlError>,
    value: Result<(), ControlError>,
    mode: Result<(), ControlError>,
)
    requires
        call_ensures(set_control, (opened,), value),
        call_ensures(set_auto, (opened,), mode),
    ensures
        value == mode,
        value is Ok <==> opened == Ok::<bool, ControlError>(true),
        opened == Ok::<bool, ControlError>(false) ==> value == Err::<(), ControlError>(
            ControlError::Unsupported,
        ),
        opened matches Err(e) ==> value == Err::<(), ControlError>(e),
{
}

/// A batch reports the first failure, and succeeds where nothing failed.
pub proof fn batches_report_what_failed_first(
    outcomes: &[Result<(), ControlError>],
    out: Result<(), ControlError>,
    applied: Result<(), ControlError>,
    i: int,
)
    requires
        call_ensures(batch_outcome, (outcomes,), out),
        call_ensures(apply_settings, (Ok(outcomes),), applied),
        0 <= i <= outcomes@.len(),
        forall|k: int| 0 <= k < i ==> #[trigger] outcomes@[k] is Ok,
        i < outcomes@.len() ==> outcomes@[i] is Err,
    ensures
        i < outcomes@.len() ==> out == outcomes@[i],
        i == outcomes@.len() ==> out is Ok,
        applied == out,
{
    if i < outcomes@.len() {
        crate::uvc_laws::batches_report_the_first_failure(outcomes@, i);
    } else {
        crate::controls::batch_succeeds_when_all_do(outcomes@);
    }
}

/// A batch switches the modes first, then sets the values, each as it was asked for.
pub proof fn batches_switch_modes_first(
    autos: &[(AutoToggle, bool)],
    values: &[(CameraControl, i32)],
    out: Vec<SettingWrite>,
    i: int,
)
    requires
        call_ensures(settings_batch, (autos, values), out),
    ensures
        out@.len() == autos@.len() + values@.len(),
        0 <= i < autos@.len() ==> out@[i] == SettingWrite::Auto(autos@[i].0, autos@[i].1),
        0 <= i < values@.len() ==> out@[autos@.len() + i] == SettingWrite::Value(
            values@[i].0,
            values@[i].1,
        ),
{
}

proof fn lemma_source_at(paths: Seq<Option<String>>, id: Seq<char>)
    ensures
        match source_at(paths, id) {
            Some(i) => 0 <= i < paths.len() && paths[i] is Some && paths[i]->0@ == id && forall|
                j: int,
            |
                0 <= j < i ==> !((#[trigger] paths[j]) is Some && paths[j]->0@ == id),
            None => forall|j: int|
                0 <= j < paths.len() ==> !((#[trigger] paths[j]) is Some && paths[j]->0@ == id),
        },
    decreases paths.len(),
{
    if paths.len() > 0 {
        let front = paths.drop_last();
        lemma_source_at(front, id);
        assert(forall|j: int| 0 <= j < front.len() ==> front[j] == #[trigger] paths[j]);
    }
}

/// A source is found by its path, the first of several; a failed search says why.
pub proof fn sources_are_found_by_path(
    paths: &[Option<String>],
    id: &str,
    out: Result<usize, ControlError>,
    why: String,
    failed: Result<usize, ControlError>,
    j: int,
)
    requires
        call_ensures(find_source, (Ok(paths), id), out),
        call_ensures(find_source, (Err(why), id), failed),
    ensures
        out matches Ok(i) ==> i < paths@.len() && paths@[i as int] is Some && paths@[i as int]->0@
            == id@,
        0 <= j < paths@.len() && paths@[j] is Some && paths@[j]->0@ == id@ ==> (out matches Ok(i)
            && i <= j),
        out is Err ==> out == Err::<usize, ControlError>(ControlError::NotFound),
        failed == Err::<usize, ControlError>(ControlError::Io(why)),
{
    lemma_source_at(paths@, id@);
}

// ── Glow ────────────────────────────────────────────────────────────────────

/// Pixel `p` lies in a gap: the runs alternate between solid and gap, beginning with solid.
pub open spec fn lies_in_gap(runs: Seq<u32>, p: int) -> bool {
    exists|i: int|
        0 <= i < runs.len() && i % 2 == 1 && total(runs, i) <= p < #[trigger] total(runs, i)
            + runs[i]
}

/// The sum of the first `n` runs.
pub open spec fn total(runs: Seq<u32>, n: int) -> int
    decreases n,
{
    if n <= 0 {
        0
    } else {
        total(runs, n - 1) + runs[n - 1]
    }
}

proof fn lemma_total(runs: Seq<u32>, n: int)
    ensures
        total(runs, n) == run_start(runs, n),
    decreases n,
{
    if n > 0 {
        lemma_total(runs, n - 1);
    }
}

/// The glow is painted exactly where the mask has gaps, line by line; a mask whose runs do not
/// fill its picture, or that is larger than 8192 on a side, has none.
pub proof fn glows_paint_the_gaps(
    mask: GlowMask,
    out: Option<GlowGeometry>,
    p: int,
)
    requires
        call_ensures(GlowGeometry::from_mask, (&mask,), out),
    ensures
        out is Some <==> 0 < mask.width <= 8192 && 0 < mask.height <= 8192 && total(
            mask.runs@,
            mask.runs@.len() as int,
        ) == mask.width * mask.height,
        out matches Some(g) ==> g.width == mask.width && g.height == mask.height && (is_painted(
            g.segments@,
            mask.width as int,
            p,
        ) <==> lies_in_gap(mask.runs@, p)),
        out matches Some(g) ==> forall|i: int|
            0 <= i < g.segments@.len() ==> (#[trigger] g.segments@[i]).len > 0 && g.segments@[i].col
                + g.segments@[i].len <= mask.width,
{
    lemma_total(mask.runs@, mask.runs@.len() as int);
    if let Some(g) = out {
        segments_paint_the_gaps(mask, g, p);
        assert forall|i: int| total(mask.runs@, i) == #[trigger] run_start(mask.runs@, i) by {
            lemma_total(mask.runs@, i);
        }
        if lies_in_gap(mask.runs@, p) {
            let i = choose|i: int|
                0 <= i < mask.runs@.len() && i % 2 == 1 && total(mask.runs@, i) <= p
                    < #[trigger] total(mask.runs@, i) + mask.runs@[i];
            assert(run_start(mask.runs@, i) <= p);
        }
        if crate::glow::is_gap(mask.runs@, p) {
            let i = choose|i: int|
                0 <= i < mask.runs@.len() && i % 2 == 1 && #[trigger] run_start(mask.runs@, i) <= p
                    < run_start(mask.runs@, i) + mask.runs@[i];
            assert(total(mask.runs@, i) <= p);
        }
    }
}

/// The first mask among the metadata is the one that glows.
pub proof fn the_first_mask_glows(
    masks: &[Option<GlowMask>],
    i: int,
    out: Option<GlowGeometry>,
    single: Option<GlowGeometry>,
)
    requires
        call_ensures(load_glow_geometry, (masks,), out),
        0 <= i <= masks@.len(),
        forall|k: int| 0 <= k < i ==> #[trigger] masks@[k] is None,
        i < masks@.len() ==> masks@[i] is Some && call_ensures(
            GlowGeometry::from_mask,
            (&masks@[i]->0,),
            single,
        ),
    ensures
        i == masks@.len() ==> out is None,
        i < masks@.len() ==> (out is Some <==> single is Some),
        i < masks@.len() ==> (out matches Some(g) ==> g.width == single->0.width && g.height
            == single->0.height && g.segments@ == single->0.segments@),
{
    lemma_first_mask(masks@, i);
}

proof fn lemma_first_mask(masks: Seq<Option<GlowMask>>, i: int)
    requires
        0 <= i <= masks.len(),
        forall|k: int| 0 <= k < i ==> #[trigger] masks[k] is None,
        i < masks.len() ==> masks[i] is Some,
    ensures
        crate::glow::first_mask(masks) == if i < masks.len() {
            masks[i]
        } else {
            None
        },
    decreases i,
{
    if i > 0 {
        assert(masks[0] is None);
        let rest = masks.skip(1);
        assert(forall|k: int| 0 <= k < rest.len() ==> rest[k] == #[trigger] masks[k + 1]);
        assert forall|k: int| 0 <= k < i - 1 implies #[trigger] rest[k] is None by {
            assert(masks[k + 1] is None);
        }
        if i < masks.len() {
            assert(rest[i - 1] == masks[i]);
        }
        lemma_first_mask(rest, i - 1);
    }
}

// ── Icons ───────────────────────────────────────────────────────────────────

/// The icons of an application and their type codes: 16, 32 and 64, 128, 256, 512 and 1024
/// pixels, with a doubled one for each size on dense screens.
pub proof fn icon_sizes_have_their_codes(i: usize, slot: IconSlot)
    requires
        i < 10,
        call_ensures(icon_slot, (i,), slot),
    ensures
        slot.code@.len() == 4,
        slot.code@[0] == 0x69 && slot.code@[1] == 0x63,
        i == 0 ==> slot.side == 16 && slot.code@[2] == 0x70 && slot.code@[3] == 0x34,
        i == 1 ==> slot.side == 32 && slot.code@[2] == 0x31 && slot.code@[3] == 0x31,
        i == 2 ==> slot.side == 32 && slot.code@[2] == 0x70 && slot.code@[3] == 0x35,
        i == 3 ==> slot.side == 64 && slot.code@[2] == 0x31 && slot.code@[3] == 0x32,
        i == 4 ==> slot.side == 128 && slot.code@[2] == 0x30 && slot.code@[3] == 0x37,
        i == 5 ==> slot.side == 256 && slot.code@[2] == 0x31 && slot.code@[3] == 0x33,
        i == 6 ==> slot.side == 256 && slot.code@[2] == 0x30 && slot.code@[3] == 0x38,
        i == 7 ==> slot.side == 512 && slot.code@[2] == 0x31 && slot.code@[3] == 0x34,
        i == 8 ==> slot.side == 512 && slot.code@[2] == 0x30 && slot.code@[3] == 0x39,
        i == 9 ==> slot.side == 1024 && slot.code@[2] == 0x31 && slot.code@[3] == 0x30,
{
}

/// An icon file is written of ten pictures of the sizes that it holds, and of nothing else.
pub proof fn icon_files_need_every_size(pixels: Vec<Vec<u8>>, file: Option<Vec<u8>>)
    requires
        call_ensures(write_icns, (pixels,), file),
    ensures
        file is Some <==> pixels@.len() == 10 && pixels@[0]@.len() == 1024 && pixels@[1]@.len()
            == 4096 && pixels@[2]@.len() == 4096 && pixels@[3]@.len() == 16384 && pixels@[4]@.len()
            == 65536 && pixels@[5]@.len() == 262144 && pixels@[6]@.len() == 262144
            && pixels@[7]@.len() == 1048576 && pixels@[8]@.len() == 1048576 && pixels@[9]@.len()
            == 4194304,
        file matches Some(bytes) ==> bytes@.len() >= 8 && bytes@[0] == 0x69 && bytes@[1] == 0x63
            && bytes@[2] == 0x6e && bytes@[3] == 0x73,
{
    use_sizes(pixels@);
}

proof fn use_sizes(pixels: Seq<Vec<u8>>)
    ensures
        crate::icon::fill_slots(pixels) <==> pixels.len() == 10 && pixels[0]@.len() == 1024
            && pixels[1]@.len() == 4096 && pixels[2]@.len() == 4096 && pixels[3]@.len() == 16384
            && pixels[4]@.len() == 65536 && pixels[5]@.len() == 262144 && pixels[6]@.len()
            == 262144 && pixels[7]@.len() == 1048576 && pixels[8]@.len() == 1048576
            && pixels[9]@.len() == 4194304,
{
    assert(crate::icon::pixel_bytes(16) == 1024);
    assert(crate::icon::pixel_bytes(32) == 4096);
    assert(crate::icon::pixel_bytes(64) == 16384);
    assert(crate::icon::pixel_bytes(128) == 65536);
    assert(crate::icon::pixel_bytes(256) == 262144);
    assert(crate::icon::pixel_bytes(512) == 1048576);
    assert(crate::icon::pixel_bytes(1024) == 4194304);
    if crate::icon::fill_slots(pixels) {
        assert(pixels[0]@.len() == crate::icon::pixel_bytes(crate::icon::side_of(0)));
        assert(pixels[1]@.len() == crate::icon::pixel_bytes(crate::icon::side_of(1)));
        assert(pixels[2]@.len() == crate::icon::pixel_bytes(crate::icon::side_of(2)));
        assert(pixels[3]@.len() == crate::icon::pixel_bytes(crate::icon::side_of(3)));
        assert(pixels[4]@.len() == crate::icon::pixel_bytes(crate::icon::side_of(4)));
        assert(pixels[5]@.len() == crate::icon::pixel_bytes(crate::icon::side_of(5)));
        assert(pixels[6]@.len() == crate::icon::pixel_bytes(crate::icon::side_of(6)));
        assert(pixels[7]@.len() == crate::icon::pixel_bytes(crate::icon::side_of(7)));
        assert(pixels[8]@.len() == crate::icon::pixel_bytes(crate::icon::side_of(8)));
        assert(pixels[9]@.len() == crate::icon::pixel_bytes(crate::icon::side_of(9)));
    }
}

/// An icon file holds every picture under the code of its size, in order.
pub proof fn icon_files_hold_every_picture(pixels: Vec<Vec<u8>>, file: Vec<u8>)
    requires
        call_ensures(write_icns, (pixels,), Some(file)),
    ensures
        file@ == crate::icon::icon_file(
            seq![
                (seq![0x69u8, 0x63u8, 0x70u8, 0x34u8], pixels@[0]@),
                (seq![0x69u8, 0x63u8, 0x31u8, 0x31u8], pixels@[1]@),
                (seq![0x69u8, 0x63u8, 0x70u8, 0x35u8], pixels@[2]@),
                (seq![0x69u8, 0x63u8, 0x31u8, 0x32u8], pixels@[3]@),
                (seq![0x69u8, 0x63u8, 0x30u8, 0x37u8], pixels@[4]@),
                (seq![0x69u8, 0x63u8, 0x31u8, 0x33u8], pixels@[5]@),
                (seq![0x69u8, 0x63u8, 0x30u8, 0x38u8], pixels@[6]@),
                (seq![0x69u8, 0x63u8, 0x31u8, 0x34u8], pixels@[7]@),
                (seq![0x69u8, 0x63u8, 0x30u8, 0x39u8], pixels@[8]@),
                (seq![0x69u8, 0x63u8, 0x31u8, 0x30u8], pixels@[9]@),
            ],
        ),
{
    let held = seq![
        (seq![0x69u8, 0x63u8, 0x70u8, 0x34u8], pixels@[0]@),
        (seq![0x69u8, 0x63u8, 0x31u8, 0x31u8], pixels@[1]@),
        (seq![0x69u8, 0x63u8, 0x70u8, 0x35u8], pixels@[2]@),
        (seq![0x69u8, 0x63u8, 0x31u8, 0x32u8], pixels@[3]@),
        (seq![0x69u8, 0x63u8, 0x30u8, 0x37u8], pixels@[4]@),
        (seq![0x69u8, 0x63u8, 0x31u8, 0x33u8], pixels@[5]@),
        (seq![0x69u8, 0x63u8, 0x30u8, 0x38u8], pixels@[6]@),
        (seq![0x69u8, 0x63u8, 0x31u8, 0x34u8], pixels@[7]@),
        (seq![0x69u8, 0x63u8, 0x30u8, 0x39u8], pixels@[8]@),
        (seq![0x69u8, 0x63u8, 0x31u8, 0x30u8], pixels@[9]@),
    ];
    assert(crate::icon::icons_of(pixels@, 10) =~= held);
}

/// An icon is made of every drawing that can be read, with the picture of each place drawn
/// from it at the size of the place.
pub proof fn icons_are_drawn_for_every_size(drawing: &[u8], file: Option<Vec<u8>>)
    requires
        call_ensures(crate::icon::generate_macos_icns, (drawing,), file),
    ensures
        file is Some <==> crate::icon::decodes(drawing@),
        file matches Some(bytes) ==> exists|pixels: Seq<Vec<u8>>|
            {
                &&& pixels.len() == 10
                &&& crate::icon::is_resized(drawing@, 16, pixels[0]@)
                &&& crate::icon::is_resized(drawing@, 32, pixels[1]@)
                &&& crate::icon::is_resized(drawing@, 32, pixels[2]@)
                &&& crate::icon::is_resized(drawing@, 64, pixels[3]@)
                &&& crate::icon::is_resized(drawing@, 128, pixels[4]@)
                &&& crate::icon::is_resized(drawing@, 256, pixels[5]@)
                &&& crate::icon::is_resized(drawing@, 256, pixels[6]@)
                &&& crate::icon::is_resized(drawing@, 512, pixels[7]@)
                &&& crate::icon::is_resized(drawing@, 512, pixels[8]@)
                &&& crate::icon::is_resized(drawing@, 1024, pixels[9]@)
                &&& bytes@ == crate::icon::icon_file(#[trigger] crate::icon::icons_of(pixels, 10))
            },
{
    if let Some(bytes) = file {
        let pixels = choose|pixels: Seq<Vec<u8>>| #[trigger]
            crate::icon::drawn_from(drawing@, pixels) && bytes@ == crate::icon::icon_file(
                crate::icon::icons_of(pixels, 10),
            );
        assert(crate::icon::is_resized(drawing@, crate::icon::side_of(0), pixels[0]@));
        assert(crate::icon::is_resized(drawing@, crate::icon::side_of(1), pixels[1]@));
        assert(crate::icon::is_resized(drawing@, crate::icon::side_of(2), pixels[2]@));
        assert(crate::icon::is_resized(drawing@, crate::icon::side_of(3), pixels[3]@));
        assert(crate::icon::is_resized(drawing@, crate::icon::side_of(4), pixels[4]@));
        assert(crate::icon::is_resized(drawing@, crate::icon::side_of(5), pixels[5]@));
        assert(crate::icon::is_resized(drawing@, crate::icon::side_of(6), pixels[6]@));
        assert(crate::icon::is_resized(drawing@, crate::icon::side_of(7), pixels[7]@));
        assert(crate::icon::is_resized(drawing@, crate::icon::side_of(8), pixels[8]@));
        assert(crate::icon::is_resized(drawing@, crate::icon::side_of(9), pixels[9]@));
        assert(bytes@ == crate::icon::icon_file(crate::icon::icons_of(pixels, 10)));
    }
}

/// A stream starts without a frame, and a preview without a stream.
pub proof fn streams_and_previews_start_empty(
    stream: CameraStream,
    counted: u64,
    preview: CameraPreview,
    any: CameraStream,
    n: u64,
)
    requires
        call_ensures(CameraStream::new, (), stream),
        call_ensures(CameraStream::frame_generation, (&stream,), counted),
        call_ensures(CameraPreview::new, (), preview),
        call_ensures(CameraStream::frame_generation, (&any,), n),
    ensures
        stream.waiting() is None,
        counted == 0,
        n == any.delivered(),
        !preview.streaming && preview.streaming_uid is None && preview.current_image is None,
        preview.last_generation == 0,
{
}

/// Every video source with a USB path is enumerated by its path, under its name where it has
/// one.
pub proof fn sources_are_enumerated_by_path(
    sources: &[crate::uvc_windows::VideoSource],
    cameras: Vec<Camera>,
    i: int,
    path: &str,
    ids: Option<(u16, u16)>,
)
    requires
        call_ensures(crate::uvc_windows::enumerate, (sources,), cameras),
        0 <= i < sources@.len(),
        sources@[i].device_path is Some,
        path@ == sources@[i].device_path->0@,
        call_ensures(parse_device_path_ids, (path,), ids),
        ids is Some,
    ensures
        exists|k: int|
            0 <= k < cameras@.len() && (#[trigger] cameras@[k]).unique_id@ == path@
                && cameras@[k].vendor_id == ids.unwrap().0 && cameras@[k].product_id
                == ids.unwrap().1 && cameras@[k].name@ == match sources@[i].friendly_name {
                Some(name) => name@,
                None => "Camera"@,
            },
{
    let usb = sources@.filter(|s: crate::uvc_windows::VideoSource| s.is_usb());
    lemma_sources(sources@, i);
    let k = choose|k: int| 0 <= k < usb.len() && usb[k] == sources@[i];
    assert(usb[k].gives(cameras@[k]));
}

proof fn lemma_sources(sources: Seq<crate::uvc_windows::VideoSource>, i: int)
    requires
        0 <= i < sources.len(),
        sources[i].is_usb(),
    ensures
        sources.filter(|s: crate::uvc_windows::VideoSource| s.is_usb()).contains(sources[i]),
    decreases sources.len(),
{
    reveal(Seq::filter);
    let kept = |s: crate::uvc_windows::VideoSource| s.is_usb();
    let front = sources.drop_last();
    let less = front.filter(kept);
    let out = sources.filter(kept);
    if i < front.len() {
        assert(front[i] == sources[i]);
        lemma_sources(front, i);
        let k = choose|k: int| 0 <= k < less.len() && less[k] == front[i];
        assert(out[k] == sources[i]);
    } else {
        assert(out[out.len() - 1] == sources[i]);
    }
}

/// The ranges of a camera are those of its state.
pub proof fn ranges_are_those_of_the_state(
    reports: StateReports,
    state: Result<CameraState, ControlError>,
    ranges: Result<Vec<(CameraControl, ControlRange)>, ControlError>,
    refused: ControlError,
    unread: Result<CameraState, ControlError>,
    topology: crate::uvc::VcTopology,
    replies: crate::uvc::StateReplies,
    read: Result<CameraState, ControlError>,
    listed: Result<Vec<(CameraControl, ControlRange)>, ControlError>,
)
    requires
        reports.controls@.len() == 9,
        reports.autos@.len() == 3,
        replies.controls@.len() == 9,
        replies.autos@.len() == 3,
        call_ensures(read_camera_state, (Ok(&reports),), state),
        call_ensures(crate::uvc_windows::control_ranges, (Ok(&reports),), ranges),
        call_ensures(read_camera_state, (Err(refused),), unread),
        call_ensures(crate::uvc::read_camera_state, (Ok(topology), &replies), read),
        call_ensures(crate::uvc::control_ranges, (Ok(topology), &replies), listed),
    ensures
        state is Ok && ranges is Ok && ranges->Ok_0@ == state->Ok_0.controls@,
        unread == Err::<CameraState, ControlError>(refused),
        read is Ok && listed is Ok && listed->Ok_0@ == read->Ok_0.controls@,
{
}

proof fn lemma_listed_auto(reports: Seq<PropReport>, n: int, i: int)
    requires
        0 <= i < n <= 3,
        crate::uvc_windows::auto_of(reports[i]) is Some,
    ensures
        crate::uvc_windows::supported_autos(reports, n).contains(
            (
                crate::controls::all_toggles()[i],
                crate::uvc_windows::auto_of(reports[i])->0,
            ),
        ),
    decreases n,
{
    let pair = (
        crate::controls::all_toggles()[i],
        crate::uvc_windows::auto_of(reports[i])->0,
    );
    let all = crate::uvc_windows::supported_autos(reports, n);
    if i == n - 1 {
        assert(all[all.len() - 1] == pair);
    } else {
        lemma_listed_auto(reports, n - 1, i);
        let less = crate::uvc_windows::supported_autos(reports, n - 1);
        let k = choose|k: int| 0 <= k < less.len() && less[k] == pair;
        assert(all[k] == pair);
    }
}

/// An automatic mode is listed where the system offers it and says how it stands: as on
/// exactly when the system says so, and on by default. The reports come in the order focus,
/// exposure, white balance.
pub proof fn reported_modes_are_listed(
    reports: StateReports,
    out: Result<CameraState, ControlError>,
    toggle: AutoToggle,
    offered: PropRange,
    present: (i32, i32),
)
    requires
        reports.controls@.len() == 9,
        reports.autos@.len() == 3,
        call_ensures(read_camera_state, (Ok(&reports),), out),
        ({
            let i = if toggle == AutoToggle::Focus {
                0int
            } else if toggle == AutoToggle::Exposure {
                1
            } else {
                2
            };
            reports.autos@[i].range == Some(offered) && reports.autos@[i].present == Some(present)
        }),
        offered.caps as int % 2 == 1,
    ensures
        out is Ok,
        out->Ok_0.autos@.contains(
            (
                toggle,
                crate::controls::AutoState { current: present.1 as int % 2 == 1, default: true },
            ),
        ),
{
    let i = if toggle == AutoToggle::Focus {
        0int
    } else if toggle == AutoToggle::Exposure {
        1
    } else {
        2
    };
    lemma_listed_auto(reports.autos@, 3, i);
}

/// A model text or a path without the words for the numbers names no camera.
pub proof fn numbers_need_their_words(
    model: &str,
    ids: Option<(u16, u16)>,
    path: &str,
    numbers: Option<(u16, u16)>,
)
    requires
        call_ensures(parse_vid_pid, (model,), ids),
        call_ensures(parse_device_path_ids, (path,), numbers),
    ensures
        ids is Some ==> exists|i: int| #[trigger] stands_at(model@, "VendorID_"@, i),
        ids is Some ==> exists|i: int| #[trigger] stands_at(model@, "ProductID_"@, i),
        numbers is Some ==> exists|i: int| #[trigger] stands_at(ascii_lower(path@), "vid_"@, i),
        numbers is Some ==> exists|i: int| #[trigger] stands_at(ascii_lower(path@), "pid_"@, i),
{
    lemma_marker_stands(model@, "VendorID_"@);
    lemma_marker_stands(model@, "ProductID_"@);
    lemma_marker_stands(ascii_lower(path@), "vid_"@);
    lemma_marker_stands(ascii_lower(path@), "pid_"@);
}

proof fn lemma_marker_stands(s: Seq<char>, marker: Seq<char>)
    ensures
        crate::camera::second_part(s, marker) is Some ==> exists|i: int| #[trigger]
            stands_at(s, marker, i),
{
    lemma_find_from(s, marker, 0);
    if let Some(i) = find_from(s, marker, 0) {
        let here = s.subrange(i, i + marker.len());
        assert forall|k: int| 0 <= k < marker.len() implies s[i + k] == #[trigger] marker[k] by {
            assert(here[k] == s[i + k]);
        }
        assert(stands_at(s, marker, i));
    }
}

/// A segment paints these columns of its row.
pub open spec fn paints(segments: Seq<crate::glow::GlowSeg>, x: int, y: int) -> bool {
    exists|i: int|
        0 <= i < segments.len() && (#[trigger] segments[i]).row == y && segments[i].col <= x
            < segments[i].col + segments[i].len
}

/// The pixel in column `x` of row `y` glows exactly when the mask has a gap there, counting
/// its pixels row by row.
pub proof fn pixels_glow_in_the_gaps(
    mask: GlowMask,
    geometry: GlowGeometry,
    x: int,
    y: int,
)
    requires
        call_ensures(GlowGeometry::from_mask, (&mask,), Some(geometry)),
        0 <= x < mask.width,
        0 <= y < mask.height,
    ensures
        paints(geometry.segments@, x, y) <==> lies_in_gap(mask.runs@, y * mask.width + x),
{
    let w = mask.width as int;
    let p = y * w + x;
    glows_paint_the_gaps(mask, Some(geometry), p);
    let segments = geometry.segments@;
    if paints(segments, x, y) {
        let i = choose|i: int|
            0 <= i < segments.len() && (#[trigger] segments[i]).row == y && segments[i].col <= x
                < segments[i].col + segments[i].len;
        assert(crate::glow::covers_pixel(segments[i], w, p));
        assert(is_painted(segments, w, p));
    }
    if is_painted(segments, w, p) {
        let i = choose|i: int|
            0 <= i < segments.len() && #[trigger] crate::glow::covers_pixel(segments[i], w, p);
        let (r, c, l) = (
            segments[i].row as int,
            segments[i].col as int,
            segments[i].len as int,
        );
        assert(segments[i].len > 0 && c + l <= w);
        assert(r == y) by (nonlinear_arith)
            requires
                r * w + c <= y * w + x < r * w + c + l,
                c + l <= w,
                0 <= x < w,
                0 <= c,
        ;
        assert(segments[i].row == y);
    }
}

/// Of equally close formats the first is asked for.
pub proof fn the_first_of_the_closest_is_chosen(
    sizes: &[Option<u64>],
    best: u64,
    i: int,
    w: int,
    h: int,
    width: int,
    height: int,
)
    requires
        call_ensures(best_frame_size, (sizes,), Some(best)),
        0 <= i < sizes@.len(),
        sizes@[i] is Some,
        packs(sizes@[i]->0, w, h),
        packs(best, width, height),
        off_target(w) == off_target(width),
    ensures
        exists|k: int| 0 <= k <= i && #[trigger] sizes@[k] == Some(best),
{
    lemma_packs(sizes@[i]->0, w, h);
    lemma_packs(best, width, height);
    let k = choose|k: int|
        0 <= k < sizes@.len() && #[trigger] sizes@[k] == Some(best)
            && crate::capture_windows::is_closest(sizes@, k);
    assert(sizes@[i] is Some);
}

/// Every enumerated source was there, under its own path.
pub proof fn enumerated_sources_were_there(
    sources: &[crate::uvc_windows::VideoSource],
    cameras: Vec<Camera>,
    k: int,
) -> (i: int)
    requires
        call_ensures(crate::uvc_windows::enumerate, (sources,), cameras),
        0 <= k < cameras@.len(),
    ensures
        0 <= i < sources@.len(),
        sources@[i].device_path is Some,
        cameras@[k].unique_id@ == sources@[i].device_path->0@,
        sources@[i].friendly_name matches Some(name) ==> cameras@[k].name@ == name@,
        sources@[i].friendly_name is None ==> cameras@[k].name@ == "Camera"@,
{
    let usb = sources@.filter(|s: crate::uvc_windows::VideoSource| s.is_usb());
    assert(usb[k].gives(cameras@[k]));
    lemma_from_sources(sources@, k)
}

proof fn lemma_from_sources(sources: Seq<crate::uvc_windows::VideoSource>, k: int) -> (i: int)
    requires
        0 <= k < sources.filter(|s: crate::uvc_windows::VideoSource| s.is_usb()).len(),
    ensures
        0 <= i < sources.len(),
        sources[i] == sources.filter(|s: crate::uvc_windows::VideoSource| s.is_usb())[k],
    decreases sources.len(),
{
    reveal(Seq::filter);
    let kept = |s: crate::uvc_windows::VideoSource| s.is_usb();
    let front = sources.drop_last();
    let less = front.filter(kept);
    let out = sources.filter(kept);
    if k < less.len() {
        assert(out[k] == less[k]);
        let i = lemma_from_sources(front, k);
        assert(front[i] == sources[i]);
        i
    } else {
        sources.len() - 1
    }
}

/// A camera that could not be opened is neither read nor written, and the reason is handed on.
pub proof fn unopened_cameras_say_why(
    refused: ControlError,
    replies: crate::uvc::StateReplies,
    state: Result<CameraState, ControlError>,
    ranges: Result<Vec<(CameraControl, ControlRange)>, ControlError>,
    range_replies: crate::uvc::RangeReplies,
    control: CameraControl,
    range: Result<ControlRange, ControlError>,
    toggle: AutoToggle,
    accepted: &[bool],
    switched: Result<(), ControlError>,
    outcomes: &[Result<(), ControlError>],
    applied: Result<(), ControlError>,
    windows_ranges: Result<Vec<(CameraControl, ControlRange)>, ControlError>,
    windows_applied: Result<(), ControlError>,
)
    requires
        replies.controls@.len() == 9,
        replies.autos@.len() == 3,
        call_ensures(crate::uvc::read_camera_state, (Err(refused), &replies), state),
        call_ensures(crate::uvc::control_ranges, (Err(refused), &replies), ranges),
        call_ensures(crate::uvc::control_range, (Err(refused), control, &range_replies), range),
        call_ensures(crate::uvc::set_auto, (Err(refused), toggle, accepted), switched),
        call_ensures(crate::uvc::apply_settings, (Err(refused), outcomes), applied),
        call_ensures(crate::uvc_windows::control_ranges, (Err(refused),), windows_ranges),
        call_ensures(apply_settings, (Err(refused),), windows_applied),
    ensures
        state == Err::<CameraState, ControlError>(refused),
        ranges == Err::<Vec<(CameraControl, ControlRange)>, ControlError>(refused),
        range == Err::<ControlRange, ControlError>(refused),
        switched == Err::<(), ControlError>(refused),
        applied == Err::<(), ControlError>(refused),
        windows_ranges == Err::<Vec<(CameraControl, ControlRange)>, ControlError>(refused),
        windows_applied == Err::<(), ControlError>(refused),
{
}

/// A batch of settings on an open camera reports the first failure, over either transport.
pub proof fn settings_report_what_failed_first(
    topology: crate::uvc::VcTopology,
    outcomes: &[Result<(), ControlError>],
    applied: Result<(), ControlError>,
    batch: Result<(), ControlError>,
)
    requires
        call_ensures(crate::uvc::apply_settings, (Ok(topology), outcomes), applied),
        call_ensures(batch_outcome, (outcomes,), batch),
    ensures
        applied == batch,
{
}

} // verus!
