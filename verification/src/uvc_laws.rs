//! What always holds of camera controls over USB Video Class.

use vstd::prelude::*;

use crate::controls::{AutoToggle, CameraControl};
use crate::text::{
    all_digits, digit_value, hex, hex4, lemma_digits_value, lemma_hex4_len, lemma_zero_padded,
    strip_prefix, utf8_width, without_last_bytes,
};
use crate::uvc::{
    auto_flag, auto_modes, auto_outcome, decoded, descriptors, encoded, first_camera_terminal,
    is_state, last_video_control, location_of, range_outcome, supported_autos, supported_controls,
    topology_of, AutoReplies, ControlRequest, RangeReplies, StateReplies, VcTopology,
};

verus! {

// ── Selectors ───────────────────────────────────────────────────────────────

/// The selector numbers of the controls are those of the USB Video Class standard, tables
/// A-12 and A-13.
pub proof fn selectors_are_those_of_the_standard(control: CameraControl)
    ensures
        control == CameraControl::Zoom ==> control.selector_of() == 0x0b,
        control == CameraControl::Focus ==> control.selector_of() == 0x06,
        control == CameraControl::Exposure ==> control.selector_of() == 0x04,
        control == CameraControl::Brightness ==> control.selector_of() == 0x02,
        control == CameraControl::Contrast ==> control.selector_of() == 0x03,
        control == CameraControl::Saturation ==> control.selector_of() == 0x07,
        control == CameraControl::Sharpness ==> control.selector_of() == 0x08,
        control == CameraControl::WhiteBalance ==> control.selector_of() == 0x0a,
        control == CameraControl::Tint ==> control.selector_of() == 0x06,
{
}

/// The selector numbers of the automatic modes are those of the standard.
pub proof fn mode_selectors_are_those_of_the_standard(toggle: AutoToggle)
    ensures
        toggle == AutoToggle::Focus ==> toggle.selector_of() == 0x08,
        toggle == AutoToggle::Exposure ==> toggle.selector_of() == 0x02,
        toggle == AutoToggle::WhiteBalance ==> toggle.selector_of() == 0x0b,
{
}

/// Two controls of one entity never share a selector: writing one never moves another.
pub proof fn controls_do_not_move_each_other(a: CameraControl, b: CameraControl)
    requires
        a != b,
        a.unit_of() == b.unit_of(),
    ensures
        a.selector_of() != b.selector_of(),
{
}

/// The lens controls go to the camera terminal and the image controls to the processing
/// unit; without a camera terminal there are no lens controls.
pub proof fn controls_go_to_their_entity(topology: VcTopology, control: CameraControl)
    ensures
        control == CameraControl::Zoom || control == CameraControl::Focus || control
            == CameraControl::Exposure ==> topology.entity_of(control.unit_of())
            == topology.camera_terminal,
        control == CameraControl::Brightness || control == CameraControl::Contrast || control
            == CameraControl::Saturation || control == CameraControl::Sharpness || control
            == CameraControl::WhiteBalance || control == CameraControl::Tint
            ==> topology.entity_of(control.unit_of()) == Some(topology.processing_unit),
{
}

/// The automatic modes of the lens go to the camera terminal, that of the white balance to
/// the processing unit.
pub proof fn modes_go_to_their_entity(topology: VcTopology, toggle: AutoToggle)
    ensures
        toggle == AutoToggle::Focus || toggle == AutoToggle::Exposure ==> topology.entity_of(
            toggle.unit_of(),
        ) == topology.camera_terminal,
        toggle == AutoToggle::WhiteBalance ==> topology.entity_of(toggle.unit_of()) == Some(
            topology.processing_unit,
        ),
{
}

/// A request has its selector in the high byte of the value, and the entity above the
/// interface in the index.
pub proof fn requests_are_addressed(
    topology: VcTopology,
    r: ControlRequest,
    request_type: u8,
    request: u8,
    selector: u16,
    entity: u8,
    data: Seq<u8>,
)
    requires
        selector <= 0xff,
        topology.addresses(r, request_type, request, selector, entity, data),
    ensures
        r.request_type == request_type,
        r.request == request,
        r.value / 256 == selector,
        r.value % 256 == 0,
        r.index / 256 == entity,
        r.index % 256 == topology.vc_interface,
        r.data@ == data,
{
}

// ── Values ──────────────────────────────────────────────────────────────────

/// What is written of a value: its bytes with the low one first, four for the exposure
/// time and two for every other control.
pub proof fn values_are_written_low_byte_first(control: CameraControl, value: i32)
    ensures
        ({
            let b = encoded(control, value);
            &&& control == CameraControl::Exposure ==> b.len() == 4
            &&& control != CameraControl::Exposure ==> b.len() == 2
            &&& control == CameraControl::Exposure && value >= 0 ==> b[0] + 0x100 * b[1] + 0x1_0000
                * b[2] + 0x100_0000 * b[3] == value
            &&& control != CameraControl::Exposure && 0 <= value <= 0xffff ==> b[0] + 0x100 * b[1]
                == value
            &&& control != CameraControl::Exposure && -0x8000 <= value < 0 ==> b[0] + 0x100 * b[1]
                == value + 0x1_0000
        }),
{
    let n = value as int % 0x1_0000_0000;
    assert(n % 65536 == n % 256 + 256 * (n / 256 % 256));
    assert(n == n % 256 + 256 * (n / 256 % 256) + 65536 * (n / 65536 % 256) + 16777216 * (n
        / 16777216));
}

/// What is read of a reply: brightness and tint have a sign, the exposure time has four
/// bytes and is held at the largest value, every other control is a plain number.
pub proof fn replies_are_read_low_byte_first(control: CameraControl, b: Seq<u8>)
    requires
        b.len() == 4,
    ensures
        ({
            let low = b[0] + 0x100 * b[1];
            let wide = low + 0x1_0000 * b[2] + 0x100_0000 * b[3];
            &&& control == CameraControl::Exposure ==> decoded(control, b) == if wide
                > 0x7fff_ffff {
                0x7fff_ffff
            } else {
                wide
            }
            &&& control == CameraControl::Brightness || control == CameraControl::Tint ==> decoded(
                control,
                b,
            ) == if low >= 0x8000 {
                low - 0x1_0000
            } else {
                low
            }
            &&& control != CameraControl::Exposure && control != CameraControl::Brightness
                && control != CameraControl::Tint ==> decoded(control, b) == low
        }),
{
}

/// A value that was written is read back: any signed value of brightness and tint, any
/// exposure time, and any two-byte number of every other control.
pub proof fn written_values_are_read_back(control: CameraControl, value: i32, reply: Seq<u8>)
    requires
        reply.len() == 4,
        forall|i: int|
            0 <= i < encoded(control, value).len() ==> #[trigger] reply[i] == encoded(
                control,
                value,
            )[i],
        control == CameraControl::Exposure ==> value >= 0,
        control == CameraControl::Brightness || control == CameraControl::Tint ==> -0x8000 <= value
            <= 0x7fff,
        control != CameraControl::Exposure && control != CameraControl::Brightness && control
            != CameraControl::Tint ==> 0 <= value <= 0xffff,
    ensures
        decoded(control, reply) == value,
{
    values_are_written_low_byte_first(control, value);
    let e = encoded(control, value);
    assert(reply[0] == e[0]);
    assert(reply[1] == e[1]);
    if control == CameraControl::Exposure {
        assert(reply[2] == e[2]);
        assert(reply[3] == e[3]);
    }
}

/// The range of a control is what the camera replied to each read. It is told only where
/// both bounds and the factory value are, and the factory value stands in for a present
/// value that is not.
pub proof fn ranges_are_what_was_replied(
    topology: VcTopology,
    control: CameraControl,
    replies: RangeReplies,
)
    ensures
        ({
            let lens = control == CameraControl::Zoom || control == CameraControl::Focus || control
                == CameraControl::Exposure;
            let out = range_outcome(topology, control, replies);
            &&& out is Some == (replies.min is Some && replies.max is Some
                && replies.default is Some
                && (lens ==> topology.camera_terminal is Some))
            &&& out matches Some(range) ==> {
                &&& range.min == decoded(control, replies.min->0@)
                &&& range.max == decoded(control, replies.max->0@)
                &&& range.default == decoded(control, replies.default->0@)
                &&& replies.current matches Some(c) ==> range.current == decoded(control, c@)
                &&& replies.current is None ==> range.current == range.default
            }
        }),
{
    if let Some(b) = replies.min {
        replies_are_read_low_byte_first(control, b@);
    }
    if let Some(b) = replies.max {
        replies_are_read_low_byte_first(control, b@);
    }
    if let Some(b) = replies.default {
        replies_are_read_low_byte_first(control, b@);
    }
    if let Some(b) = replies.current {
        replies_are_read_low_byte_first(control, b@);
    }
}

/// The mode bytes: automatic exposure is tried from the most automatic mode on, manual
/// exposure is mode one, and the other modes are a plain switch.
pub proof fn mode_bytes(toggle: AutoToggle, on: bool)
    ensures
        toggle == AutoToggle::Exposure && on ==> auto_modes(toggle, on) =~= seq![2u8, 8u8, 4u8],
        toggle == AutoToggle::Exposure && !on ==> auto_modes(toggle, on) =~= seq![1u8],
        toggle != AutoToggle::Exposure && on ==> auto_modes(toggle, on) =~= seq![1u8],
        toggle != AutoToggle::Exposure && !on ==> auto_modes(toggle, on) =~= seq![0u8],
{
}

/// What a mode byte says: exposure is automatic in every mode but the manual one, the other
/// modes are on unless they are zero.
pub proof fn mode_bytes_are_read(toggle: AutoToggle, mode: u8)
    ensures
        toggle == AutoToggle::Exposure ==> auto_flag(toggle, mode) == (mode != 1),
        toggle != AutoToggle::Exposure ==> auto_flag(toggle, mode) == (mode != 0),
{
}

/// The state of an automatic mode is what the camera replied to both reads.
pub proof fn mode_states_are_what_was_replied(
    topology: VcTopology,
    toggle: AutoToggle,
    replies: AutoReplies,
)
    ensures
        ({
            let lens = toggle == AutoToggle::Focus || toggle == AutoToggle::Exposure;
            let manual: u8 = if toggle == AutoToggle::Exposure {
                1
            } else {
                0
            };
            let out = auto_outcome(topology, toggle, replies);
            &&& out is Some == (replies.current is Some && replies.default is Some && (lens
                ==> topology.camera_terminal is Some))
            &&& out matches Some(state) ==> state.current == (replies.current->0 != manual)
                && state.default == (replies.default->0 != manual)
        }),
{
}

// ── The whole state ─────────────────────────────────────────────────────────

proof fn lemma_controls_listed(
    topology: VcTopology,
    replies: Seq<RangeReplies>,
    n: int,
    control: CameraControl,
    i: int,
)
    requires
        0 <= i < n <= 9,
        crate::controls::all_controls()[i] == control,
        range_outcome(topology, control, replies[i]) is Some,
    ensures
        supported_controls(topology, replies, n).contains(
            (control, range_outcome(topology, control, replies[i])->0),
        ),
    decreases n,
{
    let pair = (control, range_outcome(topology, control, replies[i])->0);
    let all = supported_controls(topology, replies, n);
    if i == n - 1 {
        assert(all.last() == pair);
        assert(all.contains(pair));
    } else {
        lemma_controls_listed(topology, replies, n - 1, control, i);
        let less = supported_controls(topology, replies, n - 1);
        let k = choose|k: int| 0 <= k < less.len() && less[k] == pair;
        assert(all[k] == pair);
    }
}

proof fn lemma_controls_sound(topology: VcTopology, replies: Seq<RangeReplies>, n: int, at: int) -> (i: int)
    requires
        0 <= n <= 9,
        0 <= at < supported_controls(topology, replies, n).len(),
    ensures
        0 <= i < n,
        crate::controls::all_controls()[i] == supported_controls(topology, replies, n)[at].0,
        range_outcome(topology, crate::controls::all_controls()[i], replies[i]) == Some(
            supported_controls(topology, replies, n)[at].1,
        ),
    decreases n,
{
    if n <= 0 {
        0
    } else {
        let less = supported_controls(topology, replies, n - 1);
        if at < less.len() {
            assert(supported_controls(topology, replies, n)[at] == less[at]);
            lemma_controls_sound(topology, replies, n - 1, at)
        } else {
            n - 1
        }
    }
}

/// Which reply belongs to a control: the controls are read in the order zoom, focus,
/// exposure, brightness, contrast, saturation, sharpness, white balance, tint.
pub open spec fn reads_at(i: int, control: CameraControl) -> bool {
    &&& i == 0 <==> control == CameraControl::Zoom
    &&& i == 1 <==> control == CameraControl::Focus
    &&& i == 2 <==> control == CameraControl::Exposure
    &&& i == 3 <==> control == CameraControl::Brightness
    &&& i == 4 <==> control == CameraControl::Contrast
    &&& i == 5 <==> control == CameraControl::Saturation
    &&& i == 6 <==> control == CameraControl::Sharpness
    &&& i == 7 <==> control == CameraControl::WhiteBalance
    &&& i == 8 <==> control == CameraControl::Tint
}

/// The state of a camera lists a control exactly where the camera answered the reads of
/// that control, with the range that those replies give.
pub proof fn answered_controls_are_listed(
    state: crate::controls::CameraState,
    topology: VcTopology,
    replies: StateReplies,
    i: int,
    control: CameraControl,
)
    requires
        is_state(state, topology, replies),
        0 <= i < 9,
        reads_at(i, control),
    ensures
        match range_outcome(topology, control, replies.controls@[i]) {
            Some(range) => state.controls@.contains((control, range)),
            None => forall|k: int|
                0 <= k < state.controls@.len() ==> (#[trigger] state.controls@[k]).0 != control,
        },
{
    if range_outcome(topology, control, replies.controls@[i]) is Some {
        lemma_controls_listed(topology, replies.controls@, 9, control, i);
    } else {
        assert forall|k: int| 0 <= k < state.controls@.len() implies (
        #[trigger] state.controls@[k]).0 != control by {
            let j = lemma_controls_sound(topology, replies.controls@, 9, k);
        }
    }
}

proof fn lemma_autos_listed(
    topology: VcTopology,
    replies: Seq<AutoReplies>,
    n: int,
    i: int,
)
    requires
        0 <= i < n <= 3,
        auto_outcome(topology, crate::controls::all_toggles()[i], replies[i]) is Some,
    ensures
        supported_autos(topology, replies, n).contains(
            (
                crate::controls::all_toggles()[i],
                auto_outcome(topology, crate::controls::all_toggles()[i], replies[i])->0,
            ),
        ),
    decreases n,
{
    let toggle = crate::controls::all_toggles()[i];
    let pair = (toggle, auto_outcome(topology, toggle, replies[i])->0);
    let all = supported_autos(topology, replies, n);
    if i == n - 1 {
        assert(all.last() == pair);
        assert(all.contains(pair));
    } else {
        lemma_autos_listed(topology, replies, n - 1, i);
        let less = supported_autos(topology, replies, n - 1);
        let k = choose|k: int| 0 <= k < less.len() && less[k] == pair;
        assert(all[k] == pair);
    }
}

/// The state of a camera lists every automatic mode whose reads the camera answered: focus
/// first, then exposure, then white balance.
pub proof fn answered_modes_are_listed(
    state: crate::controls::CameraState,
    topology: VcTopology,
    replies: StateReplies,
    toggle: AutoToggle,
)
    requires
        is_state(state, topology, replies),
    ensures
        ({
            let reply = replies.autos@[if toggle == AutoToggle::Focus {
                0int
            } else if toggle == AutoToggle::Exposure {
                1
            } else {
                2
            }];
            auto_outcome(topology, toggle, reply) matches Some(auto) ==> state.autos@.contains(
                (toggle, auto),
            )
        }),
{
    let i = if toggle == AutoToggle::Focus {
        0int
    } else if toggle == AutoToggle::Exposure {
        1
    } else {
        2
    };
    if auto_outcome(topology, toggle, replies.autos@[i]) is Some {
        lemma_autos_listed(topology, replies.autos@, 3, i);
    }
}

// ── Descriptors ─────────────────────────────────────────────────────────────

/// A configuration descriptor is read descriptor by descriptor: each is led by its length,
/// and what is too short or too long ends the walk.
pub proof fn descriptors_are_read_in_turn(d: Seq<u8>, rest: Seq<u8>)
    requires
        d.len() >= 2,
        d[0] == d.len(),
    ensures
        descriptors(d + rest) =~= seq![d] + descriptors(rest),
{
    let blob = d + rest;
    assert(blob[0] == d[0]);
    assert(blob.take(blob[0] as int) =~= d);
    assert(blob.skip(blob[0] as int) =~= rest);
}

/// The descriptor of a VideoControl interface: an interface of class fourteen, subclass one.
pub open spec fn opens_video_control(d: Seq<u8>) -> bool {
    d.len() >= 9 && d[1] == 4 && d[5] == 14 && d[6] == 1
}

/// The descriptor of a Processing Unit: class-specific, subtype five.
pub open spec fn names_processing_unit(d: Seq<u8>) -> bool {
    d.len() >= 4 && d[1] == 36 && d[2] == 5
}

/// The descriptor of a camera terminal: class-specific, subtype two, with the terminal type
/// of a camera, the low byte first.
pub open spec fn names_camera_terminal(d: Seq<u8>) -> bool {
    d.len() >= 8 && d[1] == 36 && d[2] == 2 && d[4] == 1 && d[5] == 2
}

proof fn lemma_last_video_control(ds: Seq<Seq<u8>>) -> (a: int)
    ensures
        match last_video_control(ds) {
            Some(vc) => 0 <= a < ds.len() && opens_video_control(ds[a]) && vc == ds[a][2]
                && forall|i: int| a < i < ds.len() ==> !opens_video_control(#[trigger] ds[i]),
            None => forall|i: int| 0 <= i < ds.len() ==> !opens_video_control(#[trigger] ds[i]),
        },
    decreases ds.len(),
{
    if ds.len() == 0 {
        0
    } else if opens_video_control(ds.last()) {
        ds.len() - 1
    } else {
        let front = ds.drop_last();
        let a = lemma_last_video_control(front);
        assert forall|i: int|
            0 <= i < ds.len() && (last_video_control(front) is Some ==> a < i) implies
            !opens_video_control(#[trigger] ds[i]) by {
            if i < front.len() {
                assert(front[i] == ds[i]);
            }
        }
        if last_video_control(front) is Some {
            assert(front[a] == ds[a]);
        }
        a
    }
}

proof fn lemma_first_camera_terminal(ds: Seq<Seq<u8>>) -> (at: (int, int))
    ensures
        match first_camera_terminal(ds) {
            Some(id) => 0 <= at.0 < at.1 < ds.len() && opens_video_control(ds[at.0])
                && names_camera_terminal(ds[at.1]) && id == ds[at.1][3],
            None => forall|a: int, b: int|
                0 <= a < b < ds.len() && #[trigger] opens_video_control(ds[a])
                    ==> !#[trigger] names_camera_terminal(ds[b]),
        },
    decreases ds.len(),
{
    if ds.len() == 0 {
        (0, 0)
    } else {
        let front = ds.drop_last();
        let at = lemma_first_camera_terminal(front);
        let v = lemma_last_video_control(front);
        if first_camera_terminal(front) is Some {
            assert(front[at.0] == ds[at.0]);
            assert(front[at.1] == ds[at.1]);
            at
        } else if first_camera_terminal(ds) is Some {
            assert(front[v] == ds[v]);
            (v, ds.len() - 1)
        } else {
            assert forall|a: int, b: int|
                0 <= a < b < ds.len() && #[trigger] opens_video_control(ds[a]) implies
                !#[trigger] names_camera_terminal(ds[b]) by {
                assert(front[a] == ds[a]);
                if b < front.len() {
                    assert(front[b] == ds[b]);
                    assert(opens_video_control(front[a]));
                } else {
                    assert(!(last_video_control(front) is None)) by {
                        assert(opens_video_control(front[a]));
                    }
                }
            }
            at
        }
    }
}

/// The entities of a camera are read off its descriptors: the interface is that of a
/// VideoControl interface, the processing unit that of the first one behind it, and the
/// camera terminal one of a camera that stands between.
pub proof fn entities_are_read_off_the_descriptors(ds: Seq<Seq<u8>>) -> (at: (int, int, int))
    ensures
        match topology_of(ds) {
            Some(t) => {
                &&& 0 <= at.0 < at.2 < ds.len()
                &&& opens_video_control(ds[at.0])
                &&& t.vc_interface == ds[at.0][2]
                &&& names_processing_unit(ds[at.2])
                &&& t.processing_unit == ds[at.2][3]
                &&& forall|i: int|
                    at.0 < i < at.2 ==> !opens_video_control(#[trigger] ds[i])
                &&& t.camera_terminal matches Some(id) ==> 0 <= at.1 < at.2
                    && names_camera_terminal(ds[at.1]) && id == ds[at.1][3]
                &&& t.camera_terminal is None ==> forall|i: int|
                    at.0 < i < at.2 ==> !names_camera_terminal(#[trigger] ds[i])
            },
            None => forall|a: int, c: int|
                0 <= a < c < ds.len() && #[trigger] opens_video_control(ds[a])
                    ==> !#[trigger] names_processing_unit(ds[c]),
        },
    decreases ds.len(),
{
    if ds.len() == 0 {
        (0, 0, 0)
    } else {
        let front = ds.drop_last();
        let before = entities_are_read_off_the_descriptors(front);
        let v = lemma_last_video_control(front);
        let t = lemma_first_camera_terminal(front);
        if topology_of(front) is Some {
            assert(front[before.0] == ds[before.0]);
            assert(front[before.2] == ds[before.2]);
            if topology_of(front)->0.camera_terminal is Some {
                assert(front[before.1] == ds[before.1]);
            } else {
                assert forall|i: int| before.0 < i < before.2 implies !names_camera_terminal(
                    #[trigger] ds[i],
                ) by {
                    assert(front[i] == ds[i]);
                }
            }
            assert forall|i: int| before.0 < i < before.2 implies !opens_video_control(
                #[trigger] ds[i],
            ) by {
                assert(front[i] == ds[i]);
            }
            before
        } else if topology_of(ds) is Some {
            assert(front[v] == ds[v]);
            assert forall|i: int| v < i < front.len() implies !opens_video_control(
                #[trigger] ds[i],
            ) by {
                assert(front[i] == ds[i]);
            }
            if first_camera_terminal(front) is Some {
                assert(front[t.1] == ds[t.1]);
            } else {
                assert forall|i: int| v < i < front.len() implies !names_camera_terminal(
                    #[trigger] ds[i],
                ) by {
                    assert(front[i] == ds[i]);
                    assert(opens_video_control(front[v]));
                    assert(!names_camera_terminal(front[i]));
                }
            }
            (v, t.1, ds.len() - 1)
        } else {
            assert forall|a: int, c: int|
                0 <= a < c < ds.len() && #[trigger] opens_video_control(ds[a]) implies
                !#[trigger] names_processing_unit(ds[c]) by {
                assert(front[a] == ds[a]);
                assert(opens_video_control(front[a]));
                if c < front.len() {
                    assert(front[c] == ds[c]);
                    assert(!names_processing_unit(front[c]));
                }
            }
            before
        }
    }
}

// ── Which camera ────────────────────────────────────────────────────────────

proof fn lemma_cut_digits(s: Seq<char>, tail: Seq<char>)
    requires
        all_digits(tail, 16),
    ensures
        without_last_bytes(s + tail, tail.len() as int) == Some(s),
    decreases tail.len(),
{
    if tail.len() == 0 {
        assert(s + tail =~= s);
    } else {
        let all = s + tail;
        assert(all.last() == tail.last());
        assert(0 <= digit_value(tail[tail.len() - 1]) < 16);
        assert(utf8_width(all.last()) == 1);
        assert(all.drop_last() =~= s + tail.drop_last());
        assert(all_digits(tail.drop_last(), 16)) by {
            assert forall|i: int| 0 <= i < tail.drop_last().len() implies 0 <= #[trigger] digit_value(
                tail.drop_last()[i],
            ) < 16 by {
                assert(0 <= digit_value(tail[i]) < 16);
            }
        }
        lemma_cut_digits(s, tail.drop_last());
    }
}

/// The unique id of a camera gives its USB location back: the location in hexadecimal, not
/// padded, then four digits each for the vendor and the product.
pub proof fn locations_are_read_back(location: u32, vendor_id: u16, product_id: u16)
    ensures
        location_of("0x"@ + hex(location as nat) + hex4(vendor_id as nat) + hex4(product_id as nat))
            == Some(location as int),
{
    reveal_strlit("0x");
    let digits = hex(location as nat);
    let ids = hex4(vendor_id as nat) + hex4(product_id as nat);
    lemma_digits_value(location as nat, 16);
    lemma_digits_value(vendor_id as nat, 16);
    lemma_digits_value(product_id as nat, 16);
    lemma_zero_padded(hex(vendor_id as nat), 4, 16);
    lemma_zero_padded(hex(product_id as nat), 4, 16);
    lemma_hex4_len(vendor_id as nat);
    lemma_hex4_len(product_id as nat);
    assert(all_digits(ids, 16)) by {
        assert forall|i: int| 0 <= i < ids.len() implies 0 <= #[trigger] digit_value(ids[i]) < 16 by {
            if i < 4 {
                assert(0 <= digit_value(hex4(vendor_id as nat)[i]) < 16);
            } else {
                assert(0 <= digit_value(hex4(product_id as nat)[i - 4]) < 16);
            }
        }
    }
    let id = "0x"@ + hex(location as nat) + hex4(vendor_id as nat) + hex4(product_id as nat);
    assert(id =~= "0x"@ + (digits + ids));
    assert(id.subrange(0, 2) =~= "0x"@);
    assert(id.skip(2) =~= digits + ids);
    assert(strip_prefix(id, "0x"@) == Some(digits + ids));
    lemma_cut_digits(digits, ids);
    assert(0 <= digit_value(digits[0]) < 16);
    assert(crate::text::without_plus(digits) == digits);
}

/// With no location to go by the only camera there is chosen; none and several are refused.
pub proof fn unlocated_cameras_must_be_alone(devices: Seq<crate::uvc::Attached>)
    ensures
        match crate::uvc::chosen_device(devices, None) {
            Ok(i) => 0 <= i < devices.len() && devices[i] is Some && forall|k: int|
                0 <= k < devices.len() && k != i ==> #[trigger] devices[k] is None,
            Err(e) => {
                ||| e == crate::controls::ControlError::NotFound && forall|k: int|
                    0 <= k < devices.len() ==> #[trigger] devices[k] is None
                ||| e == crate::controls::ControlError::Ambiguous && exists|a: int, b: int|
                    0 <= a < b < devices.len() && #[trigger] devices[a] is Some
                        && #[trigger] devices[b] is Some
            },
        },
{
    lemma_opened(devices);
    let opened = crate::uvc::opened_positions(devices);
    if opened.len() == 0 {
        assert forall|k: int| 0 <= k < devices.len() implies #[trigger] devices[k] is None by {
            if devices[k] is Some {
                assert(opened.contains(k));
            }
        }
    } else if opened.len() == 1 {
        assert forall|k: int| 0 <= k < devices.len() && k != opened[0] implies
            #[trigger] devices[k] is None by {
            if devices[k] is Some {
                assert(opened.contains(k));
            }
        }
    } else {
        let (a, b) = (opened[0], opened[1]);
        assert(a < b);
        assert(devices[a] is Some && devices[b] is Some);
    }
}

proof fn lemma_opened(devices: Seq<crate::uvc::Attached>)
    ensures
        ({
            let opened = crate::uvc::opened_positions(devices);
            &&& forall|i: int|
                0 <= i < opened.len() ==> 0 <= #[trigger] opened[i] < devices.len()
                    && devices[opened[i]] is Some
            &&& forall|i: int, j: int|
                0 <= i < j < opened.len() ==> #[trigger] opened[i] < #[trigger] opened[j]
            &&& forall|k: int|
                0 <= k < devices.len() && (#[trigger] devices[k]) is Some ==> opened.contains(k)
        }),
    decreases devices.len(),
{
    if devices.len() > 0 {
        let front = devices.drop_last();
        lemma_opened(front);
        let less = crate::uvc::opened_positions(front);
        let all = crate::uvc::opened_positions(devices);
        assert forall|i: int| 0 <= i < all.len() implies 0 <= #[trigger] all[i] < devices.len()
            && devices[all[i]] is Some by {
            if i < less.len() {
                assert(all[i] == less[i]);
                assert(front[less[i]] == devices[less[i]]);
            }
        }
        assert forall|i: int, j: int| 0 <= i < j < all.len() implies #[trigger] all[i]
            < #[trigger] all[j] by {
            assert(all[i] == less[i]);
            if j < less.len() {
                assert(all[j] == less[j]);
            } else {
                assert(0 <= less[i] < front.len());
            }
        }
        assert forall|k: int| 0 <= k < devices.len() && (#[trigger] devices[k]) is Some implies
            all.contains(k) by {
            if k < front.len() {
                assert(front[k] == devices[k]);
                assert(less.contains(k));
                let i = choose|i: int| 0 <= i < less.len() && less[i] == k;
                assert(all[i] == k);
            } else {
                assert(all.last() == k);
                assert(all.contains(k));
            }
        }
    }
}

/// Among cameras at one location the first is taken.
pub proof fn located_cameras_are_taken_first(
    devices: Seq<crate::uvc::Attached>,
    location: u32,
    k: int,
)
    requires
        0 <= k < devices.len(),
        devices[k] == Some(Some(location)),
    ensures
        crate::uvc::chosen_device(devices, Some(location)) is Ok,
        crate::uvc::chosen_device(devices, Some(location))->Ok_0 <= k,
    decreases devices.len(),
{
    let front = devices.drop_last();
    if k < front.len() {
        assert(front[k] == devices[k]);
        located_cameras_are_taken_first(front, location, k);
    } else {
        crate::uvc::located_cameras_are_exact(front, location);
    }
}

// ── Batches ─────────────────────────────────────────────────────────────────

/// A batch reports the failure that came first.
pub proof fn batches_report_the_first_failure(
    outcomes: Seq<Result<(), crate::controls::ControlError>>,
    i: int,
)
    requires
        0 <= i < outcomes.len(),
        outcomes[i] is Err,
        forall|k: int| 0 <= k < i ==> #[trigger] outcomes[k] is Ok,
    ensures
        crate::controls::first_failure(outcomes) == outcomes[i],
    decreases i,
{
    if i > 0 {
        assert(outcomes[0] is Ok);
        assert(outcomes.skip(1)[i - 1] == outcomes[i]);
        assert forall|k: int| 0 <= k < i - 1 implies #[trigger] outcomes.skip(1)[k] is Ok by {
            assert(outcomes[k + 1] is Ok);
        }
        batches_report_the_first_failure(outcomes.skip(1), i - 1);
    }
}

/// A batch writes every automatic mode and every value that was asked for, as it was asked
/// for, and the modes before the values.
pub proof fn batches_write_modes_before_values(
    autos: Seq<(AutoToggle, bool)>,
    values: Seq<(CameraControl, i32)>,
)
    ensures
        ({
            let writes = crate::controls::batch_of(autos, values);
            &&& writes.len() == autos.len() + values.len()
            &&& forall|i: int|
                0 <= i < autos.len() ==> #[trigger] writes[i]
                    == crate::controls::SettingWrite::Auto(autos[i].0, autos[i].1)
            &&& forall|i: int|
                0 <= i < values.len() ==> writes[autos.len() + i]
                    == crate::controls::SettingWrite::Value(
                    (#[trigger] values[i]).0,
                    values[i].1,
                )
        }),
{
}

// ── The operations ──────────────────────────────────────────────────────────

/// A value that is set is read back from the bytes that were sent for it: for the exposure
/// every value that is not negative, for brightness and tint every one of sixteen bits with a
/// sign, for the others every one without.
pub proof fn sent_values_are_read_back(
    control: CameraControl,
    value: i32,
    data: Vec<u8>,
    reply: [u8; 4],
    read: i32,
)
    requires
        call_ensures(crate::uvc::encode, (control, value), data),
        call_ensures(crate::uvc::decode, (control, reply), read),
        data@.len() <= 4,
        forall|i: int| 0 <= i < data@.len() ==> reply@[i] == data@[i],
        control == CameraControl::Exposure ==> value >= 0,
        control == CameraControl::Brightness || control == CameraControl::Tint ==> -0x8000 <= value
            <= 0x7fff,
        control != CameraControl::Exposure && control != CameraControl::Brightness && control
            != CameraControl::Tint ==> 0 <= value <= 0xffff,
    ensures
        read == value,
        data@.len() == if control == CameraControl::Exposure {
            4int
        } else {
            2
        },
{
    values_are_written_low_byte_first(control, value);
    replies_are_read_low_byte_first(control, reply@);
}

/// The request sends this one byte to the mode's control.
pub open spec fn sends_mode(
    request: ControlRequest,
    topology: VcTopology,
    toggle: AutoToggle,
    mode: u8,
) -> bool {
    &&& request.request_type == 0x21
    &&& request.request == 0x01
    &&& request.data@ == seq![mode]
    &&& toggle == AutoToggle::Focus ==> request.value == 0x0800
    &&& toggle == AutoToggle::Exposure ==> request.value == 0x0200
    &&& toggle == AutoToggle::WhiteBalance ==> request.value == 0x0b00
    &&& toggle == AutoToggle::WhiteBalance ==> request.index == 0x100 * topology.processing_unit
        + topology.vc_interface
    &&& toggle != AutoToggle::WhiteBalance ==> (topology.camera_terminal matches Some(id)
        && request.index == 0x100 * id + topology.vc_interface)
}

/// Modes are switched by one byte, zero or one; the exposure is switched to automatic by the
/// first of the bytes two, eight and four that the camera accepts, and by one to manual.
pub proof fn modes_are_switched_by_their_byte(
    topology: VcTopology,
    toggle: AutoToggle,
    on: bool,
    out: Result<Vec<ControlRequest>, crate::controls::ControlError>,
)
    requires
        call_ensures(VcTopology::set_auto_requests, (&topology, toggle, on), out),
        toggle == AutoToggle::WhiteBalance || topology.camera_terminal is Some,
    ensures
        out matches Ok(requests) && {
            &&& toggle != AutoToggle::Exposure ==> requests@.len() == 1 && sends_mode(
                requests@[0],
                topology,
                toggle,
                if on {
                    1
                } else {
                    0
                },
            )
            &&& toggle == AutoToggle::Exposure && !on ==> requests@.len() == 1 && sends_mode(
                requests@[0],
                topology,
                toggle,
                1,
            )
            &&& toggle == AutoToggle::Exposure && on ==> requests@.len() == 3 && sends_mode(
                requests@[0],
                topology,
                toggle,
                2,
            ) && sends_mode(requests@[1], topology, toggle, 8) && sends_mode(
                requests@[2],
                topology,
                toggle,
                4,
            )
        },
{
}

/// Switching a mode, and setting a control, succeed when the camera has the entity and
/// accepted a request; a camera without it, or that refused, does not support it.
pub proof fn writes_succeed_when_accepted(
    topology: VcTopology,
    control: CameraControl,
    taken: bool,
    set: Result<(), crate::controls::ControlError>,
    toggle: AutoToggle,
    accepted: &[bool],
    switched: Result<(), crate::controls::ControlError>,
    refused: crate::controls::ControlError,
    unset: Result<(), crate::controls::ControlError>,
)
    requires
        call_ensures(crate::uvc::set_control, (Ok(topology), control, taken), set),
        call_ensures(crate::uvc::set_auto, (Ok(topology), toggle, accepted), switched),
        call_ensures(crate::uvc::set_control, (Err(refused), control, taken), unset),
    ensures
        set is Ok <==> taken && (topology.camera_terminal is Some || control != CameraControl::Zoom
            && control != CameraControl::Focus && control != CameraControl::Exposure),
        set is Err ==> set == Err::<(), crate::controls::ControlError>(
            crate::controls::ControlError::Unsupported,
        ),
        switched is Ok <==> accepted@.contains(true) && (topology.camera_terminal is Some || toggle
            == AutoToggle::WhiteBalance),
        switched is Err ==> switched == Err::<(), crate::controls::ControlError>(
            crate::controls::ControlError::Unsupported,
        ),
        unset == Err::<(), crate::controls::ControlError>(refused),
{
}

/// A range is what the camera replied, the default standing in for a present value that could
/// not be read; a camera without the entity or with a reply missing does not support it.
pub proof fn ranges_are_read_from_the_replies(
    topology: VcTopology,
    control: CameraControl,
    replies: RangeReplies,
    out: Result<crate::controls::ControlRange, crate::controls::ControlError>,
    min: i32,
    max: i32,
    default: i32,
    current: i32,
)
    requires
        call_ensures(crate::uvc::control_range, (Ok(topology), control, &replies), out),
        replies.min matches Some(b) ==> call_ensures(crate::uvc::decode, (control, b), min),
        replies.max matches Some(b) ==> call_ensures(crate::uvc::decode, (control, b), max),
        replies.default matches Some(b) ==> call_ensures(
            crate::uvc::decode,
            (control, b),
            default,
        ),
        replies.current matches Some(b) ==> call_ensures(
            crate::uvc::decode,
            (control, b),
            current,
        ),
    ensures
        out is Ok <==> replies.min is Some && replies.max is Some && replies.default is Some && (
        topology.camera_terminal is Some || control != CameraControl::Zoom && control
            != CameraControl::Focus && control != CameraControl::Exposure),
        out matches Ok(range) ==> range.min == min && range.max == max && range.default == default
            && range.current == if replies.current is Some {
            current
        } else {
            default
        },
        out is Err ==> out == Err::<crate::controls::ControlRange, crate::controls::ControlError>(
            crate::controls::ControlError::Unsupported,
        ),
{
}

/// Every answered control is in the state that is read, whatever else is.
pub proof fn states_hold_what_was_answered(
    topology: VcTopology,
    replies: StateReplies,
    out: Result<crate::controls::CameraState, crate::controls::ControlError>,
    i: int,
    control: CameraControl,
    range: Result<crate::controls::ControlRange, crate::controls::ControlError>,
)
    requires
        call_ensures(crate::uvc::read_camera_state, (Ok(topology), &replies), out),
        replies.controls@.len() == 9,
        replies.autos@.len() == 3,
        0 <= i < 9,
        reads_at(i, control),
        call_ensures(
            crate::uvc::control_range,
            (Ok(topology), control, &replies.controls@[i]),
            range,
        ),
    ensures
        out is Ok,
        range matches Ok(r) ==> out->Ok_0.controls@.contains((control, r)),
        range is Err ==> forall|k: int|
            0 <= k < out->Ok_0.controls@.len() ==> (#[trigger] out->Ok_0.controls@[k]).0
                != control,
{
    answered_controls_are_listed(out->Ok_0, topology, replies, i, control);
}

/// A camera is opened when it is of the vendor, lets itself be opened, and one of its
/// configurations names the entities; where it is attached is handed on.
pub proof fn cameras_open_with_their_entities(
    facts: crate::uvc::ServiceFacts,
    vendor: u16,
    out: Option<(VcTopology, Option<u32>)>,
    topology: Option<VcTopology>,
    configurations: &[Vec<u8>],
)
    requires
        call_ensures(crate::uvc::try_open, (&facts, vendor), out),
        configurations@ == facts.configurations@,
        call_ensures(crate::uvc::video_control_topology, (configurations,), topology),
    ensures
        out is Some <==> facts.vendor_id == vendor && facts.opened && topology is Some,
        out matches Some(found) ==> Some(found.0) == topology && found.1 == facts.location,
{
}

/// The entities are those of the first configuration that names them.
pub proof fn the_first_configuration_counts(
    blobs: &[Vec<u8>],
    i: int,
    topology: Option<VcTopology>,
    blob: &[u8],
    found: Option<VcTopology>,
)
    requires
        call_ensures(crate::uvc::video_control_topology, (blobs,), topology),
        0 <= i < blobs@.len(),
        blob@ == blobs@[i]@,
        call_ensures(crate::uvc::scan_descriptors, (blob,), found),
        found is Some,
        forall|k: int|
            0 <= k < i ==> topology_of(descriptors((#[trigger] blobs@[k])@)) is None,
    ensures
        topology == found,
{
    lemma_first_topology(blobs@, i);
}

proof fn lemma_first_topology(blobs: Seq<Vec<u8>>, i: int)
    requires
        0 <= i < blobs.len(),
        topology_of(descriptors(blobs[i]@)) is Some,
        forall|k: int| 0 <= k < i ==> topology_of(descriptors((#[trigger] blobs[k])@)) is None,
    ensures
        crate::uvc::first_topology(blobs) == topology_of(descriptors(blobs[i]@)),
    decreases i,
{
    if i > 0 {
        assert(topology_of(descriptors(blobs[0]@)) is None);
        let rest = blobs.skip(1);
        assert forall|k: int| 0 <= k < i - 1 implies topology_of(
            descriptors((#[trigger] rest[k])@),
        ) is None by {
            assert(rest[k] == blobs[k + 1]);
        }
        assert(rest[i - 1] == blobs[i]);
        lemma_first_topology(rest, i - 1);
    }
}

/// The length of a configuration stands in its header, low byte first.
pub proof fn headers_tell_the_length(header: [u8; 4], len: usize)
    requires
        call_ensures(crate::uvc::total_length, (header,), len),
    ensures
        len == header@[2] + 0x100 * header@[3],
{
}

/// The id of a camera gives the place where it is attached back.
pub proof fn ids_give_the_place_back(
    location: u32,
    vendor_id: u16,
    product_id: u16,
    id: &str,
    hint: Option<u32>,
)
    requires
        id@ == "0x"@ + hex(location as nat) + hex4(vendor_id as nat) + hex4(product_id as nat),
        call_ensures(crate::uvc::location_hint, (id,), hint),
    ensures
        hint == Some(location),
{
    locations_are_read_back(location, vendor_id, product_id);
}

/// A search keeps the camera at the wanted place and stops there; without a place it keeps
/// the first that opens, and closes every other.
pub proof fn searches_keep_one_camera(
    search: &mut crate::uvc::DeviceSearch,
    device: crate::uvc::Attached,
    what: crate::uvc::Offer,
)
    requires
        !old(search).is_over(),
        old(search).devices().len() < usize::MAX,
        call_ensures(crate::uvc::DeviceSearch::offer, (search, device), what),
    ensures
        final(search).devices() == old(search).devices().push(device),
        final(search).location() == old(search).location(),
        what == crate::uvc::Offer::KeepAndStop <==> old(search).location() is Some && device
            == Some(old(search).location()),
        what == crate::uvc::Offer::Keep <==> old(search).location() is None && device is Some
            && forall|k: int|
            0 <= k < old(search).devices().len() ==> #[trigger] old(search).devices()[k] is None,
{
    let devices = old(search).devices();
    lemma_opened(devices);
    let opened = crate::uvc::opened_positions(devices);
    if opened.len() == 0 {
        assert forall|k: int| 0 <= k < devices.len() implies #[trigger] devices[k] is None by {
            if devices[k] is Some {
                assert(opened.contains(k));
            }
        }
    } else {
        assert(devices[opened[0]] is Some);
    }
}

/// Whatever is set or asked for, the request goes to the control that the standard gives this
/// number: its selector stands in the high byte of the request's value, and the low byte is
/// zero.
pub proof fn requests_name_the_control(
    topology: VcTopology,
    control: CameraControl,
    value: i32,
    request: u8,
    set: Result<ControlRequest, crate::controls::ControlError>,
    get: Result<ControlRequest, crate::controls::ControlError>,
)
    requires
        call_ensures(VcTopology::set_request, (&topology, control, value), set),
        call_ensures(VcTopology::get_request, (&topology, control, request), get),
        topology.camera_terminal is Some || control == CameraControl::Brightness || control
            == CameraControl::Contrast || control == CameraControl::Saturation || control
            == CameraControl::Sharpness || control == CameraControl::WhiteBalance || control
            == CameraControl::Tint,
    ensures
        set is Ok && get is Ok,
        set->Ok_0.value == get->Ok_0.value,
        set->Ok_0.index == get->Ok_0.index,
        set->Ok_0.data@.len() == get->Ok_0.data@.len(),
        ({
            let selector = set->Ok_0.value as int / 0x100;
            &&& set->Ok_0.value as int % 0x100 == 0
            &&& control == CameraControl::Zoom ==> selector == 0x0b
            &&& control == CameraControl::Focus ==> selector == 0x06
            &&& control == CameraControl::Exposure ==> selector == 0x04
            &&& control == CameraControl::Brightness ==> selector == 0x02
            &&& control == CameraControl::Contrast ==> selector == 0x03
            &&& control == CameraControl::Saturation ==> selector == 0x07
            &&& control == CameraControl::Sharpness ==> selector == 0x08
            &&& control == CameraControl::WhiteBalance ==> selector == 0x0a
            &&& control == CameraControl::Tint ==> selector == 0x06
        }),
        set->Ok_0.request_type == 0x21 && set->Ok_0.request == 0x01,
        get->Ok_0.request_type == 0xa1 && get->Ok_0.request == request,
{
}

/// What is sent for a control reads as the value that was set, low byte first.
pub proof fn requests_carry_the_value(
    topology: VcTopology,
    control: CameraControl,
    value: i32,
    set: Result<ControlRequest, crate::controls::ControlError>,
    data: Vec<u8>,
)
    requires
        call_ensures(VcTopology::set_request, (&topology, control, value), set),
        call_ensures(crate::uvc::encode, (control, value), data),
    ensures
        set matches Ok(r) ==> r.data@ == data@,
        0 <= value <= 0xffff ==> data@[0] + 0x100 * data@[1] == value,
        control != CameraControl::Exposure && -0x8000 <= value < 0 ==> data@[0] + 0x100 * data@[1]
            == value + 0x1_0000,
        control == CameraControl::Exposure && value >= 0 ==> data@[0] + 0x100 * data@[1] + 0x1_0000
            * data@[2] + 0x100_0000 * data@[3] == value,
{
    values_are_written_low_byte_first(control, value);
}

/// The mode of a control is asked for at the number that the standard gives it, on the same
/// entity as the control.
pub proof fn mode_requests_name_the_mode(
    topology: VcTopology,
    toggle: AutoToggle,
    request: u8,
    out: Result<ControlRequest, crate::controls::ControlError>,
    control: CameraControl,
    beside: Result<ControlRequest, crate::controls::ControlError>,
)
    requires
        call_ensures(VcTopology::get_auto_request, (&topology, toggle, request), out),
        toggle == AutoToggle::Focus ==> control == CameraControl::Focus,
        toggle == AutoToggle::Exposure ==> control == CameraControl::Exposure,
        toggle == AutoToggle::WhiteBalance ==> control == CameraControl::WhiteBalance,
        call_ensures(VcTopology::get_request, (&topology, control, request), beside),
    ensures
        out is Ok <==> beside is Ok,
        out matches Ok(r) ==> {
            &&& r.index == beside->Ok_0.index
            &&& r.data@.len() == 1
            &&& r.request_type == 0xa1
            &&& r.request == request
            &&& toggle == AutoToggle::Focus ==> r.value == 0x0800
            &&& toggle == AutoToggle::Exposure ==> r.value == 0x0200
            &&& toggle == AutoToggle::WhiteBalance ==> r.value == 0x0b00
        },
{
}

/// Controls of the lens belong to the camera terminal and those of the picture to the
/// processing unit; the exposure takes four bytes and every other value two, and only
/// brightness and tint have a sign.
pub proof fn controls_have_a_home_and_a_size(
    control: CameraControl,
    unit: crate::uvc::Unit,
    len: usize,
    signed: bool,
    selector: u16,
    topology: VcTopology,
    entity: Result<u8, crate::controls::ControlError>,
)
    requires
        call_ensures(CameraControl::unit, (control,), unit),
        call_ensures(CameraControl::payload_len, (control,), len),
        call_ensures(CameraControl::signed, (control,), signed),
        call_ensures(CameraControl::selector, (control,), selector),
        call_ensures(VcTopology::entity, (&topology, unit), entity),
    ensures
        unit == crate::uvc::Unit::CameraTerminal <==> control == CameraControl::Zoom || control
            == CameraControl::Focus || control == CameraControl::Exposure,
        len == 4 <==> control == CameraControl::Exposure,
        len == 2 <==> control != CameraControl::Exposure,
        signed <==> control == CameraControl::Brightness || control == CameraControl::Tint,
        selector == 0x03 <==> control == CameraControl::Contrast,
        selector == 0x07 <==> control == CameraControl::Saturation,
        unit == crate::uvc::Unit::Processing ==> entity == Ok::<
            u8,
            crate::controls::ControlError,
        >(topology.processing_unit),
        unit == crate::uvc::Unit::CameraTerminal ==> match topology.camera_terminal {
            Some(id) => entity == Ok::<u8, crate::controls::ControlError>(id),
            None => entity == Err::<u8, crate::controls::ControlError>(
                crate::controls::ControlError::Unsupported,
            ),
        },
{
}

/// A search ends with the first camera at the wanted place or, without a place, with the only
/// one that opened.
pub proof fn searches_end_with_one_camera(
    search: crate::uvc::DeviceSearch,
    out: Result<usize, crate::controls::ControlError>,
    i: int,
    j: int,
)
    requires
        call_ensures(crate::uvc::DeviceSearch::finish, (&search,), out),
    ensures
        search.location() matches Some(place) ==> {
            &&& out matches Ok(k) ==> k < search.devices().len() && search.devices()[k as int]
                == Some(Some(place))
            &&& 0 <= i < search.devices().len() && search.devices()[i] == Some(Some(place)) ==> (
            out matches Ok(k) && k <= i)
        },
        search.location() is None ==> {
            &&& out matches Ok(k) ==> k < search.devices().len() && search.devices()[k as int]
                is Some
            &&& 0 <= i < j < search.devices().len() && search.devices()[i] is Some
                && search.devices()[j] is Some ==> out == Err::<
                usize,
                crate::controls::ControlError,
            >(crate::controls::ControlError::Ambiguous)
            &&& out == Err::<usize, crate::controls::ControlError>(
                crate::controls::ControlError::NotFound,
            ) ==> !(0 <= i < search.devices().len() && search.devices()[i] is Some)
        },
        out matches Err(e) ==> e == crate::controls::ControlError::NotFound || e
            == crate::controls::ControlError::Ambiguous,
{
    let devices = search.devices();
    match search.location() {
        Some(place) => {
            crate::uvc::located_cameras_are_exact(devices, place);
            if 0 <= i < devices.len() && devices[i] == Some(Some(place)) {
                located_cameras_are_taken_first(devices, place, i);
            }
        },
        None => {
            lemma_opened(devices);
            let opened = crate::uvc::opened_positions(devices);
            if 0 <= i < devices.len() && devices[i] is Some {
                assert(opened.contains(i));
            }
            if 0 <= i < j < devices.len() && devices[i] is Some && devices[j] is Some {
                assert(opened.contains(j));
            }
            if opened.len() == 1 {
                assert(0 <= opened[0] < devices.len());
            }
        },
    }
}

/// The codes of requests are those of the standard.
pub proof fn request_codes_are_those_of_the_standard()
    ensures
        crate::uvc::UVC_SET_CUR == 0x01,
        crate::uvc::UVC_GET_CUR == 0x81,
        crate::uvc::UVC_GET_MIN == 0x82,
        crate::uvc::UVC_GET_MAX == 0x83,
        crate::uvc::UVC_GET_DEF == 0x87,
{
}

/// The list of controls holds each of them once, and the list of modes too.
pub proof fn every_control_is_listed_once(control: CameraControl, toggle: AutoToggle)
    ensures
        exists|i: int|
            0 <= i < 9 && #[trigger] CameraControl::ALL@[i] == control && reads_at(i, control),
        exists|i: int| 0 <= i < 3 && #[trigger] AutoToggle::ALL@[i] == toggle,
{
    assert(CameraControl::ALL@[0] == CameraControl::Zoom);
    assert(CameraControl::ALL@[1] == CameraControl::Focus);
    assert(CameraControl::ALL@[2] == CameraControl::Exposure);
    assert(CameraControl::ALL@[3] == CameraControl::Brightness);
    assert(CameraControl::ALL@[4] == CameraControl::Contrast);
    assert(CameraControl::ALL@[5] == CameraControl::Saturation);
    assert(CameraControl::ALL@[6] == CameraControl::Sharpness);
    assert(CameraControl::ALL@[7] == CameraControl::WhiteBalance);
    assert(CameraControl::ALL@[8] == CameraControl::Tint);
    assert(AutoToggle::ALL@[0] == AutoToggle::Focus);
    assert(AutoToggle::ALL@[1] == AutoToggle::Exposure);
    assert(AutoToggle::ALL@[2] == AutoToggle::WhiteBalance);
}

/// What is no descriptor ends the walk: fewer than two bytes, a length below two, or one
/// beyond the end.
pub proof fn broken_descriptors_end_the_walk(blob: Seq<u8>)
    requires
        blob.len() < 2 || blob[0] < 2 || blob[0] > blob.len(),
    ensures
        descriptors(blob).len() == 0,
{
}

/// The prefix of a camera's id makes no difference to its place.
pub proof fn the_prefix_makes_no_difference(
    id: &str,
    prefixed: &str,
    plain: Option<u32>,
    hint: Option<u32>,
)
    requires
        prefixed@ == "0x"@ + id@,
        !(id@.len() >= 2 && id@.take(2) == "0x"@),
        call_ensures(crate::uvc::location_hint, (id,), plain),
        call_ensures(crate::uvc::location_hint, (prefixed,), hint),
    ensures
        plain == hint,
{
    reveal_strlit("0x");
    assert(prefixed@.subrange(0, 2) =~= "0x"@);
    assert(prefixed@.skip(2) =~= id@);
    if id@.len() >= 2 {
        assert(id@.subrange(0, 2) =~= id@.take(2));
    }
}

} // verus!
