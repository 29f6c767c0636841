//! Laws of the device list as it is built: who is on it, how each is reached, and what its
//! record says.

use vstd::prelude::*;
use vstd::string::*;

use crate::camera::Camera;
use crate::config::{identities_of, Config, DeviceIdentity};
use crate::device::{Capabilities, DeviceInventory, DeviceKind, DeviceModelInfo, PairedDevice};
use crate::device_list_laws::{
    direct_keys_share_a_prefix, leads_to, live_devices_can_be_written_to, live_keys_name_the_device,
    model_keys_are_read_back, records_have_a_source, reports, shows_camera, shows_remembered,
    sorting_adds_no_record, sorting_keeps_every_record,
};
use crate::devices::{
    adopt_transient_record, append_offline_known, assemble_device_list, build_device_list,
    camera_model_info, camera_record, demo_keyboard, device_order_key, direct_key_prefix,
    effective_kind, model_info_from_legacy_model_key, offline_record, pick_initial_device,
    receiver_uid_of, record_wire_pid, selects, sort_device_list, AssetEntry, AssetResolver,
    DeviceRecord, ResolvedAsset,
};
use crate::order::{lemma_text_key_order, lex_lt, text_key, text_lt};
use crate::table::TextSet;
use crate::text::{ascii_lower, decimal, hex, hex4};

verus! {

// ── The list ────────────────────────────────────────────────────────────────

/// The list holds a record of the device: one that leads to its receiver and slot, or to the
/// vendor and the product it has by itself, that says of it what was reported, and that goes
/// by the key of its place.
pub open spec fn lists_device(
    list: Seq<DeviceRecord>,
    at: int,
    inventory: DeviceInventory,
    device: PairedDevice,
) -> bool {
    &&& 0 <= at < list.len()
    &&& leads_to(list[at], inventory, device)
    &&& reports(list[at], device)
    &&& device.slot != 0xff && inventory.receiver.unique_id is Some ==> list[at].config_key@
        == "receiver:"@ + ascii_lower(inventory.receiver.unique_id->0@) + ":slot:"@ + decimal(
        device.slot as nat,
    )
    &&& device.slot == 0xff ==> list[at].config_key@.len() > 17 && list[at].config_key@.take(17)
        == "direct:"@ + hex4(inventory.receiver.vendor_id as nat) + ":"@ + hex4(
        inventory.receiver.product_id as nat,
    ) + ":"@
}

/// Every device of every receiver that is plugged in is on the list, and can be reached where
/// its receiver can.
pub proof fn reported_devices_are_on_the_list(
    inventories: &[DeviceInventory],
    cache: AssetResolver,
    config: Config,
    cameras: &[Camera],
    demo: bool,
    assembled: Vec<DeviceRecord>,
    built: Vec<DeviceRecord>,
    i: int,
    k: int,
) -> (at: (int, int))
    requires
        call_ensures(
            assemble_device_list,
            (inventories, &cache, &config, cameras, demo),
            assembled,
        ),
        call_ensures(build_device_list, (inventories, &cache, &config, cameras), built),
        0 <= i < inventories@.len(),
        0 <= k < inventories@[i].paired@.len(),
    ensures
        lists_device(assembled@, at.0, inventories@[i], inventories@[i].paired@[k]),
        lists_device(built@, at.1, inventories@[i], inventories@[i].paired@[k]),
{
    let known = identities_of(config.devices.rows());
    assert(assembled.len() <= usize::MAX);
    assert(built.len() <= usize::MAX);
    let a = live_devices_can_be_written_to(
        assembled@,
        inventories@,
        cache,
        known,
        cameras@,
        demo,
        i,
        k,
    );
    let b = live_devices_can_be_written_to(
        built@,
        inventories@,
        cache,
        known,
        cameras@,
        false,
        i,
        k,
    );
    live_keys_name_the_device(assembled@[a], inventories@[i], inventories@[i].paired@[k], cache);
    live_keys_name_the_device(built@[b], inventories@[i], inventories@[i].paired@[k], cache);
    (a, b)
}

/// Nothing is on the list that is neither a reported device, nor a camera, nor a remembered
/// device that is away; only reported devices can be written to.
pub proof fn nothing_else_is_on_the_list(
    inventories: &[DeviceInventory],
    cache: AssetResolver,
    config: Config,
    cameras: &[Camera],
    built: Vec<DeviceRecord>,
    at: int,
)
    requires
        call_ensures(build_device_list, (inventories, &cache, &config, cameras), built),
        0 <= at < built@.len(),
    ensures
        ({
            let known = identities_of(config.devices.rows());
            ||| exists|i: int, k: int|
                0 <= i < inventories@.len() && 0 <= k < inventories@[i].paired@.len() && leads_to(
                    built@[at],
                    #[trigger] inventories@[i],
                    #[trigger] inventories@[i].paired@[k],
                ) && reports(built@[at], inventories@[i].paired@[k])
            ||| built@[at].route is None && exists|i: int|
                0 <= i < cameras@.len() && shows_camera(built@[at], #[trigger] cameras@[i])
            ||| built@[at].route is None && exists|i: int|
                0 <= i < known.len() && shows_remembered(
                    built@[at],
                    (#[trigger] known[i]).0@,
                    known[i].1,
                )
        }),
{
    records_have_a_source(
        built@,
        inventories@,
        cache,
        identities_of(config.devices.rows()),
        cameras@,
        false,
        at,
    );
}

/// Sorting keeps every record and adds none, and sorts by the key of the order.
pub proof fn sorting_only_moves_records(
    list: &mut Vec<DeviceRecord>,
    i: int,
    j: int,
    a: Vec<u32>,
    b: Vec<u32>,
)
    requires
        call_ensures(sort_device_list, (list,), ()),
        0 <= i < j < final(list)@.len(),
        call_ensures(device_order_key, (&final(list)@[i],), a),
        call_ensures(device_order_key, (&final(list)@[j],), b),
    ensures
        final(list)@.len() == old(list)@.len(),
        old(list)@.contains(final(list)@[i]),
        forall|k: int|
            0 <= k < old(list)@.len() ==> final(list)@.contains(#[trigger] old(list)@[k]),
        lex_lt(a@, b@) || a@ == b@,
{
    assert(final(list).len() <= usize::MAX);
    let p = sorting_adds_no_record(old(list)@, final(list)@, i);
    assert forall|k: int| 0 <= k < old(list)@.len() implies final(list)@.contains(
        #[trigger] old(list)@[k],
    ) by {
        let q = sorting_keeps_every_record(old(list)@, final(list)@, k);
        assert(final(list)@[q] == old(list)@[k]);
    }
    crate::device_list_laws::sorted_list_ascends(old(list)@, final(list)@, i, j);
}

// ── Records ─────────────────────────────────────────────────────────────────

/// The registry decides what kind a device is where it has an opinion, and otherwise the
/// device itself.
pub proof fn the_registry_decides_the_kind(
    own: DeviceKind,
    registered: Option<DeviceKind>,
    kind: DeviceKind,
)
    requires
        call_ensures(effective_kind, (own, registered), kind),
    ensures
        registered is None || registered == Some(DeviceKind::Unknown) ==> kind == own,
        registered is Some && registered != Some(DeviceKind::Unknown) ==> kind == registered->0,
{
}

/// The model has this number and nothing else that is known of it.
pub open spec fn is_only(model: DeviceModelInfo, extended: u8, product: u16) -> bool {
    &&& model.extended_model_id == extended
    &&& model.model_ids@ == seq![product, 0u16, 0u16]
    &&& model.entity_count == 0
    &&& model.serial_number is None
    &&& model.unit_id@ == seq![0u8, 0u8, 0u8, 0u8]
    &&& !model.transports.usb && !model.transports.equad && !model.transports.btle
        && !model.transports.bluetooth
}

/// A camera is looked up by its product, and shown with its name under the key of its id.
pub proof fn cameras_have_records(
    camera: Camera,
    cache: AssetResolver,
    model: DeviceModelInfo,
    record: DeviceRecord,
)
    requires
        call_ensures(camera_model_info, (&camera,), model),
        call_ensures(camera_record, (&camera, &cache), record),
    ensures
        is_only(model, 0, camera.product_id),
        shows_camera(record, camera),
        record.persistent,
        record.slot == 0,
        record.model_info is None && record.codename is None,
        record.unit_id@ == seq![0u8, 0u8, 0u8, 0u8],
{
}

/// The key of a model that was remembered by its model gives the model back, and nothing
/// shorter or with another character in it is such a key.
pub proof fn model_keys_give_the_model_back(
    extended: u8,
    product: u16,
    key: &str,
    model: Option<DeviceModelInfo>,
    other: &str,
    none: Option<DeviceModelInfo>,
    i: int,
)
    requires
        key@ == hex(extended as nat) + hex4(product as nat),
        call_ensures(model_info_from_legacy_model_key, (key,), model),
        call_ensures(model_info_from_legacy_model_key, (other,), none),
        other@.len() <= 4 || (0 <= i < other@.len() && (other@[i] as int) > 102),
    ensures
        model matches Some(m) && is_only(m, extended, product),
        none is None,
{
    model_keys_are_read_back(extended, product);
    if other@.len() > 4 {
        assert(crate::text::digit_value(other@[i]) < 0);
    }
}

/// A remembered device that is away is shown as it was remembered, under its key, and is
/// neither there nor reachable.
pub proof fn remembered_devices_have_records(
    key: &str,
    identity: DeviceIdentity,
    cache: AssetResolver,
    record: DeviceRecord,
)
    requires
        call_ensures(offline_record, (key, &identity, &cache), record),
    ensures
        shows_remembered(record, key@, identity),
        identity.model_info is Some ==> record.model_info == identity.model_info,
        record.serial_number is None,
        record.slot == 0,
{
}

/// The keyboard for show is a lit keyboard that is there and cannot be reached.
pub proof fn the_keyboard_for_show_is_lit(record: DeviceRecord)
    requires
        call_ensures(demo_keyboard, (), record),
    ensures
        record.config_key@ == "demo-g513"@,
        record.display_name@ == "Logitech G513"@,
        record.kind == DeviceKind::Keyboard,
        record.online,
        record.persistent,
        record.route is None,
        record.battery is None,
        record.capabilities == Some(
            Capabilities {
                buttons: false,
                pointer: false,
                lighting: true,
                scroll_inversion: false,
                hires_wheel: false,
            },
        ),
{
}

/// A record's key is kept only where it may be.
pub proof fn only_persistent_keys_are_kept(record: DeviceRecord, key: Option<&str>, yes: bool)
    requires
        call_ensures(DeviceRecord::persistent_config_key, (&record,), key),
        call_ensures(DeviceRecord::is_persistent, (&record,), yes),
    ensures
        yes <==> record.persistent,
        key is Some <==> record.persistent,
        key matches Some(k) ==> k@ == record.config_key@,
{
}

/// The number by which a record is known on the wire is the first product number of its
/// model, in four digits, or else the one in its model key, in small letters.
pub proof fn records_are_known_on_the_wire(record: DeviceRecord, pid: Option<String>)
    requires
        call_ensures(record_wire_pid, (&record,), pid),
    ensures
        record.model_info matches Some(m) ==> m.model_ids@[0] != 0 ==> (pid matches Some(text)
            && text@ == hex4(m.model_ids@[0] as nat)),
        record.model_info is None && record.model_key@.len() >= 4 && record.model_key@.take(4)
            == "wpid"@ ==> (pid matches Some(text) && text@ == ascii_lower(
            record.model_key@.skip(4),
        )),
        record.model_info is None && (record.model_key@.len() < 4 || record.model_key@.take(4)
            != "wpid"@) ==> pid is None,
{
    reveal_strlit("wpid");
    if record.model_key@.len() >= 4 {
        assert(record.model_key@.subrange(0, 4) =~= record.model_key@.take(4));
    }
}

/// The key of a device in a receiver's slot gives the receiver back, in small letters; no
/// other key names one.
pub proof fn keys_give_the_receiver_back(
    uid: Seq<char>,
    slot: u8,
    key: &str,
    receiver: Option<String>,
    other: &str,
    none: Option<String>,
)
    requires
        !uid.contains(':'),
        key@ == "receiver:"@ + uid + ":slot:"@ + decimal(slot as nat),
        call_ensures(receiver_uid_of, (key,), receiver),
        call_ensures(receiver_uid_of, (other,), none),
        other@.len() < 9 || other@.take(9) != "receiver:"@,
    ensures
        receiver matches Some(text) && text@ == ascii_lower(uid),
        none is None,
{
    reveal_strlit("receiver:");
    reveal_strlit(":slot:");
    reveal_strlit(":");
    assert(":"@ =~= seq![':']);
    let rest = uid + ":slot:"@ + decimal(slot as nat);
    assert(key@ =~= "receiver:"@ + rest);
    assert(key@.subrange(0, 9) =~= "receiver:"@);
    assert(key@.skip(9) =~= rest);
    let tail = ":slot:"@.skip(1) + decimal(slot as nat);
    assert(rest =~= uid + seq![':'] + tail);
    assert forall|i: int| 0 <= i < uid.len() implies uid[i] != ':' by {
        assert(uid.contains(uid[i]));
    }
    crate::text::lemma_find_separator(uid, ':', tail);
    if other@.len() >= 9 {
        assert(other@.subrange(0, 9) =~= other@.take(9));
    }
}

/// All keys of one product that is plugged in by itself share the vendor and the product.
pub proof fn direct_keys_share_their_product(
    vendor: u16,
    product: u16,
    serial: Seq<char>,
    key: &str,
    prefix: Option<String>,
)
    requires
        serial.len() > 0,
        key@ == "direct:"@ + hex4(vendor as nat) + ":"@ + hex4(product as nat) + ":"@ + (
        "serial:"@ + ascii_lower(serial)),
        call_ensures(direct_key_prefix, (key,), prefix),
    ensures
        prefix matches Some(text) && text@ == "direct:"@ + hex4(vendor as nat) + ":"@ + hex4(
            product as nat,
        ),
{
    direct_keys_share_a_prefix(vendor, product, 0xff, Some(serial), seq![0u8, 0u8, 0u8, 0u8]);
}

// ── Selection ───────────────────────────────────────────────────────────────

/// The device that was used last is selected again, the first of its key among those that
/// may be kept; without it the first of the list is.
pub proof fn the_last_device_is_selected_again(
    list: &[DeviceRecord],
    saved: Option<&str>,
    index: usize,
    i: int,
)
    requires
        call_ensures(pick_initial_device, (list, saved), index),
    ensures
        saved is None ==> index == 0,
        saved matches Some(key) ==> 0 <= i < list@.len() && list@[i].persistent
            && list@[i].config_key@ == key@ ==> index <= i && list@[index as int].persistent
            && list@[index as int].config_key@ == key@,
        saved matches Some(key) ==> index > 0 ==> index < list@.len()
            && list@[index as int].config_key@ == key@ && list@[index as int].persistent,
{
    if let Some(key) = saved {
        if 0 <= i < list@.len() && list@[i].persistent && list@[i].config_key@ == key@ {
            assert(selects(list@, i, key@));
        }
    }
}

/// A device that could not be told apart takes the card of the one it is known to be: the
/// card keeps its name and its key, and goes where the device is.
pub proof fn adopted_devices_keep_their_card(
    known: DeviceRecord,
    live: DeviceRecord,
    out: DeviceRecord,
)
    requires
        call_ensures(adopt_transient_record, (&known, live), out),
    ensures
        out.config_key == known.config_key,
        out.persistent,
        out.model_key == known.model_key,
        out.display_name == known.display_name,
        out.serial_number == known.serial_number,
        out.unit_id == known.unit_id,
        out.route == live.route,
        out.slot == live.slot,
        out.online == live.online,
        out.battery == if live.battery is Some {
            live.battery
        } else {
            known.battery
        },
        out.capabilities == if live.capabilities is Some {
            live.capabilities
        } else {
            known.capabilities
        },
        out.asset == if known.asset is Some {
            known.asset
        } else {
            live.asset
        },
        out.model_info == if known.model_info is Some {
            known.model_info
        } else {
            live.model_info
        },
        out.codename == if known.codename is Some {
            known.codename
        } else {
            live.codename
        },
        out.kind == if known.kind == DeviceKind::Unknown {
            live.kind
        } else {
            known.kind
        },
{
}

/// Appending what is remembered leaves what is there where it was.
pub proof fn appending_moves_nothing(
    list: &mut Vec<DeviceRecord>,
    known: Vec<(String, DeviceIdentity)>,
    cache: AssetResolver,
    receivers: TextSet,
    i: int,
)
    requires
        call_ensures(append_offline_known, (list, &known, &cache, &receivers), ()),
        0 <= i < old(list)@.len(),
    ensures
        old(list)@.len() <= final(list)@.len(),
        final(list)@[i] == old(list)@[i],
{
}

/// An asset is found for the model and the codename that it was entered for: of several the
/// first, and for no other.
pub proof fn assets_are_found_for_their_model(
    cache: AssetResolver,
    model: DeviceModelInfo,
    codename: Option<&str>,
    out: Option<ResolvedAsset>,
    j: int,
)
    requires
        call_ensures(AssetResolver::resolve, (&cache, &model, codename), out),
    ensures
        out matches Some(asset) ==> exists|i: int|
            0 <= i < cache.entries@.len() && (#[trigger] cache.entries@[i]).asset == asset
                && entered_for(cache.entries@[i], model, codename),
        0 <= j < cache.entries@.len() && entered_for(cache.entries@[j], model, codename) ==> out
            is Some,
{
    lemma_first_entry(cache.entries@, model, codename, j);
}

/// The entry is for this model and this codename.
pub open spec fn entered_for(
    entry: AssetEntry,
    model: DeviceModelInfo,
    codename: Option<&str>,
) -> bool {
    &&& entry.model.entity_count == model.entity_count
    &&& entry.model.serial_number is Some == model.serial_number is Some
    &&& entry.model.serial_number is Some ==> entry.model.serial_number->0@
        == model.serial_number->0@
    &&& entry.model.unit_id@ == model.unit_id@
    &&& entry.model.transports == model.transports
    &&& entry.model.model_ids@ == model.model_ids@
    &&& entry.model.extended_model_id == model.extended_model_id
    &&& entry.codename is Some == codename is Some
    &&& entry.codename is Some ==> entry.codename->0@ == codename->0@
}

proof fn lemma_first_entry(
    entries: Seq<AssetEntry>,
    model: DeviceModelInfo,
    codename: Option<&str>,
    j: int,
)
    ensures
        ({
            let out = crate::devices::first_answer(
                entries,
                model,
                crate::text::optional_view(codename),
            );
            &&& out matches Some(asset) ==> exists|i: int|
                0 <= i < entries.len() && (#[trigger] entries[i]).asset == asset && entered_for(
                    entries[i],
                    model,
                    codename,
                )
            &&& 0 <= j < entries.len() && entered_for(entries[j], model, codename) ==> out is Some
        }),
    decreases entries.len(),
{
    if entries.len() > 0 {
        let view = crate::text::optional_view(codename);
        if entries[0].answers(model, view) {
            assert(entries[0].asset == crate::devices::first_answer(entries, model, view)->0);
            assert(entered_for(entries[0], model, codename));
        } else {
            let rest = entries.skip(1);
            lemma_first_entry(rest, model, codename, j - 1);
            if let Some(asset) = crate::devices::first_answer(rest, model, view) {
                let i = choose|i: int|
                    0 <= i < rest.len() && (#[trigger] rest[i]).asset == asset && entered_for(
                        rest[i],
                        model,
                        codename,
                    );
                assert(entries[i + 1] == rest[i]);
            }
            if 0 < j < entries.len() {
                assert(rest[j - 1] == entries[j]);
            }
            if j == 0 && entered_for(entries[0], model, codename) {
                assert(entries[0].answers(model, view));
            }
        }
    }
}

proof fn lemma_same_answer(
    entries: Seq<AssetEntry>,
    a: DeviceModelInfo,
    b: DeviceModelInfo,
    codename: Option<Seq<char>>,
)
    requires
        a.same_values(b),
    ensures
        crate::devices::first_answer(entries, a, codename) == crate::devices::first_answer(
            entries,
            b,
            codename,
        ),
    decreases entries.len(),
{
    if entries.len() > 0 {
        lemma_same_answer(entries.skip(1), a, b, codename);
    }
}

/// A camera is drawn with the asset that is found for its product and its name.
pub proof fn cameras_are_drawn_with_their_asset(
    camera: Camera,
    cache: AssetResolver,
    model: DeviceModelInfo,
    name: &str,
    asset: Option<ResolvedAsset>,
    record: DeviceRecord,
)
    requires
        call_ensures(camera_model_info, (&camera,), model),
        name@ == camera.name@,
        call_ensures(AssetResolver::resolve, (&cache, &model, Some(name)), asset),
        call_ensures(camera_record, (&camera, &cache), record),
    ensures
        record.asset == asset,
        record.model_key@ == record.config_key@,
{
    let m = choose|m: DeviceModelInfo| #[trigger]
        crate::devices::is_bare_model(m, 0, camera.product_id) && record.asset == cache.answer(
            m,
            Some(camera.name@),
        );
    assert(m.same_values(model));
    lemma_same_answer(cache.entries@, m, model, Some(camera.name@));
}

/// A remembered device is drawn with the asset of its model, and its model key is that of the
/// model: the one that was stored, or the one that its key spells.
pub proof fn remembered_devices_keep_their_model(
    key: &str,
    identity: DeviceIdentity,
    cache: AssetResolver,
    record: DeviceRecord,
    codename: Option<&str>,
    asset: Option<ResolvedAsset>,
    spelled: Option<DeviceModelInfo>,
)
    requires
        call_ensures(offline_record, (key, &identity, &cache), record),
        call_ensures(model_info_from_legacy_model_key, (key,), spelled),
        codename is Some == identity.codename is Some,
        codename is Some ==> codename->0@ == identity.codename->0@,
        record.model_info matches Some(m) ==> call_ensures(
            AssetResolver::resolve,
            (&cache, &m, codename),
            asset,
        ),
    ensures
        record.model_info is Some ==> record.asset == asset,
        record.model_info is None ==> record.asset is None,
        identity.model_info is None ==> (record.model_info is Some <==> spelled is Some),
        identity.model_info is None ==> (record.model_info matches Some(m) ==>
            m.extended_model_id == spelled->0.extended_model_id && m.model_ids@
            == spelled->0.model_ids@),
        record.model_info matches Some(m) ==> record.model_key@ == hex(m.extended_model_id as nat)
            + hex4(m.model_ids@[0] as nat),
        record.model_info is None ==> record.model_key@ == key@,
{
}

/// A live device is called by its asset's name where there is one, else by its codename made
/// readable, else by its slot; its kind is the registry's where that has an opinion.
pub proof fn live_devices_go_by_their_name(
    inventories: &[DeviceInventory],
    cache: AssetResolver,
    config: Config,
    cameras: &[Camera],
    built: Vec<DeviceRecord>,
    i: int,
    k: int,
    raw: &str,
    codename: Option<&str>,
    readable: String,
    asset: Option<ResolvedAsset>,
) -> (at: int)
    requires
        call_ensures(build_device_list, (inventories, &cache, &config, cameras), built),
        0 <= i < inventories@.len(),
        0 <= k < inventories@[i].paired@.len(),
        ({
            let d = inventories@[i].paired@[k];
            &&& codename is Some == d.codename is Some
            &&& codename is Some ==> codename->0@ == d.codename->0@
            &&& d.codename matches Some(name) ==> raw@ == name@ && call_ensures(
                crate::codename::prettify_codename,
                (raw,),
                readable,
            )
            &&& d.model_info matches Some(m) ==> call_ensures(
                AssetResolver::resolve,
                (&cache, &m, codename),
                asset,
            )
            &&& d.model_info is None ==> asset is None
        }),
    ensures
        lists_device(built@, at, inventories@[i], inventories@[i].paired@[k]),
        built@[at].asset == asset,
        asset matches Some(a) ==> built@[at].display_name@ == a.display_name@,
        asset is None && codename is Some ==> built@[at].display_name@ == readable@,
        asset is None && codename is None ==> built@[at].display_name@ == "Slot "@ + decimal(
            inventories@[i].paired@[k].slot as nat,
        ),
        asset is None || asset->0.kind == DeviceKind::Unknown ==> built@[at].kind
            == inventories@[i].paired@[k].kind,
        asset is Some && asset->0.kind != DeviceKind::Unknown ==> built@[at].kind
            == asset->0.kind,
{
    let known = identities_of(config.devices.rows());
    assert(built.len() <= usize::MAX);
    let at = live_devices_can_be_written_to(
        built@,
        inventories@,
        cache,
        known,
        cameras@,
        false,
        i,
        k,
    );
    live_keys_name_the_device(built@[at], inventories@[i], inventories@[i].paired@[k], cache);
    at
}

/// Among devices of one product those with a serial number come first, in the order of the
/// numbers, and then those with a unit number, in the order of its bytes.
pub proof fn units_of_a_product_stand_in_order(
    vendor_id: u16,
    product_id: u16,
    a: DeviceRecord,
    b: DeviceRecord,
    x: Vec<u32>,
    y: Vec<u32>,
    n: int,
)
    requires
        a.route == Some(crate::device_order::DeviceRoute::Direct { vendor_id, product_id }),
        b.route == a.route,
        call_ensures(device_order_key, (&a,), x),
        call_ensures(device_order_key, (&b,), y),
    ensures
        (a.serial_number matches Some(s) && s@.len() > 0) && (b.serial_number is None
            || b.serial_number->0@.len() == 0) ==> lex_lt(x@, y@),
        (a.serial_number is None || a.serial_number->0@.len() == 0) && (b.serial_number is None
            || b.serial_number->0@.len() == 0) && 0 <= n < 4 && a.unit_id@.take(n)
            == b.unit_id@.take(n) && a.unit_id@[n] < b.unit_id@[n] ==> lex_lt(x@, y@),
{
    reveal_with_fuel(lex_lt, 9);
    if 0 <= n < 4 && a.unit_id@.take(n) == b.unit_id@.take(n) {
        assert(n > 0 ==> a.unit_id@.take(n)[0] == b.unit_id@.take(n)[0]);
        assert(n > 1 ==> a.unit_id@.take(n)[1] == b.unit_id@.take(n)[1]);
        assert(n > 2 ==> a.unit_id@.take(n)[2] == b.unit_id@.take(n)[2]);
    }
}

proof fn lemma_common_front(front: Seq<u32>, a: Seq<u32>, b: Seq<u32>)
    ensures
        lex_lt(front + a, front + b) == lex_lt(a, b),
    decreases front.len(),
{
    if front.len() == 0 {
        assert(front + a =~= a);
        assert(front + b =~= b);
    } else {
        assert((front + a).skip(1) =~= front.skip(1) + a);
        assert((front + b).skip(1) =~= front.skip(1) + b);
        lemma_common_front(front.skip(1), a, b);
    }
}

/// Records of one place stand by their model, and those of one model by their name.
pub proof fn records_of_a_place_stand_by_model_and_name(
    a: DeviceRecord,
    b: DeviceRecord,
    x: Vec<u32>,
    y: Vec<u32>,
)
    requires
        a.route == b.route,
        a.slot == b.slot,
        a.serial_number == b.serial_number,
        a.unit_id@ == b.unit_id@,
        call_ensures(device_order_key, (&a,), x),
        call_ensures(device_order_key, (&b,), y),
    ensures
        text_lt(a.model_key@, b.model_key@) ==> lex_lt(x@, y@),
        a.model_key@ == b.model_key@ && text_lt(a.display_name@, b.display_name@) ==> lex_lt(
            x@,
            y@,
        ),
{
    let front = crate::device_order::stable_sort_key(
        a.route,
        a.slot,
        crate::text::optional_text(a.serial_number),
        a.unit_id@,
    );
    let (p, q) = (text_key(a.display_name@), text_key(b.display_name@));
    assert(x@ =~= front + (text_key(a.model_key@) + p));
    assert(y@ =~= front + (text_key(b.model_key@) + q));
    lemma_common_front(front, text_key(a.model_key@) + p, text_key(b.model_key@) + q);
    lemma_text_key_order(a.model_key@, p, b.model_key@, q);
    lemma_text_key_order(a.display_name@, Seq::empty(), b.display_name@, Seq::empty());
    assert(p + Seq::<u32>::empty() =~= p);
    assert(q + Seq::<u32>::empty() =~= q);
}

/// Units of one product with serial numbers stand by those, in whatever case they are
/// written; devices without a route stand by their slot, behind every other.
pub proof fn serial_numbers_and_slots_order_records(
    vendor_id: u16,
    product_id: u16,
    a: DeviceRecord,
    b: DeviceRecord,
    x: Vec<u32>,
    y: Vec<u32>,
)
    requires
        call_ensures(device_order_key, (&a,), x),
        call_ensures(device_order_key, (&b,), y),
    ensures
        a.route == Some(crate::device_order::DeviceRoute::Direct { vendor_id, product_id })
            && b.route == a.route && a.serial_number is Some && b.serial_number is Some
            && a.serial_number->0@.len() > 0 && b.serial_number->0@.len() > 0 && text_lt(
            ascii_lower(a.serial_number->0@),
            ascii_lower(b.serial_number->0@),
        ) ==> lex_lt(x@, y@),
        a.route is Some && b.route is None ==> lex_lt(x@, y@),
        a.route is None && b.route is None && a.slot < b.slot ==> lex_lt(x@, y@),
{
    reveal_with_fuel(lex_lt, 3);
    if a.route == Some(crate::device_order::DeviceRoute::Direct { vendor_id, product_id })
        && b.route == a.route && a.serial_number is Some && b.serial_number is Some
        && a.serial_number->0@.len() > 0 && b.serial_number->0@.len() > 0 {
        let front = seq![1u32, vendor_id as u32, product_id as u32, 0u32];
        let (s, t) = (ascii_lower(a.serial_number->0@), ascii_lower(b.serial_number->0@));
        let p = text_key(a.model_key@) + text_key(a.display_name@);
        let q = text_key(b.model_key@) + text_key(b.display_name@);
        assert(x@ =~= front + (text_key(s) + p));
        assert(y@ =~= front + (text_key(t) + q));
        lemma_common_front(front, text_key(s) + p, text_key(t) + q);
        lemma_text_key_order(s, p, t, q);
    }
    if a.route is None && b.route is None {
        assert(x@[1] == a.slot as u32 && y@[1] == b.slot as u32);
        assert(x@.skip(1)[0] == x@[1] && y@.skip(1)[0] == y@[1]);
    }
}

} // verus!
