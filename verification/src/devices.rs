//! The device list: what is connected, together with what is remembered.

use vstd::prelude::*;
use vstd::string::*;

use crate::camera::Camera;
use crate::codename::{pretty, prettify_codename};
use crate::config::{identities_of, Config, DeviceIdentity};
use crate::device::{
    clone_model_info, model_key_text, no_capabilities, no_transports, BatteryInfo, Capabilities,
    DeviceInventory, DeviceKind, DeviceModelInfo, DeviceTransports, PairedDevice,
};
use crate::device_order::{
    clone_route, is_physical_key, is_transient_key, route_for, stable_is_physical, stable_key,
    stable_sort_key, DeviceRoute, DeviceStableId, PhysicalDeviceKey,
};
use crate::order::{before, key_views, push_text_key, sorted_positions, stable_order, text_key};
use crate::table::TextSet;
use crate::text::{
    after_first, all_digits, ascii_lower, before_first, borrow_optional, chars_of, clone_optional,
    decimal, decimal_text, digit_value, digits_value, following, head, hex4, lowercased,
    optional_text, optional_view, padded_hex_text, parsed_number, position, preceding,
    same_optional_text, same_text, string_of, strip_prefix, tail, without_plus, without_prefix,
};

verus! {

// ── Product assets ──────────────────────────────────────────────────────────

/// What the asset registry knows of a model.
#[derive(Debug)]
pub struct ResolvedAsset {
    /// The curated product name.
    pub display_name: String,
    /// The registry's device type.
    pub kind: DeviceKind,
}

impl Clone for ResolvedAsset {
    fn clone(&self) -> (out: Self)
        ensures
            out == *self,
    {
        ResolvedAsset { display_name: self.display_name.clone(), kind: self.kind }
    }
}

fn clone_asset(asset: &Option<ResolvedAsset>) -> (out: Option<ResolvedAsset>)
    ensures
        out == *asset,
{
    match asset {
        Some(a) => Some(a.clone()),
        None => None,
    }
}

/// One answer of the asset registry.
#[derive(Debug)]
pub struct AssetEntry {
    /// The model that was asked for.
    pub model: DeviceModelInfo,
    /// The codename that was asked for.
    pub codename: Option<String>,
    /// The answer.
    pub asset: ResolvedAsset,
}

impl AssetEntry {
    /// The entry answers for this model and codename.
    pub open spec fn answers(self, model: DeviceModelInfo, codename: Option<Seq<char>>) -> bool {
        self.model.same_values(model) && optional_text(self.codename) == codename
    }
}

/// The answers of the asset registry that are at hand.
#[derive(Debug)]
pub struct AssetResolver {
    /// The answers; for a question asked twice the first one counts.
    pub entries: Vec<AssetEntry>,
}

/// The first entry that answers for this model and codename.
pub open spec fn first_answer(
    entries: Seq<AssetEntry>,
    model: DeviceModelInfo,
    codename: Option<Seq<char>>,
) -> Option<ResolvedAsset>
    decreases entries.len(),
{
    if entries.len() == 0 {
        None
    } else if entries[0].answers(model, codename) {
        Some(entries[0].asset)
    } else {
        first_answer(entries.skip(1), model, codename)
    }
}

impl AssetResolver {
    /// The asset at hand for this model and codename.
    pub open spec fn answer(
        self,
        model: DeviceModelInfo,
        codename: Option<Seq<char>>,
    ) -> Option<ResolvedAsset> {
        first_answer(self.entries@, model, codename)
    }

    /// A resolver with no answers.
    pub fn new() -> (out: Self)
        ensures
            out.entries@.len() == 0,
    {
        AssetResolver { entries: Vec::new() }
    }

    /// The asset for a model, when one is at hand.
    pub fn resolve(&self, model: &DeviceModelInfo, codename: Option<&str>) -> (out: Option<
        ResolvedAsset,
    >)
        ensures
            out == self.answer(*model, optional_view(codename)),
    {
        let n: usize = self.entries.len();
        let mut i: usize = 0;
        assert(self.entries@.skip(0) =~= self.entries@);
        while i < n
            invariant
                i <= n,
                n == self.entries@.len(),
                self.answer(*model, optional_view(codename)) == first_answer(
                    self.entries@.skip(i as int),
                    *model,
                    optional_view(codename),
                ),
            decreases n - i,
        {
            let entry: &AssetEntry = &self.entries[i];
            if entry.model.matches(model) && same_optional_text(
                borrow_optional(&entry.codename),
                codename,
            ) {
                return Some(entry.asset.clone());
            }
            assert(self.entries@.skip(i as int).skip(1) =~= self.entries@.skip(i as int + 1));
            i = i + 1;
        }
        None
    }
}

// ── Records ─────────────────────────────────────────────────────────────────

/// One device with everything that a view needs to switch to it.
#[derive(Debug)]
pub struct DeviceRecord {
    /// Route-derived key for runtime state and, when the record is persistent,
    /// for persisted settings.
    pub config_key: String,
    /// Whether the key identifies one physical device and may be written to the
    /// configuration.
    pub persistent: bool,
    /// Stable model key, for asset lookup and diagnostics only.
    pub model_key: String,
    /// The name on the card.
    pub display_name: String,
    /// The resolved asset.
    pub asset: Option<ResolvedAsset>,
    /// The model, when known.
    pub model_info: Option<DeviceModelInfo>,
    /// The firmware codename, when reported.
    pub codename: Option<String>,
    /// The serial number, when reported.
    pub serial_number: Option<String>,
    /// The unit id; all zero when unknown.
    pub unit_id: [u8; 4],
    /// Where writes to the device go.
    pub route: Option<DeviceRoute>,
    /// What the device is.
    pub kind: DeviceKind,
    /// Measured capabilities.
    pub capabilities: Option<Capabilities>,
    /// The receiver slot.
    pub slot: u8,
    /// Whether the device is reachable.
    pub online: bool,
    /// Last battery reading.
    pub battery: Option<BatteryInfo>,
}

impl Clone for DeviceRecord {
    fn clone(&self) -> (out: Self)
        ensures
            out == *self,
    {
        DeviceRecord {
            config_key: self.config_key.clone(),
            persistent: self.persistent,
            model_key: self.model_key.clone(),
            display_name: self.display_name.clone(),
            asset: clone_asset(&self.asset),
            model_info: clone_model_info(&self.model_info),
            codename: clone_optional(&self.codename),
            serial_number: clone_optional(&self.serial_number),
            unit_id: self.unit_id,
            route: clone_route(&self.route),
            kind: self.kind,
            capabilities: self.capabilities,
            slot: self.slot,
            online: self.online,
            battery: self.battery,
        }
    }
}

impl DeviceRecord {
    /// The configuration key, only when it identifies one physical device and is
    /// therefore safe to persist.
    pub fn persistent_config_key(&self) -> (key: Option<&str>)
        ensures
            key is Some == self.persistent,
            key matches Some(k) ==> k@ == self.config_key@,
    {
        if self.persistent {
            Some(self.config_key.as_str())
        } else {
            None
        }
    }

    /// Whether this record may take part in persistent configuration.
    pub fn is_persistent(&self) -> (yes: bool)
        ensures
            yes == self.persistent,
    {
        self.persistent
    }
}

/// No unit id.
pub open spec fn zero_unit() -> Seq<u8> {
    seq![0u8, 0u8, 0u8, 0u8]
}

// ── Live devices ────────────────────────────────────────────────────────────

/// The kind shown: the registry's when it has an opinion, else the firmware's.
pub open spec fn shown_kind(hid_kind: DeviceKind, asset_kind: Option<DeviceKind>) -> DeviceKind {
    match asset_kind {
        Some(kind) if kind != DeviceKind::Unknown => kind,
        _ => hid_kind,
    }
}

/// The kind shown for a device: the registry type wins, because it is per model
/// and maintained by hand, while a pairing register can misreport. Without an
/// asset, or with one of an unmodelled type, the firmware's kind stays.
pub fn effective_kind(hid_kind: DeviceKind, asset_kind: Option<DeviceKind>) -> (kind: DeviceKind)
    ensures
        kind == shown_kind(hid_kind, asset_kind),
{
    match asset_kind {
        Some(kind) => if kind != DeviceKind::Unknown {
            kind
        } else {
            hid_kind
        },
        None => hid_kind,
    }
}

/// The model key of a live device: that of its model, else its wireless product
/// id, else its slot.
pub open spec fn live_model_key(paired: PairedDevice) -> Seq<char> {
    match paired.model_info {
        Some(model) => model.key(),
        None => match paired.wpid {
            Some(wpid) => "wpid"@ + hex4(wpid as nat),
            None => "slot"@ + decimal(paired.slot as nat),
        },
    }
}

/// The asset of a live device.
pub open spec fn live_asset(paired: PairedDevice, cache: AssetResolver) -> Option<ResolvedAsset> {
    match paired.model_info {
        Some(model) => cache.answer(model, optional_text(paired.codename)),
        None => None,
    }
}

/// The serial number of a live device.
pub open spec fn live_serial(paired: PairedDevice) -> Option<String> {
    match paired.model_info {
        Some(model) => model.serial_number,
        None => None,
    }
}

/// The unit id of a live device.
pub open spec fn live_unit(paired: PairedDevice) -> Seq<u8> {
    match paired.model_info {
        Some(model) => model.unit_id@,
        None => zero_unit(),
    }
}

/// The name of a live device: that of its asset, else its tidied codename, else
/// its slot.
pub open spec fn live_name(paired: PairedDevice, asset: Option<ResolvedAsset>) -> Seq<char> {
    match asset {
        Some(a) => a.display_name@,
        None => match paired.codename {
            Some(codename) => pretty(codename@),
            None => "Slot "@ + decimal(paired.slot as nat),
        },
    }
}

/// `r` is the record of `paired`, reached through `inv`.
pub open spec fn is_live_record(
    r: DeviceRecord,
    inv: DeviceInventory,
    paired: PairedDevice,
    cache: AssetResolver,
) -> bool {
    let route = route_for(inv, paired.slot);
    let serial = optional_text(live_serial(paired));
    let asset = live_asset(paired, cache);
    &&& r.config_key@ == stable_key(route, paired.slot, serial, live_unit(paired))
    &&& r.persistent == stable_is_physical(route, serial, live_unit(paired))
    &&& r.model_key@ == live_model_key(paired)
    &&& r.display_name@ == live_name(paired, asset)
    &&& r.asset == asset
    &&& r.model_info == paired.model_info
    &&& r.codename == paired.codename
    &&& r.serial_number == live_serial(paired)
    &&& r.unit_id@ == live_unit(paired)
    &&& r.route == route
    &&& r.kind == shown_kind(
        paired.kind,
        match asset {
            Some(a) => Some(a.kind),
            None => None,
        },
    )
    &&& r.capabilities == paired.capabilities
    &&& r.slot == paired.slot
    &&& r.online == paired.online
    &&& r.battery == paired.battery
}

fn live_record(inv: &DeviceInventory, paired: &PairedDevice, cache: &AssetResolver) -> (r:
    DeviceRecord)
    ensures
        is_live_record(r, *inv, *paired, *cache),
{
    let route: Option<DeviceRoute> = DeviceRoute::device_route_for(inv, paired.slot);
    let asset: Option<ResolvedAsset> = match &paired.model_info {
        Some(model) => cache.resolve(model, borrow_optional(&paired.codename)),
        None => None,
    };
    let model_key: String = match &paired.model_info {
        Some(model) => model.config_key(),
        None => match paired.wpid {
            Some(wpid) => {
                let mut key: String = "wpid".to_string();
                let id: String = padded_hex_text(wpid as u64, 4);
                key.append(id.as_str());
                key
            },
            None => {
                let mut key: String = "slot".to_string();
                let n: String = decimal_text(paired.slot as u64);
                key.append(n.as_str());
                key
            },
        },
    };
    let serial_number: Option<String> = match &paired.model_info {
        Some(model) => clone_optional(&model.serial_number),
        None => None,
    };
    let unit_id: [u8; 4] = match &paired.model_info {
        Some(model) => model.unit_id,
        None => [0, 0, 0, 0],
    };
    assert(unit_id@ =~= live_unit(*paired));
    let stable_id: DeviceStableId = DeviceStableId::from_parts(
        match &route {
            Some(r) => Some(r),
            None => None,
        },
        paired.slot,
        borrow_optional(&serial_number),
        unit_id,
    );
    let (config_key, persistent) = match stable_id.physical_key() {
        Some(key) => (key.into_string(), true),
        None => (stable_id.runtime_key(), false),
    };
    let display_name: String = match &asset {
        Some(a) => a.display_name.clone(),
        None => match &paired.codename {
            Some(codename) => prettify_codename(codename.as_str()),
            None => {
                let mut name: String = "Slot ".to_string();
                let n: String = decimal_text(paired.slot as u64);
                name.append(n.as_str());
                name
            },
        },
    };
    let kind: DeviceKind = effective_kind(
        paired.kind,
        match &asset {
            Some(a) => Some(a.kind),
            None => None,
        },
    );
    DeviceRecord {
        config_key,
        persistent,
        model_key,
        display_name,
        asset,
        model_info: clone_model_info(&paired.model_info),
        codename: clone_optional(&paired.codename),
        serial_number,
        unit_id,
        route,
        kind,
        capabilities: paired.capabilities,
        slot: paired.slot,
        online: paired.online,
        battery: paired.battery,
    }
}

// ── Cameras ─────────────────────────────────────────────────────────────────

/// `m` is a model that carries a product id and nothing else.
pub open spec fn is_bare_model(m: DeviceModelInfo, extended_model_id: u8, product_id: u16) -> bool {
    &&& m.entity_count == 0
    &&& m.serial_number is None
    &&& m.unit_id@ == zero_unit()
    &&& m.transports == no_transports()
    &&& m.model_ids@ == seq![product_id, 0u16, 0u16]
    &&& m.extended_model_id == extended_model_id
}

fn bare_model(extended_model_id: u8, product_id: u16) -> (m: DeviceModelInfo)
    ensures
        is_bare_model(m, extended_model_id, product_id),
{
    let m = DeviceModelInfo {
        entity_count: 0,
        serial_number: None,
        unit_id: [0, 0, 0, 0],
        transports: DeviceTransports::default(),
        model_ids: [product_id, 0, 0],
        extended_model_id,
    };
    assert(m.unit_id@ =~= zero_unit());
    assert(m.model_ids@ =~= seq![product_id, 0u16, 0u16]);
    m
}

/// A minimal model that stands in for a camera: just the USB product id, by which
/// the asset registry keys its cameras.
pub fn camera_model_info(camera: &Camera) -> (m: DeviceModelInfo)
    ensures
        is_bare_model(m, 0, camera.product_id),
{
    bare_model(0, camera.product_id)
}

/// `r` is the record of `camera`.
pub open spec fn is_camera_record(r: DeviceRecord, camera: Camera, cache: AssetResolver) -> bool {
    &&& r.config_key@ == "camera-"@ + camera.unique_id@
    &&& r.persistent
    &&& r.model_key@ == r.config_key@
    &&& r.display_name == camera.name
    &&& exists|m: DeviceModelInfo| #[trigger]
        is_bare_model(m, 0, camera.product_id) && r.asset == cache.answer(m, Some(camera.name@))
    &&& r.model_info is None
    &&& r.codename is None
    &&& r.serial_number == Some(camera.unique_id)
    &&& r.unit_id@ == zero_unit()
    &&& r.route is None
    &&& r.kind == DeviceKind::Camera
    &&& r.capabilities is None
    &&& r.slot == 0
    &&& r.online
    &&& r.battery is None
}

/// The record of a webcam.
///
/// The key is what the preview reads the camera's id back from. No route and no
/// capabilities keep the record out of every HID++ path.
pub fn camera_record(camera: &Camera, cache: &AssetResolver) -> (r: DeviceRecord)
    ensures
        is_camera_record(r, *camera, *cache),
{
    let mut config_key: String = "camera-".to_string();
    config_key.append(camera.unique_id.as_str());
    let model_info: DeviceModelInfo = camera_model_info(camera);
    let asset: Option<ResolvedAsset> = cache.resolve(&model_info, Some(camera.name.as_str()));
    let r = DeviceRecord {
        model_key: config_key.clone(),
        config_key,
        persistent: true,
        display_name: camera.name.clone(),
        asset,
        model_info: None,
        codename: None,
        serial_number: Some(camera.unique_id.clone()),
        unit_id: [0, 0, 0, 0],
        route: None,
        kind: DeviceKind::Camera,
        capabilities: None,
        slot: 0,
        online: true,
        battery: None,
    };
    assert(r.unit_id@ =~= zero_unit());
    assert(is_bare_model(model_info, 0, camera.product_id));
    r
}

// ── Remembered devices ──────────────────────────────────────────────────────

/// The receiver that a `receiver:<uid>:slot:<n>` key names, in small letters.
pub open spec fn receiver_uid(key: Seq<char>) -> Option<Seq<char>> {
    match strip_prefix(key, "receiver:"@) {
        Some(rest) => Some(ascii_lower(before_first(rest, ":"@))),
        None => None,
    }
}

/// The receiver that a `receiver:<uid>:slot:<n>` key names, in small letters.
pub fn receiver_uid_of(key: &str) -> (uid: Option<String>)
    ensures
        optional_text(uid) == receiver_uid(key@),
{
    let chars: Vec<char> = chars_of(key);
    let prefix: Vec<char> = chars_of("receiver:");
    let colon: Vec<char> = chars_of(":");
    match without_prefix(chars.as_slice(), prefix.as_slice()) {
        Some(rest) => {
            let lower: Vec<char> = lowercased(preceding(rest, colon.as_slice()));
            Some(string_of(lower.as_slice()))
        },
        None => None,
    }
}

/// The wire product id of a record with this model and model key.
pub open spec fn wire_pid(model: Option<DeviceModelInfo>, model_key: Seq<char>) -> Option<
    Seq<char>,
> {
    match model {
        Some(m) if m.model_ids@[0] != 0 => Some(hex4(m.model_ids@[0] as nat)),
        _ => match strip_prefix(model_key, "wpid"@) {
            Some(rest) => Some(ascii_lower(rest)),
            None => None,
        },
    }
}

/// The record's wire product id, by which cards of one model are recognised
/// without conflating physical devices.
///
/// A model with a zero product id has none.
pub fn record_wire_pid(record: &DeviceRecord) -> (pid: Option<String>)
    ensures
        optional_text(pid) == wire_pid(record.model_info, record.model_key@),
{
    let pid: u16 = match &record.model_info {
        Some(m) => m.model_ids[0],
        None => 0,
    };
    if pid != 0 {
        return Some(padded_hex_text(pid as u64, 4));
    }
    let chars: Vec<char> = chars_of(record.model_key.as_str());
    let prefix: Vec<char> = chars_of("wpid");
    match without_prefix(chars.as_slice(), prefix.as_slice()) {
        Some(rest) => {
            let lower: Vec<char> = lowercased(rest);
            Some(string_of(lower.as_slice()))
        },
        None => None,
    }
}

/// The extended model byte and the product id that a model key writes: at least
/// five hexadecimal digits, the last four of them the product id.
pub open spec fn legacy_model(key: Seq<char>) -> Option<(u8, u16)> {
    if key.len() > 4 && all_digits(key, 16) && digits_value(key.take(key.len() - 4), 16) <= 0xff {
        Some(
            (
                digits_value(key.take(key.len() - 4), 16) as u8,
                digits_value(key.skip(key.len() - 4), 16) as u16,
            ),
        )
    } else {
        None
    }
}

proof fn lemma_four_digits(s: Seq<char>)
    requires
        s.len() == 4,
        all_digits(s, 16),
    ensures
        0 <= digits_value(s, 16) <= 0xffff,
{
    reveal_with_fuel(digits_value, 5);
    assert(0 <= digit_value(s[0]) < 16);
    assert(0 <= digit_value(s[1]) < 16);
    assert(0 <= digit_value(s[2]) < 16);
    assert(0 <= digit_value(s[3]) < 16);
}

/// The model that a model key writes.
pub fn model_info_from_legacy_model_key(key: &str) -> (model: Option<DeviceModelInfo>)
    ensures
        match model {
            Some(m) => legacy_model(key@) matches Some(ids) && is_bare_model(m, ids.0, ids.1),
            None => legacy_model(key@) is None,
        },
{
    let chars: Vec<char> = chars_of(key);
    let n: usize = chars.len();
    if n <= 4 {
        return None;
    }
    let mut i: usize = 0;
    while i < n
        invariant
            i <= n,
            n == chars@.len(),
            chars@ == key@,
            forall|k: int| 0 <= k < i ==> 0 <= #[trigger] digit_value(chars@[k]) < 16,
        decreases n - i,
    {
        let c: char = chars[i];
        if !(('0' <= c && c <= '9') || ('a' <= c && c <= 'f') || ('A' <= c && c <= 'F')) {
            assert(digit_value(chars@[i as int]) < 0);
            return None;
        }
        i = i + 1;
    }
    let ext: &[char] = head(chars.as_slice(), n - 4);
    let pid: &[char] = tail(chars.as_slice(), n - 4);
    proof {
        assert(all_digits(key@, 16));
        assert(all_digits(ext@, 16)) by {
            assert forall|k: int| 0 <= k < ext@.len() implies 0 <= #[trigger] digit_value(ext@[k])
                < 16 by {
                assert(0 <= digit_value(key@[k]) < 16);
            }
        }
        assert(all_digits(pid@, 16)) by {
            assert forall|k: int| 0 <= k < pid@.len() implies 0 <= #[trigger] digit_value(pid@[k])
                < 16 by {
                assert(0 <= digit_value(key@[k + n - 4]) < 16);
            }
        }
        lemma_four_digits(pid@);
        assert(0 <= digit_value(ext@[0]));
        assert(0 <= digit_value(pid@[0]));
        assert(without_plus(ext@) == ext@);
        assert(without_plus(pid@) == pid@);
    }
    match parsed_number(pid, 16, 0xffff) {
        Some(product_id) => match parsed_number(ext, 16, 0xff) {
            Some(extended) => {
                proof {
                    crate::text::lemma_digits_value_grows(ext@, 0, 16);
                }
                Some(bare_model(extended as u8, product_id as u16))
            },
            None => None,
        },
        None => None,
    }
}

/// The extended model byte and the product id of a remembered device: those of
/// its model, else those that its key writes.
pub open spec fn remembered_model(key: Seq<char>, identity: DeviceIdentity) -> Option<(u8, u16)> {
    match identity.model_info {
        Some(m) => Some((m.extended_model_id, m.model_ids@[0])),
        None => legacy_model(key),
    }
}

/// The model key of a placeholder.
pub open spec fn offline_model_key(key: Seq<char>, identity: DeviceIdentity) -> Seq<char> {
    match remembered_model(key, identity) {
        Some(ids) => model_key_text(ids.0, ids.1),
        None => key,
    }
}

/// The wire product id of a placeholder.
pub open spec fn offline_wire_pid(key: Seq<char>, identity: DeviceIdentity) -> Option<Seq<char>> {
    match remembered_model(key, identity) {
        Some(ids) if ids.1 != 0 => Some(hex4(ids.1 as nat)),
        _ => match strip_prefix(offline_model_key(key, identity), "wpid"@) {
            Some(rest) => Some(ascii_lower(rest)),
            None => None,
        },
    }
}

/// `r` is the placeholder of a remembered device.
pub open spec fn is_offline_record(
    r: DeviceRecord,
    key: Seq<char>,
    identity: DeviceIdentity,
    cache: AssetResolver,
) -> bool {
    &&& r.config_key@ == key
    &&& r.persistent
    &&& r.model_key@ == offline_model_key(key, identity)
    &&& r.display_name == identity.display_name
    &&& r.asset == match r.model_info {
        Some(m) => cache.answer(m, optional_text(identity.codename)),
        None => None,
    }
    &&& match identity.model_info {
        Some(m) => r.model_info == Some(m),
        None => match legacy_model(key) {
            Some(ids) => r.model_info matches Some(m) && is_bare_model(m, ids.0, ids.1),
            None => r.model_info is None,
        },
    }
    &&& r.codename == identity.codename
    &&& r.serial_number is None
    &&& r.unit_id@ == zero_unit()
    &&& r.route is None
    &&& r.kind == identity.kind
    &&& r.capabilities == Some(identity.capabilities)
    &&& r.slot == 0
    &&& !r.online
    &&& r.battery is None
}

/// A placeholder for a remembered device.
///
/// No route keeps every hardware write a no-op until the device wakes; the
/// remembered capabilities keep its panels visible while it sleeps.
pub fn offline_record(config_key: &str, identity: &DeviceIdentity, cache: &AssetResolver) -> (r:
    DeviceRecord)
    ensures
        is_offline_record(r, config_key@, *identity, *cache),
        wire_pid(r.model_info, r.model_key@) == offline_wire_pid(config_key@, *identity),
{
    let model_info: Option<DeviceModelInfo> = match &identity.model_info {
        Some(m) => Some(m.clone()),
        None => model_info_from_legacy_model_key(config_key),
    };
    let asset: Option<ResolvedAsset> = match &model_info {
        Some(m) => cache.resolve(m, borrow_optional(&identity.codename)),
        None => None,
    };
    let model_key: String = match &model_info {
        Some(m) => m.config_key(),
        None => config_key.to_string(),
    };
    let r = DeviceRecord {
        config_key: config_key.to_string(),
        persistent: true,
        model_key,
        display_name: identity.display_name.clone(),
        asset,
        model_info,
        codename: clone_optional(&identity.codename),
        serial_number: None,
        unit_id: [0, 0, 0, 0],
        route: None,
        kind: identity.kind,
        capabilities: Some(identity.capabilities),
        slot: 0,
        online: false,
        battery: None,
    };
    assert(r.unit_id@ =~= zero_unit());
    r
}

/// What of a record decides whether a placeholder joins it in the list.
pub struct Card {
    /// The configuration key.
    pub key: Seq<char>,
    /// The model key.
    pub model: Seq<char>,
    /// The wire product id.
    pub pid: Option<Seq<char>>,
}

/// The card of a record.
pub open spec fn card_of(r: DeviceRecord) -> Card {
    Card { key: r.config_key@, model: r.model_key@, pid: wire_pid(r.model_info, r.model_key@) }
}

/// The cards of a list.
pub open spec fn cards_of(list: Seq<DeviceRecord>) -> Seq<Card> {
    list.map_values(|r: DeviceRecord| card_of(r))
}

/// The card of a placeholder.
pub open spec fn offline_card(key: Seq<char>, identity: DeviceIdentity) -> Card {
    Card {
        key,
        model: offline_model_key(key, identity),
        pid: offline_wire_pid(key, identity),
    }
}

/// A card has this key.
pub open spec fn has_key(cards: Seq<Card>, key: Seq<char>) -> bool {
    exists|i: int| 0 <= i < cards.len() && #[trigger] cards[i].key == key
}

/// A card has this model key.
pub open spec fn has_model(cards: Seq<Card>, model: Seq<char>) -> bool {
    exists|i: int| 0 <= i < cards.len() && #[trigger] cards[i].model == model
}

/// A card has this wire product id.
pub open spec fn has_pid(cards: Seq<Card>, pid: Seq<char>) -> bool {
    exists|i: int| 0 <= i < cards.len() && #[trigger] cards[i].pid == Some(pid)
}

/// A device with this key can be reached: its key names no receiver, or one that
/// is plugged in.
pub open spec fn reachable(key: Seq<char>, receivers: Set<Seq<char>>) -> bool {
    receiver_uid(key) matches Some(uid) ==> receivers.contains(uid)
}

/// A model-scoped key is already covered: a card has its model or its wire
/// product id.
pub open spec fn covered(cards: Seq<Card>, key: Seq<char>, identity: DeviceIdentity) -> bool {
    ||| has_model(
        cards,
        match identity.model_info {
            Some(m) => m.key(),
            None => key,
        },
    )
    ||| offline_wire_pid(key, identity) matches Some(pid) && has_pid(cards, pid)
}

/// A placeholder for this remembered device joins the cards: its key is not
/// transient, its receiver is plugged in, no card has its key, and a key that
/// names only a model is not already covered.
pub open spec fn admitted(
    cards: Seq<Card>,
    receivers: Set<Seq<char>>,
    key: Seq<char>,
    identity: DeviceIdentity,
) -> bool {
    &&& !is_transient_key(key)
    &&& reachable(key, receivers)
    &&& !has_key(cards, key)
    &&& is_physical_key(key) || !covered(cards, key, identity)
}

/// The cards after the first `n` remembered devices.
pub open spec fn kept_cards(
    cards: Seq<Card>,
    entries: Seq<(String, DeviceIdentity)>,
    receivers: Set<Seq<char>>,
    n: int,
) -> Seq<Card>
    decreases n,
{
    if n <= 0 {
        cards
    } else {
        let so_far = kept_cards(cards, entries, receivers, n - 1);
        let entry = entries[n - 1];
        if admitted(so_far, receivers, entry.0@, entry.1) {
            so_far.push(offline_card(entry.0@, entry.1))
        } else {
            so_far
        }
    }
}

/// Which of the first `n` remembered devices get a placeholder.
pub open spec fn kept_positions(
    cards: Seq<Card>,
    entries: Seq<(String, DeviceIdentity)>,
    receivers: Set<Seq<char>>,
    n: int,
) -> Seq<int>
    decreases n,
{
    if n <= 0 {
        Seq::empty()
    } else {
        let so_far = kept_positions(cards, entries, receivers, n - 1);
        let entry = entries[n - 1];
        if admitted(kept_cards(cards, entries, receivers, n - 1), receivers, entry.0@, entry.1) {
            so_far.push(n - 1)
        } else {
            so_far
        }
    }
}

/// `after` is `before` followed by the placeholders of the first `n` remembered
/// devices, taken in order.
pub open spec fn joined_by_first(
    before: Seq<DeviceRecord>,
    after: Seq<DeviceRecord>,
    entries: Seq<(String, DeviceIdentity)>,
    receivers: Set<Seq<char>>,
    cache: AssetResolver,
    n: int,
) -> bool {
    let kept = kept_positions(cards_of(before), entries, receivers, n);
    &&& after.len() == before.len() + kept.len()
    &&& forall|i: int| 0 <= i < before.len() ==> #[trigger] after[i] == before[i]
    &&& forall|j: int|
        0 <= j < kept.len() ==> is_offline_record(
            after[before.len() + j],
            entries[#[trigger] kept[j]].0@,
            entries[kept[j]].1,
            cache,
        )
}

/// `after` is `before` followed by the placeholders of the remembered devices,
/// taken in order.
pub open spec fn joined_by(
    before: Seq<DeviceRecord>,
    after: Seq<DeviceRecord>,
    entries: Seq<(String, DeviceIdentity)>,
    receivers: Set<Seq<char>>,
    cache: AssetResolver,
) -> bool {
    joined_by_first(before, after, entries, receivers, cache, entries.len() as int)
}

/// The sort key of a remembered device: those with a model first, then by key.
pub open spec fn known_order(entry: (String, DeviceIdentity)) -> Seq<u32> {
    seq![
        if entry.1.model_info is None {
            1u32
        } else {
            0u32
        },
    ] + text_key(entry.0@)
}

/// The sort keys of the remembered devices.
pub open spec fn known_keys(known: Seq<(String, DeviceIdentity)>) -> Seq<Seq<u32>> {
    known.map_values(|e: (String, DeviceIdentity)| known_order(e))
}

/// The items of `s` at the positions `perm`.
pub open spec fn permuted<T>(s: Seq<T>, perm: Seq<usize>) -> Seq<T> {
    Seq::new(perm.len(), |i: int| s[perm[i] as int])
}

/// `sorted` holds the remembered devices with a model first, then by key.
pub open spec fn sorted_known(
    known: Seq<(String, DeviceIdentity)>,
    sorted: Seq<(String, DeviceIdentity)>,
) -> bool {
    exists|perm: Seq<usize>| #[trigger]
        stable_order(known_keys(known), perm) && sorted == permuted(known, perm)
}

/// `after` is `before` followed by the placeholders of the remembered devices, those
/// with a model first, then by key.
pub open spec fn is_appended(
    before: Seq<DeviceRecord>,
    after: Seq<DeviceRecord>,
    known: Seq<(String, DeviceIdentity)>,
    receivers: Set<Seq<char>>,
    cache: AssetResolver,
) -> bool {
    exists|sorted: Seq<(String, DeviceIdentity)>| #[trigger]
        sorted_known(known, sorted) && joined_by(before, after, sorted, receivers, cache)
}

fn list_has_key(list: &Vec<DeviceRecord>, key: &str) -> (yes: bool)
    ensures
        yes == has_key(cards_of(list@), key@),
{
    let n: usize = list.len();
    let mut i: usize = 0;
    while i < n
        invariant
            i <= n,
            n == list@.len(),
            forall|j: int| 0 <= j < i ==> (#[trigger] cards_of(list@)[j]).key != key@,
        decreases n - i,
    {
        if same_text(list[i].config_key.as_str(), key) {
            assert(cards_of(list@)[i as int].key == key@);
            return true;
        }
        i = i + 1;
    }
    false
}

fn list_has_model(list: &Vec<DeviceRecord>, model: &str) -> (yes: bool)
    ensures
        yes == has_model(cards_of(list@), model@),
{
    let n: usize = list.len();
    let mut i: usize = 0;
    while i < n
        invariant
            i <= n,
            n == list@.len(),
            forall|j: int| 0 <= j < i ==> (#[trigger] cards_of(list@)[j]).model != model@,
        decreases n - i,
    {
        if same_text(list[i].model_key.as_str(), model) {
            assert(cards_of(list@)[i as int].model == model@);
            return true;
        }
        i = i + 1;
    }
    false
}

fn list_has_pid(list: &Vec<DeviceRecord>, pid: &str) -> (yes: bool)
    ensures
        yes == has_pid(cards_of(list@), pid@),
{
    let n: usize = list.len();
    let mut i: usize = 0;
    while i < n
        invariant
            i <= n,
            n == list@.len(),
            forall|j: int| 0 <= j < i ==> (#[trigger] cards_of(list@)[j]).pid != Some(pid@),
        decreases n - i,
    {
        let here: Option<String> = record_wire_pid(&list[i]);
        if same_optional_text(borrow_optional(&here), Some(pid)) {
            assert(cards_of(list@)[i as int].pid == Some(pid@));
            return true;
        }
        i = i + 1;
    }
    false
}

/// Whether a placeholder for this remembered device joins the list, and the
/// placeholder.
fn placeholder(
    list: &Vec<DeviceRecord>,
    key: &str,
    identity: &DeviceIdentity,
    cache: &AssetResolver,
    present_receivers: &TextSet,
) -> (out: Option<DeviceRecord>)
    ensures
        out is Some == admitted(cards_of(list@), present_receivers@, key@, *identity),
        out matches Some(r) ==> is_offline_record(r, key@, *identity, *cache) && card_of(r)
            == offline_card(key@, *identity),
{
    if PhysicalDeviceKey::is_transient(key) {
        return None;
    }
    match receiver_uid_of(key) {
        Some(uid) => {
            if !present_receivers.contains(uid.as_str()) {
                return None;
            }
        },
        None => {},
    }
    if list_has_key(list, key) {
        return None;
    }
    let is_legacy_model_key: bool = PhysicalDeviceKey::parse(key).is_none();
    let model_key: String = match &identity.model_info {
        Some(m) => m.config_key(),
        None => key.to_string(),
    };
    if is_legacy_model_key && list_has_model(list, model_key.as_str()) {
        return None;
    }
    let record: DeviceRecord = offline_record(key, identity, cache);
    let pid: Option<String> = record_wire_pid(&record);
    if is_legacy_model_key {
        match &pid {
            Some(pid) => {
                if list_has_pid(list, pid.as_str()) {
                    return None;
                }
            },
            None => {},
        }
    }
    Some(record)
}

/// Append a placeholder for every remembered device that is not already in the
/// list, skipping unreachable devices and keys that never named a device.
///
/// A device whose key names one physical device is hidden only by a record with
/// that key or by the absence of its receiver. A key that names only a model is
/// also hidden by any record of that model or with its wire product id.
pub fn append_offline_known(
    list: &mut Vec<DeviceRecord>,
    known: &Vec<(String, DeviceIdentity)>,
    cache: &AssetResolver,
    present_receivers: &TextSet,
)
    ensures
        is_appended(old(list)@, final(list)@, known@, present_receivers@, *cache),
{
    let ghost before = list@;
    let mut keys: Vec<Vec<u32>> = Vec::new();
    let n: usize = known.len();
    let mut k: usize = 0;
    while k < n
        invariant
            k <= n,
            n == known@.len(),
            keys@.len() == k,
            forall|j: int| 0 <= j < k ==> (#[trigger] keys@[j])@ == known_order(known@[j]),
        decreases n - k,
    {
        let entry: &(String, DeviceIdentity) = &known[k];
        let mut key: Vec<u32> = Vec::new();
        if entry.1.model_info.is_none() {
            key.push(1);
        } else {
            key.push(0);
        }
        push_text_key(&mut key, entry.0.as_str());
        assert(key@ =~= known_order(known@[k as int]));
        keys.push(key);
        k = k + 1;
    }
    let perm: Vec<usize> = sorted_positions(&keys);
    let ghost sorted = permuted(known@, perm@);
    proof {
        assert(key_views(keys@) =~= known_keys(known@));
        assert(sorted_known(known@, sorted));
    }
    let mut i: usize = 0;
    while i < n
        invariant
            i <= n,
            n == known@.len(),
            n == perm@.len(),
            sorted == permuted(known@, perm@),
            forall|j: int| 0 <= j < n ==> 0 <= #[trigger] perm@[j] < n,
            joined_by_first(before, list@, sorted, present_receivers@, *cache, i as int),
            cards_of(list@) == kept_cards(
                cards_of(before),
                sorted,
                present_receivers@,
                i as int,
            ),
        decreases n - i,
    {
        let entry: &(String, DeviceIdentity) = &known[perm[i]];
        let ghost here = list@;
        assert(sorted[i as int] == *entry);
        match placeholder(list, entry.0.as_str(), &entry.1, cache, present_receivers) {
            Some(record) => {
                list.push(record);
                proof {
                    assert(cards_of(list@) =~= cards_of(here).push(card_of(record)));
                    let old_kept = kept_positions(
                        cards_of(before),
                        sorted,
                        present_receivers@,
                        i as int,
                    );
                    let kept = kept_positions(
                        cards_of(before),
                        sorted,
                        present_receivers@,
                        i as int + 1,
                    );
                    assert(kept == old_kept.push(i as int));
                    assert forall|j: int| 0 <= j < kept.len() implies is_offline_record(
                        list@[before.len() + j],
                        sorted[#[trigger] kept[j]].0@,
                        sorted[kept[j]].1,
                        *cache,
                    ) by {
                        if j < old_kept.len() {
                            assert(kept[j] == old_kept[j]);
                            assert(list@[before.len() + j] == here[before.len() + j]);
                        }
                    }
                    assert forall|j: int| 0 <= j < before.len() implies #[trigger] list@[j]
                        == before[j] by {
                        assert(here[j] == before[j]);
                    }
                }
            },
            None => {},
        }
        i = i + 1;
    }
}

// ── Order ───────────────────────────────────────────────────────────────────

/// The sort key of a record: by physical route, then by model, then by name.
pub open spec fn record_order(r: DeviceRecord) -> Seq<u32> {
    stable_sort_key(r.route, r.slot, optional_text(r.serial_number), r.unit_id@) + text_key(
        r.model_key@,
    ) + text_key(r.display_name@)
}

/// The sort keys of a list.
pub open spec fn record_keys(list: Seq<DeviceRecord>) -> Seq<Seq<u32>> {
    list.map_values(|r: DeviceRecord| record_order(r))
}

/// `sorted` is `list` in stable ascending order.
pub open spec fn sorted_records(list: Seq<DeviceRecord>, sorted: Seq<DeviceRecord>) -> bool {
    exists|perm: Seq<usize>| #[trigger]
        stable_order(record_keys(list), perm) && sorted == permuted(list, perm)
}

/// The sort key of a record: by physical route, then by model, then by name.
pub fn device_order_key(record: &DeviceRecord) -> (key: Vec<u32>)
    ensures
        key@ == record_order(*record),
{
    let mut key: Vec<u32> = Vec::new();
    let id: DeviceStableId = DeviceStableId::from_parts(
        match &record.route {
            Some(r) => Some(r),
            None => None,
        },
        record.slot,
        borrow_optional(&record.serial_number),
        record.unit_id,
    );
    id.push_order(&mut key);
    push_text_key(&mut key, record.model_key.as_str());
    push_text_key(&mut key, record.display_name.as_str());
    assert(key@ =~= record_order(*record));
    key
}

/// Order the list by physical route.
///
/// Enumeration order changes as devices wake and sleep; the stable route does
/// not, so a device that appears lands in its place.
pub fn sort_device_list(list: &mut Vec<DeviceRecord>)
    ensures
        sorted_records(old(list)@, final(list)@),
{
    let n: usize = list.len();
    let mut keys: Vec<Vec<u32>> = Vec::new();
    let mut k: usize = 0;
    while k < n
        invariant
            k <= n,
            n == list@.len(),
            keys@.len() == k,
            forall|j: int| 0 <= j < k ==> (#[trigger] keys@[j])@ == record_order(list@[j]),
        decreases n - k,
    {
        keys.push(device_order_key(&list[k]));
        k = k + 1;
    }
    let perm: Vec<usize> = sorted_positions(&keys);
    assert(key_views(keys@) =~= record_keys(list@));
    let mut sorted: Vec<DeviceRecord> = Vec::new();
    let mut i: usize = 0;
    while i < n
        invariant
            i <= n,
            n == list@.len(),
            n == perm@.len(),
            forall|j: int| 0 <= j < n ==> 0 <= #[trigger] perm@[j] < n,
            sorted@.len() == i,
            forall|j: int| 0 <= j < i ==> #[trigger] sorted@[j] == list@[perm@[j] as int],
        decreases n - i,
    {
        sorted.push(list[perm[i]].clone());
        i = i + 1;
    }
    assert(sorted@ =~= permuted(list@, perm@));
    *list = sorted;
}

// ── The list ────────────────────────────────────────────────────────────────

/// `r` is the synthetic keyboard.
pub open spec fn is_demo_keyboard(r: DeviceRecord) -> bool {
    &&& r.config_key@ == "demo-g513"@
    &&& r.persistent
    &&& r.model_key@ == "demo-g513"@
    &&& r.display_name@ == "Logitech G513"@
    &&& r.asset is None
    &&& r.model_info is None
    &&& r.codename is None
    &&& r.serial_number is None
    &&& r.unit_id@ == zero_unit()
    &&& r.route is None
    &&& r.kind == DeviceKind::Keyboard
    &&& r.capabilities == Some(Capabilities { lighting: true, ..no_capabilities() })
    &&& r.slot == 0
    &&& r.online
    &&& r.battery is None
}

/// A synthetic keyboard, so that the keyboard panel can be shown without the
/// hardware. No route keeps every hardware write a no-op.
pub fn demo_keyboard() -> (r: DeviceRecord)
    ensures
        is_demo_keyboard(r),
{
    let r = DeviceRecord {
        config_key: "demo-g513".to_string(),
        persistent: true,
        model_key: "demo-g513".to_string(),
        display_name: "Logitech G513".to_string(),
        asset: None,
        model_info: None,
        codename: None,
        serial_number: None,
        unit_id: [0, 0, 0, 0],
        route: None,
        kind: DeviceKind::Keyboard,
        capabilities: Some(
            Capabilities {
                buttons: false,
                pointer: false,
                lighting: true,
                scroll_inversion: false,
                hires_wheel: false,
            },
        ),
        slot: 0,
        online: true,
        battery: None,
    };
    assert(r.unit_id@ =~= zero_unit());
    r
}

/// The devices of one inventory, each with the inventory that reaches it.
pub open spec fn devices_of(inv: DeviceInventory) -> Seq<(DeviceInventory, PairedDevice)> {
    inv.paired@.map_values(|p: PairedDevice| (inv, p))
}

/// The devices of all inventories, in order.
pub open spec fn live_devices(inventories: Seq<DeviceInventory>) -> Seq<
    (DeviceInventory, PairedDevice),
>
    decreases inventories.len(),
{
    if inventories.len() == 0 {
        Seq::empty()
    } else {
        live_devices(inventories.drop_last()) + devices_of(inventories.last())
    }
}

/// `list` holds the records of `devices`, one for one.
pub open spec fn are_live_records(
    list: Seq<DeviceRecord>,
    devices: Seq<(DeviceInventory, PairedDevice)>,
    cache: AssetResolver,
) -> bool {
    &&& list.len() == devices.len()
    &&& forall|i: int|
        0 <= i < list.len() ==> is_live_record(
            #[trigger] list[i],
            devices[i].0,
            devices[i].1,
            cache,
        )
}

/// The inventory's receiver has this serial, in small letters.
pub open spec fn names_receiver(inv: DeviceInventory, uid: Seq<char>) -> bool {
    inv.receiver.unique_id matches Some(u) && ascii_lower(u@) == uid
}

/// The receivers that are plugged in, in small letters.
pub open spec fn plugged_receivers(inventories: Seq<DeviceInventory>) -> Set<Seq<char>> {
    Set::new(
        |uid: Seq<char>|
            exists|i: int|
                0 <= i < inventories.len() && names_receiver(#[trigger] inventories[i], uid),
    )
}

/// `all` is, in this order: the live devices, the synthetic keyboard if wanted,
/// the placeholders of the remembered devices, and the cameras.
pub open spec fn is_union(
    all: Seq<DeviceRecord>,
    inventories: Seq<DeviceInventory>,
    cache: AssetResolver,
    sorted: Seq<(String, DeviceIdentity)>,
    cameras: Seq<Camera>,
    demo: bool,
) -> bool {
    let n = live_devices(inventories).len() + if demo {
        1int
    } else {
        0int
    };
    let m = all.len() - cameras.len();
    &&& n <= m
    &&& are_live_records(
        all.take(live_devices(inventories).len() as int),
        live_devices(inventories),
        cache,
    )
    &&& demo ==> is_demo_keyboard(all[n - 1])
    &&& joined_by(all.take(n), all.take(m), sorted, plugged_receivers(inventories), cache)
    &&& forall|i: int|
        0 <= i < cameras.len() ==> is_camera_record(all[m + i], #[trigger] cameras[i], cache)
}

/// `list` is the device list for these inventories, remembered devices and
/// cameras.
pub open spec fn is_device_list(
    list: Seq<DeviceRecord>,
    inventories: Seq<DeviceInventory>,
    cache: AssetResolver,
    known: Seq<(String, DeviceIdentity)>,
    cameras: Seq<Camera>,
    demo: bool,
) -> bool {
    exists|all: Seq<DeviceRecord>, sorted: Seq<(String, DeviceIdentity)>|
        #![trigger is_union(all, inventories, cache, sorted, cameras, demo)]
        sorted_known(known, sorted) && is_union(all, inventories, cache, sorted, cameras, demo)
            && sorted_records(all, list)
}

fn receivers_in(inventories: &[DeviceInventory]) -> (out: TextSet)
    ensures
        out@ == plugged_receivers(inventories@),
{
    let mut out: TextSet = TextSet::new();
    let n: usize = inventories.len();
    let mut i: usize = 0;
    assert(out@ =~= plugged_receivers(inventories@.take(0)));
    while i < n
        invariant
            i <= n,
            n == inventories@.len(),
            out@ == plugged_receivers(inventories@.take(i as int)),
        decreases n - i,
    {
        let ghost had = out@;
        let ghost part = inventories@.take(i as int);
        let ghost more = inventories@.take(i as int + 1);
        match &inventories[i].receiver.unique_id {
            Some(uid) => {
                let lower: String = crate::text::lowercase_text(uid.as_str());
                out.insert(lower);
            },
            None => {},
        }
        proof {
            assert forall|uid: Seq<char>| out@.contains(uid) == plugged_receivers(more).contains(
                uid,
            ) by {
                if had.contains(uid) {
                    let k = choose|k: int|
                        0 <= k < part.len() && names_receiver(#[trigger] part[k], uid);
                    assert(more[k] == part[k]);
                }
                if plugged_receivers(more).contains(uid) {
                    let k = choose|k: int|
                        0 <= k < more.len() && names_receiver(#[trigger] more[k], uid);
                    if k < i {
                        assert(part[k] == more[k]);
                        assert(had.contains(uid));
                    } else {
                        assert(more[k] == inventories@[i as int]);
                    }
                }
                if names_receiver(inventories@[i as int], uid) {
                    assert(more[i as int] == inventories@[i as int]);
                }
            }
            assert(out@ =~= plugged_receivers(more));
        }
        i = i + 1;
    }
    assert(inventories@.take(n as int) =~= inventories@);
    out
}

fn live_list(inventories: &[DeviceInventory], cache: &AssetResolver) -> (list: Vec<DeviceRecord>)
    ensures
        are_live_records(list@, live_devices(inventories@), *cache),
{
    let mut list: Vec<DeviceRecord> = Vec::new();
    let n: usize = inventories.len();
    let mut i: usize = 0;
    while i < n
        invariant
            i <= n,
            n == inventories@.len(),
            are_live_records(list@, live_devices(inventories@.take(i as int)), *cache),
        decreases n - i,
    {
        let inv: &DeviceInventory = &inventories[i];
        let ghost done = live_devices(inventories@.take(i as int));
        let ghost before = list@;
        let m: usize = inv.paired.len();
        let mut k: usize = 0;
        while k < m
            invariant
                k <= m,
                m == inv.paired@.len(),
                before.len() == done.len(),
                are_live_records(list@, done + devices_of(*inv).take(k as int), *cache),
            decreases m - k,
        {
            let ghost here = list@;
            let record: DeviceRecord = live_record(inv, &inv.paired[k], cache);
            list.push(record);
            proof {
                let devices = done + devices_of(*inv).take(k as int + 1);
                let fewer = done + devices_of(*inv).take(k as int);
                assert forall|j: int| 0 <= j < list@.len() implies is_live_record(
                    #[trigger] list@[j],
                    devices[j].0,
                    devices[j].1,
                    *cache,
                ) by {
                    if j < here.len() {
                        assert(list@[j] == here[j]);
                        assert(devices[j] == fewer[j]);
                    } else {
                        assert(devices[j] == (*inv, inv.paired@[k as int]));
                    }
                }
            }
            k = k + 1;
        }
        proof {
            assert(devices_of(*inv).take(m as int) =~= devices_of(*inv));
            assert(inventories@.take(i as int + 1).drop_last() =~= inventories@.take(i as int));
        }
        i = i + 1;
    }
    assert(inventories@.take(n as int) =~= inventories@);
    list
}

/// Build the device list, with the synthetic keyboard if it is wanted.
///
/// The list is the union of the live inventories and the remembered devices: a
/// remembered device that is absent from the inventories is added back as an
/// offline placeholder, so the list does not depend on whether a probe wins its
/// race. Cameras come from a discovery of their own.
#[verifier::spinoff_prover]
pub fn assemble_device_list(
    inventories: &[DeviceInventory],
    cache: &AssetResolver,
    config: &Config,
    cameras: &[Camera],
    demo: bool,
) -> (list: Vec<DeviceRecord>)
    ensures
        is_device_list(
            list@,
            inventories@,
            *cache,
            identities_of(config.devices.rows()),
            cameras@,
            demo,
        ),
{
    let mut list: Vec<DeviceRecord> = live_list(inventories, cache);
    let ghost live = list@;
    if demo {
        list.push(demo_keyboard());
    }
    let ghost base = list@;
    let receivers: TextSet = receivers_in(inventories);
    let known: Vec<(String, DeviceIdentity)> = config.known_identities();
    append_offline_known(&mut list, &known, cache, &receivers);
    let ghost joined = list@;
    let ghost sorted = choose|sorted: Seq<(String, DeviceIdentity)>| #[trigger]
        sorted_known(known@, sorted) && joined_by(base, joined, sorted, receivers@, *cache);
    let n: usize = cameras.len();
    let mut i: usize = 0;
    while i < n
        invariant
            i <= n,
            n == cameras@.len(),
            list@.len() == joined.len() + i,
            list@.take(joined.len() as int) == joined,
            forall|j: int|
                0 <= j < i ==> is_camera_record(
                    list@[joined.len() + j],
                    #[trigger] cameras@[j],
                    *cache,
                ),
        decreases n - i,
    {
        let ghost here = list@;
        list.push(camera_record(&cameras[i], cache));
        proof {
            assert(list@.take(joined.len() as int) =~= here.take(joined.len() as int));
            assert forall|j: int| 0 <= j < i + 1 implies is_camera_record(
                list@[joined.len() + j],
                #[trigger] cameras@[j],
                *cache,
            ) by {
                if j < i {
                    assert(list@[joined.len() + j] == here[joined.len() + j]);
                }
            }
        }
        i = i + 1;
    }
    let ghost all = list@;
    proof {
        assert(base.take(live.len() as int) =~= live);
        assert(joined.take(base.len() as int) =~= base) by {
            assert forall|j: int| 0 <= j < base.len() implies joined[j] == base[j] by {}
        }
        assert(all.take(live.len() as int) =~= live) by {
            assert forall|j: int| 0 <= j < live.len() implies all[j] == live[j] by {
                assert(all.take(joined.len() as int)[j] == all[j]);
                assert(joined[j] == base[j]);
                assert(base[j] == live[j]);
            }
        }
        assert(all.take(base.len() as int) =~= base) by {
            assert forall|j: int| 0 <= j < base.len() implies all[j] == base[j] by {
                assert(all.take(joined.len() as int)[j] == all[j]);
                assert(joined[j] == base[j]);
            }
        }
        if demo {
            assert(all.take(base.len() as int)[base.len() - 1] == all[base.len() - 1]);
        }
        assert(is_union(all, inventories@, *cache, sorted, cameras@, demo));
    }
    sort_device_list(&mut list);
    list
}

/// Build the device list from the live inventories, the remembered devices of the
/// configuration, and the cameras.
pub fn build_device_list(
    inventories: &[DeviceInventory],
    cache: &AssetResolver,
    config: &Config,
    cameras: &[Camera],
) -> (list: Vec<DeviceRecord>)
    ensures
        is_device_list(
            list@,
            inventories@,
            *cache,
            identities_of(config.devices.rows()),
            cameras@,
            false,
        ),
{
    assemble_device_list(inventories, cache, config, cameras, false)
}

// ── Selection and merging ───────────────────────────────────────────────────

/// `key` is the key of the persistent record `i`.
pub open spec fn selects(list: Seq<DeviceRecord>, i: int, key: Seq<char>) -> bool {
    list[i].persistent && list[i].config_key@ == key
}

/// The position of the first persistent record with the saved key, or the front.
/// A record whose key may not be persisted is never selected by a saved key.
pub fn pick_initial_device(list: &[DeviceRecord], saved: Option<&str>) -> (index: usize)
    ensures
        match saved {
            Some(key) => if exists|i: int| 0 <= i < list@.len() && #[trigger] selects(list@, i, key@) {
                index < list@.len() && selects(list@, index as int, key@) && forall|i: int|
                    0 <= i < index ==> !#[trigger] selects(list@, i, key@)
            } else {
                index == 0
            },
            None => index == 0,
        },
{
    match saved {
        Some(key) => {
            let n: usize = list.len();
            let mut i: usize = 0;
            while i < n
                invariant
                    i <= n,
                    n == list@.len(),
                    saved == Some(key),
                    forall|j: int| 0 <= j < i ==> !#[trigger] selects(list@, j, key@),
                decreases n - i,
            {
                if list[i].is_persistent() && same_text(list[i].config_key.as_str(), key) {
                    assert(selects(list@, i as int, key@));
                    return i;
                }
                i = i + 1;
            }
            0
        },
        None => 0,
    }
}

/// The `direct:<vid>:<pid>` front of a direct key with three parts that are not
/// empty.
pub open spec fn direct_prefix(key: Seq<char>) -> Option<Seq<char>> {
    match strip_prefix(key, "direct:"@) {
        Some(rest) => match after_first(rest, ":"@) {
            Some(more) => match after_first(more, ":"@) {
                Some(identity) => if before_first(rest, ":"@).len() > 0 && before_first(
                    more,
                    ":"@,
                ).len() > 0 && identity.len() > 0 {
                    Some(key.take(key.len() - identity.len() - 1))
                } else {
                    None
                },
                None => None,
            },
            None => None,
        },
        None => None,
    }
}

/// The `direct:<vid>:<pid>` prefix of a direct configuration key, or `None` for
/// any other key shape. Two keys with one prefix name the same wire product.
pub fn direct_key_prefix(key: &str) -> (prefix: Option<String>)
    ensures
        optional_text(prefix) == direct_prefix(key@),
{
    let chars: Vec<char> = chars_of(key);
    let direct: Vec<char> = chars_of("direct:");
    let colon: Vec<char> = chars_of(":");
    match without_prefix(chars.as_slice(), direct.as_slice()) {
        Some(rest) => match following(rest, colon.as_slice()) {
            Some(more) => match following(more, colon.as_slice()) {
                Some(identity) => {
                    let vid: &[char] = preceding(rest, colon.as_slice());
                    let pid: &[char] = preceding(more, colon.as_slice());
                    if vid.len() > 0 && pid.len() > 0 && identity.len() > 0 {
                        proof {
                            crate::text::lemma_find_from(rest@, ":"@, 0);
                            crate::text::lemma_find_from(more@, ":"@, 0);
                            reveal_strlit("direct:");
                            reveal_strlit(":");
                        }
                        let front: &[char] = head(
                            chars.as_slice(),
                            chars.len() - identity.len() - 1,
                        );
                        Some(string_of(front))
                    } else {
                        None
                    }
                },
                None => None,
            },
            None => None,
        },
        None => None,
    }
}

/// The first of two optional values that is there.
pub open spec fn either<T>(first: Option<T>, second: Option<T>) -> Option<T> {
    if first is Some {
        first
    } else {
        second
    }
}

/// A live record folded into the card that it physically is: the card keeps its
/// persisted identity, the live record supplies the volatile state.
pub open spec fn adopted(known: DeviceRecord, live: DeviceRecord) -> DeviceRecord {
    DeviceRecord {
        config_key: known.config_key,
        persistent: true,
        model_key: known.model_key,
        display_name: known.display_name,
        asset: either(known.asset, live.asset),
        model_info: either(known.model_info, live.model_info),
        codename: either(known.codename, live.codename),
        serial_number: known.serial_number,
        unit_id: known.unit_id,
        route: live.route,
        kind: if known.kind == DeviceKind::Unknown {
            live.kind
        } else {
            known.kind
        },
        capabilities: either(live.capabilities, known.capabilities),
        slot: live.slot,
        online: live.online,
        battery: either(live.battery, known.battery),
    }
}

/// Fold a transient live record into the known card that it physically is.
pub fn adopt_transient_record(known: &DeviceRecord, live: DeviceRecord) -> (out: DeviceRecord)
    ensures
        out == adopted(*known, live),
{
    DeviceRecord {
        config_key: known.config_key.clone(),
        persistent: true,
        model_key: known.model_key.clone(),
        display_name: known.display_name.clone(),
        asset: match &known.asset {
            Some(a) => Some(a.clone()),
            None => live.asset,
        },
        model_info: match &known.model_info {
            Some(m) => Some(m.clone()),
            None => live.model_info,
        },
        codename: match &known.codename {
            Some(c) => Some(c.clone()),
            None => live.codename,
        },
        serial_number: clone_optional(&known.serial_number),
        unit_id: known.unit_id,
        route: live.route,
        kind: if known.kind == DeviceKind::Unknown {
            live.kind
        } else {
            known.kind
        },
        capabilities: match live.capabilities {
            Some(c) => Some(c),
            None => known.capabilities,
        },
        slot: live.slot,
        online: live.online,
        battery: match live.battery {
            Some(b) => Some(b),
            None => known.battery,
        },
    }
}

} // verus!
