//! What always holds of the device list.

use vstd::prelude::*;

use crate::camera::Camera;
use crate::config::DeviceIdentity;
use crate::device::{model_key_text, DeviceInventory, DeviceKind, DeviceModelInfo, PairedDevice};
use crate::device_order::{
    is_physical_key, is_transient_key, stable_key, unit_identity_text, DeviceRoute,
};
use crate::devices::{
    admitted, adopted, card_of, cards_of, covered, direct_prefix, first_answer, has_key, has_model,
    has_pid, is_appended, is_camera_record, is_demo_keyboard, is_device_list, is_live_record,
    is_offline_record, is_union, joined_by, kept_cards, kept_positions, known_keys, known_order,
    legacy_model, live_devices, names_receiver, offline_card, offline_wire_pid, permuted,
    plugged_receivers, reachable, receiver_uid, record_keys, record_order, selects, sorted_known,
    sorted_records, wire_pid, AssetEntry, AssetResolver, Card, DeviceRecord,
};
use crate::order::{
    before, lemma_lex_irreflexive, lemma_lex_transitive, lemma_stable_order_unique,
    lemma_text_key_order, lex_lt, stable_order, text_key, text_lt,
};
use crate::text::{
    after_first, ascii_lower, before_first, decimal, digit_value, has_prefix, hex, hex4,
    lemma_digits_clean, lemma_digits_value, lemma_find_separator, lemma_hex2_len, lemma_hex4_len,
    lemma_zero_padded, optional_text, strip_prefix,
};

verus! {

// ── Placeholders ────────────────────────────────────────────────────────────

/// The cards kept are those at the front followed by the placeholders.
proof fn lemma_kept(
    cards: Seq<Card>,
    entries: Seq<(String, DeviceIdentity)>,
    receivers: Set<Seq<char>>,
    n: int,
)
    requires
        0 <= n <= entries.len(),
    ensures
        ({
            let kept = kept_positions(cards, entries, receivers, n);
            let all = kept_cards(cards, entries, receivers, n);
            &&& all.len() == cards.len() + kept.len()
            &&& forall|i: int| 0 <= i < cards.len() ==> #[trigger] all[i] == cards[i]
            &&& forall|j: int|
                0 <= j < kept.len() ==> 0 <= #[trigger] kept[j] < n && all[cards.len() + j]
                    == offline_card(entries[kept[j]].0@, entries[kept[j]].1)
        }),
    decreases n,
{
    if n > 0 {
        lemma_kept(cards, entries, receivers, n - 1);
        let kept = kept_positions(cards, entries, receivers, n);
        let fewer = kept_positions(cards, entries, receivers, n - 1);
        let all = kept_cards(cards, entries, receivers, n);
        let less = kept_cards(cards, entries, receivers, n - 1);
        assert forall|j: int| 0 <= j < kept.len() implies 0 <= #[trigger] kept[j] < n && all[
            cards.len() + j
        ] == offline_card(entries[kept[j]].0@, entries[kept[j]].1) by {
            if j < fewer.len() {
                assert(kept[j] == fewer[j]);
                assert(all[cards.len() + j] == less[cards.len() + j]);
            }
        }
        assert forall|i: int| 0 <= i < cards.len() implies #[trigger] all[i] == cards[i] by {
            assert(less[i] == cards[i]);
        }
    }
}

/// A placeholder has the card that its remembered device gives.
proof fn lemma_offline_card(
    r: DeviceRecord,
    key: Seq<char>,
    identity: DeviceIdentity,
    cache: AssetResolver,
)
    requires
        is_offline_record(r, key, identity, cache),
    ensures
        card_of(r) == offline_card(key, identity),
{
}

/// The cards of a list with its placeholders.
proof fn lemma_joined_cards(
    before: Seq<DeviceRecord>,
    after: Seq<DeviceRecord>,
    entries: Seq<(String, DeviceIdentity)>,
    receivers: Set<Seq<char>>,
    cache: AssetResolver,
)
    requires
        joined_by(before, after, entries, receivers, cache),
    ensures
        cards_of(after) == kept_cards(
            cards_of(before),
            entries,
            receivers,
            entries.len() as int,
        ),
{
    let n = entries.len() as int;
    let cards = cards_of(before);
    let kept = kept_positions(cards, entries, receivers, n);
    let all = kept_cards(cards, entries, receivers, n);
    lemma_kept(cards, entries, receivers, n);
    assert forall|i: int| 0 <= i < all.len() implies cards_of(after)[i] == all[i] by {
        if i < before.len() {
            assert(after[i] == before[i]);
            assert(all[i] == cards[i]);
        } else {
            let j = i - before.len();
            assert(0 <= kept[j] < n);
            lemma_offline_card(after[i], entries[kept[j]].0@, entries[kept[j]].1, cache);
            assert(all[cards.len() + j] == offline_card(entries[kept[j]].0@, entries[kept[j]].1));
        }
    }
    assert(cards_of(after) =~= all);
}

/// Cards once kept stay.
proof fn lemma_kept_stay(
    cards: Seq<Card>,
    entries: Seq<(String, DeviceIdentity)>,
    receivers: Set<Seq<char>>,
    m: int,
    n: int,
)
    requires
        0 <= m <= n,
    ensures
        kept_cards(cards, entries, receivers, m).len() <= kept_cards(
            cards,
            entries,
            receivers,
            n,
        ).len(),
        forall|i: int|
            0 <= i < kept_cards(cards, entries, receivers, m).len() ==> #[trigger] kept_cards(
                cards,
                entries,
                receivers,
                n,
            )[i] == kept_cards(cards, entries, receivers, m)[i],
    decreases n,
{
    if m < n {
        lemma_kept_stay(cards, entries, receivers, m, n - 1);
        let less = kept_cards(cards, entries, receivers, n - 1);
        let all = kept_cards(cards, entries, receivers, n);
        let first = kept_cards(cards, entries, receivers, m);
        assert forall|i: int| 0 <= i < first.len() implies #[trigger] all[i] == first[i] by {
            assert(less[i] == first[i]);
        }
    }
}

/// What a list has, a longer list with the same front has.
proof fn lemma_more_cards(few: Seq<Card>, many: Seq<Card>, key: Seq<char>, identity: DeviceIdentity)
    requires
        few.len() <= many.len(),
        forall|i: int| 0 <= i < few.len() ==> #[trigger] many[i] == few[i],
    ensures
        has_key(few, key) ==> has_key(many, key),
        covered(few, key, identity) ==> covered(many, key, identity),
{
    if has_key(few, key) {
        let i = choose|i: int| 0 <= i < few.len() && #[trigger] few[i].key == key;
        assert(many[i].key == key);
    }
    let model = match identity.model_info {
        Some(m) => m.key(),
        None => key,
    };
    if has_model(few, model) {
        let i = choose|i: int| 0 <= i < few.len() && #[trigger] few[i].model == model;
        assert(many[i].model == model);
    }
    if let Some(pid) = offline_wire_pid(key, identity) {
        if has_pid(few, pid) {
            let i = choose|i: int| 0 <= i < few.len() && #[trigger] few[i].pid == Some(pid);
            assert(many[i].pid == Some(pid));
        }
    }
}

/// A remembered device that can be reached is always shown: the list has a record
/// with its key, or its key names only a model and a record of that model or with
/// its wire product id is there.
pub proof fn remembered_devices_are_shown(
    before: Seq<DeviceRecord>,
    after: Seq<DeviceRecord>,
    entries: Seq<(String, DeviceIdentity)>,
    receivers: Set<Seq<char>>,
    cache: AssetResolver,
    i: int,
)
    requires
        joined_by(before, after, entries, receivers, cache),
        0 <= i < entries.len(),
        !is_transient_key(entries[i].0@),
        reachable(entries[i].0@, receivers),
    ensures
        has_key(cards_of(after), entries[i].0@) || (!is_physical_key(entries[i].0@) && covered(
            cards_of(after),
            entries[i].0@,
            entries[i].1,
        )),
{
    let n = entries.len() as int;
    let cards = cards_of(before);
    let key = entries[i].0@;
    lemma_joined_cards(before, after, entries, receivers, cache);
    lemma_kept_stay(cards, entries, receivers, i, n);
    lemma_kept_stay(cards, entries, receivers, i + 1, n);
    let here = kept_cards(cards, entries, receivers, i);
    let next = kept_cards(cards, entries, receivers, i + 1);
    if admitted(here, receivers, key, entries[i].1) {
        assert(next.last() == offline_card(key, entries[i].1));
        assert(next[here.len() as int].key == key);
        lemma_more_cards(next, cards_of(after), key, entries[i].1);
    } else {
        lemma_more_cards(here, cards_of(after), key, entries[i].1);
    }
}

/// Two remembered devices with different physical keys are shown by two records,
/// also when they are of one model.
pub proof fn physical_devices_stay_distinct(
    before: Seq<DeviceRecord>,
    after: Seq<DeviceRecord>,
    entries: Seq<(String, DeviceIdentity)>,
    receivers: Set<Seq<char>>,
    cache: AssetResolver,
    i: int,
    j: int,
) -> (at: (int, int))
    requires
        joined_by(before, after, entries, receivers, cache),
        0 <= i < entries.len(),
        0 <= j < entries.len(),
        entries[i].0@ != entries[j].0@,
        is_physical_key(entries[i].0@),
        is_physical_key(entries[j].0@),
        reachable(entries[i].0@, receivers),
        reachable(entries[j].0@, receivers),
    ensures
        0 <= at.0 < after.len(),
        0 <= at.1 < after.len(),
        at.0 != at.1,
        after[at.0].config_key@ == entries[i].0@,
        after[at.1].config_key@ == entries[j].0@,
{
    remembered_devices_are_shown(before, after, entries, receivers, cache, i);
    remembered_devices_are_shown(before, after, entries, receivers, cache, j);
    let cards = cards_of(after);
    let a = choose|a: int| 0 <= a < cards.len() && #[trigger] cards[a].key == entries[i].0@;
    let b = choose|b: int| 0 <= b < cards.len() && #[trigger] cards[b].key == entries[j].0@;
    (a, b)
}

/// When a placeholder was admitted, and to which cards.
proof fn lemma_admitted(
    cards: Seq<Card>,
    entries: Seq<(String, DeviceIdentity)>,
    receivers: Set<Seq<char>>,
    n: int,
    j: int,
)
    requires
        0 <= n <= entries.len(),
        0 <= j < kept_positions(cards, entries, receivers, n).len(),
    ensures
        ({
            let p = kept_positions(cards, entries, receivers, n)[j];
            &&& 0 <= p < n
            &&& admitted(
                kept_cards(cards, entries, receivers, p),
                receivers,
                entries[p].0@,
                entries[p].1,
            )
            &&& kept_cards(cards, entries, receivers, p).len() == cards.len() + j
        }),
    decreases n,
{
    let fewer = kept_positions(cards, entries, receivers, n - 1);
    lemma_kept(cards, entries, receivers, n - 1);
    if j < fewer.len() {
        lemma_admitted(cards, entries, receivers, n - 1, j);
    }
}

/// Every placeholder stands for a reachable device whose key names a device, and
/// writes to it go nowhere.
pub proof fn placeholders_are_reachable_and_inert(
    before: Seq<DeviceRecord>,
    after: Seq<DeviceRecord>,
    entries: Seq<(String, DeviceIdentity)>,
    receivers: Set<Seq<char>>,
    cache: AssetResolver,
    k: int,
)
    requires
        joined_by(before, after, entries, receivers, cache),
        before.len() <= k < after.len(),
    ensures
        !is_transient_key(after[k].config_key@),
        reachable(after[k].config_key@, receivers),
        after[k].route is None,
        !after[k].online,
        after[k].capabilities is Some,
{
    let n = entries.len() as int;
    let kept = kept_positions(cards_of(before), entries, receivers, n);
    let j = k - before.len();
    lemma_admitted(cards_of(before), entries, receivers, n, j);
    assert(is_offline_record(after[k], entries[kept[j]].0@, entries[kept[j]].1, cache));
}

/// No placeholder repeats the key of an earlier record, and one whose key names
/// only a model repeats no earlier wire product id.
pub proof fn placeholders_repeat_nothing(
    before: Seq<DeviceRecord>,
    after: Seq<DeviceRecord>,
    entries: Seq<(String, DeviceIdentity)>,
    receivers: Set<Seq<char>>,
    cache: AssetResolver,
    k: int,
    earlier: int,
)
    requires
        joined_by(before, after, entries, receivers, cache),
        before.len() <= k < after.len(),
        0 <= earlier < k,
    ensures
        after[earlier].config_key@ != after[k].config_key@,
        !is_physical_key(after[k].config_key@) ==> {
            let pid = wire_pid(after[k].model_info, after[k].model_key@);
            pid is None || wire_pid(after[earlier].model_info, after[earlier].model_key@) != pid
        },
{
    let n = entries.len() as int;
    let cards = cards_of(before);
    let kept = kept_positions(cards, entries, receivers, n);
    let j = k - before.len();
    lemma_admitted(cards, entries, receivers, n, j);
    lemma_joined_cards(before, after, entries, receivers, cache);
    let p = kept[j];
    lemma_kept_stay(cards, entries, receivers, p, n);
    assert(is_offline_record(after[k], entries[p].0@, entries[p].1, cache));
    lemma_offline_card(after[k], entries[p].0@, entries[p].1, cache);
    let here = kept_cards(cards, entries, receivers, p);
    let all = kept_cards(cards, entries, receivers, n);
    assert(all[earlier] == here[earlier]);
    assert(cards_of(after)[earlier] == card_of(after[earlier]));
    assert(here[earlier].key == after[earlier].config_key@);
    assert(here[earlier].pid == wire_pid(after[earlier].model_info, after[earlier].model_key@));
}

/// The remembered devices have only one sorted order.
proof fn lemma_sorted_known_unique(
    known: Seq<(String, DeviceIdentity)>,
    x: Seq<(String, DeviceIdentity)>,
    y: Seq<(String, DeviceIdentity)>,
)
    requires
        sorted_known(known, x),
        sorted_known(known, y),
    ensures
        x == y,
{
    let p = choose|p: Seq<usize>| #[trigger]
        stable_order(known_keys(known), p) && x == permuted(known, p);
    let q = choose|q: Seq<usize>| #[trigger]
        stable_order(known_keys(known), q) && y == permuted(known, q);
    lemma_stable_order_unique(known_keys(known), p, q);
}

/// Nothing joins cards that already answer for every remembered device.
proof fn lemma_nothing_joins(
    cards: Seq<Card>,
    entries: Seq<(String, DeviceIdentity)>,
    receivers: Set<Seq<char>>,
    n: int,
)
    requires
        0 <= n <= entries.len(),
        forall|i: int|
            0 <= i < entries.len() ==> !admitted(
                cards,
                receivers,
                (#[trigger] entries[i]).0@,
                entries[i].1,
            ),
    ensures
        kept_cards(cards, entries, receivers, n) == cards,
        kept_positions(cards, entries, receivers, n).len() == 0,
    decreases n,
{
    if n > 0 {
        lemma_nothing_joins(cards, entries, receivers, n - 1);
        assert(!admitted(cards, receivers, entries[n - 1].0@, entries[n - 1].1));
    }
}

/// Appending the same remembered devices a second time changes nothing.
///
/// `after` and `again` are what [`crate::devices::append_offline_known`] makes of
/// `before` and of `after`.
pub proof fn appending_twice_changes_nothing(
    before: Seq<DeviceRecord>,
    after: Seq<DeviceRecord>,
    again: Seq<DeviceRecord>,
    known: Seq<(String, DeviceIdentity)>,
    receivers: Set<Seq<char>>,
    cache: AssetResolver,
)
    requires
        is_appended(before, after, known, receivers, cache),
        is_appended(after, again, known, receivers, cache),
    ensures
        again == after,
{
    let sorted = choose|sorted: Seq<(String, DeviceIdentity)>| #[trigger]
        sorted_known(known, sorted) && joined_by(before, after, sorted, receivers, cache);
    let second = choose|second: Seq<(String, DeviceIdentity)>| #[trigger]
        sorted_known(known, second) && joined_by(after, again, second, receivers, cache);
    lemma_sorted_known_unique(known, sorted, second);
    let cards = cards_of(after);
    assert forall|i: int| 0 <= i < sorted.len() implies !admitted(
        cards,
        receivers,
        (#[trigger] sorted[i]).0@,
        sorted[i].1,
    ) by {
        if !is_transient_key(sorted[i].0@) && reachable(sorted[i].0@, receivers) {
            remembered_devices_are_shown(before, after, sorted, receivers, cache, i);
        }
    }
    lemma_nothing_joins(cards, sorted, receivers, sorted.len() as int);
    assert(again =~= after);
}

/// No two remembered devices have one key.
pub open spec fn distinct_keys(known: Seq<(String, DeviceIdentity)>) -> bool {
    forall|i: int, j: int|
        0 <= i < known.len() && 0 <= j < known.len() && i != j ==> (#[trigger] known[i]).0@ != (
        #[trigger] known[j]).0@
}

/// Remembered devices with different keys have different sort keys.
proof fn lemma_known_order_distinct(
    a: (String, DeviceIdentity),
    b: (String, DeviceIdentity),
)
    requires
        known_order(a) == known_order(b),
    ensures
        a.0@ == b.0@,
{
    let (x, y) = (text_key(a.0@), text_key(b.0@));
    assert(x =~= known_order(a).skip(1));
    assert(y =~= known_order(b).skip(1));
    assert(x == y);
    assert(a.0@.len() == x.len() - 1);
    assert(b.0@.len() == y.len() - 1);
    assert forall|i: int| 0 <= i < a.0@.len() implies a.0@[i] == b.0@[i] by {
        let (c, d) = (a.0@[i], b.0@[i]);
        vstd::utf8::char_is_scalar(c);
        vstd::utf8::char_is_scalar(d);
        vstd::utf8::char_u32_cast(c, c as u32);
        vstd::utf8::char_u32_cast(d, d as u32);
        assert(x[i] == a.0@[i] as u32 + 1);
        assert(y[i] == b.0@[i] as u32 + 1);
    }
    assert(a.0@ =~= b.0@);
}

/// The remembered devices in sorted order: none is lost, none is added, and they
/// ascend strictly where no two have one key.
proof fn lemma_sorted_known(
    known: Seq<(String, DeviceIdentity)>,
    sorted: Seq<(String, DeviceIdentity)>,
)
    requires
        sorted_known(known, sorted),
        distinct_keys(known),
        known.len() <= usize::MAX,
    ensures
        sorted.len() == known.len(),
        forall|k: int| 0 <= k < known.len() ==> sorted.contains(#[trigger] known[k]),
        forall|k: int| 0 <= k < sorted.len() ==> known.contains(#[trigger] sorted[k]),
        forall|i: int, j: int|
            0 <= i < j < sorted.len() ==> lex_lt(
                known_order(#[trigger] sorted[i]),
                known_order(#[trigger] sorted[j]),
            ),
{
    let keys = known_keys(known);
    let perm = choose|perm: Seq<usize>| #[trigger]
        stable_order(keys, perm) && sorted == permuted(known, perm);
    assert forall|k: int| 0 <= k < known.len() implies sorted.contains(#[trigger] known[k]) by {
        assert(perm.contains(k as usize));
        let at = choose|at: int| 0 <= at < perm.len() && perm[at] == k as usize;
        assert(sorted[at] == known[k]);
    }
    assert forall|k: int| 0 <= k < sorted.len() implies known.contains(#[trigger] sorted[k]) by {
        assert(0 <= perm[k] < keys.len());
        assert(sorted[k] == known[perm[k] as int]);
    }
    assert forall|i: int, j: int| 0 <= i < j < sorted.len() implies lex_lt(
        known_order(#[trigger] sorted[i]),
        known_order(#[trigger] sorted[j]),
    ) by {
        let (a, b) = (perm[i] as int, perm[j] as int);
        assert(before(keys, a, b));
        if a == b {
            lemma_lex_irreflexive(keys[a]);
        } else if keys[a] == keys[b] {
            lemma_known_order_distinct(known[a], known[b]);
        }
    }
}

/// A reordering of remembered devices with keys of their own has the same devices,
/// and keys of their own too.
proof fn lemma_reordered(
    known: Seq<(String, DeviceIdentity)>,
    other: Seq<(String, DeviceIdentity)>,
)
    requires
        distinct_keys(known),
        other.to_multiset() == known.to_multiset(),
    ensures
        other.len() == known.len(),
        distinct_keys(other),
        forall|k: int| 0 <= k < known.len() ==> other.contains(#[trigger] known[k]),
        forall|k: int| 0 <= k < other.len() ==> known.contains(#[trigger] other[k]),
{
    known.to_multiset_ensures();
    other.to_multiset_ensures();
    assert(known.no_duplicates());
    known.lemma_multiset_has_no_duplicates();
    other.lemma_multiset_has_no_duplicates_conv();
    assert forall|k: int| 0 <= k < known.len() implies other.contains(#[trigger] known[k]) by {
        assert(known.contains(known[k]));
        assert(other.to_multiset().count(known[k]) > 0);
    }
    assert forall|k: int| 0 <= k < other.len() implies known.contains(#[trigger] other[k]) by {
        assert(other.contains(other[k]));
        assert(known.to_multiset().count(other[k]) > 0);
    }
    assert forall|i: int, j: int|
        0 <= i < other.len() && 0 <= j < other.len() && i != j implies (#[trigger] other[i]).0@ != (
    #[trigger] other[j]).0@ by {
        assert(known.contains(other[i]));
        assert(known.contains(other[j]));
        let a = choose|a: int| 0 <= a < known.len() && known[a] == other[i];
        let b = choose|b: int| 0 <= b < known.len() && known[b] == other[j];
        if a == b {
            assert(other[i] == other[j]);
        }
    }
}

/// Two records are equal in every field.
pub open spec fn same_record(a: DeviceRecord, b: DeviceRecord) -> bool {
    &&& a.config_key@ == b.config_key@
    &&& a.persistent == b.persistent
    &&& a.model_key@ == b.model_key@
    &&& a.display_name == b.display_name
    &&& a.asset == b.asset
    &&& a.model_info == b.model_info
    &&& a.codename == b.codename
    &&& a.serial_number == b.serial_number
    &&& a.unit_id == b.unit_id
    &&& a.route == b.route
    &&& a.kind == b.kind
    &&& a.capabilities == b.capabilities
    &&& a.slot == b.slot
    &&& a.online == b.online
    &&& a.battery == b.battery
}

/// A remembered device has only one placeholder.
proof fn lemma_one_placeholder(
    a: DeviceRecord,
    b: DeviceRecord,
    key: Seq<char>,
    identity: DeviceIdentity,
    cache: AssetResolver,
)
    requires
        is_offline_record(a, key, identity, cache),
        is_offline_record(b, key, identity, cache),
    ensures
        same_record(a, b),
{
    assert(a.unit_id =~= b.unit_id);
    if identity.model_info is None && legacy_model(key) is Some {
        let (m, n) = (a.model_info->0, b.model_info->0);
        assert(m.unit_id =~= n.unit_id);
        assert(m.model_ids =~= n.model_ids);
        assert(m == n);
    }
}

/// The order in which remembered devices are handed over does not matter, as long as
/// no two have one key: the same placeholders stand in the same places.
///
/// `x` and `y` are what [`crate::devices::append_offline_known`] makes of `list` with
/// `known` and with `other`.
pub proof fn placeholders_ignore_enumeration(
    list: Seq<DeviceRecord>,
    x: Seq<DeviceRecord>,
    y: Seq<DeviceRecord>,
    known: Seq<(String, DeviceIdentity)>,
    other: Seq<(String, DeviceIdentity)>,
    receivers: Set<Seq<char>>,
    cache: AssetResolver,
)
    requires
        distinct_keys(known),
        known.len() <= usize::MAX,
        other.to_multiset() == known.to_multiset(),
        is_appended(list, x, known, receivers, cache),
        is_appended(list, y, other, receivers, cache),
    ensures
        x.len() == y.len(),
        forall|i: int| 0 <= i < list.len() ==> #[trigger] x[i] == y[i],
        forall|i: int| 0 <= i < x.len() ==> same_record(#[trigger] x[i], y[i]),
{
    let first = choose|first: Seq<(String, DeviceIdentity)>| #[trigger]
        sorted_known(known, first) && joined_by(list, x, first, receivers, cache);
    let second = choose|second: Seq<(String, DeviceIdentity)>| #[trigger]
        sorted_known(other, second) && joined_by(list, y, second, receivers, cache);
    lemma_reordered(known, other);
    lemma_sorted_known(known, first);
    lemma_sorted_known(other, second);
    let order = |e: (String, DeviceIdentity)| known_order(e);
    assert forall|k: int| 0 <= k < first.len() implies second.contains(#[trigger] first[k]) by {
        assert(known.contains(first[k]));
        let a = choose|a: int| 0 <= a < known.len() && known[a] == first[k];
        assert(other.contains(known[a]));
        let b = choose|b: int| 0 <= b < other.len() && other[b] == known[a];
        assert(second.contains(other[b]));
    }
    assert forall|k: int| 0 <= k < second.len() implies first.contains(#[trigger] second[k]) by {
        assert(other.contains(second[k]));
        let a = choose|a: int| 0 <= a < other.len() && other[a] == second[k];
        assert(known.contains(other[a]));
        let b = choose|b: int| 0 <= b < known.len() && known[b] == other[a];
        assert(first.contains(known[b]));
    }
    assert forall|i: int| 0 <= i < first.len() implies first[i] == second[i] by {
        lemma_same_place(first, second, order, i);
    }
    assert(first =~= second);
    let kept = kept_positions(cards_of(list), first, receivers, first.len() as int);
    lemma_kept(cards_of(list), first, receivers, first.len() as int);
    assert forall|i: int| 0 <= i < x.len() implies same_record(#[trigger] x[i], y[i]) by {
        if i < list.len() {
            assert(x[i] == list[i]);
            assert(y[i] == list[i]);
        } else {
            let j = i - list.len();
            assert(0 <= kept[j] < first.len());
            lemma_one_placeholder(
                x[i],
                y[i],
                first[kept[j]].0@,
                first[kept[j]].1,
                cache,
            );
        }
    }
}

// ── The sorted list ─────────────────────────────────────────────────────────

/// Sorting loses no record.
pub proof fn sorting_keeps_every_record(
    list: Seq<DeviceRecord>,
    sorted: Seq<DeviceRecord>,
    i: int,
) -> (at: int)
    requires
        sorted_records(list, sorted),
        0 <= i < list.len(),
        list.len() <= usize::MAX,
    ensures
        sorted.len() == list.len(),
        0 <= at < sorted.len(),
        sorted[at] == list[i],
{
    let perm = choose|perm: Seq<usize>| #[trigger]
        stable_order(record_keys(list), perm) && sorted == permuted(list, perm);
    assert(perm.contains(i as usize));
    let at = choose|at: int| 0 <= at < perm.len() && perm[at] == i as usize;
    at
}

/// Sorting adds no record.
pub proof fn sorting_adds_no_record(
    list: Seq<DeviceRecord>,
    sorted: Seq<DeviceRecord>,
    at: int,
) -> (i: int)
    requires
        sorted_records(list, sorted),
        0 <= at < sorted.len(),
    ensures
        sorted.len() == list.len(),
        0 <= i < list.len(),
        sorted[at] == list[i],
{
    let perm = choose|perm: Seq<usize>| #[trigger]
        stable_order(record_keys(list), perm) && sorted == permuted(list, perm);
    assert(0 <= perm[at] < list.len());
    perm[at] as int
}

/// Every device of an inventory is in the device list.
pub proof fn live_devices_are_listed(
    list: Seq<DeviceRecord>,
    inventories: Seq<DeviceInventory>,
    cache: AssetResolver,
    known: Seq<(String, DeviceIdentity)>,
    cameras: Seq<Camera>,
    demo: bool,
    i: int,
) -> (at: int)
    requires
        is_device_list(list, inventories, cache, known, cameras, demo),
        list.len() <= usize::MAX,
        0 <= i < live_devices(inventories).len(),
    ensures
        0 <= at < list.len(),
        is_live_record(
            list[at],
            live_devices(inventories)[i].0,
            live_devices(inventories)[i].1,
            cache,
        ),
{
    let (all, sorted) = choose|all: Seq<DeviceRecord>, sorted: Seq<(String, DeviceIdentity)>|
        #![trigger is_union(all, inventories, cache, sorted, cameras, demo)]
        sorted_known(known, sorted) && is_union(all, inventories, cache, sorted, cameras, demo)
            && sorted_records(all, list);
    let n = live_devices(inventories).len() as int;
    assert(all.take(n)[i] == all[i]);
    assert(all.len() == list.len()) by {
        let perm = choose|perm: Seq<usize>| #[trigger]
            stable_order(record_keys(all), perm) && list == permuted(all, perm);
    }
    sorting_keeps_every_record(all, list, i)
}

/// A remembered device whose key names one physical device is in the device list
/// as long as its receiver, if its key names one, is plugged in.
pub proof fn remembered_devices_are_listed(
    list: Seq<DeviceRecord>,
    inventories: Seq<DeviceInventory>,
    cache: AssetResolver,
    known: Seq<(String, DeviceIdentity)>,
    cameras: Seq<Camera>,
    demo: bool,
    i: int,
) -> (at: int)
    requires
        is_device_list(list, inventories, cache, known, cameras, demo),
        list.len() <= usize::MAX,
        known.len() <= usize::MAX,
        0 <= i < known.len(),
        is_physical_key(known[i].0@),
        reachable(known[i].0@, plugged_receivers(inventories)),
    ensures
        0 <= at < list.len(),
        list[at].config_key@ == known[i].0@,
{
    let (all, sorted) = choose|all: Seq<DeviceRecord>, sorted: Seq<(String, DeviceIdentity)>|
        #![trigger is_union(all, inventories, cache, sorted, cameras, demo)]
        sorted_known(known, sorted) && is_union(all, inventories, cache, sorted, cameras, demo)
            && sorted_records(all, list);
    let perm = choose|perm: Seq<usize>| #[trigger]
        stable_order(known_keys(known), perm) && sorted == permuted(known, perm);
    assert(perm.contains(i as usize));
    let k = choose|k: int| 0 <= k < perm.len() && perm[k] == i as usize;
    assert(sorted[k] == known[i]);
    let n = live_devices(inventories).len() + if demo {
        1int
    } else {
        0int
    };
    let m = all.len() - cameras.len();
    remembered_devices_are_shown(
        all.take(n),
        all.take(m),
        sorted,
        plugged_receivers(inventories),
        cache,
        k,
    );
    let cards = cards_of(all.take(m));
    let a = choose|a: int| 0 <= a < cards.len() && #[trigger] cards[a].key == known[i].0@;
    assert(all.take(m)[a] == all[a]);
    assert(all.len() == list.len()) by {
        let p = choose|p: Seq<usize>| #[trigger]
            stable_order(record_keys(all), p) && list == permuted(all, p);
    }
    sorting_keeps_every_record(all, list, a)
}

/// Of two records of a sorted list with different sort keys, the one with the
/// smaller key stands first.
pub proof fn sorted_list_ascends(
    list: Seq<DeviceRecord>,
    sorted: Seq<DeviceRecord>,
    a: int,
    b: int,
)
    requires
        sorted_records(list, sorted),
        0 <= a < b < sorted.len(),
    ensures
        lex_lt(record_order(sorted[a]), record_order(sorted[b])) || record_order(sorted[a])
            == record_order(sorted[b]),
{
    let perm = choose|perm: Seq<usize>| #[trigger]
        stable_order(record_keys(list), perm) && sorted == permuted(list, perm);
    assert(before(record_keys(list), perm[a] as int, perm[b] as int));
}

/// No two records have one sort key.
pub open spec fn distinct_orders(list: Seq<DeviceRecord>) -> bool {
    forall|i: int, j: int|
        0 <= i < list.len() && 0 <= j < list.len() && i != j ==> record_order(#[trigger] list[i])
            != record_order(#[trigger] list[j])
}

proof fn lemma_sorted_distinct(
    list: Seq<DeviceRecord>,
    sorted: Seq<DeviceRecord>,
    a: int,
    b: int,
)
    requires
        sorted_records(list, sorted),
        distinct_orders(list),
        0 <= a < b < sorted.len(),
    ensures
        lex_lt(record_order(sorted[a]), record_order(sorted[b])),
{
    let perm = choose|perm: Seq<usize>| #[trigger]
        stable_order(record_keys(list), perm) && sorted == permuted(list, perm);
    assert(before(record_keys(list), perm[a] as int, perm[b] as int));
    if perm[a] != perm[b] {
        assert(record_order(list[perm[a] as int]) != record_order(list[perm[b] as int]));
    } else {
        lemma_lex_irreflexive(record_keys(list)[perm[a] as int]);
    }
}

/// The items of `s` ascend strictly in `order`.
spec fn ascends<T>(s: Seq<T>, order: spec_fn(T) -> Seq<u32>) -> bool {
    forall|i: int, j: int|
        0 <= i < j < s.len() ==> lex_lt(order(#[trigger] s[i]), order(#[trigger] s[j]))
}

/// The same items in strictly ascending order stand in the same places.
proof fn lemma_same_place<T>(x: Seq<T>, y: Seq<T>, order: spec_fn(T) -> Seq<u32>, i: int)
    requires
        ascends(x, order),
        ascends(y, order),
        x.len() == y.len(),
        forall|k: int| 0 <= k < x.len() ==> y.contains(#[trigger] x[k]),
        forall|k: int| 0 <= k < y.len() ==> x.contains(#[trigger] y[k]),
        0 <= i < x.len(),
    ensures
        x[i] == y[i],
    decreases i,
{
    assert forall|j: int| 0 <= j < i implies x[j] == y[j] by {
        lemma_same_place(x, y, order, j);
    }
    assert(y.contains(x[i]));
    assert(x.contains(y[i]));
    let c = choose|c: int| 0 <= c < y.len() && y[c] == x[i];
    let f = choose|f: int| 0 <= f < x.len() && x[f] == y[i];
    lemma_lex_irreflexive(order(x[i]));
    lemma_lex_irreflexive(order(y[i]));
    if c < i {
        assert(x[c] == y[c]);
    } else if f < i {
        assert(x[f] == y[f]);
    } else if c > i && f > i {
        lemma_lex_transitive(order(y[i]), order(x[i]), order(y[i]));
    }
}

/// The order of the list does not depend on the order in which devices were
/// enumerated: the same records, in whatever order, sort to the same list as long
/// as no two of them have one sort key.
pub proof fn order_ignores_enumeration(
    first: Seq<DeviceRecord>,
    second: Seq<DeviceRecord>,
    x: Seq<DeviceRecord>,
    y: Seq<DeviceRecord>,
)
    requires
        sorted_records(first, x),
        sorted_records(second, y),
        distinct_orders(first),
        distinct_orders(second),
        first.len() == second.len(),
        first.len() <= usize::MAX,
        forall|k: int| 0 <= k < first.len() ==> second.contains(#[trigger] first[k]),
        forall|k: int| 0 <= k < second.len() ==> first.contains(#[trigger] second[k]),
    ensures
        x == y,
{
    assert(x.len() == first.len()) by {
        let p = choose|p: Seq<usize>| #[trigger]
            stable_order(record_keys(first), p) && x == permuted(first, p);
    }
    assert(y.len() == second.len()) by {
        let p = choose|p: Seq<usize>| #[trigger]
            stable_order(record_keys(second), p) && y == permuted(second, p);
    }
    let order = |r: DeviceRecord| record_order(r);
    assert forall|a: int, b: int| 0 <= a < b < x.len() implies lex_lt(
        order(#[trigger] x[a]),
        order(#[trigger] x[b]),
    ) by {
        lemma_sorted_distinct(first, x, a, b);
    }
    assert forall|a: int, b: int| 0 <= a < b < y.len() implies lex_lt(
        order(#[trigger] y[a]),
        order(#[trigger] y[b]),
    ) by {
        lemma_sorted_distinct(second, y, a, b);
    }
    assert forall|k: int| 0 <= k < x.len() implies y.contains(#[trigger] x[k]) by {
        let a = sorting_adds_no_record(first, x, k);
        assert(second.contains(first[a]));
        let b = choose|b: int| 0 <= b < second.len() && second[b] == first[a];
        let at = sorting_keeps_every_record(second, y, b);
        assert(y[at] == x[k]);
    }
    assert forall|k: int| 0 <= k < y.len() implies x.contains(#[trigger] y[k]) by {
        let a = sorting_adds_no_record(second, y, k);
        assert(first.contains(second[a]));
        let b = choose|b: int| 0 <= b < first.len() && first[b] == second[a];
        let at = sorting_keeps_every_record(first, x, b);
        assert(x[at] == y[k]);
    }
    assert forall|i: int| 0 <= i < x.len() implies x[i] == y[i] by {
        lemma_same_place(x, y, order, i);
    }
    assert(x =~= y);
}

// ── What the records say ────────────────────────────────────────────────────

/// Where a device of an inventory stands among the devices of all inventories.
proof fn lemma_live_position(inventories: Seq<DeviceInventory>, i: int, k: int) -> (at: int)
    requires
        0 <= i < inventories.len(),
        0 <= k < inventories[i].paired@.len(),
    ensures
        0 <= at < live_devices(inventories).len(),
        live_devices(inventories)[at] == (inventories[i], inventories[i].paired@[k]),
    decreases inventories.len(),
{
    let front = live_devices(inventories.drop_last());
    if i < inventories.len() - 1 {
        let at = lemma_live_position(inventories.drop_last(), i, k);
        assert(live_devices(inventories)[at] == front[at]);
        at
    } else {
        assert(live_devices(inventories)[front.len() + k] == (
            inventories[i],
            inventories[i].paired@[k],
        ));
        front.len() + k
    }
}

/// Which inventory and device stand at a place among the devices of all inventories.
proof fn lemma_live_source(inventories: Seq<DeviceInventory>, at: int) -> (source: (int, int))
    requires
        0 <= at < live_devices(inventories).len(),
    ensures
        0 <= source.0 < inventories.len(),
        0 <= source.1 < inventories[source.0].paired@.len(),
        live_devices(inventories)[at] == (
            inventories[source.0],
            inventories[source.0].paired@[source.1],
        ),
    decreases inventories.len(),
{
    let front = live_devices(inventories.drop_last());
    if at < front.len() {
        assert(live_devices(inventories)[at] == front[at]);
        lemma_live_source(inventories.drop_last(), at)
    } else {
        (inventories.len() - 1, at - front.len())
    }
}

/// The list before it was sorted.
proof fn lemma_unsorted(
    list: Seq<DeviceRecord>,
    inventories: Seq<DeviceInventory>,
    cache: AssetResolver,
    known: Seq<(String, DeviceIdentity)>,
    cameras: Seq<Camera>,
    demo: bool,
) -> (out: (Seq<DeviceRecord>, Seq<(String, DeviceIdentity)>))
    requires
        is_device_list(list, inventories, cache, known, cameras, demo),
    ensures
        sorted_known(known, out.1),
        is_union(out.0, inventories, cache, out.1, cameras, demo),
        sorted_records(out.0, list),
        out.0.len() == list.len(),
{
    let (all, sorted) = choose|all: Seq<DeviceRecord>, sorted: Seq<(String, DeviceIdentity)>|
        #![trigger is_union(all, inventories, cache, sorted, cameras, demo)]
        sorted_known(known, sorted) && is_union(all, inventories, cache, sorted, cameras, demo)
            && sorted_records(all, list);
    let perm = choose|perm: Seq<usize>| #[trigger]
        stable_order(record_keys(all), perm) && list == permuted(all, perm);
    (all, sorted)
}

/// The route of a live device, where every write to it goes: a device at the direct
/// index is reached by vendor and product, any other through its receiver and slot, and
/// without the receiver's serial there is none.
pub open spec fn leads_to(r: DeviceRecord, inv: DeviceInventory, d: PairedDevice) -> bool {
    &&& d.slot == 0xff ==> r.route == Some(
        DeviceRoute::Direct {
            vendor_id: inv.receiver.vendor_id,
            product_id: inv.receiver.product_id,
        },
    )
    &&& d.slot != 0xff && inv.receiver.unique_id is Some ==> r.route == Some(
        DeviceRoute::Bolt { receiver_uid: inv.receiver.unique_id->0, slot: d.slot },
    )
    &&& d.slot != 0xff && inv.receiver.unique_id is None ==> r.route is None
}

/// The measured state of a live device is what the inventory reports.
pub open spec fn reports(r: DeviceRecord, d: PairedDevice) -> bool {
    &&& r.slot == d.slot
    &&& r.online == d.online
    &&& r.battery == d.battery
    &&& r.capabilities == d.capabilities
    &&& r.model_info == d.model_info
    &&& r.codename == d.codename
    &&& d.model_info matches Some(m) ==> r.serial_number == m.serial_number && r.unit_id@
        == m.unit_id@
    &&& d.model_info is None ==> r.serial_number is None && r.unit_id@ == seq![0u8, 0u8, 0u8, 0u8]
}

/// Every device of every inventory has a record in the list that can be written to where
/// its inventory reaches it, and that says what the inventory reports of it.
pub proof fn live_devices_can_be_written_to(
    list: Seq<DeviceRecord>,
    inventories: Seq<DeviceInventory>,
    cache: AssetResolver,
    known: Seq<(String, DeviceIdentity)>,
    cameras: Seq<Camera>,
    demo: bool,
    i: int,
    k: int,
) -> (at: int)
    requires
        is_device_list(list, inventories, cache, known, cameras, demo),
        list.len() <= usize::MAX,
        0 <= i < inventories.len(),
        0 <= k < inventories[i].paired@.len(),
    ensures
        0 <= at < list.len(),
        leads_to(list[at], inventories[i], inventories[i].paired@[k]),
        reports(list[at], inventories[i].paired@[k]),
        is_live_record(list[at], inventories[i], inventories[i].paired@[k], cache),
{
    let p = lemma_live_position(inventories, i, k);
    live_devices_are_listed(list, inventories, cache, known, cameras, demo, p)
}

/// The key of a live record names its receiver and slot, or its vendor, product and unit,
/// and may be persisted exactly where it names one physical device.
pub proof fn live_keys_name_the_device(
    r: DeviceRecord,
    inv: DeviceInventory,
    d: PairedDevice,
    cache: AssetResolver,
)
    requires
        is_live_record(r, inv, d, cache),
    ensures
        d.slot != 0xff && inv.receiver.unique_id is Some ==> r.persistent && r.config_key@
            == "receiver:"@ + ascii_lower(inv.receiver.unique_id->0@) + ":slot:"@ + decimal(
            d.slot as nat,
        ),
        d.slot == 0xff ==> r.config_key@.len() > 17 && r.config_key@.take(17) =~= "direct:"@ + hex4(
            inv.receiver.vendor_id as nat,
        ) + ":"@ + hex4(inv.receiver.product_id as nat) + ":"@,
        d.slot == 0xff ==> r.persistent == (d.model_info matches Some(m) && ((
        m.serial_number matches Some(s) && s@.len() > 0) || m.unit_id@ != seq![
            0u8,
            0u8,
            0u8,
            0u8,
        ])),
        d.slot != 0xff && inv.receiver.unique_id is None ==> r.persistent == (
        d.model_info matches Some(m) && ((m.serial_number matches Some(s) && s@.len() > 0)
            || m.unit_id@ != seq![0u8, 0u8, 0u8, 0u8])),
{
    reveal_strlit("direct:");
    reveal_strlit(":");
    reveal_strlit("serial:");
    reveal_strlit("unit:");
    lemma_hex4_len(inv.receiver.vendor_id as nat);
    lemma_hex4_len(inv.receiver.product_id as nat);
    let zero = seq![0u8, 0u8, 0u8, 0u8];
    if let Some(m) = d.model_info {
        if m.unit_id@[0] == 0 && m.unit_id@[1] == 0 && m.unit_id@[2] == 0 && m.unit_id@[3] == 0 {
            assert(m.unit_id@ =~= zero);
        }
    }
    if d.slot == 0xff {
        let key = r.config_key@;
        let front = "direct:"@ + hex4(inv.receiver.vendor_id as nat) + ":"@ + hex4(
            inv.receiver.product_id as nat,
        ) + ":"@;
        assert(front.len() == 17);
        assert(key.take(17) =~= front);
    }
}

/// The name of a live record: the curated one where an asset is at hand, else one from
/// the codename, else its slot. The registry decides the kind where it has an opinion.
pub proof fn live_names_and_kinds(
    r: DeviceRecord,
    inv: DeviceInventory,
    d: PairedDevice,
    cache: AssetResolver,
)
    requires
        is_live_record(r, inv, d, cache),
    ensures
        r.asset matches Some(a) ==> r.display_name@ == a.display_name@,
        r.asset is None && d.codename is None ==> r.display_name@ == "Slot "@ + decimal(
            d.slot as nat,
        ),
        r.asset is None ==> r.kind == d.kind,
        r.asset matches Some(a) ==> r.kind == if a.kind == DeviceKind::Unknown {
            d.kind
        } else {
            a.kind
        },
        r.asset matches Some(a) ==> exists|j: int|
            0 <= j < cache.entries@.len() && (#[trigger] cache.entries@[j]).asset == a,
        d.model_info is None ==> r.asset is None,
        d.model_info is None && d.wpid is Some ==> r.model_key@ == "wpid"@ + hex4(
            d.wpid->0 as nat,
        ),
        d.model_info is None && d.wpid is None ==> r.model_key@ == "slot"@ + decimal(
            d.slot as nat,
        ),
        d.model_info matches Some(m) ==> r.model_key@ == hex(m.extended_model_id as nat) + hex4(
            m.model_ids@[0] as nat,
        ),
{
    if let Some(m) = d.model_info {
        if r.asset is Some {
            let j = lemma_answer_stands(
                cache.entries@,
                m,
                optional_text(d.codename),
            );
            assert(cache.entries@[j].asset == r.asset->0);
        }
    }
}

/// An answer of the asset registry is one of those at hand, for this model.
proof fn lemma_answer_stands(
    entries: Seq<AssetEntry>,
    model: DeviceModelInfo,
    codename: Option<Seq<char>>,
) -> (j: int)
    requires
        first_answer(entries, model, codename) is Some,
    ensures
        0 <= j < entries.len(),
        entries[j].asset == first_answer(entries, model, codename)->0,
        entries[j].model.extended_model_id == model.extended_model_id,
        entries[j].model.model_ids@ == model.model_ids@,
        optional_text(entries[j].codename) == codename,
    decreases entries.len(),
{
    if entries[0].answers(model, codename) {
        0
    } else {
        let j = lemma_answer_stands(entries.skip(1), model, codename);
        assert(entries.skip(1)[j] == entries[j + 1]);
        j + 1
    }
}

/// An asset that is at hand for a model and codename is found: the first one that was put
/// there for them.
pub proof fn assets_at_hand_are_found(cache: AssetResolver, j: int)
    requires
        0 <= j < cache.entries@.len(),
        forall|k: int|
            0 <= k < j ==> optional_text((#[trigger] cache.entries@[k]).codename) != optional_text(
                cache.entries@[j].codename,
            ) || cache.entries@[k].model.model_ids@ != cache.entries@[j].model.model_ids@
                || cache.entries@[k].model.extended_model_id
                != cache.entries@[j].model.extended_model_id,
    ensures
        cache.answer(cache.entries@[j].model, optional_text(cache.entries@[j].codename)) == Some(
            cache.entries@[j].asset,
        ),
{
    lemma_first_answer(
        cache.entries@,
        cache.entries@[j].model,
        optional_text(cache.entries@[j].codename),
        j,
    );
}

proof fn lemma_first_answer(
    entries: Seq<AssetEntry>,
    model: DeviceModelInfo,
    codename: Option<Seq<char>>,
    j: int,
)
    requires
        0 <= j < entries.len(),
        entries[j].model == model,
        optional_text(entries[j].codename) == codename,
        forall|k: int|
            0 <= k < j ==> optional_text((#[trigger] entries[k]).codename) != codename
                || entries[k].model.model_ids@ != model.model_ids@
                || entries[k].model.extended_model_id != model.extended_model_id,
    ensures
        first_answer(entries, model, codename) == Some(entries[j].asset),
    decreases j,
{
    if j > 0 {
        assert(!entries[0].answers(model, codename));
        assert forall|k: int| 0 <= k < j - 1 implies optional_text(
            (#[trigger] entries.skip(1)[k]).codename,
        ) != codename || entries.skip(1)[k].model.model_ids@ != model.model_ids@
            || entries.skip(1)[k].model.extended_model_id != model.extended_model_id by {
            assert(entries.skip(1)[k] == entries[k + 1]);
        }
        lemma_first_answer(entries.skip(1), model, codename, j - 1);
    }
}

/// A camera's record carries its id, from which the preview finds it again, and its name.
/// It is there, and nothing can be written to it over HID++.
pub open spec fn shows_camera(r: DeviceRecord, camera: Camera) -> bool {
    &&& r.config_key@ == "camera-"@ + camera.unique_id@
    &&& r.display_name@ == camera.name@
    &&& r.serial_number matches Some(id) && id@ == camera.unique_id@
    &&& r.kind == DeviceKind::Camera
    &&& r.online
    &&& r.route is None
    &&& r.capabilities is None
    &&& r.battery is None
}

/// Every camera has a record in the list.
pub proof fn cameras_are_listed(
    list: Seq<DeviceRecord>,
    inventories: Seq<DeviceInventory>,
    cache: AssetResolver,
    known: Seq<(String, DeviceIdentity)>,
    cameras: Seq<Camera>,
    demo: bool,
    i: int,
) -> (at: int)
    requires
        is_device_list(list, inventories, cache, known, cameras, demo),
        list.len() <= usize::MAX,
        0 <= i < cameras.len(),
    ensures
        0 <= at < list.len(),
        shows_camera(list[at], cameras[i]),
{
    let (all, sorted) = lemma_unsorted(list, inventories, cache, known, cameras, demo);
    let m = all.len() - cameras.len();
    assert(is_camera_record(all[m + i], cameras[i], cache));
    sorting_keeps_every_record(all, list, m + i)
}

/// A placeholder shows what is remembered of a device that is away: its key and name, its
/// kind, and the capabilities that keep its panels visible.
pub open spec fn shows_remembered(r: DeviceRecord, key: Seq<char>, identity: DeviceIdentity) -> bool {
    &&& r.config_key@ == key
    &&& r.display_name@ == identity.display_name@
    &&& r.kind == identity.kind
    &&& r.capabilities == Some(identity.capabilities)
    &&& r.codename == identity.codename
    &&& r.persistent
    &&& !r.online
    &&& r.route is None
    &&& r.battery is None
}

/// Nothing else is in the list: every record stands for a device of an inventory, for a
/// camera, for a remembered device that is away, or is the demo keyboard; and only the
/// devices of inventories can be written to.
pub proof fn records_have_a_source(
    list: Seq<DeviceRecord>,
    inventories: Seq<DeviceInventory>,
    cache: AssetResolver,
    known: Seq<(String, DeviceIdentity)>,
    cameras: Seq<Camera>,
    demo: bool,
    at: int,
)
    requires
        is_device_list(list, inventories, cache, known, cameras, demo),
        0 <= at < list.len(),
    ensures
        ({
            ||| exists|i: int, k: int|
                0 <= i < inventories.len() && 0 <= k < inventories[i].paired@.len() && leads_to(
                    list[at],
                    #[trigger] inventories[i],
                    #[trigger] inventories[i].paired@[k],
                ) && reports(list[at], inventories[i].paired@[k])
            ||| list[at].route is None && exists|i: int|
                0 <= i < cameras.len() && shows_camera(list[at], #[trigger] cameras[i])
            ||| list[at].route is None && exists|i: int|
                0 <= i < known.len() && shows_remembered(
                    list[at],
                    (#[trigger] known[i]).0@,
                    known[i].1,
                )
            ||| list[at].route is None && demo && list[at].config_key@ == "demo-g513"@
        }),
{
    let (all, sorted) = lemma_unsorted(list, inventories, cache, known, cameras, demo);
    let p = sorting_adds_no_record(all, list, at);
    let live = live_devices(inventories).len() as int;
    let n = live + if demo {
        1int
    } else {
        0int
    };
    let m = all.len() - cameras.len();
    if p < live {
        assert(all.take(live)[p] == all[p]);
        let (i, k) = lemma_live_source(inventories, p);
        assert(leads_to(list[at], inventories[i], inventories[i].paired@[k]));
        assert(reports(list[at], inventories[i].paired@[k]));
    } else if p < n {
        assert(is_demo_keyboard(all[p]));
    } else if p < m {
        let kept = kept_positions(
            cards_of(all.take(n)),
            sorted,
            plugged_receivers(inventories),
            sorted.len() as int,
        );
        let j = p - n;
        lemma_kept(cards_of(all.take(n)), sorted, plugged_receivers(inventories), sorted.len() as int);
        assert(all.take(m)[n + j] == all[p]);
        assert(0 <= kept[j] < sorted.len());
        assert(is_offline_record(all[p], sorted[kept[j]].0@, sorted[kept[j]].1, cache));
        let perm = choose|perm: Seq<usize>| #[trigger]
            stable_order(known_keys(known), perm) && sorted == permuted(known, perm);
        let i = perm[kept[j]] as int;
        assert(sorted[kept[j]] == known[i]);
        assert(shows_remembered(list[at], known[i].0@, known[i].1));
    } else {
        let i = p - m;
        assert(is_camera_record(all[m + i], cameras[i], cache));
        assert(shows_camera(list[at], cameras[i]));
    }
}

/// Every live device and every camera has a record of its own, the demo keyboard has one
/// where it is wanted, and no remembered device has more than one placeholder.
pub proof fn records_are_counted(
    list: Seq<DeviceRecord>,
    inventories: Seq<DeviceInventory>,
    cache: AssetResolver,
    known: Seq<(String, DeviceIdentity)>,
    cameras: Seq<Camera>,
    demo: bool,
)
    requires
        is_device_list(list, inventories, cache, known, cameras, demo),
    ensures
        ({
            let there = live_devices(inventories).len() + cameras.len() + if demo {
                1int
            } else {
                0int
            };
            there <= list.len() <= there + known.len()
        }),
{
    let (all, sorted) = lemma_unsorted(list, inventories, cache, known, cameras, demo);
    let n = live_devices(inventories).len() + if demo {
        1int
    } else {
        0int
    };
    let m = all.len() - cameras.len();
    lemma_few_kept(
        cards_of(all.take(n)),
        sorted,
        plugged_receivers(inventories),
        sorted.len() as int,
    );
    let perm = choose|perm: Seq<usize>| #[trigger]
        stable_order(known_keys(known), perm) && sorted == permuted(known, perm);
}

proof fn lemma_few_kept(
    cards: Seq<Card>,
    entries: Seq<(String, DeviceIdentity)>,
    receivers: Set<Seq<char>>,
    n: int,
)
    requires
        0 <= n <= entries.len(),
    ensures
        kept_positions(cards, entries, receivers, n).len() <= n,
    decreases n,
{
    if n > 0 {
        lemma_few_kept(cards, entries, receivers, n - 1);
    }
}

/// The list is in a stable order: devices of receivers first, then direct ones, then
/// those without a route; within one receiver by slot, direct ones by vendor and product.
pub proof fn devices_stand_by_route(
    list: Seq<DeviceRecord>,
    inventories: Seq<DeviceInventory>,
    cache: AssetResolver,
    known: Seq<(String, DeviceIdentity)>,
    cameras: Seq<Camera>,
    demo: bool,
    a: int,
    b: int,
)
    requires
        is_device_list(list, inventories, cache, known, cameras, demo),
        0 <= a < b < list.len(),
    ensures
        list[a].route is None ==> list[b].route is None,
        list[a].route matches Some(DeviceRoute::Direct { .. }) ==> !(
        list[b].route matches Some(DeviceRoute::Bolt { .. })),
        list[a].route matches Some(DeviceRoute::Bolt { receiver_uid: u, slot: s }) && (
        list[b].route matches Some(DeviceRoute::Bolt { receiver_uid: w, slot: t })) ==> {
            let (x, y) = (list[a].route->0, list[b].route->0);
            ascii_lower(x->receiver_uid@) == ascii_lower(y->receiver_uid@) ==> x->slot <= y->slot
        },
        list[a].route matches Some(DeviceRoute::Bolt { receiver_uid: u, slot: s }) && (
        list[b].route matches Some(DeviceRoute::Bolt { receiver_uid: w, slot: t })) ==> {
            let (x, y) = (list[a].route->0, list[b].route->0);
            !text_lt(ascii_lower(y->receiver_uid@), ascii_lower(x->receiver_uid@))
        },
        list[a].route matches Some(DeviceRoute::Direct { vendor_id: v, product_id: p }) && (
        list[b].route matches Some(DeviceRoute::Direct { vendor_id: w, product_id: q })) ==> {
            let (x, y) = (list[a].route->0, list[b].route->0);
            x->vendor_id < y->vendor_id || (x->vendor_id == y->vendor_id && x->product_id
                <= y->product_id)
        },
{
    let (all, sorted) = lemma_unsorted(list, inventories, cache, known, cameras, demo);
    sorted_list_ascends(all, list, a, b);
    let (k, l) = (record_order(list[a]), record_order(list[b]));
    lemma_order_front(list[a]);
    lemma_order_front(list[b]);
    if k == l {
        lemma_lex_irreflexive(k);
    }
    if k[0] == l[0] {
        let (k1, l1) = (k.skip(1), l.skip(1));
        match (list[a].route, list[b].route) {
            (
                Some(DeviceRoute::Bolt { receiver_uid: u, slot: s }),
                Some(DeviceRoute::Bolt { receiver_uid: w, slot: t }),
            ) => {
                let (x, y) = (ascii_lower(u@), ascii_lower(w@));
                let rest = |r: DeviceRecord, slot: u8|
                    seq![slot as u32] + text_key(r.model_key@) + text_key(r.display_name@);
                let (kr, lr) = (rest(list[a], s), rest(list[b], t));
                assert(k1 =~= text_key(x) + kr);
                assert(l1 =~= text_key(y) + lr);
                lemma_text_key_order(x, kr, y, lr);
                lemma_text_key_order(y, lr, x, kr);
                if k != l {
                    assert(lex_lt(k1, l1));
                    if text_lt(y, x) {
                        lemma_lex_transitive(k1, l1, k1);
                        lemma_lex_irreflexive(k1);
                    }
                    if x == y {
                        assert(lex_lt(kr, lr) || text_lt(x, y));
                        if text_lt(x, y) {
                            crate::table::lemma_text_irreflexive(x);
                        }
                        assert(kr[0] == s as u32);
                        assert(lr[0] == t as u32);
                    }
                } else {
                    assert(k1 == l1);
                    lemma_lex_irreflexive(k1);
                    if x == y {
                        assert(kr =~= k1.skip(text_key(x).len() as int));
                        assert(lr =~= l1.skip(text_key(y).len() as int));
                        assert(kr[0] == s as u32);
                        assert(lr[0] == t as u32);
                    }
                }
            },
            (
                Some(DeviceRoute::Direct { vendor_id: v, product_id: p }),
                Some(DeviceRoute::Direct { vendor_id: w, product_id: q }),
            ) => {
                assert(k[1] == v as u32 && k[2] == p as u32);
                assert(l[1] == w as u32 && l[2] == q as u32);
                if k != l {
                    assert(lex_lt(k1, l1));
                    assert(k1[0] == v as u32 && l1[0] == w as u32);
                    if v == w {
                        let (k2, l2) = (k1.skip(1), l1.skip(1));
                        assert(lex_lt(k2, l2));
                        assert(k2[0] == p as u32 && l2[0] == q as u32);
                    }
                }
            },
            _ => {},
        }
    }
}

proof fn lemma_order_front(r: DeviceRecord)
    ensures
        record_order(r).len() > 0,
        record_order(r)[0] == match r.route {
            Some(DeviceRoute::Bolt { .. }) => 0u32,
            Some(DeviceRoute::Direct { .. }) => 1u32,
            None => 2u32,
        },
{
}

/// A key that names only a model gets no placeholder beside a record of that model.
pub proof fn models_hide_model_keys(
    before: Seq<DeviceRecord>,
    after: Seq<DeviceRecord>,
    entries: Seq<(String, DeviceIdentity)>,
    receivers: Set<Seq<char>>,
    cache: AssetResolver,
    k: int,
    earlier: int,
)
    requires
        joined_by(before, after, entries, receivers, cache),
        before.len() <= k < after.len(),
        0 <= earlier < k,
        !is_physical_key(after[k].config_key@),
    ensures
        after[k].model_info matches Some(m) ==> after[earlier].model_key@ != after[k].model_key@
            || legacy_model(after[k].config_key@) is Some,
        after[k].model_info is None ==> after[earlier].model_key@ != after[k].model_key@,
{
    let n = entries.len() as int;
    let cards = cards_of(before);
    let kept = kept_positions(cards, entries, receivers, n);
    let j = k - before.len();
    lemma_admitted(cards, entries, receivers, n, j);
    lemma_joined_cards(before, after, entries, receivers, cache);
    let p = kept[j];
    lemma_kept_stay(cards, entries, receivers, p, n);
    assert(is_offline_record(after[k], entries[p].0@, entries[p].1, cache));
    let here = kept_cards(cards, entries, receivers, p);
    let all = kept_cards(cards, entries, receivers, n);
    assert(all[earlier] == here[earlier]);
    assert(cards_of(after)[earlier] == card_of(after[earlier]));
    assert(here[earlier].model == after[earlier].model_key@);
}

/// A remembered device whose receiver is away, or whose key never named a device, is not
/// shown; any other whose key names one physical device is, unless a record with its key
/// is already there.
pub proof fn placeholders_follow_the_receivers(
    before: Seq<DeviceRecord>,
    after: Seq<DeviceRecord>,
    known: Seq<(String, DeviceIdentity)>,
    receivers: Set<Seq<char>>,
    cache: AssetResolver,
    uid: Seq<char>,
    slot: u8,
    k: int,
)
    requires
        is_appended(before, after, known, receivers, cache),
        before.len() <= k < after.len(),
        !uid.contains(':'),
        after[k].config_key@ == "receiver:"@ + uid + ":slot:"@ + decimal(slot as nat),
    ensures
        receivers.contains(ascii_lower(uid)),
{
    let sorted = choose|sorted: Seq<(String, DeviceIdentity)>| #[trigger]
        sorted_known(known, sorted) && joined_by(before, after, sorted, receivers, cache);
    placeholders_are_reachable_and_inert(before, after, sorted, receivers, cache, k);
    lemma_receiver_key(after[k].config_key@, uid, slot);
}

/// A remembered device of a receiver that is plugged in is in the list, whatever the case
/// in which the receiver's serial is written.
pub proof fn devices_of_plugged_receivers_are_listed(
    list: Seq<DeviceRecord>,
    inventories: Seq<DeviceInventory>,
    cache: AssetResolver,
    known: Seq<(String, DeviceIdentity)>,
    cameras: Seq<Camera>,
    demo: bool,
    i: int,
    j: int,
    uid: Seq<char>,
    slot: u8,
) -> (at: int)
    requires
        is_device_list(list, inventories, cache, known, cameras, demo),
        list.len() <= usize::MAX,
        known.len() <= usize::MAX,
        0 <= i < known.len(),
        known[i].0@ == "receiver:"@ + uid + ":slot:"@ + decimal(slot as nat),
        !uid.contains(':'),
        0 <= j < inventories.len(),
        inventories[j].receiver.unique_id is Some,
        ascii_lower(inventories[j].receiver.unique_id->0@) == ascii_lower(uid),
    ensures
        0 <= at < list.len(),
        list[at].config_key@ == known[i].0@,
{
    let key = known[i].0@;
    lemma_receiver_key(key, uid, slot);
    assert(names_receiver(inventories[j], ascii_lower(uid)));
    assert(plugged_receivers(inventories).contains(ascii_lower(uid)));
    remembered_devices_are_listed(list, inventories, cache, known, cameras, demo, i)
}

/// A remembered direct device with a serial number is in the list.
pub proof fn remembered_direct_devices_are_listed(
    list: Seq<DeviceRecord>,
    inventories: Seq<DeviceInventory>,
    cache: AssetResolver,
    known: Seq<(String, DeviceIdentity)>,
    cameras: Seq<Camera>,
    demo: bool,
    i: int,
    vendor_id: u16,
    product_id: u16,
    serial: Seq<char>,
) -> (at: int)
    requires
        is_device_list(list, inventories, cache, known, cameras, demo),
        list.len() <= usize::MAX,
        known.len() <= usize::MAX,
        0 <= i < known.len(),
        known[i].0@ == "direct:"@ + hex4(vendor_id as nat) + ":"@ + hex4(product_id as nat)
            + ":serial:"@ + serial,
    ensures
        0 <= at < list.len(),
        list[at].config_key@ == known[i].0@,
{
    reveal_strlit("direct:");
    reveal_strlit("receiver:");
    reveal_strlit(":serial:");
    reveal_strlit("serial:");
    reveal_strlit("unit:00000000");
    reveal_strlit(":");
    assert(":"@ =~= seq![':']);
    let key = known[i].0@;
    let (v, p) = (hex4(vendor_id as nat), hex4(product_id as nat));
    let identity = "serial:"@ + serial;
    lemma_hex4_len(vendor_id as nat);
    lemma_digits_value(vendor_id as nat, 16);
    lemma_zero_padded(hex(vendor_id as nat), 4, 16);
    lemma_digits_clean(v, 16, ':');
    lemma_hex4_len(product_id as nat);
    lemma_digits_value(product_id as nat, 16);
    lemma_zero_padded(hex(product_id as nat), 4, 16);
    lemma_digits_clean(p, 16, ':');
    let more = p + seq![':'] + identity;
    let rest = v + seq![':'] + more;
    assert(":serial:"@ =~= seq![':'] + "serial:"@);
    assert(key =~= "direct:"@ + rest);
    assert(key.subrange(0, 7) =~= "direct:"@);
    assert(key.skip(7) =~= rest);
    assert(strip_prefix(key, "direct:"@) == Some(rest));
    lemma_find_separator(v, ':', more);
    lemma_find_separator(p, ':', identity);
    assert(after_first(rest, ":"@) == Some(more));
    assert(after_first(more, ":"@) == Some(identity));
    assert(identity[0] == 's');
    assert(!is_transient_key(key));
    assert(has_prefix(key, "direct:"@));
    assert(strip_prefix(key, "receiver:"@) is None) by {
        if has_prefix(key, "receiver:"@) {
            assert(key.subrange(0, 9)[0] == key[0]);
        }
    }
    remembered_devices_are_listed(list, inventories, cache, known, cameras, demo, i)
}

proof fn lemma_receiver_key(key: Seq<char>, uid: Seq<char>, slot: u8)
    requires
        key == "receiver:"@ + uid + ":slot:"@ + decimal(slot as nat),
        !uid.contains(':'),
    ensures
        is_physical_key(key),
        !is_transient_key(key),
        receiver_uid(key) == Some(ascii_lower(uid)),
{
    reveal_strlit("receiver:");
    reveal_strlit(":slot:");
    reveal_strlit(":");
    reveal_strlit("slot:");
    reveal_strlit("direct:");
    reveal_strlit("unknown:slot:");
    let tail = "slot:"@ + decimal(slot as nat);
    let rest = uid + seq![':'] + tail;
    assert(key =~= "receiver:"@ + rest);
    assert(key.subrange(0, 9) =~= "receiver:"@);
    assert(key.skip(9) =~= rest);
    assert(strip_prefix(key, "receiver:"@) == Some(rest));
    assert(":"@ =~= seq![':']);
    lemma_find_separator(uid, ':', tail);
    assert(before_first(rest, ":"@) =~= uid);
    assert(key[0] == 'r');
    assert(!has_prefix(key, "direct:"@)) by {
        if has_prefix(key, "direct:"@) {
            assert(key.subrange(0, 7)[0] == key[0]);
        }
    }
    assert(!has_prefix(key, "unknown:slot:"@)) by {
        if has_prefix(key, "unknown:slot:"@) {
            assert(key.subrange(0, 13)[0] == key[0]);
        }
    }
}

/// A live record folded into the card that it physically is: the settings stay with the
/// card's key, and writes go where the live device is.
pub proof fn adopted_records_keep_the_card(known: DeviceRecord, live: DeviceRecord)
    ensures
        ({
            let out = adopted(known, live);
            &&& out.config_key == known.config_key
            &&& out.persistent
            &&& out.model_key == known.model_key
            &&& out.display_name == known.display_name
            &&& out.serial_number == known.serial_number
            &&& out.unit_id == known.unit_id
            &&& out.route == live.route
            &&& out.slot == live.slot
            &&& out.online == live.online
            &&& live.battery is Some ==> out.battery == live.battery
            &&& live.battery is None ==> out.battery == known.battery
            &&& live.capabilities is Some ==> out.capabilities == live.capabilities
            &&& live.capabilities is None ==> out.capabilities == known.capabilities
            &&& known.asset is Some ==> out.asset == known.asset
            &&& known.asset is None ==> out.asset == live.asset
            &&& known.model_info is Some ==> out.model_info == known.model_info
            &&& known.model_info is None ==> out.model_info == live.model_info
            &&& known.codename is Some ==> out.codename == known.codename
            &&& known.codename is None ==> out.codename == live.codename
            &&& known.kind != DeviceKind::Unknown ==> out.kind == known.kind
            &&& known.kind == DeviceKind::Unknown ==> out.kind == live.kind
        }),
{
}

/// A saved key selects only a record whose key may be persisted.
pub proof fn transient_records_are_not_selected(list: Seq<DeviceRecord>, i: int, key: Seq<char>)
    requires
        0 <= i < list.len(),
    ensures
        selects(list, i, key) == (list[i].persistent && list[i].config_key@ == key),
{
}

// ── Keys ────────────────────────────────────────────────────────────────────

/// The model key of a model is read back as that model.
pub proof fn model_keys_are_read_back(extended_model_id: u8, product_id: u16)
    ensures
        legacy_model(model_key_text(extended_model_id, product_id)) == Some(
            (extended_model_id, product_id),
        ),
{
    let e = hex(extended_model_id as nat);
    let p = hex4(product_id as nat);
    let key = e + p;
    lemma_hex2_len(extended_model_id as nat);
    lemma_hex4_len(product_id as nat);
    lemma_digits_value(extended_model_id as nat, 16);
    lemma_digits_value(product_id as nat, 16);
    lemma_zero_padded(hex(product_id as nat), 4, 16);
    assert(key.take(key.len() - 4) =~= e);
    assert(key.skip(key.len() - 4) =~= p);
    assert forall|i: int| 0 <= i < key.len() implies 0 <= #[trigger] digit_value(key[i]) < 16 by {
        if i < e.len() {
            assert(key[i] == e[i]);
            assert(0 <= digit_value(e[i]) < 16);
        } else {
            assert(key[i] == p[i - e.len()]);
            assert(0 <= digit_value(p[i - e.len()]) < 16);
        }
    }
}

/// Two models with one model key agree in their extended model byte and their
/// product id.
pub proof fn model_keys_tell_models_apart(a: u8, p: u16, b: u8, q: u16)
    requires
        model_key_text(a, p) == model_key_text(b, q),
    ensures
        a == b,
        p == q,
{
    model_keys_are_read_back(a, p);
    model_keys_are_read_back(b, q);
}

/// All direct keys of one wire product, those that name no physical device
/// included, have that product's prefix.
pub proof fn direct_keys_share_a_prefix(
    vendor_id: u16,
    product_id: u16,
    slot: u8,
    serial: Option<Seq<char>>,
    unit: Seq<u8>,
)
    requires
        unit.len() == 4,
    ensures
        direct_prefix(
            stable_key(
                Some(DeviceRoute::Direct { vendor_id, product_id }),
                slot,
                serial,
                unit,
            ),
        ) == Some("direct:"@ + hex4(vendor_id as nat) + ":"@ + hex4(product_id as nat)),
{
    reveal_strlit("direct:");
    reveal_strlit(":");
    reveal_strlit("serial:");
    reveal_strlit("unit:");
    assert(":"@ =~= seq![':']);
    let v = hex4(vendor_id as nat);
    let p = hex4(product_id as nat);
    let identity = unit_identity_text(serial, unit);
    let key = stable_key(
        Some(DeviceRoute::Direct { vendor_id, product_id }),
        slot,
        serial,
        unit,
    );
    lemma_hex4_len(vendor_id as nat);
    lemma_digits_value(vendor_id as nat, 16);
    lemma_zero_padded(hex(vendor_id as nat), 4, 16);
    lemma_digits_clean(v, 16, ':');
    lemma_hex4_len(product_id as nat);
    lemma_digits_value(product_id as nat, 16);
    lemma_zero_padded(hex(product_id as nat), 4, 16);
    lemma_digits_clean(p, 16, ':');
    let more = p + seq![':'] + identity;
    let rest = v + seq![':'] + more;
    assert(key =~= "direct:"@ + rest);
    assert(key.subrange(0, 7) =~= "direct:"@);
    assert(key.skip(7) =~= rest);
    assert(strip_prefix(key, "direct:"@) == Some(rest));
    lemma_find_separator(v, ':', more);
    lemma_find_separator(p, ':', identity);
    assert(identity.len() > 0);
    assert(key.take(key.len() - identity.len() - 1) =~= "direct:"@ + v + ":"@ + p);
}

/// What is remembered with its model goes before what is remembered by a key alone, and
/// within each by the key.
pub proof fn stored_models_go_first(
    known: Seq<(String, DeviceIdentity)>,
    sorted: Seq<(String, DeviceIdentity)>,
    i: int,
    j: int,
)
    requires
        sorted_known(known, sorted),
        0 <= i < j < sorted.len(),
    ensures
        sorted[j].1.model_info is Some ==> sorted[i].1.model_info is Some,
        sorted[i].1.model_info is Some == sorted[j].1.model_info is Some ==> !text_lt(
            sorted[j].0@,
            sorted[i].0@,
        ),
{
    let perm = choose|perm: Seq<usize>| #[trigger]
        stable_order(known_keys(known), perm) && sorted == permuted(known, perm);
    let keys = known_keys(known);
    let (a, b) = (perm[i] as int, perm[j] as int);
    assert(before(keys, a, b));
    assert(keys[a] == known_order(sorted[i]));
    assert(keys[b] == known_order(sorted[j]));
    let (x, y) = (sorted[i].0@, sorted[j].0@);
    assert(keys[a][0] == if sorted[i].1.model_info is None {
        1u32
    } else {
        0u32
    });
    assert(keys[b][0] == if sorted[j].1.model_info is None {
        1u32
    } else {
        0u32
    });
    assert(keys[a].skip(1) =~= text_key(x) + Seq::<u32>::empty());
    assert(keys[b].skip(1) =~= text_key(y) + Seq::<u32>::empty());
    lemma_text_key_order(x, Seq::empty(), y, Seq::empty());
    lemma_text_key_order(y, Seq::empty(), x, Seq::empty());
    if text_lt(y, x) {
        lemma_lex_irreflexive(keys[a].skip(1));
        if keys[a] != keys[b] && keys[a][0] == keys[b][0] {
            lemma_lex_transitive(keys[a].skip(1), keys[b].skip(1), keys[a].skip(1));
        }
    }
}

/// The keyboard for show is on the list when it was asked for.
pub proof fn the_demo_is_listed(
    list: Seq<DeviceRecord>,
    inventories: Seq<DeviceInventory>,
    cache: AssetResolver,
    known: Seq<(String, DeviceIdentity)>,
    cameras: Seq<Camera>,
) -> (at: int)
    requires
        is_device_list(list, inventories, cache, known, cameras, true),
        list.len() <= usize::MAX,
    ensures
        0 <= at < list.len(),
        list[at].config_key@ == "demo-g513"@,
        list[at].kind == DeviceKind::Keyboard,
        list[at].online,
        list[at].route is None,
{
    let (all, sorted) = lemma_unsorted(list, inventories, cache, known, cameras, true);
    let n = live_devices(inventories).len() + 1;
    assert(is_demo_keyboard(all[n - 1]));
    sorting_keeps_every_record(all, list, n - 1)
}

} // verus!
