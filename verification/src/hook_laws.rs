//! Laws of the mouse hook: what a press, a hold and a swipe lead to.

use vstd::prelude::*;

use crate::binding::{
    default_binding, Action, ButtonId, ButtonMap, DirectionMap, GestureDirection, SwipeAccumulator,
};
use crate::hook::{Attempt, EventDisposition, Hook, HookError, MouseEvent, Platform};
use crate::hook_runtime::{
    dispatch_action, on_event, start, start_step, BindingMap, BoundAction, DpiCycleState, Effect,
    HoldState, HookGestures, HookStep,
};

verus! {

/// The wheel button and the two side buttons, which the hook may remap.
pub open spec fn can_be_remapped(id: ButtonId) -> bool {
    id == ButtonId::MiddleClick || id == ButtonId::Back || id == ButtonId::Forward
}

// ── Clicks and swipes ───────────────────────────────────────────────────────

/// A gesture button clicks: held and let go without a swipe in between, it triggers exactly
/// the action of its click, and does so when it is let go. The system sees neither half.
pub proof fn gesture_clicks_fire<T>(
    id: ButtonId,
    pressing: &mut HoldState,
    pressed: (EventDisposition, Option<BoundAction>),
    releasing: &mut HoldState,
    released: (EventDisposition, Option<BoundAction>),
    bindings: BindingMap,
    later_bindings: BindingMap,
    gestures: HookGestures,
    directions: DirectionMap<BoundAction>,
)
    requires
        can_be_remapped(id),
        gestures.at(id) == Some(directions),
        call_ensures(
            on_event::<T>,
            (&MouseEvent::Button { id, pressed: true }, pressing, &bindings, &gestures),
            pressed,
        ),
        *old(releasing) == *final(pressing),
        call_ensures(
            on_event::<T>,
            (&MouseEvent::Button { id, pressed: false }, releasing, &later_bindings, &gestures),
            released,
        ),
    ensures
        pressed == (EventDisposition::Suppress, None::<BoundAction>),
        released == (EventDisposition::Suppress, directions.at(GestureDirection::Click)),
        final(releasing).button is None,
{
}

/// A press of a gesture button begins a hold without travel in which no swipe was made yet.
pub proof fn holds_begin_fresh<T>(
    id: ButtonId,
    hold: &mut HoldState,
    out: (EventDisposition, Option<BoundAction>),
    bindings: BindingMap,
    gestures: HookGestures,
)
    requires
        can_be_remapped(id),
        gestures.at(id) is Some,
        call_ensures(
            on_event::<T>,
            (&MouseEvent::Button { id, pressed: true }, hold, &bindings, &gestures),
            out,
        ),
    ensures
        final(hold).button == Some(id),
        final(hold).swipe.holding,
        !final(hold).swipe.ripe,
        !final(hold).swipe.fired,
        final(hold).swipe.dx == 0,
        final(hold).swipe.dy == 0,
{
}

/// The release of a held button is answered by what happened in between: with no swipe it
/// triggers the action of a click, after a swipe nothing. Either way the system does not see
/// it, and the hold is over.
pub proof fn releases_end_the_hold<T>(
    id: ButtonId,
    hold: &mut HoldState,
    out: (EventDisposition, Option<BoundAction>),
    bindings: BindingMap,
    gestures: HookGestures,
)
    requires
        can_be_remapped(id),
        old(hold).button == Some(id),
        call_ensures(
            on_event::<T>,
            (&MouseEvent::Button { id, pressed: false }, hold, &bindings, &gestures),
            out,
        ),
    ensures
        out.0 == EventDisposition::Suppress,
        old(hold).swipe.fired ==> out.1 is None,
        !old(hold).swipe.fired ==> out.1 == match gestures.at(id) {
            Some(directions) => directions.at(GestureDirection::Click),
            None => None,
        },
        final(hold).button is None,
        !final(hold).swipe.holding,
{
}

/// Travel of less than fifty along both axes is no swipe: it triggers nothing, reaches the
/// system, and leaves a click a click.
pub proof fn small_movements_are_no_swipe<T>(
    hold: &mut HoldState,
    dx: i32,
    dy: i32,
    out: (EventDisposition, Option<BoundAction>),
    bindings: BindingMap,
    gestures: HookGestures,
)
    requires
        old(hold).button is Some,
        old(hold).swipe.holding,
        !old(hold).swipe.fired,
        -50 < old(hold).swipe.dx + dx < 50,
        -50 < old(hold).swipe.dy + dy < 50,
        call_ensures(
            on_event::<T>,
            (&MouseEvent::Moved { delta_x: dx, delta_y: dy }, hold, &bindings, &gestures),
            out,
        ),
    ensures
        out == (EventDisposition::PassThrough, None::<BoundAction>),
        final(hold).button == old(hold).button,
        final(hold).swipe.holding,
        !final(hold).swipe.fired,
        final(hold).swipe.dx == old(hold).swipe.dx + dx,
        final(hold).swipe.dy == old(hold).swipe.dy + dy,
        final(hold).swipe.ripe == old(hold).swipe.ripe,
{
}

/// Once a hold has lasted, travel of fifty or more is a swipe along the longer axis, to the
/// side that the travel points to, and triggers the action of the held button for it. The
/// pointer still moves.
pub proof fn swipes_fire<T>(
    id: ButtonId,
    hold: &mut HoldState,
    dx: i32,
    dy: i32,
    out: (EventDisposition, Option<BoundAction>),
    bindings: BindingMap,
    gestures: HookGestures,
    directions: DirectionMap<BoundAction>,
)
    requires
        gestures.at(id) == Some(directions),
        old(hold).button == Some(id),
        old(hold).swipe.holding,
        old(hold).swipe.ripe,
        !old(hold).swipe.fired,
        i32::MIN <= old(hold).swipe.dx + dx <= i32::MAX,
        i32::MIN <= old(hold).swipe.dy + dy <= i32::MAX,
        call_ensures(
            on_event::<T>,
            (&MouseEvent::Moved { delta_x: dx, delta_y: dy }, hold, &bindings, &gestures),
            out,
        ),
    ensures
        ({
            let x = old(hold).swipe.dx + dx;
            let y = old(hold).swipe.dy + dy;
            &&& out.0 == EventDisposition::PassThrough
            &&& x >= 50 && -x <= y <= x ==> out.1 == directions.at(GestureDirection::Right)
            &&& x <= -50 && x <= y <= -x ==> out.1 == directions.at(GestureDirection::Left)
            &&& y >= 50 && -y < x < y ==> out.1 == directions.at(GestureDirection::Down)
            &&& y <= -50 && y < x < -y ==> out.1 == directions.at(GestureDirection::Up)
            &&& final(hold).swipe.fired <==> x >= 50 || x <= -50 || y >= 50 || y <= -50
            &&& final(hold).button == Some(id)
        }),
{
}

/// A hold that has not lasted makes no swipe, however far the pointer travels, and one that
/// made its swipe makes no second one.
pub proof fn holds_swipe_once_and_in_time<T>(
    hold: &mut HoldState,
    dx: i32,
    dy: i32,
    out: (EventDisposition, Option<BoundAction>),
    bindings: BindingMap,
    gestures: HookGestures,
)
    requires
        call_ensures(
            on_event::<T>,
            (&MouseEvent::Moved { delta_x: dx, delta_y: dy }, hold, &bindings, &gestures),
            out,
        ),
        !old(hold).swipe.ripe || old(hold).swipe.fired || !old(hold).swipe.holding
            || old(hold).button is None,
    ensures
        out == (EventDisposition::PassThrough, None::<BoundAction>),
        final(hold).button == old(hold).button,
        final(hold).swipe.fired == old(hold).swipe.fired,
{
}

/// A button with a plain action fires when it goes down, once, and the system sees neither
/// half of the press. Bound to its own click, or to nothing, it is left to the system.
pub proof fn plain_buttons_fire_when_pressed<T>(
    id: ButtonId,
    down: bool,
    hold: &mut HoldState,
    out: (EventDisposition, Option<BoundAction>),
    bindings: BindingMap,
    gestures: HookGestures,
)
    requires
        can_be_remapped(id),
        down ==> gestures.at(id) is None,
        !down ==> old(hold).button != Some(id),
        call_ensures(
            on_event::<T>,
            (&MouseEvent::Button { id, pressed: down }, hold, &bindings, &gestures),
            out,
        ),
    ensures
        *final(hold) == *old(hold),
        bindings.at(id) is None ==> out == (EventDisposition::PassThrough, None::<BoundAction>),
        bindings.at(id) == Some(BoundAction::Os(Action::MiddleClick)) && id
            == ButtonId::MiddleClick ==> out == (
            EventDisposition::PassThrough,
            None::<BoundAction>,
        ),
        bindings.at(id) is Some && !(bindings.at(id) == Some(BoundAction::Os(Action::MiddleClick))
            && id == ButtonId::MiddleClick) ==> {
            &&& out.0 == EventDisposition::Suppress
            &&& out.1 == if down {
                bindings.at(id)
            } else {
                None
            }
        },
{
}

/// The primary buttons and the button behind the wheel always go to the system, whatever is
/// bound to them, and so does scrolling.
pub proof fn primary_buttons_always_pass<T>(
    event: MouseEvent<T>,
    hold: &mut HoldState,
    out: (EventDisposition, Option<BoundAction>),
    bindings: BindingMap,
    gestures: HookGestures,
)
    requires
        call_ensures(on_event::<T>, (&event, hold, &bindings, &gestures), out),
        event is Scroll || (event matches MouseEvent::Button { id, .. } && (id
            == ButtonId::LeftClick || id == ButtonId::RightClick || id == ButtonId::DpiToggle)),
    ensures
        out == (EventDisposition::PassThrough, None::<BoundAction>),
        *final(hold) == *old(hold),
{
}

// ── Holds and travel by themselves ──────────────────────────────────────────

/// A hold ends as a click exactly when it made no swipe, and only a release of the held
/// button ends it.
pub proof fn holds_end_as_clicks_or_swipes(
    hold: &mut HoldState,
    id: ButtonId,
    click: Option<bool>,
)
    requires
        call_ensures(HoldState::end, (hold, id), click),
    ensures
        click is None <==> old(hold).button != Some(id),
        click is None ==> *final(hold) == *old(hold),
        click matches Some(yes) ==> yes == !old(hold).swipe.fired && final(hold).button is None,
{
}

/// A hold reports the held button with its swipe.
pub proof fn swipes_belong_to_the_held_button(
    hold: &mut HoldState,
    dx: i32,
    dy: i32,
    out: Option<(ButtonId, GestureDirection)>,
)
    requires
        call_ensures(HoldState::accumulate, (hold, dx, dy), out),
    ensures
        out matches Some(swipe) ==> old(hold).button == Some(swipe.0) && final(hold).swipe.fired
            && !old(hold).swipe.fired && old(hold).swipe.ripe && swipe.1
            != GestureDirection::Click,
        final(hold).button == old(hold).button,
{
}

/// A swipe goes along the longer axis and needs a travel of fifty; equal travel counts as
/// horizontal.
pub proof fn swipes_follow_the_travel(
    travel: &mut SwipeAccumulator,
    dx: i32,
    dy: i32,
    out: Option<GestureDirection>,
)
    requires
        call_ensures(SwipeAccumulator::accumulate, (travel, dx, dy), out),
        old(travel).holding,
        old(travel).ripe,
        !old(travel).fired,
        i32::MIN <= old(travel).dx + dx <= i32::MAX,
        i32::MIN <= old(travel).dy + dy <= i32::MAX,
    ensures
        ({
            let x = old(travel).dx + dx;
            let y = old(travel).dy + dy;
            &&& out == Some(GestureDirection::Right) <==> x >= 50 && -x <= y <= x
            &&& out == Some(GestureDirection::Left) <==> x <= -50 && x <= y <= -x
            &&& out == Some(GestureDirection::Down) <==> y >= 50 && -y < x < y
            &&& out == Some(GestureDirection::Up) <==> y <= -50 && y < x < -y
            &&& out != Some(GestureDirection::Click)
            &&& final(travel).dx == x && final(travel).dy == y
            &&& final(travel).fired <==> out is Some
        }),
{
}

/// Opposite travel gives the opposite swipe.
pub proof fn opposite_travel_swipes_the_other_way(
    there: &mut SwipeAccumulator,
    back: &mut SwipeAccumulator,
    dx: i32,
    dy: i32,
    one: Option<GestureDirection>,
    other: Option<GestureDirection>,
)
    requires
        -0x8000_0000 < dx,
        -0x8000_0000 < dy,
        *old(there) == *old(back),
        old(there).dx == 0,
        old(there).dy == 0,
        call_ensures(SwipeAccumulator::accumulate, (there, dx, dy), one),
        call_ensures(SwipeAccumulator::accumulate, (back, (-dx) as i32, (-dy) as i32), other),
    ensures
        one == Some(GestureDirection::Left) <==> other == Some(GestureDirection::Right),
        one == Some(GestureDirection::Up) <==> other == Some(GestureDirection::Down),
        one == Some(GestureDirection::Right) <==> other == Some(GestureDirection::Left),
        one == Some(GestureDirection::Down) <==> other == Some(GestureDirection::Up),
{
}

/// Travel that would leave the range of its number stops at the end of the range.
pub proof fn travel_does_not_wrap(travel: &mut SwipeAccumulator, dx: i32, dy: i32, out: Option<
    GestureDirection,
>)
    requires
        call_ensures(SwipeAccumulator::accumulate, (travel, dx, dy), out),
        old(travel).holding,
        !old(travel).fired,
    ensures
        old(travel).dx + dx > i32::MAX ==> final(travel).dx == i32::MAX,
        old(travel).dx + dx < i32::MIN ==> final(travel).dx == i32::MIN,
        old(travel).dy + dy > i32::MAX ==> final(travel).dy == i32::MAX,
        old(travel).dy + dy < i32::MIN ==> final(travel).dy == i32::MIN,
{
}

/// A hold begins without travel and unripe, ripening changes nothing else, and ending it says
/// whether no swipe was made.
pub proof fn holds_begin_ripen_and_end(
    beginning: &mut SwipeAccumulator,
    ripening: &mut SwipeAccumulator,
    ending: &mut SwipeAccumulator,
    click: bool,
)
    requires
        call_ensures(SwipeAccumulator::begin, (beginning,), ()),
        call_ensures(SwipeAccumulator::ripen, (ripening,), ()),
        call_ensures(SwipeAccumulator::end, (ending,), click),
    ensures
        final(beginning).holding && !final(beginning).ripe && !final(beginning).fired,
        final(beginning).dx == 0 && final(beginning).dy == 0,
        final(ripening).ripe,
        final(ripening).holding == old(ripening).holding,
        final(ripening).fired == old(ripening).fired,
        final(ripening).dx == old(ripening).dx,
        final(ripening).dy == old(ripening).dy,
        click == !old(ending).fired,
        !final(ending).holding,
{
}

// ── Bindings ────────────────────────────────────────────────────────────────

/// A binding is read back under its button, and setting it changes no other.
pub proof fn bindings_are_read_back<V>(
    map: &mut ButtonMap<V>,
    button: ButtonId,
    value: V,
    after: ButtonMap<V>,
    asked: ButtonId,
    found: Option<&V>,
    before: Option<&V>,
)
    requires
        call_ensures(ButtonMap::<V>::insert, (map, button, value), ()),
        after == *final(map),
        call_ensures(ButtonMap::<V>::get, (&after, &asked), found),
        call_ensures(ButtonMap::<V>::get, (&*old(map), &asked), before),
    ensures
        asked == button ==> found == Some(&value),
        asked != button ==> found == before,
{
}

/// The action of a swipe is read back under its direction, and setting it changes no other.
pub proof fn gestures_are_read_back<V>(
    map: &mut DirectionMap<V>,
    direction: GestureDirection,
    value: V,
    after: DirectionMap<V>,
    asked: GestureDirection,
    found: Option<&V>,
    before: Option<&V>,
)
    requires
        call_ensures(DirectionMap::<V>::insert, (map, direction, value), ()),
        after == *final(map),
        call_ensures(DirectionMap::<V>::get, (&after, &asked), found),
        call_ensures(DirectionMap::<V>::get, (&*old(map), &asked), before),
    ensures
        asked == direction ==> found == Some(&value),
        asked != direction ==> found == before,
{
}

/// A fresh device clicks as its buttons say, browses with the side buttons, and keeps the
/// button behind the wheel for the pointer resolution.
pub proof fn fresh_devices_do_what_is_expected(button: ButtonId, action: Action)
    requires
        call_ensures(default_binding, (button,), action),
    ensures
        action == Action::LeftClick <==> button == ButtonId::LeftClick,
        action == Action::RightClick <==> button == ButtonId::RightClick,
        action == Action::MiddleClick <==> button == ButtonId::MiddleClick,
        action == Action::BrowserBack <==> button == ButtonId::Back,
        action == Action::BrowserForward <==> button == ButtonId::Forward,
        button == ButtonId::DpiToggle <==> (action matches Action::CustomShortcut(name) && name@
            == "Toggle DPI"@),
{
}

/// The popover offers every action but a shortcut that the user named, each once.
pub proof fn every_action_is_offered(catalog: Vec<Action>, action: Action)
    requires
        call_ensures(Action::catalog, (), catalog),
        !(action is CustomShortcut),
    ensures
        catalog@.contains(action),
        catalog@.no_duplicates(),
        forall|i: int| 0 <= i < catalog@.len() ==> !(#[trigger] catalog@[i] is CustomShortcut),
{
    assert(catalog@[0] == Action::LeftClick);
    assert(catalog@[1] == Action::RightClick);
    assert(catalog@[2] == Action::MiddleClick);
    assert(catalog@[3] == Action::Copy);
    assert(catalog@[4] == Action::Paste);
    assert(catalog@[5] == Action::Screenshot);
    assert(catalog@[6] == Action::BrowserBack);
    assert(catalog@[7] == Action::BrowserForward);
}

/// Every button goes by the name that is printed in the manual.
pub proof fn buttons_go_by_their_names(button: ButtonId, label: &'static str)
    requires
        call_ensures(ButtonId::label, (button,), label),
    ensures
        button == ButtonId::LeftClick ==> label@ == "Left Click"@,
        button == ButtonId::RightClick ==> label@ == "Right Click"@,
        button == ButtonId::MiddleClick ==> label@ == "Middle Click"@,
        button == ButtonId::Back ==> label@ == "Back"@,
        button == ButtonId::Forward ==> label@ == "Forward"@,
        button == ButtonId::DpiToggle ==> label@ == "DPI Toggle"@,
{
}

/// Every action goes by its own name, a shortcut by the one that the user gave it.
pub proof fn actions_go_by_their_names(action: Action, label: &str)
    requires
        call_ensures(Action::label, (&action,), label),
    ensures
        action == Action::LeftClick ==> label@ == "Left Click"@,
        action == Action::RightClick ==> label@ == "Right Click"@,
        action == Action::MiddleClick ==> label@ == "Middle Click"@,
        action == Action::Copy ==> label@ == "Copy"@,
        action == Action::Paste ==> label@ == "Paste"@,
        action == Action::Screenshot ==> label@ == "Screenshot"@,
        action == Action::BrowserBack ==> label@ == "Browser Back"@,
        action == Action::BrowserForward ==> label@ == "Browser Forward"@,
        action matches Action::CustomShortcut(name) ==> label@ == name@,
{
}

// ── Actions ─────────────────────────────────────────────────────────────────

/// An action of the system is handed to the system as it is, and one of the hardware to the
/// active device; neither moves the preset.
pub proof fn actions_reach_their_target(
    action: BoundAction,
    presets: &mut DpiCycleState,
    effect: Effect,
)
    requires
        call_ensures(dispatch_action, (&action, presets), effect),
        action is Os || action is ToggleSmartShift,
    ensures
        action matches BoundAction::Os(a) ==> effect == Effect::Execute(a),
        action is ToggleSmartShift ==> effect == (Effect::ToggleSmartShift {
            target: old(presets).target,
        }),
        *final(presets) == *old(presets),
{
}

/// The cycle button goes to the following preset and from the last to the first, and writes
/// the preset that it arrives at to the active device.
pub proof fn presets_follow_each_other(presets: &mut DpiCycleState, effect: Effect)
    requires
        call_ensures(dispatch_action, (&BoundAction::CycleDpiPresets, presets), effect),
        old(presets).index < old(presets).presets@.len(),
    ensures
        final(presets).index == (old(presets).index + 1) % (old(presets).presets@.len() as int),
        effect == (Effect::WriteDpi {
            dpi: old(presets).presets@[final(presets).index as int],
            target: old(presets).target,
        }),
        final(presets).presets == old(presets).presets,
        final(presets).target == old(presets).target,
{
    let n = old(presets).presets@.len() as int;
    let i = old(presets).index as int;
    if i + 1 == n {
        assert((i + 1) % n == 0) by (nonlinear_arith)
            requires
                i + 1 == n,
                n > 0,
        ;
    } else {
        assert((i + 1) % n == i + 1) by (nonlinear_arith)
            requires
                0 <= i + 1 < n,
        ;
    }
}

/// A preset button writes its own preset and makes it the one in force; where there is no
/// such preset, or none at all, nothing is done.
pub proof fn preset_buttons_write_their_preset(
    position: u8,
    presets: &mut DpiCycleState,
    effect: Effect,
    cycling: &mut DpiCycleState,
    cycled: Effect,
)
    requires
        call_ensures(dispatch_action, (&BoundAction::SetDpiPreset(position), presets), effect),
        call_ensures(dispatch_action, (&BoundAction::CycleDpiPresets, cycling), cycled),
    ensures
        position < old(presets).presets@.len() ==> effect == (Effect::WriteDpi {
            dpi: old(presets).presets@[position as int],
            target: old(presets).target,
        }) && final(presets).index == position,
        position >= old(presets).presets@.len() ==> effect == Effect::Ignored && *final(presets)
            == *old(presets),
        old(cycling).presets@.len() == 0 ==> cycled == Effect::Ignored && *final(cycling)
            == *old(cycling),
{
}

// ── Installing the hook ─────────────────────────────────────────────────────

/// Only macOS asks for a permission before the hook may see events.
pub proof fn only_macos_asks(hook: Hook, granted: bool, yes: bool)
    requires
        call_ensures(Hook::has_accessibility, (&hook, granted), yes),
    ensures
        yes <==> granted || hook.platform == Platform::Linux || hook.platform == Platform::Other,
{
}

/// A failed attempt to install the hook is reported for what it was, in the terms of the
/// platform.
pub proof fn failed_attempts_are_reported(hook: Hook, attempt: Attempt, out: Result<(), HookError>)
    requires
        call_ensures(Hook::start, (&hook, attempt), out),
    ensures
        out is Ok <==> hook.platform != Platform::Other && attempt is Installed,
        hook.platform == Platform::Other ==> out == Err::<(), HookError>(HookError::Unsupported),
        hook.platform != Platform::Other && attempt is Denied ==> out == Err::<(), HookError>(
            HookError::AccessibilityDenied,
        ),
        hook.platform != Platform::Other && attempt is NoDevice ==> out == Err::<(), HookError>(
            HookError::NoDeviceFound,
        ),
        hook.platform == Platform::MacOs ==> (attempt matches Attempt::Failed(reason) ==> out
            == Err::<(), HookError>(HookError::MacOsTap(reason))),
        hook.platform == Platform::Linux ==> (attempt matches Attempt::Failed(reason) ==> out
            == Err::<(), HookError>(HookError::Linux(reason))),
{
}

/// Why the hook is missing can be read.
pub proof fn hook_failures_can_be_read(e: HookError, text: String)
    requires
        call_ensures(HookError::message, (&e,), text),
    ensures
        e is Unsupported ==> text@ == "mouse hook is not supported on this platform"@,
        e is AccessibilityDenied ==> text@ == "accessibility permission is not granted"@,
        e matches HookError::MacOsTap(why) ==> text@ == "could not install the event tap: "@
            + why@,
        e is NoDeviceFound ==> text@ == "no mouse device was found"@,
        e matches HookError::Linux(why) ==> text@ == "input device error: "@ + why@,
{
}

/// The hook is installed with access to input events only, and events are captured exactly
/// when it could be installed.
pub proof fn events_are_captured_with_access(
    access: bool,
    installed: Result<(), HookError>,
    step: HookStep,
    running: bool,
)
    requires
        call_ensures(start_step, (access,), step),
        call_ensures(start, (access, &installed), running),
    ensures
        step == HookStep::Install <==> access,
        running <==> step == HookStep::Install && installed is Ok,
{
}

/// Every button is listed once, in the order of the physical layout.
pub proof fn every_button_is_listed_once(i: int, j: int)
    requires
        0 <= i < j < 6,
    ensures
        ButtonId::ALL@.len() == 6,
        ButtonId::ALL@[i] != ButtonId::ALL@[j],
        ButtonId::ALL@[0] == ButtonId::LeftClick,
        ButtonId::ALL@[5] == ButtonId::DpiToggle,
        ButtonId::ALL@[3] == ButtonId::Back,
{
}

/// A map of bindings starts empty, counts what was put into it, and is empty again after it
/// was cleared.
pub proof fn maps_count_their_bindings<V>(
    fresh: ButtonMap<V>,
    map: &mut ButtonMap<V>,
    asked: ButtonId,
    bound: bool,
    nothing: bool,
    n: usize,
    count: usize,
)
    requires
        call_ensures(ButtonMap::<V>::new, (), fresh),
        call_ensures(ButtonMap::<V>::is_empty, (&fresh,), nothing),
        call_ensures(ButtonMap::<V>::len, (&fresh,), n),
        call_ensures(ButtonMap::<V>::clear, (map,), ()),
        call_ensures(ButtonMap::<V>::contains_key, (&*final(map), &asked), bound),
        call_ensures(ButtonMap::<V>::len, (&*final(map),), count),
    ensures
        nothing,
        n == 0,
        !bound,
        count == 0,
{
}

/// A map with a value for a button has that button and is not empty.
pub proof fn maps_have_what_was_bound<V>(
    map: &mut ButtonMap<V>,
    button: ButtonId,
    value: V,
    before: bool,
    bound: bool,
    empty: bool,
    n: usize,
    m: usize,
)
    requires
        call_ensures(ButtonMap::<V>::contains_key, (&*old(map), &button), before),
        call_ensures(ButtonMap::<V>::len, (&*old(map),), n),
        call_ensures(ButtonMap::<V>::insert, (map, button, value), ()),
        call_ensures(ButtonMap::<V>::contains_key, (&*final(map), &button), bound),
        call_ensures(ButtonMap::<V>::is_empty, (&*final(map),), empty),
        call_ensures(ButtonMap::<V>::len, (&*final(map),), m),
    ensures
        bound,
        !empty,
        m == if before {
            n as int
        } else {
            n + 1
        },
{
    let none = Map::<ButtonId, V>::empty();
    assert(final(map)@.contains_key(button));
    assert(!none.contains_key(button));
    assert(final(map)@.dom() =~= old(map)@.dom().insert(button));
}

/// Beginning a hold holds the button, without travel and without a swipe.
pub proof fn holds_hold_their_button(hold: &mut HoldState, id: ButtonId)
    requires
        call_ensures(HoldState::begin, (hold, id), ()),
    ensures
        final(hold).button == Some(id),
        final(hold).swipe.holding && !final(hold).swipe.ripe && !final(hold).swipe.fired,
        final(hold).swipe.dx == 0 && final(hold).swipe.dy == 0,
{
}

/// A button's own click is left to the system: the left, the right and the middle one, each
/// on its own button only.
pub proof fn own_clicks_are_native(id: ButtonId, action: BoundAction, yes: bool)
    requires
        call_ensures(crate::hook_runtime::is_native_click, (id, &action), yes),
    ensures
        yes <==> id == ButtonId::LeftClick && action == BoundAction::Os(Action::LeftClick) || id
            == ButtonId::RightClick && action == BoundAction::Os(Action::RightClick) || id
            == ButtonId::MiddleClick && action == BoundAction::Os(Action::MiddleClick),
{
}

/// Cycling goes to the following preset, round after the last, and picking one goes to it;
/// both hand out the preset that is then in force, for the active device.
pub proof fn presets_are_handed_out(
    cycling: &mut DpiCycleState,
    next: Option<(u32, Option<crate::device_order::DeviceRoute>)>,
    picking: &mut DpiCycleState,
    position: usize,
    picked: Option<(u32, Option<crate::device_order::DeviceRoute>)>,
)
    requires
        call_ensures(DpiCycleState::cycle, (cycling,), next),
        call_ensures(DpiCycleState::set, (picking, position), picked),
    ensures
        next is None <==> old(cycling).presets@.len() == 0,
        old(cycling).index + 1 < old(cycling).presets@.len() ==> final(cycling).index == old(cycling).index + 1,
        next matches Some(out) ==> final(cycling).index < old(cycling).presets@.len() && out.0
            == old(cycling).presets@[final(cycling).index as int] && out.1 == old(cycling).target,
        next is Some && old(cycling).index + 1 >= old(cycling).presets@.len() ==> final(cycling).index == 0,
        picked is Some <==> position < old(picking).presets@.len(),
        picked matches Some(out) ==> final(picking).index == position && out.0 == old(picking).presets@[position as int] && out.1 == old(picking).target,
        picked is None ==> *final(picking) == *old(picking),
{
}

/// Before any press nothing is held.
pub proof fn nothing_is_held_at_first(hold: HoldState, travel: SwipeAccumulator)
    requires
        call_ensures(HoldState::default, (), hold),
        call_ensures(SwipeAccumulator::default, (), travel),
    ensures
        hold.button is None,
        hold.swipe == travel,
        !travel.holding && !travel.ripe && !travel.fired && travel.dx == 0 && travel.dy == 0,
{
}

} // verus!
