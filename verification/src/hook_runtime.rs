//! The bridge between input events and bound actions.
//!
//! The hook and the gesture watcher run outside any view. For every event this
//! module says what becomes of it and which action it triggers, and for every
//! action what has to be done.

use vstd::prelude::*;

use crate::binding::{
    idle_swipe, Action, ButtonId, ButtonMap, DirectionMap, GestureDirection, SwipeAccumulator,
};
use crate::device_order::{clone_route, DeviceRoute};
use crate::hook::{EventDisposition, HookError, MouseEvent};

verus! {

/// An action bound to a button or a gesture: one that the system performs, or one
/// of the hardware.
#[derive(Debug, PartialEq, Eq)]
pub enum BoundAction {
    /// An action of the system.
    Os(Action),
    /// Go to the next pointer resolution preset.
    CycleDpiPresets,
    /// Go to a pointer resolution preset by its position.
    SetDpiPreset(u8),
    /// Flip the wheel between ratchet and free spin.
    ToggleSmartShift,
}

impl Clone for BoundAction {
    fn clone(&self) -> (out: Self)
        ensures
            out == *self,
    {
        match self {
            BoundAction::Os(a) => BoundAction::Os(a.clone()),
            BoundAction::CycleDpiPresets => BoundAction::CycleDpiPresets,
            BoundAction::SetDpiPreset(i) => BoundAction::SetDpiPreset(*i),
            BoundAction::ToggleSmartShift => BoundAction::ToggleSmartShift,
        }
    }
}

// ── Holds ───────────────────────────────────────────────────────────────────

/// Which button is held, and its swipe.
///
/// A swipe is committed in motion; a press that never commits one is a plain
/// click, fired on release.
#[derive(Debug, Clone, Copy, PartialEq, Eq, Structural)]
pub struct HoldState {
    /// The held button.
    pub button: Option<ButtonId>,
    /// Its swipe.
    pub swipe: SwipeAccumulator,
}

impl Default for HoldState {
    fn default() -> (out: Self)
        ensures
            out == (HoldState { button: None, swipe: idle_swipe() }),
    {
        HoldState { button: None, swipe: SwipeAccumulator::default() }
    }
}

impl HoldState {
    /// The state after a hold of `button` began.
    pub open spec fn begun(self, button: ButtonId) -> HoldState {
        HoldState {
            button: Some(button),
            swipe: SwipeAccumulator { holding: true, ..idle_swipe() },
        }
    }

    /// The state after the hold ended.
    pub open spec fn ended(self) -> HoldState {
        HoldState {
            button: None,
            swipe: SwipeAccumulator { holding: false, ..self.swipe },
        }
    }

    /// The state after the pointer moved.
    pub open spec fn moved(self, dx: i32, dy: i32) -> HoldState {
        if self.button is Some {
            HoldState { swipe: self.swipe.moved(dx, dy), ..self }
        } else {
            self
        }
    }

    /// The swipe that a pointer movement commits, with the held button.
    pub open spec fn committed(self, dx: i32, dy: i32) -> Option<(ButtonId, GestureDirection)> {
        match (self.button, self.swipe.committed(dx, dy)) {
            (Some(button), Some(direction)) => Some((button, direction)),
            _ => None,
        }
    }

    /// Begin a hold of `button`.
    pub fn begin(&mut self, button: ButtonId)
        ensures
            *final(self) == old(self).begun(button),
    {
        self.button = Some(button);
        self.swipe.begin();
    }

    /// Feed a pointer movement into the hold. Returns the held button and the
    /// direction exactly once per hold.
    pub fn accumulate(&mut self, dx: i32, dy: i32) -> (out: Option<(ButtonId, GestureDirection)>)
        ensures
            *final(self) == old(self).moved(dx, dy),
            out == old(self).committed(dx, dy),
    {
        match self.button {
            Some(button) => match self.swipe.accumulate(dx, dy) {
                Some(direction) => Some((button, direction)),
                None => None,
            },
            None => None,
        }
    }

    /// End the hold of `button`: whether it was a plain click, or `None` for a
    /// stray release of a button that is not held.
    pub fn end(&mut self, button: ButtonId) -> (click: Option<bool>)
        ensures
            if old(self).button == Some(button) {
                *final(self) == old(self).ended() && click == Some(!old(self).swipe.fired)
            } else {
                *final(self) == *old(self) && click is None
            },
    {
        if self.button == Some(button) {
            self.button = None;
            Some(self.swipe.end())
        } else {
            None
        }
    }
}

// ── Events ──────────────────────────────────────────────────────────────────

/// The actions of gesture buttons, per direction.
pub type HookGestures = ButtonMap<DirectionMap<BoundAction>>;

/// The actions of plain buttons.
pub type BindingMap = ButtonMap<BoundAction>;

/// The action is the button's own click.
pub open spec fn is_own_click(id: ButtonId, action: BoundAction) -> bool {
    match (id, action) {
        (ButtonId::LeftClick, BoundAction::Os(Action::LeftClick)) => true,
        (ButtonId::RightClick, BoundAction::Os(Action::RightClick)) => true,
        (ButtonId::MiddleClick, BoundAction::Os(Action::MiddleClick)) => true,
        _ => false,
    }
}

/// Whether `action` is just `id`'s own click. The event then goes to the system
/// rather than being swallowed and made anew.
pub fn is_native_click(id: ButtonId, action: &BoundAction) -> (yes: bool)
    ensures
        yes == is_own_click(id, *action),
{
    match (id, action) {
        (ButtonId::LeftClick, BoundAction::Os(Action::LeftClick)) => true,
        (ButtonId::RightClick, BoundAction::Os(Action::RightClick)) => true,
        (ButtonId::MiddleClick, BoundAction::Os(Action::MiddleClick)) => true,
        _ => false,
    }
}

/// The hook may remap the button. The primary buttons always pass, since
/// swallowing them would make the mouse useless.
pub open spec fn remappable(id: ButtonId) -> bool {
    id == ButtonId::MiddleClick || id == ButtonId::Back || id == ButtonId::Forward
}

/// What an event leads to.
pub struct Reaction {
    /// What becomes of the event.
    pub disposition: EventDisposition,
    /// The action that it triggers.
    pub action: Option<BoundAction>,
    /// The hold afterwards.
    pub hold: HoldState,
}

/// The action of a gesture.
pub open spec fn gesture_action(
    gestures: HookGestures,
    id: ButtonId,
    direction: GestureDirection,
) -> Option<BoundAction> {
    match gestures.at(id) {
        Some(map) => map.at(direction),
        None => None,
    }
}

/// What a button event leads to when no gesture is concerned: an unbound button
/// and one bound to its own click go to the system; any other is swallowed, and
/// fires when it goes down.
pub open spec fn plain_reaction(
    id: ButtonId,
    pressed: bool,
    hold: HoldState,
    bindings: BindingMap,
) -> Reaction {
    match bindings.at(id) {
        Some(action) if !is_own_click(id, action) => Reaction {
            disposition: EventDisposition::Suppress,
            action: if pressed {
                Some(action)
            } else {
                None
            },
            hold,
        },
        _ => Reaction { disposition: EventDisposition::PassThrough, action: None, hold },
    }
}

/// What a button event leads to.
pub open spec fn button_reaction(
    id: ButtonId,
    pressed: bool,
    hold: HoldState,
    bindings: BindingMap,
    gestures: HookGestures,
) -> Reaction {
    if !remappable(id) {
        Reaction { disposition: EventDisposition::PassThrough, action: None, hold }
    } else if pressed && gestures.at(id) is Some {
        Reaction { disposition: EventDisposition::Suppress, action: None, hold: hold.begun(id) }
    } else if !pressed && hold.button == Some(id) {
        Reaction {
            disposition: EventDisposition::Suppress,
            action: if hold.swipe.fired {
                None
            } else {
                gesture_action(gestures, id, GestureDirection::Click)
            },
            hold: hold.ended(),
        }
    } else {
        plain_reaction(id, pressed, hold, bindings)
    }
}

/// What an event leads to. Pointer movements and scrolling always go on to the
/// system: a swipe is read, not consumed.
pub open spec fn reaction<T>(
    event: MouseEvent<T>,
    hold: HoldState,
    bindings: BindingMap,
    gestures: HookGestures,
) -> Reaction {
    match event {
        MouseEvent::Button { id, pressed } => button_reaction(
            id,
            pressed,
            hold,
            bindings,
            gestures,
        ),
        MouseEvent::Moved { delta_x, delta_y } => Reaction {
            disposition: EventDisposition::PassThrough,
            action: match hold.committed(delta_x, delta_y) {
                Some(swipe) => gesture_action(gestures, swipe.0, swipe.1),
                None => None,
            },
            hold: hold.moved(delta_x, delta_y),
        },
        MouseEvent::Scroll { .. } => Reaction {
            disposition: EventDisposition::PassThrough,
            action: None,
            hold,
        },
    }
}

fn gesture_for(gestures: &HookGestures, id: ButtonId, direction: GestureDirection) -> (action: Option<
    BoundAction,
>)
    ensures
        action == gesture_action(*gestures, id, direction),
{
    match gestures.get(&id) {
        Some(map) => match map.get(&direction) {
            Some(action) => Some(action.clone()),
            None => None,
        },
        None => None,
    }
}

fn on_button(
    id: ButtonId,
    pressed: bool,
    hold: &mut HoldState,
    bindings: &BindingMap,
    gestures: &HookGestures,
) -> (out: (EventDisposition, Option<BoundAction>))
    ensures
        (Reaction { disposition: out.0, action: out.1, hold: *final(hold) }) == button_reaction(
            id,
            pressed,
            *old(hold),
            *bindings,
            *gestures,
        ),
{
    match id {
        ButtonId::MiddleClick | ButtonId::Back | ButtonId::Forward => {},
        _ => {
            return (EventDisposition::PassThrough, None);
        },
    }
    if pressed {
        if gestures.get(&id).is_some() {
            hold.begin(id);
            return (EventDisposition::Suppress, None);
        }
    } else {
        match hold.end(id) {
            Some(was_click) => {
                if was_click {
                    return (
                        EventDisposition::Suppress,
                        gesture_for(gestures, id, GestureDirection::Click),
                    );
                }
                return (EventDisposition::Suppress, None);
            },
            None => {},
        }
    }
    match bindings.get(&id) {
        Some(action) => {
            if is_native_click(id, action) {
                (EventDisposition::PassThrough, None)
            } else if pressed {
                (EventDisposition::Suppress, Some(action.clone()))
            } else {
                (EventDisposition::Suppress, None)
            }
        },
        None => (EventDisposition::PassThrough, None),
    }
}

/// What becomes of an event, and the action that it triggers.
pub fn on_event<T>(
    event: &MouseEvent<T>,
    hold: &mut HoldState,
    bindings: &BindingMap,
    gestures: &HookGestures,
) -> (out: (EventDisposition, Option<BoundAction>))
    ensures
        (Reaction { disposition: out.0, action: out.1, hold: *final(hold) }) == reaction(
            *event,
            *old(hold),
            *bindings,
            *gestures,
        ),
{
    match event {
        MouseEvent::Button { id, pressed } => on_button(*id, *pressed, hold, bindings, gestures),
        MouseEvent::Moved { delta_x, delta_y } => {
            let action: Option<BoundAction> = match hold.accumulate(*delta_x, *delta_y) {
                Some((button, direction)) => gesture_for(gestures, button, direction),
                None => None,
            };
            (EventDisposition::PassThrough, action)
        },
        MouseEvent::Scroll { .. } => (EventDisposition::PassThrough, None),
    }
}

/// What starting the hook has to do first.
#[derive(Debug, Clone, Copy, PartialEq, Eq, Structural)]
pub enum HookStep {
    /// Install the hook, once.
    Install,
    /// Nothing: without access to input events no hook is installed.
    Stop,
}

/// What starting the hook has to do: it is installed only with access to input
/// events.
pub fn start_step(has_accessibility: bool) -> (step: HookStep)
    ensures
        step == if has_accessibility {
            HookStep::Install
        } else {
            HookStep::Stop
        },
{
    if has_accessibility {
        HookStep::Install
    } else {
        HookStep::Stop
    }
}

/// Whether events are captured: not without access to input events, and not when
/// the hook could not be installed. The application goes on either way.
pub fn start(has_accessibility: bool, installed: &Result<(), HookError>) -> (running: bool)
    ensures
        running == (has_accessibility && *installed is Ok),
{
    if !has_accessibility {
        return false;
    }
    match installed {
        Ok(_) => true,
        Err(_) => false,
    }
}

/// The primary buttons, the pointer and the wheel always reach the system, and
/// pressing a primary button triggers nothing.
pub proof fn the_mouse_stays_usable<T>(
    event: MouseEvent<T>,
    hold: HoldState,
    bindings: BindingMap,
    gestures: HookGestures,
)
    requires
        event matches MouseEvent::Button { id, .. } ==> !remappable(id),
    ensures
        reaction(event, hold, bindings, gestures).disposition == EventDisposition::PassThrough,
        event is Button ==> reaction(event, hold, bindings, gestures).action is None,
        event is Button ==> reaction(event, hold, bindings, gestures).hold == hold,
{
}

/// The system sees both halves of a click or neither: whatever bindings and
/// gestures become of the press, the release that ends a gesture hold is swallowed
/// as its press was, and without gestures press and release fare alike.
pub proof fn clicks_are_not_torn(
    id: ButtonId,
    hold: HoldState,
    bindings: BindingMap,
    gestures: HookGestures,
    later_bindings: BindingMap,
    later_gestures: HookGestures,
)
    ensures
        remappable(id) && gestures.at(id) is Some ==> {
            let press = button_reaction(id, true, hold, bindings, gestures);
            let release = button_reaction(id, false, press.hold, later_bindings, later_gestures);
            press.disposition == EventDisposition::Suppress && release.disposition
                == EventDisposition::Suppress
        },
        gestures.at(id) is None && hold.button != Some(id) ==> {
            let press = button_reaction(id, true, hold, bindings, gestures);
            let release = button_reaction(id, false, press.hold, bindings, gestures);
            press.disposition == release.disposition && release.action is None
        },
{
}

/// A hold fires once: after a committed swipe neither further movement nor the
/// release triggers anything.
pub proof fn holds_fire_once(
    id: ButtonId,
    hold: HoldState,
    dx: i32,
    dy: i32,
    ex: i32,
    ey: i32,
    bindings: BindingMap,
    gestures: HookGestures,
)
    requires
        remappable(id),
        hold.button == Some(id),
        hold.committed(dx, dy) is Some,
    ensures
        hold.moved(dx, dy).committed(ex, ey) is None,
        button_reaction(id, false, hold.moved(dx, dy), bindings, gestures).action is None,
        button_reaction(id, false, hold.moved(dx, dy).moved(ex, ey), bindings, gestures).action
            is None,
{
}

// ── Actions ─────────────────────────────────────────────────────────────────

/// The pointer resolution presets of the active device.
#[derive(Debug)]
pub struct DpiCycleState {
    /// The presets.
    pub presets: Vec<u32>,
    /// The preset in force.
    pub index: usize,
    /// The active device.
    pub target: Option<DeviceRoute>,
}

/// The position after `index` in a round of `len`.
pub open spec fn next_position(index: int, len: int) -> int {
    if index + 1 < len {
        index + 1
    } else {
        0
    }
}

impl DpiCycleState {
    /// Only the position differs.
    pub open spec fn same_but_index(self, other: DpiCycleState) -> bool {
        self.presets == other.presets && self.target == other.target
    }

    /// Go to the next preset, round after the last. Without presets there is none.
    pub fn cycle(&mut self) -> (out: Option<(u32, Option<DeviceRoute>)>)
        ensures
            final(self).same_but_index(*old(self)),
            if old(self).presets@.len() == 0 {
                out is None && final(self).index == old(self).index
            } else {
                &&& final(self).index == next_position(
                    old(self).index as int,
                    old(self).presets@.len() as int,
                )
                &&& out == Some(
                    (old(self).presets@[final(self).index as int], old(self).target),
                )
            },
    {
        let n: usize = self.presets.len();
        if n == 0 {
            return None;
        }
        self.index = if self.index < n - 1 {
            self.index + 1
        } else {
            0
        };
        Some((self.presets[self.index], clone_route(&self.target)))
    }

    /// Go to the preset at `position`, if there is one.
    pub fn set(&mut self, position: usize) -> (out: Option<(u32, Option<DeviceRoute>)>)
        ensures
            final(self).same_but_index(*old(self)),
            if position < old(self).presets@.len() {
                &&& final(self).index == position
                &&& out == Some((old(self).presets@[position as int], old(self).target))
            } else {
                out is None && final(self).index == old(self).index
            },
    {
        if position < self.presets.len() {
            self.index = position;
            Some((self.presets[position], clone_route(&self.target)))
        } else {
            None
        }
    }
}

/// What has to be done for an action.
#[derive(Debug)]
pub enum Effect {
    /// Perform an action of the system.
    Execute(Action),
    /// Write a pointer resolution to a device.
    WriteDpi {
        /// The resolution.
        dpi: u32,
        /// The device.
        target: Option<DeviceRoute>,
    },
    /// Flip the wheel of a device.
    ToggleSmartShift {
        /// The device.
        target: Option<DeviceRoute>,
    },
    /// Nothing: the active device has no such preset.
    Ignored,
}

/// Route a bound action to the system or to the hardware.
pub fn dispatch_action(action: &BoundAction, dpi_cycle: &mut DpiCycleState) -> (effect: Effect)
    ensures
        final(dpi_cycle).same_but_index(*old(dpi_cycle)),
        match *action {
            BoundAction::Os(a) => effect == Effect::Execute(a) && final(dpi_cycle).index == old(
                dpi_cycle,
            ).index,
            BoundAction::ToggleSmartShift => effect == (Effect::ToggleSmartShift {
                target: old(dpi_cycle).target,
            }) && final(dpi_cycle).index == old(dpi_cycle).index,
            BoundAction::CycleDpiPresets => if old(dpi_cycle).presets@.len() == 0 {
                effect == Effect::Ignored && final(dpi_cycle).index == old(dpi_cycle).index
            } else {
                final(dpi_cycle).index == next_position(
                    old(dpi_cycle).index as int,
                    old(dpi_cycle).presets@.len() as int,
                ) && effect == (Effect::WriteDpi {
                    dpi: old(dpi_cycle).presets@[final(dpi_cycle).index as int],
                    target: old(dpi_cycle).target,
                })
            },
            BoundAction::SetDpiPreset(i) => if i < old(dpi_cycle).presets@.len() {
                final(dpi_cycle).index == i && effect == (Effect::WriteDpi {
                    dpi: old(dpi_cycle).presets@[i as int],
                    target: old(dpi_cycle).target,
                })
            } else {
                effect == Effect::Ignored && final(dpi_cycle).index == old(dpi_cycle).index
            },
        },
{
    match action {
        BoundAction::Os(a) => Effect::Execute(a.clone()),
        BoundAction::ToggleSmartShift => Effect::ToggleSmartShift {
            target: clone_route(&dpi_cycle.target),
        },
        BoundAction::CycleDpiPresets => match dpi_cycle.cycle() {
            Some((dpi, target)) => Effect::WriteDpi { dpi, target },
            None => Effect::Ignored,
        },
        BoundAction::SetDpiPreset(i) => match dpi_cycle.set(*i as usize) {
            Some((dpi, target)) => Effect::WriteDpi { dpi, target },
            None => Effect::Ignored,
        },
    }
}

/// The position after `steps` presses of the cycle button, from the first preset.
pub open spec fn cycled(len: int, steps: nat) -> int
    decreases steps,
{
    if steps == 0 {
        0
    } else {
        next_position(cycled(len, (steps - 1) as nat), len)
    }
}

/// Cycling through all presets comes back to where it began.
pub proof fn cycling_goes_round(len: int)
    requires
        len > 0,
    ensures
        cycled(len, len as nat) == 0,
{
    lemma_cycled(len, (len - 1) as nat);
}

proof fn lemma_cycled(len: int, steps: nat)
    requires
        steps < len,
    ensures
        cycled(len, steps) == steps,
    decreases steps,
{
    if steps > 0 {
        lemma_cycled(len, (steps - 1) as nat);
    }
}

} // verus!
