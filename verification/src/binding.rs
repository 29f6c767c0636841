//! Logical mouse buttons, the actions that can be bound to them, and swipe
//! gestures on a held button.

use vstd::prelude::*;
use vstd::string::*;

verus! {

/// One of the rebindable buttons of a mouse, in the order of the physical layout
/// from front to side.
#[derive(Clone, Copy, Debug, PartialEq, Eq, Hash, PartialOrd, Ord, Structural)]
pub enum ButtonId {
    /// The primary button.
    LeftClick,
    /// The secondary button.
    RightClick,
    /// The wheel button.
    MiddleClick,
    /// The rear side button.
    Back,
    /// The front side button.
    Forward,
    /// The button behind the wheel.
    DpiToggle,
}

impl ButtonId {
    /// Every button, in order.
    pub const ALL: [ButtonId; 6] = [
        ButtonId::LeftClick,
        ButtonId::RightClick,
        ButtonId::MiddleClick,
        ButtonId::Back,
        ButtonId::Forward,
        ButtonId::DpiToggle,
    ];

    /// The label as characters.
    pub open spec fn label_text(self) -> Seq<char> {
        match self {
            ButtonId::LeftClick => "Left Click"@,
            ButtonId::RightClick => "Right Click"@,
            ButtonId::MiddleClick => "Middle Click"@,
            ButtonId::Back => "Back"@,
            ButtonId::Forward => "Forward"@,
            ButtonId::DpiToggle => "DPI Toggle"@,
        }
    }

    /// Human-readable label for popovers and tooltips.
    #[must_use]
    pub fn label(self) -> (label: &'static str)
        ensures
            label@ == self.label_text(),
    {
        match self {
            ButtonId::LeftClick => "Left Click",
            ButtonId::RightClick => "Right Click",
            ButtonId::MiddleClick => "Middle Click",
            ButtonId::Back => "Back",
            ButtonId::Forward => "Forward",
            ButtonId::DpiToggle => "DPI Toggle",
        }
    }
}

/// What pressing a [`ButtonId`] does.
#[derive(Debug, PartialEq, Eq, Hash)]
pub enum Action {
    /// A primary click.
    LeftClick,
    /// A secondary click.
    RightClick,
    /// A middle click.
    MiddleClick,
    /// Copy the selection.
    Copy,
    /// Paste the clipboard.
    Paste,
    /// Take a screenshot.
    Screenshot,
    /// Go back in the browser.
    BrowserBack,
    /// Go forward in the browser.
    BrowserForward,
    /// A shortcut that the user named.
    CustomShortcut(String),
}

impl Clone for Action {
    fn clone(&self) -> (out: Self)
        ensures
            out == *self,
    {
        match self {
            Action::LeftClick => Action::LeftClick,
            Action::RightClick => Action::RightClick,
            Action::MiddleClick => Action::MiddleClick,
            Action::Copy => Action::Copy,
            Action::Paste => Action::Paste,
            Action::Screenshot => Action::Screenshot,
            Action::BrowserBack => Action::BrowserBack,
            Action::BrowserForward => Action::BrowserForward,
            Action::CustomShortcut(s) => Action::CustomShortcut(s.clone()),
        }
    }
}

impl Action {
    /// The label as characters.
    pub open spec fn label_text(self) -> Seq<char> {
        match self {
            Action::LeftClick => "Left Click"@,
            Action::RightClick => "Right Click"@,
            Action::MiddleClick => "Middle Click"@,
            Action::Copy => "Copy"@,
            Action::Paste => "Paste"@,
            Action::Screenshot => "Screenshot"@,
            Action::BrowserBack => "Browser Back"@,
            Action::BrowserForward => "Browser Forward"@,
            Action::CustomShortcut(s) => s@,
        }
    }

    /// Display label for the popover row.
    #[must_use]
    pub fn label(&self) -> (label: &str)
        ensures
            label@ == self.label_text(),
    {
        match self {
            Action::LeftClick => "Left Click",
            Action::RightClick => "Right Click",
            Action::MiddleClick => "Middle Click",
            Action::Copy => "Copy",
            Action::Paste => "Paste",
            Action::Screenshot => "Screenshot",
            Action::BrowserBack => "Browser Back",
            Action::BrowserForward => "Browser Forward",
            Action::CustomShortcut(s) => s.as_str(),
        }
    }

    /// The actions that the popover offers, in order.
    pub open spec fn offered() -> Seq<Action> {
        seq![
            Action::LeftClick,
            Action::RightClick,
            Action::MiddleClick,
            Action::Copy,
            Action::Paste,
            Action::Screenshot,
            Action::BrowserBack,
            Action::BrowserForward,
        ]
    }

    /// The picker list shown inside the action popover.
    #[must_use]
    pub fn catalog() -> (out: Vec<Action>)
        ensures
            out@ == Action::offered(),
    {
        let mut out: Vec<Action> = Vec::new();
        out.push(Action::LeftClick);
        out.push(Action::RightClick);
        out.push(Action::MiddleClick);
        out.push(Action::Copy);
        out.push(Action::Paste);
        out.push(Action::Screenshot);
        out.push(Action::BrowserBack);
        out.push(Action::BrowserForward);
        assert(out@ =~= Action::offered());
        out
    }
}

/// `action` is what `button` does on a fresh device.
pub open spec fn is_default_binding(button: ButtonId, action: Action) -> bool {
    match button {
        ButtonId::LeftClick => action == Action::LeftClick,
        ButtonId::RightClick => action == Action::RightClick,
        ButtonId::MiddleClick => action == Action::MiddleClick,
        ButtonId::Back => action == Action::BrowserBack,
        ButtonId::Forward => action == Action::BrowserForward,
        ButtonId::DpiToggle => action matches Action::CustomShortcut(s) && s@ == "Toggle DPI"@,
    }
}

/// Sensible defaults for a fresh device so the panel is not empty on first run.
#[must_use]
pub fn default_binding(button: ButtonId) -> (action: Action)
    ensures
        is_default_binding(button, action),
{
    match button {
        ButtonId::LeftClick => Action::LeftClick,
        ButtonId::RightClick => Action::RightClick,
        ButtonId::MiddleClick => Action::MiddleClick,
        ButtonId::Back => Action::BrowserBack,
        ButtonId::Forward => Action::BrowserForward,
        ButtonId::DpiToggle => Action::CustomShortcut("Toggle DPI".to_string()),
    }
}

/// A map from buttons to values.
#[derive(Debug, PartialEq, Eq)]
pub struct ButtonMap<V> {
    left_click: Option<V>,
    right_click: Option<V>,
    middle_click: Option<V>,
    back: Option<V>,
    forward: Option<V>,
    dpi_toggle: Option<V>,
}

/// Per-button actions.
pub type ButtonBindings = ButtonMap<Action>;

impl<V> View for ButtonMap<V> {
    type V = Map<ButtonId, V>;

    open spec fn view(&self) -> Map<ButtonId, V> {
        Map::new(|b: ButtonId| self.at(b) is Some, |b: ButtonId| self.at(b)->0)
    }
}

impl<V> ButtonMap<V> {
    /// What the map holds for `button`.
    pub closed spec fn at(&self, button: ButtonId) -> Option<V> {
        match button {
            ButtonId::LeftClick => self.left_click,
            ButtonId::RightClick => self.right_click,
            ButtonId::MiddleClick => self.middle_click,
            ButtonId::Back => self.back,
            ButtonId::Forward => self.forward,
            ButtonId::DpiToggle => self.dpi_toggle,
        }
    }

    /// The empty map.
    pub fn new() -> (out: Self)
        ensures
            out@ == Map::<ButtonId, V>::empty(),
            forall|b: ButtonId| #[trigger] out.at(b) is None,
    {
        let out = ButtonMap {
            left_click: None,
            right_click: None,
            middle_click: None,
            back: None,
            forward: None,
            dpi_toggle: None,
        };
        assert(out@ =~= Map::<ButtonId, V>::empty());
        out
    }

    /// The value of `button`.
    pub fn get(&self, button: &ButtonId) -> (value: Option<&V>)
        ensures
            match value {
                Some(v) => self@.contains_key(*button) && *v == self@[*button],
                None => !self@.contains_key(*button),
            },
            match value {
                Some(v) => self.at(*button) == Some(*v),
                None => self.at(*button) is None,
            },
    {
        let slot = match button {
            ButtonId::LeftClick => &self.left_click,
            ButtonId::RightClick => &self.right_click,
            ButtonId::MiddleClick => &self.middle_click,
            ButtonId::Back => &self.back,
            ButtonId::Forward => &self.forward,
            ButtonId::DpiToggle => &self.dpi_toggle,
        };
        match slot {
            Some(v) => Some(v),
            None => None,
        }
    }

    /// Whether the map holds a value for `button`.
    pub fn contains_key(&self, button: &ButtonId) -> (yes: bool)
        ensures
            yes == self@.contains_key(*button),
    {
        match self.get(button) {
            Some(_) => true,
            None => false,
        }
    }

    /// Set the value of `button`, leaving every other button as it was.
    pub fn insert(&mut self, button: ButtonId, value: V)
        ensures
            final(self)@ == old(self)@.insert(button, value),
            final(self).at(button) == Some(value),
            forall|b: ButtonId| b != button ==> #[trigger] final(self).at(b) == old(self).at(b),
    {
        match button {
            ButtonId::LeftClick => {
                self.left_click = Some(value);
            },
            ButtonId::RightClick => {
                self.right_click = Some(value);
            },
            ButtonId::MiddleClick => {
                self.middle_click = Some(value);
            },
            ButtonId::Back => {
                self.back = Some(value);
            },
            ButtonId::Forward => {
                self.forward = Some(value);
            },
            ButtonId::DpiToggle => {
                self.dpi_toggle = Some(value);
            },
        }
        assert(self@ =~= old(self)@.insert(button, value));
    }

    /// Drop every value.
    pub fn clear(&mut self)
        ensures
            final(self)@ == Map::<ButtonId, V>::empty(),
    {
        self.left_click = None;
        self.right_click = None;
        self.middle_click = None;
        self.back = None;
        self.forward = None;
        self.dpi_toggle = None;
        assert(self@ =~= Map::<ButtonId, V>::empty());
    }

    /// The number of buttons with a value.
    pub fn len(&self) -> (n: usize)
        ensures
            n == self@.len(),
            self@.dom().finite(),
    {
        let mut n: usize = 0;
        let ghost mut seen: Set<ButtonId> = Set::empty();
        if self.left_click.is_some() {
            n = n + 1;
            proof {
                seen = seen.insert(ButtonId::LeftClick);
            }
        }
        if self.right_click.is_some() {
            n = n + 1;
            proof {
                seen = seen.insert(ButtonId::RightClick);
            }
        }
        if self.middle_click.is_some() {
            n = n + 1;
            proof {
                seen = seen.insert(ButtonId::MiddleClick);
            }
        }
        if self.back.is_some() {
            n = n + 1;
            proof {
                seen = seen.insert(ButtonId::Back);
            }
        }
        if self.forward.is_some() {
            n = n + 1;
            proof {
                seen = seen.insert(ButtonId::Forward);
            }
        }
        if self.dpi_toggle.is_some() {
            n = n + 1;
            proof {
                seen = seen.insert(ButtonId::DpiToggle);
            }
        }
        proof {
            assert forall|b: ButtonId| seen.contains(b) == self@.dom().contains(b) by {
                match b {
                    ButtonId::LeftClick => {},
                    ButtonId::RightClick => {},
                    ButtonId::MiddleClick => {},
                    ButtonId::Back => {},
                    ButtonId::Forward => {},
                    ButtonId::DpiToggle => {},
                }
            }
            assert(seen =~= self@.dom());
        }
        n
    }

    /// Whether no button has a value.
    pub fn is_empty(&self) -> (yes: bool)
        ensures
            yes == (self@ == Map::<ButtonId, V>::empty()),
    {
        let yes: bool = self.left_click.is_none() && self.right_click.is_none()
            && self.middle_click.is_none() && self.back.is_none() && self.forward.is_none()
            && self.dpi_toggle.is_none();
        proof {
            if yes {
                assert(self@ =~= Map::<ButtonId, V>::empty());
            } else {
                let none = Map::<ButtonId, V>::empty();
                assert(self.at(ButtonId::LeftClick) is Some ==> self@.contains_key(ButtonId::LeftClick));
                assert(self.at(ButtonId::RightClick) is Some ==> self@.contains_key(ButtonId::RightClick));
                assert(self.at(ButtonId::MiddleClick) is Some ==> self@.contains_key(ButtonId::MiddleClick));
                assert(self.at(ButtonId::Back) is Some ==> self@.contains_key(ButtonId::Back));
                assert(self.at(ButtonId::Forward) is Some ==> self@.contains_key(ButtonId::Forward));
                assert(self.at(ButtonId::DpiToggle) is Some ==> self@.contains_key(ButtonId::DpiToggle));
                assert(!none.contains_key(ButtonId::LeftClick));
            }
        }
        yes
    }
}

fn clone_action(action: &Option<Action>) -> (out: Option<Action>)
    ensures
        out == *action,
{
    match action {
        Some(a) => Some(a.clone()),
        None => None,
    }
}

impl Clone for ButtonMap<Action> {
    fn clone(&self) -> (out: Self)
        ensures
            out == *self,
    {
        ButtonMap {
            left_click: clone_action(&self.left_click),
            right_click: clone_action(&self.right_click),
            middle_click: clone_action(&self.middle_click),
            back: clone_action(&self.back),
            forward: clone_action(&self.forward),
            dpi_toggle: clone_action(&self.dpi_toggle),
        }
    }
}

// ── Gestures ────────────────────────────────────────────────────────────────

/// What a hold of a gesture button turned into.
#[derive(Clone, Copy, Debug, PartialEq, Eq, Hash, PartialOrd, Ord, Structural)]
pub enum GestureDirection {
    /// A swipe up.
    Up,
    /// A swipe down.
    Down,
    /// A swipe to the left.
    Left,
    /// A swipe to the right.
    Right,
    /// A press without a swipe.
    Click,
}

/// How far the pointer travels along one axis before a hold is a swipe.
pub const GESTURE_SWIPE_THRESHOLD: i32 = 50;

/// `n` held within the range of an `i32`.
pub open spec fn saturated(n: int) -> int {
    if n > i32::MAX {
        i32::MAX as int
    } else if n < i32::MIN {
        i32::MIN as int
    } else {
        n
    }
}

/// The distance from zero.
pub open spec fn distance(n: int) -> int {
    if n < 0 {
        -n
    } else {
        n
    }
}

/// The direction of a travel: along the longer axis, the horizontal one when both
/// are equal, once it reaches the threshold. Positive `dy` points down.
pub open spec fn swipe_direction(dx: int, dy: int) -> Option<GestureDirection> {
    if distance(dx) >= distance(dy) {
        if dx >= GESTURE_SWIPE_THRESHOLD {
            Some(GestureDirection::Right)
        } else if -dx >= GESTURE_SWIPE_THRESHOLD {
            Some(GestureDirection::Left)
        } else {
            None
        }
    } else if dy >= GESTURE_SWIPE_THRESHOLD {
        Some(GestureDirection::Down)
    } else if -dy >= GESTURE_SWIPE_THRESHOLD {
        Some(GestureDirection::Up)
    } else {
        None
    }
}

/// Adds up pointer travel during a hold and commits at most one swipe.
#[derive(Clone, Copy, Debug, PartialEq, Eq, Structural)]
pub struct SwipeAccumulator {
    /// A hold is in progress.
    pub holding: bool,
    /// The hold has lasted long enough for a swipe to count.
    pub ripe: bool,
    /// A swipe has been committed in this hold.
    pub fired: bool,
    /// Horizontal travel since the hold began.
    pub dx: i32,
    /// Vertical travel since the hold began.
    pub dy: i32,
}

/// The accumulator before any hold.
pub open spec fn idle_swipe() -> SwipeAccumulator {
    SwipeAccumulator { holding: false, ripe: false, fired: false, dx: 0, dy: 0 }
}

impl Default for SwipeAccumulator {
    fn default() -> (out: Self)
        ensures
            out == idle_swipe(),
    {
        SwipeAccumulator { holding: false, ripe: false, fired: false, dx: 0, dy: 0 }
    }
}

fn added(a: i32, b: i32) -> (sum: i32)
    ensures
        sum == saturated(a + b),
{
    let wide: i64 = a as i64 + b as i64;
    if wide > 0x7fff_ffff {
        i32::MAX
    } else if wide < -0x8000_0000 {
        i32::MIN
    } else {
        wide as i32
    }
}

fn direction_of(dx: i32, dy: i32) -> (direction: Option<GestureDirection>)
    ensures
        direction == swipe_direction(dx as int, dy as int),
{
    let x: i64 = dx as i64;
    let y: i64 = dy as i64;
    let threshold: i64 = GESTURE_SWIPE_THRESHOLD as i64;
    let across: i64 = if x < 0 {
        -x
    } else {
        x
    };
    let along: i64 = if y < 0 {
        -y
    } else {
        y
    };
    if across >= along {
        if x >= threshold {
            Some(GestureDirection::Right)
        } else if -x >= threshold {
            Some(GestureDirection::Left)
        } else {
            None
        }
    } else if y >= threshold {
        Some(GestureDirection::Down)
    } else if -y >= threshold {
        Some(GestureDirection::Up)
    } else {
        None
    }
}

impl SwipeAccumulator {
    /// The accumulator after one more pointer delta.
    pub open spec fn moved(self, dx: i32, dy: i32) -> SwipeAccumulator {
        if !self.holding || self.fired {
            self
        } else {
            let x = saturated(self.dx + dx);
            let y = saturated(self.dy + dy);
            SwipeAccumulator {
                dx: x as i32,
                dy: y as i32,
                fired: self.ripe && swipe_direction(x, y) is Some,
                ..self
            }
        }
    }

    /// The swipe that one more pointer delta commits.
    pub open spec fn committed(self, dx: i32, dy: i32) -> Option<GestureDirection> {
        if !self.holding || self.fired || !self.ripe {
            None
        } else {
            swipe_direction(saturated(self.dx + dx), saturated(self.dy + dy))
        }
    }

    /// Begin a hold.
    pub fn begin(&mut self)
        ensures
            *final(self) == (SwipeAccumulator { holding: true, ..idle_swipe() }),
    {
        self.holding = true;
        self.ripe = false;
        self.fired = false;
        self.dx = 0;
        self.dy = 0;
    }

    /// Note that the hold has lasted long enough for a swipe to count.
    pub fn ripen(&mut self)
        ensures
            *final(self) == (SwipeAccumulator { ripe: true, ..*old(self) }),
    {
        self.ripe = true;
    }

    /// Feed a pointer delta. Returns a direction at most once per hold.
    pub fn accumulate(&mut self, dx: i32, dy: i32) -> (direction: Option<GestureDirection>)
        ensures
            *final(self) == old(self).moved(dx, dy),
            direction == old(self).committed(dx, dy),
    {
        if !self.holding || self.fired {
            return None;
        }
        self.dx = added(self.dx, dx);
        self.dy = added(self.dy, dy);
        if !self.ripe {
            return None;
        }
        let direction = direction_of(self.dx, self.dy);
        self.fired = direction.is_some();
        direction
    }

    /// End the hold. Returns whether it was a plain click: no swipe was committed.
    pub fn end(&mut self) -> (click: bool)
        ensures
            *final(self) == (SwipeAccumulator { holding: false, ..*old(self) }),
            click == !old(self).fired,
    {
        self.holding = false;
        !self.fired
    }
}

/// Once a swipe is committed, no further travel commits another one in the same
/// hold.
pub proof fn one_swipe_per_hold(s: SwipeAccumulator, dx: i32, dy: i32, ex: i32, ey: i32)
    requires
        s.committed(dx, dy) is Some,
    ensures
        s.moved(dx, dy).fired,
        s.moved(dx, dy).committed(ex, ey) is None,
        s.moved(dx, dy).moved(ex, ey).fired,
{
}

/// A committed swipe is never a click.
pub proof fn swipes_are_not_clicks(s: SwipeAccumulator, dx: i32, dy: i32)
    ensures
        s.committed(dx, dy) != Some(GestureDirection::Click),
{
}

/// The actions of one gesture button, per direction.
#[derive(Debug)]
pub struct DirectionMap<V> {
    up: Option<V>,
    down: Option<V>,
    left: Option<V>,
    right: Option<V>,
    click: Option<V>,
}

impl<V> DirectionMap<V> {
    /// What the map holds for `direction`.
    pub closed spec fn at(&self, direction: GestureDirection) -> Option<V> {
        match direction {
            GestureDirection::Up => self.up,
            GestureDirection::Down => self.down,
            GestureDirection::Left => self.left,
            GestureDirection::Right => self.right,
            GestureDirection::Click => self.click,
        }
    }

    /// The empty map.
    pub fn new() -> (out: Self)
        ensures
            forall|d: GestureDirection| #[trigger] out.at(d) is None,
    {
        DirectionMap { up: None, down: None, left: None, right: None, click: None }
    }

    /// The value of `direction`.
    pub fn get(&self, direction: &GestureDirection) -> (value: Option<&V>)
        ensures
            match value {
                Some(v) => self.at(*direction) == Some(*v),
                None => self.at(*direction) is None,
            },
    {
        let slot = match direction {
            GestureDirection::Up => &self.up,
            GestureDirection::Down => &self.down,
            GestureDirection::Left => &self.left,
            GestureDirection::Right => &self.right,
            GestureDirection::Click => &self.click,
        };
        match slot {
            Some(v) => Some(v),
            None => None,
        }
    }

    /// Set the value of `direction`, leaving every other direction as it was.
    pub fn insert(&mut self, direction: GestureDirection, value: V)
        ensures
            final(self).at(direction) == Some(value),
            forall|d: GestureDirection|
                d != direction ==> #[trigger] final(self).at(d) == old(self).at(d),
    {
        match direction {
            GestureDirection::Up => {
                self.up = Some(value);
            },
            GestureDirection::Down => {
                self.down = Some(value);
            },
            GestureDirection::Left => {
                self.left = Some(value);
            },
            GestureDirection::Right => {
                self.right = Some(value);
            },
            GestureDirection::Click => {
                self.click = Some(value);
            },
        }
    }
}

} // verus!
