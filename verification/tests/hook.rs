use openlogi::binding::{
    default_binding, Action, ButtonId, ButtonMap, DirectionMap, GestureDirection,
    SwipeAccumulator, GESTURE_SWIPE_THRESHOLD,
};
use openlogi::hook::{Attempt, EventDisposition, Hook, HookError, MouseEvent, Platform};
use openlogi::hook_runtime::{
    dispatch_action, is_native_click, on_event, start, start_step, BindingMap, BoundAction,
    DpiCycleState, Effect, HoldState, HookGestures, HookStep,
};

/// All errors produce non-empty messages.
#[test]
fn hook_error_display() {
    let errors: &[HookError] = &[
        HookError::Unsupported,
        HookError::AccessibilityDenied,
        HookError::MacOsTap("test reason".to_string()),
        HookError::NoDeviceFound,
        HookError::Linux("test reason".to_string()),
    ];
    for e in errors {
        assert!(!e.message().is_empty(), "empty display for {e:?}");
    }
}

/// Every kind of event can be cloned and printed.
#[test]
fn mouse_event_clone_and_debug() {
    let events = [
        MouseEvent::Button {
            id: ButtonId::Back,
            pressed: true,
        },
        MouseEvent::Scroll {
            delta_x: 1.0,
            delta_y: -1.5,
            from_trackpad: false,
            device: None,
        },
        MouseEvent::Moved {
            delta_x: 3,
            delta_y: -2,
        },
    ];
    for e in &events {
        let cloned = e.clone();
        let _ = format!("{e:?}");
        let _ = format!("{cloned:?}");
    }
}

#[test]
fn event_disposition_equality() {
    assert_eq!(EventDisposition::PassThrough, EventDisposition::PassThrough);
    assert_eq!(EventDisposition::Suppress, EventDisposition::Suppress);
    assert_ne!(EventDisposition::PassThrough, EventDisposition::Suppress);
}

/// On platforms without a backend, starting is refused.
#[test]
fn unsupported_start_returns_unsupported() {
    let hook = Hook {
        platform: Platform::Other,
    };
    let result = hook.start(Attempt::Installed);
    assert!(matches!(result, Err(HookError::Unsupported)));
}

/// On Linux, starting succeeds or gives an error of its own.
#[test]
fn linux_start_does_not_return_unsupported() {
    let hook = Hook {
        platform: Platform::Linux,
    };
    for attempt in [
        Attempt::Installed,
        Attempt::Denied,
        Attempt::NoDevice,
        Attempt::Failed("busy".to_string()),
    ] {
        let result = hook.start(attempt);
        assert!(
            !matches!(result, Err(HookError::Unsupported)),
            "Hook::start returned Unsupported on Linux"
        );
    }
}

/// Only macOS asks for the permission.
#[test]
fn non_macos_has_accessibility_is_true() {
    for platform in [Platform::Linux, Platform::Other] {
        let hook = Hook { platform };
        assert!(hook.has_accessibility(false));
    }
    let mac = Hook {
        platform: Platform::MacOs,
    };
    assert!(!mac.has_accessibility(false));
    assert!(mac.has_accessibility(true));
}

#[test]
fn accumulate_tags_a_committed_swipe_with_the_held_button() {
    let mut hold = HoldState::default();
    hold.begin(ButtonId::Back);
    hold.swipe.ripen();

    // A clear rightward swipe commits, tagged with the held button.
    assert_eq!(
        hold.accumulate(GESTURE_SWIPE_THRESHOLD + 10, 0),
        Some((ButtonId::Back, GestureDirection::Right))
    );
    assert_eq!(
        hold.accumulate(50, 0),
        None,
        "commits at most once per hold"
    );
    // A release after a committed swipe is no click.
    assert_eq!(hold.end(ButtonId::Back), Some(false));
}

#[test]
fn end_matches_the_held_button() {
    let mut hold = HoldState::default();
    hold.begin(ButtonId::Back);
    // A stray release of a button that was not held is ignored...
    assert_eq!(hold.end(ButtonId::Forward), None);
    // ...and ending the held button with no swipe is a plain click.
    assert_eq!(hold.end(ButtonId::Back), Some(true));
}

#[test]
fn a_young_hold_does_not_swipe() {
    let mut swipe = SwipeAccumulator::default();
    swipe.begin();
    assert_eq!(swipe.accumulate(500, 0), None);
    assert!(swipe.end());
    swipe.begin();
    swipe.ripen();
    assert_eq!(swipe.accumulate(0, -500), Some(GestureDirection::Up));
    assert!(!swipe.end());
}

fn press(id: ButtonId, pressed: bool) -> MouseEvent<f64> {
    MouseEvent::Button { id, pressed }
}

#[test]
fn bound_buttons_are_swallowed_on_both_edges() {
    let mut bindings: BindingMap = ButtonMap::new();
    bindings.insert(ButtonId::Back, BoundAction::Os(Action::Copy));
    let gestures: HookGestures = ButtonMap::new();
    let mut hold = HoldState::default();
    let down = on_event(&press(ButtonId::Back, true), &mut hold, &bindings, &gestures);
    assert_eq!(
        down,
        (
            EventDisposition::Suppress,
            Some(BoundAction::Os(Action::Copy))
        )
    );
    let up = on_event(&press(ButtonId::Back, false), &mut hold, &bindings, &gestures);
    assert_eq!(up, (EventDisposition::Suppress, None));
    let other = on_event(
        &press(ButtonId::Forward, true),
        &mut hold,
        &bindings,
        &gestures,
    );
    assert_eq!(other, (EventDisposition::PassThrough, None));
}

#[test]
fn native_clicks_pass_through() {
    assert!(is_native_click(
        ButtonId::LeftClick,
        &BoundAction::Os(Action::LeftClick)
    ));
    assert!(!is_native_click(
        ButtonId::LeftClick,
        &BoundAction::Os(Action::RightClick)
    ));
    let mut bindings: BindingMap = ButtonMap::new();
    bindings.insert(ButtonId::LeftClick, BoundAction::Os(Action::LeftClick));
    let mut hold = HoldState::default();
    let out = on_event(
        &press(ButtonId::LeftClick, true),
        &mut hold,
        &bindings,
        &ButtonMap::new(),
    );
    assert_eq!(out, (EventDisposition::PassThrough, None));
}

#[test]
fn gestures_fire_once_per_hold() {
    let mut directions: DirectionMap<BoundAction> = DirectionMap::new();
    directions.insert(GestureDirection::Right, BoundAction::CycleDpiPresets);
    directions.insert(GestureDirection::Click, BoundAction::Os(Action::Paste));
    let mut gestures: HookGestures = ButtonMap::new();
    gestures.insert(ButtonId::Back, directions);
    let bindings: BindingMap = ButtonMap::new();
    let mut hold = HoldState::default();
    let event = press(ButtonId::Back, true);
    let down = on_event(&event, &mut hold, &bindings, &gestures);
    assert_eq!(down, (EventDisposition::Suppress, None));
    hold.swipe.ripen();
    let moved: MouseEvent<f64> = MouseEvent::Moved {
        delta_x: 90,
        delta_y: 0,
    };
    let swipe = on_event(&moved, &mut hold, &bindings, &gestures);
    assert_eq!(
        swipe,
        (
            EventDisposition::PassThrough,
            Some(BoundAction::CycleDpiPresets)
        )
    );
    let again = on_event(&moved, &mut hold, &bindings, &gestures);
    assert_eq!(again, (EventDisposition::PassThrough, None));
    let up = on_event(&press(ButtonId::Back, false), &mut hold, &bindings, &gestures);
    assert_eq!(up, (EventDisposition::Suppress, None));
}

#[test]
fn the_hook_runs_where_it_may() {
    assert_eq!(start_step(true), HookStep::Install);
    assert_eq!(start_step(false), HookStep::Stop);
    assert!(start(true, &Ok(())));
    assert!(!start(false, &Ok(())));
    assert!(!start(true, &Err(HookError::NoDeviceFound)));
}

#[test]
fn dpi_presets_go_round() {
    let mut state = DpiCycleState {
        presets: vec![400, 800],
        index: 0,
        target: None,
    };
    assert_eq!(state.cycle(), Some((800, None)));
    assert_eq!(state.cycle(), Some((400, None)));
    assert_eq!(state.set(1), Some((800, None)));
    assert!(matches!(
        dispatch_action(&BoundAction::CycleDpiPresets, &mut state),
        Effect::WriteDpi { dpi: 400, .. }
    ));
    let mut empty = DpiCycleState {
        presets: Vec::new(),
        index: 0,
        target: None,
    };
    assert!(matches!(
        dispatch_action(&BoundAction::CycleDpiPresets, &mut empty),
        Effect::Ignored
    ));
    assert!(matches!(
        dispatch_action(&BoundAction::ToggleSmartShift, &mut empty),
        Effect::ToggleSmartShift { .. }
    ));
    assert!(matches!(
        dispatch_action(&BoundAction::Os(Action::Copy), &mut empty),
        Effect::Execute(Action::Copy)
    ));
}

#[test]
fn buttons_have_labels_and_defaults() {
    assert_eq!(ButtonId::ALL.len(), 6);
    assert!(ButtonId::ALL.iter().all(|b| !b.label().is_empty()));
    assert_eq!(default_binding(ButtonId::Back), Action::BrowserBack);
    assert_eq!(default_binding(ButtonId::LeftClick), Action::LeftClick);
    assert!(Action::catalog().contains(&Action::Copy));
    assert_eq!(
        Action::CustomShortcut("Toggle DPI".to_string()).label(),
        "Toggle DPI"
    );
}
