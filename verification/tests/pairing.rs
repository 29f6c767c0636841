use openlogi::device::DeviceKind;
use openlogi::pairing::{
    DiscoveredDevice, LeaseReply, PairingEvent, PairingFailure, PairingManager, PairingUpdate,
    StartStep,
};

/// Which receiver to search with.
#[derive(Debug, Clone, Copy, PartialEq, Eq)]
enum ReceiverSelector {
    First,
    At(u8),
}

fn existing() -> DiscoveredDevice {
    DiscoveredDevice {
        address: [1, 2, 3, 4, 5, 6],
        authentication: 0,
        kind: DeviceKind::Unknown,
        name: "existing".to_string(),
    }
}

#[test]
fn start_rolls_back_pause_when_watcher_send_fails() {
    let mut manager = PairingManager::new();

    assert_eq!(
        manager.start(ReceiverSelector::First),
        StartStep::AcquireLease(ReceiverSelector::First)
    );
    assert_eq!(
        manager.lease_reply(LeaseReply::Acquired, ReceiverSelector::First),
        StartStep::SendStart(ReceiverSelector::First)
    );
    assert!(!manager.start_sent(false));

    assert_eq!(manager.sessions, 0);
    assert!(!manager.lease);
    assert!(matches!(
        manager.next_update(),
        Some(PairingUpdate::Failed(_))
    ));
}

#[test]
fn start_ignores_overlapping_session_without_clearing_or_sending() {
    let mut manager = PairingManager::new();
    manager.sessions = 1;
    manager.translate(PairingEvent::DeviceFound(existing()));
    assert!(manager.next_update().is_some());

    assert_eq!(
        manager.start(ReceiverSelector::First),
        StartStep::Ignored
    );

    assert_eq!(manager.sessions, 1);
    assert_eq!(manager.devices.len(), 1);
    assert!(manager.next_update().is_none());
}

#[test]
fn a_session_runs_from_search_to_pairing() {
    let mut manager = PairingManager::new();
    let selector = match manager.start(ReceiverSelector::At(3)) {
        StartStep::AcquireLease(selector) => selector,
        step => panic!("{step:?}"),
    };
    assert_eq!(
        manager.lease_reply(LeaseReply::Acquired, selector),
        StartStep::SendStart(ReceiverSelector::At(3))
    );
    assert!(manager.start_sent(true));
    assert!(manager.lease);
    manager.translate(PairingEvent::Searching);
    manager.translate(PairingEvent::DeviceFound(existing()));
    assert_eq!(manager.pair([1, 2, 3, 4, 5, 6]), Some(existing()));
    assert_eq!(manager.pair([6, 5, 4, 3, 2, 1]), None);
    manager.translate(PairingEvent::Passkey("123456".to_string()));
    manager.translate(PairingEvent::Paired { slot: 2 });
    assert_eq!(manager.sessions, 0);
    assert!(!manager.lease);
    assert_eq!(manager.next_update(), Some(PairingUpdate::Searching));
    assert_eq!(
        manager.next_update(),
        Some(PairingUpdate::DeviceFound {
            address: [1, 2, 3, 4, 5, 6],
            name: "existing".to_string(),
        })
    );
    assert_eq!(
        manager.next_update(),
        Some(PairingUpdate::Passkey("123456".to_string()))
    );
    assert_eq!(
        manager.next_update(),
        Some(PairingUpdate::Paired { slot: 2 })
    );
    assert_eq!(manager.next_update(), None);
}

#[test]
fn a_busy_receiver_ends_the_start() {
    let mut manager = PairingManager::new();
    manager.start(ReceiverSelector::First);
    assert_eq!(
        manager.lease_reply(LeaseReply::TimedOut, ReceiverSelector::First),
        StartStep::Failed
    );
    assert_eq!(
        manager.next_update(),
        Some(PairingUpdate::Failed(PairingFailure::ReceiverBusy))
    );
    manager.start(ReceiverSelector::First);
    assert_eq!(
        manager.lease_reply(LeaseReply::Unavailable, ReceiverSelector::First),
        StartStep::Failed
    );
    assert_eq!(
        manager.next_update(),
        Some(PairingUpdate::Failed(
            PairingFailure::ReceiverAccessUnavailable
        ))
    );
    assert_eq!(manager.sessions, 0);
}

#[test]
fn a_vanished_watcher_releases_the_receiver() {
    let mut manager = PairingManager::new();
    manager.start(ReceiverSelector::First);
    manager.lease_reply(LeaseReply::Acquired, ReceiverSelector::First);
    manager.start_sent(true);
    manager.watcher_closed();
    assert_eq!(manager.sessions, 0);
    assert!(!manager.lease);
}

#[test]
fn an_end_without_a_session_changes_no_count() {
    let mut manager = PairingManager::new();
    manager.translate(PairingEvent::Paired { slot: 1 });
    assert_eq!(manager.sessions, 0);
    assert!(!manager.lease);
    assert_eq!(
        manager.next_update(),
        Some(PairingUpdate::Paired { slot: 1 })
    );
    assert_eq!(
        manager.start(ReceiverSelector::First),
        StartStep::AcquireLease(ReceiverSelector::First)
    );
}
