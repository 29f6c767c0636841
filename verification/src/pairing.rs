//! Device pairing: admission of sessions, the receiver lease, and the event
//! stream.
//!
//! One process cannot read a receiver through two channels, so while a pairing
//! session runs it holds an exclusive lease of the receiver, and capture pauses.
//! Every end of a session releases the lease, a failed start included.

use std::collections::HashMap;

use vstd::prelude::*;

use crate::device::DeviceKind;

verus! {

/// How long a poll for the next update is held open, in seconds.
pub const HOLD_SECONDS: u64 = 20;

/// How long a start waits for capture to give up the receiver, in seconds.
pub const RECEIVER_LEASE_TIMEOUT_SECONDS: u64 = 5;

/// A device that discovery found.
#[derive(Debug, PartialEq, Eq)]
pub struct DiscoveredDevice {
    /// Its radio address.
    pub address: [u8; 6],
    /// How it authenticates.
    pub authentication: u8,
    /// What it is.
    pub kind: DeviceKind,
    /// Its name.
    pub name: String,
}

impl Clone for DiscoveredDevice {
    fn clone(&self) -> (out: Self)
        ensures
            out == *self,
    {
        DiscoveredDevice {
            address: self.address,
            authentication: self.authentication,
            kind: self.kind,
            name: self.name.clone(),
        }
    }
}

/// Why pairing failed.
#[derive(Debug, PartialEq, Eq)]
pub enum PairingFailure {
    /// Capture did not give up the receiver in time.
    ReceiverBusy,
    /// The lease could not be kept.
    ReceiverAccessUnavailable,
    /// The pairing watcher is gone.
    WatcherUnavailable,
    /// The session was cancelled.
    Cancelled,
    /// The session failed, as this text tells.
    Session(String),
}

/// What the pairing watcher reports.
#[derive(Debug)]
pub enum PairingEvent {
    /// The receiver is searching.
    Searching,
    /// A device was found.
    DeviceFound(DiscoveredDevice),
    /// The user has to enter this passkey.
    Passkey(String),
    /// The device is paired.
    Paired {
        /// Its slot.
        slot: u8,
    },
    /// The session failed.
    Failed(PairingFailure),
}

impl PairingEvent {
    /// The event ends its session.
    pub open spec fn is_terminal(self) -> bool {
        self is Paired || self is Failed
    }
}

/// What the interface is told.
#[derive(Debug, PartialEq, Eq)]
pub enum PairingUpdate {
    /// The receiver is searching.
    Searching,
    /// A device was found; it can be paired by its address.
    DeviceFound {
        /// Its radio address.
        address: [u8; 6],
        /// Its name.
        name: String,
    },
    /// The user has to enter this passkey.
    Passkey(String),
    /// The device is paired.
    Paired {
        /// Its slot.
        slot: u8,
    },
    /// The session failed.
    Failed(PairingFailure),
}

/// The update that an event becomes.
pub open spec fn update_of(event: PairingEvent) -> PairingUpdate {
    match event {
        PairingEvent::Searching => PairingUpdate::Searching,
        PairingEvent::DeviceFound(device) => PairingUpdate::DeviceFound {
            address: device.address,
            name: device.name,
        },
        PairingEvent::Passkey(key) => PairingUpdate::Passkey(key),
        PairingEvent::Paired { slot } => PairingUpdate::Paired { slot },
        PairingEvent::Failed(failure) => PairingUpdate::Failed(failure),
    }
}

/// An address as a number.
pub open spec fn address_number(a: Seq<u8>) -> u64 {
    (a[0] + 0x100 * a[1] + 0x1_0000 * a[2] + 0x100_0000 * a[3] + 0x1_0000_0000 * a[4]
        + 0x100_0000_0000 * a[5]) as u64
}

fn number_of(a: &[u8; 6]) -> (n: u64)
    ensures
        n == address_number(a@),
{
    a[0] as u64 + 0x100 * a[1] as u64 + 0x1_0000 * a[2] as u64 + 0x100_0000 * a[3] as u64
        + 0x1_0000_0000 * a[4] as u64 + 0x100_0000_0000 * a[5] as u64
}

proof fn lemma_low_byte(a: u8, x: int, b: u8, y: int)
    requires
        a + 0x100 * x == b + 0x100 * y,
    ensures
        a == b,
        x == y,
{
}

/// Different addresses have different numbers.
pub proof fn addresses_have_numbers_of_their_own(a: Seq<u8>, b: Seq<u8>)
    requires
        a.len() == 6,
        b.len() == 6,
        address_number(a) == address_number(b),
    ensures
        a == b,
{
    let a5 = a[5] as int;
    let a4 = a[4] + 0x100 * a5;
    let a3 = a[3] + 0x100 * a4;
    let a2 = a[2] + 0x100 * a3;
    let a1 = a[1] + 0x100 * a2;
    let b5 = b[5] as int;
    let b4 = b[4] + 0x100 * b5;
    let b3 = b[3] + 0x100 * b4;
    let b2 = b[2] + 0x100 * b3;
    let b1 = b[1] + 0x100 * b2;
    assert(a[0] + 0x100 * a1 == b[0] + 0x100 * b1);
    lemma_low_byte(a[0], a1, b[0], b1);
    lemma_low_byte(a[1], a2, b[1], b2);
    lemma_low_byte(a[2], a3, b[2], b3);
    lemma_low_byte(a[3], a4, b[3], b4);
    lemma_low_byte(a[4], a5, b[4], b5);
    assert(a =~= b);
}

/// What a start has to do next. `S` tells which receiver is asked for.
#[derive(Debug, PartialEq, Eq)]
pub enum StartStep<S> {
    /// Nothing: a session is already active.
    Ignored,
    /// Wait for the receiver lease.
    AcquireLease(S),
    /// Tell the watcher to search with this receiver.
    SendStart(S),
    /// Nothing: the start failed and was undone.
    Failed,
}

/// What waiting for the receiver lease came to.
#[derive(Debug, Clone, Copy, PartialEq, Eq, Structural)]
pub enum LeaseReply {
    /// The lease is held.
    Acquired,
    /// Capture did not give up the receiver in time.
    TimedOut,
    /// The lease cannot be kept.
    Unavailable,
}

/// The pairing sessions of an agent.
pub struct PairingManager {
    /// How many sessions are outstanding.
    pub sessions: usize,
    /// Whether the receiver lease is held.
    pub lease: bool,
    /// The devices found so far, by address.
    pub devices: HashMap<u64, DiscoveredDevice>,
    /// The updates that were not read yet, oldest first.
    pub updates: Vec<PairingUpdate>,
}

impl PairingManager {
    /// No session, no lease, nothing found, nothing to read.
    pub open spec fn is_fresh(self) -> bool {
        self.sessions == 0 && !self.lease && self.devices@ == Map::<u64, DiscoveredDevice>::empty()
            && self.updates@.len() == 0
    }

    /// At most one session is outstanding, and the lease is held only by one.
    pub open spec fn is_balanced(self) -> bool {
        self.sessions <= 1 && (self.lease ==> self.sessions == 1)
    }

    /// A manager before its first session.
    #[must_use]
    pub fn new() -> (out: Self)
        ensures
            out.is_fresh(),
            out.is_balanced(),
    {
        PairingManager {
            sessions: 0,
            lease: false,
            devices: HashMap::new(),
            updates: Vec::new(),
        }
    }

    /// Begin a session: forget the previous discovery and wait for the receiver.
    /// A request that overlaps a session is ignored and changes nothing.
    pub fn start<S>(&mut self, selector: S) -> (step: StartStep<S>)
        ensures
            old(self).is_balanced() ==> final(self).is_balanced(),
            if old(self).sessions != 0 {
                step == StartStep::<S>::Ignored && *final(self) == *old(self)
            } else {
                &&& step == StartStep::AcquireLease(selector)
                &&& final(self).sessions == 1
                &&& final(self).lease == old(self).lease
                &&& final(self).devices@ == Map::<u64, DiscoveredDevice>::empty()
                &&& final(self).updates == old(self).updates
            },
    {
        if self.sessions != 0 {
            return StartStep::Ignored;
        }
        self.sessions = 1;
        self.devices.clear();
        StartStep::AcquireLease(selector)
    }

    /// Go on with a start after waiting for the lease: the watcher is told which
    /// receiver was asked for. Without a lease the start is undone and the interface is
    /// told why.
    pub fn lease_reply<S>(&mut self, reply: LeaseReply, selector: S) -> (step: StartStep<S>)
        requires
            old(self).sessions == 1,
        ensures
            old(self).is_balanced() && !old(self).lease ==> final(self).is_balanced(),
            final(self).devices == old(self).devices,
            match reply {
                LeaseReply::Acquired => step == StartStep::SendStart(selector)
                    && final(self).sessions == 1 && final(self).lease && final(self).updates == old(
                    self,
                ).updates,
                LeaseReply::TimedOut => step == StartStep::<S>::Failed && final(self).sessions == 0
                    && final(self).lease == old(self).lease && final(self).updates@ == old(
                    self,
                ).updates@.push(PairingUpdate::Failed(PairingFailure::ReceiverBusy)),
                LeaseReply::Unavailable => step == StartStep::<S>::Failed && final(self).sessions == 0
                    && final(self).lease == old(self).lease && final(self).updates@ == old(
                    self,
                ).updates@.push(
                    PairingUpdate::Failed(PairingFailure::ReceiverAccessUnavailable),
                ),
            },
    {
        match reply {
            LeaseReply::Acquired => {
                self.lease = true;
                StartStep::SendStart(selector)
            },
            LeaseReply::TimedOut => {
                self.updates.push(PairingUpdate::Failed(PairingFailure::ReceiverBusy));
                self.sessions = 0;
                StartStep::Failed
            },
            LeaseReply::Unavailable => {
                self.updates.push(
                    PairingUpdate::Failed(PairingFailure::ReceiverAccessUnavailable),
                );
                self.sessions = 0;
                StartStep::Failed
            },
        }
    }

    /// Finish a start after telling the watcher: whether the session runs. A watcher
    /// that is gone undoes the start: the lease is released and capture goes on.
    pub fn start_sent(&mut self, sent: bool) -> (running: bool)
        requires
            old(self).sessions == 1,
        ensures
            running == sent,
            old(self).is_balanced() ==> final(self).is_balanced(),
            final(self).devices == old(self).devices,
            if sent {
                *final(self) == *old(self)
            } else {
                final(self).sessions == 0 && !final(self).lease && final(self).updates@ == old(
                    self,
                ).updates@.push(PairingUpdate::Failed(PairingFailure::WatcherUnavailable))
            },
    {
        if sent {
            return true;
        }
        self.lease = false;
        self.updates.push(PairingUpdate::Failed(PairingFailure::WatcherUnavailable));
        self.sessions = 0;
        false
    }

    /// The discovered device with this address, to be paired with; `None` when it
    /// was not found in this session.
    pub fn pair(&self, address: [u8; 6]) -> (device: Option<DiscoveredDevice>)
        ensures
            device == if self.devices@.contains_key(address_number(address@)) {
                Some(self.devices@[address_number(address@)])
            } else {
                None
            },
    {
        match self.devices.get(&number_of(&address)) {
            Some(device) => Some(device.clone()),
            None => None,
        }
    }

    /// Take in one event of the watcher: remember a found device by its address,
    /// release the lease when the session ends, and queue the update. Every end belongs
    /// to one accepted start; one without a session leaves the count at zero.
    pub fn translate(&mut self, event: PairingEvent)
        ensures
            final(self).updates@ == old(self).updates@.push(update_of(event)),
            final(self).devices@ == match event {
                PairingEvent::DeviceFound(device) => old(self).devices@.insert(
                    address_number(device.address@),
                    device,
                ),
                _ => old(self).devices@,
            },
            final(self).sessions == if event.is_terminal() && old(self).sessions > 0 {
                (old(self).sessions - 1) as usize
            } else {
                old(self).sessions
            },
            final(self).lease == (old(self).lease && !(event.is_terminal() && old(self).sessions
                == 1)),
            old(self).is_balanced() ==> final(self).is_balanced(),
    {
        let ends: bool = match &event {
            PairingEvent::Paired { .. } => true,
            PairingEvent::Failed(_) => true,
            _ => false,
        };
        let update: PairingUpdate = match event {
            PairingEvent::Searching => PairingUpdate::Searching,
            PairingEvent::DeviceFound(device) => {
                let update = PairingUpdate::DeviceFound {
                    address: device.address,
                    name: device.name.clone(),
                };
                self.devices.insert(number_of(&device.address), device);
                update
            },
            PairingEvent::Passkey(key) => PairingUpdate::Passkey(key),
            PairingEvent::Paired { slot } => PairingUpdate::Paired { slot },
            PairingEvent::Failed(failure) => PairingUpdate::Failed(failure),
        };
        if ends {
            if self.sessions == 1 {
                self.lease = false;
            }
            if self.sessions > 0 {
                self.sessions = self.sessions - 1;
            }
        }
        self.updates.push(update);
    }

    /// The watcher is gone: no session can run, and the lease must not stay held.
    pub fn watcher_closed(&mut self)
        ensures
            final(self).sessions == 0,
            !final(self).lease,
            final(self).is_balanced(),
            final(self).devices == old(self).devices,
            final(self).updates == old(self).updates,
    {
        self.sessions = 0;
        self.lease = false;
    }

    /// The next update, oldest first; `None` when there is none.
    pub fn next_update(&mut self) -> (update: Option<PairingUpdate>)
        ensures
            final(self).sessions == old(self).sessions,
            final(self).lease == old(self).lease,
            final(self).devices == old(self).devices,
            match update {
                Some(u) => old(self).updates@.len() > 0 && u == old(self).updates@[0]
                    && final(self).updates@ == old(self).updates@.skip(1),
                None => old(self).updates@.len() == 0 && final(self).updates == old(self).updates,
            },
    {
        if self.updates.len() == 0 {
            return None;
        }
        let update: PairingUpdate = self.updates.remove(0);
        assert(self.updates@ =~= old(self).updates@.skip(1));
        Some(update)
    }
}

/// A device that was found can be paired with as long as no other device with its
/// address is found and no new session starts.
pub proof fn found_devices_can_be_paired(
    before: Map<u64, DiscoveredDevice>,
    device: DiscoveredDevice,
    other: DiscoveredDevice,
)
    requires
        other.address@ != device.address@,
    ensures
        ({
            let after = before.insert(address_number(device.address@), device).insert(
                address_number(other.address@),
                other,
            );
            after.contains_key(address_number(device.address@)) && after[address_number(
                device.address@,
            )] == device
        }),
{
    if address_number(device.address@) == address_number(other.address@) {
        addresses_have_numbers_of_their_own(device.address@, other.address@);
    }
}

} // verus!
