//! Laws of pairing: who holds the receiver, what the user is told, and which device is
//! paired.

use vstd::prelude::*;

use crate::pairing::{
    address_number, addresses_have_numbers_of_their_own, DiscoveredDevice, LeaseReply, PairingEvent,
    PairingFailure, PairingManager, PairingUpdate, StartStep,
};

verus! {

/// A device that was found is paired under its own address, as it was found; finding it
/// changes what is paired under no other address.
pub proof fn found_devices_are_paired_by_address(
    manager: &mut PairingManager,
    device: DiscoveredDevice,
    after: PairingManager,
    address: [u8; 6],
    before: Option<DiscoveredDevice>,
    paired: Option<DiscoveredDevice>,
)
    requires
        call_ensures(
            PairingManager::translate,
            (manager, PairingEvent::DeviceFound(device)),
            (),
        ),
        after == *final(manager),
        call_ensures(PairingManager::pair, (&*old(manager), address), before),
        call_ensures(PairingManager::pair, (&after, address), paired),
    ensures
        address@ == device.address@ ==> paired == Some(device),
        address@ != device.address@ ==> paired == before,
{
    if address_number(address@) == address_number(device.address@) {
        addresses_have_numbers_of_their_own(address@, device.address@);
    }
}

/// Every event of a session is told to the user, behind what was told before, with what it
/// says and nothing of its own.
pub proof fn events_are_told_as_they_are(manager: &mut PairingManager, event: PairingEvent)
    requires
        call_ensures(PairingManager::translate, (manager, event), ()),
    ensures
        final(manager).updates@.len() == old(manager).updates@.len() + 1,
        final(manager).updates@.drop_last() == old(manager).updates@,
        ({
            let told = final(manager).updates@.last();
            &&& event is Searching <==> told is Searching
            &&& event matches PairingEvent::DeviceFound(device) ==> (told
                matches PairingUpdate::DeviceFound { address, name } && address == device.address
                && name == device.name)
            &&& event matches PairingEvent::Passkey(key) ==> told == PairingUpdate::Passkey(key)
            &&& event matches PairingEvent::Paired { slot } ==> told == (PairingUpdate::Paired {
                slot,
            })
            &&& event matches PairingEvent::Failed(why) ==> told == PairingUpdate::Failed(why)
        }),
        !(event is DeviceFound) ==> final(manager).devices@ == old(manager).devices@,
{
    assert(final(manager).updates@.drop_last() =~= old(manager).updates@);
}

/// Success and failure end the session and give the receiver back; everything else leaves
/// both as they are.
pub proof fn sessions_end_with_their_outcome(manager: &mut PairingManager, event: PairingEvent)
    requires
        call_ensures(PairingManager::translate, (manager, event), ()),
    ensures
        old(manager).sessions == 1 && (event is Paired || event is Failed)
            ==> final(manager).sessions == 0 && !final(manager).lease,
        old(manager).sessions == 0 ==> final(manager).sessions == 0 && final(manager).lease
            == old(manager).lease,
        !(event is Paired || event is Failed) ==> final(manager).sessions == old(manager).sessions
            && final(manager).lease == old(manager).lease,
{
}

/// A session starts only where none runs, with the receiver that was asked for and without
/// the devices of an earlier one.
pub proof fn one_session_at_a_time<S>(
    manager: &mut PairingManager,
    selector: S,
    step: StartStep<S>,
    fresh: PairingManager,
)
    requires
        call_ensures(PairingManager::start::<S>, (manager, selector), step),
        call_ensures(PairingManager::new, (), fresh),
    ensures
        old(manager).sessions == 0 ==> step == StartStep::AcquireLease(selector)
            && final(manager).sessions == 1 && final(manager).devices@
                == Map::<u64, DiscoveredDevice>::empty()
            && final(manager).updates@ == old(manager).updates@,
        final(manager).lease == old(manager).lease,
        old(manager).sessions != 0 ==> step == StartStep::<S>::Ignored && *final(manager)
            == *old(manager),
        fresh.sessions == 0 && !fresh.lease && fresh.updates@.len() == 0,
        fresh.devices@ == Map::<u64, DiscoveredDevice>::empty(),
{
}

/// A session goes on once the receiver is its own. One that does not get it is over, and the
/// user is told whether somebody else has it or nobody could be asked.
pub proof fn sessions_need_the_receiver<S>(
    manager: &mut PairingManager,
    reply: LeaseReply,
    selector: S,
    step: StartStep<S>,
)
    requires
        old(manager).sessions == 1,
        call_ensures(PairingManager::lease_reply::<S>, (manager, reply, selector), step),
    ensures
        step == StartStep::SendStart(selector) <==> reply is Acquired,
        reply is Acquired ==> final(manager).sessions == 1 && final(manager).lease
            && final(manager).updates@ == old(manager).updates@,
        !(reply is Acquired) ==> step == StartStep::<S>::Failed && final(manager).sessions == 0
            && final(manager).updates@.drop_last() == old(manager).updates@,
        reply is TimedOut ==> final(manager).updates@.last() == PairingUpdate::Failed(
            PairingFailure::ReceiverBusy,
        ),
        reply is Unavailable ==> final(manager).updates@.last() == PairingUpdate::Failed(
            PairingFailure::ReceiverAccessUnavailable,
        ),
{
    if !(reply is Acquired) {
        assert(final(manager).updates@.drop_last() =~= old(manager).updates@);
    }
}

/// A request that cannot be sent ends the session, gives the receiver back, and tells the
/// user that nobody watches; one that is sent changes nothing.
pub proof fn unsent_requests_end_the_session(
    manager: &mut PairingManager,
    sent: bool,
    running: bool,
)
    requires
        old(manager).sessions == 1,
        call_ensures(PairingManager::start_sent, (manager, sent), running),
    ensures
        running == sent,
        sent ==> *final(manager) == *old(manager),
        !sent ==> final(manager).sessions == 0 && !final(manager).lease
            && final(manager).updates@.len() == old(manager).updates@.len() + 1
                && final(manager).updates@.last()
            == PairingUpdate::Failed(PairingFailure::WatcherUnavailable),
{
}

/// When the watcher is gone, so are the session and its hold on the receiver.
pub proof fn nothing_runs_without_a_watcher(manager: &mut PairingManager)
    requires
        call_ensures(PairingManager::watcher_closed, (manager,), ()),
    ensures
        final(manager).sessions == 0,
        !final(manager).lease,
        final(manager).updates == old(manager).updates,
        final(manager).devices == old(manager).devices,
{
}

/// The user is told everything once, in the order in which it happened.
pub proof fn updates_are_told_in_order(
    first: &mut PairingManager,
    one: Option<PairingUpdate>,
    second: &mut PairingManager,
    two: Option<PairingUpdate>,
)
    requires
        call_ensures(PairingManager::next_update, (first,), one),
        *old(second) == *final(first),
        call_ensures(PairingManager::next_update, (second,), two),
    ensures
        one is None <==> old(first).updates@.len() == 0,
        two is None <==> old(first).updates@.len() < 2,
        one matches Some(update) ==> update == old(first).updates@[0],
        two matches Some(update) ==> update == old(first).updates@[1],
        final(second).sessions == old(first).sessions,
        final(second).lease == old(first).lease,
        final(second).devices == old(first).devices,
{
}

} // verus!
