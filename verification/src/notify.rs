//! User-facing notification events and the low-battery hysteresis.
//!
//! Delivering a toast is the application's business; the library decides
//! *whether* an event is delivered. For low-battery events the decision is
//! a small state machine per device address: crossing to or below the
//! threshold notifies once, and the flag clears only when the battery rises
//! more than the hysteresis margin above the threshold, so values that
//! oscillate inside the band never re-notify.

use crate::config::Config;
use vstd::hash_set::HashSetWithView;
use vstd::prelude::*;

verus! {

/// How far above the threshold the battery must rise before a past
/// low-battery notification is forgotten and a later crossing notifies
/// again.
pub const LOW_BATTERY_CLEAR_MARGIN: u8 = 10;

/// A notification-worthy event, carrying the device's display name (and,
/// for a low-battery event, the committed battery value and the address).
#[derive(Debug, Clone, PartialEq, Eq)]
pub enum NotifyEvent {
    LowBattery(String, u8, u64),
    Added(String),
    Removed(String),
    Reconnect(String),
    Disconnect(String),
}

/// Whether a low-battery notification fires: the battery is at or below
/// the threshold and this address has not been notified yet.
pub open spec fn low_battery_fires(
    notified: Set<u64>,
    address: u64,
    battery: u8,
    threshold: u8,
) -> bool {
    battery <= threshold && !notified.contains(address)
}

/// The notified set after one reading: at or below the threshold the
/// address is marked notified; more than the margin above the threshold the
/// mark is cleared; inside the band nothing changes.
pub open spec fn low_battery_next(
    notified: Set<u64>,
    address: u64,
    battery: u8,
    threshold: u8,
) -> Set<u64> {
    if battery <= threshold {
        notified.insert(address)
    } else if battery > threshold + LOW_BATTERY_CLEAR_MARGIN {
        notified.remove(address)
    } else {
        notified
    }
}

/// The addresses whose low-battery notification has fired and not yet been
/// cleared.
pub struct NotifiedDevices {
    set: HashSetWithView<u64>,
}

impl View for NotifiedDevices {
    type V = Set<u64>;

    closed spec fn view(&self) -> Set<u64> {
        self.set@
    }
}

impl NotifiedDevices {
    /// No address notified yet.
    pub fn new() -> (r: Self)
        ensures
            r@ == Set::<u64>::empty(),
    {
        NotifiedDevices { set: HashSetWithView::new() }
    }

    /// Whether this address is currently marked as notified.
    pub fn contains(&self, address: u64) -> (r: bool)
        ensures
            r == self@.contains(address),
    {
        self.set.contains(&address)
    }

    /// Feed one committed battery value for `address` through the
    /// hysteresis: returns whether a low-battery notification fires, and
    /// updates the notified set as `low_battery_next` describes.
    pub fn process_low_battery(&mut self, address: u64, battery: u8, threshold: u8) -> (fire: bool)
        ensures
            final(self)@ == low_battery_next(old(self)@, address, battery, threshold),
            fire == low_battery_fires(old(self)@, address, battery, threshold),
    {
        if battery <= threshold {
            self.set.insert(address)
        } else if (battery as u16) > (threshold as u16) + (LOW_BATTERY_CLEAR_MARGIN as u16) {
            self.set.remove(&address);
            false
        } else {
            false
        }
    }
}

impl NotifyEvent {
    /// Decide whether this event is delivered as a toast, consulting the
    /// configuration's switches and, for a low-battery event, advancing the
    /// hysteresis state.
    pub fn evaluate(&self, config: &Config, notified: &mut NotifiedDevices) -> (deliver: bool)
        ensures
            match *self {
                NotifyEvent::LowBattery(_, battery, address) => {
                    &&& final(notified)@ == low_battery_next(
                        old(notified)@,
                        address,
                        battery,
                        config.notify_options.low_battery,
                    )
                    &&& deliver == low_battery_fires(
                        old(notified)@,
                        address,
                        battery,
                        config.notify_options.low_battery,
                    )
                },
                NotifyEvent::Added(_) => {
                    &&& deliver == config.notify_options.added
                    &&& final(notified)@ == old(notified)@
                },
                NotifyEvent::Removed(_) => {
                    &&& deliver == config.notify_options.removed
                    &&& final(notified)@ == old(notified)@
                },
                NotifyEvent::Reconnect(_) => {
                    &&& deliver == config.notify_options.reconnection
                    &&& final(notified)@ == old(notified)@
                },
                NotifyEvent::Disconnect(_) => {
                    &&& deliver == config.notify_options.disconnection
                    &&& final(notified)@ == old(notified)@
                },
            },
    {
        match self {
            NotifyEvent::LowBattery(_, battery, address) => notified.process_low_battery(
                *address,
                *battery,
                config.get_low_battery(),
            ),
            NotifyEvent::Added(_) => config.get_added(),
            NotifyEvent::Removed(_) => config.get_removed(),
            NotifyEvent::Reconnect(_) => config.get_reconnection(),
            NotifyEvent::Disconnect(_) => config.get_disconnection(),
        }
    }
}

/// The notified set and the number of fired notifications after a sequence
/// of committed battery values for one address runs through the hysteresis.
pub open spec fn low_battery_run(
    notified: Set<u64>,
    address: u64,
    readings: Seq<u8>,
    threshold: u8,
) -> (Set<u64>, nat)
    decreases readings.len(),
{
    if readings.len() == 0 {
        (notified, 0)
    } else {
        let fired: nat = if low_battery_fires(notified, address, readings[0], threshold) {
            1
        } else {
            0
        };
        let rest = low_battery_run(
            low_battery_next(notified, address, readings[0], threshold),
            address,
            readings.drop_first(),
            threshold,
        );
        (rest.0, fired + rest.1)
    }
}

/// Law (hysteresis): once an address is marked notified, battery values
/// that never rise more than the margin above the threshold fire no further
/// notification, and the mark stays.
pub proof fn lemma_no_renotification_within_hysteresis(
    notified: Set<u64>,
    address: u64,
    readings: Seq<u8>,
    threshold: u8,
)
    requires
        notified.contains(address),
        forall|i: int| 0 <= i < readings.len() ==> (#[trigger] readings[i]) <= threshold
            + LOW_BATTERY_CLEAR_MARGIN,
    ensures
        low_battery_run(notified, address, readings, threshold).1 == 0,
        low_battery_run(notified, address, readings, threshold).0.contains(address),
    decreases readings.len(),
{
    if readings.len() > 0 {
        let next = low_battery_next(notified, address, readings[0], threshold);
        assert(next.contains(address));
        lemma_no_renotification_within_hysteresis(
            next,
            address,
            readings.drop_first(),
            threshold,
        );
    }
}

/// Law (exactly one notification): for an address not yet marked, a battery
/// that starts at or below the threshold and never rises more than the
/// margin above it fires exactly one notification over the whole sequence.
pub proof fn lemma_exactly_one_notification_until_recovery(
    notified: Set<u64>,
    address: u64,
    readings: Seq<u8>,
    threshold: u8,
)
    requires
        !notified.contains(address),
        readings.len() > 0,
        readings[0] <= threshold,
        forall|i: int| 0 <= i < readings.len() ==> (#[trigger] readings[i]) <= threshold
            + LOW_BATTERY_CLEAR_MARGIN,
    ensures
        low_battery_run(notified, address, readings, threshold).1 == 1,
{
    let next = low_battery_next(notified, address, readings[0], threshold);
    assert(next.contains(address));
    lemma_no_renotification_within_hysteresis(next, address, readings.drop_first(), threshold);
}

} // verus!
