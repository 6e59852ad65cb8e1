//! Watcher coordination: the restart generation counter, each watcher's
//! view of it, the address sets watchers subscribe to, and the small
//! decision steps of the Classic battery poller.
//!
//! The watchers themselves block on operating-system notifications and
//! sleeps, which the application owns; everything they decide — when to
//! resubscribe, which subscriptions to add or drop, which polled battery
//! values to report, whether to retry a failed enumeration — is here.

use crate::bluetooth::{BluetoothInfo, BluetoothType};
use crate::registry::DeviceRegistry;
use vstd::prelude::*;

verus! {

/// The monotonic generation counter owned by the supervisor. It is bumped
/// on every effective presence change; running watchers compare it with the
/// generation they last saw to learn that the device population changed.
pub struct RestartCoordinator {
    generation: u64,
}

impl RestartCoordinator {
    /// The current generation.
    pub closed spec fn generation(&self) -> u64 {
        self.generation
    }

    /// A fresh coordinator at generation zero.
    pub fn new() -> (r: Self)
        ensures
            r.generation() == 0,
    {
        RestartCoordinator { generation: 0 }
    }

    /// Read the current generation.
    pub fn current(&self) -> (g: u64)
        ensures
            g == self.generation(),
    {
        self.generation
    }

    /// Advance the generation by one; never decreases it.
    pub fn bump(&mut self)
        requires
            old(self).generation() < u64::MAX,
        ensures
            final(self).generation() == old(self).generation() + 1,
    {
        self.generation = self.generation + 1;
    }
}

/// One watcher's record of the last generation it acted on. The invariant
/// `last_seen() <= generation` holds whenever the cursor is only ever shown
/// the coordinator's current generation.
pub struct WatcherCursor {
    last_seen: u64,
}

impl WatcherCursor {
    /// The generation this watcher last acted on.
    pub closed spec fn last_seen(&self) -> u64 {
        self.last_seen
    }

    /// The cursor is not ahead of the given generation.
    pub open spec fn in_sync(&self, generation: u64) -> bool {
        self.last_seen() <= generation
    }

    /// A fresh cursor at generation zero.
    pub fn new() -> (r: Self)
        ensures
            r.last_seen() == 0,
    {
        WatcherCursor { last_seen: 0 }
    }

    /// Compare with the coordinator's current generation: reports whether
    /// the watcher must resubscribe, and catches the cursor up to `current`
    /// when it does. A cursor that was in sync stays in sync and, after the
    /// check, has observed the current generation.
    pub fn check_restart(&mut self, current: u64) -> (restart: bool)
        ensures
            restart == (old(self).last_seen() < current),
            final(self).last_seen() == if old(self).last_seen() < current {
                current
            } else {
                old(self).last_seen()
            },
            old(self).in_sync(current) ==> final(self).last_seen() == current,
            old(self).in_sync(current) ==> final(self).in_sync(current),
    {
        if self.last_seen < current {
            self.last_seen = current;
            true
        } else {
            false
        }
    }
}

/// Whether a registry record is for a Low-Energy device.
pub open spec fn is_ble_info(info: BluetoothInfo) -> bool {
    info.kind matches BluetoothType::LowEnergy
}

/// Whether a registry record is for a Classic device.
pub open spec fn is_btc_info(info: BluetoothInfo) -> bool {
    info.kind matches BluetoothType::Classic(_)
}

/// Filtering a duplicate-free sequence leaves it duplicate-free.
proof fn lemma_filter_no_duplicates(s: Seq<u64>, pred: spec_fn(u64) -> bool)
    requires
        s.no_duplicates(),
    ensures
        s.filter(pred).no_duplicates(),
    decreases s.len(),
{
    reveal(Seq::filter);
    if s.len() > 0 {
        let rest = s.drop_last();
        let last = s.last();
        lemma_filter_no_duplicates(rest, pred);
        if pred(last) {
            if rest.filter(pred).contains(last) {
                rest.lemma_filter_contains_rev(pred, last);
                let k = choose|k: int| 0 <= k < rest.len() && rest[k] == last;
                assert(s[k] == s[s.len() - 1]);
            }
            let out = rest.filter(pred).push(last);
            assert forall|i: int, j: int|
                0 <= i < out.len() && 0 <= j < out.len() && i != j implies out[i] != out[j] by {
                if i < out.len() - 1 && j < out.len() - 1 {
                    assert(rest.filter(pred).no_duplicates());
                } else {
                    assert(!rest.filter(pred).contains(last));
                }
            }
        }
    }
}

/// The membership of a filtered sequence: exactly the elements of the given
/// sequence that satisfy the predicate.
proof fn lemma_filter_membership(s: Seq<u64>, pred: spec_fn(u64) -> bool)
    ensures
        forall|a: u64| #[trigger] s.filter(pred).contains(a) <==> (s.contains(a) && pred(a)),
{
    assert forall|a: u64| #[trigger] s.filter(pred).contains(a) implies (s.contains(a) && pred(
        a,
    )) by {
        s.lemma_filter_contains_rev(pred, a);
        let j = choose|j: int| 0 <= j < s.filter(pred).len() && s.filter(pred)[j] == a;
        s.lemma_filter_pred(pred, j);
    }
    assert forall|a: u64| (s.contains(a) && pred(a)) implies #[trigger] s.filter(pred).contains(
        a,
    ) by {
        let k = choose|k: int| 0 <= k < s.len() && s[k] == a;
        s.lemma_filter_contains(pred, k);
    }
}

/// The registry's addresses whose record is of the requested kind,
/// collected by one pass in iteration order; the workhorse behind the two
/// watcher address lists.
#[verifier::loop_isolation(false)]
fn addresses_matching(registry: &DeviceRegistry, ble: bool) -> (r: Vec<u64>)
    requires
        registry.wf(),
    ensures
        r@.no_duplicates(),
        forall|a: u64| #[trigger] r@.contains(a) <==> (registry@.dom().contains(a) && (if ble {
            is_ble_info(registry@[a])
        } else {
            is_btc_info(registry@[a])
        })),
{
    let ghost addr_seq = registry.addr_seq();
    let ghost pred = |a: u64|
        registry@.dom().contains(a) && (if ble {
            is_ble_info(registry@[a])
        } else {
            is_btc_info(registry@[a])
        });
    proof {
        registry.lemma_addr_seq();
        assert(addr_seq.take(0).filter(pred) =~= Seq::<u64>::empty());
    }
    let n = registry.len();
    let mut r: Vec<u64> = Vec::new();
    let mut i: usize = 0;
    while i < n
        invariant
            registry.wf(),
            n == addr_seq.len(),
            addr_seq == registry.addr_seq(),
            i <= n,
            r@ == addr_seq.take(i as int).filter(pred),
        decreases n - i,
    {
        let address = registry.address_at(i);
        proof {
            assert(addr_seq[i as int] == address);
            assert(addr_seq.contains(address));
            registry.lemma_addr_seq();
        }
        let keep = match registry.get(address) {
            Some(info) => if ble {
                info.is_ble()
            } else {
                info.is_btc()
            },
            None => false,
        };
        proof {
            assert(keep == pred(address));
        }
        if keep {
            r.push(address);
        }
        i += 1;
        proof {
            assert(addr_seq.take(i as int) =~= addr_seq.take(i as int - 1).push(address));
            addr_seq.take(i as int - 1).lemma_filter_push(address, pred);
        }
    }
    proof {
        assert(addr_seq.take(n as int) =~= addr_seq);
        lemma_filter_no_duplicates(addr_seq, pred);
        lemma_filter_membership(addr_seq, pred);
    }
    r
}

/// The addresses of all Low-Energy devices in the registry: what the
/// Low-Energy watcher subscribes to.
pub fn get_ble_devices_address(registry: &DeviceRegistry) -> (r: Vec<u64>)
    requires
        registry.wf(),
    ensures
        r@.no_duplicates(),
        forall|a: u64| #[trigger] r@.contains(a) <==> (registry@.dom().contains(a) && is_ble_info(
            registry@[a],
        )),
{
    addresses_matching(registry, true)
}

/// The addresses of all Classic devices in the registry: what the Classic
/// status watcher subscribes to and the battery poller reads.
pub fn get_btc_devices_address(registry: &DeviceRegistry) -> (r: Vec<u64>)
    requires
        registry.wf(),
    ensures
        r@.no_duplicates(),
        forall|a: u64| #[trigger] r@.contains(a) <==> (registry@.dom().contains(a) && is_btc_info(
            registry@[a],
        )),
{
    addresses_matching(registry, false)
}

/// Whether the vector holds this address.
fn vec_contains(v: &Vec<u64>, x: u64) -> (r: bool)
    ensures
        r == v@.contains(x),
{
    let n = v.len();
    let mut i: usize = 0;
    while i < n
        invariant
            n == v@.len(),
            i <= n,
            forall|k: int| 0 <= k < i ==> v@[k] != x,
        decreases n - i,
    {
        if v[i] == x {
            return true;
        }
        i += 1;
    }
    proof {
        if v@.contains(x) {
            let k = choose|k: int| 0 <= k < v@.len() && v@[k] == x;
            assert(v@[k] != x);
        }
    }
    false
}

/// Collect the elements of `from` that `other` lacks, in order.
#[verifier::loop_isolation(false)]
fn difference(from: &Vec<u64>, other: &Vec<u64>) -> (r: Vec<u64>)
    requires
        from@.no_duplicates(),
    ensures
        r@.no_duplicates(),
        forall|a: u64| #[trigger] r@.contains(a) <==> (from@.contains(a) && !other@.contains(a)),
{
    let ghost pred = |a: u64| !other@.contains(a);
    proof {
        assert(from@.take(0).filter(pred) =~= Seq::<u64>::empty());
    }
    let n = from.len();
    let mut r: Vec<u64> = Vec::new();
    let mut i: usize = 0;
    while i < n
        invariant
            n == from@.len(),
            i <= n,
            r@ == from@.take(i as int).filter(pred),
        decreases n - i,
    {
        let x = from[i];
        let keep = !vec_contains(other, x);
        proof {
            assert(keep == pred(x));
        }
        if keep {
            r.push(x);
        }
        i += 1;
        proof {
            assert(from@.take(i as int) =~= from@.take(i as int - 1).push(x));
            from@.take(i as int - 1).lemma_filter_push(x, pred);
        }
    }
    proof {
        assert(from@.take(n as int) =~= from@);
        lemma_filter_no_duplicates(from@, pred);
        lemma_filter_membership(from@, pred);
    }
    r
}

/// When the generation advances, a watcher compares the addresses it is
/// subscribed to with the registry's current address set: the first result
/// lists the subscriptions to drop, the second the addresses to subscribe
/// to afresh.
pub fn subscription_changes(subscribed: &Vec<u64>, current: &Vec<u64>) -> (r: (Vec<u64>, Vec<u64>))
    requires
        subscribed@.no_duplicates(),
        current@.no_duplicates(),
    ensures
        r.0@.no_duplicates(),
        r.1@.no_duplicates(),
        forall|a: u64| #[trigger] r.0@.contains(a) <==> (subscribed@.contains(a)
            && !current@.contains(a)),
        forall|a: u64| #[trigger] r.1@.contains(a) <==> (current@.contains(a)
            && !subscribed@.contains(a)),
{
    let removed = difference(subscribed, current);
    let added = difference(current, subscribed);
    (removed, added)
}

/// What the Classic battery poller reports for one registry record, given
/// the battery value the Plug-and-Play read returned for it: a changed
/// value yields an update for that address, an unchanged or missing value
/// yields nothing.
pub open spec fn classic_battery_change(info: BluetoothInfo, reading: Option<u8>) -> Option<
    (u64, u8),
> {
    match reading {
        Some(battery) => if battery != info.battery {
            Some((info.address, battery))
        } else {
            None
        },
        None => None,
    }
}

/// Diff one polled battery reading against the registry record it belongs
/// to.
pub fn classic_battery_update(info: &BluetoothInfo, reading: Option<u8>) -> (r: Option<(u64, u8)>)
    ensures
        r == classic_battery_change(*info, reading),
{
    match reading {
        Some(battery) => if battery != info.battery {
            Some((info.address, battery))
        } else {
            None
        },
        None => None,
    }
}

/// How many enumeration attempts a polling cycle makes before the cycle is
/// abandoned until the next scheduled interval.
pub const ENUMERATION_MAX_ATTEMPTS: u8 = 2;

/// Retry bookkeeping for one enumeration cycle: a failed Plug-and-Play
/// enumeration is retried, after a short delay, up to a fixed bound; the
/// bound exhausted, the cycle is abandoned (never the whole subsystem).
pub struct EnumerationRetry {
    attempts_made: u8,
    max_attempts: u8,
}

impl EnumerationRetry {
    pub closed spec fn attempts_made(&self) -> u8 {
        self.attempts_made
    }

    pub closed spec fn max_attempts(&self) -> u8 {
        self.max_attempts
    }

    /// A fresh cycle that will tolerate `max_attempts` failed attempts.
    pub fn new(max_attempts: u8) -> (r: Self)
        ensures
            r.attempts_made() == 0,
            r.max_attempts() == max_attempts,
    {
        EnumerationRetry { attempts_made: 0, max_attempts }
    }

    /// Record one failed attempt; the result says whether another attempt
    /// is allowed or the cycle must be abandoned.
    pub fn record_failure(&mut self) -> (retry_again: bool)
        requires
            old(self).attempts_made() < u8::MAX,
        ensures
            final(self).attempts_made() == old(self).attempts_made() + 1,
            final(self).max_attempts() == old(self).max_attempts(),
            retry_again == (old(self).attempts_made() + 1 < old(self).max_attempts()),
    {
        self.attempts_made = self.attempts_made + 1;
        self.attempts_made < self.max_attempts
    }
}

} // verus!
