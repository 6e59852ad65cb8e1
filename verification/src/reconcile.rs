//! The reconciliation loop's state and transitions: the single serialized
//! point where raw watcher events are merged into the device registry.
//!
//! Battery readings run through the per-address debounce filter; connection
//! status changes commit directly; presence events insert or remove whole
//! records and advance the restart generation. Each transition is a pure
//! function of the current state and the event, stated as a spec function
//! and implemented by a method whose contract says the implementation is
//! exactly that function.

use crate::bluetooth::BluetoothInfo;
use crate::debounce::{committed, spec_evaluate, DebounceConfig, DebounceState, Decision};
use crate::notify::NotifyEvent;
use crate::registry::{registry_valid, DeviceRegistry};
use crate::watch::RestartCoordinator;
use vstd::hash_map::HashMapWithView;
use vstd::prelude::*;

verus! {

/// A raw event from one of the watchers, as it arrives on the event
/// channel.
#[derive(Debug, Clone, PartialEq, Eq)]
pub enum BluetoothUpdate {
    BatteryLevel(u64, u8),
    ConnectionStatus(u64, bool),
}

/// A presence event, after the watcher resolved it: an added device comes
/// with its full record if resolution succeeded (and with nothing if it
/// failed), a removed device with its address.
#[derive(Debug, Clone, PartialEq, Eq)]
pub enum PresenceEvent {
    Added(Option<BluetoothInfo>),
    Removed(u64),
}

/// What one battery reading did to the state.
#[derive(Debug, Clone, Copy, PartialEq, Eq)]
pub enum BatteryEffect {
    /// The address is not in the registry: the reading is dropped.
    Ignored,
    /// First reading for this address: committed immediately, debounce
    /// state created.
    FirstReading(u8),
    /// The debounce filter committed this value.
    Committed(u8),
    /// The debounce filter held the reading back.
    Held,
}

/// The signals a transition raises toward the UI layer: whether the tray
/// must re-render, and at most one notification-worthy event.
#[derive(Debug, Clone, PartialEq, Eq)]
pub struct ReconcileOutcome {
    pub update_tray: bool,
    pub notify: Option<NotifyEvent>,
}

/// The registry record with its battery replaced.
pub open spec fn with_battery(info: BluetoothInfo, battery: u8) -> BluetoothInfo {
    BluetoothInfo { battery, ..info }
}

/// The registry record with its connection status replaced.
pub open spec fn with_status(info: BluetoothInfo, status: bool) -> BluetoothInfo {
    BluetoothInfo { status, ..info }
}

/// The transition for one battery reading: nothing for an unknown address;
/// an immediate commit plus fresh debounce state for a first reading; and
/// otherwise whatever the debounce filter decides.
pub open spec fn spec_apply_battery(
    reg: Map<u64, BluetoothInfo>,
    deb: Map<u64, DebounceState>,
    address: u64,
    value: u8,
    now: u64,
    cfg: DebounceConfig,
) -> (Map<u64, BluetoothInfo>, Map<u64, DebounceState>, BatteryEffect) {
    if !reg.dom().contains(address) {
        (reg, deb, BatteryEffect::Ignored)
    } else if !deb.dom().contains(address) {
        (
            reg.insert(address, with_battery(reg[address], value)),
            deb.insert(address, committed(value, now)),
            BatteryEffect::FirstReading(value),
        )
    } else {
        let step = spec_evaluate(deb[address], value, now, cfg);
        match step.1 {
            Decision::Commit(v) => (
                reg.insert(address, with_battery(reg[address], v)),
                deb.insert(address, step.0),
                BatteryEffect::Committed(v),
            ),
            Decision::Hold => (reg, deb.insert(address, step.0), BatteryEffect::Held),
        }
    }
}

/// The transition for one connection-status event: a change for a present
/// address commits directly (status bypasses the debounce filter), all else
/// is a no-op. The second component says whether something changed.
pub open spec fn spec_apply_status(reg: Map<u64, BluetoothInfo>, address: u64, status: bool) -> (
    Map<u64, BluetoothInfo>,
    bool,
) {
    if reg.dom().contains(address) && reg[address].status != status {
        (reg.insert(address, with_status(reg[address], status)), true)
    } else {
        (reg, false)
    }
}

/// The transition for a resolved presence-added event: a record whose
/// resolution failed is dropped; an address already tracked is a no-op; a
/// new address is inserted. The second component says whether the registry
/// grew (and the generation must advance).
pub open spec fn spec_presence_added(
    reg: Map<u64, BluetoothInfo>,
    resolution: Option<BluetoothInfo>,
) -> (Map<u64, BluetoothInfo>, bool) {
    match resolution {
        Some(info) => if reg.dom().contains(info.address) {
            (reg, false)
        } else {
            (reg.insert(info.address, info), true)
        },
        None => (reg, false),
    }
}

/// The transition for a presence-removed event: a present address loses its
/// registry entry and its debounce state in the same step; an absent
/// address is a no-op. The third component says whether something was
/// removed (and the generation must advance).
pub open spec fn spec_presence_removed(
    reg: Map<u64, BluetoothInfo>,
    deb: Map<u64, DebounceState>,
    address: u64,
) -> (Map<u64, BluetoothInfo>, Map<u64, DebounceState>, bool) {
    if reg.dom().contains(address) {
        (reg.remove(address), deb.remove(address), true)
    } else {
        (reg, deb, false)
    }
}

/// The display name used when a removed device's record carries an empty
/// name.
pub open spec fn removal_display_name(name: Seq<char>) -> Seq<char> {
    if name.len() == 0 {
        "Unknown name"@
    } else {
        name
    }
}

/// The reconciliation state: the device registry and the per-address
/// debounce states for the battery channel.
pub struct Reconciler {
    pub registry: DeviceRegistry,
    pub debounce: HashMapWithView<u64, DebounceState>,
}

impl Reconciler {
    /// The per-address debounce states.
    pub open spec fn debounce_map(&self) -> Map<u64, DebounceState> {
        self.debounce@
    }

    /// Well-formedness: the registry is well-formed, and debounce state
    /// exists only for addresses the registry holds.
    pub open spec fn wf(&self) -> bool {
        &&& self.registry.wf()
        &&& forall|a: u64| #[trigger] self.debounce_map().dom().contains(a)
            ==> self.registry@.dom().contains(a)
    }

    /// No stored debounce timestamp lies in the future of `now`. The
    /// caller's clock is monotonic, so the property carries from one event
    /// to the next.
    pub open spec fn time_ok(&self, now: u64) -> bool {
        forall|a: u64| #[trigger] self.debounce_map().dom().contains(a)
            ==> self.debounce_map()[a].time_ok(now)
    }

    /// An empty reconciliation state.
    pub fn new() -> (r: Self)
        ensures
            r.wf(),
            r.registry@ == Map::<u64, BluetoothInfo>::empty(),
            r.debounce_map() == Map::<u64, DebounceState>::empty(),
            forall|t: u64| r.time_ok(t),
    {
        Reconciler { registry: DeviceRegistry::new(), debounce: HashMapWithView::new() }
    }

    /// Seed the registry with a record found by the startup scan; no
    /// debounce state or generation change is involved.
    pub fn seed(&mut self, info: BluetoothInfo)
        requires
            old(self).wf(),
        ensures
            final(self).wf(),
            final(self).registry@ == old(self).registry@.insert(info.address, info),
            final(self).debounce_map() == old(self).debounce_map(),
            forall|t: u64| old(self).time_ok(t) ==> final(self).time_ok(t),
            registry_valid(old(self).registry@) && info.valid() ==> registry_valid(
                final(self).registry@,
            ),
    {
        self.registry.insert(info);
        proof {
            assert forall|a: u64| #[trigger] self.debounce@.dom().contains(a) implies self.registry@.dom().contains(
                a,
            ) by {
                assert(old(self).debounce_map().dom().contains(a));
                assert(old(self).registry@.dom().contains(a));
            }
            if registry_valid(old(self).registry@) && info.valid() {
                assert forall|a: u64| #[trigger] self.registry@.dom().contains(
                    a,
                ) implies self.registry@[a].valid() by {
                    if a != info.address {
                        assert(old(self).registry@.dom().contains(a));
                    }
                }
            }
            assert forall|t: u64| old(self).time_ok(t) implies self.time_ok(t) by {
                assert forall|a: u64| #[trigger] self.debounce@.dom().contains(
                    a,
                ) implies self.debounce@[a].time_ok(t) by {
                    assert(old(self).debounce_map().dom().contains(a));
                }
            }
        }
    }

    /// Merge one battery reading, exactly as `spec_apply_battery`
    /// describes. The outcome asks for a tray refresh whenever the registry
    /// changed, and carries a low-battery event for every committed value
    /// of an already-debounced address (the delivery decision, with its
    /// hysteresis, is `NotifyEvent::evaluate`'s business).
    pub fn apply_battery(
        &mut self,
        address: u64,
        value: u8,
        now: u64,
        cfg: &DebounceConfig,
    ) -> (outcome: ReconcileOutcome)
        requires
            old(self).wf(),
            old(self).time_ok(now),
        ensures
            final(self).wf(),
            final(self).time_ok(now),
            ({
                let step = spec_apply_battery(
                    old(self).registry@,
                    old(self).debounce_map(),
                    address,
                    value,
                    now,
                    *cfg,
                );
                &&& final(self).registry@ == step.0
                &&& final(self).debounce_map() == step.1
                &&& outcome.update_tray == ((step.2 matches BatteryEffect::FirstReading(_)) || (
                step.2 matches BatteryEffect::Committed(_)))
                &&& outcome.notify == (match step.2 {
                    BatteryEffect::Committed(v) => Some(
                        NotifyEvent::LowBattery(old(self).registry@[address].name, v, address),
                    ),
                    _ => None::<NotifyEvent>,
                })
            }),
            final(self).registry.addr_seq() == old(self).registry.addr_seq(),
            registry_valid(old(self).registry@) && value <= 100 ==> registry_valid(
                final(self).registry@,
            ),
    {
        let present = self.registry.contains(address);
        if !present {
            return ReconcileOutcome { update_tray: false, notify: None };
        }
        let existing = self.debounce.contains_key(&address);
        if !existing {
            self.registry.set_battery(address, value);
            self.debounce.insert(address, DebounceState::fresh(value, now));
            proof {
                assert forall|a: u64| #[trigger] self.debounce@.dom().contains(a) implies self.debounce@[a].time_ok(
                    now,
                ) by {
                    if a != address {
                        assert(old(self).debounce_map().dom().contains(a));
                    }
                }
            }
            ReconcileOutcome { update_tray: true, notify: None }
        } else {
            let taken = self.debounce.remove(&address);
            let mut state = match taken {
                Some(state) => state,
                None => {
                    proof {
                        assert(false);
                    }
                    DebounceState::fresh(value, now)
                },
            };
            let decision = state.evaluate(value, now, cfg);
            self.debounce.insert(address, state);
            proof {
                assert(self.debounce@ =~= old(self).debounce_map().insert(address, state));
                assert forall|a: u64| #[trigger] self.debounce@.dom().contains(a) implies self.debounce@[a].time_ok(
                    now,
                ) by {
                    if a != address {
                        assert(old(self).debounce_map().dom().contains(a));
                    }
                }
            }
            match decision {
                Decision::Commit(v) => {
                    let name = match self.registry.get(address) {
                        Some(info) => info.name.clone(),
                        None => {
                            proof {
                                assert(false);
                            }
                            String::new()
                        },
                    };
                    self.registry.set_battery(address, v);
                    ReconcileOutcome {
                        update_tray: true,
                        notify: Some(NotifyEvent::LowBattery(name, v, address)),
                    }
                },
                Decision::Hold => ReconcileOutcome { update_tray: false, notify: None },
            }
        }
    }

    /// Merge one connection-status event, exactly as `spec_apply_status`
    /// describes: a change commits immediately and raises a reconnect or
    /// disconnect event; anything else changes nothing.
    pub fn apply_status(&mut self, address: u64, status: bool) -> (outcome: ReconcileOutcome)
        requires
            old(self).wf(),
        ensures
            final(self).wf(),
            final(self).debounce_map() == old(self).debounce_map(),
            forall|t: u64| old(self).time_ok(t) ==> final(self).time_ok(t),
            ({
                let step = spec_apply_status(old(self).registry@, address, status);
                &&& final(self).registry@ == step.0
                &&& outcome.update_tray == step.1
                &&& outcome.notify == (if step.1 {
                    if status {
                        Some(NotifyEvent::Reconnect(old(self).registry@[address].name))
                    } else {
                        Some(NotifyEvent::Disconnect(old(self).registry@[address].name))
                    }
                } else {
                    None::<NotifyEvent>
                })
            }),
            final(self).registry.addr_seq() == old(self).registry.addr_seq(),
            registry_valid(old(self).registry@) ==> registry_valid(final(self).registry@),
    {
        let changed = match self.registry.get(address) {
            Some(info) => info.status != status,
            None => false,
        };
        if changed {
            let name = match self.registry.get(address) {
                Some(info) => info.name.clone(),
                None => {
                    proof {
                        assert(false);
                    }
                    String::new()
                },
            };
            self.registry.set_status(address, status);
            proof {
                assert forall|a: u64| #[trigger] self.debounce@.dom().contains(a) implies self.registry@.dom().contains(
                    a,
                ) by {
                    assert(old(self).debounce_map().dom().contains(a));
                    assert(old(self).registry@.dom().contains(a));
                }
            }
            let event = if status {
                NotifyEvent::Reconnect(name)
            } else {
                NotifyEvent::Disconnect(name)
            };
            ReconcileOutcome { update_tray: true, notify: Some(event) }
        } else {
            ReconcileOutcome { update_tray: false, notify: None }
        }
    }

    /// Merge a resolved presence-added event, exactly as
    /// `spec_presence_added` describes. A fresh insert bumps the
    /// generation, asks for a tray refresh and raises an added event; a
    /// failed resolution or an already-tracked address changes nothing —
    /// in particular, a failed resolution never bumps the generation and
    /// never inserts a half-populated record.
    pub fn apply_presence_added(
        &mut self,
        coordinator: &mut RestartCoordinator,
        resolution: Option<BluetoothInfo>,
    ) -> (outcome: ReconcileOutcome)
        requires
            old(self).wf(),
            old(coordinator).generation() < u64::MAX,
        ensures
            final(self).wf(),
            final(self).debounce_map() == old(self).debounce_map(),
            forall|t: u64| old(self).time_ok(t) ==> final(self).time_ok(t),
            ({
                let step = spec_presence_added(old(self).registry@, resolution);
                &&& final(self).registry@ == step.0
                &&& final(coordinator).generation() == old(coordinator).generation() + (if step.1 {
                    1int
                } else {
                    0int
                })
                &&& outcome.update_tray == step.1
                &&& outcome.notify == (if step.1 {
                    Some(NotifyEvent::Added(resolution.unwrap().name))
                } else {
                    None::<NotifyEvent>
                })
            }),
            registry_valid(old(self).registry@) && (match resolution {
                Some(info) => info.valid(),
                None => true,
            }) ==> registry_valid(final(self).registry@),
    {
        match resolution {
            Some(info) => {
                if self.registry.contains(info.address) {
                    ReconcileOutcome { update_tray: false, notify: None }
                } else {
                    let name = info.name.clone();
                    self.registry.insert(info);
                    coordinator.bump();
                    proof {
                        assert forall|a: u64| #[trigger] self.debounce@.dom().contains(
                            a,
                        ) implies self.registry@.dom().contains(a) by {
                            assert(old(self).debounce_map().dom().contains(a));
                            assert(old(self).registry@.dom().contains(a));
                        }
                    }
                    ReconcileOutcome {
                        update_tray: true,
                        notify: Some(NotifyEvent::Added(name)),
                    }
                }
            },
            None => ReconcileOutcome { update_tray: false, notify: None },
        }
    }

    /// Merge a presence-removed event, exactly as `spec_presence_removed`
    /// describes. Removing a tracked address drops its registry entry and
    /// its debounce state in the same step, bumps the generation, asks for
    /// a tray refresh and raises a removed event (naming the device, or
    /// "Unknown name" for a record with an empty name); an unknown address
    /// changes nothing.
    pub fn apply_presence_removed(
        &mut self,
        coordinator: &mut RestartCoordinator,
        address: u64,
    ) -> (outcome: ReconcileOutcome)
        requires
            old(self).wf(),
            old(coordinator).generation() < u64::MAX,
        ensures
            final(self).wf(),
            forall|t: u64| old(self).time_ok(t) ==> final(self).time_ok(t),
            ({
                let step = spec_presence_removed(
                    old(self).registry@,
                    old(self).debounce_map(),
                    address,
                );
                &&& final(self).registry@ == step.0
                &&& final(self).debounce_map() == step.1
                &&& final(coordinator).generation() == old(coordinator).generation() + (if step.2 {
                    1int
                } else {
                    0int
                })
                &&& outcome.update_tray == step.2
                &&& (if step.2 {
                    outcome.notify matches Some(NotifyEvent::Removed(n)) && n@
                        == removal_display_name(old(self).registry@[address].name@)
                } else {
                    outcome.notify is None
                })
            }),
            !final(self).registry@.dom().contains(address),
            !final(self).debounce_map().dom().contains(address),
            registry_valid(old(self).registry@) ==> registry_valid(final(self).registry@),
    {
        let removed = self.registry.remove(address);
        match removed {
            Some(info) => {
                self.debounce.remove(&address);
                coordinator.bump();
                proof {
                    assert forall|a: u64| #[trigger] self.debounce@.dom().contains(
                        a,
                    ) implies self.registry@.dom().contains(a) by {
                        assert(a != address);
                        assert(old(self).debounce_map().dom().contains(a));
                        assert(old(self).registry@.dom().contains(a));
                    }
                    assert forall|t: u64| old(self).time_ok(t) implies self.time_ok(t) by {
                        assert forall|a: u64| #[trigger] self.debounce@.dom().contains(
                            a,
                        ) implies self.debounce@[a].time_ok(t) by {
                            assert(old(self).debounce_map().dom().contains(a));
                        }
                    }
                }
                let name = if info.name.as_str().is_empty() {
                    String::from_str("Unknown name")
                } else {
                    info.name
                };
                proof {
                    assert(name@ == removal_display_name(old(self).registry@[address].name@));
                }
                ReconcileOutcome { update_tray: true, notify: Some(NotifyEvent::Removed(name)) }
            },
            None => {
                proof {
                    assert(self.debounce@ =~= old(self).debounce_map().remove(address));
                }
                ReconcileOutcome { update_tray: false, notify: None }
            },
        }
    }

    /// Exclude a device whose notification subscription cannot be
    /// established: its record and debounce state are dropped together, as
    /// on removal, but the generation is left alone — the device
    /// population did not change, one member of it merely proved
    /// unmonitorable and must not be retried indefinitely.
    pub fn exclude_unmonitorable(&mut self, address: u64)
        requires
            old(self).wf(),
        ensures
            final(self).wf(),
            final(self).registry@ == old(self).registry@.remove(address),
            final(self).debounce_map() == old(self).debounce_map().remove(address),
            forall|t: u64| old(self).time_ok(t) ==> final(self).time_ok(t),
            registry_valid(old(self).registry@) ==> registry_valid(final(self).registry@),
    {
        self.registry.remove(address);
        self.debounce.remove(&address);
        proof {
            assert forall|a: u64| #[trigger] self.debounce@.dom().contains(
                a,
            ) implies self.registry@.dom().contains(a) by {
                assert(a != address);
                assert(old(self).debounce_map().dom().contains(a));
                assert(old(self).registry@.dom().contains(a));
            }
            assert forall|t: u64| old(self).time_ok(t) implies self.time_ok(t) by {
                assert forall|a: u64| #[trigger] self.debounce@.dom().contains(
                    a,
                ) implies self.debounce@[a].time_ok(t) by {
                    assert(old(self).debounce_map().dom().contains(a));
                }
            }
        }
    }

    /// Merge one raw watcher event: a battery reading goes through
    /// `apply_battery`, a connection-status change through `apply_status`,
    /// with the matching contract.
    pub fn apply_update(
        &mut self,
        update: BluetoothUpdate,
        now: u64,
        cfg: &DebounceConfig,
    ) -> (outcome: ReconcileOutcome)
        requires
            old(self).wf(),
            old(self).time_ok(now),
        ensures
            final(self).wf(),
            final(self).time_ok(now),
            final(self).registry.addr_seq() == old(self).registry.addr_seq(),
            (match update {
                BluetoothUpdate::BatteryLevel(address, value) => {
                    let step = spec_apply_battery(
                        old(self).registry@,
                        old(self).debounce_map(),
                        address,
                        value,
                        now,
                        *cfg,
                    );
                    &&& final(self).registry@ == step.0
                    &&& final(self).debounce_map() == step.1
                    &&& outcome.update_tray == ((step.2 matches BatteryEffect::FirstReading(_))
                        || (step.2 matches BatteryEffect::Committed(_)))
                    &&& outcome.notify == (match step.2 {
                        BatteryEffect::Committed(v) => Some(
                            NotifyEvent::LowBattery(old(self).registry@[address].name, v, address),
                        ),
                        _ => None::<NotifyEvent>,
                    })
                },
                BluetoothUpdate::ConnectionStatus(address, status) => {
                    let step = spec_apply_status(old(self).registry@, address, status);
                    &&& final(self).registry@ == step.0
                    &&& final(self).debounce_map() == old(self).debounce_map()
                    &&& outcome.update_tray == step.1
                    &&& outcome.notify == (if step.1 {
                        if status {
                            Some(NotifyEvent::Reconnect(old(self).registry@[address].name))
                        } else {
                            Some(NotifyEvent::Disconnect(old(self).registry@[address].name))
                        }
                    } else {
                        None::<NotifyEvent>
                    })
                },
            }),
    {
        match update {
            BluetoothUpdate::BatteryLevel(address, value) => self.apply_battery(
                address,
                value,
                now,
                cfg,
            ),
            BluetoothUpdate::ConnectionStatus(address, status) => {
                let outcome = self.apply_status(address, status);
                proof {
                    assert(final(self).time_ok(now));
                }
                outcome
            },
        }
    }
}

/// Law (atomic removal, no stale commit): after a presence removal the
/// address is gone from the registry and from the debounce states together,
/// and any later battery reading for that address is ignored: it changes no
/// state and commits nothing.
pub proof fn lemma_removed_address_gets_no_commit(
    reg: Map<u64, BluetoothInfo>,
    deb: Map<u64, DebounceState>,
    address: u64,
    value: u8,
    now: u64,
    cfg: DebounceConfig,
)
    requires
        reg.dom().contains(address),
    ensures
        ({
            let removed = spec_presence_removed(reg, deb, address);
            &&& !removed.0.dom().contains(address)
            &&& !removed.1.dom().contains(address)
            &&& spec_apply_battery(removed.0, removed.1, address, value, now, cfg) == (
            removed.0,
            removed.1,
            BatteryEffect::Ignored,
            )
        }),
{
}

/// Whether a presence event takes effect on this registry: an added device
/// resolves to a record for a fresh address, a removed device names a
/// tracked address.
pub open spec fn presence_effective(reg: Map<u64, BluetoothInfo>, event: PresenceEvent) -> bool {
    match event {
        PresenceEvent::Added(resolution) => match resolution {
            Some(info) => !reg.dom().contains(info.address),
            None => false,
        },
        PresenceEvent::Removed(address) => reg.dom().contains(address),
    }
}

/// The registry after a presence event, and whether the generation is
/// bumped.
pub open spec fn spec_presence_step(reg: Map<u64, BluetoothInfo>, event: PresenceEvent) -> (
    Map<u64, BluetoothInfo>,
    bool,
) {
    match event {
        PresenceEvent::Added(resolution) => spec_presence_added(reg, resolution),
        PresenceEvent::Removed(address) => if reg.dom().contains(address) {
            (reg.remove(address), true)
        } else {
            (reg, false)
        },
    }
}

/// The registry after a sequence of presence events, and how many of them
/// bumped the generation.
pub open spec fn spec_presence_run(reg: Map<u64, BluetoothInfo>, events: Seq<PresenceEvent>) -> (
    Map<u64, BluetoothInfo>,
    nat,
)
    decreases events.len(),
{
    if events.len() == 0 {
        (reg, 0)
    } else {
        let step = spec_presence_step(reg, events[0]);
        let rest = spec_presence_run(step.0, events.drop_first());
        (rest.0, (if step.1 {
            1nat
        } else {
            0nat
        }) + rest.1)
    }
}

/// Every event of the sequence takes effect on the registry as it stands
/// when the event arrives.
pub open spec fn presence_all_effective(
    reg: Map<u64, BluetoothInfo>,
    events: Seq<PresenceEvent>,
) -> bool
    decreases events.len(),
{
    if events.len() == 0 {
        true
    } else {
        presence_effective(reg, events[0]) && presence_all_effective(
            spec_presence_step(reg, events[0]).0,
            events.drop_first(),
        )
    }
}

/// Law (the generation counts presence events): a sequence of N presence
/// events that all take effect bumps the generation exactly N times — so a
/// coordinator that starts at zero stands at N afterwards; and no sequence
/// ever bumps it more than once per event.
pub proof fn lemma_generation_counts_presence_events(
    reg: Map<u64, BluetoothInfo>,
    events: Seq<PresenceEvent>,
)
    ensures
        spec_presence_run(reg, events).1 <= events.len(),
        presence_all_effective(reg, events) ==> spec_presence_run(reg, events).1 == events.len(),
    decreases events.len(),
{
    if events.len() > 0 {
        let step = spec_presence_step(reg, events[0]);
        lemma_generation_counts_presence_events(step.0, events.drop_first());
    }
}

} // verus!
