//! The device registry: the single source of truth mapping each Bluetooth
//! address to the current record for that device.
//!
//! The registry is one owned structure. Two roles mutate it, never
//! concurrently on the same address: the reconciliation loop commits
//! battery and status updates in place, and presence handling inserts new
//! addresses or removes departed ones.

use crate::bluetooth::BluetoothInfo;
use vstd::hash_map::HashMapWithView;
use vstd::prelude::*;

verus! {

/// Every record of the map is valid: its battery is a percentage.
pub open spec fn registry_valid(reg: Map<u64, BluetoothInfo>) -> bool {
    forall|a: u64| #[trigger] reg.dom().contains(a) ==> reg[a].valid()
}

/// Mapping from device address to device record, with a duplicate-free list
/// of the addresses for iteration.
pub struct DeviceRegistry {
    map: HashMapWithView<u64, BluetoothInfo>,
    addrs: Vec<u64>,
}

impl View for DeviceRegistry {
    type V = Map<u64, BluetoothInfo>;

    closed spec fn view(&self) -> Map<u64, BluetoothInfo> {
        self.map@
    }
}

impl DeviceRegistry {
    /// Well-formedness: the address list has no duplicates and lists
    /// exactly the map's keys. `new` establishes it and every method
    /// preserves it.
    pub closed spec fn wf(&self) -> bool {
        &&& self.addrs@.no_duplicates()
        &&& forall|a: u64| self.map@.dom().contains(a) <==> self.addrs@.contains(a)
    }

    /// The registry's addresses, in iteration order.
    pub closed spec fn addr_seq(&self) -> Seq<u64> {
        self.addrs@
    }

    /// The registry's records, in iteration order.
    pub open spec fn device_seq(&self) -> Seq<BluetoothInfo> {
        self.addr_seq().map(|i: int, a: u64| self@[a])
    }

    /// The address list has no duplicates and lists exactly the registry's
    /// keys.
    pub proof fn lemma_addr_seq(&self)
        requires
            self.wf(),
        ensures
            self.addr_seq().no_duplicates(),
            forall|a: u64| self@.dom().contains(a) <==> self.addr_seq().contains(a),
            self.addr_seq().len() == self@.dom().len(),
    {
        self.addrs@.unique_seq_to_set();
        assert(self.addrs@.to_set() =~= self@.dom());
    }

    /// An empty registry.
    pub fn new() -> (r: Self)
        ensures
            r.wf(),
            r@ == Map::<u64, BluetoothInfo>::empty(),
            r.addr_seq() == Seq::<u64>::empty(),
    {
        DeviceRegistry { map: HashMapWithView::new(), addrs: Vec::new() }
    }

    /// How many devices the registry holds.
    pub fn len(&self) -> (n: usize)
        requires
            self.wf(),
        ensures
            n == self.addr_seq().len(),
            n == self@.dom().len(),
    {
        proof {
            self.lemma_addr_seq();
        }
        self.addrs.len()
    }

    /// The address at position `i` of the iteration order.
    pub fn address_at(&self, i: usize) -> (a: u64)
        requires
            i < self.addr_seq().len(),
        ensures
            a == self.addr_seq()[i as int],
    {
        self.addrs[i]
    }

    /// Whether a device with this address is present.
    pub fn contains(&self, address: u64) -> (r: bool)
        ensures
            r == self@.dom().contains(address),
    {
        self.map.contains_key(&address)
    }

    /// The record for this address, if present.
    pub fn get(&self, address: u64) -> (r: Option<&BluetoothInfo>)
        ensures
            match r {
                Some(info) => self@.dom().contains(address) && *info == self@[address],
                None => !self@.dom().contains(address),
            },
    {
        self.map.get(&address)
    }

    /// Insert or replace the record stored under `info.address`.
    pub fn insert(&mut self, info: BluetoothInfo)
        requires
            old(self).wf(),
        ensures
            final(self).wf(),
            final(self)@ == old(self)@.insert(info.address, info),
            final(self).addr_seq() == if old(self)@.dom().contains(info.address) {
                old(self).addr_seq()
            } else {
                old(self).addr_seq().push(info.address)
            },
    {
        let address = info.address;
        if !self.map.contains_key(&address) {
            self.addrs.push(address);
            proof {
                assert forall|i: int, j: int|
                    0 <= i < self.addrs@.len() && 0 <= j < self.addrs@.len() && i != j implies self.addrs@[i]
                    != self.addrs@[j] by {
                    if i < self.addrs@.len() - 1 && j < self.addrs@.len() - 1 {
                        assert(old(self).addrs@.no_duplicates());
                    } else {
                        assert(!old(self).addrs@.contains(address));
                    }
                }
            }
        }
        self.map.insert(address, info);
        proof {
            assert forall|a: u64| self.map@.dom().contains(a) implies self.addrs@.contains(a) by {
                if a == address {
                    if !old(self)@.dom().contains(address) {
                        assert(self.addrs@[self.addrs@.len() - 1] == address);
                    } else {
                        assert(old(self).addrs@.contains(a));
                        let k = choose|k: int|
                            0 <= k < old(self).addrs@.len() && old(self).addrs@[k] == a;
                        assert(self.addrs@[k] == a);
                    }
                } else {
                    assert(old(self)@.dom().contains(a));
                    assert(old(self).addrs@.contains(a));
                    let k = choose|k: int|
                        0 <= k < old(self).addrs@.len() && old(self).addrs@[k] == a;
                    assert(self.addrs@[k] == a);
                }
            }
            assert forall|a: u64| self.addrs@.contains(a) implies self.map@.dom().contains(a) by {
                if a != address {
                    let k = choose|k: int| 0 <= k < self.addrs@.len() && self.addrs@[k] == a;
                    assert(old(self).addrs@[k] == a);
                    assert(old(self).addrs@.contains(a));
                }
            }
        }
    }

    /// Remove and return the record for this address, if present.
    pub fn remove(&mut self, address: u64) -> (r: Option<BluetoothInfo>)
        requires
            old(self).wf(),
        ensures
            final(self).wf(),
            final(self)@ == old(self)@.remove(address),
            r == if old(self)@.dom().contains(address) {
                Some(old(self)@[address])
            } else {
                None::<BluetoothInfo>
            },
            !final(self).addr_seq().contains(address),
    {
        let removed = self.map.remove(&address);
        if removed.is_some() {
            let ghost old_addrs = self.addrs@;
            let n = self.addrs.len();
            let mut i: usize = 0;
            loop
                invariant
                    n == self.addrs@.len(),
                    self.addrs@ == old_addrs,
                    old_addrs.contains(address),
                    i <= n,
                    forall|k: int| 0 <= k < i ==> old_addrs[k] != address,
                ensures
                    i < n,
                    old_addrs[i as int] == address,
                decreases n - i,
            {
                proof {
                    if i == n {
                        let witness = choose|k: int|
                            0 <= k < old_addrs.len() && old_addrs[k] == address;
                        assert(old_addrs[witness] != address);
                    }
                }
                if self.addrs[i] == address {
                    break ;
                }
                i += 1;
            }
            self.addrs.remove(i);
            proof {
                assert(old_addrs.no_duplicates());
                let trimmed = self.addrs@;
                assert(trimmed =~= old_addrs.subrange(0, i as int) + old_addrs.subrange(
                    i + 1,
                    old_addrs.len() as int,
                ));
                assert forall|k: int, l: int|
                    0 <= k < trimmed.len() && 0 <= l < trimmed.len() && k != l implies trimmed[k]
                    != trimmed[l] by {
                    let k0 = if k < i { k } else { k + 1 };
                    let l0 = if l < i { l } else { l + 1 };
                    assert(trimmed[k] == old_addrs[k0]);
                    assert(trimmed[l] == old_addrs[l0]);
                }
                assert forall|a: u64| self.map@.dom().contains(a) implies trimmed.contains(
                    a,
                ) by {
                    assert(old_addrs.contains(a));
                    let k0 = choose|k: int| 0 <= k < old_addrs.len() && old_addrs[k] == a;
                    assert(a != address);
                    assert(k0 != i);
                    let k = if k0 < i {
                        k0
                    } else {
                        k0 - 1
                    };
                    assert(trimmed[k] == a);
                }
                assert forall|a: u64| trimmed.contains(a) implies self.map@.dom().contains(
                    a,
                ) by {
                    let k = choose|k: int| 0 <= k < trimmed.len() && trimmed[k] == a;
                    let k0 = if k < i { k } else { k + 1 };
                    assert(trimmed[k] == old_addrs[k0]);
                    assert(0 <= k0 < old_addrs.len());
                    assert(old_addrs[i as int] == address);
                    if a == address {
                        assert(old_addrs[k0] == old_addrs[i as int]);
                        assert(k0 == i as int);
                        assert(false);
                    }
                    assert(old_addrs.contains(a));
                    assert(old(self).map@.dom().contains(a));
                }
            }
        } else {
            proof {
                assert(final(self)@ =~= old(self)@.remove(address));
                if self.addrs@.contains(address) {
                    assert(self.map@.dom().contains(address));
                }
            }
        }
        proof {
            assert(final(self)@ =~= old(self)@.remove(address));
        }
        removed
    }

    /// Commit a battery value for a present address, leaving every other
    /// field and every other record unchanged.
    pub fn set_battery(&mut self, address: u64, battery: u8)
        requires
            old(self).wf(),
            old(self)@.dom().contains(address),
        ensures
            final(self).wf(),
            final(self)@ == old(self)@.insert(
                address,
                BluetoothInfo { battery, ..old(self)@[address] },
            ),
            final(self).addr_seq() == old(self).addr_seq(),
    {
        let taken = self.map.remove(&address);
        match taken {
            Some(info) => {
                self.map.insert(address, BluetoothInfo { battery, ..info });
                proof {
                    assert(self.map@ =~= old(self)@.insert(
                        address,
                        BluetoothInfo { battery, ..old(self)@[address] },
                    ));
                }
            },
            None => {
                proof {
                    assert(false);
                }
            },
        }
    }

    /// Commit a connection status for a present address, leaving every
    /// other field and every other record unchanged.
    pub fn set_status(&mut self, address: u64, status: bool)
        requires
            old(self).wf(),
            old(self)@.dom().contains(address),
        ensures
            final(self).wf(),
            final(self)@ == old(self)@.insert(
                address,
                BluetoothInfo { status, ..old(self)@[address] },
            ),
            final(self).addr_seq() == old(self).addr_seq(),
    {
        let taken = self.map.remove(&address);
        match taken {
            Some(info) => {
                self.map.insert(address, BluetoothInfo { status, ..info });
                proof {
                    assert(self.map@ =~= old(self)@.insert(
                        address,
                        BluetoothInfo { status, ..old(self)@[address] },
                    ));
                }
            },
            None => {
                proof {
                    assert(false);
                }
            },
        }
    }
}

} // verus!
