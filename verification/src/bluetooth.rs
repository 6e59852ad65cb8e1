//! The device model: what the monitor knows about one paired Bluetooth
//! peripheral.

use vstd::prelude::*;

verus! {

/// The kind of a paired Bluetooth device. A Classic device carries the
/// operating system's Plug-and-Play instance identifier, which is needed to
/// re-read its battery property; a Low-Energy device needs no auxiliary
/// identifier because its battery is read over GATT.
#[derive(Clone, Debug, PartialEq, Eq, Hash)]
pub enum BluetoothType {
    Classic(String),
    LowEnergy,
}

impl Default for BluetoothType {
    fn default() -> (r: Self)
        ensures
            r == BluetoothType::LowEnergy,
    {
        BluetoothType::LowEnergy
    }
}

/// The registry's record for one device: display name, last committed
/// battery percentage, connection status, 64-bit Bluetooth address (the
/// primary key everywhere) and the device kind. A record is valid when the
/// battery is a percentage.
#[derive(Clone, Debug, PartialEq, Eq, Hash)]
pub struct BluetoothInfo {
    pub name: String,
    pub battery: u8,
    pub status: bool,
    pub address: u64,
    pub kind: BluetoothType,
}

impl BluetoothInfo {
    /// The record's invariant: `battery` is a percentage.
    pub open spec fn valid(&self) -> bool {
        self.battery <= 100
    }

    /// The Plug-and-Play instance identifier, for a Classic device.
    pub fn get_btc_instance_id(&self) -> (r: Option<String>)
        ensures
            match self.kind {
                BluetoothType::Classic(id) => r == Some(id),
                BluetoothType::LowEnergy => r is None,
            },
    {
        if let BluetoothType::Classic(id) = &self.kind {
            Some(id.clone())
        } else {
            None
        }
    }

    /// Whether this is a Classic device.
    pub fn is_btc(&self) -> (r: bool)
        ensures
            r == (self.kind matches BluetoothType::Classic(_)),
    {
        matches!(self.kind, BluetoothType::Classic(_))
    }

    /// Whether this is a Low-Energy device.
    pub fn is_ble(&self) -> (r: bool)
        ensures
            r == (self.kind matches BluetoothType::LowEnergy),
    {
        matches!(self.kind, BluetoothType::LowEnergy)
    }
}

/// Why a full device scan yields no registry at all.
#[derive(Debug, Clone, Copy, PartialEq, Eq, Structural)]
pub enum ScanError {
    /// Neither a Classic nor a Low-Energy device is paired.
    NoDevicesFound,
    /// Devices of both kinds are paired, but both information queries
    /// failed.
    AllQueriesFailed,
}

/// How the two scan halves combine, as `merge_scan_results` returns it.
pub open spec fn spec_merge_scan_results(
    btc_present: bool,
    ble_present: bool,
    btc_info: Option<Seq<BluetoothInfo>>,
    ble_info: Option<Seq<BluetoothInfo>>,
) -> Result<Seq<BluetoothInfo>, ScanError> {
    if !btc_present && !ble_present {
        Err(ScanError::NoDevicesFound)
    } else if !btc_present {
        match ble_info {
            Some(ble) => Ok(ble),
            None => Ok(Seq::empty()),
        }
    } else if !ble_present {
        match btc_info {
            Some(btc) => Ok(btc),
            None => Ok(Seq::empty()),
        }
    } else {
        match (btc_info, ble_info) {
            (Some(btc), Some(ble)) => Ok(btc + ble),
            (Some(btc), None) => Ok(btc),
            (None, Some(ble)) => Ok(ble),
            (None, None) => Err(ScanError::AllQueriesFailed),
        }
    }
}

/// Combine the two halves of a device scan. `btc_present` and
/// `ble_present` say whether any device of that kind is paired at all;
/// the two `Option`s carry the records each information query returned,
/// with `None` for a failed query. No device of either kind is an error;
/// with only one kind present a failed query degrades to an empty result;
/// with both kinds present one failed query loses that kind only, and
/// only both failing is an error.
pub fn merge_scan_results(
    btc_present: bool,
    ble_present: bool,
    btc_info: Option<Vec<BluetoothInfo>>,
    ble_info: Option<Vec<BluetoothInfo>>,
) -> (r: Result<Vec<BluetoothInfo>, ScanError>)
    ensures
        (match r {
            Ok(devices) => Ok(devices@),
            Err(e) => Err(e),
        }) == spec_merge_scan_results(
            btc_present,
            ble_present,
            (match btc_info {
                Some(v) => Some(v@),
                None => None,
            }),
            (match ble_info {
                Some(v) => Some(v@),
                None => None,
            }),
        ),
{
    if !btc_present && !ble_present {
        Err(ScanError::NoDevicesFound)
    } else if !btc_present {
        match ble_info {
            Some(ble) => Ok(ble),
            None => Ok(Vec::new()),
        }
    } else if !ble_present {
        match btc_info {
            Some(btc) => Ok(btc),
            None => Ok(Vec::new()),
        }
    } else {
        match (btc_info, ble_info) {
            (Some(mut btc), Some(mut ble)) => {
                btc.append(&mut ble);
                Ok(btc)
            },
            (Some(btc), None) => Ok(btc),
            (None, Some(ble)) => Ok(ble),
            (None, None) => Err(ScanError::AllQueriesFailed),
        }
    }
}

impl Default for BluetoothInfo {
    fn default() -> (r: Self)
        ensures
            r.name@ == Seq::<char>::empty(),
            r.battery == 0,
            r.status == false,
            r.address == 0,
            r.kind == BluetoothType::LowEnergy,
    {
        BluetoothInfo {
            name: String::new(),
            battery: 0,
            status: false,
            address: 0,
            kind: BluetoothType::LowEnergy,
        }
    }
}

} // verus!
