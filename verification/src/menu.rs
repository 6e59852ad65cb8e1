//! Identifiers for the tray menu's entries. The menu itself is drawn by the
//! UI layer; the library only defines which logical entries exist, so that
//! configuration updates can name them.

use vstd::prelude::*;

verus! {

/// Groups of menu entries that are checked or unchecked together.
#[derive(Debug, Clone, PartialEq, Eq, Hash)]
pub enum MenuGroup {
    CheckBoxNotify,
    CheckBoxTrayTooltip,
    RadioDevice,
    RadioLowBattery,
    RadioTrayIconStyle,
}

/// One logical entry of the tray menu.
#[derive(Debug, Clone, PartialEq, Eq)]
pub enum UserMenuItem {
    Quit,
    Restart,
    Startup,
    Refresh,
    BluetoothDeviceAddress(u64),
    OpenConfig,
    ShowLowestBatteryDevice,
    SetIconConnectColor,
    TrayIconStyleHorizontalBatteryIcon,
    TrayIconStyleVerticalBatteryIcon,
    TrayIconStyleNumber,
    TrayIconStyleRing,
    TrayTooltipShowDisconnected,
    TrayTooltipTruncateName,
    TrayTooltipPrefixBattery,
    NotifyLowBattery(u8),
    NotifyDeviceChangeDisconnection,
    NotifyDeviceChangeReconnection,
    NotifyDeviceChangeAdded,
    NotifyDeviceChangeRemoved,
    NotifyDeviceStayOnScreen,
}

} // verus!
