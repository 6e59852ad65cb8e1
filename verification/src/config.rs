//! The monitor's configuration: notification switches, the low-battery
//! threshold, tooltip options, the tray icon style and device name aliases.
//!
//! Reading and writing the configuration file is the application's
//! business; the library works on the plain values.

use crate::menu::UserMenuItem;
use vstd::prelude::*;

verus! {

/// How icon colours are chosen.
#[derive(Debug, Clone, PartialEq, Eq)]
pub enum ColorScheme {
    ConnectColor,
    Custom,
    FollowSystemTheme,
}

impl Default for ColorScheme {
    fn default() -> (r: Self)
        ensures
            r == ColorScheme::FollowSystemTheme,
    {
        ColorScheme::FollowSystemTheme
    }
}

impl ColorScheme {
    pub fn is_connect_color(&self) -> (r: bool)
        ensures
            r == (*self matches ColorScheme::ConnectColor),
    {
        matches!(self, ColorScheme::ConnectColor)
    }

    pub fn is_custom(&self) -> (r: bool)
        ensures
            r == (*self matches ColorScheme::Custom),
    {
        matches!(self, ColorScheme::Custom)
    }

    pub fn set_custom(&mut self)
        ensures
            *final(self) == ColorScheme::Custom,
    {
        *self = ColorScheme::Custom;
    }

    pub fn set_follow_system_theme(&mut self)
        ensures
            *final(self) == ColorScheme::FollowSystemTheme,
    {
        *self = ColorScheme::FollowSystemTheme;
    }
}

/// What the tray icon shows: the application logo, a custom image, or a
/// battery rendering (icon, number or ring) for one chosen device address.
#[derive(Debug, Clone, PartialEq, Eq)]
pub enum TrayIconStyle {
    App,
    BatteryCustom { address: u64 },
    BatteryIcon { color_scheme: ColorScheme, address: u64, font_size: Option<u8> },
    BatteryNumber {
        color_scheme: ColorScheme,
        address: u64,
        font_name: String,
        font_color: Option<String>,
        font_size: Option<u8>,
    },
    BatteryRing {
        color_scheme: ColorScheme,
        address: u64,
        highlight_color: Option<String>,
        background_color: Option<String>,
    },
}

/// The device address a style points at, if it points at one.
pub open spec fn style_address(s: TrayIconStyle) -> Option<u64> {
    match s {
        TrayIconStyle::App => None,
        TrayIconStyle::BatteryCustom { address } => Some(address),
        TrayIconStyle::BatteryIcon { address, .. } => Some(address),
        TrayIconStyle::BatteryNumber { address, .. } => Some(address),
        TrayIconStyle::BatteryRing { address, .. } => Some(address),
    }
}

/// The style with its device address replaced; the logo style carries no
/// address and stays as it is.
pub open spec fn style_with_address(s: TrayIconStyle, new_address: u64) -> TrayIconStyle {
    match s {
        TrayIconStyle::App => TrayIconStyle::App,
        TrayIconStyle::BatteryCustom { .. } => TrayIconStyle::BatteryCustom {
            address: new_address,
        },
        TrayIconStyle::BatteryIcon { color_scheme, font_size, .. } => TrayIconStyle::BatteryIcon {
            color_scheme,
            address: new_address,
            font_size,
        },
        TrayIconStyle::BatteryNumber {
            color_scheme,
            font_name,
            font_color,
            font_size,
            ..
        } => TrayIconStyle::BatteryNumber {
            color_scheme,
            address: new_address,
            font_name,
            font_color,
            font_size,
        },
        TrayIconStyle::BatteryRing { color_scheme, highlight_color, background_color, .. } => TrayIconStyle::BatteryRing {
            color_scheme,
            address: new_address,
            highlight_color,
            background_color,
        },
    }
}

/// The style with its colour scheme set to the connect-status colouring or
/// back to following the system theme; styles without a colour scheme stay
/// as they are.
pub open spec fn style_with_connect_color(s: TrayIconStyle, should_set: bool) -> TrayIconStyle {
    let scheme = if should_set {
        ColorScheme::ConnectColor
    } else {
        ColorScheme::FollowSystemTheme
    };
    match s {
        TrayIconStyle::App => s,
        TrayIconStyle::BatteryCustom { .. } => s,
        TrayIconStyle::BatteryIcon { address, font_size, .. } => TrayIconStyle::BatteryIcon {
            color_scheme: scheme,
            address,
            font_size,
        },
        TrayIconStyle::BatteryNumber {
            address,
            font_name,
            font_color,
            font_size,
            ..
        } => TrayIconStyle::BatteryNumber {
            color_scheme: scheme,
            address,
            font_name,
            font_color,
            font_size,
        },
        TrayIconStyle::BatteryRing { address, highlight_color, background_color, .. } => TrayIconStyle::BatteryRing {
            color_scheme: scheme,
            address,
            highlight_color,
            background_color,
        },
    }
}

impl TrayIconStyle {
    /// Point the style at another device address.
    pub fn update_address(&mut self, new_address: u64)
        ensures
            *final(self) == style_with_address(*old(self), new_address),
    {
        match self {
            TrayIconStyle::App => (),
            TrayIconStyle::BatteryCustom { address } => {
                *address = new_address;
            },
            TrayIconStyle::BatteryIcon { address, .. } => {
                *address = new_address;
            },
            TrayIconStyle::BatteryNumber { address, .. } => {
                *address = new_address;
            },
            TrayIconStyle::BatteryRing { address, .. } => {
                *address = new_address;
            },
        }
    }

    /// The device address the style points at.
    pub fn get_address(&self) -> (r: Option<u64>)
        ensures
            r == style_address(*self),
    {
        match self {
            TrayIconStyle::App => None,
            TrayIconStyle::BatteryCustom { address } => Some(*address),
            TrayIconStyle::BatteryIcon { address, .. } => Some(*address),
            TrayIconStyle::BatteryNumber { address, .. } => Some(*address),
            TrayIconStyle::BatteryRing { address, .. } => Some(*address),
        }
    }

    /// Switch the colour scheme between connect-status colouring and
    /// following the system theme.
    pub fn set_connect_color(&mut self, should_set: bool)
        ensures
            *final(self) == style_with_connect_color(*old(self), should_set),
    {
        match self {
            TrayIconStyle::BatteryIcon { color_scheme, .. } => {
                if should_set {
                    *color_scheme = ColorScheme::ConnectColor;
                } else {
                    *color_scheme = ColorScheme::FollowSystemTheme;
                }
            },
            TrayIconStyle::BatteryNumber { color_scheme, .. } => {
                if should_set {
                    *color_scheme = ColorScheme::ConnectColor;
                } else {
                    *color_scheme = ColorScheme::FollowSystemTheme;
                }
            },
            TrayIconStyle::BatteryRing { color_scheme, .. } => {
                if should_set {
                    *color_scheme = ColorScheme::ConnectColor;
                } else {
                    *color_scheme = ColorScheme::FollowSystemTheme;
                }
            },
            _ => (),
        }
    }
}

/// The style after the post-load fixup, as `normalize_loaded` applies it.
/// With custom icon files present, any style that points at a device
/// becomes the custom-image style for that address. Without them, the
/// number and ring styles reconcile their colour scheme with their colour
/// fields: a valid custom colour forces the custom scheme, and a custom
/// scheme without a valid colour falls back to following the system theme.
pub open spec fn style_normalized(
    s: TrayIconStyle,
    have_custom_icons: bool,
    has_valid_custom_color: bool,
) -> TrayIconStyle {
    if have_custom_icons {
        match style_address(s) {
            Some(address) => TrayIconStyle::BatteryCustom { address },
            None => s,
        }
    } else {
        match s {
            TrayIconStyle::BatteryNumber { color_scheme, .. } => if has_valid_custom_color {
                style_with_scheme(s, ColorScheme::Custom)
            } else if (color_scheme matches ColorScheme::Custom) {
                style_with_scheme(s, ColorScheme::FollowSystemTheme)
            } else {
                s
            },
            TrayIconStyle::BatteryRing { color_scheme, .. } => if has_valid_custom_color {
                style_with_scheme(s, ColorScheme::Custom)
            } else if (color_scheme matches ColorScheme::Custom) {
                style_with_scheme(s, ColorScheme::FollowSystemTheme)
            } else {
                s
            },
            _ => s,
        }
    }
}

/// The style with its colour scheme replaced; styles without one stay as
/// they are.
pub open spec fn style_with_scheme(s: TrayIconStyle, scheme: ColorScheme) -> TrayIconStyle {
    match s {
        TrayIconStyle::App => s,
        TrayIconStyle::BatteryCustom { .. } => s,
        TrayIconStyle::BatteryIcon { address, font_size, .. } => TrayIconStyle::BatteryIcon {
            color_scheme: scheme,
            address,
            font_size,
        },
        TrayIconStyle::BatteryNumber {
            address,
            font_name,
            font_color,
            font_size,
            ..
        } => TrayIconStyle::BatteryNumber {
            color_scheme: scheme,
            address,
            font_name,
            font_color,
            font_size,
        },
        TrayIconStyle::BatteryRing { address, highlight_color, background_color, .. } => TrayIconStyle::BatteryRing {
            color_scheme: scheme,
            address,
            highlight_color,
            background_color,
        },
    }
}

impl TrayIconStyle {
    /// Reconcile a freshly loaded style with what is on disk, exactly as
    /// `style_normalized` describes. `have_custom_icons` says whether a
    /// complete set of custom battery icon files exists beside the
    /// program; `has_valid_custom_color` whether the style's own custom
    /// colour fields hold a colour that parses. Both facts come from the
    /// caller, which owns the file system and the colour parser.
    pub fn normalize_loaded(&mut self, have_custom_icons: bool, has_valid_custom_color: bool)
        ensures
            *final(self) == style_normalized(
                *old(self),
                have_custom_icons,
                has_valid_custom_color,
            ),
    {
        if have_custom_icons {
            match self.get_address() {
                Some(address) => {
                    *self = TrayIconStyle::BatteryCustom { address };
                },
                None => (),
            }
            return ;
        }
        match self {
            TrayIconStyle::BatteryNumber { color_scheme, .. } => {
                if has_valid_custom_color {
                    color_scheme.set_custom();
                } else if color_scheme.is_custom() {
                    color_scheme.set_follow_system_theme();
                }
            },
            TrayIconStyle::BatteryRing { color_scheme, .. } => {
                if has_valid_custom_color {
                    color_scheme.set_custom();
                } else if color_scheme.is_custom() {
                    color_scheme.set_follow_system_theme();
                }
            },
            _ => (),
        }
    }
}

/// Which user-facing notifications are enabled, and the low-battery
/// threshold percentage.
#[derive(Debug, Clone, PartialEq, Eq)]
pub struct NotifyOptions {
    pub low_battery: u8,
    pub disconnection: bool,
    pub reconnection: bool,
    pub added: bool,
    pub removed: bool,
    pub stay_on_screen: bool,
}

impl Default for NotifyOptions {
    /// The defaults: a 15 percent threshold, every switch off.
    fn default() -> (r: Self)
        ensures
            r == (NotifyOptions {
                low_battery: 15u8,
                disconnection: false,
                reconnection: false,
                added: false,
                removed: false,
                stay_on_screen: false,
            }),
    {
        NotifyOptions {
            low_battery: 15,
            disconnection: false,
            reconnection: false,
            added: false,
            removed: false,
            stay_on_screen: false,
        }
    }
}

/// The notification options with the switch named by the menu entry set to
/// `check`; entries that name no notification switch change nothing.
pub open spec fn notify_options_updated(
    o: NotifyOptions,
    item: UserMenuItem,
    check: bool,
) -> NotifyOptions {
    match item {
        UserMenuItem::NotifyDeviceChangeDisconnection => NotifyOptions {
            disconnection: check,
            ..o
        },
        UserMenuItem::NotifyDeviceChangeReconnection => NotifyOptions { reconnection: check, ..o },
        UserMenuItem::NotifyDeviceChangeAdded => NotifyOptions { added: check, ..o },
        UserMenuItem::NotifyDeviceChangeRemoved => NotifyOptions { removed: check, ..o },
        UserMenuItem::NotifyDeviceStayOnScreen => NotifyOptions { stay_on_screen: check, ..o },
        _ => o,
    }
}

impl NotifyOptions {
    /// Apply a checked or unchecked menu entry to the matching switch.
    pub fn update(&mut self, item: &UserMenuItem, check: bool)
        ensures
            *final(self) == notify_options_updated(*old(self), *item, check),
    {
        match item {
            UserMenuItem::NotifyDeviceChangeDisconnection => {
                self.disconnection = check;
            },
            UserMenuItem::NotifyDeviceChangeReconnection => {
                self.reconnection = check;
            },
            UserMenuItem::NotifyDeviceChangeAdded => {
                self.added = check;
            },
            UserMenuItem::NotifyDeviceChangeRemoved => {
                self.removed = check;
            },
            UserMenuItem::NotifyDeviceStayOnScreen => {
                self.stay_on_screen = check;
            },
            _ => (),
        }
    }
}

/// What the tray tooltip shows for each device line.
#[derive(Debug, Clone, PartialEq, Eq, Structural)]
pub struct TooltipOptions {
    pub prefix_battery: bool,
    pub show_disconnected: bool,
    pub truncate_name: bool,
}

impl Default for TooltipOptions {
    fn default() -> (r: Self)
        ensures
            r == (TooltipOptions {
                prefix_battery: false,
                show_disconnected: false,
                truncate_name: false,
            }),
    {
        TooltipOptions { prefix_battery: false, show_disconnected: false, truncate_name: false }
    }
}

/// Tray appearance: the tooltip options and the icon style.
#[derive(Debug, Clone, PartialEq, Eq)]
pub struct TrayOptions {
    pub tooltip_options: TooltipOptions,
    pub tray_icon_style: TrayIconStyle,
}

impl Default for TrayOptions {
    fn default() -> (r: Self)
        ensures
            r.tooltip_options == (TooltipOptions {
                prefix_battery: false,
                show_disconnected: false,
                truncate_name: false,
            }),
            r.tray_icon_style == TrayIconStyle::App,
    {
        TrayOptions {
            tooltip_options: TooltipOptions::default(),
            tray_icon_style: TrayIconStyle::App,
        }
    }
}

/// The tooltip options with the switch named by the menu entry set to
/// `check`; entries that name no tooltip switch change nothing.
pub open spec fn tooltip_options_updated(
    o: TooltipOptions,
    item: UserMenuItem,
    check: bool,
) -> TooltipOptions {
    match item {
        UserMenuItem::TrayTooltipShowDisconnected => TooltipOptions {
            show_disconnected: check,
            ..o
        },
        UserMenuItem::TrayTooltipTruncateName => TooltipOptions { truncate_name: check, ..o },
        UserMenuItem::TrayTooltipPrefixBattery => TooltipOptions { prefix_battery: check, ..o },
        _ => o,
    }
}

impl TrayOptions {
    /// Apply a checked or unchecked menu entry to the matching tooltip
    /// switch.
    pub fn update(&mut self, item: &UserMenuItem, check: bool)
        ensures
            final(self).tooltip_options == tooltip_options_updated(
                old(self).tooltip_options,
                *item,
                check,
            ),
            final(self).tray_icon_style == old(self).tray_icon_style,
    {
        match item {
            UserMenuItem::TrayTooltipShowDisconnected => {
                self.tooltip_options.show_disconnected = check;
            },
            UserMenuItem::TrayTooltipTruncateName => {
                self.tooltip_options.truncate_name = check;
            },
            UserMenuItem::TrayTooltipPrefixBattery => {
                self.tooltip_options.prefix_battery = check;
            },
            _ => (),
        }
    }
}

/// The whole configuration: tray appearance, notification switches and the
/// device name aliases (pairs of device name and preferred display name).
#[derive(Debug, Clone, PartialEq, Eq)]
pub struct Config {
    pub tray_options: TrayOptions,
    pub notify_options: NotifyOptions,
    pub device_aliases: Vec<(String, String)>,
}

/// The display name for `name` under the aliases `pairs`: the replacement
/// of the first pair whose first component is `name`, or `name` itself when
/// no pair matches.
pub open spec fn alias_lookup(pairs: Seq<(String, String)>, name: Seq<char>) -> Seq<char>
    decreases pairs.len(),
{
    if pairs.len() == 0 {
        name
    } else if pairs[0].0@ == name {
        pairs[0].1@
    } else {
        alias_lookup(pairs.drop_first(), name)
    }
}

/// Skipping pairs that do not match leaves the lookup unchanged.
proof fn lemma_alias_lookup_skip(pairs: Seq<(String, String)>, name: Seq<char>, i: int)
    requires
        0 <= i <= pairs.len(),
        forall|k: int| 0 <= k < i ==> (#[trigger] pairs[k]).0@ != name,
    ensures
        alias_lookup(pairs, name) == alias_lookup(pairs.skip(i), name),
    decreases i,
{
    if i > 0 {
        assert(pairs[0].0@ != name);
        lemma_alias_lookup_skip(pairs.drop_first(), name, i - 1);
        assert(pairs.drop_first().skip(i - 1) =~= pairs.skip(i));
    } else {
        assert(pairs.skip(0) =~= pairs);
    }
}

impl Default for Config {
    /// The default configuration, with one example alias entry.
    fn default() -> (r: Self)
        ensures
            r.tray_options == (TrayOptions {
                tooltip_options: TooltipOptions {
                    prefix_battery: false,
                    show_disconnected: false,
                    truncate_name: false,
                },
                tray_icon_style: TrayIconStyle::App,
            }),
            r.notify_options == (NotifyOptions {
                low_battery: 15u8,
                disconnection: false,
                reconnection: false,
                added: false,
                removed: false,
                stay_on_screen: false,
            }),
            r.device_aliases@.len() == 1,
            r.device_aliases@[0].0@ == "e.g. WH-1000XM6"@,
            r.device_aliases@[0].1@ == "Sony Headphones"@,
    {
        let mut device_aliases: Vec<(String, String)> = Vec::new();
        device_aliases.push(
            (String::from_str("e.g. WH-1000XM6"), String::from_str("Sony Headphones")),
        );
        Config {
            tray_options: TrayOptions::default(),
            notify_options: NotifyOptions::default(),
            device_aliases,
        }
    }
}

impl Config {
    /// The display name for a device: its alias if one is configured, the
    /// device name itself otherwise.
    pub fn get_device_aliases_name(&self, device_name: &String) -> (r: String)
        ensures
            r@ == alias_lookup(self.device_aliases@, device_name@),
    {
        let n = self.device_aliases.len();
        let mut i: usize = 0;
        while i < n
            invariant
                n == self.device_aliases@.len(),
                i <= n,
                forall|k: int| 0 <= k < i ==> (#[trigger] self.device_aliases@[k]).0@
                    != device_name@,
            decreases n - i,
        {
            if self.device_aliases[i].0 == *device_name {
                proof {
                    lemma_alias_lookup_skip(self.device_aliases@, device_name@, i as int);
                }
                return self.device_aliases[i].1.clone();
            }
            i += 1;
        }
        proof {
            lemma_alias_lookup_skip(self.device_aliases@, device_name@, n as int);
        }
        device_name.clone()
    }

    pub fn get_stay_on_screen(&self) -> (r: bool)
        ensures
            r == self.notify_options.stay_on_screen,
    {
        self.notify_options.stay_on_screen
    }

    pub fn get_prefix_battery(&self) -> (r: bool)
        ensures
            r == self.tray_options.tooltip_options.prefix_battery,
    {
        self.tray_options.tooltip_options.prefix_battery
    }

    pub fn get_show_disconnected(&self) -> (r: bool)
        ensures
            r == self.tray_options.tooltip_options.show_disconnected,
    {
        self.tray_options.tooltip_options.show_disconnected
    }

    pub fn get_truncate_name(&self) -> (r: bool)
        ensures
            r == self.tray_options.tooltip_options.truncate_name,
    {
        self.tray_options.tooltip_options.truncate_name
    }

    pub fn get_low_battery(&self) -> (r: u8)
        ensures
            r == self.notify_options.low_battery,
    {
        self.notify_options.low_battery
    }

    pub fn get_disconnection(&self) -> (r: bool)
        ensures
            r == self.notify_options.disconnection,
    {
        self.notify_options.disconnection
    }

    pub fn get_reconnection(&self) -> (r: bool)
        ensures
            r == self.notify_options.reconnection,
    {
        self.notify_options.reconnection
    }

    pub fn get_added(&self) -> (r: bool)
        ensures
            r == self.notify_options.added,
    {
        self.notify_options.added
    }

    pub fn get_removed(&self) -> (r: bool)
        ensures
            r == self.notify_options.removed,
    {
        self.notify_options.removed
    }

    /// The device address the configured tray icon style points at.
    pub fn get_tray_battery_icon_bt_address(&self) -> (r: Option<u64>)
        ensures
            r == style_address(self.tray_options.tray_icon_style),
    {
        self.tray_options.tray_icon_style.get_address()
    }
}

} // verus!
