use bluegauge::config::{ColorScheme, Config, NotifyOptions, TooltipOptions, TrayIconStyle, TrayOptions};
use bluegauge::menu::UserMenuItem;

#[test]
fn color_scheme_predicates_and_setters() {
    let mut scheme = ColorScheme::default();
    assert_eq!(scheme, ColorScheme::FollowSystemTheme);
    assert!(!scheme.is_connect_color());
    assert!(!scheme.is_custom());
    scheme.set_custom();
    assert!(scheme.is_custom());
    scheme.set_follow_system_theme();
    assert_eq!(scheme, ColorScheme::FollowSystemTheme);
    assert!(ColorScheme::ConnectColor.is_connect_color());
}

#[test]
fn icon_style_address_updates() {
    let mut style = TrayIconStyle::App;
    style.update_address(5);
    assert_eq!(style.get_address(), None);

    let mut style = TrayIconStyle::BatteryNumber {
        color_scheme: ColorScheme::FollowSystemTheme,
        address: 1,
        font_name: "Arial".to_string(),
        font_color: None,
        font_size: None,
    };
    assert_eq!(style.get_address(), Some(1));
    style.update_address(9);
    assert_eq!(style.get_address(), Some(9));

    let mut style = TrayIconStyle::BatteryRing {
        color_scheme: ColorScheme::FollowSystemTheme,
        address: 2,
        highlight_color: None,
        background_color: None,
    };
    style.update_address(3);
    assert_eq!(style.get_address(), Some(3));
}

#[test]
fn icon_style_connect_color_switch() {
    let mut style = TrayIconStyle::BatteryIcon {
        color_scheme: ColorScheme::FollowSystemTheme,
        address: 1,
        font_size: None,
    };
    style.set_connect_color(true);
    match &style {
        TrayIconStyle::BatteryIcon { color_scheme, .. } => {
            assert!(color_scheme.is_connect_color())
        }
        _ => panic!("the variant must be kept"),
    }
    style.set_connect_color(false);
    match &style {
        TrayIconStyle::BatteryIcon { color_scheme, .. } => {
            assert_eq!(*color_scheme, ColorScheme::FollowSystemTheme)
        }
        _ => panic!("the variant must be kept"),
    }
    // styles without a colour scheme are left alone
    let mut style = TrayIconStyle::BatteryCustom { address: 4 };
    style.set_connect_color(true);
    assert_eq!(style, TrayIconStyle::BatteryCustom { address: 4 });
}

#[test]
fn notify_options_update_by_menu_entry() {
    let mut options = NotifyOptions::default();
    assert_eq!(options.low_battery, 15);
    options.update(&UserMenuItem::NotifyDeviceChangeDisconnection, true);
    options.update(&UserMenuItem::NotifyDeviceChangeAdded, true);
    assert!(options.disconnection);
    assert!(options.added);
    assert!(!options.reconnection);
    // an unrelated entry changes nothing
    options.update(&UserMenuItem::Quit, true);
    assert!(!options.removed);
    options.update(&UserMenuItem::NotifyDeviceChangeDisconnection, false);
    assert!(!options.disconnection);
}

#[test]
fn tray_options_update_by_menu_entry() {
    let mut options = TrayOptions::default();
    options.update(&UserMenuItem::TrayTooltipPrefixBattery, true);
    options.update(&UserMenuItem::TrayTooltipTruncateName, true);
    assert!(options.tooltip_options.prefix_battery);
    assert!(options.tooltip_options.truncate_name);
    assert!(!options.tooltip_options.show_disconnected);
    assert_eq!(options.tray_icon_style, TrayIconStyle::App);
}

#[test]
fn config_getters_read_the_plain_fields() {
    let mut config = Config::default();
    assert_eq!(config.get_low_battery(), 15);
    assert!(!config.get_stay_on_screen());
    assert!(!config.get_prefix_battery());
    assert!(!config.get_show_disconnected());
    assert!(!config.get_truncate_name());
    assert!(!config.get_disconnection());
    assert!(!config.get_reconnection());
    assert!(!config.get_added());
    assert!(!config.get_removed());
    assert_eq!(config.get_tray_battery_icon_bt_address(), None);
    config.tray_options.tray_icon_style = TrayIconStyle::BatteryCustom { address: 77 };
    assert_eq!(config.get_tray_battery_icon_bt_address(), Some(77));
    config.notify_options = NotifyOptions { low_battery: 20, ..NotifyOptions::default() };
    assert_eq!(config.get_low_battery(), 20);
    let _ = TooltipOptions::default();
}

#[test]
fn device_aliases_replace_the_first_matching_name() {
    let mut config = Config::default();
    config.device_aliases = vec![
        ("WH-1000XM6".to_string(), "Sony Headphones".to_string()),
        ("WH-1000XM6".to_string(), "Shadowed".to_string()),
        ("Mouse".to_string(), "Desk Mouse".to_string()),
    ];
    assert_eq!(config.get_device_aliases_name(&"WH-1000XM6".to_string()), "Sony Headphones");
    assert_eq!(config.get_device_aliases_name(&"Mouse".to_string()), "Desk Mouse");
    assert_eq!(config.get_device_aliases_name(&"Keyboard".to_string()), "Keyboard");
}

#[test]
fn custom_icon_files_force_the_custom_image_style() {
    let mut style = TrayIconStyle::BatteryNumber {
        color_scheme: ColorScheme::FollowSystemTheme,
        address: 9,
        font_name: "Arial".to_string(),
        font_color: None,
        font_size: None,
    };
    style.normalize_loaded(true, false);
    assert_eq!(style, TrayIconStyle::BatteryCustom { address: 9 });
    // the logo style has no address to keep and stays as it is
    let mut style = TrayIconStyle::App;
    style.normalize_loaded(true, false);
    assert_eq!(style, TrayIconStyle::App);
}

#[test]
fn loaded_colour_schemes_are_reconciled_with_their_colours() {
    // a valid custom colour forces the custom scheme
    let mut style = TrayIconStyle::BatteryNumber {
        color_scheme: ColorScheme::FollowSystemTheme,
        address: 9,
        font_name: "Arial".to_string(),
        font_color: Some("#336699".to_string()),
        font_size: None,
    };
    style.normalize_loaded(false, true);
    match &style {
        TrayIconStyle::BatteryNumber { color_scheme, .. } => {
            assert_eq!(*color_scheme, ColorScheme::Custom)
        }
        _ => panic!("the variant must be kept"),
    }
    // a custom scheme without a valid colour falls back to the system theme
    let mut style = TrayIconStyle::BatteryRing {
        color_scheme: ColorScheme::Custom,
        address: 9,
        highlight_color: None,
        background_color: None,
    };
    style.normalize_loaded(false, false);
    match &style {
        TrayIconStyle::BatteryRing { color_scheme, .. } => {
            assert_eq!(*color_scheme, ColorScheme::FollowSystemTheme)
        }
        _ => panic!("the variant must be kept"),
    }
}
