//! BlueGauge: a verified core for a Bluetooth battery monitor.
//!
//! The library tracks the battery level and connection status of paired
//! Bluetooth peripherals (Classic and Low-Energy). Its centre is the
//! reconciliation subsystem: a device registry keyed by Bluetooth address,
//! a debounce filter that suppresses battery-reading flicker, a low-battery
//! notification state machine with hysteresis, and a restart coordinator
//! whose generation counter tells running watchers to resubscribe when the
//! device population changes. All state transitions are pure functions on
//! plain values with proved contracts; the operating-system side (Bluetooth
//! subscriptions, Plug-and-Play enumeration, tray rendering, toasts) lives
//! outside the library and feeds it events.

pub mod bluetooth;
pub mod config;
pub mod debounce;
pub mod menu;
pub mod notify;
pub mod pnp;
pub mod reconcile;
pub mod registry;
pub mod theme;
pub mod tray;
pub mod watch;
