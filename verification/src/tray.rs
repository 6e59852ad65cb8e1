//! The tray tooltip's content: one text line per device, built from the
//! registry and the configuration. Drawing the tray itself is the UI
//! layer's business; what each line says is decided — and proved — here.

use crate::bluetooth::BluetoothInfo;
use crate::config::{alias_lookup, Config};
use crate::registry::DeviceRegistry;
use vstd::prelude::*;

verus! {

/// The character for one decimal digit.
pub open spec fn dec_digit_char(d: nat) -> char {
    if d == 0 {
        '0'
    } else if d == 1 {
        '1'
    } else if d == 2 {
        '2'
    } else if d == 3 {
        '3'
    } else if d == 4 {
        '4'
    } else if d == 5 {
        '5'
    } else if d == 6 {
        '6'
    } else if d == 7 {
        '7'
    } else if d == 8 {
        '8'
    } else {
        '9'
    }
}

/// The decimal rendering of a number, most significant digit first,
/// without leading zeroes.
pub open spec fn dec_rep(n: nat) -> Seq<char>
    decreases n,
{
    if n < 10 {
        seq![dec_digit_char(n)]
    } else {
        dec_rep(n / 10).push(dec_digit_char(n % 10))
    }
}

/// The rendering right-aligned in a three-character column, padded with
/// spaces: the battery column of the battery-first tooltip layout.
pub open spec fn dec_rep_padded(n: nat) -> Seq<char> {
    if n < 10 {
        seq![' ', ' '] + dec_rep(n)
    } else if n < 100 {
        seq![' '] + dec_rep(n)
    } else {
        dec_rep(n)
    }
}

/// The text for one decimal digit.
fn dec_digit_str(d: u8) -> (r: &'static str)
    requires
        d < 10,
    ensures
        r@ == seq![dec_digit_char(d as nat)],
{
    proof {
        reveal_strlit("0");
        reveal_strlit("1");
        reveal_strlit("2");
        reveal_strlit("3");
        reveal_strlit("4");
        reveal_strlit("5");
        reveal_strlit("6");
        reveal_strlit("7");
        reveal_strlit("8");
        reveal_strlit("9");
    }
    let r = if d == 0 {
        "0"
    } else if d == 1 {
        "1"
    } else if d == 2 {
        "2"
    } else if d == 3 {
        "3"
    } else if d == 4 {
        "4"
    } else if d == 5 {
        "5"
    } else if d == 6 {
        "6"
    } else if d == 7 {
        "7"
    } else if d == 8 {
        "8"
    } else {
        "9"
    };
    proof {
        assert(r@ =~= seq![dec_digit_char(d as nat)]);
    }
    r
}

/// Render a battery value as decimal text.
pub fn battery_text(battery: u8) -> (s: String)
    ensures
        s@ == dec_rep(battery as nat),
{
    if battery < 10 {
        let s = String::from_str(dec_digit_str(battery));
        proof {
            assert(s@ =~= dec_rep(battery as nat));
        }
        s
    } else if battery < 100 {
        let mut s = String::from_str(dec_digit_str(battery / 10));
        s.append(dec_digit_str(battery % 10));
        proof {
            assert(dec_rep(battery as nat) == dec_rep((battery / 10) as nat).push(
                dec_digit_char((battery % 10) as nat),
            ));
            assert(dec_rep((battery / 10) as nat) == seq![dec_digit_char((battery / 10) as nat)]);
            assert(s@ =~= dec_rep(battery as nat));
        }
        s
    } else {
        let high = battery / 10;
        let mut s = String::from_str(dec_digit_str(high / 10));
        s.append(dec_digit_str(high % 10));
        s.append(dec_digit_str(battery % 10));
        proof {
            assert(dec_rep(battery as nat) == dec_rep(high as nat).push(
                dec_digit_char((battery % 10) as nat),
            ));
            assert(dec_rep(high as nat) == dec_rep((high / 10) as nat).push(
                dec_digit_char((high % 10) as nat),
            ));
            assert(dec_rep((high / 10) as nat) == seq![dec_digit_char((high / 10) as nat)]);
            assert(s@ =~= dec_rep(battery as nat));
        }
        s
    }
}

/// Render a battery value right-aligned in a three-character column.
pub fn battery_text_padded(battery: u8) -> (s: String)
    ensures
        s@ == dec_rep_padded(battery as nat),
{
    proof {
        reveal_strlit(" ");
        reveal_strlit("  ");
    }
    let digits = battery_text(battery);
    let mut s = if battery < 10 {
        String::from_str("  ")
    } else if battery < 100 {
        String::from_str(" ")
    } else {
        String::new()
    };
    s.append(digits.as_str());
    proof {
        assert(s@ =~= dec_rep_padded(battery as nat));
    }
    s
}

/// Shorten a device name to `max_chars` characters with a trailing
/// ellipsis, when truncation is on and the name is longer than that.
pub fn truncate_with_ellipsis(truncate_device_name: bool, name: String, max_chars: usize) -> (r:
    String)
    ensures
        r@ == (if truncate_device_name && name@.len() > max_chars {
            name@.subrange(0, max_chars as int) + "..."@
        } else {
            name@
        }),
{
    if truncate_device_name {
        let len = name.as_str().unicode_len();
        if len > max_chars {
            let mut truncated = name.as_str().substring_char(0, max_chars).to_owned();
            truncated.append("...");
            return truncated;
        }
    }
    name
}

/// How many characters of a device name the tooltip shows before
/// truncating.
pub const TOOLTIP_NAME_MAX_CHARS: usize = 10;

/// Whether a device appears in the tooltip: connected devices always,
/// disconnected ones only when configured.
pub open spec fn included_in_tooltip(info: BluetoothInfo, config: Config) -> bool {
    info.status || config.tray_options.tooltip_options.show_disconnected
}

/// The display name after aliasing and optional truncation.
pub open spec fn tooltip_name(info: BluetoothInfo, config: Config) -> Seq<char> {
    let aliased = alias_lookup(config.device_aliases@, info.name@);
    if config.tray_options.tooltip_options.truncate_name && aliased.len()
        > TOOLTIP_NAME_MAX_CHARS {
        aliased.subrange(0, TOOLTIP_NAME_MAX_CHARS as int) + "..."@
    } else {
        aliased
    }
}

/// One tooltip line: a status lamp, then either the battery column
/// followed by the name or the name followed by the battery, as
/// configured.
pub open spec fn tray_line(info: BluetoothInfo, config: Config) -> Seq<char> {
    let icon = if info.status {
        "\u{1F7E2}"@
    } else {
        "\u{1F534}"@
    };
    if config.tray_options.tooltip_options.prefix_battery {
        icon + dec_rep_padded(info.battery as nat) + "% - "@ + tooltip_name(info, config)
    } else {
        icon + tooltip_name(info, config) + " - "@ + dec_rep(info.battery as nat) + "%"@
    }
}

/// The tooltip lines for a sequence of records: one line per included
/// device, in order.
pub open spec fn tray_lines(devices: Seq<BluetoothInfo>, config: Config) -> Seq<Seq<char>>
    decreases devices.len(),
{
    if devices.len() == 0 {
        Seq::empty()
    } else {
        let init = tray_lines(devices.drop_last(), config);
        if included_in_tooltip(devices.last(), config) {
            init.push(tray_line(devices.last(), config))
        } else {
            init
        }
    }
}

/// Build the tooltip's lines from the registry, exactly as `tray_lines`
/// describes: every connected device (and, when configured, every
/// disconnected one), each rendered by `tray_line`, in registry order.
#[verifier::loop_isolation(false)]
pub fn convert_tray_info(registry: &DeviceRegistry, config: &Config) -> (r: Vec<String>)
    requires
        registry.wf(),
    ensures
        r@.map_values(|s: String| s@) == tray_lines(registry.device_seq(), *config),
{
    let ghost devices = registry.device_seq();
    proof {
        registry.lemma_addr_seq();
        assert(devices.take(0) =~= Seq::<BluetoothInfo>::empty());
    }
    let n = registry.len();
    proof {
        assert(devices.len() == registry.addr_seq().len());
        assert(devices.len() == n);
    }
    let mut r: Vec<String> = Vec::new();
    let mut i: usize = 0;
    proof {
        assert(r@.map_values(|s: String| s@) =~= tray_lines(devices.take(0), *config));
    }
    while i < n
        invariant
            i <= n,
            r@.map_values(|s: String| s@) == tray_lines(devices.take(i as int), *config),
        decreases n - i,
    {
        let address = registry.address_at(i);
        let ghost lines_before = r@.map_values(|s: String| s@);
        proof {
            assert(registry.addr_seq()[i as int] == address);
            assert(registry.addr_seq().contains(address));
            assert(registry@.dom().contains(address));
            assert(devices[i as int] == registry@[address]);
        }
        match registry.get(address) {
            Some(info) => {
                let shown = info.status || config.get_show_disconnected();
                if shown {
                    let mut line = if info.status {
                        String::from_str("\u{1F7E2}")
                    } else {
                        String::from_str("\u{1F534}")
                    };
                    let aliased = config.get_device_aliases_name(&info.name);
                    let name = truncate_with_ellipsis(
                        config.get_truncate_name(),
                        aliased,
                        TOOLTIP_NAME_MAX_CHARS,
                    );
                    if config.get_prefix_battery() {
                        let column = battery_text_padded(info.battery);
                        line.append(column.as_str());
                        line.append("% - ");
                        line.append(name.as_str());
                    } else {
                        line.append(name.as_str());
                        line.append(" - ");
                        let digits = battery_text(info.battery);
                        line.append(digits.as_str());
                        line.append("%");
                    }
                    proof {
                        assert(line@ =~= tray_line(devices[i as int], *config));
                    }
                    r.push(line);
                    proof {
                        assert(r@.map_values(|s: String| s@) =~= lines_before.push(line@));
                    }
                }
            },
            None => {
                proof {
                    assert(false);
                }
            },
        }
        i += 1;
        proof {
            assert(devices.take(i as int).drop_last() =~= devices.take(i as int - 1));
            assert(devices.take(i as int).last() == devices[i as int - 1]);
            assert(r@.map_values(|s: String| s@) =~= tray_lines(devices.take(i as int), *config));
        }
    }
    proof {
        assert(devices.take(n as int) =~= devices);
    }
    r
}

/// The device the tray icon follows when it is set to show the lowest
/// battery: among the connected devices, one with the smallest battery
/// value (the earliest in registry order), as address and battery — or
/// nothing when no device is connected.
#[verifier::loop_isolation(false)]
pub fn lowest_battery_connected(registry: &DeviceRegistry) -> (r: Option<(u64, u8)>)
    requires
        registry.wf(),
    ensures
        (r is None) <==> (forall|a: u64| registry@.dom().contains(a)
            ==> !(#[trigger] registry@[a]).status),
        (match r {
            Some(p) => {
                &&& registry@.dom().contains(p.0)
                &&& registry@[p.0].status
                &&& registry@[p.0].battery == p.1
                &&& forall|a: u64|
                    registry@.dom().contains(a) && (#[trigger] registry@[a]).status ==> p.1
                        <= registry@[a].battery
            },
            None => true,
        }),
{
    let ghost addr_seq = registry.addr_seq();
    proof {
        registry.lemma_addr_seq();
    }
    let n = registry.len();
    let mut best: Option<(u64, u8)> = None;
    let mut i: usize = 0;
    while i < n
        invariant
            i <= n,
            (best is None) ==> forall|k: int| 0 <= k < i ==> !registry@[#[trigger] addr_seq[k]].status,
            (match best {
                Some(p) => {
                    &&& registry@.dom().contains(p.0)
                    &&& registry@[p.0].status
                    &&& registry@[p.0].battery == p.1
                    &&& forall|k: int|
                        0 <= k < i && registry@[#[trigger] addr_seq[k]].status ==> p.1
                            <= registry@[addr_seq[k]].battery
                },
                None => true,
            }),
        decreases n - i,
    {
        let address = registry.address_at(i);
        proof {
            assert(addr_seq[i as int] == address);
            assert(addr_seq.contains(address));
        }
        match registry.get(address) {
            Some(info) => {
                if info.status {
                    let replace = match best {
                        Some((_, battery)) => info.battery < battery,
                        None => true,
                    };
                    if replace {
                        best = Some((address, info.battery));
                    }
                }
            },
            None => {
                proof {
                    assert(false);
                }
            },
        }
        i += 1;
    }
    proof {
        match best {
            Some(p) => {
                assert forall|a: u64|
                    registry@.dom().contains(a) && (#[trigger] registry@[a]).status implies p.1
                    <= registry@[a].battery by {
                    assert(addr_seq.contains(a));
                    let k = choose|k: int| 0 <= k < addr_seq.len() && addr_seq[k] == a;
                    assert(registry@[addr_seq[k]].status);
                }
            },
            None => {
                assert forall|a: u64| registry@.dom().contains(a) implies !(
                #[trigger] registry@[a]).status by {
                    assert(addr_seq.contains(a));
                    let k = choose|k: int| 0 <= k < addr_seq.len() && addr_seq[k] == a;
                    assert(!registry@[addr_seq[k]].status);
                }
            },
        }
    }
    best
}

} // verus!
