//! Plug-and-Play battery records for Classic devices.
//!
//! Classic Bluetooth devices expose their battery only through the
//! operating system's Plug-and-Play device records. The enumeration itself
//! is the application's business; this module holds the logic on its
//! results: reading the battery and address properties out of each record,
//! parsing the address from its hexadecimal text, and the address
//! formatting the enumeration filter needs.

use crate::bluetooth::{BluetoothInfo, BluetoothType};
use vstd::arithmetic::div_mod::{lemma_fundamental_div_mod, lemma_mod_bound};
use vstd::hash_map::HashMapWithView;
use vstd::prelude::*;

verus! {

/// The battery value and instance identifier read from one record.
#[derive(Debug, Clone, PartialEq, Eq)]
pub struct PnpDeviceInfo {
    pub battery: u8,
    pub instance_id: String,
}

/// A device property value, as far as this logic reads them: a byte (the
/// battery) or a text (the address).
#[derive(Debug, Clone, PartialEq, Eq)]
pub enum PnpPropertyValue {
    Byte(u8),
    Text(String),
}

/// One enumerated Plug-and-Play record: the device instance identifier and
/// the two properties the battery logic reads, each absent when the record
/// lacks it.
#[derive(Debug, Clone, PartialEq, Eq)]
pub struct PnpDeviceRecord {
    pub device_instance_id: String,
    pub battery_property: Option<PnpPropertyValue>,
    pub address_property: Option<PnpPropertyValue>,
}

/// The value of one hexadecimal digit, upper or lower case.
pub open spec fn hex_digit_value(c: char) -> Option<u8> {
    let v = c as u32;
    if 48 <= v && v <= 57 {
        Some((v - 48) as u8)
    } else if 65 <= v && v <= 70 {
        Some((v - 55) as u8)
    } else if 97 <= v && v <= 102 {
        Some((v - 87) as u8)
    } else {
        None
    }
}

/// Every character is a hexadecimal digit.
pub open spec fn all_hex_digits(s: Seq<char>) -> bool {
    forall|i: int| 0 <= i < s.len() ==> (#[trigger] hex_digit_value(s[i])) is Some
}

/// The number the digit sequence denotes, most significant digit first
/// (characters that are no digits count as zero; `hex_value` rules them
/// out).
pub open spec fn hex_num(s: Seq<char>) -> nat
    decreases s.len(),
{
    if s.len() == 0 {
        0
    } else {
        hex_num(s.drop_last()) * 16 + (match hex_digit_value(s.last()) {
            Some(d) => d as nat,
            None => 0,
        })
    }
}

/// What parsing the text as a 64-bit hexadecimal number yields: the value,
/// or nothing for an empty text, a stray character or a number too large.
pub open spec fn hex_value(s: Seq<char>) -> Option<u64> {
    if s.len() > 0 && all_hex_digits(s) && hex_num(s) <= u64::MAX {
        Some(hex_num(s) as u64)
    } else {
        None
    }
}

/// The denoted number never shrinks as the digit sequence grows.
proof fn lemma_hex_num_prefix_le(s: Seq<char>, j: int, k: int)
    requires
        0 <= j <= k <= s.len(),
    ensures
        hex_num(s.take(j)) <= hex_num(s.take(k)),
    decreases k - j,
{
    if j < k {
        lemma_hex_num_prefix_le(s, j, k - 1);
        assert(s.take(k).drop_last() =~= s.take(k - 1));
        assert(hex_num(s.take(k)) >= hex_num(s.take(k - 1)));
    }
}

/// One hexadecimal digit's value, or nothing for any other character.
fn hex_digit(c: char) -> (r: Option<u8>)
    ensures
        r == hex_digit_value(c),
{
    let v = c as u32;
    if 48 <= v && v <= 57 {
        Some((v - 48) as u8)
    } else if 65 <= v && v <= 70 {
        Some((v - 55) as u8)
    } else if 97 <= v && v <= 102 {
        Some((v - 87) as u8)
    } else {
        None
    }
}

/// Parse a hexadecimal number from text, exactly as `hex_value` describes:
/// the whole text must be digits, the value must fit in 64 bits.
#[verifier::loop_isolation(false)]
pub fn parse_hex_u64(s: &str) -> (r: Option<u64>)
    ensures
        r == hex_value(s@),
{
    let len = s.unicode_len();
    if len == 0 {
        return None;
    }
    let mut acc: u64 = 0;
    let mut i: usize = 0;
    while i < len
        invariant
            i <= len,
            all_hex_digits(s@.take(i as int)),
            acc == hex_num(s@.take(i as int)),
        decreases len - i,
    {
        let c = s.get_char(i);
        match hex_digit(c) {
            None => {
                proof {
                    assert(hex_digit_value(s@[i as int]) is None);
                }
                return None;
            },
            Some(d) => {
                proof {
                    assert(s@.take(i + 1).drop_last() =~= s@.take(i as int));
                    assert(s@.take(i + 1).last() == s@[i as int]);
                    assert(hex_num(s@.take(i + 1)) == hex_num(s@.take(i as int)) * 16 + d);
                }
                if acc > (u64::MAX - (d as u64)) / 16 {
                    proof {
                        let x = (u64::MAX - (d as u64)) as int;
                        let q = x / 16;
                        lemma_fundamental_div_mod(x, 16);
                        lemma_mod_bound(x, 16);
                        assert(q * 16 > x - 16);
                        assert(acc * 16 >= (q + 1) * 16) by (nonlinear_arith)
                            requires
                                acc > q,
                        ;
                        assert(hex_num(s@.take(i + 1)) > u64::MAX);
                        lemma_hex_num_prefix_le(s@, i + 1, s@.len() as int);
                        assert(s@.take(s@.len() as int) =~= s@);
                        assert(hex_num(s@) > u64::MAX);
                    }
                    return None;
                }
                proof {
                    let x = (u64::MAX - (d as u64)) as int;
                    let q = x / 16;
                    lemma_fundamental_div_mod(x, 16);
                    lemma_mod_bound(x, 16);
                    assert(q * 16 <= x);
                    assert(acc * 16 <= q * 16) by (nonlinear_arith)
                        requires
                            acc <= q,
                    ;
                }
                acc = acc * 16 + d as u64;
                i += 1;
            },
        }
    }
    proof {
        assert(s@.take(len as int) =~= s@);
    }
    Some(acc)
}

/// The character for one hexadecimal digit, upper case.
pub open spec fn hex_char_of(d: u8) -> char {
    if d == 0 {
        '0'
    } else if d == 1 {
        '1'
    } else if d == 2 {
        '2'
    } else if d == 3 {
        '3'
    } else if d == 4 {
        '4'
    } else if d == 5 {
        '5'
    } else if d == 6 {
        '6'
    } else if d == 7 {
        '7'
    } else if d == 8 {
        '8'
    } else if d == 9 {
        '9'
    } else if d == 10 {
        'A'
    } else if d == 11 {
        'B'
    } else if d == 12 {
        'C'
    } else if d == 13 {
        'D'
    } else if d == 14 {
        'E'
    } else {
        'F'
    }
}

/// The upper-case hexadecimal rendering of a number, most significant
/// digit first, without leading zeroes.
pub open spec fn hex_rep(n: nat) -> Seq<char>
    decreases n,
{
    if n < 16 {
        seq![hex_char_of(n as u8)]
    } else {
        hex_rep(n / 16).push(hex_char_of((n % 16) as u8))
    }
}

/// The rendering left-padded with zeroes to at least `width` characters —
/// the shape of a fixed-width hexadecimal address.
pub open spec fn zero_padded_hex(n: nat, width: nat) -> Seq<char> {
    if hex_rep(n).len() >= width {
        hex_rep(n)
    } else {
        Seq::new((width - hex_rep(n).len()) as nat, |i: int| '0') + hex_rep(n)
    }
}

/// The text for one digit.
fn hex_digit_str(d: u8) -> (r: &'static str)
    requires
        d < 16,
    ensures
        r@ == seq![hex_char_of(d)],
{
    proof {
        reveal_strlit("0");
        reveal_strlit("1");
        reveal_strlit("2");
        reveal_strlit("3");
        reveal_strlit("4");
        reveal_strlit("5");
        reveal_strlit("6");
        reveal_strlit("7");
        reveal_strlit("8");
        reveal_strlit("9");
        reveal_strlit("A");
        reveal_strlit("B");
        reveal_strlit("C");
        reveal_strlit("D");
        reveal_strlit("E");
        reveal_strlit("F");
    }
    let r = if d == 0 {
        "0"
    } else if d == 1 {
        "1"
    } else if d == 2 {
        "2"
    } else if d == 3 {
        "3"
    } else if d == 4 {
        "4"
    } else if d == 5 {
        "5"
    } else if d == 6 {
        "6"
    } else if d == 7 {
        "7"
    } else if d == 8 {
        "8"
    } else if d == 9 {
        "9"
    } else if d == 10 {
        "A"
    } else if d == 11 {
        "B"
    } else if d == 12 {
        "C"
    } else if d == 13 {
        "D"
    } else if d == 14 {
        "E"
    } else {
        "F"
    };
    proof {
        assert(r@ =~= seq![hex_char_of(d)]);
    }
    r
}

/// Append the hexadecimal rendering of `n`.
fn push_hex(n: u64, out: &mut String)
    ensures
        final(out)@ == old(out)@ + hex_rep(n as nat),
    decreases n,
{
    if n < 16 {
        out.append(hex_digit_str(n as u8));
        proof {
            assert(final(out)@ =~= old(out)@ + hex_rep(n as nat));
        }
    } else {
        push_hex(n / 16, out);
        out.append(hex_digit_str((n % 16) as u8));
        proof {
            assert(final(out)@ =~= old(out)@ + hex_rep(n as nat));
        }
    }
}

/// Sixteen to the `k`.
spec fn pow16(k: nat) -> nat
    decreases k,
{
    if k == 0 {
        1
    } else {
        16 * pow16((k - 1) as nat)
    }
}

/// A number below sixteen to the `k` renders in at most `k` digits.
proof fn lemma_hex_rep_len_bounded(n: nat, k: nat)
    requires
        k >= 1,
        n < pow16(k),
    ensures
        hex_rep(n).len() <= k,
    decreases k,
{
    if n < 16 {
    } else {
        assert(pow16(k) == 16 * pow16((k - 1) as nat));
        assert(n / 16 < pow16((k - 1) as nat)) by (nonlinear_arith)
            requires
                n < 16 * pow16((k - 1) as nat),
        ;
        assert(pow16((k - 1) as nat) > 1) by {
            assert(n / 16 >= 1);
        }
        lemma_hex_rep_len_bounded(n / 16, (k - 1) as nat);
    }
}

/// Render a Bluetooth address as upper-case hexadecimal, zero-padded to
/// twelve digits (a 48-bit address): the text the Plug-and-Play
/// enumeration filter matches against.
#[verifier::loop_isolation(false)]
pub fn format_bluetooth_address(address: u64) -> (r: String)
    ensures
        r@ == zero_padded_hex(address as nat, 12),
{
    proof {
        assert(pow16(0) == 1);
        assert(pow16(1) == 16);
        assert(pow16(2) == 0x100);
        assert(pow16(3) == 0x1000);
        assert(pow16(4) == 0x10000);
        assert(pow16(5) == 0x100000);
        assert(pow16(6) == 0x1000000);
        assert(pow16(7) == 0x10000000);
        assert(pow16(8) == 0x100000000);
        assert(pow16(9) == 0x1000000000);
        assert(pow16(10) == 0x10000000000);
        assert(pow16(11) == 0x100000000000);
        assert(pow16(12) == 0x1000000000000);
        assert(pow16(13) == 0x10000000000000);
        assert(pow16(14) == 0x100000000000000);
        assert(pow16(15) == 0x1000000000000000);
        assert(pow16(16) == 0x10000000000000000);
        lemma_hex_rep_len_bounded(address as nat, 16);
    }
    let mut width: usize = 1;
    let mut m: u64 = address;
    while m >= 16
        invariant
            1 <= width,
            hex_rep(address as nat).len() <= 16,
            hex_rep(address as nat).len() == width + hex_rep(m as nat).len() - 1,
            hex_rep(m as nat).len() >= 1,
        decreases m,
    {
        proof {
            assert(hex_rep(m as nat) == hex_rep((m as nat) / 16).push(
                hex_char_of(((m as nat) % 16) as u8),
            ));
            assert((m / 16) as nat == (m as nat) / 16) by (nonlinear_arith);
        }
        m = m / 16;
        width = width + 1;
    }
    proof {
        assert(hex_rep(m as nat).len() == 1);
        assert(hex_rep(address as nat).len() == width);
    }
    let mut out = String::new();
    let mut pad: usize = 0;
    let ghost padding = if width >= 12 {
        0nat
    } else {
        (12 - width) as nat
    };
    while pad + width < 12
        invariant
            width >= 1,
            if width >= 12 {
                pad == 0int
            } else {
                pad + width <= 12
            },
            out@ =~= Seq::new(pad as nat, |i: int| '0'),
        decreases 12 - pad - width,
    {
        proof {
            reveal_strlit("0");
        }
        out.append("0");
        proof {
            assert(out@ =~= Seq::new((pad + 1) as nat, |i: int| '0'));
        }
        pad += 1;
    }
    proof {
        assert(pad as nat == padding);
        assert(out@ =~= Seq::new(padding, |i: int| '0'));
    }
    push_hex(address, &mut out);
    proof {
        if width >= 12 {
            assert(out@ =~= zero_padded_hex(address as nat, 12));
        } else {
            assert(out@ =~= zero_padded_hex(address as nat, 12));
        }
    }
    out
}

/// What one record contributes to the battery map: its address (parsed
/// from the address property's text) paired with its battery and instance
/// identifier — or nothing when either property is missing, of the wrong
/// shape, or the address does not parse.
pub open spec fn parse_pnp_record(record: PnpDeviceRecord) -> Option<(u64, PnpDeviceInfo)> {
    match record.battery_property {
        Some(PnpPropertyValue::Byte(battery)) => match record.address_property {
            Some(PnpPropertyValue::Text(text)) => match hex_value(text@) {
                Some(address) => Some(
                    (
                        address,
                        PnpDeviceInfo { battery, instance_id: record.device_instance_id },
                    ),
                ),
                None => None,
            },
            _ => None,
        },
        _ => None,
    }
}

/// The battery map the whole enumeration yields: every record that parses,
/// keyed by address, later records overriding earlier ones.
pub open spec fn pnp_info_map(records: Seq<PnpDeviceRecord>) -> Map<u64, PnpDeviceInfo>
    decreases records.len(),
{
    if records.len() == 0 {
        Map::empty()
    } else {
        let m = pnp_info_map(records.drop_last());
        match parse_pnp_record(records.last()) {
            Some(p) => m.insert(p.0, p.1),
            None => m,
        }
    }
}

/// Read one record's battery and address properties.
fn parse_record(record: &PnpDeviceRecord) -> (r: Option<(u64, PnpDeviceInfo)>)
    ensures
        r == parse_pnp_record(*record),
{
    match &record.battery_property {
        Some(PnpPropertyValue::Byte(battery)) => match &record.address_property {
            Some(PnpPropertyValue::Text(text)) => match parse_hex_u64(text.as_str()) {
                Some(address) => Some(
                    (
                        address,
                        PnpDeviceInfo {
                            battery: *battery,
                            instance_id: record.device_instance_id.clone(),
                        },
                    ),
                ),
                None => None,
            },
            _ => None,
        },
        _ => None,
    }
}

/// Turn the enumerated records into the battery map, exactly as
/// `pnp_info_map` describes.
#[verifier::loop_isolation(false)]
pub fn get_pnp_devices_info(records: &Vec<PnpDeviceRecord>) -> (r: HashMapWithView<
    u64,
    PnpDeviceInfo,
>)
    ensures
        r@ == pnp_info_map(records@),
{
    let mut r: HashMapWithView<u64, PnpDeviceInfo> = HashMapWithView::new();
    let n = records.len();
    let mut i: usize = 0;
    proof {
        assert(records@.take(0) =~= Seq::<PnpDeviceRecord>::empty());
    }
    while i < n
        invariant
            i <= n,
            r@ == pnp_info_map(records@.take(i as int)),
        decreases n - i,
    {
        let parsed = parse_record(&records[i]);
        proof {
            assert(records@.take(i + 1).drop_last() =~= records@.take(i as int));
            assert(records@.take(i + 1).last() == records@[i as int]);
        }
        match parsed {
            Some(p) => {
                r.insert(p.0, p.1);
            },
            None => (),
        }
        i += 1;
    }
    proof {
        assert(records@.take(n as int) =~= records@);
    }
    r
}

/// Build the registry record for a Classic device from its name, address
/// and connection status, taking battery and instance identifier from the
/// battery map; a device the map lacks yields nothing, so the caller drops
/// it rather than insert a half-populated record.
pub fn classic_info_from_pnp(
    name: String,
    address: u64,
    status: bool,
    pnp: &HashMapWithView<u64, PnpDeviceInfo>,
) -> (r: Option<BluetoothInfo>)
    ensures
        match r {
            Some(info) => pnp@.dom().contains(address) && info == (BluetoothInfo {
                name,
                battery: pnp@[address].battery,
                status,
                address,
                kind: BluetoothType::Classic(pnp@[address].instance_id),
            }),
            None => !pnp@.dom().contains(address),
        },
{
    match pnp.get(&address) {
        Some(p) => Some(
            BluetoothInfo {
                name,
                battery: p.battery,
                status,
                address,
                kind: BluetoothType::Classic(p.instance_id.clone()),
            },
        ),
        None => None,
    }
}

} // verus!
