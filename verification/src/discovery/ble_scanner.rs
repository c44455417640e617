//! Recognising PhoneBridge phones among Bluetooth LE advertisements.
//!
//! A PhoneBridge phone advertises a local name starting with "PhoneBridge" and
//! manufacturer data (company id 0xFFFF) whose first six bytes are its IPv4
//! address and its TCP port (big-endian).
use crate::text::push_char;
use vstd::prelude::*;

verus! {

/// Company id under which the phone puts its address into the advertisement.
pub const MANUFACTURER_ID: u16 = 0xFFFF;

pub struct PhoneBridgeDevice {
    pub name: String,
    pub ip: String,
    pub port: u16,
    pub rssi: i16,
}

/// Decimal digits of a number below 256, without leading zeros.
pub open spec fn decimal(n: u8) -> Seq<char> {
    if n < 10 {
        seq![digit(n)]
    } else if n < 100 {
        seq![digit(n / 10), digit(n % 10)]
    } else {
        seq![digit(n / 100), digit((n / 10) % 10), digit(n % 10)]
    }
}

pub open spec fn digit(n: u8) -> char {
    ('0' as u8 + n) as char
}

/// Dotted-quad rendering of an IPv4 address.
pub open spec fn dotted_quad(a: u8, b: u8, c: u8, d: u8) -> Seq<char> {
    decimal(a) + seq!['.'] + decimal(b) + seq!['.'] + decimal(c) + seq!['.'] + decimal(d)
}

fn digit_char(n: u8) -> (c: char)
    requires
        n < 10,
    ensures
        c == digit(n),
{
    match n {
        0 => '0',
        1 => '1',
        2 => '2',
        3 => '3',
        4 => '4',
        5 => '5',
        6 => '6',
        7 => '7',
        8 => '8',
        _ => '9',
    }
}

fn push_decimal(out: &mut String, n: u8)
    ensures
        final(out)@ == old(out)@ + decimal(n),
{
    if n >= 100 {
        push_char(out, digit_char(n / 100));
    }
    if n >= 10 {
        push_char(out, digit_char((n / 10) % 10));
    }
    push_char(out, digit_char(n % 10));
    assert(out@ =~= old(out)@ + decimal(n));
}

/// Renders an IPv4 address as "a.b.c.d".
pub fn format_ipv4(a: u8, b: u8, c: u8, d: u8) -> (r: String)
    ensures
        r@ == dotted_quad(a, b, c, d),
{
    let mut s = String::new();
    push_decimal(&mut s, a);
    push_char(&mut s, '.');
    push_decimal(&mut s, b);
    push_char(&mut s, '.');
    push_decimal(&mut s, c);
    push_char(&mut s, '.');
    push_decimal(&mut s, d);
    assert(s@ =~= dotted_quad(a, b, c, d));
    s
}

/// The name prefix of PhoneBridge phones.
pub open spec fn name_prefix() -> Seq<char> {
    "PhoneBridge"@
}

/// `name.starts_with("PhoneBridge")`.
pub fn is_phonebridge_name(name: &str) -> (r: bool)
    ensures
        r == (name@.len() >= name_prefix().len() && name@.subrange(0, name_prefix().len() as int)
            == name_prefix()),
{
    let prefix = "PhoneBridge";
    proof {
        reveal_strlit("PhoneBridge");
    }
    let n = prefix.unicode_len();
    if name.unicode_len() < n {
        return false;
    }
    let mut i: usize = 0;
    while i < n
        invariant
            n == prefix@.len(),
            prefix@ == name_prefix(),
            name@.len() >= n,
            0 <= i <= n,
            forall|j: int| 0 <= j < i ==> name@[j] == prefix@[j],
        decreases n - i,
    {
        if name.get_char(i) != prefix.get_char(i) {
            assert(name@.subrange(0, n as int)[i as int] != prefix@[i as int]);
            return false;
        }
        i = i + 1;
    }
    assert(name@.subrange(0, n as int) =~= prefix@);
    true
}

/// The device an advertisement describes, if it comes from a PhoneBridge phone
/// and carries at least six bytes of manufacturer data under `MANUFACTURER_ID`.
pub fn device_from_advertisement(name: String, manufacturer_data: Option<&Vec<u8>>, rssi: Option<i16>) -> (r: Option<PhoneBridgeDevice>)
    ensures
        match manufacturer_data {
            Some(data) => if name@.len() >= name_prefix().len() && name@.subrange(
                0,
                name_prefix().len() as int,
            ) == name_prefix() && data@.len() >= 6 {
                r matches Some(d) && d.name == name && d.ip@ == dotted_quad(
                    data@[0],
                    data@[1],
                    data@[2],
                    data@[3],
                ) && d.port == data@[4] * 256 + data@[5] && d.rssi == (match rssi {
                    Some(v) => v,
                    None => 0,
                })
            } else {
                r is None
            },
            None => r is None,
        },
{
    if !is_phonebridge_name(name.as_str()) {
        return None;
    }
    match manufacturer_data {
        Some(data) => {
            if data.len() >= 6 {
                let ip = format_ipv4(data[0], data[1], data[2], data[3]);
                let port = (data[4] as u16) * 256 + (data[5] as u16);
                let rssi = match rssi {
                    Some(v) => v,
                    None => 0,
                };
                Some(PhoneBridgeDevice { name, ip, port, rssi })
            } else {
                None
            }
        },
        None => None,
    }
}

} // verus!
