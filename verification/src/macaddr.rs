//! The 6-byte link-layer hardware identifier (MID / LL_ADDR / MAC_ADDR) and
//! its canonical colon-separated lowercase hex rendering.

use vstd::prelude::*;

verus! {

/// Link-layer address: always exactly six bytes, compared byte for byte.
#[derive(Clone, Copy, Debug, PartialEq, Eq)]
pub struct MACAddress(pub [u8; 6]);

impl View for MACAddress {
    type V = Seq<u8>;

    open spec fn view(&self) -> Seq<u8> {
        self.0@
    }
}

/// Lowercase hex digit for a nibble value.
pub open spec fn hex_digit(n: u8) -> char
    recommends
        n < 16,
{
    if n == 0 {
        '0'
    } else if n == 1 {
        '1'
    } else if n == 2 {
        '2'
    } else if n == 3 {
        '3'
    } else if n == 4 {
        '4'
    } else if n == 5 {
        '5'
    } else if n == 6 {
        '6'
    } else if n == 7 {
        '7'
    } else if n == 8 {
        '8'
    } else if n == 9 {
        '9'
    } else if n == 10 {
        'a'
    } else if n == 11 {
        'b'
    } else if n == 12 {
        'c'
    } else if n == 13 {
        'd'
    } else if n == 14 {
        'e'
    } else {
        'f'
    }
}

/// Two-digit lowercase hex rendering of one byte.
pub open spec fn hex_byte(b: u8) -> Seq<char> {
    seq![hex_digit(b / 16), hex_digit(b % 16)]
}

/// Canonical text form of a six-byte address: two-digit lowercase hex
/// octets joined by colons, e.g. `01:02:03:04:05:06`.
pub open spec fn mac_display(s: Seq<u8>) -> Seq<char>
    recommends
        s.len() == 6,
{
    hex_byte(s[0]) + seq![':'] + hex_byte(s[1]) + seq![':'] + hex_byte(s[2]) + seq![':'] + hex_byte(
        s[3],
    ) + seq![':'] + hex_byte(s[4]) + seq![':'] + hex_byte(s[5])
}

/// One-character string for a nibble's lowercase hex digit.
fn hex_digit_str(n: u8) -> (r: &'static str)
    requires
        n < 16,
    ensures
        r@ == seq![hex_digit(n)],
{
    proof {
        reveal_strlit("0");
        reveal_strlit("1");
        reveal_strlit("2");
        reveal_strlit("3");
        reveal_strlit("4");
        reveal_strlit("5");
        reveal_strlit("6");
        reveal_strlit("7");
        reveal_strlit("8");
        reveal_strlit("9");
        reveal_strlit("a");
        reveal_strlit("b");
        reveal_strlit("c");
        reveal_strlit("d");
        reveal_strlit("e");
        reveal_strlit("f");
    }
    match n {
        0 => "0",
        1 => "1",
        2 => "2",
        3 => "3",
        4 => "4",
        5 => "5",
        6 => "6",
        7 => "7",
        8 => "8",
        9 => "9",
        10 => "a",
        11 => "b",
        12 => "c",
        13 => "d",
        14 => "e",
        _ => "f",
    }
}

/// Appends the two-digit lowercase hex form of one byte.
fn append_hex_byte(s: &mut String, b: u8)
    ensures
        final(s)@ == old(s)@ + hex_byte(b),
{
    s.append(hex_digit_str(b / 16));
    s.append(hex_digit_str(b % 16));
    proof {
        assert(s@ =~= old(s)@ + hex_byte(b));
    }
}

impl Default for MACAddress {
    /// The all-zero address.
    fn default() -> (r: Self)
        ensures
            r@ == seq![0u8, 0u8, 0u8, 0u8, 0u8, 0u8],
    {
        let r = MACAddress([0; 6]);
        proof {
            assert(r@ =~= seq![0u8, 0u8, 0u8, 0u8, 0u8, 0u8]);
        }
        r
    }
}

impl MACAddress {
    /// Copies the six bytes out of the caller's buffer.
    pub fn new(mac: &[u8; 6]) -> (r: MACAddress)
        ensures
            r@ == mac@,
    {
        MACAddress(*mac)
    }

    /// Read-only view of the six bytes.
    pub fn get(&self) -> (r: &[u8; 6])
        ensures
            r@ == self@,
    {
        &self.0
    }

    /// Canonical text form: six two-digit lowercase hex octets joined by
    /// colons.
    pub fn display(&self) -> (r: String)
        ensures
            r@ == mac_display(self@),
    {
        let mut s = String::new();
        append_hex_byte(&mut s, self.0[0]);
        s.append(":");
        append_hex_byte(&mut s, self.0[1]);
        s.append(":");
        append_hex_byte(&mut s, self.0[2]);
        s.append(":");
        append_hex_byte(&mut s, self.0[3]);
        s.append(":");
        append_hex_byte(&mut s, self.0[4]);
        s.append(":");
        append_hex_byte(&mut s, self.0[5]);
        proof {
            reveal_strlit(":");
            assert(s@ =~= mac_display(self@));
        }
        s
    }
}

} // verus!
