//! Addresses on both sides of the gateway.

use vstd::prelude::*;
use vstd::string::*;

verus! {

/// The mesh address that reaches every node.
pub const XB_BROADCAST: u64 = 0xffff;

/// An IP address of either family, held as the integer its octets spell in
/// network byte order.  Addresses of different families are never equal.
#[derive(Clone, Copy, Debug, PartialEq, Eq, Hash)]
pub enum IpAddress {
    V4(u32),
    V6(u128),
}

/// The lower-case hexadecimal digit for `n`, which is below 16.
pub open spec fn hex_digit(n: int) -> char {
    if n == 0 {
        '0'
    } else if n == 1 {
        '1'
    } else if n == 2 {
        '2'
    } else if n == 3 {
        '3'
    } else if n == 4 {
        '4'
    } else if n == 5 {
        '5'
    } else if n == 6 {
        '6'
    } else if n == 7 {
        '7'
    } else if n == 8 {
        '8'
    } else if n == 9 {
        '9'
    } else if n == 10 {
        'a'
    } else if n == 11 {
        'b'
    } else if n == 12 {
        'c'
    } else if n == 13 {
        'd'
    } else if n == 14 {
        'e'
    } else {
        'f'
    }
}

/// An octet in lower-case hexadecimal without a leading zero: one digit
/// below 16, two from there on.
pub open spec fn lower_hex(octet: u8) -> Seq<char> {
    if octet < 16 {
        seq![hex_digit(octet as int)]
    } else {
        seq![hex_digit(octet as int / 16), hex_digit(octet as int % 16)]
    }
}

/// The six octets of a hardware address, each as [`lower_hex`], with a colon
/// between neighbours.
pub open spec fn showmac_text(mac: Seq<u8>) -> Seq<char> {
    lower_hex(mac[0]) + seq![':'] + lower_hex(mac[1]) + seq![':'] + lower_hex(mac[2]) + seq![':']
        + lower_hex(mac[3]) + seq![':'] + lower_hex(mac[4]) + seq![':'] + lower_hex(mac[5])
}

fn hex_digit_str(n: u8) -> (r: &'static str)
    requires
        n < 16,
    ensures
        r@ == seq![hex_digit(n as int)],
{
    proof {
        reveal_strlit("0");
        reveal_strlit("1");
        reveal_strlit("2");
        reveal_strlit("3");
        reveal_strlit("4");
        reveal_strlit("5");
        reveal_strlit("6");
        reveal_strlit("7");
        reveal_strlit("8");
        reveal_strlit("9");
        reveal_strlit("a");
        reveal_strlit("b");
        reveal_strlit("c");
        reveal_strlit("d");
        reveal_strlit("e");
        reveal_strlit("f");
    }
    let r = match n {
        0 => "0",
        1 => "1",
        2 => "2",
        3 => "3",
        4 => "4",
        5 => "5",
        6 => "6",
        7 => "7",
        8 => "8",
        9 => "9",
        10 => "a",
        11 => "b",
        12 => "c",
        13 => "d",
        14 => "e",
        _ => "f",
    };
    assert(r@ =~= seq![hex_digit(n as int)]);
    r
}

fn push_lower_hex(text: &mut String, octet: u8)
    ensures
        final(text)@ == old(text)@ + lower_hex(octet),
{
    if octet >= 16 {
        text.append(hex_digit_str(octet / 16));
    }
    text.append(hex_digit_str(octet % 16));
    assert(text@ =~= old(text)@ + lower_hex(octet));
}

fn push_colon(text: &mut String)
    ensures
        final(text)@ == old(text)@ + seq![':'],
{
    proof {
        reveal_strlit(":");
    }
    text.append(":");
    assert(text@ =~= old(text)@ + seq![':']);
}

/// A hardware address as text: `0:1b:ff:3:a0:9` for the octets
/// `00 1b ff 03 a0 09`.
pub fn showmac(mac: &[u8; 6]) -> (text: String)
    ensures
        text@ == showmac_text(mac@),
{
    let mut text = String::new();
    push_lower_hex(&mut text, mac[0]);
    push_colon(&mut text);
    push_lower_hex(&mut text, mac[1]);
    push_colon(&mut text);
    push_lower_hex(&mut text, mac[2]);
    push_colon(&mut text);
    push_lower_hex(&mut text, mac[3]);
    push_colon(&mut text);
    push_lower_hex(&mut text, mac[4]);
    push_colon(&mut text);
    push_lower_hex(&mut text, mac[5]);
    assert(text@ =~= showmac_text(mac@));
    text
}

} // verus!
