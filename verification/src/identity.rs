//! The local device identity: the address the stack resolves once it
//! synchronizes, and its text form.

use vstd::prelude::*;

verus! {

/// ASCII colon, the separator of the address text form.
pub const COLON: u8 = 0x3A;

/// Address type and 6-byte address, resolved once during stack sync and
/// read-only afterward.
#[derive(Clone, Copy, PartialEq, Eq, Debug)]
pub struct DeviceIdentity {
    pub addr_type: u8,
    pub addr: [u8; 6],
}

/// The ASCII character of one hex digit value (lower case letters).
pub open spec fn hex_digit(v: u8) -> u8
    recommends
        v < 16,
{
    if v < 10 {
        (v + 0x30) as u8
    } else {
        (v + 0x57) as u8
    }
}

/// The two hex characters of one byte.
pub open spec fn hex_byte(b: u8) -> Seq<u8> {
    seq![hex_digit(b / 16), hex_digit(b % 16)]
}

/// The text form of an address: its bytes most significant first, two hex
/// digits each, colon-separated.
pub open spec fn formatted_address(addr: Seq<u8>) -> Seq<u8>
    recommends
        addr.len() == 6,
{
    hex_byte(addr[5]) + seq![COLON] + hex_byte(addr[4]) + seq![COLON] + hex_byte(addr[3]) + seq![
        COLON,
    ] + hex_byte(addr[2]) + seq![COLON] + hex_byte(addr[1]) + seq![COLON] + hex_byte(addr[0])
}

/// The ASCII character of one hex digit value.
fn hex_digit_char(v: u8) -> (r: u8)
    requires
        v < 16,
    ensures
        r == hex_digit(v),
{
    if v < 10 {
        v + 0x30
    } else {
        v + 0x57
    }
}

/// Appends the two hex characters of one byte.
fn push_hex_byte(out: &mut Vec<u8>, b: u8)
    ensures
        final(out)@ =~= old(out)@ + hex_byte(b),
{
    let hi = hex_digit_char(b / 16);
    let lo = hex_digit_char(b % 16);
    out.push(hi);
    out.push(lo);
}

/// Renders an address for logging, most significant byte first, as in
/// `aa:bb:cc:dd:ee:ff`.
pub fn format_address(addr: &[u8; 6]) -> (out: Vec<u8>)
    ensures
        out@ =~= formatted_address(addr@),
        out@.len() == 17,
{
    let mut out: Vec<u8> = Vec::new();
    push_hex_byte(&mut out, addr[5]);
    out.push(COLON);
    push_hex_byte(&mut out, addr[4]);
    out.push(COLON);
    push_hex_byte(&mut out, addr[3]);
    out.push(COLON);
    push_hex_byte(&mut out, addr[2]);
    out.push(COLON);
    push_hex_byte(&mut out, addr[1]);
    out.push(COLON);
    push_hex_byte(&mut out, addr[0]);
    out
}

} // verus!
