//! Why a byte sequence failed to decode.
use vstd::prelude::*;

verus! {

/// The reason a decode failed. Exactly one is reported: the first check,
/// in wire order, that the input does not pass.
#[derive(Clone, Copy, Debug, PartialEq, Eq, Structural)]
pub enum DecodeError {
    /// Fewer bytes than a header needs.
    TooShort,
    /// The first two bytes are not the magic marker.
    BadMagic,
    /// The version byte is not the supported one; carries that byte.
    BadVersion(u8),
    /// The message-type byte names no message kind; carries that byte.
    UnknownMsgType(u8),
    /// The flags byte has a reserved bit set; carries that byte.
    ReservedFlags(u8),
    /// The device identifier could not be taken from the input.
    BadDeviceIdBytes,
    /// The counter could not be taken from the input.
    BadCounterBytes,
}

/// The lowercase hexadecimal digit for `n`, which is below 16.
pub open spec fn hex_digit(n: u8) -> char
    recommends
        n < 16,
{
    if n < 10 {
        (n + 48) as u8 as char
    } else {
        (n + 87) as u8 as char
    }
}

/// `v` as two lowercase hexadecimal digits.
pub open spec fn hex_text(v: u8) -> Seq<char> {
    seq![hex_digit(v / 16), hex_digit(v % 16)]
}

/// `b` as eight binary digits, most significant first.
pub open spec fn bin_text(b: u8) -> Seq<char> {
    Seq::new(8, |i: int| if (b >> (7 - i) as u8) & 1u8 == 1u8 { '1' } else { '0' })
}

/// The human-readable description of each error.
pub open spec fn message_spec(e: DecodeError) -> Seq<char> {
    match e {
        DecodeError::TooShort => "input too short"@,
        DecodeError::BadMagic => "bad magic"@,
        DecodeError::BadVersion(v) => "unsupported version: 0x"@ + hex_text(v),
        DecodeError::UnknownMsgType(v) => "unknown msg_type: 0x"@ + hex_text(v),
        DecodeError::ReservedFlags(b) => "reserved flag bits set: 0b"@ + bin_text(b),
        DecodeError::BadDeviceIdBytes => "bad device_id bytes"@,
        DecodeError::BadCounterBytes => "bad counter bytes"@,
    }
}

/// Relies on `String::push`: appends the one character at the end.
#[verifier::external_body]
fn push_char(s: &mut String, c: char)
    ensures
        final(s)@ == old(s)@.push(c),
{
    s.push(c);
}

fn hex_digit_char(n: u8) -> (r: char)
    requires
        n < 16,
    ensures
        r == hex_digit(n),
{
    if n < 10 {
        (n + 48) as char
    } else {
        (n + 87) as char
    }
}

fn push_hex(s: &mut String, v: u8)
    ensures
        final(s)@ == old(s)@ + hex_text(v),
{
    push_char(s, hex_digit_char(v / 16));
    push_char(s, hex_digit_char(v % 16));
    assert(final(s)@ =~= old(s)@ + hex_text(v));
}

fn push_bin(s: &mut String, b: u8)
    ensures
        final(s)@ == old(s)@ + bin_text(b),
{
    let ghost start = s@;
    let mut i: u8 = 0;
    while i < 8
        invariant
            i <= 8,
            s@ == start + bin_text(b).take(i as int),
        decreases 8 - i,
    {
        let c = if (b >> (7 - i)) & 1u8 == 1u8 {
            '1'
        } else {
            '0'
        };
        push_char(s, c);
        assert(bin_text(b).take(i + 1) =~= bin_text(b).take(i as int).push(c));
        i = i + 1;
    }
    assert(bin_text(b).take(8) =~= bin_text(b));
}

impl DecodeError {
    /// A one-line description, naming the offending byte where there is
    /// one: in hexadecimal for a version or a message type, in binary for
    /// flags.
    pub fn message(&self) -> (r: String)
        ensures
            r@ == message_spec(*self),
    {
        match *self {
            DecodeError::TooShort => String::from_str("input too short"),
            DecodeError::BadMagic => String::from_str("bad magic"),
            DecodeError::BadVersion(v) => {
                let mut s = String::from_str("unsupported version: 0x");
                push_hex(&mut s, v);
                s
            },
            DecodeError::UnknownMsgType(v) => {
                let mut s = String::from_str("unknown msg_type: 0x");
                push_hex(&mut s, v);
                s
            },
            DecodeError::ReservedFlags(b) => {
                let mut s = String::from_str("reserved flag bits set: 0b");
                push_bin(&mut s, b);
                s
            },
            DecodeError::BadDeviceIdBytes => String::from_str("bad device_id bytes"),
            DecodeError::BadCounterBytes => String::from_str("bad counter bytes"),
        }
    }
}

} // verus!
