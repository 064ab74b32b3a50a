//! Colors: the checksum that an identifier's color is derived from, packing RGB
//! values, and writing colors as `#rrggbb`.

use sha1::Digest;
use vstd::prelude::*;
use vstd::string::StringSliceAdditionalSpecFns;

verus! {

/// The SHA-1 digest of `data`.
pub uninterp spec fn sha1_digest(data: Seq<u8>) -> Seq<u8>;

/// Calls `sha1::Sha1::digest`. The digest is a function of the data; it is 20 bytes
/// long (the output size of SHA-1).
#[verifier::external_body]
fn sha1(data: &[u8]) -> (r: Vec<u8>)
    ensures
        r@ == sha1_digest(data@),
        r@.len() == 20,
{
    sha1::Sha1::digest(data).to_vec()
}

/// The checksum of an identifier: the first two bytes of the SHA-1 digest of its
/// UTF-8 encoding, little-endian.
pub open spec fn spec_color_checksum(bytes: Seq<u8>) -> int {
    sha1_digest(bytes)[0] + 256 * sha1_digest(bytes)[1]
}

/// Computes the checksum that the hue of an identifier's color is derived from.
pub fn color_checksum(s: &str) -> (r: u16)
    ensures
        r == spec_color_checksum(s.spec_bytes()),
{
    let bytes = s.as_bytes();
    let digest = sha1(bytes);
    (digest[0] as u16) + 256 * (digest[1] as u16)
}

/// Packs an RGB color into a 24-bit number: red in the most significant byte, blue in
/// the least significant one.
pub fn rgb_to_u32(r: u8, g: u8, b: u8) -> (c: u32)
    ensures
        c == 65536 * r + 256 * g + b,
{
    65536 * (r as u32) + 256 * (g as u32) + (b as u32)
}

/// The lowercase hexadecimal digit `d`.
pub open spec fn hex_digit_char(d: int) -> char {
    if d < 10 {
        (48 + d) as char
    } else {
        (87 + d) as char
    }
}

/// The lowercase hexadecimal representation of `n`, at least `width` digits long.
pub open spec fn hex_padded(n: nat, width: nat) -> Seq<char>
    decreases n + width,
{
    if n < 16 && width <= 1 {
        seq![hex_digit_char(n as int)]
    } else {
        hex_padded(n / 16, if width > 0 {
            (width - 1) as nat
        } else {
            0
        }).push(hex_digit_char((n % 16) as int))
    }
}

fn hex_digit(d: u32) -> (c: char)
    requires
        d < 16,
    ensures
        c == hex_digit_char(d as int),
{
    if d < 10 {
        if d == 0 {
            '0'
        } else if d == 1 {
            '1'
        } else if d == 2 {
            '2'
        } else if d == 3 {
            '3'
        } else if d == 4 {
            '4'
        } else if d == 5 {
            '5'
        } else if d == 6 {
            '6'
        } else if d == 7 {
            '7'
        } else if d == 8 {
            '8'
        } else {
            '9'
        }
    } else if d == 10 {
        'a'
    } else if d == 11 {
        'b'
    } else if d == 12 {
        'c'
    } else if d == 13 {
        'd'
    } else if d == 14 {
        'e'
    } else {
        'f'
    }
}

fn push_hex_padded(out: &mut String, n: u32, width: u32)
    ensures
        final(out)@ == old(out)@ + hex_padded(n as nat, width as nat),
    decreases n as int + width as int,
{
    if !(n < 16 && width <= 1) {
        let w = if width > 0 {
            width - 1
        } else {
            0
        };
        push_hex_padded(out, n / 16, w);
    }
    out.push(hex_digit(n % 16));
    proof {
        assert(out@ =~= old(out)@ + hex_padded(n as nat, width as nat));
    }
}

/// Returns the color as `#rrggbb`: lowercase hexadecimal, at least six digits.
pub fn color_int_to_hex_string(color: u32) -> (r: String)
    ensures
        r@ == seq!['#'] + hex_padded(color as nat, 6),
{
    let mut r = String::new();
    r.push('#');
    push_hex_padded(&mut r, color, 6);
    proof {
        assert(r@ =~= seq!['#'] + hex_padded(color as nat, 6));
    }
    r
}

} // verus!
