//! The pure part of starting a bot: the name of the throwaway home
//! directory a fresh bot works in, derived from a caller-supplied random
//! identifier.

use vstd::prelude::*;

use crate::lit::{s_b_dir_prefix, v_b_dir_prefix};
use crate::util::{hex_digit, push_vec};

verus! {

/// The two lower-case hexadecimal digits of one byte.
pub open spec fn hex_byte(c: u8) -> Seq<u8> {
    seq![hex_digit(c / 16), hex_digit(c % 16)]
}

/// The digits of the first `k` bytes.
pub open spec fn hex_upto(b: Seq<u8>, k: int) -> Seq<u8>
    decreases k,
{
    if k <= 0 {
        Seq::empty()
    } else {
        hex_upto(b, k - 1) + (if 0 <= k - 1 < b.len() {
            hex_byte(b[k - 1])
        } else {
            Seq::empty()
        })
    }
}

/// The lower-case hexadecimal rendering of a byte string: two digits per
/// byte, in order.
pub open spec fn hex_lower(b: Seq<u8>) -> Seq<u8> {
    hex_upto(b, b.len() as int)
}

/// Relies on `hex::encode`: each input byte becomes its two lower-case
/// hexadecimal digits, in order.
#[verifier::external_body]
fn hex_encode(b: &[u8]) -> (r: Vec<u8>)
    ensures
        r@ == hex_lower(b@),
{
    hex::encode(b).into_bytes()
}

/// The name of the throwaway home directory for a bot instance: a fixed
/// prefix followed by the identifier bytes in lower-case hexadecimal.  The
/// identifier is drawn by the caller, so every value of it is handled.
pub fn bot_home_dir_name(id: &[u8]) -> (r: Vec<u8>)
    ensures
        r@ == s_b_dir_prefix() + hex_lower(id@),
{
    let mut out = v_b_dir_prefix();
    let h = hex_encode(id);
    push_vec(&mut out, &h);
    out
}

} // verus!
