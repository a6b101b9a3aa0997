//! How the bytes at the cursor are shown in binary, for error messages and for
//! debugging.

use crate::bits::{bit_field, spec_bit_field};
use vstd::prelude::*;

verus! {

/// The eight binary digits of `b`, most significant first.
pub open spec fn binary_digits(b: u8) -> Seq<char> {
    Seq::new(
        8,
        |i: int|
            if spec_bit_field(b, i as u8, 1) == 1 {
                '1'
            } else {
                '0'
            },
    )
}

/// The items in order, with `sep` between each two of them.
pub open spec fn spec_join(items: Seq<Seq<char>>, sep: Seq<char>) -> Seq<char>
    decreases items.len(),
{
    if items.len() == 0 {
        Seq::empty()
    } else if items.len() == 1 {
        items[0]
    } else {
        spec_join(items.drop_last(), sep) + sep + items.last()
    }
}

/// What a peek at `bytes` shows: each of the first `nbytes` bytes in binary, as
/// far as there are that many, and the mark `...` if more bytes follow them.
pub open spec fn peek_items(bytes: Seq<u8>, nbytes: nat) -> Seq<Seq<char>> {
    let shown = if nbytes < bytes.len() {
        nbytes
    } else {
        bytes.len()
    };
    let digits = Seq::new(shown, |i: int| binary_digits(bytes[i]));
    if bytes.len() > nbytes {
        digits.push("..."@)
    } else {
        digits
    }
}

/// A peek at the next `nbytes` bytes of `bytes`, the items separated by `sep`.
pub open spec fn spec_byte_stream_str(bytes: Seq<u8>, nbytes: nat, sep: Seq<char>) -> Seq<char> {
    spec_join(peek_items(bytes, nbytes), sep)
}

/// Appends the eight binary digits of `b` to `out`.
pub fn push_binary(out: &mut String, b: u8)
    ensures
        final(out)@ == old(out)@ + binary_digits(b),
{
    let mut k: u8 = 0;
    while k < 8
        invariant
            k <= 8,
            out@ == old(out)@ + binary_digits(b).take(k as int),
        decreases 8 - k,
    {
        proof {
            reveal_strlit("1");
            reveal_strlit("0");
        }
        if bit_field(b, k, 1) == 1 {
            out.append("1");
        } else {
            out.append("0");
        }
        assert(binary_digits(b).take(k + 1) =~= binary_digits(b).take(k as int).push(
            binary_digits(b)[k as int],
        ));
        assert(out@ =~= old(out)@ + binary_digits(b).take(k + 1));
        k = k + 1;
    }
    assert(binary_digits(b).take(8) =~= binary_digits(b));
}

} // verus!
