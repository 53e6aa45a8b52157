//! Generic symbol representation.
//!
//! The padded text field decoder is parameterized over the symbol type, so a
//! caller can pick an owned byte buffer, an interned handle, or any other
//! representation that can be built from the trimmed field bytes, without
//! touching the decoder logic.

use vstd::prelude::*;

use crate::fields::trim_trailing_spaces;

verus! {

/// A symbol representation constructible from the bytes of a trimmed
/// fixed-width text field.
///
/// `sym` is the mathematical content of a symbol value: the byte sequence it
/// stands for. `from_field` builds a symbol holding exactly the given bytes.
pub trait Symbol: Sized {
    /// The byte sequence this symbol value represents.
    spec fn sym(&self) -> Seq<u8>;

    /// Builds a symbol from the bytes of a trimmed text field.
    fn from_field(bytes: &[u8]) -> (r: Self)
        ensures
            r.sym() == bytes@,
    ;
}

impl Symbol for Vec<u8> {
    open spec fn sym(&self) -> Seq<u8> {
        self@
    }

    fn from_field(bytes: &[u8]) -> (r: Self) {
        vstd::slice::slice_to_vec(bytes)
    }
}

/// Reads the fixed-width space-padded text field of `width` bytes at `off`,
/// trims the trailing ASCII space padding, and builds the caller's symbol
/// type from the trimmed bytes. Interior bytes are preserved verbatim: only
/// the trailing run of spaces is removed.
pub fn read_symbol_field<S: Symbol>(input: &[u8], off: usize, width: usize) -> (r: S)
    requires
        off + width <= input@.len(),
    ensures
        r.sym() == trim_trailing_spaces(
            input@.subrange(off as int, off as int + width as int),
        ),
{
    let ghost field = input@.subrange(off as int, off as int + width as int);
    proof {
        // The field lies inside the slice, whose length fits in usize, so
        // `off + width` cannot overflow.
        vstd::slice::axiom_spec_len(input);
    }
    let mut end: usize = off + width;
    while end > off && input[end - 1] == 0x20
        invariant
            off <= end <= off + width,
            off + width <= input@.len(),
            field == input@.subrange(off as int, off as int + width as int),
            trim_trailing_spaces(field) == trim_trailing_spaces(
                input@.subrange(off as int, end as int),
            ),
        decreases end,
    {
        proof {
            let cur = input@.subrange(off as int, end as int);
            assert(cur.drop_last() =~= input@.subrange(off as int, end as int - 1));
        }
        end = end - 1;
    }
    proof {
        let cur = input@.subrange(off as int, end as int);
        assert(trim_trailing_spaces(cur) == cur);
    }
    let trimmed = vstd::slice::slice_subrange(input, off, end);
    S::from_field(trimmed)
}

} // verus!
