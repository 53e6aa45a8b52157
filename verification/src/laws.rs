//! Decoder-wide laws, stated over the wire-format model and proved once for
//! all inputs.

use vstd::prelude::*;

use crate::decoder::{
    decode_model, decode_post, failed_as, is_known_tag, quote_flags_valid, required_len,
    DecodeModel, QUOTE_UPDATE_LEN, TAG_QUOTE_UPDATE,
};
use crate::records::{DecodeError, MessageModel, Tops1_6Message};
use crate::symbol::Symbol;

verus! {

/// A quote update flag byte with any reserved bit set is rejected as
/// malformed whenever the full fixed-length message is buffered — never
/// silently accepted.
pub proof fn lemma_quote_reserved_bits_rejected(input: Seq<u8>)
    requires
        input.len() >= QUOTE_UPDATE_LEN,
        input[0] == TAG_QUOTE_UPDATE,
        !quote_flags_valid(input[1]),
    ensures
        failed_as(input, DecodeError::Malformed),
{
}

/// Any input that starts with a known tag but is shorter than that tag's
/// required fixed length decodes to `Incomplete` — never to `Malformed` and
/// never to a record.
pub proof fn lemma_short_input_incomplete(input: Seq<u8>)
    requires
        input.len() >= 1,
        is_known_tag(input[0]),
        input.len() < required_len(input[0]),
    ensures
        failed_as(input, DecodeError::Incomplete),
{
}

/// A successful decode consumes exactly the fixed length that the leading
/// tag byte implies, so a buffer holding exactly one message is consumed
/// whole.
pub proof fn lemma_decoded_consumes_required_len(input: Seq<u8>, used: int, message: MessageModel)
    requires
        decode_model(input) == (DecodeModel::Decoded { used, message }),
    ensures
        input.len() >= 1,
        is_known_tag(input[0]),
        used == required_len(input[0]),
        used <= input.len(),
{
}

/// A buffer holding exactly one message is consumed whole: when the input
/// is exactly as long as its tag's fixed message length, a successful
/// decode leaves zero remaining bytes.
pub proof fn lemma_exact_message_leaves_nothing<S: Symbol>(
    input: Seq<u8>,
    r: Result<(&[u8], Tops1_6Message<S>), DecodeError>,
)
    requires
        decode_post::<S>(input, r),
        r is Ok,
        input.len() >= 1,
        input.len() == required_len(input[0]),
    ensures
        r->Ok_0.0@ =~= Seq::<u8>::empty(),
{
    let (rest, msg) = r->Ok_0;
    lemma_decoded_consumes_required_len(input, input.len() - rest@.len(), msg@);
}

/// Decoding is deterministic: two results of decoding the same byte buffer
/// are structurally equal — equal records under their views, equal
/// remainders, or the same failure. No hidden state affects the outcome.
pub proof fn lemma_decode_deterministic<S: Symbol>(
    input: Seq<u8>,
    r1: Result<(&[u8], Tops1_6Message<S>), DecodeError>,
    r2: Result<(&[u8], Tops1_6Message<S>), DecodeError>,
)
    requires
        decode_post::<S>(input, r1),
        decode_post::<S>(input, r2),
    ensures
        match (r1, r2) {
            (Ok((rest1, m1)), Ok((rest2, m2))) => m1@ == m2@ && rest1@ == rest2@,
            (Err(e1), Err(e2)) => e1 == e2,
            _ => false,
        },
{
}

} // verus!
