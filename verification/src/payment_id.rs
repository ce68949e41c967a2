//! The identifier of a payment attempt.

use vstd::prelude::*;
use crate::hex_text::{decode_32, decode_fixed, encode_lower, lemma_decode_lower_hex, lower_hex};

verus! {

/// Number of bytes in a payment identifier.
pub const PAYMENT_ID_LENGTH: usize = 32;

/// The key that names one payment attempt. Its bytes carry no structure; on the
/// wire it travels as `2 * PAYMENT_ID_LENGTH` hexadecimal digits.
#[derive(Clone, Copy, Debug, PartialEq, Eq, Hash)]
pub struct PaymentId(pub [u8; PAYMENT_ID_LENGTH]);

impl View for PaymentId {
    type V = Seq<u8>;

    open spec fn view(&self) -> Seq<u8> {
        self.0@
    }
}

/// The bytes of the identifier that `text` names, if it names one: `text` must
/// hold exactly `2 * PAYMENT_ID_LENGTH` hexadecimal digits.
pub open spec fn decode_payment_id(text: Seq<char>) -> Option<Seq<u8>> {
    decode_fixed(text, PAYMENT_ID_LENGTH as nat)
}

impl PaymentId {
    /// Reads an identifier from its hexadecimal text. Text that is not
    /// hexadecimal, or not of the one accepted length, gives `None`.
    pub fn from_hex(text: &str) -> (id: Option<PaymentId>)
        ensures
            match id {
                Some(id) => decode_payment_id(text@) == Some(id@),
                None => decode_payment_id(text@) is None,
            },
    {
        match decode_32(text) {
            Ok(bytes) => Some(PaymentId(bytes)),
            Err(_) => None,
        }
    }

    /// Writes the identifier as lowercase hexadecimal text, which `from_hex`
    /// reads back as this identifier.
    pub fn to_hex(&self) -> (text: String)
        ensures
            text@ == lower_hex(self@),
            decode_payment_id(text@) == Some(self@),
    {
        proof {
            lemma_payment_id_round_trip(self@);
        }
        encode_lower(self.0.as_slice())
    }
}

/// Round trip: the lowercase hexadecimal text of an identifier's bytes decodes
/// to those bytes.
pub proof fn lemma_payment_id_round_trip(bytes: Seq<u8>)
    requires
        bytes.len() == PAYMENT_ID_LENGTH,
    ensures
        decode_payment_id(lower_hex(bytes)) == Some(bytes),
{
    lemma_decode_lower_hex(bytes);
}

} // verus!
