use sha2::{Digest, Sha256};
use vstd::prelude::*;
use crate::encoding::{hex_digit, hex_digit_of, is_hex_char};

verus! {

/// The SHA-256 digest of the UTF-8 bytes of a text.
pub uninterp spec fn sha256(text: Seq<char>) -> Seq<u8>;

/// Calls `Sha256::new`, `chain_update` and `finalize` of the crate sha2 on
/// the bytes of `text`. Trusted: the bytes that come back are the SHA-256
/// digest of the text, which is a function of the text alone and 32 bytes
/// long.
#[verifier::external_body]
pub(crate) fn sha256_of(text: &String) -> (digest: Vec<u8>)
    ensures
        digest@ == sha256(text@),
        digest@.len() == 32,
{
    Sha256::new().chain_update(text.as_bytes()).finalize().to_vec()
}

/// Every byte as two lowercase hexadecimal digits, the high half first.
pub open spec fn hex_string(bytes: Seq<u8>) -> Seq<char>
    decreases bytes.len(),
{
    if bytes.len() == 0 {
        Seq::empty()
    } else {
        hex_string(bytes.drop_last()).push(hex_digit(bytes.last() as int / 16)).push(
            hex_digit(bytes.last() as int % 16),
        )
    }
}

/// A hexadecimal rendering is twice as long as the bytes and holds
/// hexadecimal digits only.
pub proof fn lemma_hex_string(bytes: Seq<u8>)
    ensures
        hex_string(bytes).len() == 2 * bytes.len(),
        forall|i: int| 0 <= i < hex_string(bytes).len() ==> is_hex_char(#[trigger] hex_string(bytes)[i]),
    decreases bytes.len(),
{
    if bytes.len() > 0 {
        lemma_hex_string(bytes.drop_last());
        let high = bytes.last() as int / 16;
        let low = bytes.last() as int % 16;
        assert(is_hex_char(hex_digit(high)));
        assert(is_hex_char(hex_digit(low)));
    }
}

/// Renders bytes as lowercase hexadecimal text.
pub fn to_hex(bytes: &Vec<u8>) -> (text: String)
    ensures
        text@ == hex_string(bytes@),
{
    let mut text = String::new();
    let mut i: usize = 0;
    while i < bytes.len()
        invariant
            i <= bytes.len(),
            text@ == hex_string(bytes@.take(i as int)),
        decreases bytes.len() - i,
    {
        let b: u8 = bytes[i];
        text.push(hex_digit_of(b / 16));
        text.push(hex_digit_of(b % 16));
        proof {
            let next = bytes@.take(i + 1);
            assert(next.drop_last() =~= bytes@.take(i as int));
            assert(next.last() == b);
        }
        i = i + 1;
    }
    proof {
        assert(bytes@.take(bytes.len() as int) =~= bytes@);
    }
    text
}

/// The digest of a text as it is written into a block: SHA-256, in
/// lowercase hexadecimal.
pub open spec fn text_digest(text: Seq<char>) -> Seq<char> {
    hex_string(sha256(text))
}

/// A text in the shape of a digest: 64 lowercase hexadecimal digits.
pub open spec fn is_digest_text(text: Seq<char>) -> bool {
    &&& text.len() == 64
    &&& forall|i: int| 0 <= i < text.len() ==> is_hex_char(#[trigger] text[i])
}

/// Computes the hexadecimal SHA-256 digest of `text`.
pub fn digest_of_text(text: &String) -> (hex: String)
    ensures
        hex@ == text_digest(text@),
        is_digest_text(hex@),
{
    let raw = sha256_of(text);
    proof {
        lemma_hex_string(raw@);
    }
    to_hex(&raw)
}

} // verus!
