//! Hexadecimal text.

use vstd::prelude::*;

use crate::text::texts;

verus! {

/// The lower-case hexadecimal digit that stands for `n`.
pub open spec fn hex_digit(n: nat) -> char
    recommends
        n < 16,
{
    if n < 10 {
        ('0' as u32 + n) as char
    } else {
        ('a' as u32 + (n - 10)) as char
    }
}

/// What a hexadecimal digit of either case stands for.
pub open spec fn hex_value(c: char) -> Option<nat> {
    if '0' <= c <= '9' {
        Some((c as u32 - '0' as u32) as nat)
    } else if 'a' <= c <= 'f' {
        Some((c as u32 - 'a' as u32 + 10) as nat)
    } else if 'A' <= c <= 'F' {
        Some((c as u32 - 'A' as u32 + 10) as nat)
    } else {
        None
    }
}

/// Two lower-case digits for each byte, the high one first.
pub open spec fn hex_text(data: Seq<u8>) -> Seq<char> {
    Seq::new(
        2 * data.len(),
        |i: int|
            if i % 2 == 0 {
                hex_digit(data[i / 2] as nat / 16)
            } else {
                hex_digit(data[i / 2] as nat % 16)
            },
    )
}

/// Whether `text` is an even number of hexadecimal digits.
pub open spec fn is_hex(text: Seq<char>) -> bool {
    &&& text.len() % 2 == 0
    &&& forall|i: int| 0 <= i < text.len() ==> hex_value(#[trigger] text[i]) is Some
}

/// The bytes that pairs of hexadecimal digits stand for.
pub open spec fn hex_bytes(text: Seq<char>) -> Seq<u8> {
    Seq::new(
        text.len() / 2,
        |i: int| (16 * hex_value(text[2 * i])->0 + hex_value(text[2 * i + 1])->0) as u8,
    )
}

/// The messages with which `hex::decode` refuses `text`: its own and those of its causes.
pub uninterp spec fn hex_error(text: Seq<char>) -> Seq<Seq<char>>;

/// `hex::encode`: two lower-case digits for each byte, the high one first.
#[verifier::external_body]
pub(crate) fn encode_hex(data: &[u8]) -> (r: String)
    ensures
        r@ == hex_text(data@),
{
    hex::encode(data)
}

/// `hex::decode`: reads pairs of digits of either case, and refuses every other text. The wording
/// of the refusal is the crate's own; `anyhow::Chain` hands it out from the error to its root cause.
#[verifier::external_body]
pub(crate) fn decode_hex(text: &str) -> (r: Result<Vec<u8>, Vec<String>>)
    ensures
        match r {
            Ok(data) => is_hex(text@) && data@ == hex_bytes(text@),
            Err(messages) => !is_hex(text@) && texts(messages@) == hex_error(text@),
        },
{
    hex::decode(text).map_err(|e| anyhow::Chain::new(&e).map(|c| c.to_string()).collect())
}

/// Reading hexadecimal text gives back the bytes that were written as it.
pub proof fn hex_reads_back(data: Seq<u8>)
    ensures
        is_hex(hex_text(data)),
        hex_bytes(hex_text(data)) == data,
{
    let text = hex_text(data);
    assert forall|i: int| 0 <= i < text.len() implies hex_value(#[trigger] text[i]) is Some by {}
    assert forall|i: int| 0 <= i < data.len() implies hex_bytes(text)[i] == data[i] by {
        let d = data[i] as nat;
        assert(text[2 * i] == hex_digit(d / 16));
        assert(text[2 * i + 1] == hex_digit(d % 16));
        assert(hex_value(text[2 * i]) == Some(d / 16));
        assert(hex_value(text[2 * i + 1]) == Some(d % 16));
    }
    assert(hex_bytes(text) =~= data);
}

} // verus!
