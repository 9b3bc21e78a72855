//! Base58 text for byte strings, in the Bitcoin alphabet: what the text of a
//! byte string is, which texts denote byte strings, and the calls into the
//! `bs58` crate that produce and read them.
//!
//! A byte string is written as one `1` for each zero byte at its head,
//! followed by the digits in base 58 of the number that the bytes denote
//! big-endian, most significant digit first and none for zero.

use crate::bytes::{be_nat, lemma_be_nat_zero};
use vstd::prelude::*;

verus! {

/// The error with which `bs58` refuses a text.
#[verifier::external_type_specification]
#[verifier::external_body]
pub struct ExBase58DecodeError(bs58::decode::Error);

/// The character for a digit below 58, from the alphabet
/// `123456789ABCDEFGHJKLMNPQRSTUVWXYZabcdefghijkmnopqrstuvwxyz`.
pub open spec fn base58_char(digit: nat) -> char {
    if digit < 9 {
        ((49 + digit) as u8) as char
    } else if digit < 17 {
        ((56 + digit) as u8) as char
    } else if digit < 22 {
        ((57 + digit) as u8) as char
    } else if digit < 33 {
        ((58 + digit) as u8) as char
    } else if digit < 44 {
        ((64 + digit) as u8) as char
    } else {
        ((65 + digit) as u8) as char
    }
}

/// The digit that a character of the alphabet stands for; `None` for any
/// other character.
pub open spec fn base58_digit(c: char) -> Option<nat> {
    let code = c as u32;
    if 49 <= code <= 57 {
        Some((code - 49) as nat)
    } else if 65 <= code <= 72 {
        Some((code - 56) as nat)
    } else if 74 <= code <= 78 {
        Some((code - 57) as nat)
    } else if 80 <= code <= 90 {
        Some((code - 58) as nat)
    } else if 97 <= code <= 107 {
        Some((code - 64) as nat)
    } else if 109 <= code <= 122 {
        Some((code - 65) as nat)
    } else {
        None
    }
}

/// The digits of a number in base 58, most significant first; none for zero.
pub open spec fn base58_digits(value: nat) -> Seq<char>
    decreases value,
{
    if value == 0 {
        Seq::empty()
    } else {
        base58_digits(value / 58).push(base58_char(value % 58))
    }
}

/// The number that a string of digits denotes in base 58.
pub open spec fn base58_value(text: Seq<char>) -> nat
    decreases text.len(),
{
    if text.len() == 0 {
        0
    } else {
        base58_value(text.drop_last()) * 58 + base58_digit(text.last()).unwrap()
    }
}

/// The shortest big-endian byte string of a number; empty for zero.
pub open spec fn minimal_bytes(value: nat) -> Seq<u8>
    decreases value,
{
    if value == 0 {
        Seq::empty()
    } else {
        minimal_bytes(value / 256).push((value % 256) as u8)
    }
}

/// The number of zero bytes at the head of a byte string.
pub open spec fn leading_zeros(bytes: Seq<u8>) -> nat
    decreases bytes.len(),
{
    if bytes.len() > 0 && bytes[0] == 0 {
        1 + leading_zeros(bytes.drop_first())
    } else {
        0
    }
}

/// The number of `1` characters at the head of a text.
pub open spec fn leading_ones(text: Seq<char>) -> nat
    decreases text.len(),
{
    if text.len() > 0 && text[0] == '1' {
        1 + leading_ones(text.drop_first())
    } else {
        0
    }
}

/// The Base58 text of a byte string.
pub open spec fn base58_text(bytes: Seq<u8>) -> Seq<char> {
    Seq::new(leading_zeros(bytes), |i: int| '1') + base58_digits(be_nat(bytes))
}

/// Whether a text is Base58: characters of the alphabet and nothing else.
pub open spec fn is_base58(text: Seq<char>) -> bool {
    forall|i: int| 0 <= i < text.len() ==> (#[trigger] base58_digit(text[i])) is Some
}

/// The byte string that a Base58 text denotes; `None` where the text is not
/// Base58.
pub open spec fn base58_bytes(text: Seq<char>) -> Option<Seq<u8>> {
    if is_base58(text) {
        Some(Seq::new(leading_ones(text), |i: int| 0u8) + minimal_bytes(base58_value(text)))
    } else {
        None
    }
}

proof fn lemma_char_digit(digit: nat)
    requires
        digit < 58,
    ensures
        base58_digit(base58_char(digit)) == Some(digit),
        base58_char(digit) == '1' <==> digit == 0,
{
}

/// The digits of a number are Base58, denote the number, and do not open
/// with the digit for zero.
proof fn lemma_digits(value: nat)
    ensures
        is_base58(base58_digits(value)),
        base58_value(base58_digits(value)) == value,
        value == 0 ==> base58_digits(value).len() == 0,
        value > 0 ==> base58_digits(value).len() > 0 && base58_digits(value)[0] != '1',
    decreases value,
{
    if value > 0 {
        let head = base58_digits(value / 58);
        let text = base58_digits(value);
        lemma_digits(value / 58);
        lemma_char_digit(value % 58);
        assert(text.drop_last() =~= head);
        assert(text.last() == base58_char(value % 58));
        assert forall|i: int| 0 <= i < text.len() implies (#[trigger] base58_digit(
            text[i],
        )) is Some by {
            if i < head.len() {
                assert(text[i] == head[i]);
            }
        }
        if value / 58 > 0 {
            assert(text[0] == head[0]);
        } else {
            assert(value % 58 == value);
        }
    }
}

/// A byte string that does not open with a zero byte is the shortest one of
/// its number.
proof fn lemma_minimal_bytes(bytes: Seq<u8>)
    requires
        bytes.len() == 0 || bytes[0] != 0,
    ensures
        minimal_bytes(be_nat(bytes)) == bytes,
    decreases bytes.len(),
{
    if bytes.len() == 0 {
        assert(minimal_bytes(0) =~= bytes);
    } else {
        let init = bytes.drop_last();
        let value = be_nat(bytes);
        lemma_be_nat_zero(bytes);
        assert(value > 0);
        assert(value / 256 == be_nat(init));
        assert(value % 256 == bytes.last() as nat);
        if init.len() > 0 {
            assert(init[0] == bytes[0]);
        }
        lemma_minimal_bytes(init);
        assert(minimal_bytes(value) =~= bytes);
    }
}

/// A zero byte at the head does not change the number.
proof fn lemma_zero_head(bytes: Seq<u8>)
    ensures
        be_nat(seq![0u8] + bytes) == be_nat(bytes),
    decreases bytes.len(),
{
    let whole = seq![0u8] + bytes;
    if bytes.len() == 0 {
        assert(whole.drop_last() =~= Seq::<u8>::empty());
        assert(be_nat(whole.drop_last()) == 0);
    } else {
        lemma_zero_head(bytes.drop_last());
        assert(whole.drop_last() =~= seq![0u8] + bytes.drop_last());
        assert(whole.last() == bytes.last());
    }
}

/// A `1` at the head does not change the number.
proof fn lemma_one_head(text: Seq<char>)
    ensures
        base58_value(seq!['1'] + text) == base58_value(text),
    decreases text.len(),
{
    let whole = seq!['1'] + text;
    if text.len() == 0 {
        assert(whole.drop_last() =~= Seq::<char>::empty());
        assert(base58_value(whole.drop_last()) == 0);
        assert(base58_digit('1') == Some(0nat));
    } else {
        lemma_one_head(text.drop_last());
        assert(whole.drop_last() =~= seq!['1'] + text.drop_last());
        assert(whole.last() == text.last());
    }
}

/// Reading the text of a byte string gives the byte string back.
pub proof fn lemma_base58_round_trip(bytes: Seq<u8>)
    ensures
        base58_bytes(base58_text(bytes)) == Some(bytes),
    decreases bytes.len(),
{
    let text = base58_text(bytes);
    lemma_digits(be_nat(bytes));
    if bytes.len() > 0 && bytes[0] == 0 {
        let rest = bytes.drop_first();
        let rest_text = base58_text(rest);
        lemma_base58_round_trip(rest);
        assert(bytes =~= seq![0u8] + rest);
        lemma_zero_head(rest);
        assert(text =~= seq!['1'] + rest_text);
        lemma_one_head(rest_text);
        assert(text.drop_first() =~= rest_text);
        assert(base58_digit('1') == Some(0nat));
        assert forall|i: int| 0 <= i < text.len() implies (#[trigger] base58_digit(
            text[i],
        )) is Some by {
            if i > 0 {
                assert(text[i] == rest_text[i - 1]);
            }
        }
        assert(base58_bytes(text).unwrap() =~= seq![0u8] + base58_bytes(rest_text).unwrap());
    } else {
        assert(leading_zeros(bytes) == 0);
        assert(text =~= base58_digits(be_nat(bytes)));
        assert(leading_ones(text) == 0);
        lemma_minimal_bytes(bytes);
        assert(base58_bytes(text).unwrap() =~= bytes);
    }
}

/// Calls `bs58::encode(..).into_string()`, which writes one `1` for each
/// zero byte at the head and then the number of the bytes in base 58 with the
/// Bitcoin alphabet. The contract is that description; nothing of it is
/// proved.
#[verifier::external_body]
pub(crate) fn encode_base58(bytes: &[u8]) -> (text: String)
    ensures
        text@ == base58_text(bytes@),
{
    bs58::encode(bytes).into_string()
}

/// Calls `bs58::decode(..).into_vec()`, which refuses a text with a
/// character outside the Bitcoin alphabet and otherwise gives one zero byte
/// for each `1` at the head and then the shortest bytes of the number that
/// the digits denote. The contract is that description; nothing of it is
/// proved.
#[verifier::external_body]
pub(crate) fn decode_base58(text: &str) -> (r: Result<Vec<u8>, bs58::decode::Error>)
    ensures
        match r {
            Ok(bytes) => base58_bytes(text@) == Some(bytes@),
            Err(_) => base58_bytes(text@) is None,
        },
{
    bs58::decode(text).into_vec()
}

} // verus!
