//! Ethereum values as the tool server reads them from text: addresses,
//! amounts in wei and hexadecimal data.
//!
//! `alloy_primitives` parses addresses and amounts and writes the checksum
//! form of an address; `hex` decodes data.

use vstd::prelude::*;
use vstd::string::*;
use crate::text::chars_of;

verus! {

/// An account on the ledger.
#[derive(Debug, Clone, Copy)]
pub struct EthAddress {
    pub bytes: [u8; 20],
}

/// An amount of wei below 2^256, as four limbs of 64 bits, the least
/// significant first.
#[derive(Debug, Clone, Copy)]
pub struct WeiAmount {
    pub limbs: [u64; 4],
}

/// The value of a hexadecimal digit.
pub open spec fn hex_value(c: char) -> Option<int> {
    if '0' <= c <= '9' {
        Some(c as int - '0' as int)
    } else if 'a' <= c <= 'f' {
        Some(c as int - 'a' as int + 10)
    } else if 'A' <= c <= 'F' {
        Some(c as int - 'A' as int + 10)
    } else {
        None
    }
}

/// Whether every character is a hexadecimal digit.
pub open spec fn is_hex(text: Seq<char>) -> bool {
    forall|i: int| 0 <= i < text.len() ==> (#[trigger] hex_value(text[i])) is Some
}

/// Whether the text writes bytes: an even number of hexadecimal digits.
pub open spec fn is_data(text: Seq<char>) -> bool {
    is_hex(text) && text.len() % 2 == 0
}

/// The bytes that the digits write, two digits to a byte, the high one first.
pub open spec fn hex_bytes(digits: Seq<char>) -> Seq<u8> {
    Seq::new(
        (digits.len() / 2) as nat,
        |i: int| (hex_value(digits[2 * i])->0 * 16 + hex_value(digits[2 * i + 1])->0) as u8,
    )
}

/// The lower-case digit of a value below 16.
pub open spec fn hex_digit(value: int) -> char {
    if value < 10 {
        (value + '0' as int) as char
    } else {
        (value - 10 + 'a' as int) as char
    }
}

/// The bytes in lower-case digits, two to a byte, the high one first.
pub open spec fn hex_text(bytes: Seq<u8>) -> Seq<char> {
    Seq::new(
        2 * bytes.len(),
        |i: int|
            if i % 2 == 0 {
                hex_digit(bytes[i / 2] as int / 16)
            } else {
                hex_digit(bytes[i / 2] as int % 16)
            },
    )
}

/// Whether the text begins with `0x`.
pub open spec fn has_prefix(text: Seq<char>) -> bool {
    text.len() >= 2 && text[0] == '0' && text[1] == 'x'
}

/// The text without one leading `0x` or `0X`, if it has one.
pub open spec fn without_prefix(text: Seq<char>) -> Seq<char> {
    if text.len() >= 2 && text[0] == '0' && (text[1] == 'x' || text[1] == 'X') {
        text.subrange(2, text.len() as int)
    } else {
        text
    }
}

/// The text without any of its leading repetitions of `0x`.
pub open spec fn without_prefixes(text: Seq<char>) -> Seq<char>
    decreases text.len(),
{
    if has_prefix(text) {
        without_prefixes(text.subrange(2, text.len() as int))
    } else {
        text
    }
}

/// Whether the text writes an address: forty hexadecimal digits, in either
/// case, after an optional `0x` or `0X`.
pub open spec fn is_address(text: Seq<char>) -> bool {
    without_prefix(text).len() == 40 && is_hex(without_prefix(text))
}

/// The message with which `alloy_primitives` refuses a text that writes no
/// address.
pub uninterp spec fn address_fault(text: Seq<char>) -> Seq<char>;

/// The checksum form of an address, as `alloy_primitives` writes it.
pub uninterp spec fn checksum_form(bytes: Seq<u8>) -> Seq<char>;

/// What `alloy_primitives` makes of a text as a 256-bit number: its four
/// limbs, the least significant first, or the message of its refusal.
pub uninterp spec fn wei_reading(text: Seq<char>) -> Result<Seq<u64>, Seq<char>>;

/// The message with which `hex` refuses a text that is no hexadecimal data.
pub uninterp spec fn hex_fault(text: Seq<char>) -> Seq<char>;

/// Whether the text begins with one of the radix marks of a number.
pub open spec fn has_radix_mark(text: Seq<char>) -> bool {
    &&& text.len() >= 2
    &&& text[0] == '0'
    &&& (text[1] == 'x' || text[1] == 'X' || text[1] == 'o' || text[1] == 'O' || text[1] == 'b'
        || text[1] == 'B')
}

/// Whether the character may stand in a decimal number: a digit, or the
/// underscore that groups digits.
pub open spec fn is_decimal_char(c: char) -> bool {
    ('0' <= c <= '9') || c == '_'
}

/// What is said of an amount without any digit.
pub const NO_DIGIT: &'static str = "the amount holds no digit";

/// Whether the text holds a decimal digit.
pub open spec fn has_digit(text: Seq<char>) -> bool {
    exists|i: int| 0 <= i < text.len() && '0' <= #[trigger] text[i] <= '9'
}

/// What a text is read as, as an amount of wei: what `alloy_primitives`
/// reads it as, as a 256-bit number, but a text without any digit writes
/// no amount, though the reader takes it for zero.
pub open spec fn wei_amount(text: Seq<char>) -> Result<Seq<u64>, Seq<char>> {
    match wei_reading(text) {
        Ok(limbs) => if has_digit(text) {
            Ok(limbs)
        } else {
            Err(NO_DIGIT@)
        },
        Err(message) => Err(message),
    }
}

/// Calls `Address::from_str` of `alloy_primitives` and takes the bytes of
/// the address, or the display text of the error. The contract claims what
/// the crate documents of its hexadecimal decoding into a fixed array: it
/// succeeds exactly on forty digits, in either case, after an optional `0x`
/// or `0X`, and the bytes are what the digits write.
#[verifier::external_body]
fn read_address(text: &str) -> (outcome: Result<[u8; 20], String>)
    ensures
        outcome is Ok <==> is_address(text@),
        outcome matches Ok(bytes) ==> bytes@ == hex_bytes(without_prefix(text@)),
        outcome matches Err(message) ==> message@ == address_fault(text@),
{
    match text.parse::<alloy_primitives::Address>() {
        Ok(address) => Ok(address.into_array()),
        Err(error) => Err(error.to_string()),
    }
}

/// Calls `Address::to_checksum` of `alloy_primitives` without a chain
/// identifier. The contract names the result, and claims that it writes
/// the same address: `0x` and the forty digits of the bytes, each letter
/// in the case that the checksum gives it.
#[verifier::external_body]
fn write_checksum(bytes: &[u8; 20]) -> (text: String)
    ensures
        text@ == checksum_form(bytes@),
        is_address(text@),
        hex_bytes(without_prefix(text@)) == bytes@,
{
    alloy_primitives::Address::new(*bytes).to_checksum(None)
}

/// Calls `U256::from_str` of `alloy_primitives` and takes the limbs of the
/// number, or the display text of the error. The contract names the
/// outcome, and claims that a text without a radix mark is refused where it
/// holds a character that is neither a decimal digit nor an underscore.
#[verifier::external_body]
fn read_wei(text: &str) -> (outcome: Result<[u64; 4], String>)
    ensures
        match outcome {
            Ok(limbs) => wei_reading(text@) == Ok::<Seq<u64>, Seq<char>>(limbs@),
            Err(message) => wei_reading(text@) == Err::<Seq<u64>, Seq<char>>(message@),
        },
        !has_radix_mark(text@) && (exists|i: int|
            0 <= i < text@.len() && !is_decimal_char(#[trigger] text@[i])) ==> outcome is Err,
{
    match text.parse::<alloy_primitives::U256>() {
        Ok(amount) => Ok(amount.into_limbs()),
        Err(error) => Err(error.to_string()),
    }
}

/// Calls `hex::decode` and takes the bytes, or the display text of the
/// error. The contract claims what the crate documents: it succeeds
/// exactly on an even number of hexadecimal digits, in either case, and the
/// bytes are what the digits write.
#[verifier::external_body]
fn read_hex(text: &str) -> (outcome: Result<Vec<u8>, String>)
    ensures
        outcome is Ok <==> is_data(text@),
        outcome matches Ok(bytes) ==> bytes@ == hex_bytes(text@),
        outcome matches Err(message) ==> message@ == hex_fault(text@),
{
    hex::decode(text).map_err(|error| error.to_string())
}

impl EthAddress {
    /// Reads an address. Fails with the reader's message where the text
    /// writes none.
    pub fn parse(text: &str) -> (outcome: Result<EthAddress, String>)
        ensures
            outcome is Ok <==> is_address(text@),
            outcome matches Ok(address) ==> address.bytes@ == hex_bytes(without_prefix(text@)),
            outcome matches Err(message) ==> message@ == address_fault(text@),
    {
        match read_address(text) {
            Ok(bytes) => Ok(EthAddress { bytes }),
            Err(message) => Err(message),
        }
    }

    /// The address in its checksum form, which is its canonical writing.
    pub fn checksum(&self) -> (text: String)
        ensures
            text@ == checksum_form(self.bytes@),
            is_address(text@),
            hex_bytes(without_prefix(text@)) == self.bytes@,
    {
        write_checksum(&self.bytes)
    }
}

/// Whether the text holds a decimal digit.
pub fn holds_digit(text: &str) -> (found: bool)
    ensures
        found == has_digit(text@),
{
    let chars = chars_of(text);
    let mut i: usize = 0;
    while i < chars.len()
        invariant
            i <= chars.len(),
            chars@ == text@,
            forall|k: int| 0 <= k < i ==> !('0' <= #[trigger] chars@[k] <= '9'),
        decreases chars.len() - i,
    {
        if '0' <= chars[i] && chars[i] <= '9' {
            return true;
        }
        i += 1;
    }
    false
}

impl WeiAmount {
    /// Reads an amount of wei. Fails with the reader's message where the
    /// text writes no number below 2^256, and where it holds no digit.
    pub fn parse(text: &str) -> (outcome: Result<WeiAmount, String>)
        ensures
            match outcome {
                Ok(amount) => wei_amount(text@) == Ok::<Seq<u64>, Seq<char>>(amount.limbs@),
                Err(message) => wei_amount(text@) == Err::<Seq<u64>, Seq<char>>(message@),
            },
            !has_digit(text@) ==> outcome is Err,
            !has_radix_mark(text@) && (exists|i: int|
                0 <= i < text@.len() && !is_decimal_char(#[trigger] text@[i]))
                ==> outcome is Err,
    {
        match read_wei(text) {
            Ok(limbs) => if holds_digit(text) {
                Ok(WeiAmount { limbs })
            } else {
                Err(NO_DIGIT.to_owned())
            },
            Err(message) => Err(message),
        }
    }
}

/// Behind a leading `0x`, the text has the same rest as the whole.
proof fn lemma_strip_one(whole: Seq<char>, from: int)
    requires
        0 <= from,
        from + 2 <= whole.len(),
        whole[from] == '0',
        whole[from + 1] == 'x',
    ensures
        without_prefixes(whole.subrange(from, whole.len() as int)) == without_prefixes(
            whole.subrange(from + 2, whole.len() as int),
        ),
{
    let now = whole.subrange(from, whole.len() as int);
    assert(now[0] == whole[from]);
    assert(now[1] == whole[from + 1]);
    assert(has_prefix(now));
    assert(now.subrange(2, now.len() as int) =~= whole.subrange(from + 2, whole.len() as int));
}

/// The text without any of its leading repetitions of `0x`.
pub fn strip_prefixes(text: &str) -> (rest: String)
    ensures
        rest@ == without_prefixes(text@),
{
    let chars = chars_of(text);
    let length: usize = chars.len();
    let mut from: usize = 0;
    proof {
        assert(chars@.subrange(0, length as int) =~= chars@);
    }
    while length - from >= 2 && chars[from] == '0' && chars[from + 1] == 'x'
        invariant
            from <= length,
            length == chars.len(),
            without_prefixes(chars@) == without_prefixes(
                chars@.subrange(from as int, length as int),
            ),
        decreases length - from,
    {
        proof {
            lemma_strip_one(chars@, from as int);
        }
        from += 2;
    }
    proof {
        let now = chars@.subrange(from as int, length as int);
        if now.len() >= 2 {
            assert(now[0] == chars@[from as int]);
            assert(now[1] == chars@[from + 1]);
        }
        assert(!has_prefix(now));
    }
    text.substring_char(from, length).to_owned()
}

/// Reads hexadecimal data, with or without leading `0x`. Fails with the
/// reader's message where what follows the prefix is not an even number of
/// hexadecimal digits.
pub fn decode_data(text: &str) -> (outcome: Result<Vec<u8>, String>)
    ensures
        outcome is Ok <==> is_data(without_prefixes(text@)),
        outcome matches Ok(bytes) ==> bytes@ == hex_bytes(without_prefixes(text@)),
        outcome matches Err(message) ==> message@ == hex_fault(without_prefixes(text@)),
{
    let digits = strip_prefixes(text);
    read_hex(digits.as_str())
}

/// The digit of a value below 16 is a hexadecimal digit of that value.
proof fn lemma_digit(value: int)
    requires
        0 <= value < 16,
    ensures
        hex_value(hex_digit(value)) == Some(value),
        hex_digit(value) != 'x',
{
}

/// Data that is encoded and then decoded is as it was: the text that
/// `encode_data` writes is read by `decode_data` as the same bytes.
pub proof fn law_encode_then_decode(bytes: Seq<u8>)
    ensures
        without_prefixes("0x"@ + hex_text(bytes)) == hex_text(bytes),
        is_data(hex_text(bytes)),
        hex_bytes(hex_text(bytes)) == bytes,
{
    let digits = hex_text(bytes);
    assert forall|i: int| 0 <= i < digits.len() implies (#[trigger] hex_value(digits[i]))
        is Some by {
        lemma_digit(bytes[i / 2] as int / 16);
        lemma_digit(bytes[i / 2] as int % 16);
    }
    assert forall|i: int| 0 <= i < bytes.len() implies hex_bytes(digits)[i] == bytes[i] by {
        lemma_digit(bytes[i] as int / 16);
        lemma_digit(bytes[i] as int % 16);
        assert(digits[2 * i] == hex_digit(bytes[i] as int / 16));
        assert(digits[2 * i + 1] == hex_digit(bytes[i] as int % 16));
    }
    assert(hex_bytes(digits) =~= bytes);
    reveal_strlit("0x");
    let whole = "0x"@ + digits;
    assert(has_prefix(whole));
    assert(whole.subrange(2, whole.len() as int) =~= digits);
    if digits.len() >= 2 {
        lemma_digit(bytes[0] as int % 16);
        assert(digits[1] == hex_digit(bytes[0] as int % 16));
    }
    assert(!has_prefix(digits));
    assert(without_prefixes(digits) == digits);
    assert(without_prefixes(whole) == without_prefixes(whole.subrange(2, whole.len() as int)));
}

/// The text of the lower-case digit of a value below 16.
fn digit_text(value: u8) -> (text: &'static str)
    requires
        value < 16,
    ensures
        text@ == seq![hex_digit(value as int)],
{
    proof {
        reveal_strlit("0");
        reveal_strlit("1");
        reveal_strlit("2");
        reveal_strlit("3");
        reveal_strlit("4");
        reveal_strlit("5");
        reveal_strlit("6");
        reveal_strlit("7");
        reveal_strlit("8");
        reveal_strlit("9");
        reveal_strlit("a");
        reveal_strlit("b");
        reveal_strlit("c");
        reveal_strlit("d");
        reveal_strlit("e");
        reveal_strlit("f");
    }
    let text = if value == 0 {
        "0"
    } else if value == 1 {
        "1"
    } else if value == 2 {
        "2"
    } else if value == 3 {
        "3"
    } else if value == 4 {
        "4"
    } else if value == 5 {
        "5"
    } else if value == 6 {
        "6"
    } else if value == 7 {
        "7"
    } else if value == 8 {
        "8"
    } else if value == 9 {
        "9"
    } else if value == 10 {
        "a"
    } else if value == 11 {
        "b"
    } else if value == 12 {
        "c"
    } else if value == 13 {
        "d"
    } else if value == 14 {
        "e"
    } else {
        "f"
    };
    assert(text@ =~= seq![hex_digit(value as int)]);
    text
}

/// The bytes in lower-case hexadecimal digits behind `0x`, two digits to a
/// byte, the high one first.
pub fn encode_data(bytes: &Vec<u8>) -> (text: String)
    ensures
        text@ == "0x"@ + hex_text(bytes@),
{
    let mut text = String::from_str("0x");
    let mut i: usize = 0;
    proof {
        assert(hex_text(bytes@.subrange(0, 0)) =~= Seq::<char>::empty());
        assert("0x"@ + Seq::<char>::empty() =~= "0x"@);
    }
    while i < bytes.len()
        invariant
            i <= bytes.len(),
            text@ == "0x"@ + hex_text(bytes@.subrange(0, i as int)),
        decreases bytes.len() - i,
    {
        let byte = bytes[i];
        proof {
            let done = bytes@.subrange(0, i as int);
            let next = bytes@.subrange(0, i + 1);
            assert(next[i as int] == byte);
            assert(hex_text(next) =~= hex_text(done) + seq![hex_digit(byte as int / 16)] + seq![
                hex_digit(byte as int % 16),
            ]) by {
                assert forall|j: int| 0 <= j < 2 * i implies hex_text(next)[j] == hex_text(
                    done,
                )[j] by {
                    assert(next[j / 2] == done[j / 2]);
                }
            }
            assert(("0x"@ + hex_text(done)) + seq![hex_digit(byte as int / 16)] + seq![
                hex_digit(byte as int % 16),
            ] =~= "0x"@ + hex_text(next));
        }
        text.append(digit_text(byte / 16));
        text.append(digit_text(byte % 16));
        i += 1;
    }
    proof {
        assert(bytes@.subrange(0, bytes.len() as int) =~= bytes@);
    }
    text
}

} // verus!
