//! The calls that the library makes into other crates.
//!
//! Each function here makes one such call on plain values. What its contract says of the call is
//! believed, not proved.

use vstd::prelude::*;

use commonware_codec::{Decode, DecodeExt, Encode, EncodeFixed};
use commonware_cryptography::Signer as _;

use crate::types::{LogLevel, Quota, Share};

verus! {

/// The error of `commonware_codec` when bytes are no encoding of a value.
#[verifier::external_type_specification]
#[verifier::external_body]
pub struct ExCodecError(commonware_codec::Error);

/// The error of `alloy_rpc_types_engine` when a text is no secret.
#[verifier::external_type_specification]
#[verifier::external_body]
pub struct ExJwtError(alloy_rpc_types_engine::JwtError);

/// The error of `url` when a text is no URL.
#[verifier::external_type_specification]
#[verifier::external_body]
pub struct ExUrlError(url::ParseError);

/// The error of `tracing` when a text names no level.
#[verifier::external_type_specification]
#[verifier::external_body]
pub struct ExLevelError(tracing::metadata::ParseLevelError);

/// The characters that are skipped wherever they stand in a hexadecimal text.
pub open spec fn is_hex_blank(c: char) -> bool {
    c == '\t' || c == '\n' || c == '\r' || c == ' '
}

/// The text without blanks and without a `0x` in front.
pub open spec fn hex_body(text: Seq<char>) -> Seq<char> {
    let bare = text.filter(|c: char| !is_hex_blank(c));
    if bare.len() >= 2 && bare[0] == '0' && bare[1] == 'x' {
        bare.skip(2)
    } else {
        bare
    }
}

/// The value of a hexadecimal digit of either case.
pub open spec fn hex_digit(c: char) -> Option<int> {
    if '0' <= c <= '9' {
        Some(c as int - '0' as int)
    } else if 'a' <= c <= 'f' {
        Some(c as int - 'a' as int + 10)
    } else if 'A' <= c <= 'F' {
        Some(c as int - 'A' as int + 10)
    } else {
        None
    }
}

/// The value of two characters as one byte: two digits, or a plus sign and one digit.
pub open spec fn hex_pair(high: char, low: char) -> Option<int> {
    match (hex_digit(high), hex_digit(low)) {
        (Some(h), Some(l)) => Some(16 * h + l),
        (None, Some(l)) if high == '+' => Some(l),
        _ => None,
    }
}

/// The bytes that a hexadecimal text stands for, if it is one.
pub open spec fn hex_decoded(text: Seq<char>) -> Option<Seq<u8>> {
    let body = hex_body(text);
    if vstd::utf8::is_ascii_chars(text) && body.len() % 2 == 0 && forall|i: int|
        0 <= i < body.len() / 2 ==> #[trigger] hex_pair(body[2 * i], body[2 * i + 1]) is Some {
        Some(Seq::new(body.len() / 2, |i: int| hex_pair(body[2 * i], body[2 * i + 1])->0 as u8))
    } else {
        None
    }
}

/// `commonware_utils::from_hex_formatted`: drops tabs, line ends and spaces, drops a leading `0x`,
/// and reads the rest two characters at a time as the digits of a byte. It answers with nothing
/// where a character is left over or a pair is no byte. A text that is not ASCII is kept from it,
/// because it can cut such a text inside a character.
#[verifier::external_body]
pub(crate) fn from_hex_formatted(text: &str) -> (bytes: Option<Vec<u8>>)
    requires
        vstd::utf8::is_ascii_chars(text@),
    ensures
        match bytes {
            Some(bytes) => hex_decoded(text@) == Some(bytes@),
            None => hex_decoded(text@) is None,
        },
{
    commonware_utils::from_hex_formatted(text)
}

/// The bytes that a hexadecimal text stands for, if it is one.
pub fn hex_bytes(text: &str) -> (bytes: Option<Vec<u8>>)
    ensures
        match bytes {
            Some(bytes) => hex_decoded(text@) == Some(bytes@),
            None => hex_decoded(text@) is None,
        },
{
    if text.is_ascii() {
        from_hex_formatted(text)
    } else {
        None
    }
}

/// The SHA-256 digest of the given bytes.
pub uninterp spec fn sha256_of(bytes: Seq<u8>) -> Seq<u8>;

/// `commonware_cryptography::sha256::hash`, named: the SHA-256 digest of the bytes.
#[verifier::external_body]
pub(crate) fn sha256(bytes: &[u8]) -> (digest: [u8; 32])
    ensures
        digest@ == sha256_of(bytes@),
{
    commonware_cryptography::sha256::hash(bytes).encode_fixed()
}

/// The size of a quorum of `n` participants: all but the faults that `n` tolerates.
pub open spec fn quorum_of(n: int) -> int {
    n - (n - 1) / 3
}

/// `commonware_utils::quorum`: all participants but a third of those beyond the first. It panics
/// where there is none.
#[verifier::external_body]
pub(crate) fn quorum(n: u32) -> (size: u32)
    requires
        n > 0,
    ensures
        size == quorum_of(n as int),
{
    commonware_utils::quorum(n)
}

/// A number in groups of seven bits, the lowest first, each but the last marked by its top bit.
pub open spec fn varint(n: nat) -> Seq<u8>
    decreases n,
{
    if n < 128 {
        seq![n as u8]
    } else {
        seq![(n % 128 + 128) as u8] + varint(n / 128)
    }
}

/// `commonware_utils::union_unique`: the length of the namespace as a variable-length number, the
/// namespace, and the message. It panics where the length takes more than 32 bits.
#[verifier::external_body]
pub(crate) fn union_unique(namespace: &[u8], message: &[u8]) -> (union: Vec<u8>)
    requires
        namespace@.len() <= u32::MAX,
        namespace@.len() + message@.len() + 5 <= usize::MAX,
    ensures
        union@ == varint(namespace@.len()) + namespace@ + message@,
{
    commonware_utils::union_unique(namespace, message)
}

/// The share of a threshold key that the given bytes encode: its index and its secret scalar.
pub uninterp spec fn share_from_bytes(bytes: Seq<u8>) -> Option<(u32, Seq<u8>)>;

/// `commonware_cryptography::bls12381::primitives::group::Share::decode`, named: the index and the
/// scalar that the bytes encode, or an error.
#[verifier::external_body]
pub(crate) fn decode_share(bytes: &[u8]) -> (share: Result<Share, commonware_codec::Error>)
    ensures
        match share {
            Ok(share) => share_from_bytes(bytes@) == Some((share.index, share.private@)),
            Err(_) => share_from_bytes(bytes@) is None,
        },
{
    match commonware_cryptography::bls12381::primitives::group::Share::decode(bytes) {
        Ok(share) => Ok(Share { index: share.index, private: share.private.encode_fixed() }),
        Err(error) => Err(error),
    }
}

/// The number of bytes that encode a coefficient of a public polynomial.
pub const COEFFICIENT_SIZE: usize = 48;

/// The encoding of the public polynomial of the given number of coefficients that the bytes hold.
pub uninterp spec fn polynomial_from_bytes(bytes: Seq<u8>, coefficients: usize) -> Option<Seq<u8>>;

/// `commonware_cryptography::bls12381::primitives::poly::Public::<MinPk>::decode_cfg`, named: the
/// polynomial that the bytes encode, by its own encoding, or an error. What is decoded has as many
/// coefficients as were asked for, each of the size of a compressed point of G1.
#[verifier::external_body]
pub(crate) fn decode_polynomial(bytes: &[u8], coefficients: usize) -> (polynomial: Result<
    Vec<u8>,
    commonware_codec::Error,
>)
    requires
        coefficients * COEFFICIENT_SIZE <= usize::MAX,
    ensures
        match polynomial {
            Ok(polynomial) => polynomial_from_bytes(bytes@, coefficients) == Some(polynomial@)
                && polynomial@.len() == coefficients * COEFFICIENT_SIZE,
            Err(_) => polynomial_from_bytes(bytes@, coefficients) is None,
        },
{
    match commonware_cryptography::bls12381::primitives::poly::Public::<
        commonware_cryptography::bls12381::primitives::variant::MinPk,
    >::decode_cfg(bytes, &coefficients) {
        Ok(polynomial) => Ok(polynomial.encode().to_vec()),
        Err(error) => Err(error),
    }
}

/// The public key of the private key that the given bytes encode.
pub uninterp spec fn public_key_from_private(bytes: Seq<u8>) -> Option<Seq<u8>>;

/// `commonware_cryptography::bls12381::PrivateKey::public_key`, named: the public key of the
/// private key that the bytes encode, or an error where they encode none.
#[verifier::external_body]
pub(crate) fn public_key(private_key: &[u8]) -> (public_key: Result<[u8; 48], commonware_codec::Error>)
    ensures
        match public_key {
            Ok(public_key) => public_key_from_private(private_key@) == Some(public_key@),
            Err(_) => public_key_from_private(private_key@) is None,
        },
{
    match commonware_cryptography::bls12381::PrivateKey::decode(private_key) {
        Ok(private_key) => Ok(private_key.public_key().encode_fixed()),
        Err(error) => Err(error),
    }
}

/// The quota of a number of cells per second, all of which may come in one burst.
pub open spec fn quota_of(cells: u32) -> Quota {
    Quota { burst_size: cells, replenish_interval_ns: (1_000_000_000int / cells as int) as u64 }
}

/// `governor::Quota::per_second`: the given number of cells as the burst size, each replenished in
/// its part of a second, rounded down to nanoseconds.
#[verifier::external_body]
pub(crate) fn quota_per_second(cells: u32) -> (quota: Quota)
    requires
        cells > 0,
    ensures
        quota == quota_of(cells),
{
    let quota = governor::Quota::per_second(std::num::NonZeroU32::new(cells).unwrap());
    Quota {
        burst_size: quota.burst_size().get(),
        replenish_interval_ns: quota.replenish_interval().as_nanos() as u64,
    }
}

/// The characters that Unicode counts as white space.
pub open spec fn is_white_space(c: char) -> bool {
    let code = c as int;
    ||| 0x9 <= code <= 0xd
    ||| code == 0x20
    ||| code == 0x85
    ||| code == 0xa0
    ||| code == 0x1680
    ||| 0x2000 <= code <= 0x200a
    ||| code == 0x2028
    ||| code == 0x2029
    ||| code == 0x202f
    ||| code == 0x205f
    ||| code == 0x3000
}

/// The text without the white space at its ends.
pub open spec fn trimmed(text: Seq<char>) -> Seq<char>
    decreases text.len(),
{
    if text.len() == 0 {
        text
    } else if is_white_space(text.first()) {
        trimmed(text.drop_first())
    } else if is_white_space(text.last()) {
        trimmed(text.drop_last())
    } else {
        text
    }
}

/// The text without white space at its ends and without a `0x` of either case in front.
pub open spec fn secret_digits(text: Seq<char>) -> Seq<char> {
    let bare = trimmed(text);
    if bare.len() >= 2 && bare[0] == '0' && (bare[1] == 'x' || bare[1] == 'X') {
        bare.skip(2)
    } else {
        bare
    }
}

/// The secret that the given text stands for: 32 bytes, in 64 hexadecimal digits.
pub open spec fn jwt_secret_from_hex(text: Seq<char>) -> Option<Seq<u8>> {
    let digits = secret_digits(text);
    if digits.len() == 64 && forall|i: int| 0 <= i < 64 ==> hex_digit(#[trigger] digits[i]) is Some {
        Some(
            Seq::new(
                32,
                |i: int| (16 * hex_digit(digits[2 * i])->0 + hex_digit(digits[2 * i + 1])->0) as u8,
            ),
        )
    } else {
        None
    }
}

/// `alloy_rpc_types_engine::JwtSecret::from_hex`: drops white space at the ends and a leading `0x`
/// or `0X`, and reads the rest as 32 bytes of two hexadecimal digits each. Anything else is an
/// error.
#[verifier::external_body]
pub(crate) fn jwt_secret(text: &str) -> (secret: Result<Vec<u8>, alloy_rpc_types_engine::JwtError>)
    ensures
        match secret {
            Ok(secret) => jwt_secret_from_hex(text@) == Some(secret@),
            Err(_) => jwt_secret_from_hex(text@) is None,
        },
{
    match alloy_rpc_types_engine::JwtSecret::from_hex(text) {
        Ok(secret) => Ok(secret.as_bytes().to_vec()),
        Err(error) => Err(error),
    }
}

/// The URL that the given text stands for, in its normal form.
pub uninterp spec fn url_from_text(text: Seq<char>) -> Option<Seq<char>>;

/// `url::Url::parse`, named: the URL in its normal form, or an error.
#[verifier::external_body]
pub(crate) fn parse_url(text: &str) -> (url: Result<String, url::ParseError>)
    ensures
        match url {
            Ok(url) => url_from_text(text@) == Some(url@),
            Err(_) => url_from_text(text@) is None,
        },
{
    match url::Url::parse(text) {
        Ok(url) => Ok(String::from(url)),
        Err(error) => Err(error),
    }
}

/// The text is the given word, in letters of either case.
pub open spec fn is_word(text: Seq<char>, word: Seq<char>) -> bool {
    text.len() == word.len() && forall|i: int|
        0 <= i < text.len() ==> #[trigger] text[i] == word[i] || text[i] as int + 32 == word[i] as int
}

/// The value of a text of decimal digits.
pub open spec fn decimal_value(digits: Seq<char>) -> int
    decreases digits.len(),
{
    if digits.len() == 0 {
        0
    } else {
        10 * decimal_value(digits.drop_last()) + (digits.last() as int - '0' as int)
    }
}

/// The text is a decimal number, with or without a plus sign, of the given value.
pub open spec fn is_number(text: Seq<char>, value: int) -> bool {
    let digits = if text.len() > 0 && text[0] == '+' {
        text.skip(1)
    } else {
        text
    };
    &&& digits.len() > 0
    &&& forall|i: int| 0 <= i < digits.len() ==> '0' <= #[trigger] digits[i] <= '9'
    &&& decimal_value(digits) == value
}

/// The log level that a text names: by its word, or by its number from one up.
pub open spec fn level_of(text: Seq<char>) -> Option<LogLevel> {
    if is_number(text, 1) || is_word(text, "error"@) {
        Some(LogLevel::Error)
    } else if is_number(text, 2) || is_word(text, "warn"@) {
        Some(LogLevel::Warn)
    } else if is_number(text, 3) || is_word(text, "info"@) {
        Some(LogLevel::Info)
    } else if is_number(text, 4) || is_word(text, "debug"@) {
        Some(LogLevel::Debug)
    } else if is_number(text, 5) || is_word(text, "trace"@) {
        Some(LogLevel::Trace)
    } else {
        None
    }
}

/// `tracing::Level::from_str`: a level by its word in letters of either case, or by a number from
/// one for errors to five for traces, and an error for any other text.
#[verifier::external_body]
pub(crate) fn parse_level(text: &str) -> (level: Result<LogLevel, tracing::metadata::ParseLevelError>)
    ensures
        match level {
            Ok(level) => level_of(text@) == Some(level),
            Err(_) => level_of(text@) is None,
        },
{
    match text.parse::<tracing::Level>() {
        Ok(tracing::Level::ERROR) => Ok(LogLevel::Error),
        Ok(tracing::Level::WARN) => Ok(LogLevel::Warn),
        Ok(tracing::Level::INFO) => Ok(LogLevel::Info),
        Ok(tracing::Level::DEBUG) => Ok(LogLevel::Debug),
        Ok(tracing::Level::TRACE) => Ok(LogLevel::Trace),
        Err(error) => Err(error),
    }
}

/// The character is the hexadecimal digit of the value, in either case.
pub open spec fn is_digit_of(c: char, value: int) -> bool {
    &&& 0 <= value < 16
    &&& c == "0123456789abcdef"@[value] || c == "0123456789ABCDEF"@[value]
}

/// A character is the digit of a value if and only if the value is the one that it is read as.
proof fn lemma_digits(c: char)
    ensures
        forall|value: int| #[trigger] is_digit_of(c, value) <==> hex_digit(c) == Some(value),
{
    reveal_strlit("0123456789abcdef");
    reveal_strlit("0123456789ABCDEF");
    assert forall|value: int| #[trigger] is_digit_of(c, value) <==> hex_digit(c) == Some(value) by {
        if 0 <= value < 16 {
            assert(value == 0 || value == 1 || value == 2 || value == 3 || value == 4 || value == 5
                || value == 6 || value == 7 || value == 8 || value == 9 || value == 10 || value == 11
                || value == 12 || value == 13 || value == 14 || value == 15);
        }
    }
}

/// A text of which every character is kept is kept whole.
proof fn lemma_filter_keeps_all(text: Seq<char>, keep: spec_fn(char) -> bool)
    requires
        forall|i: int| 0 <= i < text.len() ==> keep(#[trigger] text[i]),
    ensures
        text.filter(keep) == text,
    decreases text.len(),
{
    reveal(Seq::filter);
    if text.len() > 0 {
        lemma_filter_keeps_all(text.drop_last(), keep);
        assert(text.drop_last().push(text.last()) =~= text);
    }
}

/// The bytes of a hexadecimal text stand in the order of the text: of its characters that are no
/// blanks, without a leading `0x`, those at twice a place and right behind are the digits of the
/// byte at that place, the high one first. In place of a high digit of zero there may be a plus.
pub proof fn law_hex_is_read_digit_by_digit(text: Seq<char>, i: int)
    requires
        hex_decoded(text) is Some,
        0 <= i < hex_decoded(text)->0.len(),
    ensures
        ({
            let bare = text.filter(|c: char| c != ' ' && c != '\t' && c != '\n' && c != '\r');
            let digits = if bare.len() >= 2 && bare[0] == '0' && bare[1] == 'x' {
                bare.skip(2)
            } else {
                bare
            };
            let byte = hex_decoded(text)->0[i] as int;
            &&& digits.len() == 2 * hex_decoded(text)->0.len()
            &&& is_digit_of(digits[2 * i + 1], byte % 16)
            &&& is_digit_of(digits[2 * i], byte / 16) || (digits[2 * i] == '+' && byte < 16)
        }),
{
    let keep = |c: char| c != ' ' && c != '\t' && c != '\n' && c != '\r';
    let kept = |c: char| !is_hex_blank(c);
    assert(keep =~= kept);
    let body = hex_body(text);
    let pair = hex_pair(body[2 * i], body[2 * i + 1]);
    assert(pair is Some);
    lemma_digits(body[2 * i]);
    lemma_digits(body[2 * i + 1]);
    let low = hex_digit(body[2 * i + 1])->0;
    assert(is_digit_of(body[2 * i + 1], low));
    if let Some(high) = hex_digit(body[2 * i]) {
        assert(is_digit_of(body[2 * i], high));
        assert(pair == Some(16 * high + low));
        assert((16 * high + low) / 16 == high && (16 * high + low) % 16 == low);
    } else {
        assert(pair == Some(low));
    }
}

/// What is written in hexadecimal digits of either case, with or without `0x` in front, is read
/// back.
pub proof fn law_hex_is_read_back(bytes: Seq<u8>, text: Seq<char>)
    requires
        text.len() == 2 * bytes.len(),
        forall|i: int|
            0 <= i < bytes.len() ==> is_digit_of(text[2 * i], #[trigger] bytes[i] as int / 16)
                && is_digit_of(text[2 * i + 1], bytes[i] as int % 16),
    ensures
        hex_decoded(text) == Some(bytes),
        hex_decoded(seq!['0', 'x'] + text) == Some(bytes),
{
    let prefixed = seq!['0', 'x'] + text;
    let kept = |c: char| !is_hex_blank(c);
    assert forall|j: int| 0 <= j < text.len() implies hex_digit(#[trigger] text[j]) is Some by {
        lemma_digits(text[j]);
        let byte = bytes[j / 2] as int;
        if j % 2 == 0 {
            assert(2 * (j / 2) == j);
            assert(is_digit_of(text[j], byte / 16));
        } else {
            assert(2 * (j / 2) + 1 == j);
            assert(is_digit_of(text[j], byte % 16));
        }
    }
    assert forall|j: int| 0 <= j < text.len() implies kept(#[trigger] text[j]) by {
        assert(hex_digit(text[j]) is Some);
    }
    assert forall|j: int| 0 <= j < prefixed.len() implies kept(#[trigger] prefixed[j]) && '\0' <= prefixed[j]
        <= '\u{7f}' by {
        if j >= 2 {
            assert(prefixed[j] == text[j - 2]);
            assert(hex_digit(text[j - 2]) is Some);
        }
    }
    lemma_filter_keeps_all(text, kept);
    lemma_filter_keeps_all(prefixed, kept);
    if text.len() >= 2 {
        assert(hex_digit(text[1]) is Some);
    }
    assert(hex_body(text) == text);
    assert(prefixed.skip(2) =~= text);
    assert(hex_body(prefixed) == text);
    assert forall|i: int| 0 <= i < bytes.len() implies #[trigger] hex_pair(text[2 * i], text[2 * i + 1])
        == Some(bytes[i] as int) by {
        let byte = bytes[i] as int;
        lemma_digits(text[2 * i]);
        lemma_digits(text[2 * i + 1]);
        assert(is_digit_of(text[2 * i], byte / 16));
        assert(is_digit_of(text[2 * i + 1], byte % 16));
        assert(16 * (byte / 16) + byte % 16 == byte);
    }
    assert(text.len() / 2 == bytes.len());
    assert(hex_decoded(text)->0 =~= bytes);
    assert(hex_decoded(prefixed)->0 =~= bytes);
}

} // verus!
