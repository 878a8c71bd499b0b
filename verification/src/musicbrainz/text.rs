//! The pieces of text that a request is made of: decimal numbers,
//! percent-encoded query terms and catalog identifiers.

use vstd::prelude::*;
use vstd::utf8::encode_utf8;

verus! {

/// The character of a decimal digit.
pub open spec fn digit_char(d: int) -> char {
    seq!['0', '1', '2', '3', '4', '5', '6', '7', '8', '9'][d]
}

/// The character of a hexadecimal digit, letters in upper case.
pub open spec fn upper_hex_char(d: int) -> char {
    seq!['0', '1', '2', '3', '4', '5', '6', '7', '8', '9', 'A', 'B', 'C', 'D', 'E', 'F'][d]
}

/// The character of a hexadecimal digit, letters in lower case.
pub open spec fn lower_hex_char(d: int) -> char {
    seq!['0', '1', '2', '3', '4', '5', '6', '7', '8', '9', 'a', 'b', 'c', 'd', 'e', 'f'][d]
}

/// A number in decimal, without sign and without leading zeros.
pub open spec fn decimal_text(n: nat) -> Seq<char>
    decreases n,
{
    if n < 10 {
        seq![digit_char(n as int)]
    } else {
        decimal_text(n / 10).push(digit_char((n % 10) as int))
    }
}

/// The text of one decimal digit.
fn digit_str(d: u64) -> (text: &'static str)
    requires
        d < 10,
    ensures
        text@ == seq![digit_char(d as int)],
{
    proof {
        reveal_strlit("0");
        reveal_strlit("1");
        reveal_strlit("2");
        reveal_strlit("3");
        reveal_strlit("4");
        reveal_strlit("5");
        reveal_strlit("6");
        reveal_strlit("7");
        reveal_strlit("8");
        reveal_strlit("9");
    }
    let text = if d == 0 {
        "0"
    } else if d == 1 {
        "1"
    } else if d == 2 {
        "2"
    } else if d == 3 {
        "3"
    } else if d == 4 {
        "4"
    } else if d == 5 {
        "5"
    } else if d == 6 {
        "6"
    } else if d == 7 {
        "7"
    } else if d == 8 {
        "8"
    } else {
        "9"
    };
    assert(text@ =~= seq![digit_char(d as int)]);
    text
}

/// Appends a number in decimal.
pub fn push_decimal(out: &mut String, n: u64)
    ensures
        final(out)@ == old(out)@ + decimal_text(n as nat),
    decreases n,
{
    if n >= 10 {
        push_decimal(out, n / 10);
    }
    out.append(digit_str(n % 10));
    assert(out@ =~= old(out)@ + decimal_text(n as nat));
}

/// A byte that a query term may hold as it is: a letter or digit of ASCII,
/// or one of `-`, `.`, `_` and `~`.
pub open spec fn is_unreserved(b: u8) -> bool {
    ||| 0x30 <= b <= 0x39
    ||| 0x41 <= b <= 0x5a
    ||| 0x61 <= b <= 0x7a
    ||| b == 0x2d
    ||| b == 0x2e
    ||| b == 0x5f
    ||| b == 0x7e
}

/// One byte of a query term as it stands in a request: itself when it is
/// unreserved, else `%` and its two hexadecimal digits in upper case.
pub open spec fn escaped_byte(b: u8) -> Seq<char> {
    if is_unreserved(b) {
        seq![b as char]
    } else {
        seq!['%', upper_hex_char(b as int / 16), upper_hex_char(b as int % 16)]
    }
}

/// The bytes of a query term as they stand in a request.
pub open spec fn escaped_bytes(bytes: Seq<u8>) -> Seq<char>
    decreases bytes.len(),
{
    if bytes.len() == 0 {
        Seq::empty()
    } else {
        escaped_bytes(bytes.drop_last()) + escaped_byte(bytes.last())
    }
}

/// A query term as it stands in a request: its UTF-8 bytes, each escaped
/// unless it is unreserved.
pub open spec fn percent_encoded(text: Seq<char>) -> Seq<char> {
    escaped_bytes(encode_utf8(text))
}

/// A character that an encoded query term can hold.
pub open spec fn is_query_safe(c: char) -> bool {
    ||| c == '%'
    ||| '0' <= c <= '9'
    ||| 'A' <= c <= 'Z'
    ||| 'a' <= c <= 'z'
    ||| c == '-'
    ||| c == '.'
    ||| c == '_'
    ||| c == '~'
}

/// An escaped byte is made of query-safe characters.
pub proof fn lemma_escaped_byte_is_safe(b: u8)
    ensures
        forall|k: int| 0 <= k < escaped_byte(b).len() ==> is_query_safe(#[trigger] escaped_byte(b)[k]),
{
    if is_unreserved(b) {
        assert(escaped_byte(b).len() == 1);
        assert(is_query_safe(b as char)) by {
            lemma_unreserved_as_char(b);
        }
    } else {
        let hi = b as int / 16;
        let lo = b as int % 16;
        assert(0 <= hi < 16 && 0 <= lo < 16);
        lemma_upper_hex_is_safe(hi);
        lemma_upper_hex_is_safe(lo);
    }
}

proof fn lemma_unreserved_as_char(b: u8)
    requires
        is_unreserved(b),
    ensures
        is_query_safe(b as char),
{
    assert('0' as u8 == 0x30 && '9' as u8 == 0x39);
    assert('A' as u8 == 0x41 && 'Z' as u8 == 0x5a);
    assert('a' as u8 == 0x61 && 'z' as u8 == 0x7a);
    assert('-' as u8 == 0x2d && '.' as u8 == 0x2e && '_' as u8 == 0x5f && '~' as u8 == 0x7e);
    assert((b as char) as u8 == b);
}

proof fn lemma_upper_hex_is_safe(d: int)
    requires
        0 <= d < 16,
    ensures
        is_query_safe(upper_hex_char(d)),
{
}

/// The query-injection law. An encoded query term holds only `%`, letters
/// and digits of ASCII, `-`, `.`, `_` and `~`: whatever the term, it cannot
/// end the parameter it stands in or start another.
pub proof fn lemma_percent_encoded_is_safe(text: Seq<char>)
    ensures
        forall|k: int|
            0 <= k < percent_encoded(text).len() ==> is_query_safe(
                #[trigger] percent_encoded(text)[k],
            ),
{
    lemma_escaped_bytes_are_safe(encode_utf8(text));
}

proof fn lemma_escaped_bytes_are_safe(bytes: Seq<u8>)
    ensures
        forall|k: int|
            0 <= k < escaped_bytes(bytes).len() ==> is_query_safe(#[trigger] escaped_bytes(bytes)[k]),
    decreases bytes.len(),
{
    if bytes.len() > 0 {
        lemma_escaped_bytes_are_safe(bytes.drop_last());
        lemma_escaped_byte_is_safe(bytes.last());
        let head = escaped_bytes(bytes.drop_last());
        let tail = escaped_byte(bytes.last());
        assert forall|k: int| 0 <= k < escaped_bytes(bytes).len() implies is_query_safe(
            #[trigger] escaped_bytes(bytes)[k],
        ) by {
            if k >= head.len() {
                assert(escaped_bytes(bytes)[k] == tail[k - head.len()]);
            } else {
                assert(escaped_bytes(bytes)[k] == head[k]);
            }
        }
    }
}

/// Percent-encodes a query term with `urlencoding::encode`.
///
/// Trusted: the result is the term's UTF-8 bytes, each byte other than an
/// ASCII letter, a digit, `-`, `.`, `_` or `~` replaced by `%` and its two
/// upper-case hexadecimal digits, as the crate documents.
#[verifier::external_body]
pub(crate) fn percent_encode(term: &str) -> (encoded: String)
    ensures
        encoded@ == percent_encoded(term@),
{
    urlencoding::encode(term).into_owned()
}

#[verifier::external_type_specification]
#[verifier::external_body]
pub struct ExUuid(uuid::Uuid);

/// The sixteen bytes that a catalog identifier holds, first byte first.
pub uninterp spec fn uuid_bytes(id: uuid::Uuid) -> Seq<u8>;

/// `Uuid`'s `clone`. Trusted: an identifier is copied as it is.
pub assume_specification[ <uuid::Uuid as Clone>::clone ](id: &uuid::Uuid) -> (copy: uuid::Uuid)
    ensures
        copy == *id,
;

/// The bytes `from..to` of `bytes` in lower-case hexadecimal, two digits
/// each.
pub open spec fn hex_text(bytes: Seq<u8>, from: int, to: int) -> Seq<char>
    decreases to - from,
{
    if from >= to {
        Seq::empty()
    } else {
        hex_text(bytes, from, to - 1).push(lower_hex_char(bytes[to - 1] as int / 16)).push(
            lower_hex_char(bytes[to - 1] as int % 16),
        )
    }
}

/// The hyphenated form of sixteen bytes: groups of 4, 2, 2, 2 and 6 bytes in
/// lower-case hexadecimal, with `-` between them.
pub open spec fn hyphenated_text(bytes: Seq<u8>) -> Seq<char> {
    hex_text(bytes, 0, 4) + seq!['-'] + hex_text(bytes, 4, 6) + seq!['-'] + hex_text(bytes, 6, 8)
        + seq!['-'] + hex_text(bytes, 8, 10) + seq!['-'] + hex_text(bytes, 10, 16)
}

/// Writes an identifier as `Uuid`'s `Display` does.
///
/// Trusted: the text is the hyphenated lower-case form of the sixteen bytes
/// that the identifier holds.
#[verifier::external_body]
pub(crate) fn hyphenated(id: &uuid::Uuid) -> (text: String)
    ensures
        text@ == hyphenated_text(uuid_bytes(*id)),
{
    id.to_string()
}

} // verus!
