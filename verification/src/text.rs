use vstd::prelude::*;
use vstd::string::*;
use vstd::utf8::*;

verus! {

/// A character of the Unicode `White_Space` property, the set that `str::trim` removes.
pub open spec fn is_unicode_whitespace(c: char) -> bool {
    ||| '\u{9}' <= c <= '\u{d}'
    ||| c == ' '
    ||| c == '\u{85}'
    ||| c == '\u{a0}'
    ||| c == '\u{1680}'
    ||| '\u{2000}' <= c <= '\u{200a}'
    ||| c == '\u{2028}'
    ||| c == '\u{2029}'
    ||| c == '\u{202f}'
    ||| c == '\u{205f}'
    ||| c == '\u{3000}'
}

/// `s` without its leading whitespace.
pub open spec fn trim_start(s: Seq<char>) -> Seq<char>
    decreases s.len(),
{
    if s.len() > 0 && is_unicode_whitespace(s[0]) {
        trim_start(s.drop_first())
    } else {
        s
    }
}

/// `s` without its trailing whitespace.
pub open spec fn trim_end(s: Seq<char>) -> Seq<char>
    decreases s.len(),
{
    if s.len() > 0 && is_unicode_whitespace(s.last()) {
        trim_end(s.drop_last())
    } else {
        s
    }
}

/// `s` without its leading and trailing whitespace.
pub open spec fn trim(s: Seq<char>) -> Seq<char> {
    trim_end(trim_start(s))
}

/// An ASCII decimal digit.
pub open spec fn is_digit(c: char) -> bool {
    '0' <= c <= '9'
}

/// The numeric value of a decimal digit.
pub open spec fn digit_value(c: char) -> nat {
    (c as int - '0' as int) as nat
}

/// The digit character of a value below ten.
pub open spec fn digit_char(d: nat) -> char {
    if d == 0 { '0' }
    else if d == 1 { '1' }
    else if d == 2 { '2' }
    else if d == 3 { '3' }
    else if d == 4 { '4' }
    else if d == 5 { '5' }
    else if d == 6 { '6' }
    else if d == 7 { '7' }
    else if d == 8 { '8' }
    else { '9' }
}

/// Every character of `s` is a decimal digit.
pub open spec fn all_digits(s: Seq<char>) -> bool {
    forall|i: int| 0 <= i < s.len() ==> is_digit(#[trigger] s[i])
}

/// The value of a string of decimal digits, most significant first.
pub open spec fn digits_value(s: Seq<char>) -> nat
    decreases s.len(),
{
    if s.len() == 0 {
        0
    } else {
        digits_value(s.drop_last()) * 10 + digit_value(s.last())
    }
}

/// The shortest decimal text of `n`.
pub open spec fn decimal(n: nat) -> Seq<char>
    decreases n,
{
    if n < 10 {
        seq![digit_char(n)]
    } else {
        decimal(n / 10).push(digit_char(n % 10))
    }
}

/// The decimal text of a signed number: a minus sign before negative numbers.
pub open spec fn signed_decimal(n: int) -> Seq<char> {
    if n < 0 {
        seq!['-'] + decimal((-n) as nat)
    } else {
        decimal(n as nat)
    }
}

/// What `str::parse::<u64>` gives: an optional `+`, then one or more decimal digits
/// whose value fits in `u64`.
pub open spec fn parse_u64(s: Seq<char>) -> Option<u64> {
    let digits = if s.len() > 0 && s[0] == '+' { s.drop_first() } else { s };
    if digits.len() > 0 && all_digits(digits) && digits_value(digits) <= u64::MAX {
        Some(digits_value(digits) as u64)
    } else {
        None
    }
}

/// What `str::parse::<i64>` gives: an optional `+` or `-`, then one or more decimal
/// digits, where the signed value fits in `i64`.
pub open spec fn parse_i64(s: Seq<char>) -> Option<i64> {
    let negative = s.len() > 0 && s[0] == '-';
    let digits = if s.len() > 0 && (s[0] == '+' || s[0] == '-') { s.drop_first() } else { s };
    let value: int = if negative { -(digits_value(digits) as int) } else { digits_value(digits) as int };
    if digits.len() > 0 && all_digits(digits) && i64::MIN <= value <= i64::MAX {
        Some(value as i64)
    } else {
        None
    }
}

/// The UTF-8 decoding of `bytes`, or `None` where they are not valid UTF-8.
pub open spec fn decode_text(bytes: Seq<u8>) -> Option<Seq<char>> {
    if valid_utf8(bytes) { Some(decode_utf8(bytes)) } else { None }
}


/// The value of a digit character is the digit.
pub proof fn lemma_digit_char(d: nat)
    requires
        d < 10,
    ensures
        is_digit(digit_char(d)),
        digit_value(digit_char(d)) == d,
        !is_unicode_whitespace(digit_char(d)),
        digit_char(d) != '+',
        digit_char(d) != '-',
        '\0' <= digit_char(d) <= '\u{7f}',
{
}

/// The decimal text of `n` is a non-empty string of digits whose value is `n`.
pub proof fn lemma_decimal(n: nat)
    ensures
        decimal(n).len() > 0,
        all_digits(decimal(n)),
        is_ascii_chars(decimal(n)),
        digits_value(decimal(n)) == n,
    decreases n,
{
    if n < 10 {
        lemma_digit_char(n);
        assert(decimal(n).drop_last() =~= Seq::<char>::empty());
        assert(digits_value(Seq::<char>::empty()) == 0);
    } else {
        lemma_decimal(n / 10);
        lemma_digit_char(n % 10);
        let s = decimal(n);
        assert(s.drop_last() =~= decimal(n / 10));
        assert(s.last() == digit_char(n % 10));
        assert(digits_value(s) == digits_value(decimal(n / 10)) * 10 + digit_value(digit_char(n % 10)));
        assert((n / 10) * 10 + n % 10 == n);
        assert forall|i: int| 0 <= i < s.len() implies is_digit(#[trigger] s[i]) && '\0' <= s[i] <= '\u{7f}' by {
            if i < s.len() - 1 {
                assert(s[i] == decimal(n / 10)[i]);
            }
        }
    }
}

/// Text made of digits only, beginning and ending with a digit, is left as it is by `trim`.
pub proof fn lemma_trim_digits(s: Seq<char>)
    requires
        s.len() > 0,
        all_digits(s),
    ensures
        trim(s) == s,
{
    assert(is_digit(s[0]));
    assert(is_digit(s[s.len() - 1]));
    assert(trim_start(s) == s);
}

/// Parsing the decimal text of `n` gives `n` back.
pub proof fn lemma_parse_decimal(n: nat)
    ensures
        n <= u64::MAX ==> parse_u64(decimal(n)) == Some(n as u64),
        n <= i64::MAX ==> parse_i64(decimal(n)) == Some(n as i64),
        trim(decimal(n)) == decimal(n),
{
    lemma_decimal(n);
    lemma_trim_digits(decimal(n));
    assert(is_digit(decimal(n)[0]));
}

/// UTF-8 encoding followed by decoding gives the text back.
pub proof fn lemma_decode_encoded(s: Seq<char>)
    ensures
        decode_text(encode_utf8(s)) == Some(s),
{
    encode_utf8_valid_utf8(s);
    encode_utf8_decode_utf8(s);
}

/// Wraps `std::str::from_utf8`: `Some` exactly for valid UTF-8, with the decoded characters.
#[verifier::external_body]
fn utf8_str(bytes: &[u8]) -> (r: Option<&str>)
    ensures
        r matches Some(s) ==> decode_text(bytes@) == Some(s@),
        r is None ==> decode_text(bytes@) is None,
{
    std::str::from_utf8(bytes).ok()
}

/// Wraps `str::trim`: leading and trailing `White_Space` characters removed.
#[verifier::external_body]
fn trim_str(s: &str) -> (r: &str)
    ensures
        r@ == trim(s@),
{
    s.trim()
}

/// Wraps `str::parse::<i64>`, with the error turned into `None`.
#[verifier::external_body]
fn parse_i64_str(s: &str) -> (r: Option<i64>)
    ensures
        r == parse_i64(s@),
{
    s.parse::<i64>().ok()
}

/// Wraps `str::parse::<u64>`, with the error turned into `None`.
#[verifier::external_body]
fn parse_u64_str(s: &str) -> (r: Option<u64>)
    ensures
        r == parse_u64(s@),
{
    s.parse::<u64>().ok()
}

/// Wraps `i64::to_string`: its decimal text.
#[verifier::external_body]
fn i64_to_string(n: i64) -> (r: String)
    ensures
        r@ == signed_decimal(n as int),
{
    n.to_string()
}

/// Wraps `u64::to_string`: its decimal text.
#[verifier::external_body]
fn u64_to_string(n: u64) -> (r: String)
    ensures
        r@ == decimal(n as nat),
{
    n.to_string()
}

/// The text of a message body, or `None` where the body is not valid UTF-8.
pub fn body_text(body: &[u8]) -> (r: Option<String>)
    ensures
        r matches Some(s) ==> decode_text(body@) == Some(s@),
        r is None ==> decode_text(body@) is None,
{
    match utf8_str(body) {
        Some(s) => Some(s.to_owned()),
        None => None,
    }
}

/// The signed number that a message body carries as decimal text, possibly
/// surrounded by whitespace; `None` where the body is not UTF-8 or not such a number.
pub fn body_i64(body: &[u8]) -> (r: Option<i64>)
    ensures
        r == (match decode_text(body@) {
            Some(s) => parse_i64(trim(s)),
            None => None::<i64>,
        }),
{
    match utf8_str(body) {
        Some(s) => parse_i64_str(trim_str(s)),
        None => None,
    }
}

/// The unsigned number that a message body carries as decimal text, possibly
/// surrounded by whitespace; `None` where the body is not UTF-8 or not such a number.
pub fn body_u64(body: &[u8]) -> (r: Option<u64>)
    ensures
        r == (match decode_text(body@) {
            Some(s) => parse_u64(trim(s)),
            None => None::<u64>,
        }),
{
    match utf8_str(body) {
        Some(s) => parse_u64_str(trim_str(s)),
        None => None,
    }
}

/// The UTF-8 bytes of the decimal text of `n`.
pub fn i64_body(n: i64) -> (r: Vec<u8>)
    ensures
        r@ == encode_utf8(signed_decimal(n as int)),
{
    let s = i64_to_string(n);
    s.as_str().as_bytes_vec()
}

/// The UTF-8 bytes of the decimal text of `n`.
pub fn u64_body(n: u64) -> (r: Vec<u8>)
    ensures
        r@ == encode_utf8(decimal(n as nat)),
{
    let s = u64_to_string(n);
    s.as_str().as_bytes_vec()
}

} // verus!
