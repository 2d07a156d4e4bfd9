//! Percent-encoding of path segments and decimal formatting of small numbers.
//!
//! A search id is stored raw and only percent-encoded at the transport
//! boundary, when it is spliced into a request path. The encoding leaves the
//! unreserved bytes `A-Z a-z 0-9 - . _ ~` alone and turns every other byte
//! into `%` followed by two uppercase hexadecimal digits.
use vstd::prelude::*;
use vstd::string::StringExecFns;
use vstd::string::StringSliceAdditionalSpecFns;

verus! {

/// The bytes that percent-encoding passes through unchanged:
/// ASCII alphanumerics and `-`, `.`, `_`, `~`.
pub open spec fn is_unreserved_byte(b: u8) -> bool {
    ||| 48 <= b <= 57  // '0' ..= '9'
    ||| 65 <= b <= 90  // 'A' ..= 'Z'
    ||| 97 <= b <= 122  // 'a' ..= 'z'
    ||| b == 45  // '-'
    ||| b == 46  // '.'
    ||| b == 95  // '_'
    ||| b == 126  // '~'

}

/// The uppercase hexadecimal digit for a value below 16.
pub open spec fn hex_digit_char(n: u8) -> char
    recommends
        n < 16,
{
    if n < 10 {
        ((48 + n) as u8) as char  // '0' + n
    } else {
        ((55 + n) as u8) as char  // 'A' + (n - 10)
    }
}

/// How a single byte is percent-encoded: unreserved bytes stand for
/// themselves, every other byte becomes `%XX` with uppercase hex digits.
pub open spec fn encoded_byte(b: u8) -> Seq<char> {
    if is_unreserved_byte(b) {
        seq![b as char]
    } else {
        seq!['%', hex_digit_char(b / 16), hex_digit_char(b % 16)]
    }
}

/// The percent-encoding of a byte sequence: each byte encoded in order.
pub open spec fn percent_encoded(s: Seq<u8>) -> Seq<char>
    decreases s.len(),
{
    if s.len() == 0 {
        Seq::empty()
    } else {
        encoded_byte(s[0]) + percent_encoded(s.skip(1))
    }
}

/// Relies on `urlencoding::encode`: it percent-encodes the UTF-8 bytes of the
/// string, leaving only ASCII alphanumerics and `-`, `.`, `_`, `~` unchanged
/// and writing every other byte as `%` plus two uppercase hex digits.
#[verifier::external_body]
pub(crate) fn percent_encode_str(s: &str) -> (r: String)
    ensures
        r@ == percent_encoded(s.spec_bytes()),
{
    urlencoding::encode(s).into_owned()
}

/// No percent-encoded segment contains a literal `/` or space: both are
/// reserved bytes, and the characters an encoded byte expands to are drawn
/// from the unreserved bytes, `%` and the hexadecimal digits.
pub proof fn lemma_percent_encoded_no_separator(s: Seq<u8>)
    ensures
        forall|i: int|
            0 <= i < percent_encoded(s).len() ==> percent_encoded(s)[i] != '/'
                && percent_encoded(s)[i] != ' ',
    decreases s.len(),
{
    if s.len() > 0 {
        lemma_percent_encoded_no_separator(s.skip(1));
        let head = encoded_byte(s[0]);
        let tail = percent_encoded(s.skip(1));
        assert forall|i: int| 0 <= i < head.len() implies head[i] != '/' && head[i] != ' ' by {
            let b = s[0];
            if is_unreserved_byte(b) {
                assert(b != 47 && b != 32);
            }
        }
        assert forall|i: int| 0 <= i < percent_encoded(s).len() implies percent_encoded(s)[i] != '/'
            && percent_encoded(s)[i] != ' ' by {
            assert(percent_encoded(s) == head + tail);
            if i < head.len() {
                assert(percent_encoded(s)[i] == head[i]);
            } else {
                assert(percent_encoded(s)[i] == tail[i - head.len()]);
            }
        }
    }
}

/// The decimal digit character for a value below 10.
pub open spec fn decimal_digit(n: u8) -> char
    recommends
        n < 10,
{
    ((48 + n) as u8) as char
}

/// The shortest decimal rendering of a byte value.
pub open spec fn u8_decimal(n: u8) -> Seq<char> {
    if n < 10 {
        seq![decimal_digit(n)]
    } else if n < 100 {
        seq![decimal_digit(n / 10), decimal_digit(n % 10)]
    } else {
        seq![decimal_digit(n / 100), decimal_digit((n / 10) % 10), decimal_digit(n % 10)]
    }
}

/// The one-character string for a decimal digit.
fn decimal_digit_str(n: u8) -> (r: &'static str)
    requires
        n < 10,
    ensures
        r@ == seq![decimal_digit(n)],
{
    proof {
        reveal_strlit("0");
        reveal_strlit("1");
        reveal_strlit("2");
        reveal_strlit("3");
        reveal_strlit("4");
        reveal_strlit("5");
        reveal_strlit("6");
        reveal_strlit("7");
        reveal_strlit("8");
        reveal_strlit("9");
    }
    match n {
        0 => "0",
        1 => "1",
        2 => "2",
        3 => "3",
        4 => "4",
        5 => "5",
        6 => "6",
        7 => "7",
        8 => "8",
        _ => "9",
    }
}

/// Renders a byte value in decimal, without leading zeros.
pub fn u8_to_decimal_string(n: u8) -> (r: String)
    ensures
        r@ == u8_decimal(n),
{
    if n < 10 {
        let r = String::from_str(decimal_digit_str(n));
        assert(r@ =~= u8_decimal(n));
        r
    } else if n < 100 {
        let mut r = String::from_str(decimal_digit_str(n / 10));
        r.append(decimal_digit_str(n % 10));
        assert(r@ =~= u8_decimal(n));
        r
    } else {
        let mut r = String::from_str(decimal_digit_str(n / 100));
        r.append(decimal_digit_str((n / 10) % 10));
        r.append(decimal_digit_str(n % 10));
        assert(r@ =~= u8_decimal(n));
        r
    }
}

} // verus!
