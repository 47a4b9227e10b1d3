//! Text helpers: decimal rendering of integers and byte-level string
//! conversions used when talking to a C-shaped interface.

use vstd::prelude::*;
use vstd::slice::*;
use vstd::string::*;
use vstd::utf8::*;

verus! {

/// The character that renders the decimal digit `d`.
pub open spec fn digit_char(d: nat) -> char {
    if d == 0 {
        '0'
    } else if d == 1 {
        '1'
    } else if d == 2 {
        '2'
    } else if d == 3 {
        '3'
    } else if d == 4 {
        '4'
    } else if d == 5 {
        '5'
    } else if d == 6 {
        '6'
    } else if d == 7 {
        '7'
    } else if d == 8 {
        '8'
    } else {
        '9'
    }
}

/// Decimal rendering of a natural number, most significant digit first and
/// without leading zeros.
pub open spec fn decimal(n: nat) -> Seq<char>
    decreases n,
{
    if n < 10 {
        seq![digit_char(n)]
    } else {
        decimal(n / 10).push(digit_char(n % 10))
    }
}

/// Decimal rendering of an integer: a minus sign before the digits of a
/// negative number.
pub open spec fn signed_decimal(n: int) -> Seq<char> {
    if n < 0 {
        seq!['-'] + decimal((-n) as nat)
    } else {
        decimal(n as nat)
    }
}

fn digit_str(d: u64) -> (s: &'static str)
    requires
        d < 10,
    ensures
        s@ == seq![digit_char(d as nat)],
{
    proof {
        reveal_strlit("0");
        reveal_strlit("1");
        reveal_strlit("2");
        reveal_strlit("3");
        reveal_strlit("4");
        reveal_strlit("5");
        reveal_strlit("6");
        reveal_strlit("7");
        reveal_strlit("8");
        reveal_strlit("9");
    }
    let s: &'static str = if d == 0 {
        "0"
    } else if d == 1 {
        "1"
    } else if d == 2 {
        "2"
    } else if d == 3 {
        "3"
    } else if d == 4 {
        "4"
    } else if d == 5 {
        "5"
    } else if d == 6 {
        "6"
    } else if d == 7 {
        "7"
    } else if d == 8 {
        "8"
    } else {
        "9"
    };
    assert(s@ =~= seq![digit_char(d as nat)]);
    s
}

/// Renders `n` in decimal.
pub fn u64_to_string(n: u64) -> (s: String)
    ensures
        s@ == decimal(n as nat),
    decreases n,
{
    if n < 10 {
        String::from_str(digit_str(n))
    } else {
        let mut s = u64_to_string(n / 10);
        s.append(digit_str(n % 10));
        assert(s@ =~= decimal((n / 10) as nat).push(digit_char((n % 10) as nat)));
        s
    }
}

/// Renders `n` in decimal, with a leading minus sign when negative.
pub fn i64_to_string(n: i64) -> (s: String)
    ensures
        s@ == signed_decimal(n as int),
{
    if n < 0 {
        let magnitude: u64 = if n == i64::MIN {
            9223372036854775808u64
        } else {
            (-n) as u64
        };
        proof {
            reveal_strlit("-");
        }
        let mut s = String::from_str("-");
        let digits = u64_to_string(magnitude);
        s.append(digits.as_str());
        assert(s@ =~= seq!['-'] + decimal((-n) as nat));
        s
    } else {
        u64_to_string(n as u64)
    }
}

/// The position of the first zero byte of `bytes` at or after `from`, or the
/// length of `bytes` when there is none.
pub open spec fn nul_position(bytes: Seq<u8>, from: int) -> int
    decreases bytes.len() - from,
{
    if from < 0 || from >= bytes.len() {
        bytes.len() as int
    } else if bytes[from] == 0 {
        from
    } else {
        nul_position(bytes, from + 1)
    }
}

/// The position of the first zero byte of `bytes`, or the length of `bytes`
/// when there is none.
pub open spec fn first_nul(bytes: Seq<u8>) -> int {
    nul_position(bytes, 0)
}

/// The first zero byte lies within the buffer or at its end, and no byte
/// before it is zero.
pub proof fn lemma_nul_position(bytes: Seq<u8>, from: int)
    requires
        0 <= from <= bytes.len(),
    ensures
        from <= nul_position(bytes, from) <= bytes.len(),
        nul_position(bytes, from) < bytes.len() ==> bytes[nul_position(bytes, from)] == 0,
        forall|i: int| from <= i < nul_position(bytes, from) ==> bytes[i] != 0,
    decreases bytes.len() - from,
{
    if from < bytes.len() && bytes[from] != 0 {
        lemma_nul_position(bytes, from + 1);
    }
}

/// Finds the first zero byte of `bytes` by a search bounded by its length.
pub fn find_nul(bytes: &[u8]) -> (position: usize)
    ensures
        position == first_nul(bytes@),
        position <= bytes@.len(),
{
    let mut i: usize = 0;
    while i < bytes.len() && bytes[i] != 0
        invariant
            i <= bytes@.len(),
            nul_position(bytes@, 0) == nul_position(bytes@, i as int),
        decreases bytes@.len() - i,
    {
        i = i + 1;
    }
    i
}

/// The reason why `bytes` is not UTF-8, in the words of the error that
/// `String::from_utf8` returns for them.
pub uninterp spec fn utf8_error_text(bytes: Seq<u8>) -> Seq<char>;

/// `String::from_utf8`: succeeds exactly on well-formed UTF-8 and then
/// yields the characters the bytes encode; otherwise the error's text is the
/// reason std reports for these bytes.
#[verifier::external_body]
fn string_from_utf8(bytes: Vec<u8>) -> (decoded: Result<String, String>)
    ensures
        decoded is Ok <==> valid_utf8(bytes@),
        decoded matches Ok(text) ==> text@ == decode_utf8(bytes@),
        decoded matches Err(reason) ==> reason@ == utf8_error_text(bytes@),
{
    match String::from_utf8(bytes) {
        Ok(text) => Ok(text),
        Err(error) => Err(error.to_string()),
    }
}

/// Decodes `bytes` as UTF-8, or says why they are not UTF-8.
pub fn decode_text(bytes: &[u8]) -> (decoded: Result<String, String>)
    ensures
        decoded is Ok <==> valid_utf8(bytes@),
        decoded matches Ok(text) ==> text@ == decode_utf8(bytes@),
        decoded matches Err(reason) ==> reason@ == utf8_error_text(bytes@),
{
    string_from_utf8(slice_to_vec(bytes))
}

/// The bytes of `text` followed by a terminating zero byte, as a C-shaped
/// interface takes a string; nothing when `text` holds a zero byte itself.
pub open spec fn c_string(text: Seq<char>) -> Option<Seq<u8>> {
    if encode_utf8(text).contains(0u8) {
        None
    } else {
        Some(encode_utf8(text).push(0u8))
    }
}

/// Whether `text` holds a zero byte, which no C string can carry.
pub fn has_nul(text: &str) -> (found: bool)
    ensures
        found == (c_string(text@) is None),
{
    let raw = text.as_bytes();
    let end = find_nul(raw);
    proof {
        lemma_nul_position(raw@, 0);
    }
    end < raw.len()
}

/// Appends the decimal rendering of `n` to `text`.
pub fn push_decimal(text: &mut String, n: usize)
    ensures
        final(text)@ == old(text)@ + decimal(n as nat),
{
    let digits = u64_to_string(n as u64);
    text.append(digits.as_str());
}

/// Marshals `text` for a C-shaped interface: its bytes followed by a
/// terminating zero byte, or `None` when `text` holds a zero byte itself.
pub fn to_c_string(text: &str) -> (bytes: Option<Vec<u8>>)
    ensures
        c_string(text@) is None ==> bytes is None,
        c_string(text@) matches Some(expected) ==> (bytes matches Some(b) && b@ == expected),
{
    let raw = text.as_bytes();
    let end = find_nul(raw);
    proof {
        lemma_nul_position(raw@, 0);
    }
    if end < raw.len() {
        None
    } else {
        let mut bytes = slice_to_vec(raw);
        bytes.push(0u8);
        Some(bytes)
    }
}

} // verus!
