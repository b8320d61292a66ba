//! The `application/x-www-form-urlencoded` text that a request's query
//! parameters are sent as, and the decimal text of integer parameters.
use vstd::prelude::*;
use vstd::string::*;
use vstd::utf8::encode_utf8;

verus! {

/// The character of the decimal digit `d` (`d < 10`).
pub open spec fn digit_char(d: nat) -> char {
    (d + 48) as char
}

/// Decimal text of a natural number, without leading zeros.
pub open spec fn decimal(n: nat) -> Seq<char>
    decreases n,
{
    if n < 10 {
        seq![digit_char(n)]
    } else {
        decimal(n / 10).push(digit_char(n % 10))
    }
}

/// Decimal text of an integer: a `-` in front of the magnitude of a negative one.
pub open spec fn signed_decimal(n: int) -> Seq<char> {
    if n < 0 {
        seq!['-'] + decimal((-n) as nat)
    } else {
        decimal(n as nat)
    }
}

/// The bytes that the form serializer writes as they are.
pub open spec fn byte_kept(b: u8) -> bool {
    ||| b == 0x2a
    ||| b == 0x2d
    ||| b == 0x2e
    ||| b == 0x5f
    ||| 0x30 <= b <= 0x39
    ||| 0x41 <= b <= 0x5a
    ||| 0x61 <= b <= 0x7a
}

/// Upper-case hexadecimal digit of `n` (`n < 16`).
pub open spec fn hex_digit_upper(n: nat) -> char {
    if n < 10 {
        (n + 48) as char
    } else {
        (n + 55) as char
    }
}

/// The text that one byte turns into: itself, `+` for a space, else `%XX`.
pub open spec fn form_byte(b: u8) -> Seq<char> {
    if byte_kept(b) {
        seq![b as char]
    } else if b == 0x20 {
        seq!['+']
    } else {
        seq!['%', hex_digit_upper((b / 16) as nat), hex_digit_upper((b % 16) as nat)]
    }
}

/// The form serialization of a byte sequence, byte by byte.
pub open spec fn form_bytes(bytes: Seq<u8>) -> Seq<char>
    decreases bytes.len(),
{
    if bytes.len() == 0 {
        seq![]
    } else {
        form_byte(bytes[0]) + form_bytes(bytes.drop_first())
    }
}

/// The form serialization of a text: that of its UTF-8 bytes.
pub open spec fn form_component(text: Seq<char>) -> Seq<char> {
    form_bytes(encode_utf8(text))
}

/// One `name=value` parameter.
pub open spec fn form_pair(pair: (Seq<char>, Seq<char>)) -> Seq<char> {
    form_component(pair.0) + seq!['='] + form_component(pair.1)
}

/// The parameters in their order, joined by `&`.
pub open spec fn form_query(pairs: Seq<(Seq<char>, Seq<char>)>) -> Seq<char>
    decreases pairs.len(),
{
    if pairs.len() == 0 {
        seq![]
    } else if pairs.len() == 1 {
        form_pair(pairs[0])
    } else {
        form_query(pairs.drop_last()) + seq!['&'] + form_pair(pairs.last())
    }
}

/// The query text is empty exactly when there is no parameter: every
/// parameter writes at least its `=`.
pub proof fn lemma_form_query_empty_iff_no_pairs(pairs: Seq<(Seq<char>, Seq<char>)>)
    ensures
        (form_query(pairs).len() == 0) <==> (pairs.len() == 0),
    decreases pairs.len(),
{
    if pairs.len() > 1 {
        lemma_form_query_empty_iff_no_pairs(pairs.drop_last());
    }
}

/// The error type of `serde_urlencoded`'s serializer.
#[verifier::external_type_specification]
#[verifier::external_body]
pub struct ExFormSerializeError(serde_urlencoded::ser::Error);

/// Calls `serde_urlencoded::to_string` on a sequence of text pairs.
///
/// Claimed of it, as its source shows for pairs of strings: it never fails,
/// writes each pair as the form serialization of its name, `=`, and that of
/// its value (the bytes `*-._`, digits and ASCII letters as they are, a space
/// as `+`, every other UTF-8 byte as `%XX` in upper-case hexadecimal), and
/// joins the pairs, in their order, with `&`.
#[verifier::external_body]
fn form_urlencode_pairs(pairs: &Vec<(String, String)>) -> (r: Result<
    String,
    serde_urlencoded::ser::Error,
>)
    ensures
        r is Ok,
        r matches Ok(text) ==> text@ == form_query(pairs.deep_view()),
{
    serde_urlencoded::to_string(pairs)
}

/// The query text of a sequence of parameters.
pub fn encode_query(pairs: &Vec<(String, String)>) -> (r: String)
    ensures
        r@ == form_query(pairs.deep_view()),
{
    match form_urlencode_pairs(pairs) {
        Ok(text) => text,
        // The serializer does not fail on text pairs; this arm is never taken.
        Err(_) => String::new(),
    }
}

fn digit_text(d: u64) -> (r: &'static str)
    requires
        d < 10,
    ensures
        r@ == seq![digit_char(d as nat)],
{
    proof {
        reveal_strlit("0");
        reveal_strlit("1");
        reveal_strlit("2");
        reveal_strlit("3");
        reveal_strlit("4");
        reveal_strlit("5");
        reveal_strlit("6");
        reveal_strlit("7");
        reveal_strlit("8");
        reveal_strlit("9");
    }
    match d {
        0 => "0",
        1 => "1",
        2 => "2",
        3 => "3",
        4 => "4",
        5 => "5",
        6 => "6",
        7 => "7",
        8 => "8",
        _ => "9",
    }
}

/// Decimal text of an unsigned integer, as a query parameter's value holds it.
pub fn u64_text(n: u64) -> (r: String)
    ensures
        r@ == decimal(n as nat),
    decreases n,
{
    if n < 10 {
        digit_text(n).to_owned()
    } else {
        let mut s = u64_text(n / 10);
        s.append(digit_text(n % 10));
        s
    }
}

/// Decimal text of a signed integer, as a query parameter's value holds it.
pub fn i64_text(n: i64) -> (r: String)
    ensures
        r@ == signed_decimal(n as int),
{
    if n < 0 {
        let magnitude: u64 = if n == i64::MIN {
            9223372036854775808u64
        } else {
            (-n) as u64
        };
        let digits = u64_text(magnitude);
        let mut s = "-".to_owned();
        proof {
            reveal_strlit("-");
        }
        s.append(digits.as_str());
        s
    } else {
        u64_text(n as u64)
    }
}

} // verus!
