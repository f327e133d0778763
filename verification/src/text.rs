//! Verified text utilities shared by the request builders and the signer:
//! decimal rendering, ASCII handling, and string concatenation.

use vstd::prelude::*;
use vstd::string::*;

verus! {

broadcast use vstd::string::group_string_axioms;

/// The shortest decimal ASCII rendering of `n`, as bytes.
pub open spec fn dec_bytes(n: nat) -> Seq<u8>
    decreases n,
{
    if n < 10 {
        seq![(48 + n) as u8]
    } else {
        dec_bytes(n / 10) + seq![(48 + (n % 10)) as u8]
    }
}

/// The chars with the same codes as a sequence of ASCII bytes.
pub open spec fn chars_of_ascii(b: Seq<u8>) -> Seq<char> {
    Seq::new(b.len(), |i: int| b[i] as char)
}

/// The shortest decimal rendering of `n`, as text.
pub open spec fn dec_chars(n: nat) -> Seq<char> {
    chars_of_ascii(dec_bytes(n))
}

pub proof fn lemma_dec_bytes_ascii(n: nat)
    ensures
        dec_bytes(n).len() > 0,
        forall|i: int| 0 <= i < dec_bytes(n).len() ==> 48 <= #[trigger] dec_bytes(n)[i] < 58,
    decreases n,
{
    if n >= 10 {
        lemma_dec_bytes_ascii(n / 10);
    }
}

/// Relies on `String::from_utf8`: a sequence of ASCII bytes decodes to the
/// string whose chars carry the same codes.
#[verifier::external_body]
pub(crate) fn ascii_to_string(bytes: Vec<u8>) -> (r: String)
    requires
        forall|i: int| 0 <= i < bytes@.len() ==> bytes@[i] < 128,
    ensures
        r@.len() == bytes@.len(),
        forall|i: int| 0 <= i < bytes@.len() ==> r@[i] == (#[trigger] bytes@[i]) as char,
{
    String::from_utf8(bytes).unwrap()
}

/// The decimal digits of `n`, as bytes.
pub fn usize_dec_bytes(n: usize) -> (r: Vec<u8>)
    ensures
        r@ == dec_bytes(n as nat),
{
    u64_dec_bytes(n as u64)
}

/// The decimal digits of `n`, as bytes.
pub fn u64_dec_bytes(n: u64) -> (r: Vec<u8>)
    ensures
        r@ == dec_bytes(n as nat),
{
    let mut digits: Vec<u8> = Vec::new();
    let mut cur: u64 = n;
    loop
        invariant
            digits@.len() == 0 ==> cur == n,
            digits@.len() > 0 && cur > 0 ==> dec_bytes(n as nat) == dec_bytes(cur as nat)
                + digits@,
            digits@.len() > 0 && cur == 0 ==> dec_bytes(n as nat) == digits@,
        ensures
            cur == 0,
            digits@.len() > 0,
        decreases cur + (if digits@.len() == 0 { 1int } else { 0int }),
    {
        if digits.len() > 0 && cur == 0 {
            break;
        }
        let ghost prev = cur as nat;
        let ghost prev_digits = digits@;
        let d: u8 = (cur % 10) as u8 + 48;
        digits.insert(0, d);
        cur = cur / 10;
        proof {
            assert(digits@ =~= seq![d] + prev_digits);
            if prev_digits.len() == 0 {
                if prev < 10 {
                    assert(dec_bytes(n as nat) =~= digits@);
                } else {
                    assert(dec_bytes(n as nat) =~= dec_bytes(cur as nat) + digits@);
                }
            } else {
                if prev < 10 {
                    assert(dec_bytes(prev) =~= seq![d]);
                    assert(dec_bytes(n as nat) =~= digits@);
                } else {
                    assert(dec_bytes(prev) =~= dec_bytes(prev / 10) + seq![d]);
                    assert(dec_bytes(n as nat) =~= dec_bytes(cur as nat) + digits@);
                }
            }
        }
    }
    digits
}

/// The decimal rendering of `n`.
pub fn usize_to_string(n: usize) -> (r: String)
    ensures
        r@ == dec_chars(n as nat),
{
    let bytes = usize_dec_bytes(n);
    proof {
        lemma_dec_bytes_ascii(n as nat);
    }
    let r = ascii_to_string(bytes);
    proof {
        assert(r@ =~= dec_chars(n as nat));
    }
    r
}

/// The decimal rendering of a possibly negative number.
pub open spec fn int_dec_chars(n: int) -> Seq<char> {
    if n >= 0 {
        dec_chars(n as nat)
    } else {
        seq!['-'] + dec_chars((-n) as nat)
    }
}

/// The decimal rendering of a possibly negative number, as bytes.
pub open spec fn int_dec_bytes(n: int) -> Seq<u8> {
    if n >= 0 {
        dec_bytes(n as nat)
    } else {
        seq![45u8] + dec_bytes((-n) as nat)
    }
}

/// The decimal digits of `n`, as bytes, with a leading minus sign when
/// negative.
pub fn i64_dec_bytes(n: i64) -> (r: Vec<u8>)
    ensures
        r@ == int_dec_bytes(n as int),
{
    if n >= 0 {
        u64_dec_bytes(n as u64)
    } else {
        let magnitude: u64 = ((-(n + 1)) as u64) + 1;
        let mut bytes = u64_dec_bytes(magnitude);
        bytes.insert(0, 45);
        proof {
            assert(magnitude as nat == (-(n as int)) as nat);
            assert(bytes@ =~= int_dec_bytes(n as int));
        }
        bytes
    }
}

/// The decimal rendering of `n`, with a leading minus sign when negative.
pub fn i32_to_string(n: i32) -> (r: String)
    ensures
        r@ == int_dec_chars(n as int),
{
    if n >= 0 {
        let r = usize_to_string(n as usize);
        r
    } else {
        let magnitude: usize = (-(n as i64)) as usize;
        let mut bytes = usize_dec_bytes(magnitude);
        bytes.insert(0, 45);
        proof {
            lemma_dec_bytes_ascii(magnitude as nat);
            assert(bytes@ =~= seq![45u8] + dec_bytes(magnitude as nat));
        }
        let ghost bseq = bytes@;
        let r = ascii_to_string(bytes);
        proof {
            assert(45u8 as char == '-');
            assert(magnitude as nat == (-(n as int)) as nat);
            assert forall|i: int| 0 <= i < r@.len() implies r@[i] == int_dec_chars(n as int)[i] by {
                assert(r@[i] == bseq[i] as char);
            }
            assert(r@ =~= int_dec_chars(n as int));
        }
        r
    }
}

/// Concatenation of two string slices.
pub fn concat2(a: &str, b: &str) -> (r: String)
    ensures
        r@ == a@ + b@,
{
    let mut s = a.to_owned();
    s.append(b);
    s
}

/// Concatenation of three string slices.
pub fn concat3(a: &str, b: &str, c: &str) -> (r: String)
    ensures
        r@ == a@ + b@ + c@,
{
    let mut s = a.to_owned();
    s.append(b);
    s.append(c);
    s
}

/// ASCII lowercase folding of one byte.
pub open spec fn lower_byte(b: u8) -> u8 {
    if 65 <= b <= 90 {
        (b + 32) as u8
    } else {
        b
    }
}

/// Byte sequences equal up to ASCII case.
pub open spec fn eq_ignore_ascii_case_bytes(a: Seq<u8>, b: Seq<u8>) -> bool {
    a.len() == b.len() && forall|i: int|
        0 <= i < a.len() ==> lower_byte(#[trigger] a[i]) == lower_byte(#[trigger] b[i])
}

/// Compares two byte strings up to ASCII case.
pub fn bytes_eq_ignore_ascii_case(a: &Vec<u8>, b: &Vec<u8>) -> (r: bool)
    ensures
        r == eq_ignore_ascii_case_bytes(a@, b@),
{
    if a.len() != b.len() {
        return false;
    }
    let mut i: usize = 0;
    while i < a.len()
        invariant
            a@.len() == b@.len(),
            0 <= i <= a@.len(),
            forall|j: int| 0 <= j < i ==> lower_byte(#[trigger] a@[j]) == lower_byte(
                #[trigger] b@[j],
            ),
        decreases a@.len() - i,
    {
        let x = a[i];
        let y = b[i];
        let lx: u8 = if 65 <= x && x <= 90 {
            x + 32
        } else {
            x
        };
        let ly: u8 = if 65 <= y && y <= 90 {
            y + 32
        } else {
            y
        };
        if lx != ly {
            return false;
        }
        i = i + 1;
    }
    true
}

/// Bytes that form-urlencoding passes through unchanged: ASCII alphanumerics
/// and `*`, `-`, `.`, `_`.
pub open spec fn urlencode_allowed(b: u8) -> bool {
    (48 <= b <= 57) || (65 <= b <= 90) || (97 <= b <= 122) || b == 42 || b == 45 || b == 46 || b
        == 95
}

/// Uppercase hex digit for a nibble.
pub open spec fn upper_hex_digit(n: u8) -> u8 {
    if n < 10 {
        (48 + n) as u8
    } else {
        (55 + n) as u8
    }
}

/// Form-urlencoding of a single byte: passed through, `+` for a space, or a
/// percent escape with two uppercase hex digits.
pub open spec fn urlencode_byte(b: u8) -> Seq<u8> {
    if urlencode_allowed(b) {
        seq![b]
    } else if b == 32 {
        seq![43u8]
    } else {
        seq![37u8, upper_hex_digit((b / 16) as u8), upper_hex_digit((b % 16) as u8)]
    }
}

/// Form-urlencoding of a byte string.
pub open spec fn urlencode_bytes(b: Seq<u8>) -> Seq<u8>
    decreases b.len(),
{
    if b.len() == 0 {
        Seq::empty()
    } else {
        urlencode_byte(b[0]) + urlencode_bytes(b.drop_first())
    }
}

/// Form-urlencoding of a string: its UTF-8 bytes, escaped, read back as chars.
pub open spec fn urlencoded(s: Seq<char>) -> Seq<char> {
    chars_of_ascii(urlencode_bytes(vstd::utf8::encode_utf8(s)))
}

pub proof fn lemma_urlencode_snoc(s: Seq<u8>, x: u8)
    ensures
        urlencode_bytes(s.push(x)) == urlencode_bytes(s) + urlencode_byte(x),
    decreases s.len(),
{
    if s.len() == 0 {
        assert(s.push(x).drop_first() =~= s);
        assert(urlencode_bytes(s.push(x)) =~= urlencode_bytes(s) + urlencode_byte(x));
    } else {
        assert(s.push(x).drop_first() =~= s.drop_first().push(x));
        lemma_urlencode_snoc(s.drop_first(), x);
        assert(urlencode_bytes(s.push(x)) =~= urlencode_bytes(s) + urlencode_byte(x));
    }
}

pub proof fn lemma_urlencode_ascii(s: Seq<u8>)
    ensures
        forall|i: int| 0 <= i < urlencode_bytes(s).len() ==> #[trigger] urlencode_bytes(s)[i]
            < 128,
    decreases s.len(),
{
    if s.len() > 0 {
        lemma_urlencode_ascii(s.drop_first());
        let e = urlencode_byte(s[0]);
        let rest = urlencode_bytes(s.drop_first());
        assert forall|i: int| 0 <= i < urlencode_bytes(s).len() implies #[trigger] urlencode_bytes(
            s,
        )[i] < 128 by {
            if i < e.len() {
                assert(urlencode_bytes(s)[i] == e[i]);
            } else {
                assert(urlencode_bytes(s)[i] == rest[i - e.len()]);
            }
        }
    }
}

/// Form-urlencodes the UTF-8 bytes of `s`.
pub fn urlencode(s: &str) -> (r: String)
    ensures
        r@ == urlencoded(s@),
{
    let bytes = s.as_bytes_vec();
    let out = urlencode_bytes_exec(&bytes);
    let r = ascii_to_string(out);
    proof {
        assert(r@ =~= urlencoded(s@));
    }
    r
}

/// Form-urlencodes a byte string; the result is all ASCII.
pub fn urlencode_bytes_exec(bytes: &Vec<u8>) -> (r: Vec<u8>)
    ensures
        r@ == urlencode_bytes(bytes@),
        forall|i: int| 0 <= i < r@.len() ==> r@[i] < 128,
{
    let mut out: Vec<u8> = Vec::new();
    let mut i: usize = 0;
    while i < bytes.len()
        invariant
            0 <= i <= bytes@.len(),
            out@ == urlencode_bytes(bytes@.take(i as int)),
            forall|j: int| 0 <= j < out@.len() ==> out@[j] < 128,
        decreases bytes@.len() - i,
    {
        let ghost prefix = bytes@.take(i as int);
        let b = bytes[i];
        if (48 <= b && b <= 57) || (65 <= b && b <= 90) || (97 <= b && b <= 122) || b == 42 || b
            == 45 || b == 46 || b == 95 {
            out.push(b);
        } else if b == 32 {
            out.push(43);
        } else {
            out.push(37);
            let hi: u8 = b / 16;
            let lo: u8 = b % 16;
            out.push(if hi < 10 {
                48 + hi
            } else {
                55 + hi
            });
            out.push(if lo < 10 {
                48 + lo
            } else {
                55 + lo
            });
        }
        proof {
            lemma_urlencode_snoc(prefix, bytes@[i as int]);
            assert(bytes@.take(i + 1) =~= prefix.push(bytes@[i as int]));
            assert(out@ =~= urlencode_bytes(bytes@.take(i + 1)));
        }
        i = i + 1;
    }
    proof {
        assert(bytes@.take(bytes@.len() as int) =~= bytes@);
    }
    out
}

} // verus!
