use vstd::prelude::*;
use vstd::string::StringSliceAdditionalSpecFns;

verus! {

/// Returns whether two strings hold the same characters.
pub fn str_eq(a: &str, b: &str) -> (r: bool)
    ensures
        r == (a@ == b@),
{
    proof {
        vstd::utf8::encode_utf8_decode_utf8(a@);
        vstd::utf8::encode_utf8_decode_utf8(b@);
    }
    let ab = a.as_bytes();
    let bb = b.as_bytes();
    if ab.len() != bb.len() {
        return false;
    }
    let n = ab.len();
    let mut i: usize = 0;
    while i < n
        invariant
            n == ab@.len(),
            n == bb@.len(),
            i <= n,
            ab@ == a.spec_bytes(),
            bb@ == b.spec_bytes(),
            forall|j: int| 0 <= j < i ==> ab@[j] == bb@[j],
        decreases n - i,
    {
        if ab[i] != bb[i] {
            return false;
        }
        i += 1;
    }
    proof {
        assert(ab@ =~= bb@);
    }
    true
}

/// The numeric value of a sequence of ASCII decimal digits, most significant
/// digit first.
pub open spec fn dec_value(s: Seq<u8>) -> int
    decreases s.len(),
{
    if s.len() == 0 {
        0
    } else {
        dec_value(s.drop_last()) * 10 + (s.last() - 0x30)
    }
}

/// Whether every byte of the sequence is an ASCII decimal digit.
pub open spec fn is_dec_digits(s: Seq<u8>) -> bool {
    forall|i: int| 0 <= i < s.len() ==> 0x30 <= #[trigger] s[i] <= 0x39
}

/// The number denoted by a sequence of ASCII decimal digits: present exactly
/// when the sequence is non-empty, holds digits only, and its value fits in
/// a `u128`.
pub open spec fn dec_u128_of(s: Seq<u8>) -> Option<u128> {
    if s.len() > 0 && is_dec_digits(s) && dec_value(s) <= u128::MAX {
        Some(dec_value(s) as u128)
    } else {
        None
    }
}

pub proof fn lemma_dec_value_nonneg(s: Seq<u8>)
    requires
        is_dec_digits(s),
    ensures
        dec_value(s) >= 0,
    decreases s.len(),
{
    if s.len() > 0 {
        assert(is_dec_digits(s.drop_last()));
        lemma_dec_value_nonneg(s.drop_last());
    }
}

/// The value of a prefix of a digit string never exceeds the value of the
/// whole string.
pub proof fn lemma_dec_value_prefix_le(s: Seq<u8>, i: int)
    requires
        is_dec_digits(s),
        0 <= i <= s.len(),
    ensures
        dec_value(s.take(i)) <= dec_value(s),
    decreases s.len(),
{
    if i == s.len() {
        assert(s.take(i) =~= s);
    } else {
        assert(is_dec_digits(s.drop_last()));
        assert(s.take(i) =~= s.drop_last().take(i));
        lemma_dec_value_prefix_le(s.drop_last(), i);
        lemma_dec_value_nonneg(s.drop_last());
    }
}

/// Parses a sequence of ASCII decimal digits into a `u128`.
///
/// Returns the value exactly when the input is non-empty, holds digits only,
/// and the value fits; returns nothing otherwise.
pub fn parse_dec_u128(s: &[u8]) -> (r: Option<u128>)
    ensures
        r == dec_u128_of(s@),
{
    let n = s.len();
    if n == 0 {
        return None;
    }
    let mut acc: u128 = 0;
    let mut i: usize = 0;
    while i < n
        invariant
            n == s@.len(),
            0 < n,
            i <= n,
            is_dec_digits(s@.take(i as int)),
            acc == dec_value(s@.take(i as int)),
        decreases n - i,
    {
        let b = s[i];
        proof {
            assert(s@.take(i + 1).drop_last() =~= s@.take(i as int));
            assert(s@.take(i + 1).last() == s@[i as int]);
        }
        if b < 0x30 || b > 0x39 {
            return None;
        }
        let d = (b - 0x30) as u128;
        if acc > (u128::MAX - d) / 10 {
            proof {
                assert(dec_value(s@.take(i + 1)) == acc * 10 + d);
                assert(acc * 10 + d > u128::MAX) by {
                    assert(acc >= (u128::MAX - d) / 10 + 1);
                    assert(((u128::MAX - d) / 10 + 1) * 10 + d > u128::MAX) by (nonlinear_arith);
                    assert(acc * 10 >= ((u128::MAX - d) / 10 + 1) * 10) by (nonlinear_arith)
                        requires
                            acc >= (u128::MAX - d) / 10 + 1,
                    ;
                }
                if is_dec_digits(s@) {
                    lemma_dec_value_prefix_le(s@, i + 1);
                }
            }
            return None;
        }
        proof {
            assert(acc * 10 + d <= u128::MAX) by {
                assert(acc <= (u128::MAX - d) / 10);
                assert(((u128::MAX - d) / 10) * 10 <= u128::MAX - d) by (nonlinear_arith);
                assert(acc * 10 <= ((u128::MAX - d) / 10) * 10) by (nonlinear_arith)
                    requires
                        acc <= (u128::MAX - d) / 10,
                ;
            }
        }
        acc = acc * 10 + d;
        i += 1;
    }
    proof {
        assert(s@.take(n as int) =~= s@);
        lemma_dec_value_nonneg(s@);
    }
    Some(acc)
}

/// The canonical decimal digits of a number: no leading zeros, and `0`
/// written as a single digit.
pub open spec fn dec_digits_of(n: u128) -> Seq<u8>
    decreases n,
{
    if n < 10 {
        seq![(0x30 + n) as u8]
    } else {
        dec_digits_of(n / 10).push((0x30 + n % 10) as u8)
    }
}

/// Writes a number as its canonical decimal digits.
pub fn format_dec_u128(n: u128) -> (r: Vec<u8>)
    ensures
        r@ == dec_digits_of(n),
    decreases n,
{
    if n < 10 {
        let mut v: Vec<u8> = Vec::new();
        v.push(0x30 + (n as u8));
        proof {
            assert(v@ =~= dec_digits_of(n));
        }
        v
    } else {
        let mut v = format_dec_u128(n / 10);
        v.push(0x30 + ((n % 10) as u8));
        v
    }
}

pub proof fn lemma_dec_digits_are_digits(n: u128)
    ensures
        is_dec_digits(dec_digits_of(n)),
        dec_digits_of(n).len() > 0,
    decreases n,
{
    if n >= 10 {
        lemma_dec_digits_are_digits(n / 10);
    }
}

/// Formatting a number and parsing the digits back yields the number again.
pub proof fn lemma_dec_roundtrip(n: u128)
    ensures
        dec_u128_of(dec_digits_of(n)) == Some(n),
    decreases n,
{
    lemma_dec_digits_are_digits(n);
    lemma_dec_value_of_digits(n);
}

pub proof fn lemma_dec_value_of_digits(n: u128)
    ensures
        dec_value(dec_digits_of(n)) == n,
    decreases n,
{
    if n < 10 {
        assert(dec_digits_of(n) == seq![(0x30 + n) as u8]);
        assert(dec_digits_of(n).drop_last() =~= Seq::<u8>::empty());
        assert(dec_digits_of(n).last() == (0x30 + n) as u8);
        assert(dec_value(Seq::<u8>::empty()) == 0);
        assert(dec_value(dec_digits_of(n)) == 0 * 10 + ((0x30 + n) as u8 - 0x30));
    } else {
        lemma_dec_value_of_digits(n / 10);
        assert(dec_digits_of(n) == dec_digits_of(n / 10).push((0x30 + n % 10) as u8));
        assert(dec_digits_of(n).drop_last() =~= dec_digits_of(n / 10));
        assert(dec_digits_of(n).last() == (0x30 + n % 10) as u8);
        assert(dec_value(dec_digits_of(n)) == (n / 10) * 10 + n % 10);
        assert((n / 10) * 10 + n % 10 == n) by (nonlinear_arith);
    }
}

/// Relies on `String::from_utf8`: the call returns the string decoded from
/// the given bytes exactly when they are valid UTF-8.
#[verifier::external_body]
pub fn bytes_to_string(v: Vec<u8>) -> (r: Option<String>)
    ensures
        r is Some <==> vstd::utf8::valid_utf8(v@),
        r is Some ==> r->Some_0@ == vstd::utf8::decode_utf8(v@),
{
    String::from_utf8(v).ok()
}

} // verus!
