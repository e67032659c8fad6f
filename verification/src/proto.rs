use vstd::prelude::*;

verus! {

/// The base-128 varint encoding of a number: seven bits per byte, least
/// significant group first, the high bit marking continuation.
pub open spec fn varint(n: u64) -> Seq<u8>
    decreases n,
{
    if n < 128 {
        seq![n as u8]
    } else {
        seq![(128 + n % 128) as u8] + varint(n / 128)
    }
}

/// Decodes a varint from the front of a byte sequence: the value and the
/// number of bytes consumed, or nothing when the sequence is empty,
/// unterminated, or the value does not fit in a `u64`.
pub open spec fn varint_dec(s: Seq<u8>) -> Option<(u64, int)>
    decreases s.len(),
{
    if s.len() == 0 {
        None
    } else if s[0] < 128 {
        Some((s[0] as u64, 1))
    } else {
        match varint_dec(s.skip(1)) {
            Option::None => None,
            Option::Some((v, k)) => {
                if v <= (u64::MAX - (s[0] - 128)) / 128 {
                    Some((((s[0] - 128) + 128 * (v as int)) as u64, k + 1))
                } else {
                    None
                }
            },
        }
    }
}

/// Decoding from the front of an encoded varint followed by anything yields
/// the encoded value and consumes exactly the encoding.
pub proof fn lemma_varint_roundtrip(n: u64, rest: Seq<u8>)
    ensures
        varint_dec(varint(n) + rest) == Some((n, varint(n).len() as int)),
    decreases n,
{
    let s = varint(n) + rest;
    if n < 128 {
        assert(s[0] == n as u8);
    } else {
        lemma_varint_roundtrip(n / 128, rest);
        assert(s[0] == (128 + n % 128) as u8);
        assert(s.skip(1) =~= varint(n / 128) + rest);
        let c = (s[0] - 128) as int;
        let v = (n / 128) as int;
        assert(c == n % 128);
        assert(128 * v + c == n) by (nonlinear_arith)
            requires
                v == n as int / 128,
                c == n as int % 128,
        ;
        assert(v <= (u64::MAX - c) / 128) by (nonlinear_arith)
            requires
                128 * v + c <= u64::MAX,
                0 <= c < 128,
                0 <= v,
        ;
    }
}

/// Decodes a length-delimited payload from the front of a byte sequence:
/// the payload and the number of bytes consumed including the length prefix.
pub open spec fn lendelim_dec(s: Seq<u8>) -> Option<(Seq<u8>, int)> {
    match varint_dec(s) {
        Option::None => None,
        Option::Some((len, k)) => {
            if k + len <= s.len() {
                Some((s.subrange(k, k + len), k + len))
            } else {
                None
            }
        },
    }
}

/// Payload data of one wire-format field.
pub enum FieldData {
    /// A varint field (wire type 0).
    Vint(u64),
    /// A length-delimited field (wire type 2).
    Ld(Seq<u8>),
    /// A fixed-width field (wire types 1 and 5), skipped.
    Fixed,
}

/// Decodes one field from the front of a byte sequence: the field number,
/// its payload, and the number of bytes consumed. Wire types 3, 4, 6 and 7
/// are malformed.
pub open spec fn field_dec(s: Seq<u8>) -> Option<(u64, FieldData, int)> {
    match varint_dec(s) {
        Option::None => None,
        Option::Some((key, k)) => {
            let no = key / 8;
            let wt = key % 8;
            let rest = s.skip(k);
            if !(1 <= k <= s.len()) {
                None
            } else if wt == 0 {
                match varint_dec(rest) {
                    Option::None => None,
                    Option::Some((v, k2)) => Some((no, FieldData::Vint(v), k + k2)),
                }
            } else if wt == 2 {
                match lendelim_dec(rest) {
                    Option::None => None,
                    Option::Some((p, k2)) => Some((no, FieldData::Ld(p), k + k2)),
                }
            } else if wt == 1 {
                if rest.len() >= 8 {
                    Some((no, FieldData::Fixed, k + 8))
                } else {
                    None
                }
            } else if wt == 5 {
                if rest.len() >= 4 {
                    Some((no, FieldData::Fixed, k + 4))
                } else {
                    None
                }
            } else {
                None
            }
        },
    }
}

/// The single-byte key of a field with a small field number.
pub open spec fn key_byte(no: u64, wt: u64) -> u8
    recommends
        no < 16,
        wt < 8,
{
    (no * 8 + wt) as u8
}

/// The encoding of a varint field, omitted for the default value as in
/// proto3.
pub open spec fn enc_uint_field(no: u64, v: u64) -> Seq<u8> {
    if v == 0 {
        Seq::empty()
    } else {
        seq![key_byte(no, 0)] + varint(v)
    }
}

/// The encoding of a bytes or string field, omitted when empty as in proto3.
pub open spec fn enc_bytes_field(no: u64, b: Seq<u8>) -> Seq<u8> {
    if b.len() == 0 {
        Seq::empty()
    } else {
        seq![key_byte(no, 2)] + varint(b.len() as u64) + b
    }
}

/// The encoding of an embedded message field, always emitted when present.
pub open spec fn enc_msg_field(no: u64, b: Seq<u8>) -> Seq<u8> {
    seq![key_byte(no, 2)] + varint(b.len() as u64) + b
}

/// Decoding one field from the front of an encoded varint field yields that
/// field back.
pub proof fn lemma_field_dec_uint(no: u64, v: u64, rest: Seq<u8>)
    requires
        1 <= no < 16,
        v != 0,
    ensures
        field_dec(enc_uint_field(no, v) + rest) == Some(
            (no, FieldData::Vint(v), enc_uint_field(no, v).len() as int),
        ),
{
    let s = enc_uint_field(no, v) + rest;
    assert(s[0] == key_byte(no, 0));
    assert(s[0] < 128);
    assert(varint_dec(s) == Some((key_byte(no, 0) as u64, 1int)));
    assert((key_byte(no, 0) as u64) / 8 == no);
    assert((key_byte(no, 0) as u64) % 8 == 0);
    assert(s.skip(1) =~= varint(v) + rest);
    lemma_varint_roundtrip(v, rest);
}

/// Decoding one field from the front of an encoded length-delimited field
/// yields that field back.
pub proof fn lemma_field_dec_ld(no: u64, b: Seq<u8>, rest: Seq<u8>)
    requires
        1 <= no < 16,
        b.len() <= u64::MAX,
    ensures
        field_dec(enc_msg_field(no, b) + rest) == Some(
            (no, FieldData::Ld(b), enc_msg_field(no, b).len() as int),
        ),
        b.len() > 0 ==> field_dec(enc_bytes_field(no, b) + rest) == Some(
            (no, FieldData::Ld(b), enc_bytes_field(no, b).len() as int),
        ),
{
    let s = enc_msg_field(no, b) + rest;
    assert(s[0] == key_byte(no, 2));
    assert(s[0] < 128);
    assert(varint_dec(s) == Some((key_byte(no, 2) as u64, 1int)));
    assert((key_byte(no, 2) as u64) / 8 == no);
    assert((key_byte(no, 2) as u64) % 8 == 2);
    let tail = s.skip(1);
    assert(tail =~= varint(b.len() as u64) + (b + rest));
    lemma_varint_roundtrip(b.len() as u64, b + rest);
    let k = varint(b.len() as u64).len() as int;
    assert(lendelim_dec(tail) is Some) by {
        assert(k + b.len() <= tail.len());
    }
    assert(tail.subrange(k, k + b.len()) =~= b);
    if b.len() > 0 {
        assert(enc_bytes_field(no, b) == enc_msg_field(no, b));
    }
}

} // verus!
