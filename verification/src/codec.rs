use vstd::prelude::*;
use crate::proto::{
    enc_bytes_field, enc_msg_field, enc_uint_field, field_dec, lemma_field_dec_ld,
    lemma_field_dec_uint, varint, varint_dec, FieldData,
};
use crate::text::{dec_digits_of, dec_u128_of};
use crate::types::{Coin, CoinModel, Timestamp};
use vstd::utf8::{decode_utf8, encode_utf8, valid_utf8};

verus! {

// ---------------------------------------------------------------------------
// Wire models of the messages of the remote chain's staking module, as this
// library reads and writes them. Field numbers follow the module's schema.
// ---------------------------------------------------------------------------

/// Walks the fields of an encoded token amount, accumulating the raw
/// payloads of `denom` (field 1) and `amount` (field 2); later occurrences
/// win, unknown fields are skipped, and a known field with the wrong wire
/// type is malformed.
pub open spec fn coin_fields_dec(s: Seq<u8>, denom: Seq<u8>, amount: Seq<u8>) -> Option<
    (Seq<u8>, Seq<u8>),
>
    decreases s.len(),
{
    if s.len() == 0 {
        Some((denom, amount))
    } else {
        match field_dec(s) {
            Option::None => None,
            Option::Some((no, fd, c)) => {
                if !(1 <= c <= s.len()) {
                    None
                } else if no == 1 {
                    match fd {
                        FieldData::Ld(p) => coin_fields_dec(s.skip(c), p, amount),
                        _ => None,
                    }
                } else if no == 2 {
                    match fd {
                        FieldData::Ld(p) => coin_fields_dec(s.skip(c), denom, p),
                        _ => None,
                    }
                } else {
                    coin_fields_dec(s.skip(c), denom, amount)
                }
            },
        }
    }
}

/// The token amount denoted by an encoded coin message: present when the
/// wire data is well formed, the denomination is valid UTF-8 and the amount
/// is a decimal number that fits in a `u128`.
pub open spec fn coin_dec(s: Seq<u8>) -> Option<CoinModel> {
    match coin_fields_dec(s, Seq::empty(), Seq::empty()) {
        Option::None => None,
        Option::Some((db, ab)) => {
            if valid_utf8(db) && dec_u128_of(ab) is Some {
                Some(CoinModel { denom: decode_utf8(db), amount: dec_u128_of(ab)->Some_0 })
            } else {
                None
            }
        },
    }
}

/// The encoding of a token amount message.
pub open spec fn coin_enc(c: CoinModel) -> Seq<u8> {
    enc_bytes_field(1, encode_utf8(c.denom)) + enc_bytes_field(2, dec_digits_of(c.amount))
}

/// Walks the fields of an encoded timestamp, accumulating `seconds`
/// (field 1) and `nanos` (field 2).
pub open spec fn timestamp_fields_dec(s: Seq<u8>, seconds: u64, nanos: u64) -> Option<(u64, u64)>
    decreases s.len(),
{
    if s.len() == 0 {
        Some((seconds, nanos))
    } else {
        match field_dec(s) {
            Option::None => None,
            Option::Some((no, fd, c)) => {
                if !(1 <= c <= s.len()) {
                    None
                } else if no == 1 {
                    match fd {
                        FieldData::Vint(v) => timestamp_fields_dec(s.skip(c), v, nanos),
                        _ => None,
                    }
                } else if no == 2 {
                    match fd {
                        FieldData::Vint(v) => timestamp_fields_dec(s.skip(c), seconds, v),
                        _ => None,
                    }
                } else {
                    timestamp_fields_dec(s.skip(c), seconds, nanos)
                }
            },
        }
    }
}

/// The timestamp denoted by an encoded timestamp message.
pub open spec fn timestamp_dec(s: Seq<u8>) -> Option<Timestamp> {
    match timestamp_fields_dec(s, 0, 0) {
        Option::None => None,
        Option::Some((seconds, nanos)) => {
            if nanos <= u32::MAX {
                Some(Timestamp { seconds, nanos: nanos as u32 })
            } else {
                None
            }
        },
    }
}

/// The encoding of a timestamp message.
pub open spec fn timestamp_enc(t: Timestamp) -> Seq<u8> {
    enc_uint_field(1, t.seconds) + enc_uint_field(2, t.nanos as u64)
}

/// Walks the fields of an answer that carries an optional embedded message
/// in field 1, accumulating its raw payload.
pub open spec fn opt_msg_fields_dec(s: Seq<u8>, payload: Option<Seq<u8>>) -> Option<
    Option<Seq<u8>>,
>
    decreases s.len(),
{
    if s.len() == 0 {
        Some(payload)
    } else {
        match field_dec(s) {
            Option::None => None,
            Option::Some((no, fd, c)) => {
                if !(1 <= c <= s.len()) {
                    None
                } else if no == 1 {
                    match fd {
                        FieldData::Ld(p) => opt_msg_fields_dec(s.skip(c), Some(p)),
                        _ => None,
                    }
                } else {
                    opt_msg_fields_dec(s.skip(c), payload)
                }
            },
        }
    }
}

/// The optional completion time carried by an undelegation or redelegation
/// answer.
pub open spec fn completion_time_dec(s: Seq<u8>) -> Option<Option<Timestamp>> {
    match opt_msg_fields_dec(s, None) {
        Option::None => None,
        Option::Some(None) => Some(None),
        Option::Some(Some(p)) => match timestamp_dec(p) {
            Option::None => None,
            Option::Some(t) => Some(Some(t)),
        },
    }
}

/// The encoding of an answer that carries an optional completion time.
pub open spec fn completion_time_enc(ct: Option<Timestamp>) -> Seq<u8> {
    match ct {
        Option::None => Seq::empty(),
        Option::Some(t) => enc_msg_field(1, timestamp_enc(t)),
    }
}

/// The optional token amount carried by a tokenize-shares or
/// redeem-tokens-for-shares answer.
pub open spec fn amount_answer_dec(s: Seq<u8>) -> Option<Option<CoinModel>> {
    match opt_msg_fields_dec(s, None) {
        Option::None => None,
        Option::Some(None) => Some(None),
        Option::Some(Some(p)) => match coin_dec(p) {
            Option::None => None,
            Option::Some(c) => Some(Some(c)),
        },
    }
}

/// The encoding of an answer that carries an optional token amount.
pub open spec fn amount_answer_enc(c: Option<CoinModel>) -> Seq<u8> {
    match c {
        Option::None => Seq::empty(),
        Option::Some(c) => enc_msg_field(1, coin_enc(c)),
    }
}

/// Whether an encoded message consists of well-formed fields; a delegation
/// answer carries no fields of its own, so this alone decodes it.
pub open spec fn fields_ok(s: Seq<u8>) -> bool
    decreases s.len(),
{
    if s.len() == 0 {
        true
    } else {
        match field_dec(s) {
            Option::None => false,
            Option::Some((no, fd, c)) => 1 <= c <= s.len() && fields_ok(s.skip(c)),
        }
    }
}

// ---------------------------------------------------------------------------
// Round trips: decoding an encoded message yields the message back.
// ---------------------------------------------------------------------------

/// A denomination short enough to be carried in a wire message.
pub open spec fn denom_fits(denom: Seq<char>) -> bool {
    encode_utf8(denom).len() < 0x1_0000_0000
}

/// Powers of 128.
pub open spec fn pow128(k: nat) -> int
    decreases k,
{
    if k == 0 {
        1
    } else {
        128 * pow128((k - 1) as nat)
    }
}

proof fn lemma_varint_len_rec(n: u64, k: nat)
    requires
        1 <= k,
        n < pow128(k),
    ensures
        varint(n).len() <= k,
    decreases k,
{
    if n >= 128 {
        assert(pow128(0) == 1);
        if k == 1 {
            assert(pow128(1) == 128);
        } else {
            assert(pow128(k) == 128 * pow128((k - 1) as nat));
            assert(n / 128 < pow128((k - 1) as nat)) by (nonlinear_arith)
                requires
                    n < 128 * pow128((k - 1) as nat),
            ;
            lemma_varint_len_rec(n / 128, (k - 1) as nat);
        }
    }
}

/// A varint encoding takes between one and ten bytes.
pub proof fn lemma_varint_len(n: u64)
    ensures
        1 <= varint(n).len() <= 10,
    decreases n,
{
    reveal_with_fuel(pow128, 12);
    assert(pow128(10) == 1180591620717411303424int);
    lemma_varint_len_rec(n, 10);
}

/// Powers of ten.
pub open spec fn pow10(k: nat) -> int
    decreases k,
{
    if k == 0 {
        1
    } else {
        10 * pow10((k - 1) as nat)
    }
}

proof fn lemma_dec_digits_len_rec(n: u128, k: nat)
    requires
        1 <= k,
        n < pow10(k),
    ensures
        dec_digits_of(n).len() <= k,
    decreases k,
{
    if n >= 10 {
        assert(pow10(0) == 1);
        if k == 1 {
            assert(pow10(1) == 10);
        } else {
            assert(pow10(k) == 10 * pow10((k - 1) as nat));
            assert(n < 10 * pow10((k - 1) as nat));
            assert(n / 10 < pow10((k - 1) as nat)) by (nonlinear_arith)
                requires
                    n < 10 * pow10((k - 1) as nat),
            ;
            lemma_dec_digits_len_rec(n / 10, (k - 1) as nat);
        }
    }
}

/// A `u128` is written with at most 39 decimal digits.
pub proof fn lemma_dec_digits_len(n: u128)
    ensures
        1 <= dec_digits_of(n).len() <= 39,
{
    reveal_with_fuel(pow10, 41);
    assert(pow10(39) == 1000000000000000000000000000000000000000int);
    lemma_dec_digits_len_rec(n, 39);
    crate::text::lemma_dec_digits_are_digits(n);
}

/// Decoding the encoding of a token amount yields exactly the denomination
/// and amount that were encoded.
pub proof fn lemma_coin_roundtrip(c: CoinModel)
    requires
        denom_fits(c.denom),
    ensures
        coin_dec(coin_enc(c)) == Some(c),
{
    let db = encode_utf8(c.denom);
    let ab = dec_digits_of(c.amount);
    crate::text::lemma_dec_digits_are_digits(c.amount);
    crate::text::lemma_dec_roundtrip(c.amount);
    let f1 = enc_bytes_field(1, db);
    let f2 = enc_bytes_field(2, ab);
    lemma_dec_digits_len(c.amount);
    lemma_varint_len(ab.len() as u64);
    assert(f2.len() > 0);
    // the trailing amount field decodes from its own start
    lemma_field_dec_ld(2, ab, Seq::empty());
    assert(f2 + Seq::<u8>::empty() =~= f2);
    assert(field_dec(f2) == Some((2u64, FieldData::Ld(ab), f2.len() as int)));
    assert(f2.skip(f2.len() as int) =~= Seq::<u8>::empty());
    if db.len() == 0 {
        assert(coin_fields_dec(Seq::<u8>::empty(), Seq::empty(), ab) == Some(
            (Seq::<u8>::empty(), ab),
        ));
        assert(coin_fields_dec(f2, Seq::empty(), Seq::empty()) == coin_fields_dec(
            Seq::<u8>::empty(),
            Seq::empty(),
            ab,
        ));
        assert(coin_enc(c) =~= f2);
        assert(db =~= Seq::<u8>::empty());
    } else {
        assert(coin_fields_dec(Seq::<u8>::empty(), db, ab) == Some((db, ab)));
        assert(coin_fields_dec(f2, db, Seq::empty()) == coin_fields_dec(
            Seq::<u8>::empty(),
            db,
            ab,
        ));
        lemma_field_dec_ld(1, db, f2);
        assert(coin_enc(c) == f1 + f2);
        assert(field_dec(f1 + f2) == Some((1u64, FieldData::Ld(db), f1.len() as int)));
        assert((f1 + f2).skip(f1.len() as int) =~= f2);
        assert(coin_fields_dec(f1 + f2, Seq::empty(), Seq::empty()) == coin_fields_dec(
            f2,
            db,
            Seq::empty(),
        ));
    }
    vstd::utf8::encode_utf8_valid_utf8(c.denom);
    vstd::utf8::encode_utf8_decode_utf8(c.denom);
}

/// Decoding the encoding of a timestamp yields the timestamp back.
pub proof fn lemma_timestamp_roundtrip(t: Timestamp)
    ensures
        timestamp_dec(timestamp_enc(t)) == Some(t),
{
    let f1 = enc_uint_field(1, t.seconds);
    let f2 = enc_uint_field(2, t.nanos as u64);
    assert(timestamp_fields_dec(Seq::<u8>::empty(), t.seconds, t.nanos as u64) == Some(
        (t.seconds, t.nanos as u64),
    ));
    if t.nanos != 0 {
        lemma_field_dec_uint(2, t.nanos as u64, Seq::empty());
        assert(f2 + Seq::<u8>::empty() =~= f2);
        assert(field_dec(f2) == Some((2u64, FieldData::Vint(t.nanos as u64), f2.len() as int)));
        assert(f2.skip(f2.len() as int) =~= Seq::<u8>::empty());
        assert(timestamp_fields_dec(f2, t.seconds, 0) == timestamp_fields_dec(
            Seq::<u8>::empty(),
            t.seconds,
            t.nanos as u64,
        ));
    } else {
        assert(f2 =~= Seq::<u8>::empty());
        assert(timestamp_fields_dec(f2, t.seconds, 0) == Some((t.seconds, 0u64)));
    }
    assert(timestamp_fields_dec(f2, t.seconds, 0) == Some((t.seconds, t.nanos as u64)));
    if t.seconds != 0 {
        lemma_field_dec_uint(1, t.seconds, f2);
        assert(timestamp_enc(t) == f1 + f2);
        assert(field_dec(f1 + f2) == Some((1u64, FieldData::Vint(t.seconds), f1.len() as int)));
        assert((f1 + f2).skip(f1.len() as int) =~= f2);
        assert(timestamp_fields_dec(f1 + f2, 0, 0) == timestamp_fields_dec(f2, t.seconds, 0));
    } else {
        assert(timestamp_enc(t) =~= f2);
    }
}

/// Decoding the encoding of an optional completion time yields it back.
pub proof fn lemma_completion_time_roundtrip(ct: Option<Timestamp>)
    ensures
        completion_time_dec(completion_time_enc(ct)) == Some(ct),
{
    match ct {
        Option::None => {
        },
        Option::Some(t) => {
            let p = timestamp_enc(t);
            lemma_varint_len(t.seconds);
            lemma_varint_len(t.nanos as u64);
            assert(p.len() <= 22);
            lemma_field_dec_ld(1, p, Seq::empty());
            let f = enc_msg_field(1, p);
            assert(f + Seq::<u8>::empty() =~= f);
            assert(field_dec(f) == Some((1u64, FieldData::Ld(p), f.len() as int)));
            assert(f.skip(f.len() as int) =~= Seq::<u8>::empty());
            assert(opt_msg_fields_dec(Seq::<u8>::empty(), Some(p)) == Some(Some(p)));
            assert(opt_msg_fields_dec(f, None) == opt_msg_fields_dec(
                Seq::<u8>::empty(),
                Some(p),
            ));
            lemma_timestamp_roundtrip(t);
        },
    }
}

/// Decoding the encoding of an optional token amount yields it back.
pub proof fn lemma_amount_answer_roundtrip(c: Option<CoinModel>)
    requires
        c is Some ==> denom_fits(c->Some_0.denom),
    ensures
        amount_answer_dec(amount_answer_enc(c)) == Some(c),
{
    match c {
        Option::None => {
        },
        Option::Some(cm) => {
            let p = coin_enc(cm);
            lemma_dec_digits_len(cm.amount);
            lemma_varint_len(dec_digits_of(cm.amount).len() as u64);
            lemma_varint_len(encode_utf8(cm.denom).len() as u64);
            assert(p.len() < 0x2_0000_0000);
            lemma_field_dec_ld(1, p, Seq::empty());
            let f = enc_msg_field(1, p);
            assert(f + Seq::<u8>::empty() =~= f);
            assert(field_dec(f) == Some((1u64, FieldData::Ld(p), f.len() as int)));
            assert(f.skip(f.len() as int) =~= Seq::<u8>::empty());
            assert(opt_msg_fields_dec(Seq::<u8>::empty(), Some(p)) == Some(Some(p)));
            assert(opt_msg_fields_dec(f, None) == opt_msg_fields_dec(
                Seq::<u8>::empty(),
                Some(p),
            ));
            lemma_coin_roundtrip(cm);
        },
    }
}

// ---------------------------------------------------------------------------
// Executable readers, mirroring the wire model.
// ---------------------------------------------------------------------------

/// Payload data of one wire-format field, as read.
pub enum FieldBytes {
    Vint(u64),
    Ld(Vec<u8>),
    Fixed,
}

impl FieldBytes {
    /// The wire model of this payload.
    pub open spec fn model(self) -> FieldData {
        match self {
            FieldBytes::Vint(v) => FieldData::Vint(v),
            FieldBytes::Ld(p) => FieldData::Ld(p@),
            FieldBytes::Fixed => FieldData::Fixed,
        }
    }
}

/// Reads a varint starting at position `i`.
fn read_varint(s: &[u8], i: usize) -> (r: Option<(u64, usize)>)
    requires
        i <= s@.len(),
    ensures
        r is None <==> varint_dec(s@.skip(i as int)) is None,
        r matches Some((v, c)) ==> varint_dec(s@.skip(i as int)) == Some((v, c as int)) && 1 <= c
            && i + c <= s@.len(),
    decreases s@.len() - i,
{
    if i == s.len() {
        proof {
            assert(s@.skip(i as int) =~= Seq::<u8>::empty());
        }
        return None;
    }
    let b = s[i];
    proof {
        assert(s@.skip(i as int)[0] == s@[i as int]);
        assert(s@.skip(i as int).skip(1) =~= s@.skip(i + 1));
    }
    if b < 128 {
        Some((b as u64, 1))
    } else {
        match read_varint(s, i + 1) {
            Option::None => None,
            Option::Some((v, c)) => {
                let head = (b - 128) as u64;
                if v <= (u64::MAX - head) / 128 {
                    proof {
                        assert(128 * (v as int) + head <= u64::MAX) by (nonlinear_arith)
                            requires
                                v <= (u64::MAX - head) / 128,
                                0 <= head < 128,
                                0 <= v,
                        ;
                    }
                    Some((head + 128 * v, c + 1))
                } else {
                    None
                }
            },
        }
    }
}

/// Reads one field starting at position `i`.
fn read_field(s: &[u8], i: usize) -> (r: Option<(u64, FieldBytes, usize)>)
    requires
        i <= s@.len(),
    ensures
        r is None <==> field_dec(s@.skip(i as int)) is None,
        r matches Some((no, fb, c)) ==> field_dec(s@.skip(i as int)) == Some(
            (no, fb.model(), c as int),
        ) && 1 <= c && i + c <= s@.len(),
{
    let n = s.len();
    let ghost tail = s@.skip(i as int);
    match read_varint(s, i) {
        Option::None => None,
        Option::Some((key, k)) => {
            let no = key / 8;
            let wt = key % 8;
            proof {
                assert(tail.skip(k as int) =~= s@.skip(i + k));
            }
            if wt == 0 {
                match read_varint(s, i + k) {
                    Option::None => None,
                    Option::Some((v, k2)) => Some((no, FieldBytes::Vint(v), k + k2)),
                }
            } else if wt == 2 {
                match read_varint(s, i + k) {
                    Option::None => None,
                    Option::Some((len, k2)) => {
                        let pos = i + k + k2;
                        let rem = (s.len() - pos) as u64;
                        if len <= rem {
                            let l = len as usize;
                            let payload = vstd::slice::slice_to_vec(
                                vstd::slice::slice_subrange(s, pos, pos + l),
                            );
                            proof {
                                let rest = tail.skip(k as int);
                                assert(varint_dec(rest) == Some((len, k2 as int)));
                                assert(rest.subrange(k2 as int, k2 + len) =~= s@.subrange(
                                    pos as int,
                                    pos + l,
                                ));
                            }
                            Some((no, FieldBytes::Ld(payload), k + k2 + l))
                        } else {
                            None
                        }
                    },
                }
            } else if wt == 1 {
                if s.len() - (i + k) >= 8 {
                    Some((no, FieldBytes::Fixed, k + 8))
                } else {
                    None
                }
            } else if wt == 5 {
                if s.len() - (i + k) >= 4 {
                    Some((no, FieldBytes::Fixed, k + 4))
                } else {
                    None
                }
            } else {
                None
            }
        },
    }
}

/// Walks the fields of an encoded token amount.
fn walk_coin(s: &[u8], i: usize, denom: Vec<u8>, amount: Vec<u8>) -> (r: Option<(Vec<u8>, Vec<u8>)>)
    requires
        i <= s@.len(),
    ensures
        r is None <==> coin_fields_dec(s@.skip(i as int), denom@, amount@) is None,
        r matches Some((d, a)) ==> coin_fields_dec(s@.skip(i as int), denom@, amount@) == Some(
            (d@, a@),
        ),
    decreases s@.len() - i,
{
    if i == s.len() {
        proof {
            assert(s@.skip(i as int) =~= Seq::<u8>::empty());
        }
        return Some((denom, amount));
    }
    match read_field(s, i) {
        Option::None => None,
        Option::Some((no, fb, c)) => {
            proof {
                assert(s@.skip(i as int).skip(c as int) =~= s@.skip(i + c));
            }
            if no == 1 {
                match fb {
                    FieldBytes::Ld(p) => walk_coin(s, i + c, p, amount),
                    _ => None,
                }
            } else if no == 2 {
                match fb {
                    FieldBytes::Ld(p) => walk_coin(s, i + c, denom, p),
                    _ => None,
                }
            } else {
                walk_coin(s, i + c, denom, amount)
            }
        },
    }
}

/// Walks the fields of an encoded timestamp.
fn walk_timestamp(s: &[u8], i: usize, seconds: u64, nanos: u64) -> (r: Option<(u64, u64)>)
    requires
        i <= s@.len(),
    ensures
        r == timestamp_fields_dec(s@.skip(i as int), seconds, nanos),
    decreases s@.len() - i,
{
    if i == s.len() {
        proof {
            assert(s@.skip(i as int) =~= Seq::<u8>::empty());
        }
        return Some((seconds, nanos));
    }
    match read_field(s, i) {
        Option::None => None,
        Option::Some((no, fb, c)) => {
            proof {
                assert(s@.skip(i as int).skip(c as int) =~= s@.skip(i + c));
            }
            if no == 1 {
                match fb {
                    FieldBytes::Vint(v) => walk_timestamp(s, i + c, v, nanos),
                    _ => None,
                }
            } else if no == 2 {
                match fb {
                    FieldBytes::Vint(v) => walk_timestamp(s, i + c, seconds, v),
                    _ => None,
                }
            } else {
                walk_timestamp(s, i + c, seconds, nanos)
            }
        },
    }
}

/// The byte sequence held by an optional buffer.
pub open spec fn opt_bytes_view(p: Option<Vec<u8>>) -> Option<Seq<u8>> {
    match p {
        Option::None => None,
        Option::Some(v) => Some(v@),
    }
}

/// Walks the fields of an answer holding an optional embedded message in
/// field 1.
fn walk_opt_msg(s: &[u8], i: usize, payload: Option<Vec<u8>>) -> (r: Option<Option<Vec<u8>>>)
    requires
        i <= s@.len(),
    ensures
        r is None <==> opt_msg_fields_dec(s@.skip(i as int), opt_bytes_view(payload)) is None,
        r matches Some(x) ==> opt_msg_fields_dec(s@.skip(i as int), opt_bytes_view(payload))
            == Some(opt_bytes_view(x)),
    decreases s@.len() - i,
{
    if i == s.len() {
        proof {
            assert(s@.skip(i as int) =~= Seq::<u8>::empty());
        }
        return Some(payload);
    }
    match read_field(s, i) {
        Option::None => None,
        Option::Some((no, fb, c)) => {
            proof {
                assert(s@.skip(i as int).skip(c as int) =~= s@.skip(i + c));
            }
            if no == 1 {
                match fb {
                    FieldBytes::Ld(p) => walk_opt_msg(s, i + c, Some(p)),
                    _ => None,
                }
            } else {
                walk_opt_msg(s, i + c, payload)
            }
        },
    }
}

/// Checks that an encoded message consists of well-formed fields.
fn walk_fields(s: &[u8], i: usize) -> (r: bool)
    requires
        i <= s@.len(),
    ensures
        r == fields_ok(s@.skip(i as int)),
    decreases s@.len() - i,
{
    if i == s.len() {
        proof {
            assert(s@.skip(i as int) =~= Seq::<u8>::empty());
        }
        return true;
    }
    match read_field(s, i) {
        Option::None => false,
        Option::Some((no, fb, c)) => {
            proof {
                assert(s@.skip(i as int).skip(c as int) =~= s@.skip(i + c));
            }
            walk_fields(s, i + c)
        },
    }
}

/// Decodes a token amount message.
pub fn decode_coin(s: &[u8]) -> (r: Option<Coin>)
    ensures
        r.deep_view() == coin_dec(s@),
{
    proof {
        assert(s@.skip(0) =~= s@);
    }
    match walk_coin(s, 0, Vec::new(), Vec::new()) {
        Option::None => None,
        Option::Some((db, ab)) => {
            let amount = match crate::text::parse_dec_u128(ab.as_slice()) {
                Option::None => {
                    return None;
                },
                Option::Some(a) => a,
            };
            match crate::text::bytes_to_string(db) {
                Option::None => None,
                Option::Some(denom) => Some(Coin { denom, amount }),
            }
        },
    }
}

/// Decodes a timestamp message.
pub fn decode_timestamp(s: &[u8]) -> (r: Option<Timestamp>)
    ensures
        r == timestamp_dec(s@),
{
    proof {
        assert(s@.skip(0) =~= s@);
    }
    match walk_timestamp(s, 0, 0, 0) {
        Option::None => None,
        Option::Some((seconds, nanos)) => {
            if nanos <= u32::MAX as u64 {
                Some(Timestamp { seconds, nanos: nanos as u32 })
            } else {
                None
            }
        },
    }
}

/// Decodes an answer that carries an optional completion time.
pub fn decode_completion_time(s: &[u8]) -> (r: Option<Option<Timestamp>>)
    ensures
        r.deep_view() == completion_time_dec(s@),
{
    proof {
        assert(s@.skip(0) =~= s@);
    }
    match walk_opt_msg(s, 0, None) {
        Option::None => None,
        Option::Some(None) => Some(None),
        Option::Some(Some(p)) => match decode_timestamp(p.as_slice()) {
            Option::None => None,
            Option::Some(t) => Some(Some(t)),
        },
    }
}

/// Decodes an answer that carries an optional token amount.
pub fn decode_amount_answer(s: &[u8]) -> (r: Option<Option<Coin>>)
    ensures
        r.deep_view() == amount_answer_dec(s@),
{
    proof {
        assert(s@.skip(0) =~= s@);
    }
    match walk_opt_msg(s, 0, None) {
        Option::None => None,
        Option::Some(None) => Some(None),
        Option::Some(Some(p)) => match decode_coin(p.as_slice()) {
            Option::None => None,
            Option::Some(c) => Some(Some(c)),
        },
    }
}

/// Decodes an answer with no fields of its own: reports whether the bytes
/// are a well-formed message.
pub fn decode_empty_answer(s: &[u8]) -> (r: bool)
    ensures
        r == fields_ok(s@),
{
    proof {
        assert(s@.skip(0) =~= s@);
    }
    walk_fields(s, 0)
}

// ---------------------------------------------------------------------------
// Executable writers for the request messages this library serializes
// itself.
// ---------------------------------------------------------------------------

/// Appends the varint encoding of a number.
fn push_varint(out: &mut Vec<u8>, n: u64)
    ensures
        final(out)@ == old(out)@ + varint(n),
    decreases n,
{
    if n < 128 {
        out.push(n as u8);
        proof {
            assert(out@ =~= old(out)@ + varint(n));
        }
    } else {
        out.push(128 + ((n % 128) as u8));
        push_varint(out, n / 128);
        proof {
            assert(out@ =~= old(out)@ + varint(n));
        }
    }
}

/// Appends a varint field, omitted for the default value.
fn push_uint_field(out: &mut Vec<u8>, no: u64, v: u64)
    requires
        1 <= no < 16,
    ensures
        final(out)@ == old(out)@ + enc_uint_field(no, v),
{
    if v != 0 {
        out.push((no * 8) as u8);
        push_varint(out, v);
        proof {
            assert(out@ =~= old(out)@ + enc_uint_field(no, v));
        }
    } else {
        proof {
            assert(out@ =~= old(out)@ + enc_uint_field(no, v));
        }
    }
}

/// Appends a bytes or string field, omitted when empty.
fn push_bytes_field(out: &mut Vec<u8>, no: u64, b: &[u8])
    requires
        1 <= no < 16,
    ensures
        final(out)@ == old(out)@ + enc_bytes_field(no, b@),
{
    if b.len() > 0 {
        out.push((no * 8 + 2) as u8);
        push_varint(out, b.len() as u64);
        out.extend_from_slice(b);
        proof {
            assert(out@ =~= old(out)@ + enc_bytes_field(no, b@));
        }
    } else {
        proof {
            assert(out@ =~= old(out)@ + enc_bytes_field(no, b@));
        }
    }
}

/// Appends a string field, omitted when empty.
fn push_str_field(out: &mut Vec<u8>, no: u64, s: &str)
    requires
        1 <= no < 16,
    ensures
        final(out)@ == old(out)@ + enc_bytes_field(no, encode_utf8(s@)),
{
    push_bytes_field(out, no, s.as_bytes());
}

/// Appends an embedded message field, always emitted.
fn push_msg_field(out: &mut Vec<u8>, no: u64, b: &[u8])
    requires
        1 <= no < 16,
    ensures
        final(out)@ == old(out)@ + enc_msg_field(no, b@),
{
    out.push((no * 8 + 2) as u8);
    push_varint(out, b.len() as u64);
    out.extend_from_slice(b);
    proof {
        assert(out@ =~= old(out)@ + enc_msg_field(no, b@));
    }
}

/// Writes a token amount message.
pub fn coin_bytes(denom: &str, amount: u128) -> (r: Vec<u8>)
    ensures
        r@ == coin_enc(CoinModel { denom: denom@, amount }),
{
    let mut out: Vec<u8> = Vec::new();
    push_str_field(&mut out, 1, denom);
    let digits = crate::text::format_dec_u128(amount);
    push_bytes_field(&mut out, 2, digits.as_slice());
    proof {
        assert(out@ =~= coin_enc(CoinModel { denom: denom@, amount }));
    }
    out
}

/// The wire encoding of a redelegation request.
pub open spec fn begin_redelegate_enc(
    delegator: Seq<char>,
    validator_src: Seq<char>,
    validator_dst: Seq<char>,
    coin: CoinModel,
) -> Seq<u8> {
    enc_bytes_field(1, encode_utf8(delegator)) + enc_bytes_field(2, encode_utf8(validator_src))
        + enc_bytes_field(3, encode_utf8(validator_dst)) + enc_msg_field(4, coin_enc(coin))
}

/// Writes a redelegation request.
pub fn begin_redelegate_bytes(
    delegator: &str,
    validator_src: &str,
    validator_dst: &str,
    denom: &str,
    amount: u128,
) -> (r: Vec<u8>)
    ensures
        r@ == begin_redelegate_enc(
            delegator@,
            validator_src@,
            validator_dst@,
            CoinModel { denom: denom@, amount },
        ),
{
    let mut out: Vec<u8> = Vec::new();
    push_str_field(&mut out, 1, delegator);
    push_str_field(&mut out, 2, validator_src);
    push_str_field(&mut out, 3, validator_dst);
    let coin = coin_bytes(denom, amount);
    push_msg_field(&mut out, 4, coin.as_slice());
    proof {
        assert(out@ =~= begin_redelegate_enc(
            delegator@,
            validator_src@,
            validator_dst@,
            CoinModel { denom: denom@, amount },
        ));
    }
    out
}

/// The wire encoding of a tokenize-shares request.
pub open spec fn tokenize_shares_enc(
    delegator: Seq<char>,
    validator: Seq<char>,
    coin: CoinModel,
    owner: Seq<char>,
) -> Seq<u8> {
    enc_bytes_field(1, encode_utf8(delegator)) + enc_bytes_field(2, encode_utf8(validator))
        + enc_msg_field(3, coin_enc(coin)) + enc_bytes_field(4, encode_utf8(owner))
}

/// Writes a tokenize-shares request.
pub fn tokenize_shares_bytes(
    delegator: &str,
    validator: &str,
    denom: &str,
    amount: u128,
    owner: &str,
) -> (r: Vec<u8>)
    ensures
        r@ == tokenize_shares_enc(
            delegator@,
            validator@,
            CoinModel { denom: denom@, amount },
            owner@,
        ),
{
    let mut out: Vec<u8> = Vec::new();
    push_str_field(&mut out, 1, delegator);
    push_str_field(&mut out, 2, validator);
    let coin = coin_bytes(denom, amount);
    push_msg_field(&mut out, 3, coin.as_slice());
    push_str_field(&mut out, 4, owner);
    proof {
        assert(out@ =~= tokenize_shares_enc(
            delegator@,
            validator@,
            CoinModel { denom: denom@, amount },
            owner@,
        ));
    }
    out
}

/// The wire encoding of a redeem-tokens-for-shares request.
pub open spec fn redeem_shares_enc(delegator: Seq<char>, coin: CoinModel) -> Seq<u8> {
    enc_bytes_field(1, encode_utf8(delegator)) + enc_msg_field(2, coin_enc(coin))
}

/// Writes a redeem-tokens-for-shares request.
pub fn redeem_shares_bytes(delegator: &str, denom: &str, amount: u128) -> (r: Vec<u8>)
    ensures
        r@ == redeem_shares_enc(delegator@, CoinModel { denom: denom@, amount }),
{
    let mut out: Vec<u8> = Vec::new();
    push_str_field(&mut out, 1, delegator);
    let coin = coin_bytes(denom, amount);
    push_msg_field(&mut out, 2, coin.as_slice());
    proof {
        assert(out@ =~= redeem_shares_enc(delegator@, CoinModel { denom: denom@, amount }));
    }
    out
}

/// The wire encoding of a withdraw-delegator-reward request.
pub open spec fn withdraw_reward_enc(delegator: Seq<char>, validator: Seq<char>) -> Seq<u8> {
    enc_bytes_field(1, encode_utf8(delegator)) + enc_bytes_field(2, encode_utf8(validator))
}

/// Writes a withdraw-delegator-reward request.
pub fn withdraw_reward_bytes(delegator: &str, validator: &str) -> (r: Vec<u8>)
    ensures
        r@ == withdraw_reward_enc(delegator@, validator@),
{
    let mut out: Vec<u8> = Vec::new();
    push_str_field(&mut out, 1, delegator);
    push_str_field(&mut out, 2, validator);
    proof {
        assert(out@ =~= withdraw_reward_enc(delegator@, validator@));
    }
    out
}

} // verus!
