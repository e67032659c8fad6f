use vstd::prelude::*;
use prost::Message;
use crate::codec::{
    amount_answer_dec, completion_time_dec, decode_amount_answer, decode_completion_time,
    decode_empty_answer, fields_ok,
};
use crate::text::str_eq;
use crate::types::{Coin, CoinModel, Timestamp};

verus! {

/// One typed per-operation answer, decoded from a batched acknowledgement.
#[derive(Clone, Debug, PartialEq)]
pub enum ResponseAnswer {
    /// A delegation was executed; its answer carries no data.
    Delegate,
    /// An undelegation was executed; the unbonding completes at the carried
    /// time.
    Undelegate { completion_time: Option<Timestamp> },
    /// A redelegation was executed; it completes at the carried time.
    BeginRedelegate { completion_time: Option<Timestamp> },
    /// Shares were tokenized into the carried amount.
    TokenizeShares { amount: Option<Coin> },
    /// Tokens were redeemed for the carried amount of shares.
    RedeemShares { amount: Option<Coin> },
    /// A raw value transfer completed; there is no structured payload.
    IbcTransfer,
    /// The message kind is not modelled here, or its payload could not be
    /// decoded; the rest of the batch is unaffected.
    Unknown,
}

/// Mathematical model of a [`ResponseAnswer`].
pub enum ResponseAnswerModel {
    Delegate,
    Undelegate { completion_time: Option<Timestamp> },
    BeginRedelegate { completion_time: Option<Timestamp> },
    TokenizeShares { amount: Option<CoinModel> },
    RedeemShares { amount: Option<CoinModel> },
    IbcTransfer,
    Unknown,
}

impl View for ResponseAnswer {
    type V = ResponseAnswerModel;

    open spec fn view(&self) -> ResponseAnswerModel {
        match self {
            ResponseAnswer::Delegate => ResponseAnswerModel::Delegate,
            ResponseAnswer::Undelegate { completion_time } => ResponseAnswerModel::Undelegate {
                completion_time: *completion_time,
            },
            ResponseAnswer::BeginRedelegate { completion_time } => {
                ResponseAnswerModel::BeginRedelegate { completion_time: *completion_time }
            },
            ResponseAnswer::TokenizeShares { amount } => ResponseAnswerModel::TokenizeShares {
                amount: amount.deep_view(),
            },
            ResponseAnswer::RedeemShares { amount } => ResponseAnswerModel::RedeemShares {
                amount: amount.deep_view(),
            },
            ResponseAnswer::IbcTransfer => ResponseAnswerModel::IbcTransfer,
            ResponseAnswer::Unknown => ResponseAnswerModel::Unknown,
        }
    }
}

impl DeepView for ResponseAnswer {
    type V = ResponseAnswerModel;

    open spec fn deep_view(&self) -> ResponseAnswerModel {
        self.view()
    }
}

/// The answer denoted by one `(type url, response bytes)` pair: the fixed
/// table of recognized remote message kinds, with an explicit fallback. A
/// payload that cannot be decoded under a recognized tag yields `Unknown`
/// for that position rather than failing the batch.
pub open spec fn answer_of(tag: Seq<char>, data: Seq<u8>) -> ResponseAnswerModel {
    if tag == "/cosmos.staking.v1beta1.MsgDelegate"@ {
        if fields_ok(data) {
            ResponseAnswerModel::Delegate
        } else {
            ResponseAnswerModel::Unknown
        }
    } else if tag == "/cosmos.staking.v1beta1.MsgUndelegate"@ {
        match completion_time_dec(data) {
            Option::Some(ct) => ResponseAnswerModel::Undelegate { completion_time: ct },
            Option::None => ResponseAnswerModel::Unknown,
        }
    } else if tag == "/cosmos.staking.v1beta1.MsgBeginRedelegate"@ {
        match completion_time_dec(data) {
            Option::Some(ct) => ResponseAnswerModel::BeginRedelegate { completion_time: ct },
            Option::None => ResponseAnswerModel::Unknown,
        }
    } else if tag == "/cosmos.staking.v1beta1.MsgTokenizeShares"@ {
        match amount_answer_dec(data) {
            Option::Some(a) => ResponseAnswerModel::TokenizeShares { amount: a },
            Option::None => ResponseAnswerModel::Unknown,
        }
    } else if tag == "/cosmos.staking.v1beta1.MsgRedeemTokensForShares"@ {
        match amount_answer_dec(data) {
            Option::Some(a) => ResponseAnswerModel::RedeemShares { amount: a },
            Option::None => ResponseAnswerModel::Unknown,
        }
    } else {
        ResponseAnswerModel::Unknown
    }
}

/// The `(type url, response bytes)` pairs denoted by a list of raw items.
pub open spec fn items_view(v: Seq<(String, Vec<u8>)>) -> Seq<(Seq<char>, Seq<u8>)> {
    v.map_values(|p: (String, Vec<u8>)| (p.0@, p.1@))
}

/// The ordered answers denoted by a list of `(type url, response bytes)`
/// pairs: one answer per pair, in the same order.
pub open spec fn answers_of(items: Seq<(Seq<char>, Seq<u8>)>) -> Seq<ResponseAnswerModel> {
    items.map_values(|it: (Seq<char>, Seq<u8>)| answer_of(it.0, it.1))
}

/// The name of the per-message split of a batched acknowledgement payload.
pub uninterp spec fn tx_msg_data_of(payload: Seq<u8>) -> Option<Seq<(Seq<char>, Seq<u8>)>>;

/// Relies on prost's generated `TxMsgData::decode` (cosmos-sdk-proto) to
/// split a batched acknowledgement payload into its per-message
/// `(type url, response bytes)` pairs; the result is a function of the
/// payload alone.
#[verifier::external_body]
pub fn decode_tx_msg_data(payload: &[u8]) -> (r: Option<Vec<(String, Vec<u8>)>>)
    ensures
        r is Some <==> tx_msg_data_of(payload@) is Some,
        r matches Some(v) ==> tx_msg_data_of(payload@) == Some(items_view(v@)),
{
    #[allow(deprecated)]
    match cosmos_sdk_proto::cosmos::base::abci::v1beta1::TxMsgData::decode(payload) {
        Ok(m) => Some(m.data.into_iter().map(|d| (d.msg_type, d.data)).collect()),
        Err(_) => None,
    }
}

/// Decodes the answer for one `(type url, response bytes)` pair.
pub fn decode_answer(tag: &str, data: &[u8]) -> (r: ResponseAnswer)
    ensures
        r@ == answer_of(tag@, data@),
{
    if str_eq(tag, "/cosmos.staking.v1beta1.MsgDelegate") {
        if decode_empty_answer(data) {
            ResponseAnswer::Delegate
        } else {
            ResponseAnswer::Unknown
        }
    } else if str_eq(tag, "/cosmos.staking.v1beta1.MsgUndelegate") {
        match decode_completion_time(data) {
            Option::Some(ct) => ResponseAnswer::Undelegate { completion_time: ct },
            Option::None => ResponseAnswer::Unknown,
        }
    } else if str_eq(tag, "/cosmos.staking.v1beta1.MsgBeginRedelegate") {
        match decode_completion_time(data) {
            Option::Some(ct) => ResponseAnswer::BeginRedelegate { completion_time: ct },
            Option::None => ResponseAnswer::Unknown,
        }
    } else if str_eq(tag, "/cosmos.staking.v1beta1.MsgTokenizeShares") {
        match decode_amount_answer(data) {
            Option::Some(a) => ResponseAnswer::TokenizeShares { amount: a },
            Option::None => ResponseAnswer::Unknown,
        }
    } else if str_eq(tag, "/cosmos.staking.v1beta1.MsgRedeemTokensForShares") {
        match decode_amount_answer(data) {
            Option::Some(a) => ResponseAnswer::RedeemShares { amount: a },
            Option::None => ResponseAnswer::Unknown,
        }
    } else {
        ResponseAnswer::Unknown
    }
}

/// Decodes the ordered answers of a batched acknowledgement: one answer per
/// item, preserving order, so the answers can be zipped back against the
/// submitted operations by position.
pub fn decode_answers(items: &Vec<(String, Vec<u8>)>) -> (r: Vec<ResponseAnswer>)
    ensures
        r.deep_view() == answers_of(items_view(items@)),
{
    let mut out: Vec<ResponseAnswer> = Vec::new();
    let n = items.len();
    let mut i: usize = 0;
    while i < n
        invariant
            n == items@.len(),
            i <= n,
            out.deep_view() =~= answers_of(items_view(items@)).take(i as int),
        decreases n - i,
    {
        let a = decode_answer(items[i].0.as_str(), items[i].1.as_slice());
        let ghost prev_vec = out@;
        let ghost prev = out.deep_view();
        proof {
            assert(answers_of(items_view(items@)).len() == n);
            assert(prev.len() == i as int);
            assert(prev_vec.len() == i as int);
        }
        out.push(a);
        proof {
            assert(items_view(items@)[i as int] == (items@[i as int].0@, items@[i as int].1@));
            let target = answers_of(items_view(items@)).take(i + 1);
            assert(target[i as int] == answer_of(items@[i as int].0@, items@[i as int].1@));
            assert(out@ == prev_vec.push(a));
            assert(out@.len() == i + 1);
            assert forall|j: int| 0 <= j < i + 1 implies out.deep_view()[j] == target[j] by {
                assert(out.deep_view()[j] == out@[j].deep_view());
                if j < i {
                    assert(out@[j] == prev_vec[j]);
                    assert(prev[j] == prev_vec[j].deep_view());
                    assert(prev[j] == target[j]);
                } else {
                    assert(out@[j] == a);
                }
            }
            assert(out.deep_view() =~= target);
        }
        i += 1;
    }
    proof {
        assert(answers_of(items_view(items@)).take(n as int) =~= answers_of(items_view(items@)));
    }
    out
}

// ---------------------------------------------------------------------------
// Round trips through the dispatch table: for each recognized type tag,
// decoding an encoded answer reproduces exactly the fields that were
// encoded.
// ---------------------------------------------------------------------------

proof fn lemma_tags_distinct()
    ensures
        "/cosmos.staking.v1beta1.MsgDelegate"@.len() == 35,
        "/cosmos.staking.v1beta1.MsgUndelegate"@.len() == 37,
        "/cosmos.staking.v1beta1.MsgBeginRedelegate"@.len() == 42,
        "/cosmos.staking.v1beta1.MsgTokenizeShares"@.len() == 41,
        "/cosmos.staking.v1beta1.MsgRedeemTokensForShares"@.len() == 48,
{
    reveal_strlit("/cosmos.staking.v1beta1.MsgDelegate");
    reveal_strlit("/cosmos.staking.v1beta1.MsgUndelegate");
    reveal_strlit("/cosmos.staking.v1beta1.MsgBeginRedelegate");
    reveal_strlit("/cosmos.staking.v1beta1.MsgTokenizeShares");
    reveal_strlit("/cosmos.staking.v1beta1.MsgRedeemTokensForShares");
}

/// A well-formed delegation acknowledgement decodes to the delegation
/// answer; in particular the empty payload, which is how the remote module
/// encodes it.
pub proof fn lemma_answer_delegate()
    ensures
        answer_of("/cosmos.staking.v1beta1.MsgDelegate"@, Seq::empty())
            == ResponseAnswerModel::Delegate,
{
}

/// Decoding an encoded undelegation answer under its tag reproduces the
/// completion time that was encoded.
pub proof fn lemma_answer_undelegate(completion_time: Option<Timestamp>)
    ensures
        answer_of(
            "/cosmos.staking.v1beta1.MsgUndelegate"@,
            crate::codec::completion_time_enc(completion_time),
        ) == (ResponseAnswerModel::Undelegate { completion_time }),
{
    lemma_tags_distinct();
    crate::codec::lemma_completion_time_roundtrip(completion_time);
}

/// Decoding an encoded redelegation answer under its tag reproduces the
/// completion time that was encoded.
pub proof fn lemma_answer_redelegate(completion_time: Option<Timestamp>)
    ensures
        answer_of(
            "/cosmos.staking.v1beta1.MsgBeginRedelegate"@,
            crate::codec::completion_time_enc(completion_time),
        ) == (ResponseAnswerModel::BeginRedelegate { completion_time }),
{
    lemma_tags_distinct();
    crate::codec::lemma_completion_time_roundtrip(completion_time);
}

/// Decoding an encoded tokenize-shares answer under its tag reproduces the
/// coin amount that was encoded.
pub proof fn lemma_answer_tokenize(amount: Option<CoinModel>)
    requires
        amount is Some ==> crate::codec::denom_fits(amount->Some_0.denom),
    ensures
        answer_of(
            "/cosmos.staking.v1beta1.MsgTokenizeShares"@,
            crate::codec::amount_answer_enc(amount),
        ) == (ResponseAnswerModel::TokenizeShares { amount }),
{
    lemma_tags_distinct();
    crate::codec::lemma_amount_answer_roundtrip(amount);
}

/// Decoding an encoded redeem-tokens-for-shares answer under its tag
/// reproduces the coin amount that was encoded.
pub proof fn lemma_answer_redeem(amount: Option<CoinModel>)
    requires
        amount is Some ==> crate::codec::denom_fits(amount->Some_0.denom),
    ensures
        answer_of(
            "/cosmos.staking.v1beta1.MsgRedeemTokensForShares"@,
            crate::codec::amount_answer_enc(amount),
        ) == (ResponseAnswerModel::RedeemShares { amount }),
{
    lemma_tags_distinct();
    crate::codec::lemma_amount_answer_roundtrip(amount);
}

} // verus!
