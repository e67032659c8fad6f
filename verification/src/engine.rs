use vstd::prelude::*;
use crate::acks::{
    parse_register_query_ack, parse_submit_tx_ack, parse_transfer_ack, register_query_ack_of,
    submit_tx_ack_of, transfer_ack_of,
};
use crate::answers::{
    answers_of, decode_answers, decode_tx_msg_data, tx_msg_data_of, ResponseAnswer,
    ResponseAnswerModel,
};
use crate::codec::{
    begin_redelegate_bytes, begin_redelegate_enc, redeem_shares_bytes, redeem_shares_enc,
    tokenize_shares_bytes, tokenize_shares_enc, withdraw_reward_bytes, withdraw_reward_enc,
};
use crate::errors::PuppeteerError;
use crate::ica::{IcaLifecycle, RemoteAccountState};
use crate::registry::{
    cache_after_delivery, CachedRemoteView, QueryRegistry, QueryValue,
};
use crate::slot::{TransactionSlot, TransactionSlotModel, TxStatus};
use crate::text::str_eq;
use crate::types::{Coin, CoinModel, Delegation, QueryKind, Transaction, TransactionModel};
use crate::wire::{
    encode_msg_delegate, encode_msg_send, encode_msg_undelegate, msg_delegate_wire, msg_send_wire,
    msg_undelegate_wire,
};

verus! {

/// The relay timeout applied when a submission names none, in seconds.
pub const DEFAULT_TIMEOUT_SECONDS: u64 = 60;

/// The identifier under which the single interchain account is registered.
pub fn ica_id() -> (r: &'static str)
    ensures
        r@ == "puppeteer"@,
{
    "puppeteer"
}

/// The denomination of the local chain's own token, which never travels to
/// the remote zone.
pub fn local_denom() -> (r: &'static str)
    ensures
        r@ == "untrn"@,
{
    "untrn"
}

/// Static configuration of the orchestrator.
pub struct Config {
    pub connection_id: String,
    pub port_id: String,
    pub update_period: u64,
    pub remote_denom: String,
    pub allowed_senders: Vec<String>,
    pub transfer_channel_id: String,
}

/// Mathematical model of a [`Config`].
pub struct ConfigModel {
    pub connection_id: Seq<char>,
    pub port_id: Seq<char>,
    pub update_period: u64,
    pub remote_denom: Seq<char>,
    pub allowed_senders: Seq<Seq<char>>,
    pub transfer_channel_id: Seq<char>,
}

impl View for Config {
    type V = ConfigModel;

    open spec fn view(&self) -> ConfigModel {
        ConfigModel {
            connection_id: self.connection_id@,
            port_id: self.port_id@,
            update_period: self.update_period,
            remote_denom: self.remote_denom@,
            allowed_senders: self.allowed_senders.deep_view(),
            transfer_channel_id: self.transfer_channel_id@,
        }
    }
}

/// The relay fee attached to every submission.
#[derive(Clone, Debug, PartialEq)]
pub struct Fee {
    pub recv_fee: Vec<Coin>,
    pub ack_fee: Vec<Coin>,
    pub timeout_fee: Vec<Coin>,
}

/// Mathematical model of a [`Fee`].
pub struct FeeModel {
    pub recv_fee: Seq<CoinModel>,
    pub ack_fee: Seq<CoinModel>,
    pub timeout_fee: Seq<CoinModel>,
}

impl View for Fee {
    type V = FeeModel;

    open spec fn view(&self) -> FeeModel {
        FeeModel {
            recv_fee: self.recv_fee.deep_view(),
            ack_fee: self.ack_fee.deep_view(),
            timeout_fee: self.timeout_fee.deep_view(),
        }
    }
}

/// One serialized remote operation: a type url and the message bytes.
#[derive(Clone, Debug, PartialEq)]
pub struct AnyMsg {
    pub type_url: String,
    pub value: Vec<u8>,
}

/// Mathematical model of an [`AnyMsg`].
pub struct AnyMsgModel {
    pub type_url: Seq<char>,
    pub value: Seq<u8>,
}

impl View for AnyMsg {
    type V = AnyMsgModel;

    open spec fn view(&self) -> AnyMsgModel {
        AnyMsgModel { type_url: self.type_url@, value: self.value@ }
    }
}

impl DeepView for AnyMsg {
    type V = AnyMsgModel;

    open spec fn deep_view(&self) -> AnyMsgModel {
        self.view()
    }
}

/// The outbound request that a successful submission asks the transport to
/// deliver.
#[derive(Clone, Debug, PartialEq)]
pub enum SubmissionRequest {
    /// A batched remote transaction through the interchain account.
    Tx {
        connection_id: String,
        interchain_account_id: String,
        messages: Vec<AnyMsg>,
        timeout: u64,
        fee: Fee,
    },
    /// A raw value transfer to the remote account.
    Transfer {
        source_port: String,
        source_channel: String,
        denom: String,
        amount: u128,
        recipient: String,
        timeout: u64,
        fee: Fee,
    },
}

/// Mathematical model of a [`SubmissionRequest`].
pub enum SubmissionRequestModel {
    Tx {
        connection_id: Seq<char>,
        interchain_account_id: Seq<char>,
        messages: Seq<AnyMsgModel>,
        timeout: u64,
        fee: FeeModel,
    },
    Transfer {
        source_port: Seq<char>,
        source_channel: Seq<char>,
        denom: Seq<char>,
        amount: u128,
        recipient: Seq<char>,
        timeout: u64,
        fee: FeeModel,
    },
}

impl View for SubmissionRequest {
    type V = SubmissionRequestModel;

    open spec fn view(&self) -> SubmissionRequestModel {
        match self {
            SubmissionRequest::Tx { connection_id, interchain_account_id, messages, timeout, fee } => {
                SubmissionRequestModel::Tx {
                    connection_id: connection_id@,
                    interchain_account_id: interchain_account_id@,
                    messages: messages.deep_view(),
                    timeout: *timeout,
                    fee: fee@,
                }
            },
            SubmissionRequest::Transfer {
                source_port,
                source_channel,
                denom,
                amount,
                recipient,
                timeout,
                fee,
            } => {
                SubmissionRequestModel::Transfer {
                    source_port: source_port@,
                    source_channel: source_channel@,
                    denom: denom@,
                    amount: *amount,
                    recipient: recipient@,
                    timeout: *timeout,
                    fee: fee@,
                }
            },
        }
    }
}

/// The outbound request that opens the remote account channel.
#[derive(Clone, Debug, PartialEq)]
pub struct IcaRegistrationRequest {
    pub connection_id: String,
    pub interchain_account_id: String,
}

/// The parameters of a remote query registration.
#[derive(Clone, Debug, PartialEq)]
pub enum QueryParams {
    Balance { address: String, denom: String },
    Delegations { delegator: String, validators: Vec<String> },
}

/// Mathematical model of [`QueryParams`].
pub enum QueryParamsModel {
    Balance { address: Seq<char>, denom: Seq<char> },
    Delegations { delegator: Seq<char>, validators: Seq<Seq<char>> },
}

impl View for QueryParams {
    type V = QueryParamsModel;

    open spec fn view(&self) -> QueryParamsModel {
        match self {
            QueryParams::Balance { address, denom } => QueryParamsModel::Balance {
                address: address@,
                denom: denom@,
            },
            QueryParams::Delegations { delegator, validators } => QueryParamsModel::Delegations {
                delegator: delegator@,
                validators: validators.deep_view(),
            },
        }
    }
}

/// The outbound request that registers a remote read-only query.
#[derive(Clone, Debug, PartialEq)]
pub struct QueryRegistrationRequest {
    pub connection_id: String,
    pub update_period: u64,
    pub params: QueryParams,
}

/// The structured hook dispatched to the original requester when its
/// transaction resolves.
#[derive(Clone, Debug, PartialEq)]
pub enum ResponseHook {
    /// The remote transaction succeeded; the answers are ordered as the
    /// operations were submitted.
    Success { request_id: u64, transaction: Transaction, answers: Vec<ResponseAnswer> },
    /// The remote transaction failed or timed out.
    Error { request_id: u64, transaction: Transaction, details: String },
}

/// Mathematical model of a [`ResponseHook`].
pub enum ResponseHookModel {
    Success { request_id: u64, transaction: TransactionModel, answers: Seq<ResponseAnswerModel> },
    Error { request_id: u64, transaction: TransactionModel, details: Seq<char> },
}

impl View for ResponseHook {
    type V = ResponseHookModel;

    open spec fn view(&self) -> ResponseHookModel {
        match self {
            ResponseHook::Success { request_id, transaction, answers } => {
                ResponseHookModel::Success {
                    request_id: *request_id,
                    transaction: transaction@,
                    answers: answers.deep_view(),
                }
            },
            ResponseHook::Error { request_id, transaction, details } => {
                ResponseHookModel::Error {
                    request_id: *request_id,
                    transaction: transaction@,
                    details: details@,
                }
            },
        }
    }
}

/// A notification owed to a requester: who to tell, and what.
#[derive(Clone, Debug, PartialEq)]
pub struct Notification {
    pub recipient: String,
    pub hook: ResponseHook,
}

/// Mathematical model of a [`Notification`].
pub struct NotificationModel {
    pub recipient: Seq<char>,
    pub hook: ResponseHookModel,
}

impl View for Notification {
    type V = NotificationModel;

    open spec fn view(&self) -> NotificationModel {
        NotificationModel { recipient: self.recipient@, hook: self.hook@ }
    }
}

/// Whether a sender is in the allow list.
pub open spec fn sender_allowed(allowed: Seq<Seq<char>>, sender: Seq<char>) -> bool {
    exists|i: int| 0 <= i < allowed.len() && allowed[i] == sender
}

fn is_allowed(allowed: &Vec<String>, sender: &str) -> (r: bool)
    ensures
        r == sender_allowed(allowed.deep_view(), sender@),
{
    let n = allowed.len();
    let mut i: usize = 0;
    while i < n
        invariant
            n == allowed@.len(),
            i <= n,
            forall|j: int| 0 <= j < i ==> allowed.deep_view()[j] != sender@,
        decreases n - i,
    {
        if str_eq(allowed[i].as_str(), sender) {
            proof {
                assert(allowed.deep_view()[i as int] == sender@);
            }
            return true;
        }
        proof {
            assert(allowed.deep_view()[i as int] == allowed@[i as int]@);
        }
        i += 1;
    }
    false
}

/// The timeout that applies to a submission.
pub open spec fn timeout_or_default(timeout: Option<u64>) -> u64 {
    match timeout {
        Option::Some(t) => t,
        Option::None => DEFAULT_TIMEOUT_SECONDS,
    }
}

/// The serialized delegation messages of a batch, one per item.
pub open spec fn delegate_messages(
    ica: Seq<char>,
    denom: Seq<char>,
    items: Seq<(Seq<char>, u128)>,
) -> Seq<AnyMsgModel> {
    items.map_values(
        |it: (Seq<char>, u128)| AnyMsgModel {
            type_url: "/cosmos.staking.v1beta1.MsgDelegate"@,
            value: msg_delegate_wire(ica, it.0, denom, it.1),
        },
    )
}

/// The serialized undelegation messages of a batch, one per item.
pub open spec fn undelegate_messages(
    ica: Seq<char>,
    denom: Seq<char>,
    items: Seq<(Seq<char>, u128)>,
) -> Seq<AnyMsgModel> {
    items.map_values(
        |it: (Seq<char>, u128)| AnyMsgModel {
            type_url: "/cosmos.staking.v1beta1.MsgUndelegate"@,
            value: msg_undelegate_wire(ica, it.0, denom, it.1),
        },
    )
}

/// The serialized reward-withdrawal messages, one per validator.
pub open spec fn withdraw_messages(ica: Seq<char>, validators: Seq<Seq<char>>) -> Seq<
    AnyMsgModel,
> {
    validators.map_values(
        |v: Seq<char>| AnyMsgModel {
            type_url: "/cosmos.distribution.v1beta1.MsgWithdrawDelegatorReward"@,
            value: withdraw_reward_enc(ica, v),
        },
    )
}

/// The serialized messages of a claim: an optional transfer of the ready
/// batch, then one withdrawal per validator.
pub open spec fn claim_messages(
    ica: Seq<char>,
    denom: Seq<char>,
    validators: Seq<Seq<char>>,
    transfer: Option<crate::types::TransferReadyBatchModel>,
) -> Seq<AnyMsgModel> {
    (match transfer {
        Option::Some(tr) => seq![
            AnyMsgModel {
                type_url: "/cosmos.bank.v1beta1.MsgSend"@,
                value: msg_send_wire(ica, tr.recipient, denom, tr.amount),
            },
        ],
        Option::None => Seq::empty(),
    }) + withdraw_messages(ica, validators)
}

/// The ordered serialized messages of an operation batch, one per
/// operation: the whole batch travels in a single submission.
pub open spec fn batch_messages(batch: TransactionModel, ica: Seq<char>) -> Seq<AnyMsgModel> {
    match batch {
        TransactionModel::Delegate { denom, items, .. } => delegate_messages(ica, denom, items),
        TransactionModel::Undelegate { denom, items, .. } => undelegate_messages(
            ica,
            denom,
            items,
        ),
        TransactionModel::Redelegate { validator_from, validator_to, denom, amount, .. } => seq![
            AnyMsgModel {
                type_url: "/cosmos.staking.v1beta1.MsgBeginRedelegate"@,
                value: begin_redelegate_enc(
                    ica,
                    validator_from,
                    validator_to,
                    CoinModel { denom, amount },
                ),
            },
        ],
        TransactionModel::TokenizeShare { validator, denom, amount, .. } => seq![
            AnyMsgModel {
                type_url: "/cosmos.staking.v1beta1.MsgTokenizeShares"@,
                value: tokenize_shares_enc(ica, validator, CoinModel { denom, amount }, ica),
            },
        ],
        TransactionModel::RedeemShare { denom, amount, .. } => seq![
            AnyMsgModel {
                type_url: "/cosmos.staking.v1beta1.MsgRedeemTokensForShares"@,
                value: redeem_shares_enc(ica, CoinModel { denom, amount }),
            },
        ],
        TransactionModel::ClaimRewardsAndTransfer { validators, denom, transfer, .. } => {
            claim_messages(ica, denom, validators, transfer)
        },
        TransactionModel::IbcTransfer { .. } => Seq::empty(),
    }
}

/// The request issued by a successful submission of the given batch.
pub open spec fn request_model(
    config: ConfigModel,
    fee: FeeModel,
    batch: TransactionModel,
    timeout: Option<u64>,
    ica: Seq<char>,
) -> SubmissionRequestModel {
    match batch {
        TransactionModel::IbcTransfer { denom, amount, recipient } => {
            SubmissionRequestModel::Transfer {
                source_port: config.port_id,
                source_channel: config.transfer_channel_id,
                denom,
                amount,
                recipient,
                timeout: timeout_or_default(timeout),
                fee,
            }
        },
        _ => SubmissionRequestModel::Tx {
            connection_id: config.connection_id,
            interchain_account_id: "puppeteer"@,
            messages: batch_messages(batch, ica),
            timeout: timeout_or_default(timeout),
            fee,
        },
    }
}

/// Whether a terminal event matches the pending transaction: the slot is
/// waiting and the delivered sequence id equals the pending one.
pub open spec fn slot_matches(slot: TransactionSlot, sequence_id: Option<u64>) -> bool {
    slot.status is WaitingForAck && sequence_id is Some && sequence_id == slot.sequence_id
}

/// The orchestration engine: the remote account, the single transaction
/// slot, the query registry and the cached remote view, processed one
/// event at a time with exclusive access.
pub struct Puppeteer {
    pub ica: RemoteAccountState,
    pub slot: TransactionSlot,
    pub queries: QueryRegistry,
    pub cache: CachedRemoteView,
}

impl Puppeteer {
    /// Every component is well formed.
    pub open spec fn wf(self) -> bool {
        self.ica.wf() && self.slot.wf() && self.queries.wf()
    }

    /// A fresh engine: no account, an idle slot, no queries, empty caches.
    pub fn new() -> (r: Self)
        ensures
            r.wf(),
            r.ica.lifecycle is Uninitialized,
            r.slot@ == TransactionSlotModel::idle(),
            r.queries@ == Map::<u64, QueryKind>::empty(),
    {
        Puppeteer {
            ica: RemoteAccountState::new(),
            slot: TransactionSlot::new(),
            queries: QueryRegistry::new(),
            cache: CachedRemoteView::new(),
        }
    }

    /// Accepts an operation batch for submission on behalf of an allowed
    /// sender: serializes every operation into the remote chain's native
    /// encoding, attaches the relay fee, occupies the transaction slot, and
    /// returns the single request that covers the whole batch.
    ///
    /// A second submission while one is pending always fails with
    /// `InFlight` and changes nothing; a submission without a registered
    /// account fails with `AccountNotReady` and changes nothing.
    pub fn submit(
        &mut self,
        config: &Config,
        fee: Fee,
        sender: &str,
        batch: Transaction,
        timeout: Option<u64>,
        notify: String,
    ) -> (r: Result<SubmissionRequest, PuppeteerError>)
        requires
            old(self).wf(),
        ensures
            final(self).wf(),
            r is Ok <==> (sender_allowed(config@.allowed_senders, sender@) && old(self).slot.status is Idle && old(self).ica.lifecycle is Registered),
            !sender_allowed(config@.allowed_senders, sender@) ==> r == Err::<
                SubmissionRequest,
                PuppeteerError,
            >(PuppeteerError::Unauthorized) && *final(self) == *old(self),
            sender_allowed(config@.allowed_senders, sender@) && !(old(self).slot.status is Idle)
                ==> r == Err::<SubmissionRequest, PuppeteerError>(PuppeteerError::InFlight)
                && *final(self) == *old(self),
            sender_allowed(config@.allowed_senders, sender@) && old(self).slot.status is Idle && !(
            old(self).ica.lifecycle is Registered) ==> r == Err::<
                SubmissionRequest,
                PuppeteerError,
            >(PuppeteerError::AccountNotReady) && *final(self) == *old(self),
            r is Ok ==> final(self).slot@ == (TransactionSlotModel {
                status: TxStatus::Submitting,
                sequence_id: None,
                pending_operation: Some(batch@),
                notify: Some(notify@),
            }) && final(self).ica == old(self).ica && final(self).queries == old(self).queries
                && final(self).cache == old(self).cache && r->Ok_0@ == request_model(
                config@,
                fee@,
                batch@,
                timeout,
                old(self).ica@.handle->Some_0,
            ),
    {
        if !is_allowed(&config.allowed_senders, sender) {
            return Err(PuppeteerError::Unauthorized);
        }
        match self.slot.status {
            TxStatus::Idle => {},
            _ => {
                return Err(PuppeteerError::InFlight);
            },
        }
        let ica = match self.ica.registered_handle() {
            Ok(h) => h.clone(),
            Err(e) => {
                return Err(e);
            },
        };
        let timeout_s = match timeout {
            Option::Some(t) => t,
            Option::None => DEFAULT_TIMEOUT_SECONDS,
        };
        let request = match &batch {
            Transaction::IbcTransfer { denom, amount, recipient } => SubmissionRequest::Transfer {
                source_port: config.port_id.clone(),
                source_channel: config.transfer_channel_id.clone(),
                denom: denom.clone(),
                amount: *amount,
                recipient: recipient.clone(),
                timeout: timeout_s,
                fee,
            },
            _ => {
                let messages = serialize_batch(&batch, ica.as_str());
                SubmissionRequest::Tx {
                    connection_id: config.connection_id.clone(),
                    interchain_account_id: ica_id().to_owned(),
                    messages,
                    timeout: timeout_s,
                    fee,
                }
            },
        };
        match self.slot.begin(batch, notify) {
            Ok(_) => Ok(request),
            Err(e) => Err(e),
        }
    }

    /// Accepts a raw value transfer to the remote account: exactly one coin
    /// of a non-local denomination must be attached; it is sent to the
    /// registered account.
    pub fn submit_transfer(
        &mut self,
        config: &Config,
        fee: Fee,
        sender: &str,
        funds: Vec<Coin>,
        timeout: Option<u64>,
        notify: String,
    ) -> (r: Result<SubmissionRequest, PuppeteerError>)
        requires
            old(self).wf(),
        ensures
            final(self).wf(),
            !sender_allowed(config@.allowed_senders, sender@) ==> r == Err::<
                SubmissionRequest,
                PuppeteerError,
            >(PuppeteerError::Unauthorized) && *final(self) == *old(self),
            sender_allowed(config@.allowed_senders, sender@) && !(old(self).slot.status is Idle)
                ==> r == Err::<SubmissionRequest, PuppeteerError>(PuppeteerError::InFlight)
                && *final(self) == *old(self),
            sender_allowed(config@.allowed_senders, sender@) && old(self).slot.status is Idle
                && non_local_funds(funds.deep_view()).len() == 0 ==> r == Err::<
                SubmissionRequest,
                PuppeteerError,
            >(PuppeteerError::NoTransferFunds) && *final(self) == *old(self),
            sender_allowed(config@.allowed_senders, sender@) && old(self).slot.status is Idle
                && non_local_funds(funds.deep_view()).len() > 1 ==> r == Err::<
                SubmissionRequest,
                PuppeteerError,
            >(PuppeteerError::MultipleTransferFunds) && *final(self) == *old(self),
            sender_allowed(config@.allowed_senders, sender@) && old(self).slot.status is Idle
                && non_local_funds(funds.deep_view()).len() == 1 && !(old(self).ica.lifecycle is Registered) ==> r == Err::<SubmissionRequest, PuppeteerError>(
                PuppeteerError::AccountNotReady,
            ) && *final(self) == *old(self),
            r is Ok <==> (sender_allowed(config@.allowed_senders, sender@) && old(self).slot.status is Idle && non_local_funds(funds.deep_view()).len() == 1 && old(self).ica.lifecycle is Registered),
            r is Ok ==> ({
                let coin = non_local_funds(funds.deep_view())[0];
                let batch = TransactionModel::IbcTransfer {
                    denom: coin.denom,
                    amount: coin.amount,
                    recipient: old(self).ica@.handle->Some_0,
                };
                final(self).slot@ == (TransactionSlotModel {
                    status: TxStatus::Submitting,
                    sequence_id: None,
                    pending_operation: Some(batch),
                    notify: Some(notify@),
                }) && final(self).ica == old(self).ica && final(self).queries == old(self).queries
                    && final(self).cache == old(self).cache && r->Ok_0@ == request_model(
                    config@,
                    fee@,
                    batch,
                    timeout,
                    old(self).ica@.handle->Some_0,
                )
            }),
    {
        if !is_allowed(&config.allowed_senders, sender) {
            return Err(PuppeteerError::Unauthorized);
        }
        match self.slot.status {
            TxStatus::Idle => {},
            _ => {
                return Err(PuppeteerError::InFlight);
            },
        }
        let mut funds = funds;
        let ghost fv = funds.deep_view();
        proof {
            reveal_with_fuel(Seq::<CoinModel>::filter, 1);
            assert(fv.take(0).len() == 0);
            assert(non_local_funds(fv.take(0)).len() == 0);
        }
        let n = funds.len();
        let mut count: usize = 0;
        let mut idx: usize = 0;
        let mut i: usize = 0;
        while i < n
            invariant
                n == funds@.len(),
                i <= n,
                fv == funds.deep_view(),
                count == non_local_funds(fv.take(i as int)).len(),
                count <= i,
                count > 0 ==> idx < i && is_remote_coin(fv[idx as int]),
            decreases n - i,
        {
            let remote = !str_eq(funds[i].denom.as_str(), local_denom());
            proof {
                assert(fv.take(i + 1).drop_last() =~= fv.take(i as int));
                assert(fv.take(i + 1).last() == fv[i as int]);
                assert(fv[i as int] == funds@[i as int]@);
                assert(remote == is_remote_coin(fv[i as int]));
                reveal_with_fuel(Seq::<CoinModel>::filter, 2);
                if remote {
                    assert(non_local_funds(fv.take(i + 1)) == non_local_funds(
                        fv.take(i as int),
                    ).push(fv[i as int]));
                } else {
                    assert(non_local_funds(fv.take(i + 1)) == non_local_funds(fv.take(i as int)));
                }
            }
            if remote {
                count = count + 1;
                idx = i;
            }
            i += 1;
        }
        proof {
            assert(fv.take(n as int) =~= fv);
        }
        if count == 0 {
            return Err(PuppeteerError::NoTransferFunds);
        }
        if count > 1 {
            return Err(PuppeteerError::MultipleTransferFunds);
        }
        let ica = match self.ica.registered_handle() {
            Ok(h) => h.clone(),
            Err(e) => {
                return Err(e);
            },
        };
        let coin = funds.swap_remove(idx);
        proof {
            lemma_single_remote(fv, idx as int);
            assert(coin@ == fv[idx as int]);
        }
        let batch = Transaction::IbcTransfer {
            denom: coin.denom,
            amount: coin.amount,
            recipient: ica,
        };
        self.submit(config, fee, sender, batch, timeout, notify)
    }

    /// Records the sequence number that the local relay layer assigned to
    /// the pending submission; the slot moves to `WaitingForAck`.
    pub fn confirm_submission(&mut self, sequence_id: u64) -> (r: Result<(), PuppeteerError>)
        requires
            old(self).wf(),
        ensures
            final(self).wf(),
            r is Ok <==> old(self).slot.status is Submitting,
            r is Ok ==> final(self).slot@ == (TransactionSlotModel {
                status: TxStatus::WaitingForAck,
                sequence_id: Some(sequence_id),
                pending_operation: old(self).slot@.pending_operation,
                notify: old(self).slot@.notify,
            }) && final(self).ica == old(self).ica && final(self).queries == old(self).queries
                && final(self).cache == old(self).cache,
            r is Err ==> *final(self) == *old(self) && r == Err::<(), PuppeteerError>(
                PuppeteerError::NotSubmitting,
            ),
    {
        self.slot.confirm(sequence_id)
    }

    /// Handles the local acknowledgement of a submitted transaction: parses
    /// the sequence number and channel out of the raw bytes, then records
    /// them. Whatever the parse yields, the slot changes only when a
    /// submission was outstanding and the bytes parsed.
    pub fn on_submission_ack(&mut self, data: &[u8]) -> (r: Result<(u64, String), PuppeteerError>)
        requires
            old(self).wf(),
        ensures
            final(self).wf(),
            submit_tx_ack_of(data@) is None ==> r == Err::<(u64, String), PuppeteerError>(
                PuppeteerError::MalformedAck,
            ) && *final(self) == *old(self),
            submit_tx_ack_of(data@) is Some && !(old(self).slot.status is Submitting) ==> r
                == Err::<(u64, String), PuppeteerError>(PuppeteerError::NotSubmitting) && *final(self) == *old(self),
            r is Ok <==> (submit_tx_ack_of(data@) is Some && old(self).slot.status is Submitting),
            r is Ok ==> r->Ok_0.0 == submit_tx_ack_of(data@)->Some_0.0 && r->Ok_0.1@
                == submit_tx_ack_of(data@)->Some_0.1 && final(self).slot@ == (TransactionSlotModel {
                status: TxStatus::WaitingForAck,
                sequence_id: Some(submit_tx_ack_of(data@)->Some_0.0),
                pending_operation: old(self).slot@.pending_operation,
                notify: old(self).slot@.notify,
            }) && final(self).ica == old(self).ica && final(self).queries == old(self).queries
                && final(self).cache == old(self).cache,
    {
        match parse_submit_tx_ack(data) {
            Option::None => Err(PuppeteerError::MalformedAck),
            Option::Some((sequence_id, channel)) => match self.slot.confirm(sequence_id) {
                Ok(_) => Ok((sequence_id, channel)),
                Err(e) => Err(e),
            },
        }
    }

    /// Handles the local acknowledgement of a transfer, which arrives in its
    /// own encoding; otherwise exactly as [`Puppeteer::on_submission_ack`].
    pub fn on_transfer_ack(&mut self, data: &[u8]) -> (r: Result<(u64, String), PuppeteerError>)
        requires
            old(self).wf(),
        ensures
            final(self).wf(),
            transfer_ack_of(data@) is None ==> r == Err::<(u64, String), PuppeteerError>(
                PuppeteerError::MalformedAck,
            ) && *final(self) == *old(self),
            transfer_ack_of(data@) is Some && !(old(self).slot.status is Submitting) ==> r == Err::<
                (u64, String),
                PuppeteerError,
            >(PuppeteerError::NotSubmitting) && *final(self) == *old(self),
            r is Ok <==> (transfer_ack_of(data@) is Some && old(self).slot.status is Submitting),
            r is Ok ==> r->Ok_0.0 == transfer_ack_of(data@)->Some_0.0 && r->Ok_0.1@
                == transfer_ack_of(data@)->Some_0.1 && final(self).slot@ == (TransactionSlotModel {
                status: TxStatus::WaitingForAck,
                sequence_id: Some(transfer_ack_of(data@)->Some_0.0),
                pending_operation: old(self).slot@.pending_operation,
                notify: old(self).slot@.notify,
            }) && final(self).ica == old(self).ica && final(self).queries == old(self).queries
                && final(self).cache == old(self).cache,
    {
        match parse_transfer_ack(data) {
            Option::None => Err(PuppeteerError::MalformedAck),
            Option::Some((sequence_id, channel)) => match self.slot.confirm(sequence_id) {
                Ok(_) => Ok((sequence_id, channel)),
                Err(e) => Err(e),
            },
        }
    }

    /// Resets the slot after the local submission itself failed: the
    /// request failed synchronously and no asynchronous continuation exists.
    pub fn abort_submission(&mut self) -> (r: Result<(), PuppeteerError>)
        requires
            old(self).wf(),
        ensures
            final(self).wf(),
            r is Ok <==> old(self).slot.status is Submitting,
            r is Ok ==> final(self).slot@ == TransactionSlotModel::idle() && final(self).ica == old(self).ica && final(self).queries == old(self).queries && final(self).cache == old(self).cache,
            r is Err ==> *final(self) == *old(self) && r == Err::<(), PuppeteerError>(
                PuppeteerError::NotSubmitting,
            ),
    {
        self.slot.abort_submission()
    }

    /// Resolves the pending transaction as succeeded: decodes the
    /// acknowledgement payload into ordered, typed answers, resets the slot
    /// to idle before any notification is dispatched — so the notified party
    /// may submit again at once — and returns the success hook owed to the
    /// original requester.
    ///
    /// A terminal event whose sequence id is missing, or differs from the
    /// pending one, is rejected and nothing changes.
    pub fn resolve_success(&mut self, sequence_id: Option<u64>, payload: &[u8]) -> (r: Result<
        Notification,
        PuppeteerError,
    >)
        requires
            old(self).wf(),
        ensures
            final(self).wf(),
            !slot_matches(old(self).slot, sequence_id) ==> r == Err::<
                Notification,
                PuppeteerError,
            >(PuppeteerError::NoMatchingPendingTransaction) && *final(self) == *old(self),
            slot_matches(old(self).slot, sequence_id) ==> final(self).slot@
                == TransactionSlotModel::idle() && final(self).ica == old(self).ica && final(self).queries == old(self).queries && final(self).cache == old(self).cache,
            r is Ok <==> (slot_matches(old(self).slot, sequence_id) && (old(self).slot@.pending_operation->Some_0 is IbcTransfer || tx_msg_data_of(payload@) is Some)),
            slot_matches(old(self).slot, sequence_id) && !(old(self).slot@.pending_operation->Some_0 is IbcTransfer) && tx_msg_data_of(payload@) is None
                ==> r == Err::<Notification, PuppeteerError>(PuppeteerError::MalformedPayload),
            r is Ok ==> r->Ok_0@ == (NotificationModel {
                recipient: old(self).slot@.notify->Some_0,
                hook: ResponseHookModel::Success {
                    request_id: old(self).slot.sequence_id->Some_0,
                    transaction: old(self).slot@.pending_operation->Some_0,
                    answers: if old(self).slot@.pending_operation->Some_0 is IbcTransfer {
                        seq![ResponseAnswerModel::IbcTransfer]
                    } else {
                        answers_of(tx_msg_data_of(payload@)->Some_0)
                    },
                },
            }),
    {
        let (op, notify, seq) = match self.slot.take_resolution(sequence_id) {
            Ok(t) => t,
            Err(e) => {
                return Err(e);
            },
        };
        let is_transfer = match &op {
            Transaction::IbcTransfer { .. } => true,
            _ => false,
        };
        let answers: Vec<ResponseAnswer> = if is_transfer {
            let mut v: Vec<ResponseAnswer> = Vec::new();
            v.push(ResponseAnswer::IbcTransfer);
            proof {
                assert(v.deep_view() =~= seq![ResponseAnswerModel::IbcTransfer]);
            }
            v
        } else {
            match decode_tx_msg_data(payload) {
                Option::Some(items) => decode_answers(&items),
                Option::None => {
                    return Err(PuppeteerError::MalformedPayload);
                },
            }
        };
        Ok(
            Notification {
                recipient: notify,
                hook: ResponseHook::Success { request_id: seq, transaction: op, answers },
            },
        )
    }

    /// Resolves the pending transaction as failed with the remote error's
    /// details: the slot is reset to idle, and the failure hook owed to the
    /// original requester is returned. Never silently dropped: a mismatched
    /// or missing sequence id is rejected and nothing changes.
    pub fn resolve_error(&mut self, sequence_id: Option<u64>, details: String) -> (r: Result<
        Notification,
        PuppeteerError,
    >)
        requires
            old(self).wf(),
        ensures
            final(self).wf(),
            r is Ok <==> slot_matches(old(self).slot, sequence_id),
            r is Err ==> r == Err::<Notification, PuppeteerError>(
                PuppeteerError::NoMatchingPendingTransaction,
            ) && *final(self) == *old(self),
            r is Ok ==> final(self).slot@ == TransactionSlotModel::idle() && final(self).ica == old(self).ica && final(self).queries == old(self).queries && final(self).cache == old(self).cache && r->Ok_0@ == (NotificationModel {
                recipient: old(self).slot@.notify->Some_0,
                hook: ResponseHookModel::Error {
                    request_id: old(self).slot.sequence_id->Some_0,
                    transaction: old(self).slot@.pending_operation->Some_0,
                    details: details@,
                },
            }),
    {
        let (op, notify, seq) = match self.slot.take_resolution(sequence_id) {
            Ok(t) => t,
            Err(e) => {
                return Err(e);
            },
        };
        Ok(
            Notification {
                recipient: notify,
                hook: ResponseHook::Error { request_id: seq, transaction: op, details },
            },
        )
    }

    /// Resolves the pending transaction as timed out: the slot is reset to
    /// idle, the remote account is marked `Timeout` — the handle is treated
    /// as stale and must be re-established — and the failure hook carries
    /// the details `"Timeout"`.
    pub fn resolve_timeout(&mut self, sequence_id: Option<u64>) -> (r: Result<
        Notification,
        PuppeteerError,
    >)
        requires
            old(self).wf(),
        ensures
            final(self).wf(),
            r is Ok <==> slot_matches(old(self).slot, sequence_id),
            r is Err ==> r == Err::<Notification, PuppeteerError>(
                PuppeteerError::NoMatchingPendingTransaction,
            ) && *final(self) == *old(self),
            r is Ok ==> final(self).slot@ == TransactionSlotModel::idle() && final(self).ica.lifecycle is Timeout && final(self).ica@.handle is None && final(self).ica.last_observed_height is None && final(self).queries == old(self).queries
                && final(self).cache == old(self).cache && r->Ok_0@ == (NotificationModel {
                recipient: old(self).slot@.notify->Some_0,
                hook: ResponseHookModel::Error {
                    request_id: old(self).slot.sequence_id->Some_0,
                    transaction: old(self).slot@.pending_operation->Some_0,
                    details: "Timeout"@,
                },
            }),
    {
        let (op, notify, seq) = match self.slot.take_resolution(sequence_id) {
            Ok(t) => t,
            Err(e) => {
                return Err(e);
            },
        };
        self.ica.mark_timeout();
        Ok(
            Notification {
                recipient: notify,
                hook: ResponseHook::Error {
                    request_id: seq,
                    transaction: op,
                    details: "Timeout".to_owned(),
                },
            },
        )
    }

    /// Starts registration of the remote account and returns the request
    /// that opens its channel.
    pub fn begin_registration(&mut self, config: &Config) -> (r: Result<
        IcaRegistrationRequest,
        PuppeteerError,
    >)
        requires
            old(self).wf(),
        ensures
            final(self).wf(),
            r is Ok <==> (old(self).ica.lifecycle is Uninitialized || old(self).ica.lifecycle is Timeout),
            r is Ok ==> final(self).ica == (RemoteAccountState {
                lifecycle: IcaLifecycle::InProgress,
                ..old(self).ica
            }) && final(self).slot == old(self).slot && final(self).queries == old(self).queries
                && final(self).cache == old(self).cache && r->Ok_0.connection_id@
                == config@.connection_id && r->Ok_0.interchain_account_id@ == "puppeteer"@,
            r is Err ==> *final(self) == *old(self) && r == Err::<
                IcaRegistrationRequest,
                PuppeteerError,
            >(PuppeteerError::RegistrationNotAllowed),
    {
        match self.ica.begin_registration() {
            Ok(_) => Ok(
                IcaRegistrationRequest {
                    connection_id: config.connection_id.clone(),
                    interchain_account_id: ica_id().to_owned(),
                },
            ),
            Err(e) => Err(e),
        }
    }

    /// Confirms the remote account registration with the handle delivered by
    /// the channel-open acknowledgement and the height it was observed at.
    pub fn confirm_registration(&mut self, handle: String, height: u64) -> (r: Result<
        (),
        PuppeteerError,
    >)
        requires
            old(self).wf(),
        ensures
            final(self).wf(),
            r is Ok <==> old(self).ica.lifecycle is InProgress,
            r is Ok ==> final(self).ica@ == (crate::ica::RemoteAccountModel {
                handle: Some(handle@),
                last_observed_height: Some(height),
                lifecycle: IcaLifecycle::Registered,
            }) && final(self).slot == old(self).slot && final(self).queries == old(self).queries
                && final(self).cache == old(self).cache,
            r is Err ==> *final(self) == *old(self) && r == Err::<(), PuppeteerError>(
                PuppeteerError::RegistrationNotInProgress,
            ),
    {
        self.ica.confirm_registration(handle, height)
    }

    /// Issues the registration of a balance query for the registered
    /// account; no registry entry is created until the acknowledgement
    /// arrives.
    pub fn register_balance_query(&self, config: &Config, denom: String) -> (r: Result<
        QueryRegistrationRequest,
        PuppeteerError,
    >)
        requires
            self.wf(),
        ensures
            r is Ok <==> self.ica.lifecycle is Registered,
            r is Err ==> r == Err::<QueryRegistrationRequest, PuppeteerError>(
                PuppeteerError::AccountNotReady,
            ),
            r is Ok ==> r->Ok_0.connection_id@ == config@.connection_id && r->Ok_0.update_period
                == config@.update_period && r->Ok_0.params@ == (QueryParamsModel::Balance {
                address: self.ica@.handle->Some_0,
                denom: denom@,
            }),
    {
        let ica = match self.ica.registered_handle() {
            Ok(h) => h.clone(),
            Err(e) => {
                return Err(e);
            },
        };
        Ok(
            QueryRegistrationRequest {
                connection_id: config.connection_id.clone(),
                update_period: config.update_period,
                params: QueryParams::Balance { address: ica, denom },
            },
        )
    }

    /// Issues the registration of a delegations query for the registered
    /// account over the given validators; no registry entry is created until
    /// the acknowledgement arrives.
    pub fn register_delegations_query(&self, config: &Config, validators: Vec<String>) -> (r:
        Result<QueryRegistrationRequest, PuppeteerError>)
        requires
            self.wf(),
        ensures
            r is Ok <==> self.ica.lifecycle is Registered,
            r is Err ==> r == Err::<QueryRegistrationRequest, PuppeteerError>(
                PuppeteerError::AccountNotReady,
            ),
            r is Ok ==> r->Ok_0.connection_id@ == config@.connection_id && r->Ok_0.update_period
                == config@.update_period && r->Ok_0.params@ == (QueryParamsModel::Delegations {
                delegator: self.ica@.handle->Some_0,
                validators: validators.deep_view(),
            }),
    {
        let ica = match self.ica.registered_handle() {
            Ok(h) => h.clone(),
            Err(e) => {
                return Err(e);
            },
        };
        Ok(
            QueryRegistrationRequest {
                connection_id: config.connection_id.clone(),
                update_period: config.update_period,
                params: QueryParams::Delegations { delegator: ica, validators },
            },
        )
    }

    /// Records that a query registration was acknowledged under the given
    /// identifier and kind.
    pub fn confirm_query(&mut self, query_id: u64, kind: QueryKind) -> (r: Result<
        (),
        PuppeteerError,
    >)
        requires
            old(self).wf(),
        ensures
            final(self).wf(),
            r is Ok <==> (!old(self).queries@.contains_key(query_id) || old(self).queries@[query_id] == kind),
            r is Ok ==> final(self).queries@ == old(self).queries@.insert(query_id, kind) && final(self).slot == old(self).slot && final(self).ica == old(self).ica && final(self).cache
                == old(self).cache,
            r is Err ==> *final(self) == *old(self) && r == Err::<(), PuppeteerError>(
                PuppeteerError::QueryKindMismatch,
            ),
    {
        self.queries.confirm(query_id, kind)
    }

    /// Handles the acknowledgement of a query registration: parses the
    /// assigned identifier out of the raw bytes and records it under the
    /// given kind.
    pub fn on_query_registered(&mut self, data: &[u8], kind: QueryKind) -> (r: Result<
        u64,
        PuppeteerError,
    >)
        requires
            old(self).wf(),
        ensures
            final(self).wf(),
            register_query_ack_of(data@) is None ==> r == Err::<u64, PuppeteerError>(
                PuppeteerError::MalformedAck,
            ) && *final(self) == *old(self),
            register_query_ack_of(data@) matches Some(id) ==> ((r is Ok <==> (!old(self).queries@.contains_key(id) || old(self).queries@[id] == kind)) && (r is Ok ==> r == Ok::<
                u64,
                PuppeteerError,
            >(id) && final(self).queries@ == old(self).queries@.insert(id, kind) && final(self).slot
                == old(self).slot && final(self).ica == old(self).ica && final(self).cache == old(self).cache) && (r is Err ==> *final(self) == *old(self) && r == Err::<u64, PuppeteerError>(
                PuppeteerError::QueryKindMismatch,
            ))),
    {
        match parse_register_query_ack(data) {
            Option::None => Err(PuppeteerError::MalformedAck),
            Option::Some(id) => match self.queries.confirm(id, kind) {
                Ok(_) => Ok(id),
                Err(e) => Err(e),
            },
        }
    }

    /// Delivers a query result: the identifier must be registered and the
    /// value must answer the registered kind; the cached snapshot for that
    /// kind is then overwritten wholesale — last delivered wins, regardless
    /// of height. A result for an unregistered identifier is always an
    /// error, never silently dropped.
    pub fn deliver_result(&mut self, query_id: u64, value: QueryValue, height: u64) -> (r: Result<
        (),
        PuppeteerError,
    >)
        requires
            old(self).wf(),
        ensures
            final(self).wf(),
            !old(self).queries@.contains_key(query_id) ==> r == Err::<(), PuppeteerError>(
                PuppeteerError::UnknownQueryId,
            ) && *final(self) == *old(self),
            old(self).queries@.contains_key(query_id) && old(self).queries@[query_id]
                != value.kind_view() ==> r == Err::<(), PuppeteerError>(
                PuppeteerError::QueryKindMismatch,
            ) && *final(self) == *old(self),
            r is Ok <==> (old(self).queries@.contains_key(query_id) && old(self).queries@[query_id]
                == value.kind_view()),
            r is Ok ==> final(self).cache@ == cache_after_delivery(old(self).cache@, value@, height)
                && final(self).slot == old(self).slot && final(self).ica == old(self).ica && final(self).queries == old(self).queries,
    {
        let kind = match self.queries.lookup(query_id) {
            Option::Some(k) => k,
            Option::None => {
                return Err(PuppeteerError::UnknownQueryId);
            },
        };
        if !kind_matches(kind, value.kind()) {
            return Err(PuppeteerError::QueryKindMismatch);
        }
        self.cache.store(value, height);
        Ok(())
    }

    /// The current slot status, as a point-in-time snapshot.
    pub fn tx_status(&self) -> (r: TxStatus)
        ensures
            r == self.slot.status,
    {
        self.slot.status
    }

    /// The current account lifecycle, as a point-in-time snapshot.
    pub fn ica_lifecycle(&self) -> (r: IcaLifecycle)
        ensures
            r == self.ica.lifecycle,
    {
        self.ica.lifecycle
    }

    /// The cached balance snapshot and the height it was observed at.
    pub fn balances(&self) -> (r: (&Vec<Coin>, u64))
        ensures
            r.0@ == self.cache.balances@,
            r.1 == self.cache.balances_height,
    {
        (&self.cache.balances, self.cache.balances_height)
    }

    /// The cached delegations snapshot and the height it was observed at.
    pub fn delegations(&self) -> (r: (&Vec<Delegation>, u64))
        ensures
            r.0@ == self.cache.delegations@,
            r.1 == self.cache.delegations_height,
    {
        (&self.cache.delegations, self.cache.delegations_height)
    }
}

/// One inbound asynchronous channel event, delivered by the transport
/// substrate as a fresh invocation.
#[derive(Clone, Debug, PartialEq)]
pub enum Event {
    /// The remote transaction with the given sequence id produced a result
    /// payload.
    Response { sequence_id: Option<u64>, payload: Vec<u8> },
    /// The remote transaction with the given sequence id failed.
    ResponseError { sequence_id: Option<u64>, details: String },
    /// The remote transaction with the given sequence id timed out.
    Timeout { sequence_id: Option<u64> },
    /// The remote account channel opened under the given handle.
    ChannelOpened { handle: String, height: u64 },
    /// A registered query delivered a fresh value observed at the given
    /// height.
    QueryResult { query_id: u64, value: QueryValue, height: u64 },
}

impl Puppeteer {
    /// Routes one inbound channel event to the lifecycle transition it
    /// belongs to. A terminal transaction event yields the notification
    /// owed to the original requester; the other events yield none.
    ///
    /// Any callback arriving while nothing matches it is rejected with an
    /// error and changes nothing — never silently ignored.
    pub fn handle_event(&mut self, event: Event) -> (r: Result<
        Option<Notification>,
        PuppeteerError,
    >)
        requires
            old(self).wf(),
        ensures
            final(self).wf(),
            event matches Event::Response { sequence_id, payload } ==> ((r is Ok <==> (
            slot_matches(old(self).slot, sequence_id) && (old(self).slot@.pending_operation->Some_0 is IbcTransfer || tx_msg_data_of(payload@) is Some)))
                && (!slot_matches(old(self).slot, sequence_id) ==> r == Err::<
                Option<Notification>,
                PuppeteerError,
            >(PuppeteerError::NoMatchingPendingTransaction) && *final(self) == *old(self)) && (
            slot_matches(old(self).slot, sequence_id) ==> final(self).slot@
                == TransactionSlotModel::idle() && final(self).ica == old(self).ica && final(self).queries == old(self).queries && final(self).cache == old(self).cache) && (r is Ok
                ==> r->Ok_0 is Some && r->Ok_0->Some_0@ == (NotificationModel {
                recipient: old(self).slot@.notify->Some_0,
                hook: ResponseHookModel::Success {
                    request_id: old(self).slot.sequence_id->Some_0,
                    transaction: old(self).slot@.pending_operation->Some_0,
                    answers: if old(self).slot@.pending_operation->Some_0 is IbcTransfer {
                        seq![ResponseAnswerModel::IbcTransfer]
                    } else {
                        answers_of(tx_msg_data_of(payload@)->Some_0)
                    },
                },
            }))),
            event matches Event::ResponseError { sequence_id, details } ==> ((r is Ok <==>
            slot_matches(old(self).slot, sequence_id)) && (r is Err ==> r == Err::<
                Option<Notification>,
                PuppeteerError,
            >(PuppeteerError::NoMatchingPendingTransaction) && *final(self) == *old(self)) && (
            r is Ok ==> final(self).slot@ == TransactionSlotModel::idle() && final(self).ica == old(self).ica && final(self).queries == old(self).queries && final(self).cache == old(self).cache && r->Ok_0 is Some && r->Ok_0->Some_0@ == (NotificationModel {
                recipient: old(self).slot@.notify->Some_0,
                hook: ResponseHookModel::Error {
                    request_id: old(self).slot.sequence_id->Some_0,
                    transaction: old(self).slot@.pending_operation->Some_0,
                    details: details@,
                },
            }))),
            event matches Event::Timeout { sequence_id } ==> ((r is Ok <==> slot_matches(
                old(self).slot,
                sequence_id,
            )) && (r is Err ==> r == Err::<Option<Notification>, PuppeteerError>(
                PuppeteerError::NoMatchingPendingTransaction,
            ) && *final(self) == *old(self)) && (r is Ok ==> final(self).slot@
                == TransactionSlotModel::idle() && final(self).ica.lifecycle is Timeout && final(self).ica@.handle is None && final(self).queries == old(self).queries && final(self).cache
                == old(self).cache && r->Ok_0 is Some && r->Ok_0->Some_0@ == (NotificationModel {
                recipient: old(self).slot@.notify->Some_0,
                hook: ResponseHookModel::Error {
                    request_id: old(self).slot.sequence_id->Some_0,
                    transaction: old(self).slot@.pending_operation->Some_0,
                    details: "Timeout"@,
                },
            }))),
            event matches Event::ChannelOpened { handle, height } ==> ((r is Ok <==> old(self).ica.lifecycle is InProgress) && (r is Ok ==> r == Ok::<
                Option<Notification>,
                PuppeteerError,
            >(None) && final(self).ica@ == (crate::ica::RemoteAccountModel {
                handle: Some(handle@),
                last_observed_height: Some(height),
                lifecycle: IcaLifecycle::Registered,
            }) && final(self).slot == old(self).slot && final(self).queries == old(self).queries
                && final(self).cache == old(self).cache) && (r is Err ==> r == Err::<
                Option<Notification>,
                PuppeteerError,
            >(PuppeteerError::RegistrationNotInProgress) && *final(self) == *old(self))),
            event matches Event::QueryResult { query_id, value, height } ==> ((r is Ok <==> (old(self).queries@.contains_key(query_id) && old(self).queries@[query_id] == value.kind_view()))
                && (r is Err ==> *final(self) == *old(self)) && (r is Ok ==> r == Ok::<
                Option<Notification>,
                PuppeteerError,
            >(None) && final(self).cache@ == cache_after_delivery(old(self).cache@, value@, height)
                && final(self).slot == old(self).slot && final(self).ica == old(self).ica && final(self).queries == old(self).queries)),
    {
        match event {
            Event::Response { sequence_id, payload } => {
                match self.resolve_success(sequence_id, payload.as_slice()) {
                    Ok(n) => Ok(Some(n)),
                    Err(e) => Err(e),
                }
            },
            Event::ResponseError { sequence_id, details } => {
                match self.resolve_error(sequence_id, details) {
                    Ok(n) => Ok(Some(n)),
                    Err(e) => Err(e),
                }
            },
            Event::Timeout { sequence_id } => {
                match self.resolve_timeout(sequence_id) {
                    Ok(n) => Ok(Some(n)),
                    Err(e) => Err(e),
                }
            },
            Event::ChannelOpened { handle, height } => {
                match self.confirm_registration(handle, height) {
                    Ok(_) => Ok(None),
                    Err(e) => Err(e),
                }
            },
            Event::QueryResult { query_id, value, height } => {
                match self.deliver_result(query_id, value, height) {
                    Ok(_) => Ok(None),
                    Err(e) => Err(e),
                }
            },
        }
    }
}

/// Whether two query kinds are the same.
fn kind_matches(a: QueryKind, b: QueryKind) -> (r: bool)
    ensures
        r == (a == b),
{
    match (a, b) {
        (QueryKind::Balance, QueryKind::Balance) => true,
        (QueryKind::Delegations, QueryKind::Delegations) => true,
        _ => false,
    }
}

/// A coin whose denomination is not the local chain's own token.
pub open spec fn is_remote_coin(c: CoinModel) -> bool {
    c.denom != "untrn"@
}

/// The attached funds that actually travel to the remote zone.
pub open spec fn non_local_funds(funds: Seq<CoinModel>) -> Seq<CoinModel> {
    funds.filter(|c: CoinModel| is_remote_coin(c))
}

proof fn lemma_remote_in_filter(s: Seq<CoinModel>, i: int)
    requires
        0 <= i < s.len(),
        is_remote_coin(s[i]),
    ensures
        non_local_funds(s).len() >= 1,
    decreases s.len(),
{
    reveal_with_fuel(Seq::<CoinModel>::filter, 2);
    if is_remote_coin(s.last()) {
        assert(non_local_funds(s) == non_local_funds(s.drop_last()).push(s.last()));
    } else {
        assert(non_local_funds(s) == non_local_funds(s.drop_last()));
        assert(s.drop_last()[i] == s[i]);
        lemma_remote_in_filter(s.drop_last(), i);
    }
}

/// When the filtered funds hold exactly one coin, it is the coin at any
/// index that passes the filter.
proof fn lemma_single_remote(s: Seq<CoinModel>, i: int)
    requires
        0 <= i < s.len(),
        is_remote_coin(s[i]),
        non_local_funds(s).len() == 1,
    ensures
        non_local_funds(s)[0] == s[i],
    decreases s.len(),
{
    reveal_with_fuel(Seq::<CoinModel>::filter, 2);
    if i == s.len() - 1 {
        assert(non_local_funds(s) == non_local_funds(s.drop_last()).push(s.last()));
        assert(non_local_funds(s.drop_last()).len() == 0);
    } else {
        assert(s.drop_last()[i] == s[i]);
        if is_remote_coin(s.last()) {
            assert(non_local_funds(s) == non_local_funds(s.drop_last()).push(s.last()));
            lemma_remote_in_filter(s.drop_last(), i);
            assert(false);
        } else {
            assert(non_local_funds(s) == non_local_funds(s.drop_last()));
            lemma_single_remote(s.drop_last(), i);
        }
    }
}

/// Serializes every operation of a batch, in order. A raw value transfer
/// carries no serialized messages: it travels as a transfer request.
fn serialize_batch(batch: &Transaction, ica: &str) -> (r: Vec<AnyMsg>)
    ensures
        r.deep_view() == batch_messages(batch@, ica@),
{
    match batch {
        Transaction::Delegate { denom, items, .. } => {
            let mut out: Vec<AnyMsg> = Vec::new();
            let ghost target = delegate_messages(ica@, denom@, items.deep_view());
            let n = items.len();
            let mut i: usize = 0;
            while i < n
                invariant
                    n == items@.len(),
                    i <= n,
                    target == delegate_messages(ica@, denom@, items.deep_view()),
                    out.deep_view() =~= target.take(i as int),
                decreases n - i,
            {
                let value = encode_msg_delegate(
                    ica,
                    items[i].0.as_str(),
                    denom.as_str(),
                    items[i].1,
                );
                push_msg(&mut out, "/cosmos.staking.v1beta1.MsgDelegate", value);
                proof {
                    assert(items.deep_view()[i as int] == (items@[i as int].0@, items@[
                        i as int].1));
                    assert(target[i as int] == AnyMsgModel {
                        type_url: "/cosmos.staking.v1beta1.MsgDelegate"@,
                        value: msg_delegate_wire(ica@, items@[i as int].0@, denom@, items@[
                            i as int].1),
                    });
                    assert(out.deep_view() =~= target.take(i + 1));
                }
                i += 1;
            }
            proof {
                assert(target.take(n as int) =~= target);
            }
            out
        },
        Transaction::Undelegate { denom, items, .. } => {
            let mut out: Vec<AnyMsg> = Vec::new();
            let ghost target = undelegate_messages(ica@, denom@, items.deep_view());
            let n = items.len();
            let mut i: usize = 0;
            while i < n
                invariant
                    n == items@.len(),
                    i <= n,
                    target == undelegate_messages(ica@, denom@, items.deep_view()),
                    out.deep_view() =~= target.take(i as int),
                decreases n - i,
            {
                let value = encode_msg_undelegate(
                    ica,
                    items[i].0.as_str(),
                    denom.as_str(),
                    items[i].1,
                );
                push_msg(&mut out, "/cosmos.staking.v1beta1.MsgUndelegate", value);
                proof {
                    assert(items.deep_view()[i as int] == (items@[i as int].0@, items@[
                        i as int].1));
                    assert(target[i as int] == AnyMsgModel {
                        type_url: "/cosmos.staking.v1beta1.MsgUndelegate"@,
                        value: msg_undelegate_wire(ica@, items@[i as int].0@, denom@, items@[
                            i as int].1),
                    });
                    assert(out.deep_view() =~= target.take(i + 1));
                }
                i += 1;
            }
            proof {
                assert(target.take(n as int) =~= target);
            }
            out
        },
        Transaction::Redelegate { validator_from, validator_to, denom, amount, .. } => {
            let mut out: Vec<AnyMsg> = Vec::new();
            let value = begin_redelegate_bytes(
                ica,
                validator_from.as_str(),
                validator_to.as_str(),
                denom.as_str(),
                *amount,
            );
            push_msg(&mut out, "/cosmos.staking.v1beta1.MsgBeginRedelegate", value);
            proof {
                assert(out.deep_view() =~= batch_messages(batch@, ica@));
            }
            out
        },
        Transaction::TokenizeShare { validator, denom, amount, .. } => {
            let mut out: Vec<AnyMsg> = Vec::new();
            let value = tokenize_shares_bytes(
                ica,
                validator.as_str(),
                denom.as_str(),
                *amount,
                ica,
            );
            push_msg(&mut out, "/cosmos.staking.v1beta1.MsgTokenizeShares", value);
            proof {
                assert(out.deep_view() =~= batch_messages(batch@, ica@));
            }
            out
        },
        Transaction::RedeemShare { denom, amount, .. } => {
            let mut out: Vec<AnyMsg> = Vec::new();
            let value = redeem_shares_bytes(ica, denom.as_str(), *amount);
            push_msg(&mut out, "/cosmos.staking.v1beta1.MsgRedeemTokensForShares", value);
            proof {
                assert(out.deep_view() =~= batch_messages(batch@, ica@));
            }
            out
        },
        Transaction::ClaimRewardsAndTransfer { validators, denom, transfer, .. } => {
            let mut out: Vec<AnyMsg> = Vec::new();
            let ghost target = claim_messages(
                ica@,
                denom@,
                validators.deep_view(),
                transfer.deep_view(),
            );
            let ghost head_len: int = if transfer is Some {
                1int
            } else {
                0int
            };
            match transfer {
                Option::Some(tr) => {
                    let value = encode_msg_send(
                        ica,
                        tr.recipient.as_str(),
                        denom.as_str(),
                        tr.amount,
                    );
                    push_msg(&mut out, "/cosmos.bank.v1beta1.MsgSend", value);
                },
                Option::None => {},
            }
            proof {
                assert(target.len() == head_len + validators@.len());
                assert(out.deep_view() =~= target.take(head_len));
            }
            let n = validators.len();
            let mut i: usize = 0;
            while i < n
                invariant
                    n == validators@.len(),
                    i <= n,
                    target == claim_messages(
                        ica@,
                        denom@,
                        validators.deep_view(),
                        transfer.deep_view(),
                    ),
                    target.len() == head_len + n,
                    head_len == (if transfer.deep_view() is Some { 1int } else { 0int }),
                    out.deep_view() =~= target.take(head_len + i),
                decreases n - i,
            {
                let value = withdraw_reward_bytes(ica, validators[i].as_str());
                push_msg(
                    &mut out,
                    "/cosmos.distribution.v1beta1.MsgWithdrawDelegatorReward",
                    value,
                );
                proof {
                    assert(validators.deep_view()[i as int] == validators@[i as int]@);
                    assert(withdraw_messages(ica@, validators.deep_view())[i as int]
                        == AnyMsgModel {
                        type_url: "/cosmos.distribution.v1beta1.MsgWithdrawDelegatorReward"@,
                        value: withdraw_reward_enc(ica@, validators@[i as int]@),
                    });
                    assert(target[head_len + i] == withdraw_messages(
                        ica@,
                        validators.deep_view(),
                    )[i as int]);
                    assert(out.deep_view() =~= target.take(head_len + i + 1));
                }
                i += 1;
            }
            proof {
                assert(target.take(head_len + n) =~= target);
            }
            out
        },
        Transaction::IbcTransfer { .. } => {
            let out: Vec<AnyMsg> = Vec::new();
            proof {
                assert(out.deep_view() =~= batch_messages(batch@, ica@));
            }
            out
        },
    }
}

/// Appends one serialized message under the given type url.
fn push_msg(out: &mut Vec<AnyMsg>, type_url: &str, value: Vec<u8>)
    ensures
        final(out)@.len() == old(out)@.len() + 1,
        final(out).deep_view() == old(out).deep_view().push(
            AnyMsgModel { type_url: type_url@, value: value@ },
        ),
{
    let ghost prev_vec = out@;
    let ghost prev_dv = out.deep_view();
    let ghost target = prev_dv.push(AnyMsgModel { type_url: type_url@, value: value@ });
    let url = type_url.to_owned();
    let m = AnyMsg { type_url: url, value };
    let ghost mv = m@;
    out.push(m);
    proof {
        assert(out@ == prev_vec.push(m));
        assert(out@.len() == prev_vec.len() + 1);
        assert forall|j: int| 0 <= j < out@.len() implies out.deep_view()[j] == target[j] by {
            if j < prev_vec.len() {
                assert(out@[j] == prev_vec[j]);
                assert(prev_dv[j] == prev_vec[j].deep_view());
            } else {
                assert(out@[j] == m);
                assert(mv == AnyMsgModel { type_url: type_url@, value: value@ });
            }
        }
        assert(out.deep_view() =~= target);
    }
}

} // verus!
