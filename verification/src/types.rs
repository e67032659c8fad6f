use vstd::prelude::*;

verus! {

/// An amount of a token, with the denomination spelled out.
#[derive(Clone, Debug, PartialEq)]
pub struct Coin {
    pub denom: String,
    pub amount: u128,
}

/// Mathematical model of a [`Coin`].
pub struct CoinModel {
    pub denom: Seq<char>,
    pub amount: u128,
}

impl View for Coin {
    type V = CoinModel;

    open spec fn view(&self) -> CoinModel {
        CoinModel { denom: self.denom@, amount: self.amount }
    }
}

impl DeepView for Coin {
    type V = CoinModel;

    open spec fn deep_view(&self) -> CoinModel {
        self.view()
    }
}

/// A point in time, as carried by remote-chain answers.
#[derive(Clone, Copy, Debug, PartialEq, Eq, Structural)]
pub struct Timestamp {
    pub seconds: u64,
    pub nanos: u32,
}

impl DeepView for Timestamp {
    type V = Timestamp;

    open spec fn deep_view(&self) -> Timestamp {
        *self
    }
}

/// One delegation of the remote account, as reported by a delegations query.
#[derive(Clone, Debug, PartialEq)]
pub struct Delegation {
    pub validator: String,
    pub amount: Coin,
}

/// Mathematical model of a [`Delegation`].
pub struct DelegationModel {
    pub validator: Seq<char>,
    pub amount: CoinModel,
}

impl View for Delegation {
    type V = DelegationModel;

    open spec fn view(&self) -> DelegationModel {
        DelegationModel { validator: self.validator@, amount: self.amount@ }
    }
}

impl DeepView for Delegation {
    type V = DelegationModel;

    open spec fn deep_view(&self) -> DelegationModel {
        self.view()
    }
}

/// The semantic type of a registered remote query.
#[derive(Clone, Copy, Debug, PartialEq, Eq, Structural)]
pub enum QueryKind {
    Balance,
    Delegations,
}

/// A transfer of rewards to a recipient, attached to a claim request.
#[derive(Clone, Debug, PartialEq)]
pub struct TransferReadyBatch {
    pub recipient: String,
    pub amount: u128,
}

/// Mathematical model of a [`TransferReadyBatch`].
pub struct TransferReadyBatchModel {
    pub recipient: Seq<char>,
    pub amount: u128,
}

impl View for TransferReadyBatch {
    type V = TransferReadyBatchModel;

    open spec fn view(&self) -> TransferReadyBatchModel {
        TransferReadyBatchModel { recipient: self.recipient@, amount: self.amount }
    }
}

impl DeepView for TransferReadyBatch {
    type V = TransferReadyBatchModel;

    open spec fn deep_view(&self) -> TransferReadyBatchModel {
        self.view()
    }
}

/// The semantic description of a submitted operation batch, retained while
/// the remote transaction is pending so that the eventual result can be
/// correlated and re-described to the requester.
#[derive(Clone, Debug, PartialEq)]
pub enum Transaction {
    Delegate {
        interchain_account_id: String,
        denom: String,
        items: Vec<(String, u128)>,
    },
    Undelegate {
        interchain_account_id: String,
        denom: String,
        items: Vec<(String, u128)>,
    },
    Redelegate {
        interchain_account_id: String,
        validator_from: String,
        validator_to: String,
        denom: String,
        amount: u128,
    },
    TokenizeShare {
        interchain_account_id: String,
        validator: String,
        denom: String,
        amount: u128,
    },
    RedeemShare {
        interchain_account_id: String,
        validator: String,
        denom: String,
        amount: u128,
    },
    ClaimRewardsAndTransfer {
        interchain_account_id: String,
        validators: Vec<String>,
        denom: String,
        transfer: Option<TransferReadyBatch>,
    },
    IbcTransfer {
        denom: String,
        amount: u128,
        recipient: String,
    },
}

/// Mathematical model of a [`Transaction`].
pub enum TransactionModel {
    Delegate {
        interchain_account_id: Seq<char>,
        denom: Seq<char>,
        items: Seq<(Seq<char>, u128)>,
    },
    Undelegate {
        interchain_account_id: Seq<char>,
        denom: Seq<char>,
        items: Seq<(Seq<char>, u128)>,
    },
    Redelegate {
        interchain_account_id: Seq<char>,
        validator_from: Seq<char>,
        validator_to: Seq<char>,
        denom: Seq<char>,
        amount: u128,
    },
    TokenizeShare {
        interchain_account_id: Seq<char>,
        validator: Seq<char>,
        denom: Seq<char>,
        amount: u128,
    },
    RedeemShare {
        interchain_account_id: Seq<char>,
        validator: Seq<char>,
        denom: Seq<char>,
        amount: u128,
    },
    ClaimRewardsAndTransfer {
        interchain_account_id: Seq<char>,
        validators: Seq<Seq<char>>,
        denom: Seq<char>,
        transfer: Option<TransferReadyBatchModel>,
    },
    IbcTransfer {
        denom: Seq<char>,
        amount: u128,
        recipient: Seq<char>,
    },
}

impl View for Transaction {
    type V = TransactionModel;

    open spec fn view(&self) -> TransactionModel {
        match self {
            Transaction::Delegate { interchain_account_id, denom, items } => {
                TransactionModel::Delegate {
                    interchain_account_id: interchain_account_id@,
                    denom: denom@,
                    items: items.deep_view(),
                }
            },
            Transaction::Undelegate { interchain_account_id, denom, items } => {
                TransactionModel::Undelegate {
                    interchain_account_id: interchain_account_id@,
                    denom: denom@,
                    items: items.deep_view(),
                }
            },
            Transaction::Redelegate {
                interchain_account_id,
                validator_from,
                validator_to,
                denom,
                amount,
            } => {
                TransactionModel::Redelegate {
                    interchain_account_id: interchain_account_id@,
                    validator_from: validator_from@,
                    validator_to: validator_to@,
                    denom: denom@,
                    amount: *amount,
                }
            },
            Transaction::TokenizeShare { interchain_account_id, validator, denom, amount } => {
                TransactionModel::TokenizeShare {
                    interchain_account_id: interchain_account_id@,
                    validator: validator@,
                    denom: denom@,
                    amount: *amount,
                }
            },
            Transaction::RedeemShare { interchain_account_id, validator, denom, amount } => {
                TransactionModel::RedeemShare {
                    interchain_account_id: interchain_account_id@,
                    validator: validator@,
                    denom: denom@,
                    amount: *amount,
                }
            },
            Transaction::ClaimRewardsAndTransfer {
                interchain_account_id,
                validators,
                denom,
                transfer,
            } => {
                TransactionModel::ClaimRewardsAndTransfer {
                    interchain_account_id: interchain_account_id@,
                    validators: validators.deep_view(),
                    denom: denom@,
                    transfer: transfer.deep_view(),
                }
            },
            Transaction::IbcTransfer { denom, amount, recipient } => {
                TransactionModel::IbcTransfer {
                    denom: denom@,
                    amount: *amount,
                    recipient: recipient@,
                }
            },
        }
    }
}

impl DeepView for Transaction {
    type V = TransactionModel;

    open spec fn deep_view(&self) -> TransactionModel {
        self.view()
    }
}

} // verus!
