//! The requests that the engine takes and the answers to its queries.

use vstd::prelude::*;

use crate::bank::{coins_view, Coin, CoinView};
use crate::state::{identity_view, Deal, DealView, Status};

verus! {

/// Who calls, and what the call deposits with the custodian.
#[derive(Clone, Debug, PartialEq, Eq)]
pub struct MessageInfo {
    pub sender: String,
    pub funds: Vec<Coin>,
}

/// What a [`MessageInfo`] is.
pub struct MessageInfoView {
    pub sender: Seq<char>,
    pub funds: Seq<CoinView>,
}

impl View for MessageInfo {
    type V = MessageInfoView;

    open spec fn view(&self) -> MessageInfoView {
        MessageInfoView { sender: self.sender@, funds: coins_view(self.funds@) }
    }
}

/// The parameters of a new ledger.
#[derive(Clone, Copy, Debug, PartialEq, Eq)]
pub struct InstantiateMsg {
    /// The relative timeout, in seconds, of deals that name none. Absent, it
    /// is 3600; zero is refused.
    pub default_timeout: Option<u64>,
}

/// The seconds of a timeout that may be absent.
pub open spec fn timeout_view(timeout: Option<u64>) -> Option<nat> {
    match timeout {
        Some(t) => Some(t as nat),
        None => None,
    }
}

/// What the address validator of the host said of a recipient: the validated
/// identity, or its error.
pub type Validated = Result<String, cosmwasm_std::StdError>;

/// One operation on the ledger.
#[derive(Debug, PartialEq)]
pub enum ExecuteMsg {
    /// Opens a deal: the caller has deposited `amount_in` of `denom_in` and
    /// asks `amount_out` of `denom_out` for it.
    CreateDeal {
        denom_in: String,
        amount_in: u128,
        denom_out: String,
        amount_out: u128,
        /// The only identity that may accept, if one is named, as the
        /// validator judged it.
        recipient: Option<Validated>,
        /// Seconds from now until the deal can no longer be accepted.
        timeout: Option<u64>,
    },
    /// Takes the deal at exactly the terms the creator asked for.
    AcceptDeal { deal_id: u64, denom_out: String, amount_out: u128 },
    /// Calls an open deal off before its timeout.
    CancelDeal { deal_id: u64 },
    /// Reclaims the deposit of a deal whose timeout has passed.
    Withdraw { deal_id: u64 },
}

/// What a recipient's validation is.
pub open spec fn validated_view(v: Option<Validated>) -> Option<Result<Seq<char>, cosmwasm_std::StdError>> {
    match v {
        None => None,
        Some(Ok(r)) => Some(Ok(r@)),
        Some(Err(e)) => Some(Err(e)),
    }
}

/// What an [`ExecuteMsg`] is.
pub enum ExecuteMsgView {
    CreateDeal {
        denom_in: Seq<char>,
        amount_in: nat,
        denom_out: Seq<char>,
        amount_out: nat,
        recipient: Option<Result<Seq<char>, cosmwasm_std::StdError>>,
        timeout: Option<nat>,
    },
    AcceptDeal { deal_id: nat, denom_out: Seq<char>, amount_out: nat },
    CancelDeal { deal_id: nat },
    Withdraw { deal_id: nat },
}

impl View for ExecuteMsg {
    type V = ExecuteMsgView;

    open spec fn view(&self) -> ExecuteMsgView {
        match *self {
            ExecuteMsg::CreateDeal { denom_in, amount_in, denom_out, amount_out, recipient, timeout } => {
                ExecuteMsgView::CreateDeal {
                    denom_in: denom_in@,
                    amount_in: amount_in as nat,
                    denom_out: denom_out@,
                    amount_out: amount_out as nat,
                    recipient: validated_view(recipient),
                    timeout: timeout_view(timeout),
                }
            },
            ExecuteMsg::AcceptDeal { deal_id, denom_out, amount_out } => ExecuteMsgView::AcceptDeal {
                deal_id: deal_id as nat,
                denom_out: denom_out@,
                amount_out: amount_out as nat,
            },
            ExecuteMsg::CancelDeal { deal_id } => ExecuteMsgView::CancelDeal { deal_id: deal_id as nat },
            ExecuteMsg::Withdraw { deal_id } => ExecuteMsgView::Withdraw { deal_id: deal_id as nat },
        }
    }
}

/// One question to the ledger.
#[derive(Clone, Copy, Debug, PartialEq, Eq)]
pub enum QueryMsg {
    /// What is the default timeout?
    Config {},
    /// What is the record of this deal?
    Deal { deal_id: u64 },
}

/// The answer to [`QueryMsg::Config`].
#[derive(Clone, Copy, Debug, PartialEq, Eq)]
pub struct ConfigResponse {
    pub default_timeout: u64,
}

/// A deal together with its id, as plain text and numbers.
#[derive(Clone, Debug, PartialEq, Eq)]
pub struct DealResponse {
    pub deal_id: u64,
    pub creator: String,
    pub recipient: Option<String>,
    pub denom_in: String,
    pub amount_in: u128,
    pub denom_out: String,
    pub amount_out: u128,
    pub status: Status,
    pub timeout: u64,
}

impl View for DealResponse {
    type V = DealView;

    open spec fn view(&self) -> DealView {
        DealView {
            id: self.deal_id as nat,
            creator: self.creator@,
            recipient: identity_view(self.recipient),
            denom_in: self.denom_in@,
            amount_in: self.amount_in as nat,
            denom_out: self.denom_out@,
            amount_out: self.amount_out as nat,
            status: self.status,
            timeout: self.timeout as nat,
        }
    }
}

/// The answer to a [`QueryMsg`].
#[derive(Clone, Debug, PartialEq, Eq)]
pub enum QueryResponse {
    Config(ConfigResponse),
    Deal(DealResponse),
}

/// What a [`QueryResponse`] is.
pub enum QueryResponseView {
    Config { default_timeout: nat },
    Deal(DealView),
}

impl View for QueryResponse {
    type V = QueryResponseView;

    open spec fn view(&self) -> QueryResponseView {
        match *self {
            QueryResponse::Config(c) => QueryResponseView::Config { default_timeout: c.default_timeout as nat },
            QueryResponse::Deal(d) => QueryResponseView::Deal(d@),
        }
    }
}

} // verus!
