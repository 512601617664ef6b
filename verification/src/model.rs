//! What each operation does, over mathematical values.
//!
//! Every operation is a function from the ledger, the current time, the
//! caller and the request to an [`Outcome`]: the ledger afterwards, and either
//! the response or the reason for the refusal. The checks of an operation are
//! listed in the order in which they are made, so where several fail the
//! first one names the error. A refused operation leaves the ledger as it was.
//!
//! Time is in seconds. A deal can be accepted and cancelled up to and
//! including the second of its timeout, and withdrawn only after it.

use vstd::prelude::*;

use crate::bank::{CoinView, TransferView};
use crate::decimal::decimal;
use crate::error::ContractError;
use crate::msg::{ExecuteMsgView, MessageInfoView, QueryMsg, QueryResponse, QueryResponseView};
use crate::response::{attribute, AttributeView, Response, ResponseView};
use crate::state::{DealView, LedgerView, Status};

verus! {

/// The default timeout, in seconds, of a ledger that is set up without one.
pub const DEFAULT_TIMEOUT: u64 = 3600;

/// The ledger after an operation, and what the operation returned.
pub struct Outcome {
    pub ledger: LedgerView,
    pub result: Result<ResponseView, ContractError>,
}

/// What an operation returned, with the response taken by its view.
pub open spec fn result_view(res: Result<Response, ContractError>) -> Result<ResponseView, ContractError> {
    match res {
        Ok(r) => Ok(r@),
        Err(e) => Err(e),
    }
}

/// What a question returned, with the answer taken by its view.
pub open spec fn answer_view(res: Result<QueryResponse, ContractError>) -> Result<
    QueryResponseView,
    ContractError,
> {
    match res {
        Ok(r) => Ok(r@),
        Err(e) => Err(e),
    }
}

/// The outcome of an operation that was refused with `error`.
pub open spec fn refused(ledger: LedgerView, error: ContractError) -> Outcome {
    Outcome { ledger, result: Err(error) }
}

/// The outcome of an operation that went through.
pub open spec fn done(ledger: LedgerView, response: ResponseView) -> Outcome {
    Outcome { ledger, result: Ok(response) }
}

/// The one coin of `amount` of `denom`.
pub open spec fn single_coin(denom: Seq<char>, amount: nat) -> Seq<CoinView> {
    seq![CoinView { denom, amount }]
}

/// The transfer of `amount` to `to_address`.
pub open spec fn transfer(to_address: Seq<char>, amount: Seq<CoinView>) -> TransferView {
    TransferView { to_address, amount }
}

/// The deposit of a deal: what its creator put into custody.
pub open spec fn escrow(deal: DealView) -> Seq<CoinView> {
    single_coin(deal.denom_in, deal.amount_in)
}

/// The two attributes that every operation on a deal reports.
pub open spec fn deal_attributes(action: Seq<char>, deal_id: nat) -> Seq<AttributeView> {
    seq![attribute("action"@, action), attribute("deal_id"@, decimal(deal_id))]
}

// ---------------------------------------------------------------------
// Setting up
// ---------------------------------------------------------------------

/// Why a ledger cannot be set up: only for an explicit timeout of zero.
pub open spec fn instantiate_refusal(default_timeout: Option<nat>) -> Option<ContractError> {
    if default_timeout == Some(0nat) {
        Some(ContractError::TimeoutCannotBeZero {})
    } else {
        None
    }
}

/// The default timeout of the new ledger.
pub open spec fn chosen_default_timeout(default_timeout: Option<nat>) -> nat {
    match default_timeout {
        Some(t) => t,
        None => DEFAULT_TIMEOUT as nat,
    }
}

/// The new ledger: without deals, the counter at zero.
pub open spec fn instantiated_ledger(default_timeout: Option<nat>) -> LedgerView {
    LedgerView {
        default_timeout: chosen_default_timeout(default_timeout),
        deals: Seq::<DealView>::empty(),
    }
}

/// What setting up reports.
pub open spec fn instantiate_response(default_timeout: Option<nat>) -> ResponseView {
    ResponseView {
        messages: Seq::<TransferView>::empty(),
        attributes: seq![
            attribute("action"@, "instantiate"@),
            attribute("default_timeout"@, decimal(chosen_default_timeout(default_timeout))),
        ],
    }
}

// ---------------------------------------------------------------------
// Creating
// ---------------------------------------------------------------------

/// Why the attached funds are not the deposit of `amount_in` of `denom_in`:
/// they must be exactly one coin, of that denomination and of that amount.
pub open spec fn deposit_refusal(funds: Seq<CoinView>, denom_in: Seq<char>, amount_in: nat) -> Option<
    ContractError,
> {
    if funds.len() != 1 {
        Some(ContractError::InvalidFundsLength {})
    } else if funds[0].denom != denom_in {
        Some(ContractError::InvalidFundsDenom {})
    } else if funds[0].amount != amount_in {
        Some(ContractError::InvalidFundsAmount {})
    } else {
        None
    }
}

/// Why a deal cannot be created: the deposit is wrong, the timeout is an
/// explicit zero, or the validator rejected the recipient.
pub open spec fn create_refusal(
    info: MessageInfoView,
    denom_in: Seq<char>,
    amount_in: nat,
    recipient: Option<Result<Seq<char>, cosmwasm_std::StdError>>,
    timeout: Option<nat>,
) -> Option<ContractError> {
    if deposit_refusal(info.funds, denom_in, amount_in) is Some {
        deposit_refusal(info.funds, denom_in, amount_in)
    } else if timeout == Some(0nat) {
        Some(ContractError::TimeoutCannotBeZero {})
    } else {
        match recipient {
            Some(Err(e)) => Some(ContractError::Std(e)),
            _ => None,
        }
    }
}

/// The seconds from creation to timeout: as given, or the ledger's default.
pub open spec fn relative_timeout(ledger: LedgerView, timeout: Option<nat>) -> nat {
    match timeout {
        Some(t) => t,
        None => ledger.default_timeout,
    }
}

/// The identity that a validation let through.
pub open spec fn accepted_recipient(recipient: Option<Result<Seq<char>, cosmwasm_std::StdError>>) -> Option<
    Seq<char>,
> {
    match recipient {
        Some(Ok(r)) => Some(r),
        _ => None,
    }
}

/// The record of a new deal: open, under the next id, owned by the caller,
/// with the terms as the creator states them.
pub open spec fn created_deal(
    ledger: LedgerView,
    now: nat,
    info: MessageInfoView,
    denom_in: Seq<char>,
    amount_in: nat,
    denom_out: Seq<char>,
    amount_out: nat,
    recipient: Option<Result<Seq<char>, cosmwasm_std::StdError>>,
    timeout: Option<nat>,
) -> DealView {
    DealView {
        id: ledger.next_deal_id(),
        creator: info.sender,
        recipient: accepted_recipient(recipient),
        denom_in,
        amount_in,
        denom_out,
        amount_out,
        status: Status::Open,
        timeout: now + relative_timeout(ledger, timeout),
    }
}

/// What a creation reports: the id and the terms. It moves no funds, for the
/// deposit came with the call.
pub open spec fn create_response(
    deal_id: nat,
    denom_in: Seq<char>,
    amount_in: nat,
    denom_out: Seq<char>,
    amount_out: nat,
) -> ResponseView {
    ResponseView {
        messages: Seq::<TransferView>::empty(),
        attributes: seq![
            attribute("action"@, "create_deal"@),
            attribute("deal_id"@, decimal(deal_id)),
            attribute("denom_in"@, denom_in),
            attribute("amount_in"@, decimal(amount_in)),
            attribute("denom_out"@, denom_out),
            attribute("amount_out"@, decimal(amount_out)),
        ],
    }
}

/// Creating a deal.
pub open spec fn create_outcome(
    ledger: LedgerView,
    now: nat,
    info: MessageInfoView,
    denom_in: Seq<char>,
    amount_in: nat,
    denom_out: Seq<char>,
    amount_out: nat,
    recipient: Option<Result<Seq<char>, cosmwasm_std::StdError>>,
    timeout: Option<nat>,
) -> Outcome {
    match create_refusal(info, denom_in, amount_in, recipient, timeout) {
        Some(e) => refused(ledger, e),
        None => done(
            ledger.with_deal(
                created_deal(ledger, now, info, denom_in, amount_in, denom_out, amount_out, recipient, timeout),
            ),
            create_response(ledger.next_deal_id(), denom_in, amount_in, denom_out, amount_out),
        ),
    }
}

// ---------------------------------------------------------------------
// Accepting
// ---------------------------------------------------------------------

/// Why a deal cannot be accepted. In this order: it does not exist; it is
/// not open; its timeout has passed; the denomination or the amount offered
/// is not what the creator asked for; the deal names a recipient and the
/// caller is someone else.
pub open spec fn accept_refusal(
    ledger: LedgerView,
    now: nat,
    info: MessageInfoView,
    deal_id: nat,
    denom_out: Seq<char>,
    amount_out: nat,
) -> Option<ContractError> {
    if !ledger.has(deal_id) {
        Some(ContractError::DealNotFound {})
    } else {
        let deal = ledger.deals[deal_id as int];
        if deal.status != Status::Open {
            Some(ContractError::DealNotOpen {})
        } else if deal.timeout < now {
            Some(ContractError::DealExpired {})
        } else if deal.denom_out != denom_out {
            Some(ContractError::InvalidFundsDenom {})
        } else if deal.amount_out != amount_out {
            Some(ContractError::InvalidFundsAmount {})
        } else if deal.recipient is Some && deal.recipient != Some(info.sender) {
            Some(ContractError::Unauthorized {})
        } else {
            None
        }
    }
}

/// What an acceptance reports and releases: first the deposit goes to the
/// caller, then whatever the caller attached goes to the creator.
pub open spec fn accept_response(deal_id: nat, deal: DealView, info: MessageInfoView) -> ResponseView {
    ResponseView {
        messages: seq![transfer(info.sender, escrow(deal)), transfer(deal.creator, info.funds)],
        attributes: deal_attributes("accept_deal"@, deal_id),
    }
}

/// Accepting a deal.
pub open spec fn accept_outcome(
    ledger: LedgerView,
    now: nat,
    info: MessageInfoView,
    deal_id: nat,
    denom_out: Seq<char>,
    amount_out: nat,
) -> Outcome {
    match accept_refusal(ledger, now, info, deal_id, denom_out, amount_out) {
        Some(e) => refused(ledger, e),
        None => done(
            ledger.with_status(deal_id, Status::Executed),
            accept_response(deal_id, ledger.deals[deal_id as int], info),
        ),
    }
}

// ---------------------------------------------------------------------
// Cancelling
// ---------------------------------------------------------------------

/// Why a deal cannot be cancelled. In this order: it does not exist; it is
/// not open; the caller is not its creator; its timeout has passed.
pub open spec fn cancel_refusal(ledger: LedgerView, now: nat, info: MessageInfoView, deal_id: nat) -> Option<
    ContractError,
> {
    if !ledger.has(deal_id) {
        Some(ContractError::DealNotFound {})
    } else {
        let deal = ledger.deals[deal_id as int];
        if deal.status != Status::Open {
            Some(ContractError::DealNotOpen {})
        } else if deal.creator != info.sender {
            Some(ContractError::Unauthorized {})
        } else if deal.timeout < now {
            Some(ContractError::DealExpired {})
        } else {
            None
        }
    }
}

/// What returning the deposit of `deal` to its creator reports and releases.
/// The refund is the deposit itself, whatever the call attached.
pub open spec fn refund_response(action: Seq<char>, deal_id: nat, deal: DealView) -> ResponseView {
    ResponseView {
        messages: seq![transfer(deal.creator, escrow(deal))],
        attributes: deal_attributes(action, deal_id),
    }
}

/// Cancelling a deal.
pub open spec fn cancel_outcome(ledger: LedgerView, now: nat, info: MessageInfoView, deal_id: nat) -> Outcome {
    match cancel_refusal(ledger, now, info, deal_id) {
        Some(e) => refused(ledger, e),
        None => done(
            ledger.with_status(deal_id, Status::Cancelled),
            refund_response("cancel_deal"@, deal_id, ledger.deals[deal_id as int]),
        ),
    }
}

// ---------------------------------------------------------------------
// Withdrawing
// ---------------------------------------------------------------------

/// Why a deposit cannot be withdrawn. In this order: the deal does not
/// exist; it is not open; its timeout has not passed; the caller is not its
/// creator.
pub open spec fn withdraw_refusal(ledger: LedgerView, now: nat, info: MessageInfoView, deal_id: nat) -> Option<
    ContractError,
> {
    if !ledger.has(deal_id) {
        Some(ContractError::DealNotFound {})
    } else {
        let deal = ledger.deals[deal_id as int];
        if deal.status != Status::Open {
            Some(ContractError::DealNotOpen {})
        } else if deal.timeout >= now {
            Some(ContractError::DealNotExpired {})
        } else if deal.creator != info.sender {
            Some(ContractError::Unauthorized {})
        } else {
            None
        }
    }
}

/// Withdrawing the deposit of a deal that nobody accepted in time.
pub open spec fn withdraw_outcome(ledger: LedgerView, now: nat, info: MessageInfoView, deal_id: nat) -> Outcome {
    match withdraw_refusal(ledger, now, info, deal_id) {
        Some(e) => refused(ledger, e),
        None => done(
            ledger.with_status(deal_id, Status::Expired),
            refund_response("withdraw"@, deal_id, ledger.deals[deal_id as int]),
        ),
    }
}

// ---------------------------------------------------------------------
// Any operation
// ---------------------------------------------------------------------

/// One operation.
pub open spec fn execute_outcome(ledger: LedgerView, now: nat, info: MessageInfoView, msg: ExecuteMsgView) -> Outcome {
    match msg {
        ExecuteMsgView::CreateDeal { denom_in, amount_in, denom_out, amount_out, recipient, timeout } => {
            create_outcome(ledger, now, info, denom_in, amount_in, denom_out, amount_out, recipient, timeout)
        },
        ExecuteMsgView::AcceptDeal { deal_id, denom_out, amount_out } => accept_outcome(
            ledger,
            now,
            info,
            deal_id,
            denom_out,
            amount_out,
        ),
        ExecuteMsgView::CancelDeal { deal_id } => cancel_outcome(ledger, now, info, deal_id),
        ExecuteMsgView::Withdraw { deal_id } => withdraw_outcome(ledger, now, info, deal_id),
    }
}

// ---------------------------------------------------------------------
// Asking
// ---------------------------------------------------------------------

/// The answer to a question: the default timeout, or the record of a deal,
/// which is refused only where no deal has the id.
pub open spec fn query_outcome(ledger: LedgerView, msg: QueryMsg) -> Result<QueryResponseView, ContractError> {
    match msg {
        QueryMsg::Config {  } => Ok(QueryResponseView::Config { default_timeout: ledger.default_timeout }),
        QueryMsg::Deal { deal_id } => if ledger.has(deal_id as nat) {
            Ok(QueryResponseView::Deal(ledger.deals[deal_id as int]))
        } else {
            Err(ContractError::DealNotFound {})
        },
    }
}

// ---------------------------------------------------------------------
// Many calls
// ---------------------------------------------------------------------

/// Whether the timeout of the deal that this call would create fits the
/// 64 bits in which a deal records it. Calls that create nothing always do.
pub open spec fn deadline_fits(ledger: LedgerView, now: nat, info: MessageInfoView, msg: ExecuteMsgView) -> bool {
    msg matches ExecuteMsgView::CreateDeal { denom_in, amount_in, recipient, timeout, .. } ==> (create_refusal(
        info,
        denom_in,
        amount_in,
        recipient,
        timeout,
    ) is None ==> now + relative_timeout(ledger, timeout) <= u64::MAX)
}

/// One call: when it was made, by whom and with what funds, and the request.
pub struct Call {
    pub now: nat,
    pub info: MessageInfoView,
    pub msg: ExecuteMsgView,
}

/// The ledger after the given calls, made in order.
pub open spec fn run(ledger: LedgerView, calls: Seq<Call>) -> LedgerView
    decreases calls.len(),
{
    if calls.len() == 0 {
        ledger
    } else {
        let before = run(ledger, calls.drop_last());
        let call = calls.last();
        execute_outcome(before, call.now, call.info, call.msg).ledger
    }
}

/// The id of the deal that the call creates, if it creates one.
pub open spec fn issued_id(ledger: LedgerView, call: Call) -> Option<nat> {
    if call.msg is CreateDeal && execute_outcome(ledger, call.now, call.info, call.msg).result is Ok {
        Some(execute_outcome(ledger, call.now, call.info, call.msg).ledger.deals.last().id)
    } else {
        None
    }
}

/// The ids of the deals that the given calls create, in call order.
pub open spec fn issued_ids(ledger: LedgerView, calls: Seq<Call>) -> Seq<nat>
    decreases calls.len(),
{
    if calls.len() == 0 {
        Seq::<nat>::empty()
    } else {
        let earlier = issued_ids(ledger, calls.drop_last());
        match issued_id(run(ledger, calls.drop_last()), calls.last()) {
            Some(id) => earlier.push(id),
            None => earlier,
        }
    }
}

} // verus!
