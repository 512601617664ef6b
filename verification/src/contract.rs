//! The operations: setting a ledger up, the four requests that change it,
//! and the two questions that read it.
//!
//! Each operation either goes through, changing the ledger and returning a
//! [`Response`], or is refused with a [`ContractError`] and changes nothing.
//! The contracts say which, over the functions of [`crate::model`].

use vstd::prelude::*;
use vstd::string::*;

use crate::bank::{coins_view, Coin, Transfer, TransferView};
use crate::decimal::to_decimal;
use crate::error::ContractError;
use crate::model::{
    accept_refusal, accept_response, answer_view, cancel_refusal, create_refusal, create_response,
    created_deal, deadline_fits, deal_attributes, deposit_refusal, execute_outcome,
    instantiate_refusal, instantiate_response, instantiated_ledger, query_outcome, refund_response,
    relative_timeout, result_view, single_coin, withdraw_refusal, DEFAULT_TIMEOUT,
};
use crate::msg::{
    timeout_view, validated_view, ConfigResponse, DealResponse, ExecuteMsg, InstantiateMsg,
    MessageInfo, QueryMsg, QueryResponse, Validated,
};
use crate::response::Response;
use crate::state::{Config, Deal, Ledger, Status};

verus! {

/// The list of the one coin of `amount` of `denom`.
fn one_coin(denom: String, amount: u128) -> (coins: Vec<Coin>)
    ensures
        coins_view(coins@) == single_coin(denom@, amount as nat),
{
    let mut coins: Vec<Coin> = Vec::new();
    let coin = Coin { denom, amount };
    coins.push(coin);
    assert(coins_view(coins@) =~= single_coin(denom@, amount as nat));
    coins
}

/// The response that names an action on a deal and releases nothing yet.
fn deal_report(action: &str, deal_id: u64) -> (r: Response)
    ensures
        r@.attributes == deal_attributes(action@, deal_id as nat),
        r@.messages == Seq::<TransferView>::empty(),
{
    let r = Response::new().add_attribute(String::from_str("action"), String::from_str(action)).add_attribute(
        String::from_str("deal_id"),
        to_decimal(deal_id as u128),
    );
    assert(r@.attributes =~= deal_attributes(action@, deal_id as nat));
    r
}

/// Checks that the attached funds are the deposit of `amount_in` of
/// `denom_in`, and says what is wrong where they are not.
fn check_deposit(funds: &Vec<Coin>, denom_in: &String, amount_in: u128) -> (refusal: Option<ContractError>)
    ensures
        refusal == deposit_refusal(coins_view(funds@), denom_in@, amount_in as nat),
{
    if funds.len() != 1 {
        return Some(ContractError::InvalidFundsLength {});
    }
    if funds[0].denom != *denom_in {
        return Some(ContractError::InvalidFundsDenom {});
    }
    if funds[0].amount != amount_in {
        return Some(ContractError::InvalidFundsAmount {});
    }
    None
}

/// Sets up a ledger without deals. The default timeout is the one given, or
/// 3600 seconds; an explicit zero is refused.
pub fn instantiate(msg: InstantiateMsg) -> (res: Result<(Ledger, Response), ContractError>)
    ensures
        match res {
            Ok((ledger, r)) => {
                &&& instantiate_refusal(timeout_view(msg.default_timeout)) is None
                &&& ledger.wf()
                &&& ledger@ == instantiated_ledger(timeout_view(msg.default_timeout))
                &&& r@ == instantiate_response(timeout_view(msg.default_timeout))
            },
            Err(e) => instantiate_refusal(timeout_view(msg.default_timeout)) == Some(e),
        },
{
    let default_timeout: u64 = match msg.default_timeout {
        Some(t) => {
            if t == 0 {
                return Err(ContractError::TimeoutCannotBeZero {});
            }
            t
        },
        None => DEFAULT_TIMEOUT,
    };
    let ledger = Ledger::new(Config { default_timeout });
    let r = Response::new().add_attribute(
        String::from_str("action"),
        String::from_str("instantiate"),
    ).add_attribute(String::from_str("default_timeout"), to_decimal(default_timeout as u128));
    assert(r@.attributes =~= instantiate_response(timeout_view(msg.default_timeout)).attributes);
    Ok((ledger, r))
}

/// Whether [`execute`] can take this call: whether the timeout of the deal
/// that it would create fits the 64 bits in which a deal records it. A call
/// that creates nothing, or whose creation is refused, always can be taken.
pub fn deadline_in_range(ledger: &Ledger, now: u64, info: &MessageInfo, msg: &ExecuteMsg) -> (fits: bool)
    ensures
        fits == deadline_fits(ledger@, now as nat, info@, msg@),
{
    match msg {
        ExecuteMsg::CreateDeal { denom_in, amount_in, denom_out: _, amount_out: _, recipient, timeout } => {
            if check_deposit(&info.funds, denom_in, *amount_in).is_some() {
                return true;
            }
            let relative: u64 = match timeout {
                Some(t) => {
                    if *t == 0 {
                        return true;
                    }
                    *t
                },
                None => ledger.config().default_timeout,
            };
            match recipient {
                Some(Err(_)) => true,
                _ => relative <= u64::MAX - now,
            }
        },
        _ => true,
    }
}

/// Performs one request on the ledger.
///
/// The timeout of a deal is recorded in 64 bits, so a creation that would
/// go through must have a timeout that fits them: [`deadline_in_range`]
/// tells.
pub fn execute(ledger: &mut Ledger, now: u64, info: MessageInfo, msg: ExecuteMsg) -> (res: Result<
    Response,
    ContractError,
>)
    requires
        deadline_fits(old(ledger)@, now as nat, info@, msg@),
    ensures
        old(ledger).wf() ==> final(ledger).wf(),
        final(ledger)@ == execute_outcome(old(ledger)@, now as nat, info@, msg@).ledger,
        result_view(res) == execute_outcome(old(ledger)@, now as nat, info@, msg@).result,
{
    match msg {
        ExecuteMsg::CreateDeal { denom_in, amount_in, denom_out, amount_out, recipient, timeout } => {
            try_create_deal(ledger, now, info, denom_in, amount_in, denom_out, amount_out, recipient, timeout)
        },
        ExecuteMsg::AcceptDeal { deal_id, denom_out, amount_out } => try_accept_deal(
            ledger,
            now,
            info,
            deal_id,
            denom_out,
            amount_out,
        ),
        ExecuteMsg::CancelDeal { deal_id } => try_cancel_deal(ledger, now, info, deal_id),
        ExecuteMsg::Withdraw { deal_id } => try_withdraw(ledger, now, info, deal_id),
    }
}

/// Opens a deal for the caller, who has deposited `amount_in` of `denom_in`
/// with this call and asks `amount_out` of `denom_out` in return.
///
/// The attached funds must be exactly that deposit. The deal gets the next
/// id and can be accepted until `timeout` seconds from `now`, or the
/// ledger's default where none is given. No transfer follows: the custodian
/// holds the deposit already.
pub fn try_create_deal(
    ledger: &mut Ledger,
    now: u64,
    info: MessageInfo,
    denom_in: String,
    amount_in: u128,
    denom_out: String,
    amount_out: u128,
    recipient: Option<Validated>,
    timeout: Option<u64>,
) -> (res: Result<Response, ContractError>)
    requires
        create_refusal(info@, denom_in@, amount_in as nat, validated_view(recipient), timeout_view(timeout))
            is None ==> now + relative_timeout(old(ledger)@, timeout_view(timeout)) <= u64::MAX,
    ensures
        old(ledger).wf() ==> final(ledger).wf(),
        match res {
            Ok(r) => {
                &&& create_refusal(
                    info@,
                    denom_in@,
                    amount_in as nat,
                    validated_view(recipient),
                    timeout_view(timeout),
                ) is None
                &&& final(ledger)@ == old(ledger)@.with_deal(
                    created_deal(
                        old(ledger)@,
                        now as nat,
                        info@,
                        denom_in@,
                        amount_in as nat,
                        denom_out@,
                        amount_out as nat,
                        validated_view(recipient),
                        timeout_view(timeout),
                    ),
                )
                &&& r@ == create_response(
                    old(ledger)@.next_deal_id(),
                    denom_in@,
                    amount_in as nat,
                    denom_out@,
                    amount_out as nat,
                )
            },
            Err(e) => {
                &&& create_refusal(
                    info@,
                    denom_in@,
                    amount_in as nat,
                    validated_view(recipient),
                    timeout_view(timeout),
                ) == Some(e)
                &&& final(ledger)@ == old(ledger)@
            },
        },
{
    match check_deposit(&info.funds, &denom_in, amount_in) {
        Some(e) => {
            return Err(e);
        },
        None => {},
    }
    let relative: u64 = match timeout {
        Some(t) => {
            if t == 0 {
                return Err(ContractError::TimeoutCannotBeZero {});
            }
            t
        },
        None => ledger.config().default_timeout,
    };
    let valid_recipient: Option<String> = match recipient {
        None => None,
        Some(Ok(r)) => Some(r),
        Some(Err(e)) => {
            return Err(ContractError::Std(e));
        },
    };
    let deal_id: u64 = ledger.next_deal_id();
    let deal = Deal {
        id: deal_id,
        creator: info.sender,
        recipient: valid_recipient,
        denom_in: denom_in.clone(),
        amount_in,
        denom_out: denom_out.clone(),
        amount_out,
        status: Status::Open,
        timeout: now + relative,
    };
    ledger.save_new(deal);
    let r = Response::new().add_attribute(
        String::from_str("action"),
        String::from_str("create_deal"),
    ).add_attribute(String::from_str("deal_id"), to_decimal(deal_id as u128)).add_attribute(
        String::from_str("denom_in"),
        denom_in,
    ).add_attribute(String::from_str("amount_in"), to_decimal(amount_in)).add_attribute(
        String::from_str("denom_out"),
        denom_out,
    ).add_attribute(String::from_str("amount_out"), to_decimal(amount_out));
    assert(r@.attributes =~= create_response(
        old(ledger)@.next_deal_id(),
        denom_in@,
        amount_in as nat,
        denom_out@,
        amount_out as nat,
    ).attributes);
    Ok(r)
}

/// Accepts an open deal at exactly the terms its creator asked for.
///
/// The deal becomes `Executed`. Two transfers follow, in this order: the
/// deposit goes to the caller, and what the caller attached goes to the
/// creator.
pub fn try_accept_deal(
    ledger: &mut Ledger,
    now: u64,
    info: MessageInfo,
    deal_id: u64,
    denom_out: String,
    amount_out: u128,
) -> (res: Result<Response, ContractError>)
    ensures
        old(ledger).wf() ==> final(ledger).wf(),
        match res {
            Ok(r) => {
                &&& accept_refusal(old(ledger)@, now as nat, info@, deal_id as nat, denom_out@, amount_out as nat)
                    is None
                &&& final(ledger)@ == old(ledger)@.with_status(deal_id as nat, Status::Executed)
                &&& r@ == accept_response(deal_id as nat, old(ledger)@.deals[deal_id as int], info@)
            },
            Err(e) => {
                &&& accept_refusal(old(ledger)@, now as nat, info@, deal_id as nat, denom_out@, amount_out as nat)
                    == Some(e)
                &&& final(ledger)@ == old(ledger)@
            },
        },
{
    if !ledger.has(deal_id) {
        return Err(ContractError::DealNotFound {});
    }
    let deal = ledger.deal(deal_id).unwrap();
    if deal.status != Status::Open {
        return Err(ContractError::DealNotOpen {});
    }
    if deal.timeout < now {
        return Err(ContractError::DealExpired {});
    }
    if deal.denom_out != denom_out {
        return Err(ContractError::InvalidFundsDenom {});
    }
    if deal.amount_out != amount_out {
        return Err(ContractError::InvalidFundsAmount {});
    }
    match &deal.recipient {
        Some(r) => {
            if *r != info.sender {
                return Err(ContractError::Unauthorized {});
            }
        },
        None => {},
    }
    let to_acceptor = Transfer {
        to_address: info.sender,
        amount: one_coin(deal.denom_in.clone(), deal.amount_in),
    };
    let to_creator = Transfer { to_address: deal.creator.clone(), amount: info.funds };
    ledger.set_status(deal_id, Status::Executed);
    let r = deal_report("accept_deal", deal_id).add_message(to_acceptor).add_message(to_creator);
    assert(r@.messages =~= accept_response(deal_id as nat, old(ledger)@.deals[deal_id as int], info@).messages);
    Ok(r)
}

/// Calls an open deal off. Only its creator can, and only until the timeout.
///
/// The deal becomes `Cancelled`, and one transfer follows: the deposit goes
/// back to the creator.
pub fn try_cancel_deal(ledger: &mut Ledger, now: u64, info: MessageInfo, deal_id: u64) -> (res: Result<
    Response,
    ContractError,
>)
    ensures
        old(ledger).wf() ==> final(ledger).wf(),
        match res {
            Ok(r) => {
                &&& cancel_refusal(old(ledger)@, now as nat, info@, deal_id as nat) is None
                &&& final(ledger)@ == old(ledger)@.with_status(deal_id as nat, Status::Cancelled)
                &&& r@ == refund_response("cancel_deal"@, deal_id as nat, old(ledger)@.deals[deal_id as int])
            },
            Err(e) => {
                &&& cancel_refusal(old(ledger)@, now as nat, info@, deal_id as nat) == Some(e)
                &&& final(ledger)@ == old(ledger)@
            },
        },
{
    if !ledger.has(deal_id) {
        return Err(ContractError::DealNotFound {});
    }
    let deal = ledger.deal(deal_id).unwrap();
    if deal.status != Status::Open {
        return Err(ContractError::DealNotOpen {});
    }
    if deal.creator != info.sender {
        return Err(ContractError::Unauthorized {});
    }
    if deal.timeout < now {
        return Err(ContractError::DealExpired {});
    }
    let to_creator = Transfer {
        to_address: deal.creator.clone(),
        amount: one_coin(deal.denom_in.clone(), deal.amount_in),
    };
    ledger.set_status(deal_id, Status::Cancelled);
    let r = deal_report("cancel_deal", deal_id).add_message(to_creator);
    assert(r@.messages =~= refund_response("cancel_deal"@, deal_id as nat, old(ledger)@.deals[deal_id as int]).messages);
    Ok(r)
}

/// Reclaims the deposit of an open deal whose timeout has passed. Only its
/// creator can.
///
/// The deal becomes `Expired`, so that it can be neither accepted nor
/// withdrawn again, and one transfer follows: the deposit goes back to the
/// creator.
pub fn try_withdraw(ledger: &mut Ledger, now: u64, info: MessageInfo, deal_id: u64) -> (res: Result<
    Response,
    ContractError,
>)
    ensures
        old(ledger).wf() ==> final(ledger).wf(),
        match res {
            Ok(r) => {
                &&& withdraw_refusal(old(ledger)@, now as nat, info@, deal_id as nat) is None
                &&& final(ledger)@ == old(ledger)@.with_status(deal_id as nat, Status::Expired)
                &&& r@ == refund_response("withdraw"@, deal_id as nat, old(ledger)@.deals[deal_id as int])
            },
            Err(e) => {
                &&& withdraw_refusal(old(ledger)@, now as nat, info@, deal_id as nat) == Some(e)
                &&& final(ledger)@ == old(ledger)@
            },
        },
{
    if !ledger.has(deal_id) {
        return Err(ContractError::DealNotFound {});
    }
    let deal = ledger.deal(deal_id).unwrap();
    if deal.status != Status::Open {
        return Err(ContractError::DealNotOpen {});
    }
    if deal.timeout >= now {
        return Err(ContractError::DealNotExpired {});
    }
    if deal.creator != info.sender {
        return Err(ContractError::Unauthorized {});
    }
    let to_creator = Transfer {
        to_address: deal.creator.clone(),
        amount: one_coin(deal.denom_in.clone(), deal.amount_in),
    };
    ledger.set_status(deal_id, Status::Expired);
    let r = deal_report("withdraw", deal_id).add_message(to_creator);
    assert(r@.messages =~= refund_response("withdraw"@, deal_id as nat, old(ledger)@.deals[deal_id as int]).messages);
    Ok(r)
}

/// Answers one question about the ledger, which it leaves as it is.
pub fn query(ledger: &Ledger, msg: QueryMsg) -> (res: Result<QueryResponse, ContractError>)
    ensures
        answer_view(res) == query_outcome(ledger@, msg),
{
    match msg {
        QueryMsg::Config {  } => Ok(QueryResponse::Config(query_config(ledger))),
        QueryMsg::Deal { deal_id } => match query_deal(ledger, deal_id) {
            Ok(deal) => Ok(
                QueryResponse::Deal(
                    DealResponse {
                        deal_id: deal.id,
                        creator: deal.creator,
                        recipient: deal.recipient,
                        denom_in: deal.denom_in,
                        amount_in: deal.amount_in,
                        denom_out: deal.denom_out,
                        amount_out: deal.amount_out,
                        status: deal.status,
                        timeout: deal.timeout,
                    },
                ),
            ),
            Err(e) => Err(e),
        },
    }
}

/// The default timeout of the ledger.
pub fn query_config(ledger: &Ledger) -> (config: ConfigResponse)
    ensures
        config.default_timeout == ledger@.default_timeout,
{
    ConfigResponse { default_timeout: ledger.config().default_timeout }
}

/// The record of the deal `deal_id`; refused where no deal has that id.
pub fn query_deal(ledger: &Ledger, deal_id: u64) -> (res: Result<Deal, ContractError>)
    ensures
        match res {
            Ok(deal) => ledger@.has(deal_id as nat) && deal@ == ledger@.deals[deal_id as int],
            Err(e) => !ledger@.has(deal_id as nat) && e == (ContractError::DealNotFound {  }),
        },
{
    match ledger.deal(deal_id) {
        Some(deal) => Ok(deal.duplicate()),
        None => Err(ContractError::DealNotFound {}),
    }
}

} // verus!
