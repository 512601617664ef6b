//! What holds of the operations, over one call and over many.
//!
//! Each law is stated over the functions of [`crate::model`], the same ones
//! in which the operations of [`crate::contract`] state what they do.

use vstd::prelude::*;

use crate::error::ContractError;
use crate::model::{
    accept_outcome, accept_refusal, cancel_outcome, cancel_refusal, create_outcome, create_refusal,
    created_deal, deposit_refusal, escrow, execute_outcome, instantiate_refusal, instantiated_ledger,
    issued_id, issued_ids, refused, run, transfer, withdraw_outcome, withdraw_refusal, Call,
};
use crate::msg::{ExecuteMsgView, MessageInfoView};
use crate::state::{DealView, LedgerView, Status};

verus! {

/// The deal that a request is about, if it is about an existing one.
pub open spec fn target(msg: ExecuteMsgView) -> Option<nat> {
    match msg {
        ExecuteMsgView::CreateDeal { .. } => None,
        ExecuteMsgView::AcceptDeal { deal_id, .. } => Some(deal_id),
        ExecuteMsgView::CancelDeal { deal_id } => Some(deal_id),
        ExecuteMsgView::Withdraw { deal_id } => Some(deal_id),
    }
}

/// Whether `after` can come from `before` in the life of one deal: nothing
/// but the status differs, and the status differs only if the deal was open.
pub open spec fn deal_evolves(before: DealView, after: DealView) -> bool {
    &&& after == before.with_status(after.status)
    &&& before.status != Status::Open ==> after.status == before.status
}

/// A new ledger is well formed, holds no deal, and will issue the id 0 first.
pub proof fn law_new_ledger_is_empty(default_timeout: Option<nat>)
    requires
        instantiate_refusal(default_timeout) is None,
    ensures
        instantiated_ledger(default_timeout).wf(),
        instantiated_ledger(default_timeout).next_deal_id() == 0,
{
}

/// A refused operation changes nothing: the ledger, and with it the counter
/// of ids, is as before.
pub proof fn law_refusal_changes_nothing(ledger: LedgerView, now: nat, info: MessageInfoView, msg: ExecuteMsgView)
    requires
        execute_outcome(ledger, now, info, msg).result is Err,
    ensures
        execute_outcome(ledger, now, info, msg).ledger == ledger,
{
}

/// Every operation keeps the ledger well formed: ids stay `0, 1, 2, ...` in
/// the order of creation.
pub proof fn law_step_keeps_well_formed(ledger: LedgerView, now: nat, info: MessageInfoView, msg: ExecuteMsgView)
    requires
        ledger.wf(),
    ensures
        execute_outcome(ledger, now, info, msg).ledger.wf(),
{
}

/// An operation never removes a deal, and changes an existing deal in its
/// status at most, and that only if the deal was open.
pub proof fn law_step_keeps_deals(
    ledger: LedgerView,
    now: nat,
    info: MessageInfoView,
    msg: ExecuteMsgView,
    deal_id: nat,
)
    requires
        ledger.has(deal_id),
    ensures
        execute_outcome(ledger, now, info, msg).ledger.has(deal_id),
        deal_evolves(
            ledger.deals[deal_id as int],
            execute_outcome(ledger, now, info, msg).ledger.deals[deal_id as int],
        ),
        target(msg) != Some(deal_id) ==> execute_outcome(ledger, now, info, msg).ledger.deals[deal_id as int]
            == ledger.deals[deal_id as int],
{
}

/// A creation whose attached funds are not exactly the stated deposit (not
/// one coin, another denomination, or another amount) is refused, whatever
/// else it says, and leaves the ledger and its counter unchanged.
pub proof fn law_create_needs_exact_deposit(
    ledger: LedgerView,
    now: nat,
    info: MessageInfoView,
    denom_in: Seq<char>,
    amount_in: nat,
    denom_out: Seq<char>,
    amount_out: nat,
    recipient: Option<Result<Seq<char>, cosmwasm_std::StdError>>,
    timeout: Option<nat>,
)
    requires
        info.funds.len() != 1 || info.funds[0].denom != denom_in || info.funds[0].amount != amount_in,
    ensures
        create_outcome(ledger, now, info, denom_in, amount_in, denom_out, amount_out, recipient, timeout)
            == refused(ledger, deposit_refusal(info.funds, denom_in, amount_in)->0),
        deposit_refusal(info.funds, denom_in, amount_in) is Some,
        create_outcome(
            ledger,
            now,
            info,
            denom_in,
            amount_in,
            denom_out,
            amount_out,
            recipient,
            timeout,
        ).ledger.next_deal_id() == ledger.next_deal_id(),
{
}

/// A deal that is created expires strictly after its creation.
pub proof fn law_created_deal_expires_later(
    ledger: LedgerView,
    now: nat,
    info: MessageInfoView,
    denom_in: Seq<char>,
    amount_in: nat,
    denom_out: Seq<char>,
    amount_out: nat,
    recipient: Option<Result<Seq<char>, cosmwasm_std::StdError>>,
    timeout: Option<nat>,
)
    requires
        ledger.wf(),
        create_refusal(info, denom_in, amount_in, recipient, timeout) is None,
    ensures
        created_deal(ledger, now, info, denom_in, amount_in, denom_out, amount_out, recipient, timeout).timeout
            > now,
        created_deal(ledger, now, info, denom_in, amount_in, denom_out, amount_out, recipient, timeout).status
            == Status::Open,
        escrow(created_deal(ledger, now, info, denom_in, amount_in, denom_out, amount_out, recipient, timeout))
            == info.funds,
{
    let deal = created_deal(ledger, now, info, denom_in, amount_in, denom_out, amount_out, recipient, timeout);
    assert(escrow(deal) =~= info.funds);
}

/// However many calls are made, the ledger stays well formed.
pub proof fn law_run_keeps_well_formed(ledger: LedgerView, calls: Seq<Call>)
    requires
        ledger.wf(),
    ensures
        run(ledger, calls).wf(),
    decreases calls.len(),
{
    if calls.len() > 0 {
        law_run_keeps_well_formed(ledger, calls.drop_last());
        let call = calls.last();
        law_step_keeps_well_formed(run(ledger, calls.drop_last()), call.now, call.info, call.msg);
    }
}

/// The ids that a run of calls issues count up by one from the id that was
/// next when the run began, in the order of the creations that succeed, and
/// the counter ends just behind the last of them. Calls that fail, and calls
/// that create nothing, use up no id.
pub proof fn law_ids_count_up(ledger: LedgerView, calls: Seq<Call>)
    ensures
        run(ledger, calls).next_deal_id() == ledger.next_deal_id() + issued_ids(ledger, calls).len(),
        forall|k: int|
            0 <= k < issued_ids(ledger, calls).len() ==> #[trigger] issued_ids(ledger, calls)[k]
                == ledger.next_deal_id() + k,
    decreases calls.len(),
{
    if calls.len() > 0 {
        law_ids_count_up(ledger, calls.drop_last());
        let before = run(ledger, calls.drop_last());
        let call = calls.last();
        let after = execute_outcome(before, call.now, call.info, call.msg);
        if issued_id(before, call) is Some {
            assert(after.ledger.deals.last().id == before.next_deal_id());
        }
    }
}

/// On a new ledger, the creations that succeed get the ids `0, 1, 2, ...`
/// in call order.
pub proof fn law_ids_start_at_zero(default_timeout: Option<nat>, calls: Seq<Call>)
    ensures
        forall|k: int|
            0 <= k < issued_ids(instantiated_ledger(default_timeout), calls).len() ==> #[trigger] issued_ids(
                instantiated_ledger(default_timeout),
                calls,
            )[k] == k,
{
    law_ids_count_up(instantiated_ledger(default_timeout), calls);
}

/// An acceptance goes through only on the exact terms that the deal records:
/// with another denomination, or with an amount that is greater or smaller,
/// it is refused and changes nothing. Where nothing else is wrong, the error
/// names the denomination if that differs, and the amount otherwise.
pub proof fn law_accept_needs_exact_terms(
    ledger: LedgerView,
    now: nat,
    info: MessageInfoView,
    deal_id: nat,
    denom_out: Seq<char>,
    amount_out: nat,
)
    ensures
        accept_outcome(ledger, now, info, deal_id, denom_out, amount_out).result is Ok ==> {
            &&& ledger.has(deal_id)
            &&& denom_out == ledger.deals[deal_id as int].denom_out
            &&& amount_out == ledger.deals[deal_id as int].amount_out
        },
        accept_outcome(ledger, now, info, deal_id, denom_out, amount_out).result is Err ==> accept_outcome(
            ledger,
            now,
            info,
            deal_id,
            denom_out,
            amount_out,
        ).ledger == ledger,
        ({
            &&& ledger.has(deal_id)
            &&& ledger.deals[deal_id as int].status == Status::Open
            &&& now <= ledger.deals[deal_id as int].timeout
            &&& denom_out != ledger.deals[deal_id as int].denom_out
        }) ==> accept_outcome(ledger, now, info, deal_id, denom_out, amount_out) == refused(
            ledger,
            ContractError::InvalidFundsDenom {  },
        ),
        ({
            &&& ledger.has(deal_id)
            &&& ledger.deals[deal_id as int].status == Status::Open
            &&& now <= ledger.deals[deal_id as int].timeout
            &&& denom_out == ledger.deals[deal_id as int].denom_out
            &&& amount_out != ledger.deals[deal_id as int].amount_out
        }) ==> accept_outcome(ledger, now, info, deal_id, denom_out, amount_out) == refused(
            ledger,
            ContractError::InvalidFundsAmount {  },
        ),
{
}

/// Where a deal names a recipient, nobody else can accept it: an acceptance
/// by another identity never goes through, and one that fails for no other
/// reason fails as unauthorized.
pub proof fn law_only_recipient_accepts(
    ledger: LedgerView,
    now: nat,
    info: MessageInfoView,
    deal_id: nat,
    denom_out: Seq<char>,
    amount_out: nat,
    recipient: Seq<char>,
)
    requires
        ledger.has(deal_id),
        ledger.deals[deal_id as int].recipient == Some(recipient),
        info.sender != recipient,
    ensures
        accept_outcome(ledger, now, info, deal_id, denom_out, amount_out).result is Err,
        accept_outcome(ledger, now, info, deal_id, denom_out, amount_out).ledger == ledger,
        ({
            let deal = ledger.deals[deal_id as int];
            deal.status == Status::Open && now <= deal.timeout && denom_out == deal.denom_out && amount_out
                == deal.amount_out
        }) ==> accept_outcome(ledger, now, info, deal_id, denom_out, amount_out) == refused(
            ledger,
            ContractError::Unauthorized {  },
        ),
{
}

/// An open deal can be accepted at every second up to and including its
/// timeout: an acceptance on the recorded terms, by a caller whom the deal
/// admits, goes through then. At every second after the timeout every
/// acceptance of it is refused as expired.
pub proof fn law_accept_until_timeout(
    ledger: LedgerView,
    now: nat,
    info: MessageInfoView,
    deal_id: nat,
    denom_out: Seq<char>,
    amount_out: nat,
)
    requires
        ledger.has(deal_id),
        ledger.deals[deal_id as int].status == Status::Open,
    ensures
        ({
            &&& now <= ledger.deals[deal_id as int].timeout
            &&& denom_out == ledger.deals[deal_id as int].denom_out
            &&& amount_out == ledger.deals[deal_id as int].amount_out
            &&& (ledger.deals[deal_id as int].recipient is None || ledger.deals[deal_id as int].recipient
                == Some(info.sender))
        }) ==> {
            &&& accept_outcome(ledger, now, info, deal_id, denom_out, amount_out).result is Ok
            &&& accept_outcome(ledger, now, info, deal_id, denom_out, amount_out).ledger == ledger.with_status(
                deal_id,
                Status::Executed,
            )
        },
        now > ledger.deals[deal_id as int].timeout ==> accept_outcome(
            ledger,
            now,
            info,
            deal_id,
            denom_out,
            amount_out,
        ) == refused(ledger, ContractError::DealExpired {  }),
{
}

/// A cancellation of an open deal by its creator goes through at every
/// second up to and including the timeout, and is refused as expired at
/// every second after it.
pub proof fn law_cancel_until_timeout(ledger: LedgerView, now: nat, info: MessageInfoView, deal_id: nat)
    requires
        ledger.has(deal_id),
        ledger.deals[deal_id as int].status == Status::Open,
        ledger.deals[deal_id as int].creator == info.sender,
    ensures
        now <= ledger.deals[deal_id as int].timeout ==> {
            &&& cancel_outcome(ledger, now, info, deal_id).result is Ok
            &&& cancel_outcome(ledger, now, info, deal_id).ledger == ledger.with_status(
                deal_id,
                Status::Cancelled,
            )
        },
        now > ledger.deals[deal_id as int].timeout ==> cancel_outcome(ledger, now, info, deal_id) == refused(
            ledger,
            ContractError::DealExpired {  },
        ),
{
}

/// A withdrawal of an open deal by its creator is refused as not yet expired
/// at every second up to and including the timeout, and goes through at
/// every second after it. So at no second can a deal be both withdrawn and
/// accepted, or both withdrawn and cancelled.
pub proof fn law_withdraw_after_timeout(
    ledger: LedgerView,
    now: nat,
    info: MessageInfoView,
    other: MessageInfoView,
    deal_id: nat,
    denom_out: Seq<char>,
    amount_out: nat,
)
    requires
        ledger.has(deal_id),
        ledger.deals[deal_id as int].status == Status::Open,
        ledger.deals[deal_id as int].creator == info.sender,
    ensures
        now <= ledger.deals[deal_id as int].timeout ==> withdraw_outcome(ledger, now, info, deal_id) == refused(
            ledger,
            ContractError::DealNotExpired {  },
        ),
        now > ledger.deals[deal_id as int].timeout ==> {
            &&& withdraw_outcome(ledger, now, info, deal_id).result is Ok
            &&& withdraw_outcome(ledger, now, info, deal_id).ledger == ledger.with_status(
                deal_id,
                Status::Expired,
            )
        },
        withdraw_outcome(ledger, now, info, deal_id).result is Ok ==> {
            &&& accept_outcome(ledger, now, other, deal_id, denom_out, amount_out).result is Err
            &&& cancel_outcome(ledger, now, other, deal_id).result is Err
        },
{
}

/// Once a deal has left the open state, every acceptance, cancellation and
/// withdrawal of it is refused as not open, whoever calls and whenever, and
/// changes nothing.
pub proof fn law_final_deal_refuses(
    ledger: LedgerView,
    now: nat,
    info: MessageInfoView,
    deal_id: nat,
    denom_out: Seq<char>,
    amount_out: nat,
)
    requires
        ledger.has(deal_id),
        ledger.deals[deal_id as int].status != Status::Open,
    ensures
        accept_outcome(ledger, now, info, deal_id, denom_out, amount_out) == refused(
            ledger,
            ContractError::DealNotOpen {  },
        ),
        cancel_outcome(ledger, now, info, deal_id) == refused(ledger, ContractError::DealNotOpen {  }),
        withdraw_outcome(ledger, now, info, deal_id) == refused(ledger, ContractError::DealNotOpen {  }),
{
}

/// An operation on a deal that goes through finds the deal open, leaves it
/// in a final state, and releases its deposit in its first transfer: to the
/// caller of an acceptance, to the creator otherwise. A creation releases
/// nothing. With [`law_final_deal_refuses`], no deposit is released twice.
pub proof fn law_deposit_released_on_leaving_open(
    ledger: LedgerView,
    now: nat,
    info: MessageInfoView,
    msg: ExecuteMsgView,
)
    requires
        execute_outcome(ledger, now, info, msg).result is Ok,
    ensures
        msg is CreateDeal ==> execute_outcome(ledger, now, info, msg).result->Ok_0.messages.len() == 0,
        target(msg) matches Some(deal_id) ==> {
            &&& ledger.has(deal_id)
            &&& ledger.deals[deal_id as int].status == Status::Open
            &&& execute_outcome(ledger, now, info, msg).ledger.deals[deal_id as int].status != Status::Open
            &&& execute_outcome(ledger, now, info, msg).result->Ok_0.messages[0] == transfer(
                if msg is AcceptDeal {
                    info.sender
                } else {
                    ledger.deals[deal_id as int].creator
                },
                escrow(ledger.deals[deal_id as int]),
            )
        },
{
}

/// Whatever calls follow, a deal stays on the ledger with the terms it was
/// created with; only its status can change, and once that is final it
/// stays as it is.
pub proof fn law_run_keeps_deals(ledger: LedgerView, calls: Seq<Call>, deal_id: nat)
    requires
        ledger.has(deal_id),
    ensures
        run(ledger, calls).has(deal_id),
        deal_evolves(ledger.deals[deal_id as int], run(ledger, calls).deals[deal_id as int]),
    decreases calls.len(),
{
    if calls.len() > 0 {
        law_run_keeps_deals(ledger, calls.drop_last(), deal_id);
        let call = calls.last();
        law_step_keeps_deals(run(ledger, calls.drop_last()), call.now, call.info, call.msg, deal_id);
    }
}

} // verus!
