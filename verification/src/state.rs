//! The deal records and the ledger that owns them.

use vstd::prelude::*;

verus! {

/// Where a deal stands. `Open` is the only state a deal starts in and the
/// only one it can leave; the other three are final.
#[derive(Clone, Copy, Debug, PartialEq, Eq, Structural)]
pub enum Status {
    /// Created and waiting: the deposit is in custody.
    Open,
    /// Accepted: the deposit went to the acceptor.
    Executed,
    /// Withdrawn by its creator after the timeout.
    Expired,
    /// Called off by its creator before the timeout.
    Cancelled,
}

/// One proposed or settled exchange, written from the creator's side:
/// `in` is what the creator deposited, `out` is what the creator asks for.
#[derive(Clone, Debug, PartialEq, Eq)]
pub struct Deal {
    /// The sequence number of the deal.
    pub id: u64,
    /// Who deposited, and who may cancel and withdraw.
    pub creator: String,
    /// The only identity that may accept, if there is one.
    pub recipient: Option<String>,
    pub denom_in: String,
    pub amount_in: u128,
    pub denom_out: String,
    pub amount_out: u128,
    pub status: Status,
    /// The last second at which the deal can be accepted or cancelled.
    pub timeout: u64,
}

/// What a [`Deal`] is.
pub struct DealView {
    pub id: nat,
    pub creator: Seq<char>,
    pub recipient: Option<Seq<char>>,
    pub denom_in: Seq<char>,
    pub amount_in: nat,
    pub denom_out: Seq<char>,
    pub amount_out: nat,
    pub status: Status,
    pub timeout: nat,
}

/// The characters of an identity that may be absent.
pub open spec fn identity_view(who: Option<String>) -> Option<Seq<char>> {
    match who {
        Some(w) => Some(w@),
        None => None,
    }
}

impl View for Deal {
    type V = DealView;

    open spec fn view(&self) -> DealView {
        DealView {
            id: self.id as nat,
            creator: self.creator@,
            recipient: identity_view(self.recipient),
            denom_in: self.denom_in@,
            amount_in: self.amount_in as nat,
            denom_out: self.denom_out@,
            amount_out: self.amount_out as nat,
            status: self.status,
            timeout: self.timeout as nat,
        }
    }
}

impl DealView {
    /// The same deal in another state.
    pub open spec fn with_status(self, status: Status) -> DealView {
        DealView { status, ..self }
    }
}

impl Deal {
    /// A copy of the record.
    pub fn duplicate(&self) -> (d: Deal)
        ensures
            d@ == self@,
    {
        Deal {
            id: self.id,
            creator: self.creator.clone(),
            recipient: match &self.recipient {
                Some(r) => Some(r.clone()),
                None => None,
            },
            denom_in: self.denom_in.clone(),
            amount_in: self.amount_in,
            denom_out: self.denom_out.clone(),
            amount_out: self.amount_out,
            status: self.status,
            timeout: self.timeout,
        }
    }
}

/// The one parameter of a ledger.
#[derive(Clone, Copy, Debug, PartialEq, Eq)]
pub struct Config {
    /// The relative timeout, in seconds, of deals that name none.
    pub default_timeout: u64,
}

/// What a [`Ledger`] is: its default timeout and every deal ever created,
/// in the order of creation. The number of deals is the id that the next
/// deal will get.
pub struct LedgerView {
    pub default_timeout: nat,
    pub deals: Seq<DealView>,
}

impl LedgerView {
    /// What holds of every ledger: the default timeout is positive, and the
    /// deal at each position has that position as its id, so ids are
    /// `0, 1, 2, ...` without gap or repetition.
    pub open spec fn wf(self) -> bool {
        &&& self.default_timeout > 0
        &&& forall|i: int| 0 <= i < self.deals.len() ==> (#[trigger] self.deals[i]).id == i
    }

    /// The id that the next deal will get.
    pub open spec fn next_deal_id(self) -> nat {
        self.deals.len()
    }

    /// Whether a deal has this id.
    pub open spec fn has(self, deal_id: nat) -> bool {
        deal_id < self.deals.len()
    }

    /// The ledger with one more deal at its end.
    pub open spec fn with_deal(self, deal: DealView) -> LedgerView {
        LedgerView { deals: self.deals.push(deal), ..self }
    }

    /// The ledger with the deal `deal_id` moved to `status`.
    pub open spec fn with_status(self, deal_id: nat, status: Status) -> LedgerView
        recommends
            self.has(deal_id),
    {
        LedgerView {
            deals: self.deals.update(deal_id as int, self.deals[deal_id as int].with_status(status)),
            ..self
        }
    }
}

/// The configuration, the counter of ids and the deals, kept together so that
/// a deal and its id are always recorded in one step.
///
/// Only the operations of this crate change a ledger, so a deal, once
/// recorded, changes in nothing but its status.
#[derive(Clone, Debug, PartialEq, Eq)]
pub struct Ledger {
    config: Config,
    deals: Vec<Deal>,
}

impl View for Ledger {
    type V = LedgerView;

    closed spec fn view(&self) -> LedgerView {
        LedgerView {
            default_timeout: self.config.default_timeout as nat,
            deals: self.deals@.map_values(|d: Deal| d@),
        }
    }
}

impl Ledger {
    /// Whether the ledger is one that the operations can have produced.
    pub open spec fn wf(&self) -> bool {
        self@.wf()
    }

    /// An empty ledger with the given default timeout.
    pub(crate) fn new(config: Config) -> (ledger: Ledger)
        requires
            config.default_timeout > 0,
        ensures
            ledger.wf(),
            ledger@.default_timeout == config.default_timeout,
            ledger@.deals == Seq::<DealView>::empty(),
    {
        let ledger = Ledger { config, deals: Vec::new() };
        assert(ledger@.deals =~= Seq::<DealView>::empty());
        ledger
    }

    /// Rebuilds a ledger from what a store holds: the configuration and the
    /// deals in the order of their ids. Returns `None` where these cannot be
    /// the contents of a ledger.
    pub fn restore(config: Config, deals: Vec<Deal>) -> (ledger: Option<Ledger>)
        ensures
            ledger is Some <==> (LedgerView {
                default_timeout: config.default_timeout as nat,
                deals: deals@.map_values(|d: Deal| d@),
            }).wf(),
            ledger matches Some(l) ==> l.wf() && l@.default_timeout == config.default_timeout
                && l@.deals == deals@.map_values(|d: Deal| d@),
    {
        let ghost target = LedgerView {
            default_timeout: config.default_timeout as nat,
            deals: deals@.map_values(|d: Deal| d@),
        };
        if config.default_timeout == 0 {
            return None;
        }
        let mut i: usize = 0;
        while i < deals.len()
            invariant
                i <= deals.len(),
                target.deals == deals@.map_values(|d: Deal| d@),
                forall|j: int| 0 <= j < i ==> (#[trigger] target.deals[j]).id == j,
            decreases deals.len() - i,
        {
            if deals[i].id != i as u64 {
                assert(target.deals[i as int].id != i);
                return None;
            }
            i = i + 1;
        }
        Some(Ledger { config, deals })
    }

    /// The configuration.
    pub fn config(&self) -> (config: Config)
        ensures
            config.default_timeout == self@.default_timeout,
    {
        self.config
    }

    /// The id that the next deal will get: the number of deals created so far.
    pub fn next_deal_id(&self) -> (id: u64)
        ensures
            id == self@.next_deal_id(),
    {
        self.deals.len() as u64
    }

    /// Whether a deal has this id.
    pub fn has(&self, deal_id: u64) -> (found: bool)
        ensures
            found == self@.has(deal_id as nat),
    {
        deal_id < self.deals.len() as u64
    }

    /// The record of the deal `deal_id`, if there is one.
    pub fn deal(&self, deal_id: u64) -> (deal: Option<&Deal>)
        ensures
            deal is Some <==> self@.has(deal_id as nat),
            deal matches Some(d) ==> d@ == self@.deals[deal_id as int],
    {
        if deal_id < self.deals.len() as u64 {
            Some(&self.deals[deal_id as usize])
        } else {
            None
        }
    }

    /// Records a new deal under the next id.
    pub(crate) fn save_new(&mut self, deal: Deal)
        requires
            deal.id == old(self)@.next_deal_id(),
        ensures
            final(self)@ == old(self)@.with_deal(deal@),
    {
        self.deals.push(deal);
        assert(self@.deals =~= old(self)@.deals.push(deal@));
    }

    /// Moves the deal `deal_id` to `status`.
    pub(crate) fn set_status(&mut self, deal_id: u64, status: Status)
        requires
            old(self)@.has(deal_id as nat),
        ensures
            final(self)@ == old(self)@.with_status(deal_id as nat, status),
    {
        assert(deal_id < old(self).deals.len());
        let i: usize = deal_id as usize;
        self.deals[i].status = status;
        assert(self@.deals =~= old(self)@.deals.update(
            deal_id as int,
            old(self)@.deals[deal_id as int].with_status(status),
        ));
    }
}

} // verus!
