//! Mathematical model of the ticket ledger.
//!
//! `LedgerState` is the abstract value of one ledger instance: the
//! write-once event configuration, the three counters and the sequence of
//! tickets sold so far.  `init_step` and `buy_step` are the two state
//! transitions; the executable operations in `crate::ledger` are proved
//! to follow them exactly.

use vstd::prelude::*;

use crate::ledger::{Address, DataKey, Error};

verus! {

/// Abstract value of the event configuration (`EventConfig`).
#[verifier::ext_equal]
pub ghost struct ConfigView {
    pub organizer: Address,
    pub base_price: int,
    pub sale_end: int,
    pub ticket_count: int,
    pub event_name: Seq<char>,
}

/// Abstract value of one sold ticket.
#[verifier::ext_equal]
pub ghost struct TicketView {
    pub id: int,
    pub owner: Address,
    pub purchase_time: int,
    pub purchase_price: int,
    pub event_name: Seq<char>,
}

/// Abstract value of a whole ledger instance.
#[verifier::ext_equal]
pub ghost struct LedgerState {
    /// `None` until `init` has succeeded; immutable afterwards.
    pub config: Option<ConfigView>,
    /// `TicketsRemaining`: decreases by one per successful purchase.
    pub ticket_left: int,
    /// `LastTicketId`: the id the next ticket will receive.
    pub last_ticket_id: int,
    /// `CurrentPrice`: the price the next purchase will be charged.
    pub current_price: int,
    /// The tickets sold so far, in order of sale; ticket `i` has id `i`.
    pub tickets: Seq<TicketView>,
}

/// The price after one sale at `price`: a 2% increase with integer
/// truncation, clamped to twice the base price.
pub open spec fn next_price(price: int, base_price: int) -> int {
    let raised = price * 102 / 100;
    let cap = 2 * base_price;
    if raised > cap {
        cap
    } else {
        raised
    }
}

impl TicketView {
    /// Well-formedness of the ticket stored at position `i` under
    /// configuration `c`.
    pub open spec fn wf_at(self, c: ConfigView, i: int) -> bool {
        &&& self.id == i
        &&& self.event_name == c.event_name
        &&& c.base_price <= self.purchase_price <= 2 * c.base_price
        &&& self.purchase_time <= c.sale_end
    }
}

impl LedgerState {
    /// The state of a ledger on which `init` has never succeeded.
    pub open spec fn empty() -> LedgerState {
        LedgerState {
            config: None,
            ticket_left: 0,
            last_ticket_id: 0,
            current_price: 0,
            tickets: Seq::empty(),
        }
    }

    pub open spec fn initialized(self) -> bool {
        self.config is Some
    }

    /// The configuration; meaningful only when `initialized()`.
    pub open spec fn conf(self) -> ConfigView
        recommends
            self.initialized(),
    {
        self.config->Some_0
    }

    /// Instance invariant: established by construction and by `init`,
    /// preserved by every purchase.
    pub open spec fn wf(self) -> bool {
        match self.config {
            None => self == LedgerState::empty(),
            Some(c) => {
                &&& 0 <= c.base_price
                &&& 2 * c.base_price <= u32::MAX
                &&& 0 <= c.ticket_count <= u32::MAX
                &&& 0 <= c.sale_end <= u64::MAX
                &&& 0 <= self.ticket_left
                &&& 0 <= self.last_ticket_id
                &&& self.last_ticket_id + self.ticket_left == c.ticket_count
                &&& self.tickets.len() == self.last_ticket_id
                &&& c.base_price <= self.current_price <= 2 * c.base_price
                &&& forall|i: int|
                    0 <= i < self.tickets.len() ==> (#[trigger] self.tickets[i]).wf_at(c, i)
            },
        }
    }

    /// Which store entries exist in this state: the configuration and
    /// the counters exist exactly from initialization on, and the two
    /// per-ticket entries exist exactly for the ids sold so far.
    pub open spec fn key_present(self, key: DataKey) -> bool {
        match key {
            DataKey::Config => self.initialized(),
            DataKey::TicketLeft => self.initialized(),
            DataKey::LastTicketId => self.initialized(),
            DataKey::CurrentPrice => self.initialized(),
            DataKey::TicketOwner(id) => id < self.last_ticket_id,
            DataKey::TicketData(id) => id < self.last_ticket_id,
        }
    }

    /// The `init` transition: rejected once a configuration exists,
    /// otherwise it stores the configuration and starts the counters.
    pub open spec fn init_step(
        self,
        organizer: Address,
        base_price: int,
        event_name: Seq<char>,
        sale_end: int,
        ticket_count: int,
    ) -> (LedgerState, Result<(), Error>) {
        if self.initialized() {
            (self, Err(Error::AlreadyInitialized))
        } else {
            let state = LedgerState {
                config: Some(
                    ConfigView { organizer, base_price, sale_end, ticket_count, event_name },
                ),
                ticket_left: ticket_count,
                last_ticket_id: 0,
                current_price: base_price,
                tickets: Seq::empty(),
            };
            (state, Ok(()))
        }
    }

    /// The `buy_ticket` transition.  The preconditions are checked in
    /// this order: caller authorization, initialization, sale deadline
    /// (inclusive), remaining supply.  On success the ticket is charged
    /// the current price, receives the next id, and the counters move.
    pub open spec fn buy_step(self, buyer: Address, authorized: bool, now: int) -> (
        LedgerState,
        Result<TicketView, Error>,
    ) {
        if !authorized {
            (self, Err(Error::Unauthorized))
        } else if !self.initialized() {
            (self, Err(Error::NotInitialized))
        } else if now > self.conf().sale_end {
            (self, Err(Error::SaleEnded))
        } else if self.ticket_left == 0 {
            (self, Err(Error::SoldOut))
        } else {
            let ticket = TicketView {
                id: self.last_ticket_id,
                owner: buyer,
                purchase_time: now,
                purchase_price: self.current_price,
                event_name: self.conf().event_name,
            };
            let state = LedgerState {
                config: self.config,
                ticket_left: self.ticket_left - 1,
                last_ticket_id: self.last_ticket_id + 1,
                current_price: next_price(self.current_price, self.conf().base_price),
                tickets: self.tickets.push(ticket),
            };
            (state, Ok(ticket))
        }
    }
}

} // verus!
