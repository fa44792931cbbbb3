//! The executable ticket ledger.
//!
//! `TicketManager` holds one ledger instance as an explicit in-memory
//! store.  Its operations are verified against the state machine in
//! `crate::model`: every result and every state change is exactly the
//! one `init_step` / `buy_step` prescribes.  The host environment is
//! expected to serialize invocations, to check the buyer's signature
//! (handed in as `buyer_authorized`) and to supply the clock (`now`).

use vstd::prelude::*;

use crate::model::{next_price, ConfigView, LedgerState, TicketView};

verus! {

/// An opaque principal reference: organizer or buyer.
#[derive(Clone, Copy, PartialEq, Eq, Structural, Debug, Hash)]
pub struct Address {
    pub id: u64,
}

/// The error kinds; each invocation aborts on its first violated
/// precondition and commits nothing.
#[derive(Clone, Copy, PartialEq, Eq, Structural, Debug)]
pub enum Error {
    AlreadyInitialized,
    NotInitialized,
    Unauthorized,
    SaleEnded,
    SoldOut,
    TicketNotFound,
}

/// The key space of the persistent store, as a closed sum type.
#[derive(Clone, Copy, PartialEq, Eq, Structural, Debug)]
pub enum DataKey {
    /// The write-once event configuration.
    Config,
    /// The remaining-supply counter.
    TicketLeft,
    /// The id the next ticket will receive.
    LastTicketId,
    /// The price the next purchase will be charged.
    CurrentPrice,
    /// Ticket id -> owner.
    TicketOwner(u32),
    /// Ticket id -> full ticket record.
    TicketData(u32),
}

/// The write-once event configuration.
#[derive(Clone, Debug)]
pub struct Config {
    pub organizer: Address,
    pub base_price: u32,
    pub sale_end: u64,
    pub ticket_count: u32,
    pub event_name: String,
}

/// One sold ticket.
#[derive(Clone, Debug)]
pub struct Ticket {
    pub id: u32,
    pub owner: Address,
    pub purchase_time: u64,
    pub purchase_price: u32,
    pub event_name: String,
}

impl View for Config {
    type V = ConfigView;

    open spec fn view(&self) -> ConfigView {
        ConfigView {
            organizer: self.organizer,
            base_price: self.base_price as int,
            sale_end: self.sale_end as int,
            ticket_count: self.ticket_count as int,
            event_name: self.event_name@,
        }
    }
}

impl View for Ticket {
    type V = TicketView;

    open spec fn view(&self) -> TicketView {
        TicketView {
            id: self.id as int,
            owner: self.owner,
            purchase_time: self.purchase_time as int,
            purchase_price: self.purchase_price as int,
            event_name: self.event_name@,
        }
    }
}

/// One ledger instance.  The fields are the entries of the persistent
/// store; the ticket stored at index `i` of `tickets` is the one the
/// keys `TicketOwner(i)` and `TicketData(i)` map to.
pub struct TicketManager {
    config: Option<Config>,
    ticket_left: u32,
    last_ticket_id: u32,
    current_price: u32,
    tickets: Vec<Ticket>,
}

impl View for TicketManager {
    type V = LedgerState;

    closed spec fn view(&self) -> LedgerState {
        LedgerState {
            config: match self.config {
                Some(c) => Some(c@),
                None => None,
            },
            ticket_left: self.ticket_left as int,
            last_ticket_id: self.last_ticket_id as int,
            current_price: self.current_price as int,
            tickets: self.tickets@.map_values(|t: Ticket| t@),
        }
    }
}

impl TicketManager {
    /// A fresh, uninitialized ledger instance.
    pub fn new() -> (r: TicketManager)
        ensures
            r@ == LedgerState::empty(),
            r@.wf(),
    {
        let manager = TicketManager {
            config: None,
            ticket_left: 0,
            last_ticket_id: 0,
            current_price: 0,
            tickets: Vec::new(),
        };
        proof {
            assert(manager@.tickets =~= Seq::<TicketView>::empty());
            assert(manager@ =~= LedgerState::empty());
        }
        manager
    }

    /// Configures the event and starts the counters.  Fails with
    /// `AlreadyInitialized` — and changes nothing — once a configuration
    /// exists.  `2 * base_price` must fit the `u32` the price is stored
    /// in, since the current price may climb up to that cap.
    pub fn init(
        &mut self,
        organizer: Address,
        base_price: u32,
        event_name: String,
        sale_end: u64,
        ticket_count: u32,
    ) -> (r: Result<(), Error>)
        requires
            old(self)@.wf(),
            2 * base_price <= u32::MAX,
        ensures
            final(self)@.wf(),
            ({
                let (state, res) = old(self)@.init_step(
                    organizer,
                    base_price as int,
                    event_name@,
                    sale_end as int,
                    ticket_count as int,
                );
                final(self)@ == state && r == res
            }),
            old(self)@.initialized() ==> r == Err::<(), Error>(Error::AlreadyInitialized)
                && *final(self) == *old(self),
            !old(self)@.initialized() ==> r == Ok::<(), Error>(()),
    {
        if self.config.is_some() {
            return Err(Error::AlreadyInitialized);
        }
        let config = Config { organizer, base_price, sale_end, ticket_count, event_name };
        self.config = Some(config);
        self.ticket_left = ticket_count;
        self.last_ticket_id = 0;
        self.current_price = base_price;
        proof {
            let (state, _) = old(self)@.init_step(
                organizer,
                base_price as int,
                event_name@,
                sale_end as int,
                ticket_count as int,
            );
            assert(self@.tickets =~= state.tickets);
            assert(self@ =~= state);
        }
        Ok(())
    }

    /// Sells one ticket to `buyer`.  The preconditions are checked in
    /// this order: caller authorization, initialization, sale deadline
    /// (a purchase at exactly `sale_end` still succeeds), remaining
    /// supply.  On success the buyer is charged the current price, the
    /// ticket receives the next id, the supply counter goes down by one
    /// and the price is raised by 2% (truncating), clamped to twice the
    /// base price.  On failure nothing changes.
    pub fn buy_ticket(&mut self, buyer: Address, buyer_authorized: bool, now: u64) -> (r: Result<
        Ticket,
        Error,
    >)
        requires
            old(self)@.wf(),
        ensures
            final(self)@.wf(),
            ({
                let (state, res) = old(self)@.buy_step(buyer, buyer_authorized, now as int);
                &&& final(self)@ == state
                &&& match r {
                    Ok(t) => res matches Ok(tv) && t@ == tv,
                    Err(e) => res == Err::<TicketView, Error>(e),
                }
            }),
            r is Err ==> *final(self) == *old(self),
            !buyer_authorized ==> r == Err::<Ticket, Error>(Error::Unauthorized),
            buyer_authorized && !old(self)@.initialized() ==> r == Err::<Ticket, Error>(
                Error::NotInitialized,
            ),
            buyer_authorized && old(self)@.initialized() && now > old(self)@.conf().sale_end
                ==> r == Err::<Ticket, Error>(Error::SaleEnded),
            buyer_authorized && old(self)@.initialized() && now <= old(self)@.conf().sale_end
                && old(self)@.ticket_left == 0 ==> r == Err::<Ticket, Error>(Error::SoldOut),
            buyer_authorized && old(self)@.initialized() && now <= old(self)@.conf().sale_end
                && old(self)@.ticket_left > 0 ==> (r matches Ok(t) && {
                &&& t@.id == old(self)@.last_ticket_id
                &&& t@.owner == buyer
                &&& t@.purchase_time == now as int
                &&& t@.purchase_price == old(self)@.current_price
                &&& t@.event_name == old(self)@.conf().event_name
                &&& final(self)@.ticket_left == old(self)@.ticket_left - 1
                &&& final(self)@.last_ticket_id == old(self)@.last_ticket_id + 1
                &&& final(self)@.current_price == next_price(
                    old(self)@.current_price,
                    old(self)@.conf().base_price,
                )
                &&& final(self)@.tickets == old(self)@.tickets.push(t@)
                &&& final(self)@.config == old(self)@.config
            }),
    {
        if !buyer_authorized {
            return Err(Error::Unauthorized);
        }
        let (base_price, sale_end, event_name) = match &self.config {
            None => {
                return Err(Error::NotInitialized);
            },
            Some(c) => (c.base_price, c.sale_end, c.event_name.clone()),
        };
        if now > sale_end {
            return Err(Error::SaleEnded);
        }
        if self.ticket_left == 0 {
            return Err(Error::SoldOut);
        }
        let price: u32 = self.current_price;
        let id: u32 = self.last_ticket_id;
        let name_kept: String = event_name.clone();
        let ticket = Ticket {
            id,
            owner: buyer,
            purchase_time: now,
            purchase_price: price,
            event_name: event_name,
        };
        self.tickets.push(ticket);
        self.last_ticket_id = id + 1;
        self.ticket_left = self.ticket_left - 1;
        let raised: u64 = (price as u64) * 102 / 100;
        let cap: u64 = (base_price as u64) * 2;
        let clamped: u64 = if raised > cap {
            cap
        } else {
            raised
        };
        self.current_price = clamped as u32;
        let sold = Ticket {
            id,
            owner: buyer,
            purchase_time: now,
            purchase_price: price,
            event_name: name_kept,
        };
        proof {
            crate::laws::lemma_buy_step(old(self)@, buyer, buyer_authorized, now as int);
            let (state, _) = old(self)@.buy_step(buyer, buyer_authorized, now as int);
            assert(self@.tickets =~= state.tickets);
            assert(self@ =~= state);
        }
        Ok(sold)
    }

    /// Returns `TicketsRemaining`: the initial supply minus the tickets
    /// sold, and `0` on a ledger that was never initialized.
    pub fn get_ticket_left(&self) -> (r: u32)
        ensures
            r == self@.ticket_left,
            !self@.initialized() && self@.wf() ==> r == 0,
    {
        self.ticket_left
    }

    /// Returns `CurrentPrice`: the price the next purchase would be
    /// charged, and `0` on a ledger that was never initialized.
    pub fn get_last_current_price(&self) -> (r: u32)
        ensures
            r == self@.current_price,
            !self@.initialized() && self@.wf() ==> r == 0,
    {
        self.current_price
    }

    /// Returns the owner of ticket `ticket_id`, and `TicketNotFound` if
    /// no ticket with that id was ever sold.
    pub fn get_ticket_owner(&self, ticket_id: u32) -> (r: Result<Address, Error>)
        requires
            self@.wf(),
        ensures
            ticket_id < self@.last_ticket_id ==> r == Ok::<Address, Error>(
                self@.tickets[ticket_id as int].owner,
            ),
            ticket_id >= self@.last_ticket_id ==> r == Err::<Address, Error>(Error::TicketNotFound),
    {
        proof {
            assert(self@.tickets.len() == self.tickets@.len());
        }
        if (ticket_id as usize) < self.tickets.len() {
            Ok(self.tickets[ticket_id as usize].owner)
        } else {
            Err(Error::TicketNotFound)
        }
    }

    /// Whether the store holds an entry under `key`: mirrors the
    /// `has` operation of the underlying key-value store.
    pub fn has(&self, key: DataKey) -> (r: bool)
        requires
            self@.wf(),
        ensures
            r == self@.key_present(key),
    {
        proof {
            assert(self@.tickets.len() == self.tickets@.len());
        }
        match key {
            DataKey::Config => self.config.is_some(),
            DataKey::TicketLeft => self.config.is_some(),
            DataKey::LastTicketId => self.config.is_some(),
            DataKey::CurrentPrice => self.config.is_some(),
            DataKey::TicketOwner(id) => (id as usize) < self.tickets.len(),
            DataKey::TicketData(id) => (id as usize) < self.tickets.len(),
        }
    }
}

} // verus!
