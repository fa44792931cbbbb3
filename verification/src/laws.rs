//! The laws of the ledger: what holds of every state and of every
//! sequence of invocations, proved over the model in `crate::model`.

use vstd::prelude::*;

use vstd::arithmetic::div_mod::{lemma_div_is_ordered, lemma_div_multiples_vanish};

use crate::ledger::{Address, Error};
use crate::model::{next_price, LedgerState, TicketView};

verus! {

/// One purchase invocation as the host hands it to the ledger: the
/// buyer, whether the buyer's signature checked out, and the clock.
pub ghost struct PurchaseRequest {
    pub buyer: Address,
    pub authorized: bool,
    pub now: int,
}

/// The state after a whole sequence of purchase invocations.
pub open spec fn run_purchases(s: LedgerState, reqs: Seq<PurchaseRequest>) -> LedgerState
    decreases reqs.len(),
{
    if reqs.len() == 0 {
        s
    } else {
        run_purchases(
            s.buy_step(reqs[0].buyer, reqs[0].authorized, reqs[0].now).0,
            reqs.drop_first(),
        )
    }
}

/// How many of the purchase invocations in `reqs` succeed, run from `s`.
pub open spec fn success_count(s: LedgerState, reqs: Seq<PurchaseRequest>) -> int
    decreases reqs.len(),
{
    if reqs.len() == 0 {
        0
    } else {
        let step = s.buy_step(reqs[0].buyer, reqs[0].authorized, reqs[0].now);
        (if step.1 is Ok {
            1int
        } else {
            0int
        }) + success_count(step.0, reqs.drop_first())
    }
}

/// The price adjustment keeps the price within `[base_price, 2 * base_price]`:
/// a 2% truncating increase never lowers the price, and the clamp never
/// lets it pass twice the base price.
pub proof fn lemma_next_price_bounds(price: int, base_price: int)
    requires
        0 <= base_price,
        base_price <= price <= 2 * base_price,
    ensures
        price <= next_price(price, base_price),
        base_price <= next_price(price, base_price) <= 2 * base_price,
{
    lemma_div_multiples_vanish(price, 100);
    assert(100 * price <= price * 102);
    lemma_div_is_ordered(100 * price, price * 102, 100);
    assert(price == (100 * price) / 100);
    assert(price <= price * 102 / 100);
}

/// One purchase invocation, whatever its inputs: it preserves the
/// invariant, never touches the configuration, changes nothing on
/// failure, and on success moves each counter by exactly one, charges
/// the pre-sale price and appends the new ticket.  Success comes
/// exactly on an authorized purchase against an initialized ledger at
/// or before the deadline with supply left.
pub proof fn lemma_buy_step(s: LedgerState, buyer: Address, authorized: bool, now: int)
    requires
        s.wf(),
    ensures
        ({
            let (state, res) = s.buy_step(buyer, authorized, now);
            &&& state.wf()
            &&& state.config == s.config
            &&& (res is Err ==> state == s)
            &&& (res is Ok <==> authorized && s.initialized() && now <= s.conf().sale_end
                && s.ticket_left > 0)
            &&& (res matches Ok(t) ==> {
                &&& t.id == s.last_ticket_id
                &&& t.owner == buyer
                &&& t.purchase_time == now
                &&& t.purchase_price == s.current_price
                &&& t.event_name == s.conf().event_name
                &&& state.ticket_left == s.ticket_left - 1
                &&& state.last_ticket_id == s.last_ticket_id + 1
                &&& state.current_price == next_price(s.current_price, s.conf().base_price)
                &&& s.current_price <= state.current_price
                &&& state.tickets == s.tickets.push(t)
            })
        }),
{
    let (state, res) = s.buy_step(buyer, authorized, now);
    if res is Ok {
        let c = s.conf();
        lemma_next_price_bounds(s.current_price, c.base_price);
        let t = res->Ok_0;
        assert forall|i: int| 0 <= i < state.tickets.len() implies (
        #[trigger] state.tickets[i]).wf_at(c, i) by {
            if i < s.tickets.len() {
                assert(s.tickets[i].wf_at(c, i));
                assert(state.tickets[i] == s.tickets[i]);
            } else {
                assert(state.tickets[i] == t);
            }
        }
    }
}

/// One `init` invocation with arguments that fit the stored widths: it
/// preserves the invariant, and succeeds exactly on a ledger that was
/// never initialized.
pub proof fn lemma_init_step(
    s: LedgerState,
    organizer: Address,
    base_price: int,
    event_name: Seq<char>,
    sale_end: int,
    ticket_count: int,
)
    requires
        s.wf(),
        0 <= base_price,
        2 * base_price <= u32::MAX,
        0 <= ticket_count <= u32::MAX,
        0 <= sale_end <= u64::MAX,
    ensures
        ({
            let (state, res) = s.init_step(organizer, base_price, event_name, sale_end, ticket_count);
            &&& state.wf()
            &&& (res is Ok <==> !s.initialized())
            &&& (res is Err ==> state == s)
        }),
{
}

/// Single initialization: once `init` has succeeded, every
/// further `init` fails with `AlreadyInitialized` and leaves the state
/// as it was.
pub proof fn lemma_single_init(
    s: LedgerState,
    organizer1: Address,
    base_price1: int,
    event_name1: Seq<char>,
    sale_end1: int,
    ticket_count1: int,
    organizer2: Address,
    base_price2: int,
    event_name2: Seq<char>,
    sale_end2: int,
    ticket_count2: int,
)
    requires
        s.init_step(organizer1, base_price1, event_name1, sale_end1, ticket_count1).1 is Ok,
    ensures
        ({
            let once = s.init_step(organizer1, base_price1, event_name1, sale_end1, ticket_count1).0;
            let again = once.init_step(
                organizer2,
                base_price2,
                event_name2,
                sale_end2,
                ticket_count2,
            );
            again.1 == Err::<(), Error>(Error::AlreadyInitialized) && again.0 == once
        }),
{
}

/// Over any sequence of purchase invocations: the invariant and the
/// configuration are kept; the id counter goes up by exactly the number
/// of successes, the supply counter down by the same number (so after
/// `N` successful purchases from a fresh initialization, `ticket_count - N`
/// tickets remain); and the tickets already sold are never changed.
pub proof fn lemma_run_purchases(s: LedgerState, reqs: Seq<PurchaseRequest>)
    requires
        s.wf(),
    ensures
        ({
            let t = run_purchases(s, reqs);
            &&& t.wf()
            &&& t.config == s.config
            &&& 0 <= success_count(s, reqs) <= s.ticket_left
            &&& t.last_ticket_id == s.last_ticket_id + success_count(s, reqs)
            &&& t.ticket_left == s.ticket_left - success_count(s, reqs)
            &&& t.tickets.len() == s.tickets.len() + success_count(s, reqs)
            &&& forall|i: int| 0 <= i < s.tickets.len() ==> t.tickets[i] == s.tickets[i]
        }),
    decreases reqs.len(),
{
    if reqs.len() > 0 {
        lemma_buy_step(s, reqs[0].buyer, reqs[0].authorized, reqs[0].now);
        let mid = s.buy_step(reqs[0].buyer, reqs[0].authorized, reqs[0].now).0;
        lemma_run_purchases(mid, reqs.drop_first());
    }
}

/// Id assignment and supply from a fresh initialization: run
/// any purchase invocations after a successful `init`; with `N` of them
/// succeeding, the ids `0, 1, ..., N - 1` have been handed out in that
/// order with no gap or reuse (the ticket at position `k` carries id
/// `k`), and `ticket_count - N` tickets remain.
pub proof fn lemma_ids_and_supply_from_init(
    s: LedgerState,
    organizer: Address,
    base_price: int,
    event_name: Seq<char>,
    sale_end: int,
    ticket_count: int,
    reqs: Seq<PurchaseRequest>,
)
    requires
        s.wf(),
        0 <= base_price,
        2 * base_price <= u32::MAX,
        0 <= ticket_count <= u32::MAX,
        0 <= sale_end <= u64::MAX,
        s.init_step(organizer, base_price, event_name, sale_end, ticket_count).1 is Ok,
    ensures
        ({
            let fresh = s.init_step(organizer, base_price, event_name, sale_end, ticket_count).0;
            let t = run_purchases(fresh, reqs);
            &&& t.last_ticket_id == success_count(fresh, reqs)
            &&& t.ticket_left == ticket_count - success_count(fresh, reqs)
            &&& t.tickets.len() == success_count(fresh, reqs)
            &&& forall|k: int| 0 <= k < t.tickets.len() ==> (#[trigger] t.tickets[k]).id == k
        }),
{
    let fresh = s.init_step(organizer, base_price, event_name, sale_end, ticket_count).0;
    lemma_init_step(s, organizer, base_price, event_name, sale_end, ticket_count);
    lemma_run_purchases(fresh, reqs);
    let t = run_purchases(fresh, reqs);
    assert forall|k: int| 0 <= k < t.tickets.len() implies (#[trigger] t.tickets[k]).id == k by {
        assert(t.tickets[k].wf_at(t.conf(), k));
    }
}

/// The deadline boundary: `sale_end` is inclusive.  An
/// authorized purchase at exactly `sale_end` succeeds whenever supply
/// is left, and one at `sale_end + 1` fails with `SaleEnded`.
pub proof fn lemma_deadline_boundary(s: LedgerState, buyer: Address)
    requires
        s.wf(),
        s.initialized(),
    ensures
        s.ticket_left > 0 ==> s.buy_step(buyer, true, s.conf().sale_end).1 is Ok,
        s.buy_step(buyer, true, s.conf().sale_end + 1).1 == Err::<TicketView, Error>(
            Error::SaleEnded,
        ),
{
}

/// The price bound: in every reachable state of an initialized
/// ledger, every price ever charged and the current price lie between
/// the base price and twice the base price.
pub proof fn lemma_price_bound(s: LedgerState, i: int)
    requires
        s.wf(),
        s.initialized(),
        0 <= i < s.tickets.len(),
    ensures
        s.conf().base_price <= s.tickets[i].purchase_price <= 2 * s.conf().base_price,
        s.conf().base_price <= s.current_price <= 2 * s.conf().base_price,
{
    assert(s.tickets[i].wf_at(s.conf(), i));
}

} // verus!
