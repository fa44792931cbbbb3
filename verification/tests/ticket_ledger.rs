use ticket_manager::ledger::{Address, DataKey, Error, TicketManager};

fn organizer() -> Address {
    Address { id: 1 }
}

fn buyer_a() -> Address {
    Address { id: 10 }
}

fn buyer_b() -> Address {
    Address { id: 11 }
}

fn buyer_c() -> Address {
    Address { id: 12 }
}

fn concert(ticket_count: u32) -> TicketManager {
    let mut m = TicketManager::new();
    let r = m.init(organizer(), 100, String::from("Concert"), 1000, ticket_count);
    assert!(r.is_ok());
    m
}

#[test]
fn scenario_two_tickets_then_sold_out() {
    let mut m = concert(2);
    assert_eq!(m.get_ticket_left(), 2);
    assert_eq!(m.get_last_current_price(), 100);

    let t0 = m.buy_ticket(buyer_a(), true, 500).unwrap();
    assert_eq!(t0.id, 0);
    assert_eq!(t0.purchase_price, 100);
    assert_eq!(m.get_last_current_price(), 102);
    assert_eq!(m.get_ticket_left(), 1);

    let t1 = m.buy_ticket(buyer_b(), true, 600).unwrap();
    assert_eq!(t1.id, 1);
    assert_eq!(t1.purchase_price, 102);
    assert_eq!(m.get_last_current_price(), 104);
    assert_eq!(m.get_ticket_left(), 0);

    let r = m.buy_ticket(buyer_c(), true, 700);
    assert_eq!(r.unwrap_err(), Error::SoldOut);
}

#[test]
fn init_twice_rejected() {
    let mut m = concert(5);
    let again = m.init(organizer(), 7, String::from("Other"), 9, 3);
    assert_eq!(again, Err(Error::AlreadyInitialized));
    // nothing was reset
    assert_eq!(m.get_ticket_left(), 5);
    assert_eq!(m.get_last_current_price(), 100);
}

#[test]
fn purchase_before_init_fails() {
    let mut m = TicketManager::new();
    let r = m.buy_ticket(buyer_a(), true, 0);
    assert_eq!(r.unwrap_err(), Error::NotInitialized);
}

#[test]
fn unauthorized_purchase_fails_first() {
    // the authorization check comes before every other precondition:
    // even on an uninitialized ledger the failure is Unauthorized
    let mut m = TicketManager::new();
    let r = m.buy_ticket(buyer_a(), false, 0);
    assert_eq!(r.unwrap_err(), Error::Unauthorized);

    let mut m = concert(2);
    let r = m.buy_ticket(buyer_a(), false, 500);
    assert_eq!(r.unwrap_err(), Error::Unauthorized);
    assert_eq!(m.get_ticket_left(), 2);
}

#[test]
fn deadline_is_inclusive() {
    let mut m = concert(2);
    let at_end = m.buy_ticket(buyer_a(), true, 1000);
    assert!(at_end.is_ok());
    let after_end = m.buy_ticket(buyer_b(), true, 1001);
    assert_eq!(after_end.unwrap_err(), Error::SaleEnded);
    assert_eq!(m.get_ticket_left(), 1);
}

#[test]
fn sale_ended_reported_before_sold_out() {
    // with no supply and a passed deadline, the deadline is reported
    let mut m = concert(0);
    let r = m.buy_ticket(buyer_a(), true, 2000);
    assert_eq!(r.unwrap_err(), Error::SaleEnded);
    // with the deadline still open, the empty supply is reported
    let r = m.buy_ticket(buyer_a(), true, 1000);
    assert_eq!(r.unwrap_err(), Error::SoldOut);
}

#[test]
fn supply_counts_down_to_sold_out() {
    let mut m = concert(3);
    let mut n: u32 = 0;
    while n < 3 {
        assert_eq!(m.get_ticket_left(), 3 - n);
        let r = m.buy_ticket(buyer_a(), true, 500);
        assert!(r.is_ok());
        n += 1;
    }
    assert_eq!(m.get_ticket_left(), 0);
    let r = m.buy_ticket(buyer_a(), true, 500);
    assert_eq!(r.unwrap_err(), Error::SoldOut);
}

#[test]
fn ids_are_consecutive_from_zero() {
    let mut m = concert(4);
    let mut k: u32 = 0;
    while k < 4 {
        let t = m.buy_ticket(Address { id: 100 + k as u64 }, true, 500).unwrap();
        assert_eq!(t.id, k);
        k += 1;
    }
    // each id maps to the buyer it was assigned to
    let mut k: u32 = 0;
    while k < 4 {
        let owner = m.get_ticket_owner(k).unwrap();
        assert_eq!(owner, Address { id: 100 + k as u64 });
        k += 1;
    }
}

#[test]
fn price_follows_recurrence_up_to_cap() {
    // base 100, cap 200: the price climbs by 2% (truncating) per sale
    // and stays at the cap once it reaches it
    let mut m = TicketManager::new();
    m.init(organizer(), 100, String::from("Concert"), 10_000, 60).unwrap();
    let mut expected: u32 = 100;
    let mut n: u32 = 0;
    while n < 60 {
        let t = m.buy_ticket(buyer_a(), true, 500).unwrap();
        assert_eq!(t.purchase_price, expected);
        let raised: u64 = (expected as u64) * 102 / 100;
        expected = if raised > 200 { 200 } else { raised as u32 };
        assert_eq!(m.get_last_current_price(), expected);
        assert!(100 <= expected && expected <= 200);
        n += 1;
    }
    assert_eq!(m.get_last_current_price(), 200);
}

#[test]
fn price_truncation_keeps_tiny_base_flat() {
    // 1 * 102 / 100 truncates back to 1: the price never moves
    let mut m = TicketManager::new();
    m.init(organizer(), 1, String::from("Concert"), 1000, 3).unwrap();
    let t = m.buy_ticket(buyer_a(), true, 500).unwrap();
    assert_eq!(t.purchase_price, 1);
    assert_eq!(m.get_last_current_price(), 1);
    let t = m.buy_ticket(buyer_b(), true, 600).unwrap();
    assert_eq!(t.purchase_price, 1);
    assert_eq!(m.get_last_current_price(), 1);
}

#[test]
fn widest_base_price_does_not_overflow() {
    // the largest base price whose cap still fits u32
    let base: u32 = u32::MAX / 2;
    let mut m = TicketManager::new();
    m.init(organizer(), base, String::from("Concert"), 1000, 2).unwrap();
    let t = m.buy_ticket(buyer_a(), true, 500).unwrap();
    assert_eq!(t.purchase_price, base);
    // 2147483647 * 102 / 100, truncated, still under the cap 4294967294
    assert_eq!(m.get_last_current_price(), 2_190_433_319);
}

#[test]
fn unknown_ticket_owner_fails() {
    let m = TicketManager::new();
    assert_eq!(m.get_ticket_owner(0), Err(Error::TicketNotFound));

    let mut m = concert(2);
    assert_eq!(m.get_ticket_owner(0), Err(Error::TicketNotFound));
    m.buy_ticket(buyer_a(), true, 500).unwrap();
    assert_eq!(m.get_ticket_owner(0), Ok(buyer_a()));
    assert_eq!(m.get_ticket_owner(1), Err(Error::TicketNotFound));
    assert_eq!(m.get_ticket_owner(999), Err(Error::TicketNotFound));
}

#[test]
fn queries_are_zero_before_init() {
    let m = TicketManager::new();
    assert_eq!(m.get_ticket_left(), 0);
    assert_eq!(m.get_last_current_price(), 0);
}

#[test]
fn store_entries_appear_once_created() {
    let mut m = TicketManager::new();
    assert!(!m.has(DataKey::Config));
    assert!(!m.has(DataKey::TicketLeft));
    assert!(!m.has(DataKey::LastTicketId));
    assert!(!m.has(DataKey::CurrentPrice));
    assert!(!m.has(DataKey::TicketOwner(0)));

    m.init(organizer(), 100, String::from("Concert"), 1000, 2).unwrap();
    assert!(m.has(DataKey::Config));
    assert!(m.has(DataKey::TicketLeft));
    assert!(m.has(DataKey::LastTicketId));
    assert!(m.has(DataKey::CurrentPrice));
    assert!(!m.has(DataKey::TicketOwner(0)));
    assert!(!m.has(DataKey::TicketData(0)));

    m.buy_ticket(buyer_a(), true, 500).unwrap();
    assert!(m.has(DataKey::TicketOwner(0)));
    assert!(m.has(DataKey::TicketData(0)));
    assert!(!m.has(DataKey::TicketOwner(1)));
    assert!(!m.has(DataKey::TicketData(1)));
}

#[test]
fn ticket_carries_sale_details() {
    let mut m = concert(2);
    let t = m.buy_ticket(buyer_b(), true, 321).unwrap();
    assert_eq!(t.id, 0);
    assert_eq!(t.owner, buyer_b());
    assert_eq!(t.purchase_time, 321);
    assert_eq!(t.purchase_price, 100);
    assert_eq!(t.event_name.as_str(), "Concert");
}
