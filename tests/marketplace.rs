use energy_grid::auth::Principal;
use energy_grid::ledger::EnergyToken;
use energy_grid::marketplace::{MarketError, Marketplace, OrderStatus, OrderType, Settlement};

fn setup() -> (Marketplace, Principal) {
    let admin = Principal::new(1);
    let token = Principal::new(2);
    (Marketplace::initialize(admin, token), admin)
}

fn place(m: &mut Marketplace, user: Principal, side: OrderType, kwh: i128, price: i128, device: &str) -> u64 {
    m.create_order(user, user, side, kwh, price, device.to_string()).unwrap()
}

#[test]
fn contract_test_create_order() {
    let (mut m, _admin) = setup();
    let user = Principal::new(10);
    let order_id = m.create_order(user, user, OrderType::Sell, 50, 10, "device1".to_string()).unwrap();
    assert_eq!(order_id, 1);
    let order = m.get_order(1).unwrap();
    assert_eq!(order.kwh_amount, 50);
}

#[test]
fn lib_test_create_order() {
    let (mut m, _admin) = setup();
    let user = Principal::new(10);
    let order_id = m.create_order(user, user, OrderType::Sell, 50, 10, "device1".to_string()).unwrap();
    assert_eq!(order_id, 1);
    let order = m.get_order(1).unwrap();
    assert_eq!(order.kwh_amount, 50);
}

#[test]
fn test_match_orders() {
    let (mut m, admin) = setup();
    let seller = Principal::new(10);
    let buyer = Principal::new(11);
    let sell_id = place(&mut m, seller, OrderType::Sell, 50, 10, "device1");
    let buy_id = place(&mut m, buyer, OrderType::Buy, 50, 12, "device2");

    m.match_orders(admin, sell_id, buy_id).unwrap();

    let sell_order = m.get_order(sell_id).unwrap();
    let buy_order = m.get_order(buy_id).unwrap();
    assert_eq!(sell_order.status, OrderStatus::Completed);
    assert_eq!(buy_order.status, OrderStatus::Completed);
}

#[test]
fn match_settles_at_seller_price_with_yield() {
    let (mut m, admin) = setup();
    let sell_id = place(&mut m, Principal::new(10), OrderType::Sell, 50, 10, "device1");
    let buy_id = place(&mut m, Principal::new(11), OrderType::Buy, 50, 12, "device2");
    assert_eq!((sell_id, buy_id), (1, 2));
    let s = m.match_orders(admin, 1, 2).unwrap();
    assert_eq!(s, Settlement { notional: 500, yield_amount: 25 });
    assert_eq!(m.get_order(1).unwrap().status, OrderStatus::Completed);
    assert_eq!(m.get_order(2).unwrap().status, OrderStatus::Completed);
    assert_eq!(m.get_order(1).unwrap().yield_generated, 25);
    assert_eq!(m.get_order(2).unwrap().yield_generated, 0);
}

#[test]
fn match_with_swapped_ids_is_refused() {
    let (mut m, admin) = setup();
    let sell_id = place(&mut m, Principal::new(10), OrderType::Sell, 50, 10, "device1");
    let buy_id = place(&mut m, Principal::new(11), OrderType::Buy, 50, 12, "device2");
    assert_eq!(m.match_orders(admin, buy_id, sell_id), Err(MarketError::InvalidOrderTypes));
    assert_eq!(m.get_order(sell_id).unwrap().status, OrderStatus::Open);
    assert_eq!(m.get_order(buy_id).unwrap().status, OrderStatus::Open);
}

#[test]
fn match_with_different_quantities_is_refused() {
    let (mut m, admin) = setup();
    let sell_id = place(&mut m, Principal::new(10), OrderType::Sell, 50, 10, "device1");
    let buy_id = place(&mut m, Principal::new(11), OrderType::Buy, 40, 12, "device2");
    assert_eq!(m.match_orders(admin, sell_id, buy_id), Err(MarketError::QuantityMismatch));
    assert_eq!(m.get_order(sell_id).unwrap().status, OrderStatus::Open);
    assert_eq!(m.get_order(buy_id).unwrap().status, OrderStatus::Open);
}

#[test]
fn match_below_ask_is_refused() {
    let (mut m, admin) = setup();
    let sell_id = place(&mut m, Principal::new(10), OrderType::Sell, 50, 10, "device1");
    let buy_id = place(&mut m, Principal::new(11), OrderType::Buy, 50, 9, "device2");
    assert_eq!(m.match_orders(admin, sell_id, buy_id), Err(MarketError::PriceTooLow));
    assert_eq!(m.get_order(buy_id).unwrap().status, OrderStatus::Open);
}

#[test]
fn match_at_equal_price_succeeds() {
    let (mut m, admin) = setup();
    let sell_id = place(&mut m, Principal::new(10), OrderType::Sell, 3, 7, "a");
    let buy_id = place(&mut m, Principal::new(11), OrderType::Buy, 3, 7, "b");
    assert_eq!(m.match_orders(admin, sell_id, buy_id), Ok(Settlement { notional: 21, yield_amount: 1 }));
}

#[test]
fn match_by_non_admin_is_refused() {
    let (mut m, _admin) = setup();
    let seller = Principal::new(10);
    let sell_id = place(&mut m, seller, OrderType::Sell, 50, 10, "device1");
    let buy_id = place(&mut m, Principal::new(11), OrderType::Buy, 50, 12, "device2");
    assert_eq!(m.match_orders(seller, sell_id, buy_id), Err(MarketError::Unauthorized));
}

#[test]
fn match_of_unknown_order_is_refused() {
    let (mut m, admin) = setup();
    let sell_id = place(&mut m, Principal::new(10), OrderType::Sell, 50, 10, "device1");
    assert_eq!(m.match_orders(admin, sell_id, 7), Err(MarketError::OrderNotFound));
    assert_eq!(m.match_orders(admin, 0, sell_id), Err(MarketError::OrderNotFound));
}

#[test]
fn settled_orders_cannot_match_again() {
    let (mut m, admin) = setup();
    let sell_id = place(&mut m, Principal::new(10), OrderType::Sell, 50, 10, "device1");
    let buy_id = place(&mut m, Principal::new(11), OrderType::Buy, 50, 12, "device2");
    m.match_orders(admin, sell_id, buy_id).unwrap();
    let buy2 = place(&mut m, Principal::new(12), OrderType::Buy, 50, 12, "device3");
    assert_eq!(m.match_orders(admin, sell_id, buy2), Err(MarketError::OrderNotOpen));
}

#[test]
fn trade_value_overflow_is_refused() {
    let (mut m, admin) = setup();
    let sell_id = place(&mut m, Principal::new(10), OrderType::Sell, i128::MAX, 2, "a");
    let buy_id = place(&mut m, Principal::new(11), OrderType::Buy, i128::MAX, 3, "b");
    assert_eq!(m.match_orders(admin, sell_id, buy_id), Err(MarketError::Overflow));
    assert_eq!(m.get_order(sell_id).unwrap().status, OrderStatus::Open);
}

#[test]
fn order_ids_are_consecutive() {
    let (mut m, _admin) = setup();
    let user = Principal::new(10);
    assert_eq!(place(&mut m, user, OrderType::Sell, 1, 1, "a"), 1);
    assert_eq!(m.create_order(user, user, OrderType::Buy, 0, 1, "b".to_string()), Err(MarketError::InvalidQuantity));
    assert_eq!(place(&mut m, user, OrderType::Buy, 2, 1, "b"), 2);
    assert_eq!(place(&mut m, user, OrderType::Sell, 3, 1, "c"), 3);
    assert_eq!(m.order_count(), 3);
    assert!(m.get_order(4).is_none());
    assert!(m.get_order(0).is_none());
}

#[test]
fn create_order_errors() {
    let (mut m, _admin) = setup();
    let user = Principal::new(10);
    let other = Principal::new(11);
    assert_eq!(m.create_order(other, user, OrderType::Sell, 5, 5, "d".to_string()), Err(MarketError::Unauthorized));
    assert_eq!(m.create_order(user, user, OrderType::Sell, -5, 5, "d".to_string()), Err(MarketError::InvalidQuantity));
    assert_eq!(m.create_order(user, user, OrderType::Sell, 5, 0, "d".to_string()), Err(MarketError::InvalidPrice));
    assert_eq!(m.order_count(), 0);
}

#[test]
fn new_order_is_open_and_kept_as_given() {
    let (mut m, _admin) = setup();
    let user = Principal::new(10);
    let id = place(&mut m, user, OrderType::Buy, 8, 9, "meter-7");
    let o = m.get_order(id).unwrap();
    assert_eq!(o.order_id, 1);
    assert_eq!(o.user, user);
    assert_eq!(o.order_type, OrderType::Buy);
    assert_eq!(o.price_per_kwh, 9);
    assert_eq!(o.status, OrderStatus::Open);
    assert_eq!(o.device_id, "meter-7");
}

#[test]
fn yield_is_five_percent_rounded_down() {
    assert_eq!(Marketplace::calculate_yield(500), 25);
    assert_eq!(Marketplace::calculate_yield(19), 0);
    assert_eq!(Marketplace::calculate_yield(20), 1);
    assert_eq!(Marketplace::calculate_yield(0), 0);
    assert_eq!(Marketplace::calculate_yield(i128::MAX), i128::MAX / 20);
}

#[test]
fn settlement_moves_value_in_the_ledger() {
    let (mut m, admin) = setup();
    let mut ledger = EnergyToken::initialize(admin);
    let seller = Principal::new(10);
    let buyer = Principal::new(11);
    ledger.mint(admin, buyer, 600).unwrap();
    let sell_id = place(&mut m, seller, OrderType::Sell, 50, 10, "device1");
    let buy_id = place(&mut m, buyer, OrderType::Buy, 50, 12, "device2");
    let s = m.match_and_settle(&mut ledger, admin, sell_id, buy_id).unwrap();
    assert_eq!(s, Settlement { notional: 500, yield_amount: 25 });
    assert_eq!(ledger.balance_of(buyer), 100);
    assert_eq!(ledger.balance_of(seller), 525);
    assert_eq!(m.get_order(sell_id).unwrap().status, OrderStatus::Completed);
    assert_eq!(m.get_order(buy_id).unwrap().status, OrderStatus::Completed);
}

#[test]
fn settlement_without_funds_changes_nothing() {
    let (mut m, admin) = setup();
    let mut ledger = EnergyToken::initialize(admin);
    let seller = Principal::new(10);
    let buyer = Principal::new(11);
    ledger.mint(admin, buyer, 499).unwrap();
    let sell_id = place(&mut m, seller, OrderType::Sell, 50, 10, "device1");
    let buy_id = place(&mut m, buyer, OrderType::Buy, 50, 12, "device2");
    assert_eq!(m.match_and_settle(&mut ledger, admin, sell_id, buy_id), Err(MarketError::InsufficientBalance));
    assert_eq!(ledger.balance_of(buyer), 499);
    assert_eq!(ledger.balance_of(seller), 0);
    assert_eq!(m.get_order(sell_id).unwrap().status, OrderStatus::Open);
    assert_eq!(m.get_order(buy_id).unwrap().status, OrderStatus::Open);
}

#[test]
fn settlement_needs_the_ledger_authority() {
    let (mut m, admin) = setup();
    let mut ledger = EnergyToken::initialize(Principal::new(99));
    let buyer = Principal::new(11);
    ledger.mint(Principal::new(99), buyer, 1000).unwrap();
    let sell_id = place(&mut m, Principal::new(10), OrderType::Sell, 50, 10, "device1");
    let buy_id = place(&mut m, buyer, OrderType::Buy, 50, 12, "device2");
    assert_eq!(m.match_and_settle(&mut ledger, admin, sell_id, buy_id), Err(MarketError::Unauthorized));
    assert_eq!(ledger.balance_of(buyer), 1000);
    assert_eq!(m.get_order(sell_id).unwrap().status, OrderStatus::Open);
    assert_eq!(m.match_and_settle(&mut ledger, admin, buy_id, sell_id), Err(MarketError::InvalidOrderTypes));
}
