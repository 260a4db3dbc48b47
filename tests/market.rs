use backend::error::GameError;
use backend::gold::GoldAccount;
use backend::gold::LedgerKind;
use backend::market::CreateOrderRequest;
use backend::market::ResourceLock;
use backend::market::TradeOrder;
use backend::market::TradeOrderStatus;
use backend::market::TradeOrderType;
use backend::market::TradeService;
use backend::order_book::GetOrdersQuery;
use backend::order_book::OrderBook;
use backend::order_book::TradeTransaction;
use backend::production::VillageStock;
use backend::resources::TradeResourceType;

const HOUR: i64 = 3_600_000;

fn village(wood: i64) -> VillageStock {
    VillageStock {
        wood,
        clay: 0,
        iron: 0,
        crop: 0,
        warehouse_capacity: 10_000,
        granary_capacity: 10_000,
        resources_updated_at: 0,
    }
}

fn account(user: u128, gold: i64) -> GoldAccount {
    let mut a = GoldAccount::new(user);
    a.credit(gold, LedgerKind::GoldPurchase);
    a
}

fn request(side: TradeOrderType, quantity: i32, price: i32, hours: Option<i32>) -> CreateOrderRequest {
    CreateOrderRequest {
        village_id: 10,
        order_type: side,
        resource_type: TradeResourceType::Wood,
        quantity,
        price_per_unit: price,
        expires_in_hours: hours,
    }
}

fn sell_order(quantity: i32) -> (TradeOrder, ResourceLock) {
    let req = request(TradeOrderType::Sell, quantity, 5, Some(1));
    TradeService::create_sell_order(&req, 1, 1, &village(5000), 0, 0, 100, 200, 0).unwrap()
}

#[test]
fn sell_partial_fill_then_expire() {
    let seller_village_before = village(5000);
    let req = request(TradeOrderType::Sell, 1000, 5, Some(1));
    let (mut order, mut lock) =
        TradeService::create_sell_order(&req, 1, 1, &seller_village_before, 0, 0, 100, 200, 0).unwrap();
    assert_eq!(lock.amounts.wood, 1000);
    let mut seller_village = seller_village_before;
    let mut buyer_village = village(0);
    let mut seller = account(1, 0);
    let mut buyer = account(2, 3000);
    let filled = TradeService::accept_sell_order(
        &mut order,
        2,
        Some(400),
        2,
        &mut buyer,
        &mut seller,
        &mut buyer_village,
        &mut seller_village,
        &mut lock,
        10,
    );
    assert_eq!(filled, Ok(400));
    assert_eq!(buyer_village.wood, 400);
    assert_eq!(seller.gold_balance, 2000);
    assert_eq!(buyer.gold_balance, 1000);
    assert_eq!(order.quantity_filled, 400);
    assert_eq!(order.status, TradeOrderStatus::PartiallyFilled);
    assert_eq!(lock.amounts.wood, 600);
    assert!(!lock.released);
    // Effective wood while the lock is live: 4600 held minus 600 locked.
    assert_eq!(seller_village.wood - lock.amounts.wood as i64, 4000);
    let refunded = TradeService::expire_sell_order(&mut order, &mut lock, HOUR);
    assert_eq!(refunded.map(|r| r.wood), Ok(600));
    assert_eq!(order.status, TradeOrderStatus::Expired);
    assert!(lock.released);
    let locks = vec![lock];
    let locked = TradeService::locked_amount(&locks, 10, TradeResourceType::Wood);
    assert_eq!(seller_village.wood - locked, 4600);
}

#[test]
fn concurrent_accepts_never_overfill() {
    let (mut order, mut lock) = sell_order(500);
    let mut seller_village = village(5000);
    let mut buyer_village = village(0);
    let mut seller = account(1, 0);
    let mut a = account(2, 100_000);
    let mut b = account(3, 100_000);
    let first = TradeService::accept_sell_order(
        &mut order, 2, Some(400), 2, &mut a, &mut seller, &mut buyer_village, &mut seller_village,
        &mut lock, 10,
    );
    assert_eq!(first, Ok(400));
    let second = TradeService::accept_sell_order(
        &mut order, 3, Some(400), 3, &mut b, &mut seller, &mut buyer_village, &mut seller_village,
        &mut lock, 10,
    );
    assert_eq!(second, Err(GameError::FillExceedsRemaining { remaining: 100 }));
    assert_eq!(b.gold_balance, 100_000);
    let third = TradeService::accept_sell_order(
        &mut order, 3, Some(100), 3, &mut b, &mut seller, &mut buyer_village, &mut seller_village,
        &mut lock, 10,
    );
    assert_eq!(third, Ok(100));
    assert_eq!(order.quantity_filled, 500);
    assert_eq!(order.status, TradeOrderStatus::Filled);
    assert!(lock.released);
}

#[test]
fn minimum_quantity_and_maximum_price_are_accepted() {
    let req = request(TradeOrderType::Buy, 100, 10_000, None);
    let mut buyer = account(1, 1_000_000);
    let order = TradeService::create_buy_order(&req, 1, 1, &mut buyer, 0, 7, 0).unwrap();
    assert_eq!(order.quantity, 100);
    assert_eq!(order.price_per_unit, 10_000);
    assert_eq!(buyer.gold_balance, 0);
    assert_eq!(order.expires_at, None);
}

#[test]
fn create_request_errors() {
    let cases = [
        (99, 5, None, GameError::QuantityTooSmall),
        (1_000_001, 5, None, GameError::QuantityTooLarge),
        (100, 0, None, GameError::PriceTooLow),
        (100, 10_001, None, GameError::PriceTooHigh),
        (100, 5, Some(0), GameError::ExpiryTooShort),
        (100, 5, Some(169), GameError::ExpiryTooLong),
    ];
    for (q, p, h, e) in cases {
        let req = request(TradeOrderType::Sell, q, p, h);
        assert_eq!(TradeService::validate_create_order_request(&req), Err(e));
    }
    let ok = request(TradeOrderType::Sell, 100, 5, Some(168));
    assert_eq!(TradeService::validate_create_order_request(&ok), Ok(()));
}

#[test]
fn order_limit_ownership_and_availability() {
    let req = request(TradeOrderType::Sell, 1000, 5, None);
    let v = village(5000);
    assert_eq!(
        TradeService::create_sell_order(&req, 1, 1, &v, 0, 50, 1, 2, 0).map(|x| x.0.id),
        Err(GameError::TooManyOpenOrders)
    );
    assert_eq!(
        TradeService::create_sell_order(&req, 1, 9, &v, 0, 0, 1, 2, 0).map(|x| x.0.id),
        Err(GameError::NotOwner)
    );
    assert_eq!(
        TradeService::create_sell_order(&req, 1, 1, &v, 4001, 0, 1, 2, 0).map(|x| x.0.id),
        Err(GameError::InsufficientResources)
    );
    let (o, _) = TradeService::create_sell_order(&req, 1, 1, &v, 4000, 0, 1, 2, 5).unwrap();
    assert_eq!(o.expires_at, None);
}

#[test]
fn buy_order_needs_gold() {
    let req = request(TradeOrderType::Buy, 200, 5, Some(2));
    let mut poor = account(1, 999);
    assert_eq!(
        TradeService::create_buy_order(&req, 1, 1, &mut poor, 0, 7, 0),
        Err(GameError::InsufficientGold)
    );
    assert_eq!(poor.gold_balance, 999);
    let mut rich = account(1, 1000);
    let o = TradeService::create_buy_order(&req, 1, 1, &mut rich, 0, 7, 1000).unwrap();
    assert_eq!(rich.gold_balance, 0);
    assert_eq!(o.expires_at, Some(1000 + 2 * HOUR));
}

#[test]
fn sell_create_then_cancel_restores_availability() {
    let v = village(5000);
    let req = request(TradeOrderType::Sell, 1000, 5, None);
    let (mut order, mut lock) = TradeService::create_sell_order(&req, 1, 1, &v, 0, 0, 3, 4, 0).unwrap();
    let mut locks = vec![lock];
    assert_eq!(TradeService::locked_amount(&locks, 10, TradeResourceType::Wood), 1000);
    assert_eq!(TradeService::cancel_sell_order(&mut order, 2, &mut lock).map(|r| r.wood), Err(GameError::NotOwner));
    let back = TradeService::cancel_sell_order(&mut order, 1, &mut lock).unwrap();
    assert_eq!(back.wood, 1000);
    assert_eq!(order.status, TradeOrderStatus::Cancelled);
    locks[0] = lock;
    assert_eq!(TradeService::locked_amount(&locks, 10, TradeResourceType::Wood), 0);
    assert_eq!(v.wood, 5000);
    assert_eq!(
        TradeService::cancel_sell_order(&mut order, 1, &mut lock).map(|r| r.wood),
        Err(GameError::OrderNotCancellable)
    );
}

#[test]
fn buy_create_then_cancel_restores_gold() {
    let req = request(TradeOrderType::Buy, 300, 7, None);
    let mut owner = account(1, 5000);
    let mut order = TradeService::create_buy_order(&req, 1, 1, &mut owner, 0, 7, 0).unwrap();
    assert_eq!(owner.gold_balance, 5000 - 2100);
    assert_eq!(TradeService::cancel_buy_order(&mut order, 1, &mut owner), Ok(2100));
    assert_eq!(owner.gold_balance, 5000);
    let sum: i64 = owner.ledger.iter().map(|e| e.amount).sum();
    assert_eq!(sum, owner.gold_balance);
}

#[test]
fn buy_order_fill_pays_seller_from_escrow() {
    let req = request(TradeOrderType::Buy, 500, 3, None);
    let mut owner = account(1, 1500);
    let mut order = TradeService::create_buy_order(&req, 1, 1, &mut owner, 0, 7, 0).unwrap();
    let mut seller = account(2, 0);
    let mut seller_village = village(450);
    let mut owner_village = village(9_900);
    let short = TradeService::accept_buy_order(
        &mut order, 2, Some(400), 2, &mut seller, &mut seller_village, 100, &mut owner_village, 5,
    );
    assert_eq!(short, Err(GameError::InsufficientResources));
    let ok = TradeService::accept_buy_order(
        &mut order, 2, Some(300), 2, &mut seller, &mut seller_village, 100, &mut owner_village, 5,
    );
    assert_eq!(ok, Ok(300));
    assert_eq!(seller.gold_balance, 900);
    assert_eq!(seller_village.wood, 150);
    assert_eq!(owner_village.wood, 10_000);
    assert_eq!(TradeService::expire_buy_order(&mut order, &mut owner, 5), Err(GameError::NotYetExpired));
    assert_eq!(TradeService::cancel_buy_order(&mut order, 1, &mut owner), Ok(600));
    assert_eq!(owner.gold_balance, 600);
}

#[test]
fn accept_checks_in_order() {
    let (order, _) = sell_order(500);
    assert_eq!(TradeService::validate_accept_order(&order, 1, None, 0), Err(GameError::OwnOrder));
    assert_eq!(TradeService::validate_accept_order(&order, 2, Some(0), 0), Err(GameError::NonPositiveFill));
    assert_eq!(TradeService::validate_accept_order(&order, 2, Some(99), 0), Err(GameError::FillBelowMinimum));
    assert_eq!(TradeService::validate_accept_order(&order, 2, None, 0), Ok(500));
    assert_eq!(TradeService::validate_accept_order(&order, 2, None, HOUR + 1), Err(GameError::OrderExpired));
    let mut done = order;
    done.status = TradeOrderStatus::Filled;
    done.quantity_filled = 500;
    assert_eq!(TradeService::validate_accept_order(&done, 2, None, 0), Err(GameError::OrderNotFillable));
}

#[test]
fn full_fill_equals_two_partial_fills() {
    let run = |parts: &[i32]| {
        let (mut order, mut lock) = sell_order(1000);
        let mut seller_village = village(5000);
        let mut buyer_village = village(9_500);
        let mut seller = account(1, 0);
        let mut buyer = account(2, 10_000);
        for p in parts {
            TradeService::accept_sell_order(
                &mut order, 2, Some(*p), 2, &mut buyer, &mut seller, &mut buyer_village,
                &mut seller_village, &mut lock, 0,
            )
            .unwrap();
        }
        (buyer.gold_balance, seller.gold_balance, buyer_village.wood, seller_village.wood, order.status)
    };
    assert_eq!(run(&[1000]), run(&[600, 400]));
    assert_eq!(run(&[1000]), (5000, 5000, 10_000, 4000, TradeOrderStatus::Filled));
}

#[test]
fn order_status_from_fill() {
    assert_eq!(TradeService::calculate_order_status(500, 0), TradeOrderStatus::Open);
    assert_eq!(TradeService::calculate_order_status(500, 1), TradeOrderStatus::PartiallyFilled);
    assert_eq!(TradeService::calculate_order_status(500, 500), TradeOrderStatus::Filled);
}

#[test]
fn order_book_listing_and_summary() {
    let mk = |id: u128, side: TradeOrderType, price: i32, status: TradeOrderStatus| TradeOrder {
        id,
        user_id: 1,
        village_id: 1,
        order_type: side,
        resource_type: TradeResourceType::Wood,
        quantity: 100,
        quantity_filled: 0,
        price_per_unit: price,
        status,
        expires_at: None,
    };
    let orders = vec![
        mk(1, TradeOrderType::Buy, 4, TradeOrderStatus::Open),
        mk(2, TradeOrderType::Buy, 6, TradeOrderStatus::Open),
        mk(3, TradeOrderType::Sell, 9, TradeOrderStatus::Open),
        mk(4, TradeOrderType::Sell, 8, TradeOrderStatus::PartiallyFilled),
        mk(5, TradeOrderType::Sell, 2, TradeOrderStatus::Cancelled),
    ];
    let q = GetOrdersQuery {
        resource_type: Some(TradeResourceType::Wood),
        order_type: Some(TradeOrderType::Sell),
        min_price: None,
        max_price: None,
        page: None,
        limit: None,
    };
    let ids: Vec<u128> = OrderBook::get_open_orders(&orders, &q).iter().map(|o| o.id).collect();
    assert_eq!(ids, vec![3, 4]);
    let q2 = GetOrdersQuery { order_type: None, limit: Some(2), page: Some(2), ..q };
    let ids2: Vec<u128> = OrderBook::get_open_orders(&orders, &q2).iter().map(|o| o.id).collect();
    assert_eq!(ids2, vec![3, 4]);
    let tx = |price: i32, at: i64| TradeTransaction {
        id: 0,
        buy_order_id: 0,
        sell_order_id: 0,
        buyer_id: 0,
        seller_id: 0,
        buyer_village_id: 0,
        seller_village_id: 0,
        resource_type: TradeResourceType::Wood,
        quantity: 150,
        price_per_unit: price,
        total_gold: 150 * price as i64,
        created_at: at,
    };
    let history = vec![tx(3, 0), tx(5, 90_000_000), tx(7, 100_000_000)];
    let s = OrderBook::market_summary(&orders, &history, TradeResourceType::Wood, 100_000_000);
    assert_eq!(s.best_buy_price, Some(6));
    assert_eq!(s.best_sell_price, Some(8));
    assert_eq!(s.spread, Some(2));
    assert_eq!(s.last_trade_price, Some(7));
    assert_eq!(s.volume_24h, 300);
    assert_eq!(s.trade_count_24h, 2);
}

#[test]
fn store_queries_for_the_jobs() {
    let mut repo = backend::store::TradeRepository::new();
    for k in 0..105u128 {
        let req = request(TradeOrderType::Sell, 100, 5, Some(1));
        let (o, l) = TradeService::create_sell_order(&req, 1 + k % 2, 1 + k % 2, &village(5000), 0, 0, k, 1000 + k, 0)
            .unwrap();
        repo.orders.push(o);
        repo.locks.push(l);
    }
    repo.orders[0].status = TradeOrderStatus::Cancelled;
    repo.locks[0].released = true;
    assert_eq!(repo.count_user_open_orders(1), 52);
    assert_eq!(repo.count_user_open_orders(2), 52);
    assert!(repo.get_expired_orders(HOUR - 1).is_empty());
    let due = repo.get_expired_orders(HOUR);
    assert_eq!(due.len(), 100);
    assert_eq!(due[0], 1);
    assert_eq!(repo.find_order(7), Some(7));
    assert_eq!(repo.find_order(700), None);
    assert_eq!(repo.find_order_lock(0), None);
    assert_eq!(repo.find_order_lock(3), Some(3));
    let mut b = backend::building::Building {
        id: 1,
        village_id: 1,
        building_type: backend::building::BuildingType::Granary,
        slot: 4,
        level: 1,
        is_upgrading: true,
        upgrade_ends_at: Some(50),
    };
    let idle = backend::building::Building { is_upgrading: false, upgrade_ends_at: None, ..b };
    b.upgrade_ends_at = Some(40);
    let buildings = backend::store::BuildingRepository { buildings: vec![idle, b] };
    assert_eq!(buildings.find_completed_upgrades(39), Vec::<usize>::new());
    assert_eq!(buildings.find_completed_upgrades(40), vec![1]);
}
