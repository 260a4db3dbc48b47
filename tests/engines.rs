use backend::army::ArmyMovement;
use backend::army::ArmyService;
use backend::army::Mission;
use backend::army::TroopCount;
use backend::building::Building;
use backend::building::BuildingType;
use backend::construction::BuildingService;
use backend::error::ErrorKind;
use backend::error::GameError;
use backend::events::EventBus;
use backend::events::EventKind;
use backend::gold::GoldAccount;
use backend::gold::LedgerKind;
use backend::payment::check_signature;
use backend::payment::parse_i64;
use backend::payment::parse_signature_header;
use backend::payment::verify_webhook_signature;
use backend::production::ProductionBonuses;
use backend::production::ProductionRates;
use backend::production::ResourceService;
use backend::production::VillageStock;
use backend::resources::resource_type_name;
use backend::resources::Resources;
use backend::resources::TradeResourceType;
use backend::shop::BonusEntry;
use backend::shop::BonusKind;
use backend::shop::ShopService;
use backend::shop::ShopTransaction;
use backend::shop::SubscriptionPrice;
use backend::shop::TransactionStatus;
use backend::troops::GarrisonEntry;
use backend::troops::TroopDefinition;
use backend::troops::TroopService;
use backend::troops::TroopType;
use backend::village::VillageService;
use hmac::Mac;

const HOUR: i64 = 3_600_000;

fn stock(wood: i64, crop: i64, cap: i64, at: i64) -> VillageStock {
    VillageStock {
        wood,
        clay: 0,
        iron: 0,
        crop,
        warehouse_capacity: cap,
        granary_capacity: cap,
        resources_updated_at: at,
    }
}

fn rates(wood: i64, net_crop: i64) -> ProductionRates {
    ProductionRates {
        wood_per_hour: wood,
        clay_per_hour: 0,
        iron_per_hour: 0,
        crop_per_hour: 0,
        crop_consumption: 0,
        net_crop_per_hour: net_crop,
    }
}

fn building(t: BuildingType, slot: i32, level: i32) -> Building {
    Building {
        id: slot as u128,
        village_id: 1,
        building_type: t,
        slot,
        level,
        is_upgrading: false,
        upgrade_ends_at: None,
    }
}

fn account(gold: i64) -> GoldAccount {
    let mut a = GoldAccount::new(1);
    a.credit(gold, LedgerKind::GoldPurchase);
    a
}

#[test]
fn catch_up_caps_at_warehouse() {
    let mut s = stock(790, 0, 800, 0);
    ResourceService::update_village_resources(&mut s, &rates(30, 0), HOUR);
    assert_eq!(s.wood, 800);
    assert_eq!(s.resources_updated_at, HOUR);
}

#[test]
fn catch_up_rounds_down_and_is_idempotent() {
    let mut s = stock(0, 0, 800, 0);
    ResourceService::update_village_resources(&mut s, &rates(30, 0), HOUR / 2 + 59_999);
    assert_eq!(s.wood, 15);
    let once = s;
    ResourceService::update_village_resources(&mut s, &rates(30, 0), HOUR / 2 + 59_999);
    assert_eq!(s, once);
    ResourceService::update_village_resources(&mut s, &rates(30, 0), 0);
    assert_eq!(s, once);
}

#[test]
fn negative_crop_drains_to_zero() {
    let mut s = stock(0, 10, 800, 0);
    ResourceService::update_village_resources(&mut s, &rates(0, -7), HOUR);
    assert_eq!(s.crop, 3);
    ResourceService::update_village_resources(&mut s, &rates(0, -7), 3 * HOUR);
    assert_eq!(s.crop, 0);
    let mut t = stock(0, 10, 800, 0);
    ResourceService::update_village_resources(&mut t, &rates(0, -1), HOUR / 2);
    assert_eq!(t.crop, 9);
}

#[test]
fn production_rates_with_bonuses() {
    let bs = vec![
        building(BuildingType::Woodcutter, 101, 1),
        building(BuildingType::Woodcutter, 102, 2),
        building(BuildingType::CropField, 113, 3),
        building(BuildingType::ClayPit, 105, 0),
        building(BuildingType::MainBuilding, 1, 5),
    ];
    let none = ProductionBonuses::none();
    let r = ResourceService::calculate_production(&bs, 10, 4, &none);
    assert_eq!(r.wood_per_hour, 3 + 3 + 4);
    assert_eq!(r.clay_per_hour, 3);
    assert_eq!(r.crop_per_hour, 3 + 8);
    assert_eq!(r.crop_consumption, 14);
    assert_eq!(r.net_crop_per_hour, -3);
    let boosted = ProductionBonuses { plus_active: true, wood_bonus: true, book_of_wisdom: true, ..none };
    let b = ResourceService::calculate_production(&bs, 10, 4, &boosted);
    assert_eq!(b.wood_per_hour, 10 * 10 / 4);
    assert_eq!(b.clay_per_hour, 3 * 9 / 4);
}

#[test]
fn building_tables() {
    assert_eq!(BuildingType::MainBuilding.cost_at_level(1).wood, 70);
    assert_eq!(BuildingType::MainBuilding.cost_at_level(2).wood, 89);
    assert_eq!(BuildingType::Barracks.cost_at_level(3).time_seconds, 983);
    assert_eq!(BuildingType::Warehouse.cost_at_level(20).clay, 17422);
    assert_eq!(BuildingType::Woodcutter.cost_at_level(0).wood, 31);
    assert_eq!(BuildingType::Woodcutter.production_per_hour(1), 3);
    assert_eq!(BuildingType::CropField.production_per_hour(10), 320);
    assert_eq!(BuildingType::MainBuilding.production_per_hour(10), 0);
    assert_eq!(BuildingType::Warehouse.storage_capacity(1), 480);
    assert_eq!(BuildingType::Granary.storage_capacity(20), 15335);
    assert_eq!(BuildingType::Wall.storage_capacity(3), 0);
    assert_eq!(BuildingType::Wall.storage_capacity(0), 800);
    assert_eq!(BuildingType::Stable.population_at_level(0), 0);
    assert_eq!(BuildingType::Stable.population_at_level(11), 7);
    assert!(BuildingType::ClayPit.is_resource_field());
    assert!(!BuildingType::Market.is_resource_field());
    assert_eq!(BuildingType::Palace.max_level(), 20);
    assert_eq!(BuildingType::TradeOffice.prerequisites().len(), 2);
    assert_eq!(BuildingType::MainBuilding.as_str(), "main_building");
    assert_eq!(BuildingType::Granary.base_cost().time_seconds, 350);
}

#[test]
fn barracks_needs_main_building_three() {
    let bs = vec![building(BuildingType::MainBuilding, 1, 2), building(BuildingType::RallyPoint, 2, 1)];
    let missing = BuildingService::check_prerequisites(&bs, BuildingType::Barracks);
    assert_eq!(missing.len(), 1);
    assert_eq!(missing[0].building_type, BuildingType::MainBuilding);
    assert_eq!(missing[0].required_level, 3);
    assert_eq!(missing[0].current_level, 2);
    assert_eq!(BuildingService::validate_can_build(&bs, BuildingType::Barracks), Err(GameError::MissingPrerequisites));
    assert_eq!(GameError::MissingPrerequisites.kind(), ErrorKind::BadRequest);
    let mut target = building(BuildingType::Barracks, 3, 0);
    let mut s = stock(5000, 5000, 10_000, 0);
    s.clay = 5000;
    s.iron = 5000;
    let r = BuildingService::start_upgrade(&mut target, &bs, &mut s, &rates(0, 0), 0);
    assert_eq!(r, Err(GameError::MissingPrerequisites));
    assert!(!target.is_upgrading);
}

#[test]
fn upgrade_then_complete() {
    let bs = vec![building(BuildingType::MainBuilding, 1, 3)];
    let mut target = bs[0];
    let mut s = stock(1000, 1000, 10_000, 0);
    s.clay = 1000;
    s.iron = 1000;
    let cost = BuildingService::start_upgrade(&mut target, &bs, &mut s, &rates(0, 0), 1_000).unwrap();
    assert_eq!(cost.wood, 146);
    assert_eq!(s.wood, 1000 - 146);
    assert!(target.is_upgrading);
    assert_eq!(target.upgrade_ends_at, Some(1_000 + cost.time_seconds as i64 * 1000));
    assert_eq!(
        BuildingService::start_upgrade(&mut target, &bs, &mut s, &rates(0, 0), 2_000),
        Err(GameError::AlreadyUpgrading)
    );
    BuildingService::complete_upgrade(&mut target);
    assert_eq!(target.level, 4);
    assert!(!target.is_upgrading);
    let poor = &mut stock(0, 0, 800, 0);
    let mut other = bs[0];
    assert_eq!(
        BuildingService::start_upgrade(&mut other, &bs, poor, &rates(0, 0), 0),
        Err(GameError::InsufficientResources)
    );
    let mut top = building(BuildingType::Wall, 5, 20);
    assert_eq!(
        BuildingService::start_upgrade(&mut top, &bs, &mut s, &rates(0, 0), 0),
        Err(GameError::MaxLevelReached)
    );
}

#[test]
fn storage_and_population_recompute() {
    let bs = vec![
        building(BuildingType::Warehouse, 3, 2),
        building(BuildingType::Granary, 4, 1),
        building(BuildingType::MainBuilding, 1, 6),
        building(BuildingType::CropField, 113, 0),
    ];
    assert_eq!(BuildingService::village_storage(&bs), (800 + 576, 800 + 480));
    assert_eq!(BuildingService::village_population(&bs), 1 + 1 + 3);
}

#[test]
fn finish_now_costs_four_gold() {
    assert_eq!(ShopService::finish_now_cost(17 * 60 * 1000, 0), 4);
    assert_eq!(ShopService::finish_now_cost(0, 5), 1);
    let mut b = building(BuildingType::Warehouse, 3, 1);
    b.is_upgrading = true;
    b.upgrade_ends_at = Some(17 * 60 * 1000);
    let mut gold = account(10);
    assert_eq!(ShopService::use_finish_now(&mut b, 1, 2, &mut gold, 0), Err(GameError::NotOwner));
    assert_eq!(ShopService::use_finish_now(&mut b, 1, 1, &mut gold, 0), Ok(4));
    assert_eq!(gold.gold_balance, 6);
    assert_eq!(b.level, 2);
    assert!(!b.is_upgrading);
    assert_eq!(ShopService::use_finish_now(&mut b, 1, 1, &mut gold, 0), Err(GameError::NotUpgrading));
}

#[test]
fn npc_merchant_rules() {
    let mut s = stock(100, 100, 800, 0);
    let mut gold = account(3);
    let changed = Resources::new(100, 0, 0, 101);
    assert_eq!(ShopService::use_npc_merchant(&mut s, 1, 1, &mut gold, &changed), Err(GameError::TotalChanged));
    let negative = Resources::new(-1, 101, 0, 100);
    assert_eq!(ShopService::use_npc_merchant(&mut s, 1, 1, &mut gold, &negative), Err(GameError::NegativeAmount));
    let mut small = stock(100, 100, 150, 0);
    let over = Resources::new(0, 0, 200, 0);
    assert_eq!(ShopService::use_npc_merchant(&mut small, 1, 1, &mut gold, &over), Err(GameError::ExceedsCapacity));
    let ok = Resources::new(50, 50, 50, 50);
    assert_eq!(ShopService::use_npc_merchant(&mut s, 1, 1, &mut gold, &ok), Ok(()));
    assert_eq!((s.wood, s.clay, s.iron, s.crop), (50, 50, 50, 50));
    assert_eq!(gold.gold_balance, 0);
    assert_eq!(ShopService::use_npc_merchant(&mut s, 1, 1, &mut gold, &ok), Err(GameError::InsufficientGold));
}

#[test]
fn boosts_and_subscription() {
    let mut entries: Vec<BonusEntry> = Vec::new();
    let mut gold = account(100);
    assert_eq!(
        ShopService::use_production_bonus(&mut entries, &mut gold, 1, 1, 7, TradeResourceType::Clay, 0),
        Ok(())
    );
    assert_eq!(
        ShopService::use_production_bonus(&mut entries, &mut gold, 1, 1, 7, TradeResourceType::Clay, 10),
        Err(GameError::AlreadyActive)
    );
    assert_eq!(ShopService::use_book_of_wisdom(&mut entries, &mut gold, 1, 1, 7, 0), Ok(()));
    assert_eq!(gold.gold_balance, 80);
    let prices = vec![SubscriptionPrice { duration_days: 7, gold_cost: 10 }];
    assert_eq!(
        ShopService::buy_subscription(&mut entries, &mut gold, &prices, 1, 3, 0),
        Err(GameError::InvalidDuration)
    );
    assert_eq!(ShopService::buy_subscription(&mut entries, &mut gold, &prices, 1, 7, 0), Ok(10));
    assert_eq!(ShopService::buy_subscription(&mut entries, &mut gold, &prices, 1, 7, 1000), Ok(10));
    let plus: Vec<&BonusEntry> = entries.iter().filter(|e| e.kind == BonusKind::Plus).collect();
    assert_eq!(plus.len(), 1);
    assert_eq!(plus[0].expires_at, 14 * 86_400_000);
    let active = ShopService::active_bonuses(&entries, 1, 7, 1000);
    assert!(active.plus_active && active.clay_bonus && active.book_of_wisdom && !active.wood_bonus);
    let later = ShopService::active_bonuses(&entries, 1, 7, 2 * 86_400_000);
    assert!(later.plus_active && !later.clay_bonus && !later.book_of_wisdom);
    assert_eq!(gold.gold_balance, 60);
}

#[test]
fn payment_capture_is_idempotent() {
    let mut gold = account(0);
    let mut tx = ShopTransaction { id: 1, user_id: 1, gold_amount: 500, status: TransactionStatus::Pending };
    assert!(ShopService::complete_checkout(&mut tx, &mut gold));
    assert!(!ShopService::complete_checkout(&mut tx, &mut gold));
    assert_eq!(gold.gold_balance, 500);
    assert_eq!(tx.status, TransactionStatus::Completed);
    let mut other = ShopTransaction { id: 2, user_id: 1, gold_amount: 5, status: TransactionStatus::Pending };
    ShopService::expire_checkout(&mut other);
    assert_eq!(other.status, TransactionStatus::Failed);
    let sum: i64 = gold.ledger.iter().map(|e| e.amount).sum();
    assert_eq!(sum, 500);
    let pkg = backend::shop::GoldPackage { gold_amount: 1000, bonus_percent: 15, price_cents: 999, is_active: true };
    assert_eq!(ShopService::package_total_gold(&pkg), 1150);
}

fn sign(secret: &[u8], ts: &str, body: &[u8]) -> String {
    let mut mac = hmac::Hmac::<sha2::Sha256>::new_from_slice(secret).unwrap();
    mac.update(ts.as_bytes());
    mac.update(b".");
    mac.update(body);
    hex::encode(mac.finalize().into_bytes())
}

#[test]
fn webhook_signature_checks() {
    let body = br#"{"type":"checkout.session.completed"}"#;
    let secret = b"whsec_test";
    let sig = sign(secret, "1700000000", body);
    let header = format!("t=1700000000,v1={}", sig);
    assert_eq!(verify_webhook_signature(body, header.as_bytes(), secret, 1_700_000_100), Ok(()));
    assert_eq!(
        verify_webhook_signature(body, header.as_bytes(), secret, 1_700_000_301),
        Err(GameError::TimestampOutOfTolerance)
    );
    assert_eq!(
        verify_webhook_signature(body, header.as_bytes(), b"other", 1_700_000_000),
        Err(GameError::InvalidSignature)
    );
    assert_eq!(
        verify_webhook_signature(body, b"v1=abc", secret, 0),
        Err(GameError::MissingTimestamp)
    );
    assert_eq!(verify_webhook_signature(body, b"t=5", secret, 0), Err(GameError::MissingSignature));
    let bad_ts = sign(secret, "x1", body);
    let header2 = format!("t=x1,v1={}", bad_ts);
    assert_eq!(
        verify_webhook_signature(body, header2.as_bytes(), secret, 0),
        Err(GameError::InvalidTimestamp)
    );
}

#[test]
fn signature_parts_and_numbers() {
    let (t, v) = parse_signature_header(b"t=1,v0=zz,v1=ab,junk,t=2");
    assert_eq!(t, Some(b"2".to_vec()));
    assert_eq!(v, Some(b"ab".to_vec()));
    assert_eq!(parse_i64(b"-42"), Some(-42));
    assert_eq!(parse_i64(b"+7"), Some(7));
    assert_eq!(parse_i64(b"9223372036854775807"), Some(i64::MAX));
    assert_eq!(parse_i64(b"9223372036854775808"), None);
    assert_eq!(parse_i64(b"-9223372036854775808"), Some(i64::MIN));
    assert_eq!(parse_i64(b""), None);
    assert_eq!(parse_i64(b"-"), None);
    assert_eq!(parse_i64(b"12a"), None);
    let mac = [0x0fu8, 0xa0];
    assert_eq!(check_signature(b"10", b"0fa0", &mac, 10), Ok(()));
    assert_eq!(check_signature(b"10", b"0FA0", &mac, 10), Err(GameError::InvalidSignature));
}

fn troop(t: TroopType, n: i64, cons: i32) -> GarrisonEntry {
    GarrisonEntry { troop_type: t, count: n, in_village: n, crop_consumption: cons }
}

#[test]
fn starvation_kills_the_hungriest() {
    let mut g = vec![
        troop(TroopType::Infantry, 5, 1),
        troop(TroopType::Spearman, 3, 1),
        troop(TroopType::WarElephant, 1, 4),
    ];
    assert_eq!(TroopService::apply_starvation(0, &mut g), Some(TroopType::WarElephant));
    assert_eq!(g[2].in_village, 0);
    assert_eq!(g[0].in_village, 5);
    assert_eq!(TroopService::apply_starvation(0, &mut g), Some(TroopType::Infantry));
    assert_eq!(g[0].in_village, 4);
    assert_eq!(TroopService::apply_starvation(1, &mut g), None);
    let mut empty = vec![troop(TroopType::Infantry, 0, 1)];
    assert_eq!(TroopService::apply_starvation(-5, &mut empty), None);
    assert_eq!(empty[0].in_village, 0);
    assert_eq!(TroopService::crop_upkeep(&g), 4 + 3);
}

fn swordsman() -> TroopDefinition {
    TroopDefinition {
        troop_type: TroopType::Infantry,
        wood_cost: 95,
        clay_cost: 75,
        iron_cost: 40,
        crop_cost: 40,
        training_time_seconds: 60,
        crop_consumption: 1,
        required_building: BuildingType::Barracks,
        required_building_level: 1,
    }
}

#[test]
fn training_queue_is_fifo() {
    let bs = vec![building(BuildingType::Barracks, 3, 1)];
    let mut q = Vec::new();
    let mut s = stock(10_000, 10_000, 10_000, 0);
    s.clay = 10_000;
    s.iron = 10_000;
    let d = swordsman();
    let c = TroopService::train_troops(&mut q, &bs, &d, &mut s, 10, 1, 1, 1000).unwrap();
    assert_eq!(c.wood, 950);
    assert_eq!(c.time_seconds, 600);
    assert_eq!(s.wood, 10_000 - 950);
    TroopService::train_troops(&mut q, &bs, &d, &mut s, 2, 2, 1, 5000).unwrap();
    assert_eq!(q[0].started_at, 1000);
    assert_eq!(q[0].ends_at, 601_000);
    assert_eq!(q[1].started_at, 601_000);
    assert_eq!(q[1].ends_at, 601_000 + 120_000);
    assert_eq!(
        TroopService::train_troops(&mut q, &bs, &d, &mut s, 0, 3, 1, 0),
        Err(GameError::NonPositiveCount)
    );
    assert_eq!(
        TroopService::train_troops(&mut q, &Vec::new(), &d, &mut s, 1, 3, 1, 0),
        Err(GameError::TrainingBuildingMissing)
    );
    assert_eq!(TroopService::cancel_training(&mut q, 0, &d, &mut s, 2000), Err(GameError::TrainingStarted));
    let before = s.wood;
    let refund = TroopService::cancel_training(&mut q, 1, &d, &mut s, 2000).unwrap();
    assert_eq!(refund.wood, 190 * 3 / 4);
    assert_eq!(s.wood, before + 142);
    assert_eq!(q.len(), 1);
    let mut g = vec![troop(TroopType::Spearman, 3, 1)];
    TroopService::add_troops(&mut g, TroopType::Infantry, 10, 1);
    TroopService::add_troops(&mut g, TroopType::Spearman, 2, 1);
    assert_eq!(g.len(), 2);
    assert_eq!(g[0].count, 5);
    assert_eq!(g[1].in_village, 10);
    assert_eq!(TroopType::WarElephant.as_str(), "war_elephant");
}

#[test]
fn village_layout_and_coordinates() {
    let layout = VillageService::initial_buildings();
    assert_eq!(layout.len(), 20);
    assert_eq!(layout[0], (1, BuildingType::MainBuilding, 1));
    assert_eq!(layout[2], (101, BuildingType::Woodcutter, 0));
    assert_eq!(layout[19], (118, BuildingType::CropField, 0));
    let mut taken = Vec::new();
    for dx in -1..=1 {
        for dy in -1..=1 {
            taken.push((dx, dy));
        }
    }
    let found = VillageService::find_available_coordinates(&taken, 0, 0, 3).unwrap();
    assert_eq!(found.0.abs().max(found.1.abs()), 2);
    assert_eq!(VillageService::find_available_coordinates(&taken, 0, 0, 1), None);
    assert!(!VillageService::is_coordinate_available(&taken, 1, 1));
}

#[test]
fn event_bus_sessions() {
    let mut bus = EventBus::new();
    let a = bus.register(7);
    let b = bus.register(7);
    let c = bus.register(8);
    assert_eq!(bus.connections_for(7), vec![a, b]);
    bus.unregister(7, a);
    assert_eq!(bus.connections_for(7), vec![b]);
    assert_eq!(bus.all_connections(), vec![b, c]);
    assert_eq!(EventKind::TroopsStarved.tag(), "troops_starved");
}

#[test]
fn resources_bundle() {
    let mut r = Resources::new(1, 2, 3, 4);
    assert_eq!(r.total(), 10);
    assert!(!r.is_empty());
    r.set(TradeResourceType::Iron, 0);
    r.add(TradeResourceType::Wood, 5);
    r.subtract(TradeResourceType::Crop, 4);
    assert_eq!((r.get(TradeResourceType::Wood), r.iron, r.crop), (6, 0, 0));
    assert!(Resources::zero().is_empty());
    assert_eq!(TradeResourceType::all().len(), 4);
    assert_eq!(resource_type_name(TradeResourceType::Clay), "clay");
}

#[test]
fn training_completion_and_dispatch() {
    let bs = vec![building(BuildingType::Barracks, 3, 1)];
    let mut q = Vec::new();
    let mut s = stock(10_000, 10_000, 10_000, 0);
    s.clay = 10_000;
    s.iron = 10_000;
    let d = swordsman();
    TroopService::train_troops(&mut q, &bs, &d, &mut s, 3, 1, 1, 0).unwrap();
    let mut g: Vec<GarrisonEntry> = Vec::new();
    assert_eq!(
        TroopService::complete_training(&mut q, &mut g, &d, 179_999).map(|e| e.count),
        Err(GameError::TrainingNotDone)
    );
    assert_eq!(TroopService::complete_training(&mut q, &mut g, &d, 180_000).map(|e| e.count), Ok(3));
    assert!(q.is_empty());
    assert_eq!(g[0].in_village, 3);
    assert_eq!(TroopService::withdraw_troops(&mut g, TroopType::Infantry, 0), Err(GameError::NonPositiveCount));
    assert_eq!(TroopService::withdraw_troops(&mut g, TroopType::Infantry, 4), Err(GameError::InsufficientTroops));
    assert_eq!(TroopService::withdraw_troops(&mut g, TroopType::Spearman, 1), Err(GameError::InsufficientTroops));
    assert_eq!(TroopService::withdraw_troops(&mut g, TroopType::Infantry, 2), Ok(()));
    assert_eq!((g[0].in_village, g[0].count), (1, 1));
}

#[test]
fn finish_now_on_a_training_batch() {
    let bs = vec![building(BuildingType::Barracks, 3, 1)];
    let mut q = Vec::new();
    let mut s = stock(10_000, 10_000, 10_000, 0);
    s.clay = 10_000;
    s.iron = 10_000;
    let d = swordsman();
    TroopService::train_troops(&mut q, &bs, &d, &mut s, 5, 1, 1, 0).unwrap();
    TroopService::train_troops(&mut q, &bs, &d, &mut s, 5, 2, 1, 0).unwrap();
    let mut g: Vec<GarrisonEntry> = Vec::new();
    let mut gold = account(1);
    assert_eq!(
        ShopService::use_finish_now_training(&mut q, 1, &mut g, &d, 1, 2, &mut gold, 0),
        Err(GameError::NotOwner)
    );
    assert_eq!(
        ShopService::use_finish_now_training(&mut q, 1, &mut g, &d, 1, 1, &mut gold, 0),
        Err(GameError::InsufficientGold)
    );
    assert_eq!(ShopService::use_finish_now_training(&mut q, 0, &mut g, &d, 1, 1, &mut gold, 0), Ok(1));
    assert_eq!(q.len(), 1);
    assert_eq!(q[0].id, 2);
    assert_eq!(g[0].in_village, 5);
    assert_eq!(gold.gold_balance, 0);
}

#[test]
fn army_travel_and_arrival() {
    assert_eq!(ArmyService::distance(0, 0, 3, 4), 5);
    assert_eq!(ArmyService::distance(0, 0, 1, 1), 2);
    assert_eq!(ArmyService::distance(-2, 7, -2, 7), 0);
    assert_eq!(ArmyService::arrival_time(1000, 5, 7), 1000 + 2_571_429);
    assert_eq!(ArmyService::arrival_time(0, 0, 7), 0);
    assert!(Mission::Raid.is_hostile() && !Mission::Reinforce.is_hostile());
    let mut g = vec![troop(TroopType::Infantry, 5, 1)];
    let mut s = stock(700, 0, 800, 0);
    let back = ArmyMovement {
        id: 1,
        source_village_id: 1,
        destination_village_id: 2,
        troops: vec![
            TroopCount { troop_type: TroopType::Infantry, count: 3, crop_consumption: 1 },
            TroopCount { troop_type: TroopType::WarElephant, count: 1, crop_consumption: 4 },
        ],
        mission: Mission::Return,
        dispatched_at: 0,
        arrives_at: 10,
        carried: Resources::new(200, 50, 0, 0),
    };
    ArmyService::arrive(back, &mut g, &mut s);
    assert_eq!(g[0].in_village, 8);
    assert_eq!(g[1].troop_type, TroopType::WarElephant);
    assert_eq!((s.wood, s.clay), (800, 50));
}

#[test]
fn catch_up_selection() {
    let s = stock(0, 0, 800, 1_000_000);
    assert!(!ResourceService::needs_catch_up(&s, 1_060_000));
    assert!(ResourceService::needs_catch_up(&s, 1_060_001));
}

#[test]
fn founding_a_village() {
    let taken = vec![(3, 4)];
    let req = backend::village::CreateVillageRequest { name: "Haven".to_string(), x: 3, y: 4 };
    let r = VillageService::place_village(&req, &taken, 0);
    assert_eq!(r, Err(GameError::CoordinatesTaken));
    assert_eq!(GameError::CoordinatesTaken.kind(), ErrorKind::Conflict);
    let free = backend::village::CreateVillageRequest { name: "Haven".to_string(), x: 3, y: 5 };
    let p = VillageService::place_village(&free, &taken, 0).unwrap();
    assert!(p.is_capital);
    assert!(!VillageService::place_village(&free, &taken, 2).unwrap().is_capital);
}
