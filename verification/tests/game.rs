use startup_game::clock::current_time;
use startup_game::errors::{GameError, InventoryError, PlayerError, RoomError};
use startup_game::instructions::{
    claim_lootbox, claim_quest_reward, collect_clean_cash, collect_dirty_cash, collection_total,
    initialize_inventory, initialize_player, launder_dirty_cash, purchase_room, purchase_room_at,
    purchase_room_check, recruit_team_member, recruit_team_member_check, recruit_units,
    upgrade_lootbox,
};
use startup_game::inventory::{Inventory, InventoryItem};
use startup_game::player::Player;
use startup_game::quest::{mask_has_quest, mask_with_quest};
use startup_game::room::{Room, RoomType};

const OWNER: [u8; 32] = [7u8; 32];

fn blank_player() -> Player {
    Player {
        is_initialized: false,
        owner: [0u8; 32],
        lootbox_level: 0,
        silver: 0,
        experience: 0,
        clean_cash: 0,
        dirty_cash: 0,
        workers: 0,
        enforcers: 0,
        hitmen: 0,
        quest_completion_bitmask: 0,
        quest_claim_bitmask: 0,
        rooms: Vec::new(),
    }
}

fn fresh_player() -> Player {
    let mut p = blank_player();
    initialize_player(&mut p, OWNER).unwrap();
    p
}

fn room(id: u64, room_type: RoomType, last_collected: u64) -> Room {
    Room {
        id,
        room_type,
        level: 1,
        storage_capacity: room_type.storage_capacity(),
        last_collected,
    }
}

fn same_player(a: &Player, b: &Player) -> bool {
    a.is_initialized == b.is_initialized
        && a.owner == b.owner
        && a.lootbox_level == b.lootbox_level
        && a.silver == b.silver
        && a.experience == b.experience
        && a.clean_cash == b.clean_cash
        && a.dirty_cash == b.dirty_cash
        && a.workers == b.workers
        && a.enforcers == b.enforcers
        && a.hitmen == b.hitmen
        && a.quest_completion_bitmask == b.quest_completion_bitmask
        && a.quest_claim_bitmask == b.quest_claim_bitmask
        && a.rooms == b.rooms
}

fn copy_player(p: &Player) -> Player {
    Player {
        is_initialized: p.is_initialized,
        owner: p.owner,
        lootbox_level: p.lootbox_level,
        silver: p.silver,
        experience: p.experience,
        clean_cash: p.clean_cash,
        dirty_cash: p.dirty_cash,
        workers: p.workers,
        enforcers: p.enforcers,
        hitmen: p.hitmen,
        quest_completion_bitmask: p.quest_completion_bitmask,
        quest_claim_bitmask: p.quest_claim_bitmask,
        rooms: p.rooms.clone(),
    }
}

// ------------------------------------------------------------ tables

#[test]
fn room_tables_match_the_game() {
    assert_eq!(RoomType::Laundry.cost(), 100);
    assert_eq!(RoomType::FastFoodRestaurant.cost(), 600);
    assert_eq!(RoomType::FitnessCenter.cost(), 800);
    assert_eq!(RoomType::UnlicensedBar.cost(), 400);
    assert_eq!(RoomType::CannabisFarm.cost(), 500);
    assert_eq!(RoomType::StripClub.cost(), 1500);
    assert_eq!(RoomType::Casino.cost(), 2000);
    assert_eq!(RoomType::Saferoom.cost(), 800);
    assert_eq!(RoomType::SecurityRoom.cost(), 600);
    assert_eq!(RoomType::Casino.experience_requirement(), 6);
    assert_eq!(RoomType::FitnessCenter.experience_requirement(), 5);
    assert_eq!(RoomType::Laundry.experience_requirement(), 0);
    assert_eq!(RoomType::Casino.storage_capacity(), 500);
    assert_eq!(RoomType::SecurityRoom.storage_capacity(), 0);
    assert_eq!(RoomType::UnlicensedBar.storage_capacity(), 150);
    assert_eq!(RoomType::Casino.yield_per_minute(), 120);
    assert_eq!(RoomType::Saferoom.yield_per_minute(), 0);
    assert_eq!(RoomType::FitnessCenter.yield_per_minute(), 85);
    assert!(RoomType::StripClub.earns_dirty_cash());
    assert!(!RoomType::Laundry.earns_dirty_cash());
    assert!(RoomType::FastFoodRestaurant.launders_cash());
    assert!(!RoomType::Saferoom.launders_cash());
    assert_eq!(RoomType::FitnessCenter.purchase_quest(), 10);
    assert_eq!(RoomType::SecurityRoom.purchase_quest(), 4);
}

#[test]
fn pending_rewards_are_capped_by_storage() {
    let r = room(1, RoomType::UnlicensedBar, 100);
    assert_eq!(r.pending_rewards(40), 40);
    assert_eq!(r.pending_rewards(150), 150);
    assert_eq!(r.pending_rewards(1000), 150);
    assert_eq!(r.elapsed_since_collection(160), 60);
    assert_eq!(r.elapsed_since_collection(50), 0);
}

// ------------------------------------------------------------ quests

#[test]
fn quest_bits_are_independent() {
    let m = mask_with_quest(0, 3);
    assert_eq!(m, 8);
    assert!(mask_has_quest(m, 3));
    assert!(!mask_has_quest(m, 2));
    let m2 = mask_with_quest(m, 63);
    assert!(mask_has_quest(m2, 63));
    assert!(mask_has_quest(m2, 3));
    assert_eq!(mask_with_quest(m2, 64), m2);
    assert!(!mask_has_quest(u64::MAX, 64));
    assert!(!mask_has_quest(u64::MAX, 200));
}

#[test]
fn player_quest_methods() {
    let mut p = fresh_player();
    assert!(!p.is_quest_completed(11));
    p.complete_quest(Player::QUEST_RECRUIT_THIEF);
    assert!(p.is_quest_completed(11));
    assert_eq!(p.quest_completion_bitmask, 1 << 11);
    p.complete_quest(70);
    assert_eq!(p.quest_completion_bitmask, 1 << 11);
    assert!(!p.is_quest_claimed(11));
    p.claim_quest_reward(11);
    assert!(p.is_quest_claimed(11));
}

#[test]
fn lootbox_upgrade_costs() {
    let mut p = fresh_player();
    assert_eq!(p.get_lootbox_upgrade_cost(), None);
    p.lootbox_level = 1;
    assert_eq!(p.get_lootbox_upgrade_cost(), Some(1000));
    p.lootbox_level = 2;
    assert_eq!(p.get_lootbox_upgrade_cost(), Some(2400));
    p.lootbox_level = 3;
    assert_eq!(p.get_lootbox_upgrade_cost(), Some(3800));
    p.lootbox_level = 4;
    assert_eq!(p.get_lootbox_upgrade_cost(), None);
}

// ------------------------------------------------------------ accounts

#[test]
fn initialize_player_sets_starting_state() {
    let mut p = blank_player();
    p.quest_completion_bitmask = 5;
    p.silver = 9;
    p.rooms.push(room(1, RoomType::Laundry, 0));
    assert_eq!(initialize_player(&mut p, OWNER), Ok(()));
    assert!(p.is_initialized);
    assert_eq!(p.owner, OWNER);
    assert_eq!(p.clean_cash, 500);
    assert_eq!(p.silver, 0);
    assert!(p.rooms.is_empty());
    // the quest masks are left as they were
    assert_eq!(p.quest_completion_bitmask, 5);
}

#[test]
fn initialize_player_twice_is_refused() {
    let mut p = fresh_player();
    p.clean_cash = 42;
    let before = copy_player(&p);
    assert_eq!(
        initialize_player(&mut p, [1u8; 32]),
        Err(GameError::Player(PlayerError::AlreadyInitialized))
    );
    assert!(same_player(&p, &before));
}

#[test]
fn initialize_inventory_once() {
    let mut inv = Inventory { is_initialized: false, owner: [0u8; 32], items: vec![InventoryItem::Diplomat] };
    assert_eq!(initialize_inventory(&mut inv, OWNER), Ok(()));
    assert!(inv.is_initialized);
    assert_eq!(inv.owner, OWNER);
    assert!(inv.items.is_empty());
    assert_eq!(
        initialize_inventory(&mut inv, [2u8; 32]),
        Err(GameError::Player(PlayerError::AlreadyInitialized))
    );
    assert_eq!(inv.owner, OWNER);
}

#[test]
fn inventory_membership() {
    let mut inv = Inventory { is_initialized: true, owner: OWNER, items: Vec::new() };
    assert!(!inv.has_team_member(InventoryItem::Thief));
    inv.add_team_member(InventoryItem::Thief);
    assert!(inv.has_team_member(InventoryItem::Thief));
    assert!(!inv.has_team_member(InventoryItem::Researcher));
    assert!(InventoryItem::Thief.is_allowed());
    assert!(!InventoryItem::PromoLootBox.is_allowed());
}

// ------------------------------------------------------------ lootbox

#[test]
fn claim_lootbox_needs_experience_and_works_once() {
    let mut p = fresh_player();
    p.experience = 2;
    assert_eq!(claim_lootbox(&mut p), Err(GameError::Player(PlayerError::InsufficientExperience)));
    assert_eq!(p.lootbox_level, 0);
    p.experience = 3;
    assert_eq!(claim_lootbox(&mut p), Ok(()));
    assert_eq!(p.lootbox_level, 1);
    assert_eq!(claim_lootbox(&mut p), Err(GameError::Player(PlayerError::LootboxAlreadyClaimed)));
}

#[test]
fn upgrade_lootbox_to_the_top() {
    let mut p = fresh_player();
    assert_eq!(upgrade_lootbox(&mut p), Err(GameError::Player(PlayerError::LootboxNotClaimed)));
    p.lootbox_level = 1;
    p.silver = 999;
    assert_eq!(upgrade_lootbox(&mut p), Err(GameError::Player(PlayerError::InsufficientSilver)));
    p.silver = 7500;
    assert_eq!(upgrade_lootbox(&mut p), Ok(()));
    assert_eq!((p.lootbox_level, p.silver), (2, 6500));
    assert_eq!(upgrade_lootbox(&mut p), Ok(()));
    assert_eq!((p.lootbox_level, p.silver), (3, 4100));
    assert_eq!(upgrade_lootbox(&mut p), Ok(()));
    assert_eq!((p.lootbox_level, p.silver), (4, 300));
    assert_eq!(upgrade_lootbox(&mut p), Err(GameError::Player(PlayerError::MaxLevelReached)));
    assert_eq!((p.lootbox_level, p.silver), (4, 300));
}

// ------------------------------------------------------------ rooms

#[test]
fn purchase_room_at_builds_the_room() {
    let mut p = fresh_player();
    assert_eq!(purchase_room_at(&mut p, RoomType::Laundry, 1_000), Ok(()));
    assert_eq!(p.clean_cash, 400);
    assert_eq!(p.experience, 1);
    assert_eq!(p.rooms, vec![room(1, RoomType::Laundry, 1_000)]);
    assert!(p.owns_room(RoomType::Laundry));
    assert!(!p.owns_room(RoomType::Casino));
    assert!(p.is_quest_completed(0));
    assert_eq!(purchase_room_at(&mut p, RoomType::UnlicensedBar, 2_000), Ok(()));
    assert_eq!(p.rooms[1], room(2, RoomType::UnlicensedBar, 2_000));
    assert_eq!(p.clean_cash, 0);
    assert!(p.is_quest_completed(1));
    assert_eq!(p.quest_completion_bitmask, 0b11);
}

#[test]
fn purchase_room_at_negative_time_wraps() {
    let mut p = fresh_player();
    assert_eq!(purchase_room_at(&mut p, RoomType::Laundry, -1), Ok(()));
    assert_eq!(p.rooms[0].last_collected, u64::MAX);
}

#[test]
fn purchase_room_refusals() {
    let mut p = fresh_player();
    assert_eq!(
        purchase_room_at(&mut p, RoomType::Casino, 0),
        Err(GameError::Room(RoomError::InsufficientExperience))
    );
    assert_eq!(purchase_room_at(&mut p, RoomType::Saferoom, 0), Err(GameError::Room(RoomError::InsufficientFunds)));
    assert_eq!(p.clean_cash, 500);
    assert!(p.rooms.is_empty());
    assert_eq!(purchase_room_at(&mut p, RoomType::Laundry, 0), Ok(()));
    let before = copy_player(&p);
    assert_eq!(purchase_room_at(&mut p, RoomType::Laundry, 5), Err(GameError::Room(RoomError::RoomAlreadyOwned)));
    assert!(same_player(&p, &before));
}

#[test]
fn purchase_room_reads_the_clock_after_its_checks() {
    // Outside the Solana runtime the clock sysvar is not served.
    let mut p = fresh_player();
    assert_eq!(
        purchase_room(&mut p, RoomType::Casino),
        Err(GameError::Room(RoomError::InsufficientExperience))
    );
    let before = copy_player(&p);
    // the runtime's UnsupportedSysvar error code
    assert_eq!(purchase_room(&mut p, RoomType::Laundry), Err(GameError::ClockUnavailable(17u64 << 32)));
    assert!(same_player(&p, &before));
}

// ------------------------------------------------------------ collecting

#[test]
fn collect_dirty_cash_from_illegal_businesses() {
    let mut p = fresh_player();
    p.dirty_cash = 10;
    p.rooms = vec![
        room(1, RoomType::Laundry, 0),
        room(2, RoomType::UnlicensedBar, 0),
        room(3, RoomType::Casino, 0),
        room(4, RoomType::StripClub, 0),
    ];
    // laundry is not collected; the bar is capped at 150; the strip club produced nothing
    collect_dirty_cash(&mut p, 600, &vec![70, 1000, 120, 0]);
    assert_eq!(p.dirty_cash, 10 + 150 + 120);
    assert_eq!(p.rooms[0].last_collected, 0);
    assert_eq!(p.rooms[1].last_collected, 600);
    assert_eq!(p.rooms[2].last_collected, 600);
    assert_eq!(p.rooms[3].last_collected, 0);
}

#[test]
fn collect_clean_cash_then_launder() {
    let mut p = fresh_player();
    assert_eq!(
        collect_clean_cash(&mut p, 10, &Vec::new()),
        Err(GameError::Room(RoomError::InsufficientFunds))
    );
    p.dirty_cash = 250;
    p.rooms = vec![
        room(1, RoomType::Laundry, 0),
        room(2, RoomType::FastFoodRestaurant, 0),
        room(3, RoomType::Casino, 0),
    ];
    let convertible = collect_clean_cash(&mut p, 900, &vec![500, 180, 500]).unwrap();
    // capacity 100 + 180 = 280, capped by the 250 dirty cash held
    assert_eq!(convertible, 250);
    assert_eq!(p.rooms[0].last_collected, 900);
    assert_eq!(p.rooms[1].last_collected, 900);
    assert_eq!(p.rooms[2].last_collected, 0);
    assert_eq!(p.dirty_cash, 250);
    launder_dirty_cash(&mut p, convertible, 175);
    assert_eq!(p.dirty_cash, 0);
    assert_eq!(p.clean_cash, 675);
    assert!(p.is_quest_completed(2));
}

#[test]
fn launder_nothing_changes_nothing() {
    let mut p = fresh_player();
    p.dirty_cash = 5;
    let before = copy_player(&p);
    launder_dirty_cash(&mut p, 0, 100);
    assert!(same_player(&p, &before));
    launder_dirty_cash(&mut p, 5, 4);
    assert_eq!((p.dirty_cash, p.clean_cash), (0, 504));
    assert!(!p.is_quest_completed(2));
}

// ------------------------------------------------------------ recruiting

#[test]
fn recruit_units_needs_a_security_room() {
    let mut p = fresh_player();
    assert_eq!(recruit_units(&mut p, 1, 0), Err(GameError::Room(RoomError::NoSecurityRoom)));
}

#[test]
fn recruit_units_pays_and_completes_quest() {
    let mut p = fresh_player();
    p.rooms.push(room(1, RoomType::SecurityRoom, 0));
    p.clean_cash = 600;
    p.dirty_cash = 1000;
    assert_eq!(recruit_units(&mut p, 10, 10), Ok(()));
    assert_eq!((p.clean_cash, p.dirty_cash, p.enforcers, p.hitmen), (100, 0, 10, 10));
    assert!(p.is_quest_completed(5));
    assert_eq!(recruit_units(&mut p, 0, 0), Ok(()));
    assert_eq!((p.clean_cash, p.dirty_cash), (100, 0));
}

#[test]
fn recruit_units_refusals() {
    let mut p = fresh_player();
    p.rooms.push(room(1, RoomType::SecurityRoom, 0));
    p.clean_cash = 100;
    p.dirty_cash = 100;
    let before = copy_player(&p);
    assert_eq!(recruit_units(&mut p, 3, 0), Err(GameError::Room(RoomError::InsufficientFunds)));
    assert_eq!(recruit_units(&mut p, 0, 2), Err(GameError::Room(RoomError::InsufficientFunds)));
    assert_eq!(recruit_units(&mut p, u64::MAX, 0), Err(GameError::Room(RoomError::Overflow)));
    assert_eq!(recruit_units(&mut p, 0, u64::MAX / 50), Err(GameError::Room(RoomError::Overflow)));
    assert!(same_player(&p, &before));
    p.enforcers = u64::MAX;
    p.hitmen = 3;
    let before = copy_player(&p);
    // the clean cash is not spent when the count overflows
    assert_eq!(recruit_units(&mut p, 1, 1), Err(GameError::Room(RoomError::Overflow)));
    assert!(same_player(&p, &before));
    p.enforcers = 0;
    p.hitmen = u64::MAX;
    assert_eq!(recruit_units(&mut p, 1, 1), Err(GameError::Room(RoomError::Overflow)));
    assert_eq!(p.clean_cash, 100);
}

#[test]
fn recruit_team_member_rules() {
    let mut p = fresh_player();
    let mut inv = Inventory { is_initialized: false, owner: OWNER, items: Vec::new() };
    assert_eq!(
        recruit_team_member(&mut p, &mut inv, InventoryItem::Thief),
        Err(GameError::Inventory(InventoryError::UninitializedAccount))
    );
    inv.is_initialized = true;
    assert_eq!(
        recruit_team_member(&mut p, &mut inv, InventoryItem::Diplomat),
        Err(GameError::Inventory(InventoryError::InvalidItem))
    );
    assert_eq!(
        recruit_team_member(&mut p, &mut inv, InventoryItem::Thief),
        Err(GameError::Inventory(InventoryError::InsufficientExperience))
    );
    p.experience = 9;
    p.dirty_cash = 4999;
    assert_eq!(
        recruit_team_member(&mut p, &mut inv, InventoryItem::Thief),
        Err(GameError::Inventory(InventoryError::InsufficientFunds))
    );
    p.dirty_cash = 6000;
    assert_eq!(recruit_team_member(&mut p, &mut inv, InventoryItem::Thief), Ok(()));
    assert_eq!((p.dirty_cash, p.experience), (1000, 10));
    assert_eq!(inv.items, vec![InventoryItem::Thief]);
    assert!(p.is_quest_completed(11));
    p.dirty_cash = 6000;
    assert_eq!(
        recruit_team_member(&mut p, &mut inv, InventoryItem::Thief),
        Err(GameError::Inventory(InventoryError::AlreadyRecruited))
    );
    assert_eq!(p.dirty_cash, 6000);
}

// ------------------------------------------------------------ quests

#[test]
fn claim_quest_reward_once() {
    let mut p = fresh_player();
    assert_eq!(claim_quest_reward(&mut p, 0), Err(GameError::Player(PlayerError::QuestNotCompleted)));
    assert_eq!(purchase_room_at(&mut p, RoomType::Laundry, 0), Ok(()));
    assert_eq!(claim_quest_reward(&mut p, 0), Ok(()));
    assert_eq!(p.silver, 100);
    assert!(p.is_quest_claimed(0));
    assert_eq!(claim_quest_reward(&mut p, 0), Err(GameError::Player(PlayerError::RewardAlreadyClaimed)));
    assert_eq!(p.silver, 100);
    assert_eq!(claim_quest_reward(&mut p, 64), Err(GameError::Player(PlayerError::QuestNotCompleted)));
}

#[test]
fn a_game_from_the_start() {
    let mut p = fresh_player();
    let mut inv = Inventory { is_initialized: false, owner: [0u8; 32], items: Vec::new() };
    assert_eq!(initialize_inventory(&mut inv, OWNER), Ok(()));
    assert_eq!(purchase_room_at(&mut p, RoomType::Laundry, 100), Ok(()));
    assert_eq!(purchase_room_at(&mut p, RoomType::UnlicensedBar, 100), Ok(()));
    assert_eq!(p.experience, 2);
    assert_eq!(p.clean_cash, 0);
    collect_dirty_cash(&mut p, 200, &vec![0, 108]);
    assert_eq!(p.dirty_cash, 108);
    let c = collect_clean_cash(&mut p, 300, &vec![100, 0]).unwrap();
    assert_eq!(c, 100);
    launder_dirty_cash(&mut p, c, 70);
    assert_eq!((p.clean_cash, p.dirty_cash), (70, 8));
    assert_eq!(claim_quest_reward(&mut p, 1), Ok(()));
    assert_eq!(p.silver, 100);
    assert_eq!(p.rooms.len(), 2);
}

const ALL_KINDS: [RoomType; 9] = [
    RoomType::Laundry,
    RoomType::FastFoodRestaurant,
    RoomType::FitnessCenter,
    RoomType::UnlicensedBar,
    RoomType::CannabisFarm,
    RoomType::StripClub,
    RoomType::Casino,
    RoomType::Saferoom,
    RoomType::SecurityRoom,
];

#[test]
fn every_kind_of_room_once_and_no_more() {
    let mut p = fresh_player();
    p.experience = 6;
    p.clean_cash = 1_000_000;
    for (i, kind) in ALL_KINDS.iter().enumerate() {
        assert_eq!(purchase_room_at(&mut p, *kind, 10), Ok(()));
        assert_eq!(p.rooms[i].id, i as u64 + 1);
        assert_eq!(p.rooms[i].level, 1);
        assert_eq!(p.rooms[i].storage_capacity, kind.storage_capacity());
    }
    assert_eq!(p.rooms.len(), 9);
    assert_eq!(p.experience, 15);
    assert_eq!(p.clean_cash, 1_000_000 - 7300);
    // every quest a purchase can complete is completed
    assert_eq!(p.quest_completion_bitmask, 0b111_1101_1011);
    for kind in ALL_KINDS.iter() {
        assert_eq!(purchase_room_at(&mut p, *kind, 20), Err(GameError::Room(RoomError::RoomAlreadyOwned)));
    }
    assert_eq!(p.rooms.len(), 9);
}

#[test]
fn collections_hand_over_at_most_the_storage() {
    let mut p = fresh_player();
    p.rooms = ALL_KINDS.iter().enumerate().map(|(i, k)| room(i as u64 + 1, *k, 0)).collect();
    let huge = vec![u64::MAX; 9];
    // illegal businesses: 150 + 250 + 400 + 500
    assert_eq!(collection_total(&p.rooms, &huge, false), Some(1300));
    // legal businesses: 100 + 200 + 300
    assert_eq!(collection_total(&p.rooms, &huge, true), Some(600));
    assert_eq!(collection_total(&p.rooms, &vec![0; 9], false), Some(0));
    let before = copy_player(&p);
    collect_dirty_cash(&mut p, 50, &vec![0; 9]);
    assert!(same_player(&p, &before));
    collect_dirty_cash(&mut p, 50, &huge);
    assert_eq!(p.dirty_cash, 1300);
}

#[test]
fn collection_total_reports_overflow() {
    let mut rooms = vec![room(1, RoomType::Casino, 0), room(2, RoomType::StripClub, 0)];
    rooms[0].storage_capacity = u64::MAX;
    rooms[1].storage_capacity = u64::MAX;
    assert_eq!(collection_total(&rooms, &vec![u64::MAX, 1], false), None);
    assert_eq!(collection_total(&rooms, &vec![u64::MAX - 1, 1], false), Some(u64::MAX));
    assert_eq!(collection_total(&rooms, &vec![u64::MAX, 1], true), Some(0));
}

#[test]
fn checks_before_an_instruction() {
    let mut p = fresh_player();
    assert_eq!(purchase_room_check(&p, RoomType::Laundry), Ok(()));
    assert_eq!(purchase_room_check(&p, RoomType::Casino), Err(GameError::Room(RoomError::InsufficientExperience)));
    assert_eq!(p.rooms.len(), 0);
    let inv = Inventory { is_initialized: true, owner: OWNER, items: vec![InventoryItem::Thief] };
    p.experience = 9;
    p.dirty_cash = 5000;
    assert_eq!(
        recruit_team_member_check(&p, &inv, InventoryItem::Thief),
        Err(GameError::Inventory(InventoryError::AlreadyRecruited))
    );
    let empty = Inventory { is_initialized: true, owner: OWNER, items: Vec::new() };
    assert_eq!(recruit_team_member_check(&p, &empty, InventoryItem::Thief), Ok(()));
}

#[test]
fn quests_stay_completed_through_the_game() {
    let mut p = fresh_player();
    p.rooms.push(room(1, RoomType::SecurityRoom, 0));
    p.clean_cash = 1000;
    p.dirty_cash = 1000;
    assert_eq!(recruit_units(&mut p, 10, 10), Ok(()));
    let completed = p.quest_completion_bitmask;
    assert_eq!(completed, 1 << 5);
    assert_eq!(claim_quest_reward(&mut p, 5), Ok(()));
    assert_eq!(recruit_units(&mut p, 0, 0), Ok(()));
    collect_dirty_cash(&mut p, 0, &vec![0]);
    assert_eq!(purchase_room_at(&mut p, RoomType::Laundry, 0), Ok(()));
    assert_eq!(p.quest_completion_bitmask & completed, completed);
    assert!(p.is_quest_claimed(5));
    assert!(p.is_quest_completed(0));
}

#[test]
fn laundering_without_dirty_cash_is_refused_before_summing() {
    let mut p = fresh_player();
    let mut a = room(1, RoomType::Laundry, 0);
    let mut b = room(2, RoomType::FitnessCenter, 0);
    a.storage_capacity = u64::MAX;
    b.storage_capacity = u64::MAX;
    p.rooms = vec![a, b];
    let before = copy_player(&p);
    assert_eq!(
        collect_clean_cash(&mut p, 10, &vec![u64::MAX, u64::MAX]),
        Err(GameError::Room(RoomError::InsufficientFunds))
    );
    assert!(same_player(&p, &before));
}

#[test]
fn collecting_again_with_nothing_produced_changes_nothing() {
    let mut p = fresh_player();
    p.rooms = vec![room(1, RoomType::Casino, 5), room(2, RoomType::Laundry, 5)];
    collect_dirty_cash(&mut p, 65, &vec![120, 50]);
    assert_eq!(p.dirty_cash, 120);
    assert_eq!(p.rooms[0].elapsed_since_collection(65), 0);
    assert_eq!(p.rooms[1].elapsed_since_collection(65), 60);
    let after_first = copy_player(&p);
    collect_dirty_cash(&mut p, 65, &vec![0, 0]);
    assert!(same_player(&p, &after_first));
}

#[test]
fn pending_rewards_grow_with_production_up_to_storage() {
    let r = room(1, RoomType::Casino, 100);
    assert_eq!(r.pending_rewards(0), 0);
    assert!(r.pending_rewards(10) <= r.pending_rewards(20));
    assert_eq!(r.pending_rewards(499), 499);
    assert_eq!(r.pending_rewards(501), 500);
    assert!(r.elapsed_since_collection(150) <= r.elapsed_since_collection(200));
    assert_eq!(r.elapsed_since_collection(100), 0);
}

#[test]
fn clock_is_not_served_outside_the_runtime() {
    assert_eq!(current_time(), Err(GameError::ClockUnavailable(17u64 << 32)));
}
