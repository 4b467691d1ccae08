use vstd::prelude::*;

use crate::errors::{GameError, InventoryError, PlayerError, RoomError};
use crate::instructions::{
    claim_lootbox_spec, claim_quest_reward_spec, collect_clean_cash_spec, collect_dirty_cash_spec,
    initialize_player_spec, launder_dirty_cash_spec, purchase_room_spec, recruit_team_member_spec,
    recruit_units_spec, upgrade_lootbox_spec,
};
use crate::inventory::{InventoryItem, InventoryView};
use crate::laws::player_wf;
use crate::player::{owns_room_type, PlayerView};
use crate::quest::{has_quest, lemma_with_quest};
use crate::room::RoomType;

verus! {

/// What each kind of room produces per minute: Laundry 50, Fast Food
/// Restaurant 75, Fitness Center 85, Unlicensed Bar 65, Cannabis Farm 70,
/// Strip Club 100, Casino 120; the Saferoom and the Security Room produce nothing.
pub proof fn law_yields_per_minute(t: RoomType)
    ensures
        t == RoomType::Laundry ==> t.yield_per_minute() == 50,
        t == RoomType::FastFoodRestaurant ==> t.yield_per_minute() == 75,
        t == RoomType::FitnessCenter ==> t.yield_per_minute() == 85,
        t == RoomType::UnlicensedBar ==> t.yield_per_minute() == 65,
        t == RoomType::CannabisFarm ==> t.yield_per_minute() == 70,
        t == RoomType::StripClub ==> t.yield_per_minute() == 100,
        t == RoomType::Casino ==> t.yield_per_minute() == 120,
        t == RoomType::Saferoom ==> t.yield_per_minute() == 0,
        t == RoomType::SecurityRoom ==> t.yield_per_minute() == 0,
{
}

/// A room that a purchase builds is room number `n + 1` of kind `t`, at level
/// 1, last collected at the time of purchase, holding at most: Laundry 100,
/// Fast Food Restaurant 200, Fitness Center 300, Unlicensed Bar 150, Cannabis
/// Farm 250, Strip Club 400, Casino 500, Saferoom 300, Security Room 0.
pub proof fn law_built_room(p: PlayerView, t: RoomType, now: i64)
    requires
        purchase_room_spec(p, t, now) is Ok,
        p.rooms.len() < u64::MAX,
    ensures
        ({
            let rooms = purchase_room_spec(p, t, now)->Ok_0.rooms;
            let r = rooms[rooms.len() - 1];
            &&& rooms.len() == p.rooms.len() + 1
            &&& rooms.take(p.rooms.len() as int) =~= p.rooms
            &&& r.id == p.rooms.len() + 1
            &&& r.room_type == t
            &&& r.level == 1
            &&& r.last_collected == now as u64
            &&& t == RoomType::Laundry ==> r.storage_capacity == 100
            &&& t == RoomType::FastFoodRestaurant ==> r.storage_capacity == 200
            &&& t == RoomType::FitnessCenter ==> r.storage_capacity == 300
            &&& t == RoomType::UnlicensedBar ==> r.storage_capacity == 150
            &&& t == RoomType::CannabisFarm ==> r.storage_capacity == 250
            &&& t == RoomType::StripClub ==> r.storage_capacity == 400
            &&& t == RoomType::Casino ==> r.storage_capacity == 500
            &&& t == RoomType::Saferoom ==> r.storage_capacity == 300
            &&& t == RoomType::SecurityRoom ==> r.storage_capacity == 0
        }),
{
    let rooms = purchase_room_spec(p, t, now)->Ok_0.rooms;
    assert(rooms =~= p.rooms.push(crate::instructions::new_room(p, t, now)));
    assert(rooms.take(p.rooms.len() as int) =~= p.rooms);
    assert(rooms[rooms.len() - 1] == crate::instructions::new_room(p, t, now));
}

/// The most a lone, well-formed room hands over in one collection, once it has
/// produced at least 500: as dirty cash, Unlicensed Bar 150, Cannabis Farm 250,
/// Strip Club 400, Casino 500; as laundering capacity, Laundry 100, Fast Food
/// Restaurant 200, Fitness Center 300; every other kind hands over nothing of
/// that sort. Laundering converts that capacity when at least that much dirty
/// cash is held.
pub proof fn law_lone_room_collection(p: PlayerView, now: i64, produced: u64)
    requires
        player_wf(p),
        p.rooms.len() == 1,
        produced >= 500,
        p.dirty_cash >= 500,
        p.dirty_cash <= u64::MAX - 500,
    ensures
        ({
            let t = p.rooms[0].room_type;
            let gained = collect_dirty_cash_spec(p, now, seq![produced]).dirty_cash - p.dirty_cash;
            let converted = collect_clean_cash_spec(p, now, seq![produced])->Ok_0.1;
            &&& collect_clean_cash_spec(p, now, seq![produced]) is Ok
            &&& t == RoomType::UnlicensedBar ==> gained == 150 && converted == 0
            &&& t == RoomType::CannabisFarm ==> gained == 250 && converted == 0
            &&& t == RoomType::StripClub ==> gained == 400 && converted == 0
            &&& t == RoomType::Casino ==> gained == 500 && converted == 0
            &&& t == RoomType::Laundry ==> gained == 0 && converted == 100
            &&& t == RoomType::FastFoodRestaurant ==> gained == 0 && converted == 200
            &&& t == RoomType::FitnessCenter ==> gained == 0 && converted == 300
            &&& t == RoomType::Saferoom ==> gained == 0 && converted == 0
            &&& t == RoomType::SecurityRoom ==> gained == 0 && converted == 0
        }),
{
    reveal_with_fuel(crate::instructions::harvest_total, 2);
    assert(p.rooms.drop_last().len() == 0);
    assert(seq![produced][0] == produced);
    assert(p.rooms[0].storage_capacity == p.rooms[0].room_type.storage_capacity());
    assert(crate::room::pending_reward(p.rooms[0], produced) == p.rooms[0].storage_capacity);
}

/// Buying a room completes exactly one quest besides those already completed:
/// Laundry 0, Unlicensed Bar 1, Fast Food Restaurant 3, Security Room 4,
/// Cannabis Farm 6, Saferoom 7, Strip Club 8, Casino 9, Fitness Center 10.
pub proof fn law_purchase_completes_its_quest(p: PlayerView, t: RoomType, now: i64, q: u8)
    requires
        purchase_room_spec(p, t, now) is Ok,
    ensures
        ({
            let done = has_quest(purchase_room_spec(p, t, now)->Ok_0.quest_completion_bitmask, q);
            let before = has_quest(p.quest_completion_bitmask, q);
            &&& t == RoomType::Laundry ==> done == (before || q == 0)
            &&& t == RoomType::UnlicensedBar ==> done == (before || q == 1)
            &&& t == RoomType::FastFoodRestaurant ==> done == (before || q == 3)
            &&& t == RoomType::SecurityRoom ==> done == (before || q == 4)
            &&& t == RoomType::CannabisFarm ==> done == (before || q == 6)
            &&& t == RoomType::Saferoom ==> done == (before || q == 7)
            &&& t == RoomType::StripClub ==> done == (before || q == 8)
            &&& t == RoomType::Casino ==> done == (before || q == 9)
            &&& t == RoomType::FitnessCenter ==> done == (before || q == 10)
        }),
{
    lemma_with_quest(p.quest_completion_bitmask, t.purchase_quest(), q);
}

/// Recruiting units adds exactly the units recruited, and a player whose new
/// totals are at least 10 enforcers and 10 hitmen has quest 5 completed; no
/// other quest changes.
pub proof fn law_recruit_units_completes_quest_five(p: PlayerView, enforcers: u64, hitmen: u64, q: u8)
    requires
        recruit_units_spec(p, enforcers, hitmen) is Ok,
    ensures
        ({
            let p2 = recruit_units_spec(p, enforcers, hitmen)->Ok_0;
            &&& p2.enforcers == p.enforcers + enforcers
            &&& p2.hitmen == p.hitmen + hitmen
            &&& p2.clean_cash == p.clean_cash - 50 * enforcers
            &&& p2.dirty_cash == p.dirty_cash - 100 * hitmen
            &&& p2.enforcers >= 10 && p2.hitmen >= 10 ==> has_quest(p2.quest_completion_bitmask, 5)
            &&& q != 5 ==> has_quest(p2.quest_completion_bitmask, q) == has_quest(
                p.quest_completion_bitmask,
                q,
            )
            &&& has_quest(p.quest_completion_bitmask, q) ==> has_quest(p2.quest_completion_bitmask, q)
        }),
{
    lemma_with_quest(p.quest_completion_bitmask, 5, q);
    lemma_with_quest(p.quest_completion_bitmask, 5, 5);
}

/// Only a thief can be recruited: for any other item the recruitment is
/// refused, with `InvalidItem` once the inventory is initialized.
pub proof fn law_only_thieves_are_recruited(p: PlayerView, inv: InventoryView, member: InventoryItem)
    ensures
        recruit_team_member_spec(p, inv, member) is Ok ==> member == InventoryItem::Thief,
        member != InventoryItem::Thief && inv.is_initialized ==> recruit_team_member_spec(p, inv, member)
            == Err::<(PlayerView, InventoryView), GameError>(
            GameError::Inventory(InventoryError::InvalidItem),
        ),
{
}

/// The price and the experience a room takes: Laundry 100 clean cash and no
/// experience, Fast Food Restaurant 600 and 2, Fitness Center 800 and 5,
/// Unlicensed Bar 400 and 1, Cannabis Farm 500 and 3, Strip Club 1500 and 4,
/// Casino 2000 and 6, Saferoom 800 and none, Security Room 600 and 2. A
/// player short of experience is refused for that; one who does not yet own
/// the kind and has the experience is refused for cash exactly when short of
/// the price, and otherwise pays exactly the price and gains one experience.
pub proof fn law_room_prices(p: PlayerView, t: RoomType, now: i64, price: u64, needed: u64)
    requires
        t == RoomType::Laundry ==> price == 100 && needed == 0,
        t == RoomType::FastFoodRestaurant ==> price == 600 && needed == 2,
        t == RoomType::FitnessCenter ==> price == 800 && needed == 5,
        t == RoomType::UnlicensedBar ==> price == 400 && needed == 1,
        t == RoomType::CannabisFarm ==> price == 500 && needed == 3,
        t == RoomType::StripClub ==> price == 1500 && needed == 4,
        t == RoomType::Casino ==> price == 2000 && needed == 6,
        t == RoomType::Saferoom ==> price == 800 && needed == 0,
        t == RoomType::SecurityRoom ==> price == 600 && needed == 2,
        p.experience < u64::MAX,
    ensures
        p.experience < needed ==> purchase_room_spec(p, t, now) == Err::<PlayerView, GameError>(
            GameError::Room(RoomError::InsufficientExperience),
        ),
        p.experience >= needed && !owns_room_type(p.rooms, t) ==> (purchase_room_spec(p, t, now)
            is Ok <==> p.clean_cash >= price),
        p.experience >= needed && !owns_room_type(p.rooms, t) && p.clean_cash < price
            ==> purchase_room_spec(p, t, now) == Err::<PlayerView, GameError>(
            GameError::Room(RoomError::InsufficientFunds),
        ),
        purchase_room_spec(p, t, now) matches Ok(p2) ==> p2.clean_cash == p.clean_cash - price
            && p2.experience == p.experience + 1,
{
}

/// Which rooms earn dirty cash and which launder it: the Unlicensed Bar,
/// Cannabis Farm, Strip Club and Casino earn; the Laundry, Fast Food Restaurant
/// and Fitness Center launder; the Saferoom and Security Room do neither.
pub proof fn law_business_kinds(t: RoomType)
    ensures
        t.earns_dirty_cash() <==> (t == RoomType::UnlicensedBar || t == RoomType::CannabisFarm || t
            == RoomType::StripClub || t == RoomType::Casino),
        t.launders_cash() <==> (t == RoomType::Laundry || t == RoomType::FastFoodRestaurant || t
            == RoomType::FitnessCenter),
{
}

/// A new player starts with 500 clean cash and nothing else: no silver,
/// experience, dirty cash, units, rooms or lootbox level.
pub proof fn law_starting_player(p: PlayerView, owner: [u8; 32])
    ensures
        initialize_player_spec(p, owner) matches Ok(p2) ==> {
            &&& p2.is_initialized
            &&& p2.owner == owner
            &&& p2.clean_cash == 500
            &&& p2.silver == 0 && p2.experience == 0 && p2.dirty_cash == 0
            &&& p2.workers == 0 && p2.enforcers == 0 && p2.hitmen == 0
            &&& p2.lootbox_level == 0
            &&& p2.rooms.len() == 0
        },
{
}

/// The lootbox is claimed at level 1 with at least 3 experience; upgrading it
/// from levels 1, 2 and 3 costs 1000, 2400 and 3800 silver and raises the
/// level by one; at level 4 it is refused.
pub proof fn law_lootbox_prices(p: PlayerView)
    ensures
        claim_lootbox_spec(p) is Ok <==> (p.lootbox_level == 0 && p.experience >= 3),
        claim_lootbox_spec(p) matches Ok(p2) ==> p2.lootbox_level == 1,
        p.lootbox_level == 1 ==> (upgrade_lootbox_spec(p) is Ok <==> p.silver >= 1000),
        p.lootbox_level == 2 ==> (upgrade_lootbox_spec(p) is Ok <==> p.silver >= 2400),
        p.lootbox_level == 3 ==> (upgrade_lootbox_spec(p) is Ok <==> p.silver >= 3800),
        p.lootbox_level >= 4 ==> upgrade_lootbox_spec(p) == Err::<PlayerView, GameError>(
            GameError::Player(PlayerError::MaxLevelReached),
        ),
        upgrade_lootbox_spec(p) matches Ok(p2) ==> p2.lootbox_level == p.lootbox_level + 1 && (
        p.lootbox_level == 1 ==> p2.silver == p.silver - 1000) && (p.lootbox_level == 2
            ==> p2.silver == p.silver - 2400) && (p.lootbox_level == 3 ==> p2.silver == p.silver
            - 3800),
{
}

/// A completed, unclaimed quest pays exactly 100 silver and is then claimed.
pub proof fn law_quest_reward_is_100_silver(p: PlayerView, q: u8)
    requires
        p.silver + 100 <= u64::MAX,
    ensures
        claim_quest_reward_spec(p, q) is Ok <==> (has_quest(p.quest_completion_bitmask, q)
            && !has_quest(p.quest_claim_bitmask, q)),
        claim_quest_reward_spec(p, q) matches Ok(p2) ==> p2.silver == p.silver + 100 && has_quest(
            p2.quest_claim_bitmask,
            q,
        ),
{
    lemma_with_quest(p.quest_claim_bitmask, q, q);
}

/// Recruiting a thief takes an initialized inventory without a thief, 9
/// experience and 5000 dirty cash; it costs exactly 5000 dirty cash, adds the
/// thief, earns one experience and completes quest 11.
pub proof fn law_thief_recruitment(p: PlayerView, inv: InventoryView)
    requires
        p.experience < u64::MAX,
    ensures
        recruit_team_member_spec(p, inv, InventoryItem::Thief) is Ok <==> (inv.is_initialized
            && !inv.items.contains(InventoryItem::Thief) && p.experience >= 9 && p.dirty_cash
            >= 5000),
        recruit_team_member_spec(p, inv, InventoryItem::Thief) matches Ok((p2, inv2)) ==> {
            &&& p2.dirty_cash == p.dirty_cash - 5000
            &&& p2.experience == p.experience + 1
            &&& has_quest(p2.quest_completion_bitmask, 11)
            &&& inv2.items == inv.items.push(InventoryItem::Thief)
        },
{
    lemma_with_quest(p.quest_completion_bitmask, 11, 11);
}

/// Laundering moves exactly the converted dirty cash into the clean cash
/// produced, and a player ending with at least 600 clean cash has quest 2
/// completed.
pub proof fn law_laundering_completes_quest_two(p: PlayerView, convertible: u64, clean_produced: u64)
    requires
        0 < convertible <= p.dirty_cash,
        p.clean_cash + clean_produced <= u64::MAX,
    ensures
        ({
            let p2 = launder_dirty_cash_spec(p, convertible, clean_produced);
            &&& p2.dirty_cash == p.dirty_cash - convertible
            &&& p2.clean_cash == p.clean_cash + clean_produced
            &&& p2.clean_cash >= 600 ==> has_quest(p2.quest_completion_bitmask, 2)
        }),
{
    lemma_with_quest(p.quest_completion_bitmask, 2, 2);
}

} // verus!
