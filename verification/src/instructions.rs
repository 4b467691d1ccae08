use vstd::prelude::*;

use crate::clock::current_time;
use crate::errors::{GameError, InventoryError, PlayerError, RoomError};
use crate::inventory::{Inventory, InventoryItem, InventoryView};
use crate::player::{lootbox_upgrade_cost, owns_room_type, Player, PlayerView};
use crate::quest::{has_quest, with_quest};
use crate::room::{collects, pending_reward, Room, RoomType};

verus! {

/// An instruction's outcome matches what the model expects: on success the
/// account is the expected one; on refusal the error is the expected one and
/// the account is unchanged.
pub open spec fn applied<S>(
    result: Result<(), GameError>,
    before: S,
    after: S,
    expected: Result<S, GameError>,
) -> bool {
    match expected {
        Ok(s) => result is Ok && after == s,
        Err(e) => result == Err::<(), GameError>(e) && after == before,
    }
}

// ---------------------------------------------------------------- accounts

pub open spec fn initialize_player_spec(p: PlayerView, owner: [u8; 32]) -> Result<PlayerView, GameError> {
    if p.is_initialized {
        Err(GameError::Player(PlayerError::AlreadyInitialized))
    } else {
        Ok(PlayerView {
            is_initialized: true,
            owner: owner,
            lootbox_level: 0,
            silver: 0,
            experience: 0,
            clean_cash: 500,
            dirty_cash: 0,
            workers: 0,
            enforcers: 0,
            hitmen: 0,
            rooms: Seq::empty(),
            ..p
        })
    }
}

/// Sets up a fresh player account for `owner`, with 500 clean cash to start.
pub fn initialize_player(player: &mut Player, owner: [u8; 32]) -> (result: Result<(), GameError>)
    ensures
        applied(result, old(player)@, final(player)@, initialize_player_spec(old(player)@, owner)),
{
    if player.is_initialized {
        return Err(GameError::Player(PlayerError::AlreadyInitialized));
    }
    player.is_initialized = true;
    player.owner = owner;
    player.lootbox_level = 0;
    player.silver = 0;
    player.experience = 0;
    player.clean_cash = 500;
    player.dirty_cash = 0;
    player.workers = 0;
    player.enforcers = 0;
    player.hitmen = 0;
    player.rooms = Vec::new();
    assert(player.rooms@ =~= Seq::<Room>::empty());
    Ok(())
}

pub open spec fn initialize_inventory_spec(inv: InventoryView, owner: [u8; 32]) -> Result<InventoryView, GameError> {
    if inv.is_initialized {
        Err(GameError::Player(PlayerError::AlreadyInitialized))
    } else {
        Ok(InventoryView { is_initialized: true, owner: owner, items: Seq::empty() })
    }
}

/// Sets up a fresh, empty inventory account for `owner`.
pub fn initialize_inventory(inventory: &mut Inventory, owner: [u8; 32]) -> (result: Result<(), GameError>)
    ensures
        applied(result, old(inventory)@, final(inventory)@, initialize_inventory_spec(old(inventory)@, owner)),
{
    if inventory.is_initialized {
        return Err(GameError::Player(PlayerError::AlreadyInitialized));
    }
    inventory.is_initialized = true;
    inventory.owner = owner;
    inventory.items = Vec::new();
    assert(inventory.items@ =~= Seq::<InventoryItem>::empty());
    Ok(())
}

// ---------------------------------------------------------------- lootbox

pub open spec fn claim_lootbox_spec(p: PlayerView) -> Result<PlayerView, GameError> {
    if p.lootbox_level > 0 {
        Err(GameError::Player(PlayerError::LootboxAlreadyClaimed))
    } else if p.experience < 3 {
        Err(GameError::Player(PlayerError::InsufficientExperience))
    } else {
        Ok(PlayerView { lootbox_level: 1, ..p })
    }
}

/// Claims the lootbox at level 1; it takes 3 experience and can be done once.
pub fn claim_lootbox(player: &mut Player) -> (result: Result<(), GameError>)
    ensures
        applied(result, old(player)@, final(player)@, claim_lootbox_spec(old(player)@)),
{
    if player.lootbox_level > 0 {
        return Err(GameError::Player(PlayerError::LootboxAlreadyClaimed));
    }
    if player.experience < 3 {
        return Err(GameError::Player(PlayerError::InsufficientExperience));
    }
    player.lootbox_level = 1;
    Ok(())
}

pub open spec fn upgrade_lootbox_spec(p: PlayerView) -> Result<PlayerView, GameError> {
    if p.lootbox_level == 0 {
        Err(GameError::Player(PlayerError::LootboxNotClaimed))
    } else {
        match lootbox_upgrade_cost(p.lootbox_level) {
            None => Err(GameError::Player(PlayerError::MaxLevelReached)),
            Some(cost) => if p.silver < cost {
                Err(GameError::Player(PlayerError::InsufficientSilver))
            } else {
                Ok(
                    PlayerView {
                        silver: (p.silver - cost) as u64,
                        lootbox_level: (p.lootbox_level + 1) as u8,
                        ..p
                    },
                )
            },
        }
    }
}

/// Raises a claimed lootbox by one level, paying its cost in silver.
pub fn upgrade_lootbox(player: &mut Player) -> (result: Result<(), GameError>)
    ensures
        applied(result, old(player)@, final(player)@, upgrade_lootbox_spec(old(player)@)),
{
    if player.lootbox_level == 0 {
        return Err(GameError::Player(PlayerError::LootboxNotClaimed));
    }
    let cost = match player.get_lootbox_upgrade_cost() {
        Some(c) => c,
        None => {
            return Err(GameError::Player(PlayerError::MaxLevelReached));
        },
    };
    if player.silver < cost {
        return Err(GameError::Player(PlayerError::InsufficientSilver));
    }
    player.silver = player.silver - cost;
    player.lootbox_level = player.lootbox_level + 1;
    Ok(())
}

// ---------------------------------------------------------------- rooms

/// Why a room of kind `t` cannot be bought, if it cannot.
pub open spec fn purchase_room_refusal(p: PlayerView, t: RoomType) -> Option<GameError> {
    if p.experience < t.experience_requirement() {
        Some(GameError::Room(RoomError::InsufficientExperience))
    } else if owns_room_type(p.rooms, t) {
        Some(GameError::Room(RoomError::RoomAlreadyOwned))
    } else if p.clean_cash < t.cost() {
        Some(GameError::Room(RoomError::InsufficientFunds))
    } else {
        None
    }
}

/// The room that a purchase at time `now` adds.
pub open spec fn new_room(p: PlayerView, t: RoomType, now: i64) -> Room {
    Room {
        id: (p.rooms.len() + 1) as u64,
        room_type: t,
        level: 1,
        storage_capacity: t.storage_capacity(),
        last_collected: now as u64,
    }
}

pub open spec fn purchase_room_spec(p: PlayerView, t: RoomType, now: i64) -> Result<PlayerView, GameError> {
    match purchase_room_refusal(p, t) {
        Some(e) => Err(e),
        None => Ok(
            PlayerView {
                clean_cash: (p.clean_cash - t.cost()) as u64,
                rooms: p.rooms.push(new_room(p, t, now)),
                experience: (p.experience + 1) as u64,
                quest_completion_bitmask: with_quest(
                    p.quest_completion_bitmask,
                    t.purchase_quest(),
                ),
                ..p
            },
        ),
    }
}

/// Checks whether the player may buy a room of kind `room_type`.
pub fn purchase_room_check(player: &Player, room_type: RoomType) -> (r: Result<(), GameError>)
    ensures
        match purchase_room_refusal(player@, room_type) {
            Some(e) => r == Err::<(), GameError>(e),
            None => r is Ok,
        },
{
    if player.experience < room_type.experience_requirement() {
        return Err(GameError::Room(RoomError::InsufficientExperience));
    }
    if player.owns_room(room_type) {
        return Err(GameError::Room(RoomError::RoomAlreadyOwned));
    }
    if player.clean_cash < room_type.cost() {
        return Err(GameError::Room(RoomError::InsufficientFunds));
    }
    Ok(())
}

/// Buys a room of kind `room_type` at time `now` (seconds since the epoch, as
/// the runtime's clock gives it): pays its cost in clean cash, adds the room,
/// earns one experience and completes the quest for that kind of room.
pub fn purchase_room_at(player: &mut Player, room_type: RoomType, now: i64) -> (result: Result<(), GameError>)
    requires
        purchase_room_refusal(old(player)@, room_type) is None ==> old(player).rooms.len() < u64::MAX
            && old(player).experience < u64::MAX,
    ensures
        applied(result, old(player)@, final(player)@, purchase_room_spec(old(player)@, room_type, now)),
{
    if let Err(e) = purchase_room_check(player, room_type) {
        return Err(e);
    }
    let ghost before = player@;
    player.clean_cash = player.clean_cash - room_type.cost();
    let room = Room {
        id: player.rooms.len() as u64 + 1,
        room_type: room_type,
        level: 1,
        storage_capacity: room_type.storage_capacity(),
        last_collected: now as u64,
    };
    player.rooms.push(room);
    player.experience = player.experience + 1;
    player.complete_quest(room_type.purchase_quest());
    assert(player.rooms@ =~= before.rooms.push(new_room(before, room_type, now)));
    Ok(())
}

/// Buys a room of kind `room_type` at the time the runtime's clock gives, after
/// the same checks as `purchase_room_at`. When the clock cannot be read, the
/// purchase is refused with the runtime's error code and nothing changes.
pub fn purchase_room(player: &mut Player, room_type: RoomType) -> (result: Result<(), GameError>)
    requires
        purchase_room_refusal(old(player)@, room_type) is None ==> old(player).rooms.len() < u64::MAX
            && old(player).experience < u64::MAX,
    ensures
        purchase_room_refusal(old(player)@, room_type) matches Some(e) ==> result == Err::<(), GameError>(e)
            && final(player)@ == old(player)@,
        purchase_room_refusal(old(player)@, room_type) is None ==> (result matches Err(
            GameError::ClockUnavailable(_),
        ) && final(player)@ == old(player)@) || (result is Ok && exists|now: i64|
            purchase_room_spec(old(player)@, room_type, now) == Ok::<PlayerView, GameError>(final(player)@)),
{
    if let Err(e) = purchase_room_check(player, room_type) {
        return Err(e);
    }
    let now = match current_time() {
        Ok(t) => t,
        Err(e) => {
            return Err(e);
        },
    };
    let result = purchase_room_at(player, room_type, now);
    assert(purchase_room_spec(old(player)@, room_type, now) == Ok::<PlayerView, GameError>(player@));
    result
}

// ---------------------------------------------------------------- collecting

/// The total that collecting `rooms` hands over, where `potential_rewards[i]` is
/// what room `i` produced since its last collection: the rooms of the kind
/// being collected each give their pending reward, the others nothing.
pub open spec fn harvest_total(rooms: Seq<Room>, potential_rewards: Seq<u64>, laundering: bool) -> nat
    decreases rooms.len(),
{
    if rooms.len() == 0 {
        0
    } else {
        let last = rooms.len() - 1;
        harvest_total(rooms.drop_last(), potential_rewards, laundering) + if collects(
            rooms[last].room_type,
            laundering,
        ) {
            pending_reward(rooms[last], potential_rewards[last]) as nat
        } else {
            0nat
        }
    }
}

/// The rooms after a collection at time `now`: each room that handed over
/// something is marked as collected at `now`; the others are unchanged.
pub open spec fn harvested_rooms(
    rooms: Seq<Room>,
    potential_rewards: Seq<u64>,
    laundering: bool,
    now: u64,
) -> Seq<Room> {
    rooms.map(
        |i: int, r: Room|
            if collects(r.room_type, laundering) && pending_reward(r, potential_rewards[i]) > 0 {
                Room { last_collected: now, ..r }
            } else {
                r
            },
    )
}

/// The total over a prefix of the rooms is at most the total over all of them.
pub proof fn lemma_harvest_prefix(rooms: Seq<Room>, potential_rewards: Seq<u64>, laundering: bool, i: int)
    requires
        0 <= i <= rooms.len(),
    ensures
        harvest_total(rooms.take(i), potential_rewards, laundering) <= harvest_total(
            rooms,
            potential_rewards,
            laundering,
        ),
    decreases rooms.len(),
{
    if i == rooms.len() {
        assert(rooms.take(i) =~= rooms);
    } else {
        assert(rooms.drop_last().take(i) =~= rooms.take(i));
        lemma_harvest_prefix(rooms.drop_last(), potential_rewards, laundering, i);
    }
}

/// The total that a collection would hand over, or `None` when it does not
/// fit in a `u64`; nothing is collected.
pub fn collection_total(rooms: &Vec<Room>, potential_rewards: &Vec<u64>, laundering: bool) -> (t: Option<u64>)
    requires
        rooms.len() == potential_rewards.len(),
    ensures
        match t {
            Some(v) => v == harvest_total(rooms@, potential_rewards@, laundering),
            None => harvest_total(rooms@, potential_rewards@, laundering) > u64::MAX,
        },
{
    let n = rooms.len();
    let mut total: u64 = 0;
    for i in 0..n
        invariant
            n == rooms.len(),
            n == potential_rewards.len(),
            total == harvest_total(rooms@.take(i as int), potential_rewards@, laundering),
    {
        proof {
            assert(rooms@.take(i + 1).drop_last() =~= rooms@.take(i as int));
            lemma_harvest_prefix(rooms@, potential_rewards@, laundering, i + 1);
        }
        let room = rooms[i];
        if collects_exec(room.room_type, laundering) {
            let pending = room.pending_rewards(potential_rewards[i]);
            match total.checked_add(pending) {
                Some(v) => {
                    total = v;
                },
                None => {
                    return None;
                },
            }
        }
    }
    assert(rooms@.take(n as int) =~= rooms@);
    Some(total)
}

fn collects_exec(t: RoomType, laundering: bool) -> (b: bool)
    ensures
        b == collects(t, laundering),
{
    if laundering {
        t.launders_cash()
    } else {
        t.earns_dirty_cash()
    }
}

/// Collects every room of the kind being collected and returns the total.
fn harvest(rooms: &mut Vec<Room>, potential_rewards: &Vec<u64>, laundering: bool, now: u64) -> (total: u64)
    requires
        old(rooms).len() == potential_rewards.len(),
        harvest_total(old(rooms)@, potential_rewards@, laundering) <= u64::MAX,
    ensures
        total == harvest_total(old(rooms)@, potential_rewards@, laundering),
        final(rooms)@ == harvested_rooms(old(rooms)@, potential_rewards@, laundering, now),
{
    let ghost orig = rooms@;
    let ghost target = harvested_rooms(orig, potential_rewards@, laundering, now);
    let n = rooms.len();
    let mut total: u64 = 0;
    for i in 0..n
        invariant
            n == rooms.len(),
            n == orig.len(),
            n == potential_rewards.len(),
            target == harvested_rooms(orig, potential_rewards@, laundering, now),
            harvest_total(orig, potential_rewards@, laundering) <= u64::MAX,
            total == harvest_total(orig.take(i as int), potential_rewards@, laundering),
            forall|j: int| 0 <= j < i ==> rooms@[j] == target[j],
            forall|j: int| i <= j < n ==> rooms@[j] == orig[j],
    {
        proof {
            assert(orig.take(i + 1).drop_last() =~= orig.take(i as int));
            lemma_harvest_prefix(orig, potential_rewards@, laundering, i + 1);
        }
        let room = rooms[i];
        if collects_exec(room.room_type, laundering) {
            let pending = room.pending_rewards(potential_rewards[i]);
            if pending > 0 {
                total = total + pending;
                rooms.set(i, Room { last_collected: now, ..room });
            }
        }
    }
    assert(orig.take(n as int) =~= orig);
    assert(rooms@ =~= target);
    total
}

pub open spec fn collect_dirty_cash_spec(p: PlayerView, now: i64, potential_rewards: Seq<u64>) -> PlayerView {
    PlayerView {
        dirty_cash: (p.dirty_cash + harvest_total(p.rooms, potential_rewards, false)) as u64,
        rooms: harvested_rooms(p.rooms, potential_rewards, false, now as u64),
        ..p
    }
}

/// Collects the dirty cash of the illegal businesses at time `now`, where
/// `potential_rewards[i]` is what room `i` produced since its last collection
/// (its yield over the seconds since then). Each room hands over at most its
/// storage capacity.
pub fn collect_dirty_cash(player: &mut Player, now: i64, potential_rewards: &Vec<u64>)
    requires
        old(player).rooms.len() == potential_rewards.len(),
        old(player).dirty_cash + harvest_total(old(player).rooms@, potential_rewards@, false)
            <= u64::MAX,
    ensures
        final(player)@ == collect_dirty_cash_spec(old(player)@, now, potential_rewards@),
{
    let total = harvest(&mut player.rooms, potential_rewards, false, now as u64);
    if total > 0 {
        player.dirty_cash = player.dirty_cash + total;
    }
}

/// The smaller of two amounts.
pub open spec fn min_u64(a: u64, b: u64) -> u64 {
    if a < b {
        a
    } else {
        b
    }
}

pub open spec fn collect_clean_cash_spec(p: PlayerView, now: i64, potential_rewards: Seq<u64>) -> Result<(PlayerView, u64), GameError> {
    if p.dirty_cash == 0 {
        Err(GameError::Room(RoomError::InsufficientFunds))
    } else {
        Ok(
            (
                PlayerView { rooms: harvested_rooms(p.rooms, potential_rewards, true, now as u64), ..p },
                min_u64(harvest_total(p.rooms, potential_rewards, true) as u64, p.dirty_cash),
            ),
        )
    }
}

/// The collection half of laundering at time `now`: refuses when there is no
/// dirty cash, else collects the laundering capacity of the legal businesses
/// (`potential_rewards[i]` as for `collect_dirty_cash`) and returns how much
/// dirty cash can be converted, the smaller of that capacity and the dirty
/// cash held. `launder_dirty_cash` then performs the conversion.
pub fn collect_clean_cash(player: &mut Player, now: i64, potential_rewards: &Vec<u64>) -> (result: Result<u64, GameError>)
    requires
        old(player).rooms.len() == potential_rewards.len(),
        old(player).dirty_cash > 0 ==> harvest_total(old(player).rooms@, potential_rewards@, true)
            <= u64::MAX,
    ensures
        match result {
            Ok(c) => collect_clean_cash_spec(old(player)@, now, potential_rewards@) == Ok::<
                (PlayerView, u64),
                GameError,
            >((final(player)@, c)),
            Err(e) => collect_clean_cash_spec(old(player)@, now, potential_rewards@) == Err::<
                (PlayerView, u64),
                GameError,
            >(e) && final(player)@ == old(player)@,
        },
{
    let available_dirty_cash = player.dirty_cash;
    if available_dirty_cash == 0 {
        return Err(GameError::Room(RoomError::InsufficientFunds));
    }
    let total = harvest(&mut player.rooms, potential_rewards, true, now as u64);
    let convertible = if total < available_dirty_cash {
        total
    } else {
        available_dirty_cash
    };
    Ok(convertible)
}

pub open spec fn launder_dirty_cash_spec(p: PlayerView, convertible: u64, clean_produced: u64) -> PlayerView {
    if convertible == 0 {
        p
    } else {
        let clean = (p.clean_cash + clean_produced) as u64;
        PlayerView {
            clean_cash: clean,
            dirty_cash: (p.dirty_cash - convertible) as u64,
            quest_completion_bitmask: if !has_quest(p.quest_completion_bitmask, 2) && clean >= 600 {
                with_quest(p.quest_completion_bitmask, 2)
            } else {
                p.quest_completion_bitmask
            },
            ..p
        }
    }
}

/// The conversion half of laundering: `convertible` dirty cash becomes
/// `clean_produced` clean cash (the conversion loses 30%), and reaching 600
/// clean cash completes quest 2. Nothing happens when `convertible` is zero.
pub fn launder_dirty_cash(player: &mut Player, convertible: u64, clean_produced: u64)
    requires
        convertible <= old(player).dirty_cash,
        convertible > 0 ==> old(player).clean_cash + clean_produced <= u64::MAX,
    ensures
        final(player)@ == launder_dirty_cash_spec(old(player)@, convertible, clean_produced),
{
    if convertible > 0 {
        player.clean_cash = player.clean_cash + clean_produced;
        player.dirty_cash = player.dirty_cash - convertible;
        if !player.is_quest_completed(2) && player.clean_cash >= 600 {
            player.complete_quest(2);
        }
    }
}

// ---------------------------------------------------------------- recruiting

pub open spec fn recruit_units_spec(p: PlayerView, enforcers: u64, hitmen: u64) -> Result<PlayerView, GameError> {
    if !owns_room_type(p.rooms, RoomType::SecurityRoom) {
        Err(GameError::Room(RoomError::NoSecurityRoom))
    } else if enforcers * 50 > u64::MAX {
        Err(GameError::Room(RoomError::Overflow))
    } else if p.clean_cash < enforcers * 50 {
        Err(GameError::Room(RoomError::InsufficientFunds))
    } else if hitmen * 100 > u64::MAX {
        Err(GameError::Room(RoomError::Overflow))
    } else if p.dirty_cash < hitmen * 100 {
        Err(GameError::Room(RoomError::InsufficientFunds))
    } else if p.enforcers + enforcers > u64::MAX {
        Err(GameError::Room(RoomError::Overflow))
    } else if p.hitmen + hitmen > u64::MAX {
        Err(GameError::Room(RoomError::Overflow))
    } else {
        let e = (p.enforcers + enforcers) as u64;
        let h = (p.hitmen + hitmen) as u64;
        Ok(
            PlayerView {
                clean_cash: (p.clean_cash - enforcers * 50) as u64,
                dirty_cash: (p.dirty_cash - hitmen * 100) as u64,
                enforcers: e,
                hitmen: h,
                quest_completion_bitmask: if !has_quest(p.quest_completion_bitmask, 5) && e >= 10
                    && h >= 10 {
                    with_quest(p.quest_completion_bitmask, 5)
                } else {
                    p.quest_completion_bitmask
                },
                ..p
            },
        )
    }
}

/// Recruits enforcers at 50 clean cash each and hitmen at 100 dirty cash each;
/// it takes a security room. Having at least 10 of each completes quest 5.
pub fn recruit_units(player: &mut Player, enforcers: u64, hitmen: u64) -> (result: Result<(), GameError>)
    ensures
        applied(result, old(player)@, final(player)@, recruit_units_spec(old(player)@, enforcers, hitmen)),
{
    if !player.owns_room(RoomType::SecurityRoom) {
        return Err(GameError::Room(RoomError::NoSecurityRoom));
    }
    let enforcer_cost = match enforcers.checked_mul(50) {
        Some(c) => c,
        None => {
            return Err(GameError::Room(RoomError::Overflow));
        },
    };
    if player.clean_cash < enforcer_cost {
        return Err(GameError::Room(RoomError::InsufficientFunds));
    }
    let hitmen_cost = match hitmen.checked_mul(100) {
        Some(c) => c,
        None => {
            return Err(GameError::Room(RoomError::Overflow));
        },
    };
    if player.dirty_cash < hitmen_cost {
        return Err(GameError::Room(RoomError::InsufficientFunds));
    }
    let new_enforcers = match player.enforcers.checked_add(enforcers) {
        Some(v) => v,
        None => {
            return Err(GameError::Room(RoomError::Overflow));
        },
    };
    let new_hitmen = match player.hitmen.checked_add(hitmen) {
        Some(v) => v,
        None => {
            return Err(GameError::Room(RoomError::Overflow));
        },
    };
    if enforcers > 0 {
        player.clean_cash = player.clean_cash - enforcer_cost;
        player.enforcers = new_enforcers;
    }
    if hitmen > 0 {
        player.dirty_cash = player.dirty_cash - hitmen_cost;
        player.hitmen = new_hitmen;
    }
    if !player.is_quest_completed(5) && player.enforcers >= 10 && player.hitmen >= 10 {
        player.complete_quest(5);
    }
    Ok(())
}

pub open spec fn recruit_team_member_spec(p: PlayerView, inv: InventoryView, member: InventoryItem) -> Result<(PlayerView, InventoryView), GameError> {
    if !inv.is_initialized {
        Err(GameError::Inventory(InventoryError::UninitializedAccount))
    } else if !member.is_allowed() {
        Err(GameError::Inventory(InventoryError::InvalidItem))
    } else if inv.items.contains(member) {
        Err(GameError::Inventory(InventoryError::AlreadyRecruited))
    } else if p.experience < 9 {
        Err(GameError::Inventory(InventoryError::InsufficientExperience))
    } else if p.dirty_cash < 5000 {
        Err(GameError::Inventory(InventoryError::InsufficientFunds))
    } else {
        Ok(
            (
                PlayerView {
                    dirty_cash: (p.dirty_cash - 5000) as u64,
                    experience: (p.experience + 1) as u64,
                    quest_completion_bitmask: with_quest(
                        p.quest_completion_bitmask,
                        Player::QUEST_RECRUIT_THIEF,
                    ),
                    ..p
                },
                InventoryView { items: inv.items.push(member), ..inv },
            ),
        )
    }
}

/// Checks whether `member` may be recruited.
pub fn recruit_team_member_check(player: &Player, inventory: &Inventory, member: InventoryItem) -> (r: Result<(), GameError>)
    ensures
        match recruit_team_member_spec(player@, inventory@, member) {
            Ok(_) => r is Ok,
            Err(e) => r == Err::<(), GameError>(e),
        },
{
    if !inventory.is_initialized {
        return Err(GameError::Inventory(InventoryError::UninitializedAccount));
    }
    if !member.is_allowed() {
        return Err(GameError::Inventory(InventoryError::InvalidItem));
    }
    if inventory.has_team_member(member) {
        return Err(GameError::Inventory(InventoryError::AlreadyRecruited));
    }
    if player.experience < 9 {
        return Err(GameError::Inventory(InventoryError::InsufficientExperience));
    }
    if player.dirty_cash < 5000 {
        return Err(GameError::Inventory(InventoryError::InsufficientFunds));
    }
    Ok(())
}

/// Recruits a team member into an initialized inventory for 5000 dirty cash;
/// it takes 9 experience, only thieves can be recruited, and each only once.
/// Completes the thief quest and earns one experience.
pub fn recruit_team_member(player: &mut Player, inventory: &mut Inventory, member: InventoryItem) -> (result: Result<(), GameError>)
    requires
        recruit_team_member_spec(old(player)@, old(inventory)@, member) is Ok ==> old(player).experience
            < u64::MAX,
    ensures
        applied(
            result,
            (old(player)@, old(inventory)@),
            (final(player)@, final(inventory)@),
            recruit_team_member_spec(old(player)@, old(inventory)@, member),
        ),
{
    if let Err(e) = recruit_team_member_check(player, inventory, member) {
        return Err(e);
    }
    player.dirty_cash = player.dirty_cash - 5000;
    inventory.add_team_member(member);
    player.complete_quest(Player::QUEST_RECRUIT_THIEF);
    player.experience = player.experience + 1;
    Ok(())
}

// ---------------------------------------------------------------- quests

pub open spec fn claim_quest_reward_spec(p: PlayerView, quest_id: u8) -> Result<PlayerView, GameError> {
    if !has_quest(p.quest_completion_bitmask, quest_id) {
        Err(GameError::Player(PlayerError::QuestNotCompleted))
    } else if has_quest(p.quest_claim_bitmask, quest_id) {
        Err(GameError::Player(PlayerError::RewardAlreadyClaimed))
    } else {
        Ok(
            PlayerView {
                silver: (p.silver + 100) as u64,
                quest_claim_bitmask: with_quest(p.quest_claim_bitmask, quest_id),
                ..p
            },
        )
    }
}

/// Claims the 100 silver reward of a completed quest, once.
pub fn claim_quest_reward(player: &mut Player, quest_id: u8) -> (result: Result<(), GameError>)
    requires
        claim_quest_reward_spec(old(player)@, quest_id) is Ok ==> old(player).silver + 100 <= u64::MAX,
    ensures
        applied(result, old(player)@, final(player)@, claim_quest_reward_spec(old(player)@, quest_id)),
{
    if !player.is_quest_completed(quest_id) {
        return Err(GameError::Player(PlayerError::QuestNotCompleted));
    }
    if player.is_quest_claimed(quest_id) {
        return Err(GameError::Player(PlayerError::RewardAlreadyClaimed));
    }
    player.silver = player.silver + 100;
    player.claim_quest_reward(quest_id);
    Ok(())
}

} // verus!
