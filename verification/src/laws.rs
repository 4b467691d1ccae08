use vstd::prelude::*;

use crate::errors::{GameError, InventoryError, PlayerError, RoomError};
use crate::instructions::{
    claim_lootbox_spec, claim_quest_reward_spec, collect_clean_cash_spec, collect_dirty_cash_spec,
    harvest_total, harvested_rooms, initialize_inventory_spec, initialize_player_spec,
    launder_dirty_cash_spec, purchase_room_refusal, purchase_room_spec, recruit_team_member_spec,
    recruit_units_spec, upgrade_lootbox_spec,
};
use crate::inventory::{InventoryItem, InventoryView};
use crate::player::{owns_room_type, PlayerView};
use crate::quest::{has_quest, lemma_with_quest, lemma_with_quest_keeps, quests_kept};
use crate::room::{collects, elapsed_since, pending_reward, Room, RoomType};

verus! {

/// The instructions of the game, with their arguments. Laundering is the
/// collection (`CollectCleanCash`) followed by the conversion (`LaunderDirtyCash`).
pub enum Instruction {
    InitializePlayer { owner: [u8; 32] },
    InitializeInventory { owner: [u8; 32] },
    ClaimLootbox,
    UpgradeLootbox,
    PurchaseRoom { room_type: RoomType, now: i64 },
    CollectDirtyCash { now: i64, potential_rewards: Seq<u64> },
    CollectCleanCash { now: i64, potential_rewards: Seq<u64> },
    LaunderDirtyCash { convertible: u64, clean_produced: u64 },
    RecruitUnits { enforcers: u64, hitmen: u64 },
    RecruitTeamMember { member: InventoryItem },
    ClaimQuestReward { quest_id: u8 },
}

/// Lifts a player-only outcome to both accounts.
pub open spec fn on_player(r: Result<PlayerView, GameError>, inv: InventoryView) -> Result<(PlayerView, InventoryView), GameError> {
    match r {
        Ok(p) => Ok((p, inv)),
        Err(e) => Err(e),
    }
}

/// What an instruction does to the two accounts, as the instruction's own
/// contract states it.
pub open spec fn step(p: PlayerView, inv: InventoryView, i: Instruction) -> Result<(PlayerView, InventoryView), GameError> {
    match i {
        Instruction::InitializePlayer { owner } => on_player(initialize_player_spec(p, owner), inv),
        Instruction::InitializeInventory { owner } => match initialize_inventory_spec(inv, owner) {
            Ok(inv2) => Ok((p, inv2)),
            Err(e) => Err(e),
        },
        Instruction::ClaimLootbox => on_player(claim_lootbox_spec(p), inv),
        Instruction::UpgradeLootbox => on_player(upgrade_lootbox_spec(p), inv),
        Instruction::PurchaseRoom { room_type, now } => on_player(
            purchase_room_spec(p, room_type, now),
            inv,
        ),
        Instruction::CollectDirtyCash { now, potential_rewards } => Ok(
            (collect_dirty_cash_spec(p, now, potential_rewards), inv),
        ),
        Instruction::CollectCleanCash { now, potential_rewards } => match collect_clean_cash_spec(
            p,
            now,
            potential_rewards,
        ) {
            Ok((p2, _)) => Ok((p2, inv)),
            Err(e) => Err(e),
        },
        Instruction::LaunderDirtyCash { convertible, clean_produced } => Ok(
            (launder_dirty_cash_spec(p, convertible, clean_produced), inv),
        ),
        Instruction::RecruitUnits { enforcers, hitmen } => on_player(
            recruit_units_spec(p, enforcers, hitmen),
            inv,
        ),
        Instruction::RecruitTeamMember { member } => recruit_team_member_spec(p, inv, member),
        Instruction::ClaimQuestReward { quest_id } => on_player(
            claim_quest_reward_spec(p, quest_id),
            inv,
        ),
    }
}

/// The instruction's `requires`: the inputs on which the instruction runs
/// without overflowing, and that the rewards handed to a collection match the rooms.
pub open spec fn admissible(p: PlayerView, inv: InventoryView, i: Instruction) -> bool {
    match i {
        Instruction::PurchaseRoom { room_type, now } => purchase_room_refusal(p, room_type) is None
            ==> p.rooms.len() < u64::MAX && p.experience < u64::MAX,
        Instruction::CollectDirtyCash { now, potential_rewards } => p.rooms.len()
            == potential_rewards.len() && p.dirty_cash + harvest_total(
            p.rooms,
            potential_rewards,
            false,
        ) <= u64::MAX,
        Instruction::CollectCleanCash { now, potential_rewards } => p.rooms.len()
            == potential_rewards.len() && (p.dirty_cash > 0 ==> harvest_total(
            p.rooms,
            potential_rewards,
            true,
        ) <= u64::MAX),
        Instruction::LaunderDirtyCash { convertible, clean_produced } => convertible
            <= p.dirty_cash && (convertible > 0 ==> p.clean_cash + clean_produced <= u64::MAX),
        Instruction::RecruitTeamMember { member } => recruit_team_member_spec(p, inv, member) is Ok
            ==> p.experience < u64::MAX,
        Instruction::ClaimQuestReward { quest_id } => claim_quest_reward_spec(p, quest_id) is Ok
            ==> p.silver + 100 <= u64::MAX,
        _ => true,
    }
}

/// The shape every player account keeps: the lootbox is at most at level 4;
/// room `i` has id `i + 1`, level 1 and its kind's storage capacity; no two
/// rooms are of the same kind.
pub open spec fn player_wf(p: PlayerView) -> bool {
    &&& p.lootbox_level <= 4
    &&& forall|i: int|
        0 <= i < p.rooms.len() ==> {
            &&& (#[trigger] p.rooms[i]).id == i + 1
            &&& p.rooms[i].level == 1
            &&& p.rooms[i].storage_capacity == p.rooms[i].room_type.storage_capacity()
        }
    &&& forall|i: int, j: int|
        0 <= i < j < p.rooms.len() ==> (#[trigger] p.rooms[i]).room_type
            != (#[trigger] p.rooms[j]).room_type
}

/// The shape every inventory keeps: it holds only team members that may be
/// recruited, each at most once.
pub open spec fn inventory_wf(inv: InventoryView) -> bool {
    &&& forall|i: int| 0 <= i < inv.items.len() ==> (#[trigger] inv.items[i]).is_allowed()
    &&& inv.items.no_duplicates()
}

proof fn lemma_harvested_rooms_shape(p: PlayerView, potential_rewards: Seq<u64>, laundering: bool, now: u64)
    requires
        player_wf(p),
    ensures
        player_wf(PlayerView { rooms: harvested_rooms(p.rooms, potential_rewards, laundering, now), ..p }),
{
    let r = harvested_rooms(p.rooms, potential_rewards, laundering, now);
    assert forall|i: int| 0 <= i < r.len() implies r[i].room_type == p.rooms[i].room_type && r[i].id
        == p.rooms[i].id && r[i].level == p.rooms[i].level && r[i].storage_capacity
        == p.rooms[i].storage_capacity by {}
    assert forall|i: int, j: int| 0 <= i < j < r.len() implies (#[trigger] r[i]).room_type
        != (#[trigger] r[j]).room_type by {
        assert(p.rooms[i].room_type != p.rooms[j].room_type);
    }
}

/// Every instruction that succeeds keeps both accounts in shape.
pub proof fn law_accounts_stay_well_formed(p: PlayerView, inv: InventoryView, i: Instruction)
    requires
        player_wf(p),
        inventory_wf(inv),
        admissible(p, inv, i),
    ensures
        step(p, inv, i) matches Ok((p2, inv2)) ==> player_wf(p2) && inventory_wf(inv2),
{
    match i {
        Instruction::InitializePlayer { owner } => {},
        Instruction::InitializeInventory { owner } => {
            assert(Seq::<InventoryItem>::empty().no_duplicates());
        },
        Instruction::ClaimLootbox => {},
        Instruction::UpgradeLootbox => {},
        Instruction::PurchaseRoom { room_type, now } => {
            if purchase_room_refusal(p, room_type) is None {
                let p2 = purchase_room_spec(p, room_type, now)->Ok_0;
                assert forall|a: int, b: int| 0 <= a < b < p2.rooms.len() implies (#[trigger] p2.rooms[a]).room_type
                    != (#[trigger] p2.rooms[b]).room_type by {
                    if b == p.rooms.len() {
                        assert(p2.rooms[a] == p.rooms[a]);
                        if p.rooms[a].room_type == room_type {
                            assert(owns_room_type(p.rooms, room_type));
                        }
                    } else {
                        assert(p2.rooms[a] == p.rooms[a]);
                        assert(p2.rooms[b] == p.rooms[b]);
                    }
                }
                assert forall|a: int| 0 <= a < p2.rooms.len() implies {
                    &&& (#[trigger] p2.rooms[a]).id == a + 1
                    &&& p2.rooms[a].level == 1
                    &&& p2.rooms[a].storage_capacity == p2.rooms[a].room_type.storage_capacity()
                } by {
                    if a < p.rooms.len() {
                        assert(p2.rooms[a] == p.rooms[a]);
                    }
                }
            }
        },
        Instruction::CollectDirtyCash { now, potential_rewards } => {
            lemma_harvested_rooms_shape(p, potential_rewards, false, now as u64);
        },
        Instruction::CollectCleanCash { now, potential_rewards } => {
            lemma_harvested_rooms_shape(p, potential_rewards, true, now as u64);
        },
        Instruction::LaunderDirtyCash { convertible, clean_produced } => {},
        Instruction::RecruitUnits { enforcers, hitmen } => {},
        Instruction::RecruitTeamMember { member } => {
            if recruit_team_member_spec(p, inv, member) is Ok {
                let items2 = inv.items.push(member);
                assert forall|a: int, b: int| 0 <= a < items2.len() && 0 <= b < items2.len() && a != b implies items2[a]
                    != items2[b] by {
                    if a == inv.items.len() {
                        assert(inv.items[b] == items2[b]);
                    } else if b == inv.items.len() {
                        assert(inv.items[a] == items2[a]);
                    }
                }
                assert forall|a: int| 0 <= a < items2.len() implies (#[trigger] items2[a]).is_allowed() by {
                    if a < inv.items.len() {
                        assert(items2[a] == inv.items[a]);
                    }
                }
            }
        },
        Instruction::ClaimQuestReward { quest_id } => {},
    }
}

/// No instruction takes back a completed quest or a claimed reward.
pub proof fn law_quests_are_never_lost(p: PlayerView, inv: InventoryView, i: Instruction)
    ensures
        step(p, inv, i) matches Ok((p2, _)) ==> quests_kept(
            p.quest_completion_bitmask,
            p2.quest_completion_bitmask,
        ) && quests_kept(p.quest_claim_bitmask, p2.quest_claim_bitmask),
{
    lemma_with_quest_keeps(p.quest_completion_bitmask, 0);
    lemma_with_quest_keeps(p.quest_completion_bitmask, 2);
    lemma_with_quest_keeps(p.quest_completion_bitmask, 5);
    lemma_with_quest_keeps(p.quest_completion_bitmask, 11);
    match i {
        Instruction::PurchaseRoom { room_type, now } => {
            lemma_with_quest_keeps(p.quest_completion_bitmask, room_type.purchase_quest());
        },
        Instruction::ClaimQuestReward { quest_id } => {
            lemma_with_quest_keeps(p.quest_claim_bitmask, quest_id);
        },
        _ => {},
    }
}

/// An account is initialized once: initializing it again is refused.
pub proof fn law_initialize_once(p: PlayerView, inv: InventoryView, owner: [u8; 32], owner2: [u8; 32])
    ensures
        initialize_player_spec(p, owner) matches Ok(p2) ==> initialize_player_spec(p2, owner2)
            == Err::<PlayerView, GameError>(GameError::Player(PlayerError::AlreadyInitialized)),
        initialize_inventory_spec(inv, owner) matches Ok(inv2) ==> initialize_inventory_spec(
            inv2,
            owner2,
        ) == Err::<InventoryView, GameError>(GameError::Player(PlayerError::AlreadyInitialized)),
{
}

/// The lootbox is claimed once: claiming it again is refused.
pub proof fn law_lootbox_claimed_once(p: PlayerView)
    ensures
        claim_lootbox_spec(p) matches Ok(p2) ==> claim_lootbox_spec(p2) == Err::<PlayerView, GameError>(
            GameError::Player(PlayerError::LootboxAlreadyClaimed),
        ),
{
}

/// A quest's reward is paid once: claiming it again is refused, and a quest
/// that is not completed pays nothing.
pub proof fn law_reward_claimed_once(p: PlayerView, quest_id: u8)
    ensures
        claim_quest_reward_spec(p, quest_id) matches Ok(p2) ==> claim_quest_reward_spec(p2, quest_id)
            == Err::<PlayerView, GameError>(GameError::Player(PlayerError::RewardAlreadyClaimed)),
{
    if claim_quest_reward_spec(p, quest_id) is Ok {
        crate::quest::lemma_with_quest(p.quest_claim_bitmask, quest_id, quest_id);
    }
}

/// A kind of room is bought once: buying it again, at any time, is refused.
pub proof fn law_room_bought_once(p: PlayerView, t: RoomType, now: i64, later: i64)
    requires
        p.experience < u64::MAX,
    ensures
        purchase_room_spec(p, t, now) matches Ok(p2) ==> purchase_room_spec(p2, t, later) == Err::<
            PlayerView,
            GameError,
        >(GameError::Room(RoomError::RoomAlreadyOwned)),
{
    if purchase_room_spec(p, t, now) is Ok {
        let p2 = purchase_room_spec(p, t, now)->Ok_0;
        assert(p2.rooms[p.rooms.len() as int].room_type == t);
        assert(owns_room_type(p2.rooms, t));
    }
}

/// A team member is recruited once: recruiting it again is refused.
pub proof fn law_team_member_recruited_once(p: PlayerView, inv: InventoryView, member: InventoryItem)
    ensures
        recruit_team_member_spec(p, inv, member) matches Ok((p2, inv2))
            ==> recruit_team_member_spec(p2, inv2, member) == Err::<(PlayerView, InventoryView), GameError>(
            GameError::Inventory(InventoryError::AlreadyRecruited),
        ),
{
    if recruit_team_member_spec(p, inv, member) is Ok {
        let inv2 = recruit_team_member_spec(p, inv, member)->Ok_0.1;
        assert(inv2.items[inv.items.len() as int] == member);
    }
}

/// A well-formed player has at most one room of each of the nine kinds.
pub proof fn law_at_most_nine_rooms(p: PlayerView)
    requires
        player_wf(p),
    ensures
        p.rooms.len() <= 9,
{
    let kinds = p.rooms.map_values(|r: Room| r.room_type);
    assert forall|a: int, b: int| 0 <= a < kinds.len() && 0 <= b < kinds.len() && a != b implies kinds[a]
        != kinds[b] by {
        if a < b {
            assert(p.rooms[a].room_type != p.rooms[b].room_type);
        } else {
            assert(p.rooms[b].room_type != p.rooms[a].room_type);
        }
    }
    kinds.unique_seq_to_set();
    let all = set![
        RoomType::Laundry,
        RoomType::FastFoodRestaurant,
        RoomType::FitnessCenter,
        RoomType::UnlicensedBar,
        RoomType::CannabisFarm,
        RoomType::StripClub,
        RoomType::Casino,
        RoomType::Saferoom,
        RoomType::SecurityRoom
    ];
    assert(kinds.to_set().subset_of(all)) by {
        assert forall|t: RoomType| kinds.to_set().contains(t) implies all.contains(t) by {
            match t {
                RoomType::Laundry => {},
                RoomType::FastFoodRestaurant => {},
                RoomType::FitnessCenter => {},
                RoomType::UnlicensedBar => {},
                RoomType::CannabisFarm => {},
                RoomType::StripClub => {},
                RoomType::Casino => {},
                RoomType::Saferoom => {},
                RoomType::SecurityRoom => {},
            }
        }
    }
    vstd::set_lib::lemma_len_subset(kinds.to_set(), all);
    assert(all.len() <= 9);
}

/// In a well-formed player, a collection hands over at most 500 per room.
pub proof fn law_collection_is_bounded(p: PlayerView, potential_rewards: Seq<u64>, laundering: bool)
    requires
        player_wf(p),
    ensures
        harvest_total(p.rooms, potential_rewards, laundering) <= 500 * p.rooms.len(),
{
    lemma_harvest_bounded(p.rooms, potential_rewards, laundering);
}

/// In a well-formed player a collection never overflows while the dirty cash
/// held leaves room for 4500 more: both collections may then run.
pub proof fn law_collections_fit(p: PlayerView, inv: InventoryView, now: i64, potential_rewards: Seq<u64>)
    requires
        player_wf(p),
        p.rooms.len() == potential_rewards.len(),
        p.dirty_cash <= u64::MAX - 4500,
    ensures
        admissible(p, inv, Instruction::CollectDirtyCash { now, potential_rewards }),
        admissible(p, inv, Instruction::CollectCleanCash { now, potential_rewards }),
{
    law_at_most_nine_rooms(p);
    law_collection_is_bounded(p, potential_rewards, false);
    law_collection_is_bounded(p, potential_rewards, true);
}

/// What the collection half of laundering returns can always be converted:
/// it is at most the dirty cash held afterwards.
pub proof fn law_laundering_follows_collection(p: PlayerView, now: i64, potential_rewards: Seq<u64>)
    ensures
        collect_clean_cash_spec(p, now, potential_rewards) matches Ok((p2, convertible))
            ==> convertible <= p2.dirty_cash && p2.dirty_cash == p.dirty_cash,
{
}

/// Only completed quests have their rewards claimed.
pub open spec fn claims_completed(p: PlayerView) -> bool {
    forall|q: u8| #[trigger] has_quest(p.quest_claim_bitmask, q) ==> has_quest(p.quest_completion_bitmask, q)
}

/// A player account holds no claimed reward of a quest that is not completed,
/// and every instruction keeps it so: a reward is only ever claimed for a
/// completed quest, and completed quests stay completed.
pub proof fn law_claimed_quests_were_completed(p: PlayerView, inv: InventoryView, i: Instruction)
    requires
        claims_completed(p),
    ensures
        claims_completed(PlayerView { quest_claim_bitmask: 0, quest_completion_bitmask: 0, ..p }),
        step(p, inv, i) matches Ok((p2, _)) ==> claims_completed(p2),
{
    assert forall|q: u8| !#[trigger] has_quest(0u64, q) by {
        if q < 64 {
            let b = q as u64;
            assert(0u64 & (1u64 << b) == 0) by (bit_vector)
                requires
                    b < 64,
            ;
            assert(1u64 << q == 1u64 << b);
        }
    }
    law_quests_are_never_lost(p, inv, i);
    if step(p, inv, i) is Ok {
        let p2 = step(p, inv, i)->Ok_0.0;
        match i {
            Instruction::ClaimQuestReward { quest_id } => {
                assert forall|q: u8| #[trigger] has_quest(p2.quest_claim_bitmask, q) implies has_quest(
                    p2.quest_completion_bitmask,
                    q,
                ) by {
                    lemma_with_quest(p.quest_claim_bitmask, quest_id, q);
                }
            },
            _ => {
                assert(p2.quest_claim_bitmask == p.quest_claim_bitmask);
                assert forall|q: u8| #[trigger] has_quest(p2.quest_claim_bitmask, q) implies has_quest(
                    p2.quest_completion_bitmask,
                    q,
                ) by {
                    assert(has_quest(p.quest_completion_bitmask, q));
                }
            },
        }
    }
}

proof fn lemma_harvest_nothing(rooms: Seq<Room>, potential_rewards: Seq<u64>, laundering: bool)
    requires
        forall|i: int| 0 <= i < rooms.len() ==> potential_rewards[i] == 0,
    ensures
        harvest_total(rooms, potential_rewards, laundering) == 0,
    decreases rooms.len(),
{
    if rooms.len() > 0 {
        lemma_harvest_nothing(rooms.drop_last(), potential_rewards, laundering);
    }
}

/// A collection at `now` marks every room that handed over something as
/// collected at `now`, so that no time has elapsed for it at `now`. A
/// collection in which no room produced anything hands over nothing and
/// changes no room; collecting dirty cash then leaves the player as it is.
pub proof fn law_collect_again_gives_nothing(
    p: PlayerView,
    now: i64,
    potential_rewards: Seq<u64>,
    nothing: Seq<u64>,
    laundering: bool,
)
    requires
        forall|i: int| 0 <= i < p.rooms.len() ==> nothing[i] == 0,
    ensures
        forall|i: int|
            0 <= i < p.rooms.len() && collects(p.rooms[i].room_type, laundering) && pending_reward(
                p.rooms[i],
                potential_rewards[i],
            ) > 0 ==> elapsed_since(
                #[trigger] harvested_rooms(p.rooms, potential_rewards, laundering, now as u64)[i],
                now as u64,
            ) == 0,
        harvest_total(p.rooms, nothing, laundering) == 0,
        harvested_rooms(p.rooms, nothing, laundering, now as u64) == p.rooms,
        collect_dirty_cash_spec(p, now, nothing) == p,
{
    lemma_harvest_nothing(p.rooms, nothing, laundering);
    lemma_harvest_nothing(p.rooms, nothing, false);
    assert(harvested_rooms(p.rooms, nothing, laundering, now as u64) =~= p.rooms);
    assert(harvested_rooms(p.rooms, nothing, false, now as u64) =~= p.rooms);
}

/// Laundering never adds cash: when the clean cash produced is at most the
/// dirty cash converted (as the 30% loss gives), clean and dirty cash together
/// do not grow.
pub proof fn law_laundering_never_adds_cash(p: PlayerView, convertible: u64, clean_produced: u64)
    requires
        clean_produced <= convertible,
        convertible <= p.dirty_cash,
        convertible > 0 ==> p.clean_cash + clean_produced <= u64::MAX,
    ensures
        launder_dirty_cash_spec(p, convertible, clean_produced).clean_cash + launder_dirty_cash_spec(
            p,
            convertible,
            clean_produced,
        ).dirty_cash <= p.clean_cash + p.dirty_cash,
{
}

// ---------------------------------------------------------------- runs

/// The accounts after a sequence of instructions: each instruction that
/// succeeds moves to its new state; a refused one leaves the accounts as they were.
pub open spec fn run(p: PlayerView, inv: InventoryView, instructions: Seq<Instruction>) -> (PlayerView, InventoryView)
    decreases instructions.len(),
{
    if instructions.len() == 0 {
        (p, inv)
    } else {
        let before = run(p, inv, instructions.drop_last());
        match step(before.0, before.1, instructions.last()) {
            Ok(after) => after,
            Err(_) => before,
        }
    }
}

/// Every instruction of the sequence is admissible where it runs.
pub open spec fn run_admissible(p: PlayerView, inv: InventoryView, instructions: Seq<Instruction>) -> bool
    decreases instructions.len(),
{
    instructions.len() == 0 || {
        &&& run_admissible(p, inv, instructions.drop_last())
        &&& admissible(
            run(p, inv, instructions.drop_last()).0,
            run(p, inv, instructions.drop_last()).1,
            instructions.last(),
        )
    }
}

/// What an initialized player keeps under one instruction: it stays
/// initialized, its experience does not drop, and it keeps every kind of room
/// it owns.
pub open spec fn progress_kept(p: PlayerView, p2: PlayerView) -> bool {
    &&& p2.is_initialized
    &&& p.experience <= p2.experience
    &&& forall|t: RoomType| #[trigger] owns_room_type(p.rooms, t) ==> owns_room_type(p2.rooms, t)
}

proof fn lemma_step_progress(p: PlayerView, inv: InventoryView, i: Instruction)
    requires
        p.is_initialized,
        admissible(p, inv, i),
    ensures
        step(p, inv, i) matches Ok((p2, _)) ==> progress_kept(p, p2),
{
    if step(p, inv, i) is Ok {
        let p2 = step(p, inv, i)->Ok_0.0;
        assert forall|t: RoomType| #[trigger] owns_room_type(p.rooms, t) implies owns_room_type(p2.rooms, t) by {
            let k = choose|k: int| 0 <= k < p.rooms.len() && #[trigger] p.rooms[k].room_type == t;
            assert(p2.rooms[k].room_type == t);
        }
    }
}

/// Over any admissible sequence of instructions, a well-formed player and
/// inventory stay well formed, only completed quests have claimed rewards,
/// and no completed quest or claimed reward is lost.
pub proof fn law_runs_keep_accounts_well_formed(p: PlayerView, inv: InventoryView, instructions: Seq<Instruction>)
    requires
        player_wf(p),
        inventory_wf(inv),
        claims_completed(p),
        run_admissible(p, inv, instructions),
    ensures
        player_wf(run(p, inv, instructions).0),
        inventory_wf(run(p, inv, instructions).1),
        claims_completed(run(p, inv, instructions).0),
        quests_kept(p.quest_completion_bitmask, run(p, inv, instructions).0.quest_completion_bitmask),
        quests_kept(p.quest_claim_bitmask, run(p, inv, instructions).0.quest_claim_bitmask),
    decreases instructions.len(),
{
    if instructions.len() > 0 {
        let rest = instructions.drop_last();
        law_runs_keep_accounts_well_formed(p, inv, rest);
        let before = run(p, inv, rest);
        law_accounts_stay_well_formed(before.0, before.1, instructions.last());
        law_claimed_quests_were_completed(before.0, before.1, instructions.last());
        law_quests_are_never_lost(before.0, before.1, instructions.last());
    }
}

/// Over any admissible sequence of instructions, an initialized player stays
/// initialized, gains no less experience than it had, and keeps its rooms' kinds.
pub proof fn law_runs_keep_progress(p: PlayerView, inv: InventoryView, instructions: Seq<Instruction>)
    requires
        p.is_initialized,
        run_admissible(p, inv, instructions),
    ensures
        progress_kept(p, run(p, inv, instructions).0),
    decreases instructions.len(),
{
    if instructions.len() > 0 {
        let rest = instructions.drop_last();
        law_runs_keep_progress(p, inv, rest);
        let before = run(p, inv, rest);
        lemma_step_progress(before.0, before.1, instructions.last());
    }
}

/// A fresh account (initialized from one with no quest bits, as a newly
/// created account has) is well formed, as is a fresh inventory; every run
/// from there keeps them so.
pub proof fn law_fresh_accounts_are_well_formed(p: PlayerView, inv: InventoryView, owner: [u8; 32])
    requires
        p.quest_completion_bitmask == 0,
        p.quest_claim_bitmask == 0,
    ensures
        initialize_player_spec(p, owner) matches Ok(p2) ==> player_wf(p2) && claims_completed(p2),
        initialize_inventory_spec(inv, owner) matches Ok(inv2) ==> inventory_wf(inv2),
{
    law_claimed_quests_were_completed(
        PlayerView { quest_claim_bitmask: 0, quest_completion_bitmask: 0, ..p },
        inv,
        Instruction::ClaimLootbox,
    );
    assert(Seq::<InventoryItem>::empty().no_duplicates());
}

/// A quest's reward is paid once: after a successful claim, whatever
/// instructions follow, claiming it again is refused.
pub proof fn law_reward_paid_once_over_runs(
    p: PlayerView,
    inv: InventoryView,
    quest_id: u8,
    later: Seq<Instruction>,
)
    requires
        claim_quest_reward_spec(p, quest_id) is Ok,
    ensures
        claim_quest_reward_spec(run(claim_quest_reward_spec(p, quest_id)->Ok_0, inv, later).0, quest_id)
            == Err::<PlayerView, GameError>(GameError::Player(PlayerError::RewardAlreadyClaimed)),
{
    let p2 = claim_quest_reward_spec(p, quest_id)->Ok_0;
    crate::quest::lemma_with_quest(p.quest_claim_bitmask, quest_id, quest_id);
    assert(has_quest(p2.quest_claim_bitmask, quest_id));
    assert(has_quest(p2.quest_completion_bitmask, quest_id));
    law_runs_keep_quests(p2, inv, later);
}

/// Over any sequence of instructions, no completed quest or claimed reward is lost.
pub proof fn law_runs_keep_quests(p: PlayerView, inv: InventoryView, instructions: Seq<Instruction>)
    ensures
        quests_kept(p.quest_completion_bitmask, run(p, inv, instructions).0.quest_completion_bitmask),
        quests_kept(p.quest_claim_bitmask, run(p, inv, instructions).0.quest_claim_bitmask),
    decreases instructions.len(),
{
    if instructions.len() > 0 {
        let rest = instructions.drop_last();
        law_runs_keep_quests(p, inv, rest);
        let before = run(p, inv, rest);
        law_quests_are_never_lost(before.0, before.1, instructions.last());
    }
}

/// Each kind of room is bought once by an initialized player: after a
/// successful purchase, whatever admissible instructions follow, buying that
/// kind again is refused.
pub proof fn law_room_bought_once_over_runs(
    p: PlayerView,
    inv: InventoryView,
    t: RoomType,
    now: i64,
    later: Seq<Instruction>,
    again: i64,
)
    requires
        p.is_initialized,
        p.experience < u64::MAX,
        purchase_room_spec(p, t, now) is Ok,
        run_admissible(purchase_room_spec(p, t, now)->Ok_0, inv, later),
    ensures
        purchase_room_spec(run(purchase_room_spec(p, t, now)->Ok_0, inv, later).0, t, again)
            == Err::<PlayerView, GameError>(GameError::Room(RoomError::RoomAlreadyOwned)),
{
    let p2 = purchase_room_spec(p, t, now)->Ok_0;
    assert(p2.rooms[p.rooms.len() as int].room_type == t);
    assert(owns_room_type(p2.rooms, t));
    law_runs_keep_progress(p2, inv, later);
}

proof fn lemma_harvest_bounded(rooms: Seq<Room>, potential_rewards: Seq<u64>, laundering: bool)
    requires
        forall|i: int|
            0 <= i < rooms.len() ==> (#[trigger] rooms[i]).storage_capacity
                == rooms[i].room_type.storage_capacity(),
    ensures
        harvest_total(rooms, potential_rewards, laundering) <= 500 * rooms.len(),
    decreases rooms.len(),
{
    if rooms.len() > 0 {
        let last = rooms.len() - 1;
        assert forall|i: int| 0 <= i < rooms.drop_last().len() implies (#[trigger] rooms.drop_last()[i]).storage_capacity
            == rooms.drop_last()[i].room_type.storage_capacity() by {
            assert(rooms.drop_last()[i] == rooms[i]);
        }
        lemma_harvest_bounded(rooms.drop_last(), potential_rewards, laundering);
        assert(pending_reward(rooms[last], potential_rewards[last]) <= 500);
    }
}

} // verus!
