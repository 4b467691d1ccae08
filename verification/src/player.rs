use vstd::prelude::*;

use crate::quest::{has_quest, mask_has_quest, mask_with_quest, with_quest};
use crate::room::{Room, RoomType};

verus! {

/// A player's account: progression, money, units, quests and rooms.
pub struct Player {
    pub is_initialized: bool,
    pub owner: [u8; 32],
    pub lootbox_level: u8,
    pub silver: u64,
    pub experience: u64,
    pub clean_cash: u64,
    pub dirty_cash: u64,
    pub workers: u64,
    pub enforcers: u64,
    pub hitmen: u64,
    pub quest_completion_bitmask: u64,
    pub quest_claim_bitmask: u64,
    pub rooms: Vec<Room>,
}

/// The mathematical model of a player: the same fields, with the rooms as a sequence.
pub struct PlayerView {
    pub is_initialized: bool,
    pub owner: [u8; 32],
    pub lootbox_level: u8,
    pub silver: u64,
    pub experience: u64,
    pub clean_cash: u64,
    pub dirty_cash: u64,
    pub workers: u64,
    pub enforcers: u64,
    pub hitmen: u64,
    pub quest_completion_bitmask: u64,
    pub quest_claim_bitmask: u64,
    pub rooms: Seq<Room>,
}

impl View for Player {
    type V = PlayerView;

    open spec fn view(&self) -> PlayerView {
        PlayerView {
            is_initialized: self.is_initialized,
            owner: self.owner,
            lootbox_level: self.lootbox_level,
            silver: self.silver,
            experience: self.experience,
            clean_cash: self.clean_cash,
            dirty_cash: self.dirty_cash,
            workers: self.workers,
            enforcers: self.enforcers,
            hitmen: self.hitmen,
            quest_completion_bitmask: self.quest_completion_bitmask,
            quest_claim_bitmask: self.quest_claim_bitmask,
            rooms: self.rooms@,
        }
    }
}

/// Some room in `rooms` is of kind `t`.
pub open spec fn owns_room_type(rooms: Seq<Room>, t: RoomType) -> bool {
    exists|i: int| 0 <= i < rooms.len() && #[trigger] rooms[i].room_type == t
}

/// The silver that raising a lootbox from `level` costs; none from level 4 on,
/// and none at level 0, where the lootbox has not been claimed.
pub open spec fn lootbox_upgrade_cost(level: u8) -> Option<u64> {
    if level == 1 {
        Some(1000)
    } else if level == 2 {
        Some(2400)
    } else if level == 3 {
        Some(3800)
    } else {
        None
    }
}

impl Player {
    /// The quest that recruiting a thief completes.
    pub const QUEST_RECRUIT_THIEF: u8 = 11;

    /// Whether the player owns a room of kind `room_type`.
    pub fn owns_room(&self, room_type: RoomType) -> (b: bool)
        ensures
            b == owns_room_type(self.rooms@, room_type),
    {
        let n = self.rooms.len();
        for i in 0..n
            invariant
                n == self.rooms.len(),
                forall|j: int| 0 <= j < i ==> self.rooms@[j].room_type != room_type,
        {
            if self.rooms[i].room_type == room_type {
                return true;
            }
        }
        false
    }

    /// Marks quest `quest_id` as completed; quests from 64 on are ignored.
    pub fn complete_quest(&mut self, quest_id: u8)
        ensures
            final(self)@ == (PlayerView {
                quest_completion_bitmask: with_quest(old(self).quest_completion_bitmask, quest_id),
                ..old(self)@
            }),
    {
        self.quest_completion_bitmask = mask_with_quest(self.quest_completion_bitmask, quest_id);
    }

    /// Whether quest `quest_id` is completed.
    pub fn is_quest_completed(&self, quest_id: u8) -> (b: bool)
        ensures
            b == has_quest(self.quest_completion_bitmask, quest_id),
    {
        mask_has_quest(self.quest_completion_bitmask, quest_id)
    }

    /// Marks the reward of quest `quest_id` as claimed; quests from 64 on are ignored.
    pub fn claim_quest_reward(&mut self, quest_id: u8)
        ensures
            final(self)@ == (PlayerView {
                quest_claim_bitmask: with_quest(old(self).quest_claim_bitmask, quest_id),
                ..old(self)@
            }),
    {
        self.quest_claim_bitmask = mask_with_quest(self.quest_claim_bitmask, quest_id);
    }

    /// Whether the reward of quest `quest_id` has been claimed.
    pub fn is_quest_claimed(&self, quest_id: u8) -> (b: bool)
        ensures
            b == has_quest(self.quest_claim_bitmask, quest_id),
    {
        mask_has_quest(self.quest_claim_bitmask, quest_id)
    }

    /// The silver that the next lootbox upgrade costs, if there is one.
    pub fn get_lootbox_upgrade_cost(&self) -> (c: Option<u64>)
        ensures
            c == lootbox_upgrade_cost(self.lootbox_level),
    {
        match self.lootbox_level {
            1 => Some(1000),
            2 => Some(2400),
            3 => Some(3800),
            _ => None,
        }
    }
}

} // verus!
