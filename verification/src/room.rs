use vstd::prelude::*;

verus! {

/// The kinds of room a player can build.
#[derive(Clone, Copy, Debug, PartialEq, Eq, Structural)]
pub enum RoomType {
    // Legal businesses
    Laundry,
    FastFoodRestaurant,
    FitnessCenter,
    // Illegal businesses
    UnlicensedBar,
    CannabisFarm,
    StripClub,
    Casino,
    // Supporting rooms
    Saferoom,
    SecurityRoom,
}

/// A room owned by a player.
#[derive(Clone, Copy, Debug, PartialEq, Eq, Structural)]
pub struct Room {
    pub id: u64,
    pub room_type: RoomType,
    pub level: u64,
    pub storage_capacity: u64,
    pub last_collected: u64,
}

impl RoomType {
    pub open spec fn spec_cost(&self) -> u64 {
        match self {
            RoomType::Laundry => 100,
            RoomType::FastFoodRestaurant => 600,
            RoomType::FitnessCenter => 800,
            RoomType::UnlicensedBar => 400,
            RoomType::CannabisFarm => 500,
            RoomType::StripClub => 1500,
            RoomType::Casino => 2000,
            RoomType::Saferoom => 800,
            RoomType::SecurityRoom => 600,
        }
    }

    /// Clean cash that building a room of this kind costs.
    #[verifier::when_used_as_spec(spec_cost)]
    pub fn cost(&self) -> (c: u64)
        ensures
            c == self.spec_cost(),
    {
        match self {
            RoomType::Laundry => 100,
            RoomType::FastFoodRestaurant => 600,
            RoomType::FitnessCenter => 800,
            RoomType::UnlicensedBar => 400,
            RoomType::CannabisFarm => 500,
            RoomType::StripClub => 1500,
            RoomType::Casino => 2000,
            RoomType::Saferoom => 800,
            RoomType::SecurityRoom => 600,
        }
    }

    pub open spec fn spec_experience_requirement(&self) -> u64 {
        match self {
            RoomType::Laundry => 0,
            RoomType::FastFoodRestaurant => 2,
            RoomType::FitnessCenter => 5,
            RoomType::UnlicensedBar => 1,
            RoomType::CannabisFarm => 3,
            RoomType::StripClub => 4,
            RoomType::Casino => 6,
            RoomType::Saferoom => 0,
            RoomType::SecurityRoom => 2,
        }
    }

    /// Experience a player needs before building a room of this kind.
    #[verifier::when_used_as_spec(spec_experience_requirement)]
    pub fn experience_requirement(&self) -> (e: u64)
        ensures
            e == self.spec_experience_requirement(),
    {
        match self {
            RoomType::Laundry => 0,
            RoomType::FastFoodRestaurant => 2,
            RoomType::FitnessCenter => 5,
            RoomType::UnlicensedBar => 1,
            RoomType::CannabisFarm => 3,
            RoomType::StripClub => 4,
            RoomType::Casino => 6,
            RoomType::Saferoom => 0,
            RoomType::SecurityRoom => 2,
        }
    }

    pub open spec fn spec_storage_capacity(&self) -> u64 {
        match self {
            RoomType::Laundry => 100,
            RoomType::FastFoodRestaurant => 200,
            RoomType::FitnessCenter => 300,
            RoomType::UnlicensedBar => 150,
            RoomType::CannabisFarm => 250,
            RoomType::StripClub => 400,
            RoomType::Casino => 500,
            RoomType::Saferoom => 300,
            RoomType::SecurityRoom => 0,
        }
    }

    /// The most that a new room of this kind holds before it is collected.
    #[verifier::when_used_as_spec(spec_storage_capacity)]
    pub fn storage_capacity(&self) -> (s: u64)
        ensures
            s == self.spec_storage_capacity(),
    {
        match self {
            RoomType::Laundry => 100,
            RoomType::FastFoodRestaurant => 200,
            RoomType::FitnessCenter => 300,
            RoomType::UnlicensedBar => 150,
            RoomType::CannabisFarm => 250,
            RoomType::StripClub => 400,
            RoomType::Casino => 500,
            RoomType::Saferoom => 300,
            RoomType::SecurityRoom => 0,
        }
    }

    pub open spec fn spec_yield_per_minute(&self) -> u64 {
        match self {
            RoomType::Laundry => 50,
            RoomType::FastFoodRestaurant => 75,
            RoomType::FitnessCenter => 85,
            RoomType::UnlicensedBar => 65,
            RoomType::CannabisFarm => 70,
            RoomType::StripClub => 100,
            RoomType::Casino => 120,
            RoomType::Saferoom => 0,
            RoomType::SecurityRoom => 0,
        }
    }

    /// Cash that a room of this kind produces per minute.
    #[verifier::when_used_as_spec(spec_yield_per_minute)]
    pub fn yield_per_minute(&self) -> (y: u64)
        ensures
            y == self.spec_yield_per_minute(),
    {
        match self {
            RoomType::Laundry => 50,
            RoomType::FastFoodRestaurant => 75,
            RoomType::FitnessCenter => 85,
            RoomType::UnlicensedBar => 65,
            RoomType::CannabisFarm => 70,
            RoomType::StripClub => 100,
            RoomType::Casino => 120,
            RoomType::Saferoom => 0,
            RoomType::SecurityRoom => 0,
        }
    }

    /// The illegal businesses, whose takings are dirty cash.
    pub open spec fn spec_earns_dirty_cash(&self) -> bool {
        match self {
            RoomType::UnlicensedBar | RoomType::CannabisFarm | RoomType::StripClub
            | RoomType::Casino => true,
            _ => false,
        }
    }

    #[verifier::when_used_as_spec(spec_earns_dirty_cash)]
    pub fn earns_dirty_cash(&self) -> (b: bool)
        ensures
            b == self.spec_earns_dirty_cash(),
    {
        match self {
            RoomType::UnlicensedBar | RoomType::CannabisFarm | RoomType::StripClub
            | RoomType::Casino => true,
            _ => false,
        }
    }

    /// The legal businesses, through which dirty cash is laundered.
    pub open spec fn spec_launders_cash(&self) -> bool {
        match self {
            RoomType::Laundry | RoomType::FastFoodRestaurant | RoomType::FitnessCenter => true,
            _ => false,
        }
    }

    #[verifier::when_used_as_spec(spec_launders_cash)]
    pub fn launders_cash(&self) -> (b: bool)
        ensures
            b == self.spec_launders_cash(),
    {
        match self {
            RoomType::Laundry | RoomType::FastFoodRestaurant | RoomType::FitnessCenter => true,
            _ => false,
        }
    }

    /// The quest that building a room of this kind completes.
    pub open spec fn spec_purchase_quest(&self) -> u8 {
        match self {
            RoomType::Laundry => 0,
            RoomType::UnlicensedBar => 1,
            RoomType::FastFoodRestaurant => 3,
            RoomType::SecurityRoom => 4,
            RoomType::CannabisFarm => 6,
            RoomType::Saferoom => 7,
            RoomType::StripClub => 8,
            RoomType::Casino => 9,
            RoomType::FitnessCenter => 10,
        }
    }

    #[verifier::when_used_as_spec(spec_purchase_quest)]
    pub fn purchase_quest(&self) -> (q: u8)
        ensures
            q == self.spec_purchase_quest(),
    {
        match self {
            RoomType::Laundry => 0,
            RoomType::UnlicensedBar => 1,
            RoomType::FastFoodRestaurant => 3,
            RoomType::SecurityRoom => 4,
            RoomType::CannabisFarm => 6,
            RoomType::Saferoom => 7,
            RoomType::StripClub => 8,
            RoomType::Casino => 9,
            RoomType::FitnessCenter => 10,
        }
    }
}

/// Whether a room of this kind takes part in a collection: dirty cash from the
/// illegal businesses, or laundering capacity from the legal ones.
pub open spec fn collects(t: RoomType, laundering: bool) -> bool {
    if laundering {
        t.launders_cash()
    } else {
        t.earns_dirty_cash()
    }
}

/// What a room hands over when collected: what it produced since the last
/// collection, capped by its storage.
pub open spec fn pending_reward(room: Room, potential_reward: u64) -> u64 {
    if potential_reward < room.storage_capacity {
        potential_reward
    } else {
        room.storage_capacity
    }
}

/// Seconds since `room` was last collected, as of `now`; zero when `now` lies
/// before the last collection.
pub open spec fn elapsed_since(room: Room, now: u64) -> u64 {
    if now >= room.last_collected {
        (now - room.last_collected) as u64
    } else {
        0
    }
}

/// A room never hands over more than its storage capacity, hands over nothing
/// when it produced nothing, and hands over no less when it produced more.
pub proof fn law_pending_reward_capped_and_monotone(room: Room, produced: u64, more: u64)
    ensures
        pending_reward(room, produced) <= room.storage_capacity,
        pending_reward(room, 0) == 0,
        produced <= more ==> pending_reward(room, produced) <= pending_reward(room, more),
{
}

/// The time since the last collection grows with `now`, and is zero up to the
/// last collection.
pub proof fn law_elapsed_grows_with_time(room: Room, now: u64, later: u64)
    ensures
        now <= later ==> elapsed_since(room, now) <= elapsed_since(room, later),
        now <= room.last_collected ==> elapsed_since(room, now) == 0,
{
}

impl Room {
    /// Seconds since the room was last collected, as of `now`; zero when `now`
    /// lies before the last collection.
    pub fn elapsed_since_collection(&self, now: u64) -> (e: u64)
        ensures
            e == elapsed_since(*self, now),
    {
        now.saturating_sub(self.last_collected)
    }

    /// What collecting this room hands over, given what it produced since its
    /// last collection.
    pub fn pending_rewards(&self, potential_reward: u64) -> (r: u64)
        ensures
            r == pending_reward(*self, potential_reward),
    {
        if potential_reward < self.storage_capacity {
            potential_reward
        } else {
            self.storage_capacity
        }
    }
}

} // verus!
