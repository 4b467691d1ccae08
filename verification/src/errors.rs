use vstd::prelude::*;

verus! {

/// Refusals that concern the player account and its progression.
#[derive(Clone, Copy, Debug, PartialEq, Eq, Structural)]
pub enum PlayerError {
    AlreadyInitialized,
    LootboxAlreadyClaimed,
    InsufficientExperience,
    LootboxNotClaimed,
    MaxLevelReached,
    InsufficientSilver,
    QuestNotCompleted,
    RewardAlreadyClaimed,
}

/// Refusals that concern rooms, cash and recruited units.
#[derive(Clone, Copy, Debug, PartialEq, Eq, Structural)]
pub enum RoomError {
    InsufficientExperience,
    RoomAlreadyOwned,
    InsufficientFunds,
    NoSecurityRoom,
    SecurityRoomLevelTooLow,
    Overflow,
}

/// Refusals that concern the inventory of team members.
#[derive(Clone, Copy, Debug, PartialEq, Eq, Structural)]
pub enum InventoryError {
    UninitializedAccount,
    InvalidItem,
    AlreadyRecruited,
    InsufficientExperience,
    InsufficientFunds,
}

/// Every way in which an instruction of the game can be refused.
#[derive(Clone, Copy, Debug, PartialEq, Eq, Structural)]
pub enum GameError {
    Player(PlayerError),
    Room(RoomError),
    Inventory(InventoryError),
    /// The runtime could not hand out the current time; its error code.
    ClockUnavailable(u64),
}

} // verus!
