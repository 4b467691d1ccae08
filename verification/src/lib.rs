//! The rules of a management game: players build rooms, collect and launder
//! cash, recruit units and team members, and claim rewards for quests.

pub mod errors;
pub mod quest;
pub mod room;
pub mod player;
pub mod inventory;
pub mod clock;
pub mod instructions;
pub mod laws;
pub mod rules;
