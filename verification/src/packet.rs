//! The records that travel between client and server, and the two envelopes
//! that hold them.
//!
//! These are plain values. A message is owned by whoever decoded it.

use crate::combat::{Unit, UnitView};
use vstd::prelude::*;

verus! {

/// A move that the player may select. The identifier means something to the
/// game logic only.
#[derive(Debug, Clone, Copy, PartialEq, Eq, Structural)]
pub struct MoveOption {
    pub id: u64,
}

/// How a fight ended.
#[derive(Debug, Clone, PartialEq, Eq, Structural)]
pub struct FightRecording {
    pub won: bool,
}

/// An identity and its session data, of fixed size. Nothing here looks inside:
/// the record is moved whole.
#[derive(Debug, Clone, Copy, PartialEq, Eq)]
pub struct AuthInfo {
    pub id: [u8; 32],
    pub data: [u64; 4],
}

/// A message from the server to a client.
#[derive(Debug, Clone, PartialEq, Eq)]
pub enum ServerPacket {
    /// The player's own units.
    Team(Vec<Unit>),
    /// What the player sees of the opponent's units.
    Opponent(bool, Vec<UnitView>),
    /// The moves to choose from.
    MoveOptions(Vec<MoveOption>),
    /// A text for the player.
    Message(String),
    /// The outcome of a fight.
    Fight(FightRecording),
}

/// A message from a client to the server.
#[derive(Debug, Clone, Copy, PartialEq, Eq, Structural)]
pub enum ClientPacket {
    /// The move chosen, by its identifier.
    Move(u64),
    Fight(bool),
    /// Two positions in the team, to be exchanged.
    Rearrange(usize, usize),
    Disconnect,
}

} // verus!
