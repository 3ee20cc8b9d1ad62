//! Combat data model and wire protocol shared by the client and the server of a
//! turn-based multiplayer combat game.
//!
//! The crate has five parts:
//!
//! * [`combat`]: unit classes and elements with their balancing tables, as exact
//!   fractions ([`ratio`]);
//! * [`packet`]: the plain records and the two message envelopes that travel
//!   between client and server;
//! * [`small_string`]: a codec that packs a short text into a block of 32 bytes;
//! * [`reader`]: the decision taken after one attempt to read a message from a
//!   stream that does not block;
//! * [`encoding`]: what the crate takes on trust from `bincode`, which encodes
//!   and decodes for it.

pub mod combat;
pub mod encoding;
pub mod packet;
pub mod ratio;
pub mod reader;
pub mod small_string;

pub use crate::combat::{
    Class, Element, Unit, UnitView, END_FIGHT_HEAL_AMOUNT, RANGED_MELEE_MULT,
};
pub use crate::packet::{AuthInfo, ClientPacket, FightRecording, MoveOption, ServerPacket};
pub use crate::ratio::{Ratio, WideRatio};
pub use crate::reader::{settle, try_recv, DecodeFailure, RecvError};
pub use crate::small_string::{
    deserialize_small_string, serialize_small_string, SmallStringError,
};
