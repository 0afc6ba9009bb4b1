//! Incremental reconstruction of game-session events from an append-only
//! client log: a line grammar, a life-cycle state machine over arbitrarily
//! chunked text, and the session aggregate that consumers fold events into.

pub mod clock;
pub mod items;
pub mod level;
pub mod parser;
pub mod patterns;
pub mod rundown;
pub mod splitter;
pub mod tail;
pub mod text;
pub mod token;
pub mod watch;
pub mod zone;

pub use clock::ClockTime;
pub use items::{GatherItem, ItemIdentifier, SeededQueue};
pub use level::Level;
pub use parser::{Parser, Phase};
pub use rundown::Rundown;
pub use splitter::{InvarianceMethod, Record, TimerEntry, Timestamp};
pub use tail::{Tail, TailAction, TailCmd, TailMsg};
pub use token::{ParserMsg, Token};
pub use zone::{Zone, ZoneKey};
