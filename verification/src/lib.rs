//! A verified session engine for a two-player, round-based word game.
//!
//! Each session pits a creator against one joiner: every accepted word
//! pulls a shared rope position one step toward the submitting side, and
//! once the final round ends the sign of the rope decides the winner.
//! The crate owns the authoritative state machine (`game`), the word
//! list that validates submissions (`lexicon`), the process-wide
//! registry of live sessions (`registry`), each session's event hub
//! (`hub`), and the dispatch layer that turns decoded client messages
//! into session operations (`dispatch`). The per-event decisions of the
//! relay and writer tasks live in `relay`; the laws the engine obeys are
//! stated and proved in `laws`.

pub mod clock;
pub mod dispatch;
pub mod game;
pub mod hub;
pub mod laws;
pub mod lexicon;
pub mod registry;
pub mod relay;
pub mod text;
