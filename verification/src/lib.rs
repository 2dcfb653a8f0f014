//! A verified combat tracker for turn-based tabletop encounters: the
//! combatant rule engine (hit points, temporary pools, timed conditions,
//! death saves, concentration), the initiative-ordered turn scheduler,
//! and the modal interaction state machine that turns key events into
//! engine calls. Terminal drawing, key decoding and the file store live
//! in the unverified shell around this crate, which exchanges only plain
//! values with it.
pub mod actions;
pub mod app;
pub mod combat;
pub mod combatant;
pub mod combatant_template;
pub mod concentration;
pub mod death_saves;
pub mod input;
pub mod log;
pub mod persistence;
pub mod state;
pub mod status;
pub mod text;
