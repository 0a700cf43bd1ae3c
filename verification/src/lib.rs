//! Betting-round state machine and commit-reveal dealing protocol for a
//! single hand of multiplayer poker over opaque encrypted card handles.

pub mod error;
pub mod slot_set;
pub mod state;
pub mod turn_order;
pub mod player_action;
pub mod advance_stage;
pub mod post_blinds;
pub mod start_game;
pub mod join_table;
pub mod generate_offset;
pub mod deal_cards;
pub mod submit_cards;
pub mod apply_offset_batch;
pub mod laws;
