pub mod ability;
pub mod battle;
pub mod builder;
pub mod choice;
pub mod contexts;
pub mod effects;
pub mod environment;
pub mod event_dispatcher;
pub mod events;
pub mod global_constants;
pub mod item;
pub mod message_log;
pub mod monster;
pub mod move_;
pub mod ordering;
pub mod prng;
pub mod stats;
pub mod status;
mod strike_proofs;
pub mod targetting;
pub mod team;
pub mod text;
pub mod turn;
pub mod types;
pub mod ultimate;
