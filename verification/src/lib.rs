use vstd::prelude::*;

pub mod actions;
pub mod app;
pub mod auth;
pub mod ccc;
pub mod client;
pub mod client_flow;
pub mod client_text;
pub mod clock;
pub mod engine;
pub mod error;
pub mod events;
pub mod hex;
pub mod history;
pub mod ids;
pub mod laws;
pub mod lobby;
pub mod location;
pub mod mission;
pub mod npc;
pub mod pilgrim;
pub mod protocol;
pub mod rng;
pub mod room;
pub mod round;
pub mod sector;
pub mod server;
pub mod shuffle;
pub mod tablet;
pub mod text;
pub mod token;

verus! {

} // verus!
