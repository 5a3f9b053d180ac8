//! Rules of a small tower-defence arcade game: which screen follows which,
//! how the game clock reads, how difficulty grows, how many enemies a spawn
//! wave holds and how many projectiles an emitter sends out. The rules are
//! plain functions on plain values; the engine that draws, plays sound and
//! keeps time lives elsewhere.

pub mod enemy;
pub mod game;
pub mod projectile;
pub mod state;
