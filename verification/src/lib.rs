//! Rules of a brick-breaking arcade game, stated and proved.
//!
//! The crate holds the game's bookkeeping and nothing of its presentation:
//! which material a grid cell is made of, how a block takes damage, what a
//! ball carries and hands over to the paddle, how fast a ball may travel,
//! what an upgrade costs and when a purchase goes through, and which rows of
//! blocks have to exist. Lengths, positions and speeds are integers in
//! thousandths of a world unit; noise samples are integers in millionths.
//! Rendering, physics integration, input and audio belong to the host
//! program, which hands plain values in and acts on the plain values it gets
//! back.

pub mod app_state;
pub mod ball;
pub mod blocks;
pub mod paddle;
pub mod particles;
pub mod physics;
pub mod resources;
pub mod shop;
pub mod shoppanel;
pub mod statsbar;
pub mod world;
