//! Game logic of a small action platformer: ground detection, the player's
//! controller and gun, hit points with invulnerability windows, and the
//! state machine of a roaming enemy.
pub mod clouds;
pub mod enemy;
pub mod health;
pub mod physics;
pub mod player;
mod random;
pub mod scene;
pub mod timer;
pub mod ui;
pub mod units;
