//! RoZVP rules core: the integer 100 Hz lawn-defense simulation rules
//! (levels, waves, zombies, plants, economy, combat, advice, menus flow,
//! save progress), verified with Verus.

pub mod acts;
pub mod advice;
pub mod anim;
pub mod audio;
pub mod chooser;
pub mod combat;
pub mod board;
pub mod constants;
pub mod defs;
pub mod economy;
pub mod flow;
pub mod i18n;
pub mod input;
pub mod level_flow;
pub mod menu;
pub mod rng;
pub mod save;
pub mod session;
pub mod specials;
pub mod text;
pub mod ui;
pub mod visuals;
pub mod waves;
pub mod zombie;

