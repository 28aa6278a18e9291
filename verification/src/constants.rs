//! Board layout + timing constants on the 100 Hz tick.

use vstd::prelude::*;

verus! {

/// Lawn columns.
pub const LAWN_COLS: usize = 9;
/// Lawn rows.
pub const LAWN_ROWS: usize = 5;
/// Board cells.
pub const LAWN_CELLS: usize = 45;

/// Adventure levels per area (1-x, 2-x, ...).
pub const LEVELS_PER_AREA: u32 = 10;

/// Simulation ticks per second.
pub const TICK_HZ: i32 = 100;

// Recharge tiers.
pub const FAST_RECHARGE_TICKS: i32 = 750;
pub const SLOW_RECHARGE_TICKS: i32 = 3000;
pub const VERY_SLOW_RECHARGE_TICKS: i32 = 5000;

// Economy.
pub const STARTING_SUN: i32 = 50;
pub const SUN_VALUE: i32 = 25;
pub const SUN_LIFETIME_TICKS: i32 = 800;
pub const SKY_SUN_INTERVAL_TICKS: i32 = 425;

// Sunflower.
pub const SUNFLOWER_FIRST_SUN_TICKS: i32 = 700;
pub const SUNFLOWER_SUN_INTERVAL_TICKS: i32 = 2425;
pub const SUNFLOWER_SUN_VALUE: i32 = 25;

// Peashooter family.
pub const PEA_DAMAGE: i32 = 20;
pub const PEASHOOTER_ATTACK_COOLDOWN_TICKS: i32 = 143;
pub const SNOW_PEA_COST: i32 = 175;
pub const SNOW_PEA_ATTACK_COOLDOWN_TICKS: i32 = 150;
pub const SNOW_PEA_CHILL_TICKS: i32 = 1000;

// Plant HP.
pub const PLANT_HP_DEFAULT: i32 = 300;
pub const WALLNUT_HP: i32 = 4000;

// Potato Mine.
pub const POTATO_MINE_COST: i32 = 25;
pub const POTATO_MINE_ARM_TICKS: i32 = 1500;
pub const POTATO_MINE_DAMAGE: i32 = 1800;

// Chomper.
pub const CHOMPER_CHEW_TICKS: i32 = 4200;
/// Damage a ready Chomper deals to the zombie it swallows.
pub const CHOMPER_BITE_DAMAGE: i32 = 9999;

// Squash.
pub const SQUASH_COST: i32 = 50;
pub const SQUASH_DAMAGE: i32 = 1800;

// Threepeater.
pub const THREEPEATER_COST: i32 = 325;

// Jalapeno.
pub const JALAPENO_COST: i32 = 125;
pub const JALAPENO_FUSE_TICKS: i32 = 100;
pub const JALAPENO_DAMAGE: i32 = 1800;

// Spikeweed.
pub const SPIKEWEED_COST: i32 = 100;
pub const SPIKEWEED_DAMAGE: i32 = 20;
pub const SPIKEWEED_HIT_INTERVAL_TICKS: i32 = 100;

// Torchwood.
pub const TORCHWOOD_COST: i32 = 175;
pub const FIRE_PEA_DAMAGE: i32 = 40;

// Tall-nut.
pub const TALLNUT_COST: i32 = 125;
pub const TALLNUT_HP: i32 = 8000;

// Garlic.
pub const GARLIC_COST: i32 = 50;
pub const GARLIC_HP: i32 = 400;

// Hypno-shroom.
pub const HYPNO_SHROOM_COST: i32 = 75;

// Ice-shroom.
pub const ICE_SHROOM_COST: i32 = 75;
pub const ICE_SHROOM_FUSE_TICKS: i32 = 100;
pub const ICE_SHROOM_FREEZE_TICKS: i32 = 400;
pub const ICE_SHROOM_CHILL_TICKS: i32 = 1000;

// Doom-shroom.
pub const DOOM_SHROOM_COST: i32 = 125;
pub const DOOM_SHROOM_FUSE_TICKS: i32 = 100;
pub const DOOM_SHROOM_DAMAGE: i32 = 9000;
pub const DOOM_CRATER_TICKS: i32 = 18000;

// Cherry Bomb.
pub const CHERRY_BOMB_FUSE_TICKS: i32 = 120;
pub const CHERRY_BOMB_DAMAGE: i32 = 1800;
pub const CHERRY_FLASH_TICKS: i32 = 40;

// Zombies.
pub const ZOMBIE_BODY_HP: i32 = 270;
pub const CONE_ARMOR_HP: i32 = 370;
pub const BUCKET_ARMOR_HP: i32 = 1100;
pub const ZOMBIE_EAT_DAMAGE: i32 = 50;
pub const ZOMBIE_EAT_INTERVAL_TICKS: i32 = 50;
/// Fall one-shot length of a killed zombie.
pub const DYING_TICKS: i32 = 80;

// Advice.
pub const ADVICE_HOLD_TICKS: i32 = 600;
pub const HUGE_WAVE_ADVICE_TICKS: i32 = 400;

// Waves.
pub const FIRST_WAVE_DELAY_TICKS: i32 = 1800;
pub const INTER_WAVE_DELAY_TICKS: i32 = 600;
pub const SPAWN_STAGGER_TICKS: i32 = 80;

// Zombie point costs.
pub const POINT_NORMAL: u32 = 1;
pub const POINT_FLAG: u32 = 1;
pub const POINT_CONE: u32 = 2;
pub const POINT_BUCKET: u32 = 4;

/// Largest seed bank the chooser fills.
pub const MAX_CHOOSER_PICKS: usize = 10;

} // verus!
