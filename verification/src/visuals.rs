//! Which look a zombie or plant shows: the decisions behind the sprite
//! tints (the colors themselves are floating point and the renderer's).

use vstd::prelude::*;

use crate::constants::CHERRY_FLASH_TICKS;
use crate::zombie::{Zombie, ZombieKind};

verus! {

/// Base look of a zombie: its kind, or the bare body once its armor is gone.
#[derive(Clone, Copy, Debug, PartialEq, Eq, Structural)]
pub enum ZombieLook {
    Bare,
    Flag,
    Cone,
    Bucket,
}

/// Status tint over the base look.
#[derive(Clone, Copy, Debug, PartialEq, Eq, Structural)]
pub enum StatusTint {
    Plain,
    Chilled,
    Frozen,
}

/// The base look of a zombie.
pub open spec fn spec_zombie_look(z: Zombie) -> ZombieLook {
    if z.armor_hp <= 0 {
        ZombieLook::Bare
    } else {
        match z.kind {
            ZombieKind::Normal => ZombieLook::Bare,
            ZombieKind::Flag => ZombieLook::Flag,
            ZombieKind::Conehead => ZombieLook::Cone,
            ZombieKind::Buckethead => ZombieLook::Bucket,
        }
    }
}

/// Base look: a zombie with armor left shows its kind; once the armor is
/// gone (or when it never had any) it shows the bare body.
pub fn zombie_look(z: &Zombie) -> (l: ZombieLook)
    ensures
        l == spec_zombie_look(*z),
{
    if z.armor_hp <= 0 {
        ZombieLook::Bare
    } else {
        match z.kind {
            ZombieKind::Normal => ZombieLook::Bare,
            ZombieKind::Flag => ZombieLook::Flag,
            ZombieKind::Conehead => ZombieLook::Cone,
            ZombieKind::Buckethead => ZombieLook::Bucket,
        }
    }
}

/// The tint: frozen wins over chilled.
pub fn status_tint(frozen: bool, chilled: bool) -> (t: StatusTint)
    ensures
        t == (if frozen {
            StatusTint::Frozen
        } else if chilled {
            StatusTint::Chilled
        } else {
            StatusTint::Plain
        }),
{
    if frozen {
        StatusTint::Frozen
    } else if chilled {
        StatusTint::Chilled
    } else {
        StatusTint::Plain
    }
}

/// A Cherry Bomb in its last ticks flashes, five ticks lit, five dark.
pub open spec fn spec_cherry_flash(remaining: int) -> bool {
    remaining <= CHERRY_FLASH_TICKS && (if remaining > 0 {
        remaining
    } else {
        0
    }) / 5 % 2 == 0
}

/// Whether a Cherry Bomb with `remaining` fuse ticks shows its flash.
pub fn cherry_flash(remaining: i32) -> (on: bool)
    ensures
        on == spec_cherry_flash(remaining as int),
{
    if remaining > CHERRY_FLASH_TICKS {
        return false;
    }
    let r = if remaining > 0 {
        remaining
    } else {
        0
    };
    r / 5 % 2 == 0
}

} // verus!
