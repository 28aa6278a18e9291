//! Zombies: kinds, hit points (armor soaks first), wave point costs.

use vstd::prelude::*;

use crate::constants::{
    BUCKET_ARMOR_HP, CONE_ARMOR_HP, POINT_BUCKET, POINT_CONE, POINT_FLAG, POINT_NORMAL,
    ZOMBIE_BODY_HP,
};

verus! {

#[derive(Clone, Copy, Debug, PartialEq, Eq, Structural)]
pub enum ZombieKind {
    Normal,
    Flag,
    Conehead,
    Buckethead,
}

/// A zombie's gameplay state. Position and walk speed live with the
/// renderer-facing layer; everything the rules read is here.
#[derive(Clone, Copy, Debug, PartialEq, Eq, Structural)]
pub struct Zombie {
    pub kind: ZombieKind,
    pub row: usize,
    pub body_hp: i32,
    pub armor_hp: i32,
    pub eat_cooldown_remaining: i32,
    /// Hypnotized zombies walk right and brawl their former allies.
    pub hypnotized: bool,
}

/// Armor a freshly spawned zombie of this kind wears.
pub open spec fn spec_armor_of(kind: ZombieKind) -> int {
    match kind {
        ZombieKind::Normal | ZombieKind::Flag => 0,
        ZombieKind::Conehead => CONE_ARMOR_HP as int,
        ZombieKind::Buckethead => BUCKET_ARMOR_HP as int,
    }
}

/// Wave point cost of each kind.
pub open spec fn spec_point_cost(kind: ZombieKind) -> nat {
    match kind {
        ZombieKind::Normal => POINT_NORMAL as nat,
        ZombieKind::Flag => POINT_FLAG as nat,
        ZombieKind::Conehead => POINT_CONE as nat,
        ZombieKind::Buckethead => POINT_BUCKET as nat,
    }
}

impl Zombie {
    /// Total hit points left: armor plus body.
    pub open spec fn total_hp(self) -> int {
        self.armor_hp + self.body_hp
    }

    /// Damage of `amount` applied the way the rules apply it: armor first,
    /// the overflow carried into the body.
    pub open spec fn damaged(self, amount: int) -> Zombie {
        if amount <= 0 {
            self
        } else if self.armor_hp > 0 {
            Zombie {
                armor_hp: if amount < self.armor_hp { (self.armor_hp - amount) as i32 } else { 0 },
                body_hp: if amount < self.armor_hp {
                    self.body_hp
                } else {
                    (self.body_hp - (amount - self.armor_hp)) as i32
                },
                ..self
            }
        } else {
            Zombie { body_hp: (self.body_hp - amount) as i32, ..self }
        }
    }

    /// The damage fits the hit-point counters without wrapping: what
    /// overflows the armor (or, without armor, the whole hit) comes off a
    /// body that stays within `i32`.
    pub open spec fn damage_fits(self, amount: int) -> bool {
        amount <= 0 || (if self.armor_hp > 0 {
            self.body_hp + self.armor_hp - amount >= i32::MIN
        } else {
            self.body_hp - amount >= i32::MIN
        })
    }

    /// Fresh zombie of `kind` in `row`.
    pub fn new(kind: ZombieKind, row: usize) -> (z: Zombie)
        ensures
            z.kind == kind,
            z.row == row,
            z.body_hp == ZOMBIE_BODY_HP,
            z.armor_hp == spec_armor_of(kind),
            z.eat_cooldown_remaining == 0,
            !z.hypnotized,
    {
        let armor_hp = match kind {
            ZombieKind::Normal | ZombieKind::Flag => 0,
            ZombieKind::Conehead => CONE_ARMOR_HP,
            ZombieKind::Buckethead => BUCKET_ARMOR_HP,
        };
        Zombie {
            kind,
            row,
            body_hp: ZOMBIE_BODY_HP,
            armor_hp,
            eat_cooldown_remaining: 0,
            hypnotized: false,
        }
    }

    /// Armor first, overflow to body. Returns true if dead.
    pub fn take_damage(&mut self, amount: i32) -> (dead: bool)
        requires
            old(self).damage_fits(amount as int),
        ensures
            *final(self) == old(self).damaged(amount as int),
            dead == (final(self).body_hp <= 0),
    {
        if amount <= 0 {
            return self.body_hp <= 0;
        }
        if self.armor_hp > 0 {
            self.armor_hp = self.armor_hp - amount;
            if self.armor_hp < 0 {
                self.body_hp = self.body_hp + self.armor_hp;
                self.armor_hp = 0;
            }
        } else {
            self.body_hp = self.body_hp - amount;
        }
        self.body_hp <= 0
    }

    /// Dead once the body is gone.
    pub fn is_dead(&self) -> (r: bool)
        ensures
            r == (self.body_hp <= 0),
    {
        self.body_hp <= 0
    }
}

/// Wave point cost of a zombie kind.
pub fn zombie_point_cost(kind: ZombieKind) -> (c: u32)
    ensures
        c == spec_point_cost(kind),
{
    match kind {
        ZombieKind::Normal => POINT_NORMAL,
        ZombieKind::Flag => POINT_FLAG,
        ZombieKind::Conehead => POINT_CONE,
        ZombieKind::Buckethead => POINT_BUCKET,
    }
}

/// `n` equal hits of `amount` in a row.
pub open spec fn damaged_times(z: Zombie, amount: int, n: nat) -> Zombie
    decreases n,
{
    if n == 0 {
        z
    } else {
        damaged_times(z, amount, (n - 1) as nat).damaged(amount)
    }
}

/// A zombie whose armor is still up has a living body (true of every
/// zombie the rules create and keep).
pub open spec fn hp_consistent(z: Zombie) -> bool {
    &&& z.armor_hp >= 0
    &&& z.armor_hp > 0 ==> z.body_hp > 0
}

/// Law: every positive hit lowers armor plus body by exactly its amount,
/// keeps armor non-negative, and leaves the zombie dead exactly when its
/// total hit points are used up.
pub proof fn lemma_damage_accounting(z: Zombie, amount: int)
    requires
        hp_consistent(z),
        amount > 0,
        z.damage_fits(amount),
    ensures
        z.damaged(amount).total_hp() == z.total_hp() - amount,
        hp_consistent(z.damaged(amount)),
        (z.damaged(amount).body_hp <= 0) <==> (z.damaged(amount).total_hp() <= 0),
{
}

/// Law: `n` equal hits leave total hit points lowered by `n * amount`, and
/// the zombie is dead after them exactly when `n * amount` reaches its
/// starting total. (So a zombie needs the ceiling of total / amount hits.)
pub proof fn lemma_hits_to_kill(z: Zombie, amount: int, n: nat)
    requires
        hp_consistent(z),
        0 < amount <= i32::MAX,
        z.total_hp() - n * amount >= i32::MIN,
        z.body_hp - n * amount >= i32::MIN,
    ensures
        damaged_times(z, amount, n).total_hp() == z.total_hp() - n * amount,
        hp_consistent(damaged_times(z, amount, n)),
        (damaged_times(z, amount, n).body_hp <= 0) <==> (n * amount >= z.total_hp()),
    decreases n,
{
    if n > 0 {
        let m = (n - 1) as nat;
        assert(m * amount <= n * amount) by (nonlinear_arith)
            requires m < n, amount > 0;
        assert(n * amount == m * amount + amount) by (nonlinear_arith)
            requires m + 1 == n;
        lemma_hits_to_kill(z, amount, m);
        let w = damaged_times(z, amount, m);
        assert(w.body_hp >= z.body_hp - m * amount) by {
            lemma_body_floor(z, amount, m);
        }
        lemma_damage_accounting(w, amount);
        assert(damaged_times(z, amount, n) == w.damaged(amount));
    } else {
        assert(n * amount == 0) by (nonlinear_arith)
            requires n == 0;
    }
}

/// Body hit points never fall faster than the hits themselves.
proof fn lemma_body_floor(z: Zombie, amount: int, n: nat)
    requires
        hp_consistent(z),
        0 < amount <= i32::MAX,
        z.total_hp() - n * amount >= i32::MIN,
        z.body_hp - n * amount >= i32::MIN,
    ensures
        damaged_times(z, amount, n).body_hp >= z.body_hp - n * amount,
        damaged_times(z, amount, n).armor_hp >= 0,
    decreases n,
{
    if n > 0 {
        let m = (n - 1) as nat;
        assert(m * amount <= n * amount) by (nonlinear_arith)
            requires m < n, amount > 0;
        assert(n * amount == m * amount + amount) by (nonlinear_arith)
            requires m + 1 == n;
        lemma_body_floor(z, amount, m);
    } else {
        assert(n * amount == 0) by (nonlinear_arith)
            requires n == 0;
    }
}

} // verus!
