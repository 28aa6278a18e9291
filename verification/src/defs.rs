//! Plants and their seed packets: kinds, names, costs, recharge tiers,
//! hit points, attack cadence.

use vstd::prelude::*;

use crate::constants::{
    DOOM_SHROOM_COST, FAST_RECHARGE_TICKS, GARLIC_COST, GARLIC_HP, HYPNO_SHROOM_COST,
    ICE_SHROOM_COST, JALAPENO_COST, PEASHOOTER_ATTACK_COOLDOWN_TICKS, PLANT_HP_DEFAULT,
    POTATO_MINE_COST, SLOW_RECHARGE_TICKS, SNOW_PEA_ATTACK_COOLDOWN_TICKS, SNOW_PEA_COST,
    SPIKEWEED_COST, SQUASH_COST, TALLNUT_COST, TALLNUT_HP, THREEPEATER_COST, TORCHWOOD_COST,
    VERY_SLOW_RECHARGE_TICKS, WALLNUT_HP,
};
use crate::text::{ascii_lower, is_ascii_alnum, push_char, str_eq, to_ascii_lower};

verus! {

#[derive(Clone, Copy, Debug, PartialEq, Eq, Structural)]
pub enum PlantKind {
    Sunflower,
    Peashooter,
    SnowPea,
    Repeater,
    WallNut,
    CherryBomb,
    PotatoMine,
    Chomper,
    Squash,
    Threepeater,
    Jalapeno,
    Spikeweed,
    Torchwood,
    TallNut,
    Garlic,
    HypnoShroom,
    IceShroom,
    DoomShroom,
}

/// A seed packet: what planting one costs and what it grows.
#[derive(Clone, Copy, Debug)]
pub struct SeedDef {
    pub kind: PlantKind,
    pub name: &'static str,
    pub cost: i32,
    pub recharge_ticks: i32,
    pub hp: i32,
    pub attack_cooldown_ticks: i32,
}

/// Display and save identity of each plant.
pub open spec fn plant_name(kind: PlantKind) -> Seq<char> {
    match kind {
        PlantKind::Sunflower => "Sunflower"@,
        PlantKind::Peashooter => "Peashooter"@,
        PlantKind::Repeater => "Repeater"@,
        PlantKind::SnowPea => "Snow Pea"@,
        PlantKind::WallNut => "Wall-nut"@,
        PlantKind::PotatoMine => "Potato Mine"@,
        PlantKind::CherryBomb => "Cherry Bomb"@,
        PlantKind::Chomper => "Chomper"@,
        PlantKind::Squash => "Squash"@,
        PlantKind::Threepeater => "Threepeater"@,
        PlantKind::Jalapeno => "Jalapeno"@,
        PlantKind::Spikeweed => "Spikeweed"@,
        PlantKind::Torchwood => "Torchwood"@,
        PlantKind::TallNut => "Tall-nut"@,
        PlantKind::Garlic => "Garlic"@,
        PlantKind::HypnoShroom => "Hypno-shroom"@,
        PlantKind::IceShroom => "Ice-shroom"@,
        PlantKind::DoomShroom => "Doom-shroom"@,
    }
}

/// Sun cost of each packet.
pub open spec fn plant_cost(kind: PlantKind) -> int {
    match kind {
        PlantKind::Sunflower => 50,
        PlantKind::Peashooter => 100,
        PlantKind::Repeater => 200,
        PlantKind::SnowPea => SNOW_PEA_COST as int,
        PlantKind::WallNut => 50,
        PlantKind::PotatoMine => POTATO_MINE_COST as int,
        PlantKind::CherryBomb => 150,
        PlantKind::Chomper => 150,
        PlantKind::Squash => SQUASH_COST as int,
        PlantKind::Threepeater => THREEPEATER_COST as int,
        PlantKind::Jalapeno => JALAPENO_COST as int,
        PlantKind::Spikeweed => SPIKEWEED_COST as int,
        PlantKind::Torchwood => TORCHWOOD_COST as int,
        PlantKind::TallNut => TALLNUT_COST as int,
        PlantKind::Garlic => GARLIC_COST as int,
        PlantKind::HypnoShroom => HYPNO_SHROOM_COST as int,
        PlantKind::IceShroom => ICE_SHROOM_COST as int,
        PlantKind::DoomShroom => DOOM_SHROOM_COST as int,
    }
}

/// Recharge tier of each packet, in ticks.
pub open spec fn plant_recharge(kind: PlantKind) -> int {
    match kind {
        PlantKind::Sunflower => FAST_RECHARGE_TICKS as int,
        PlantKind::Peashooter => FAST_RECHARGE_TICKS as int,
        PlantKind::Repeater => FAST_RECHARGE_TICKS as int,
        PlantKind::SnowPea => FAST_RECHARGE_TICKS as int,
        PlantKind::WallNut => SLOW_RECHARGE_TICKS as int,
        PlantKind::PotatoMine => SLOW_RECHARGE_TICKS as int,
        PlantKind::CherryBomb => VERY_SLOW_RECHARGE_TICKS as int,
        PlantKind::Chomper => FAST_RECHARGE_TICKS as int,
        PlantKind::Squash => SLOW_RECHARGE_TICKS as int,
        PlantKind::Threepeater => FAST_RECHARGE_TICKS as int,
        PlantKind::Jalapeno => VERY_SLOW_RECHARGE_TICKS as int,
        PlantKind::Spikeweed => FAST_RECHARGE_TICKS as int,
        PlantKind::Torchwood => FAST_RECHARGE_TICKS as int,
        PlantKind::TallNut => SLOW_RECHARGE_TICKS as int,
        PlantKind::Garlic => FAST_RECHARGE_TICKS as int,
        PlantKind::HypnoShroom => SLOW_RECHARGE_TICKS as int,
        PlantKind::IceShroom => VERY_SLOW_RECHARGE_TICKS as int,
        PlantKind::DoomShroom => VERY_SLOW_RECHARGE_TICKS as int,
    }
}

/// Hit points of each plant.
pub open spec fn plant_hp(kind: PlantKind) -> int {
    match kind {
        PlantKind::Sunflower => PLANT_HP_DEFAULT as int,
        PlantKind::Peashooter => PLANT_HP_DEFAULT as int,
        PlantKind::Repeater => PLANT_HP_DEFAULT as int,
        PlantKind::SnowPea => PLANT_HP_DEFAULT as int,
        PlantKind::WallNut => WALLNUT_HP as int,
        PlantKind::PotatoMine => PLANT_HP_DEFAULT as int,
        PlantKind::CherryBomb => PLANT_HP_DEFAULT as int,
        PlantKind::Chomper => PLANT_HP_DEFAULT as int,
        PlantKind::Squash => PLANT_HP_DEFAULT as int,
        PlantKind::Threepeater => PLANT_HP_DEFAULT as int,
        PlantKind::Jalapeno => PLANT_HP_DEFAULT as int,
        PlantKind::Spikeweed => PLANT_HP_DEFAULT as int,
        PlantKind::Torchwood => PLANT_HP_DEFAULT as int,
        PlantKind::TallNut => TALLNUT_HP as int,
        PlantKind::Garlic => GARLIC_HP as int,
        PlantKind::HypnoShroom => PLANT_HP_DEFAULT as int,
        PlantKind::IceShroom => PLANT_HP_DEFAULT as int,
        PlantKind::DoomShroom => PLANT_HP_DEFAULT as int,
    }
}

/// Attack cadence of each plant in ticks (0 for plants that never shoot).
pub open spec fn plant_attack_cooldown(kind: PlantKind) -> int {
    match kind {
        PlantKind::Sunflower => 0,
        PlantKind::Peashooter => PEASHOOTER_ATTACK_COOLDOWN_TICKS as int,
        PlantKind::Repeater => PEASHOOTER_ATTACK_COOLDOWN_TICKS as int,
        PlantKind::SnowPea => SNOW_PEA_ATTACK_COOLDOWN_TICKS as int,
        PlantKind::WallNut => 0,
        PlantKind::PotatoMine => 0,
        PlantKind::CherryBomb => 0,
        PlantKind::Chomper => 0,
        PlantKind::Squash => 0,
        PlantKind::Threepeater => PEASHOOTER_ATTACK_COOLDOWN_TICKS as int,
        PlantKind::Jalapeno => 0,
        PlantKind::Spikeweed => 0,
        PlantKind::Torchwood => 0,
        PlantKind::TallNut => 0,
        PlantKind::Garlic => 0,
        PlantKind::HypnoShroom => 0,
        PlantKind::IceShroom => 0,
        PlantKind::DoomShroom => 0,
    }
}

impl SeedDef {
    /// The packet carries exactly the numbers of its plant.
    pub open spec fn describes(self, kind: PlantKind) -> bool {
        &&& self.kind == kind
        &&& self.name@ == plant_name(kind)
        &&& self.cost == plant_cost(kind)
        &&& self.recharge_ticks == plant_recharge(kind)
        &&& self.hp == plant_hp(kind)
        &&& self.attack_cooldown_ticks == plant_attack_cooldown(kind)
    }
}

/// Seed packet of a plant kind (every kind has one).
pub fn seed_def_by_kind(kind: PlantKind) -> (r: Option<SeedDef>)
    ensures
        r matches Some(d) && d.describes(kind),
{
    let d = match kind {
        PlantKind::Sunflower => SeedDef { kind: PlantKind::Sunflower, name: "Sunflower", cost: 50, recharge_ticks: FAST_RECHARGE_TICKS, hp: PLANT_HP_DEFAULT, attack_cooldown_ticks: 0 },
        PlantKind::Peashooter => SeedDef { kind: PlantKind::Peashooter, name: "Peashooter", cost: 100, recharge_ticks: FAST_RECHARGE_TICKS, hp: PLANT_HP_DEFAULT, attack_cooldown_ticks: PEASHOOTER_ATTACK_COOLDOWN_TICKS },
        PlantKind::Repeater => SeedDef { kind: PlantKind::Repeater, name: "Repeater", cost: 200, recharge_ticks: FAST_RECHARGE_TICKS, hp: PLANT_HP_DEFAULT, attack_cooldown_ticks: PEASHOOTER_ATTACK_COOLDOWN_TICKS },
        PlantKind::SnowPea => SeedDef { kind: PlantKind::SnowPea, name: "Snow Pea", cost: SNOW_PEA_COST, recharge_ticks: FAST_RECHARGE_TICKS, hp: PLANT_HP_DEFAULT, attack_cooldown_ticks: SNOW_PEA_ATTACK_COOLDOWN_TICKS },
        PlantKind::WallNut => SeedDef { kind: PlantKind::WallNut, name: "Wall-nut", cost: 50, recharge_ticks: SLOW_RECHARGE_TICKS, hp: WALLNUT_HP, attack_cooldown_ticks: 0 },
        PlantKind::PotatoMine => SeedDef { kind: PlantKind::PotatoMine, name: "Potato Mine", cost: POTATO_MINE_COST, recharge_ticks: SLOW_RECHARGE_TICKS, hp: PLANT_HP_DEFAULT, attack_cooldown_ticks: 0 },
        PlantKind::CherryBomb => SeedDef { kind: PlantKind::CherryBomb, name: "Cherry Bomb", cost: 150, recharge_ticks: VERY_SLOW_RECHARGE_TICKS, hp: PLANT_HP_DEFAULT, attack_cooldown_ticks: 0 },
        PlantKind::Chomper => SeedDef { kind: PlantKind::Chomper, name: "Chomper", cost: 150, recharge_ticks: FAST_RECHARGE_TICKS, hp: PLANT_HP_DEFAULT, attack_cooldown_ticks: 0 },
        PlantKind::Squash => SeedDef { kind: PlantKind::Squash, name: "Squash", cost: SQUASH_COST, recharge_ticks: SLOW_RECHARGE_TICKS, hp: PLANT_HP_DEFAULT, attack_cooldown_ticks: 0 },
        PlantKind::Threepeater => SeedDef { kind: PlantKind::Threepeater, name: "Threepeater", cost: THREEPEATER_COST, recharge_ticks: FAST_RECHARGE_TICKS, hp: PLANT_HP_DEFAULT, attack_cooldown_ticks: PEASHOOTER_ATTACK_COOLDOWN_TICKS },
        PlantKind::Jalapeno => SeedDef { kind: PlantKind::Jalapeno, name: "Jalapeno", cost: JALAPENO_COST, recharge_ticks: VERY_SLOW_RECHARGE_TICKS, hp: PLANT_HP_DEFAULT, attack_cooldown_ticks: 0 },
        PlantKind::Spikeweed => SeedDef { kind: PlantKind::Spikeweed, name: "Spikeweed", cost: SPIKEWEED_COST, recharge_ticks: FAST_RECHARGE_TICKS, hp: PLANT_HP_DEFAULT, attack_cooldown_ticks: 0 },
        PlantKind::Torchwood => SeedDef { kind: PlantKind::Torchwood, name: "Torchwood", cost: TORCHWOOD_COST, recharge_ticks: FAST_RECHARGE_TICKS, hp: PLANT_HP_DEFAULT, attack_cooldown_ticks: 0 },
        PlantKind::TallNut => SeedDef { kind: PlantKind::TallNut, name: "Tall-nut", cost: TALLNUT_COST, recharge_ticks: SLOW_RECHARGE_TICKS, hp: TALLNUT_HP, attack_cooldown_ticks: 0 },
        PlantKind::Garlic => SeedDef { kind: PlantKind::Garlic, name: "Garlic", cost: GARLIC_COST, recharge_ticks: FAST_RECHARGE_TICKS, hp: GARLIC_HP, attack_cooldown_ticks: 0 },
        PlantKind::HypnoShroom => SeedDef { kind: PlantKind::HypnoShroom, name: "Hypno-shroom", cost: HYPNO_SHROOM_COST, recharge_ticks: SLOW_RECHARGE_TICKS, hp: PLANT_HP_DEFAULT, attack_cooldown_ticks: 0 },
        PlantKind::IceShroom => SeedDef { kind: PlantKind::IceShroom, name: "Ice-shroom", cost: ICE_SHROOM_COST, recharge_ticks: VERY_SLOW_RECHARGE_TICKS, hp: PLANT_HP_DEFAULT, attack_cooldown_ticks: 0 },
        PlantKind::DoomShroom => SeedDef { kind: PlantKind::DoomShroom, name: "Doom-shroom", cost: DOOM_SHROOM_COST, recharge_ticks: VERY_SLOW_RECHARGE_TICKS, hp: PLANT_HP_DEFAULT, attack_cooldown_ticks: 0 },
    };
    Some(d)
}

/// The plant a name belongs to, looked up in packet-table order.
pub open spec fn kind_named(n: Seq<char>) -> Option<PlantKind> {
    if n == "Sunflower"@ {
        Some(PlantKind::Sunflower)
    } else if n == "Peashooter"@ {
        Some(PlantKind::Peashooter)
    } else if n == "Repeater"@ {
        Some(PlantKind::Repeater)
    } else if n == "Snow Pea"@ {
        Some(PlantKind::SnowPea)
    } else if n == "Wall-nut"@ {
        Some(PlantKind::WallNut)
    } else if n == "Potato Mine"@ {
        Some(PlantKind::PotatoMine)
    } else if n == "Cherry Bomb"@ {
        Some(PlantKind::CherryBomb)
    } else if n == "Chomper"@ {
        Some(PlantKind::Chomper)
    } else if n == "Squash"@ {
        Some(PlantKind::Squash)
    } else if n == "Threepeater"@ {
        Some(PlantKind::Threepeater)
    } else if n == "Jalapeno"@ {
        Some(PlantKind::Jalapeno)
    } else if n == "Spikeweed"@ {
        Some(PlantKind::Spikeweed)
    } else if n == "Torchwood"@ {
        Some(PlantKind::Torchwood)
    } else if n == "Tall-nut"@ {
        Some(PlantKind::TallNut)
    } else if n == "Garlic"@ {
        Some(PlantKind::Garlic)
    } else if n == "Hypno-shroom"@ {
        Some(PlantKind::HypnoShroom)
    } else if n == "Ice-shroom"@ {
        Some(PlantKind::IceShroom)
    } else if n == "Doom-shroom"@ {
        Some(PlantKind::DoomShroom)
    } else {
        None
    }
}

/// Sun cost of a packet by name; packets with an unknown name cost 100.
pub open spec fn name_cost(n: Seq<char>) -> int {
    match kind_named(n) {
        Some(k) => plant_cost(k),
        None => 100,
    }
}

/// A name no plant carries is not looked up.
pub proof fn lemma_kind_named_none(n: Seq<char>)
    requires
        kind_named(n) is None,
    ensures
        forall|k: PlantKind| plant_name(k) != n,
{
    assert forall|k: PlantKind| plant_name(k) != n by {
        match k {
            PlantKind::Sunflower => {}
            PlantKind::Peashooter => {}
            PlantKind::Repeater => {}
            PlantKind::SnowPea => {}
            PlantKind::WallNut => {}
            PlantKind::PotatoMine => {}
            PlantKind::CherryBomb => {}
            PlantKind::Chomper => {}
            PlantKind::Squash => {}
            PlantKind::Threepeater => {}
            PlantKind::Jalapeno => {}
            PlantKind::Spikeweed => {}
            PlantKind::Torchwood => {}
            PlantKind::TallNut => {}
            PlantKind::Garlic => {}
            PlantKind::HypnoShroom => {}
            PlantKind::IceShroom => {}
            PlantKind::DoomShroom => {}
        }
    }
}

/// Seed packet by plant name; `None` when no plant carries that name.
pub fn seed_def(name: &str) -> (r: Option<SeedDef>)
    ensures
        r is Some == kind_named(name@) is Some,
        r matches Some(d) ==> kind_named(name@) == Some(d.kind) && d.describes(d.kind)
            && plant_name(d.kind) == name@,
        r is None ==> forall|k: PlantKind| plant_name(k) != name@,
{
    if str_eq(name, "Sunflower") {
        return seed_def_by_kind(PlantKind::Sunflower);
    }
    if str_eq(name, "Peashooter") {
        return seed_def_by_kind(PlantKind::Peashooter);
    }
    if str_eq(name, "Repeater") {
        return seed_def_by_kind(PlantKind::Repeater);
    }
    if str_eq(name, "Snow Pea") {
        return seed_def_by_kind(PlantKind::SnowPea);
    }
    if str_eq(name, "Wall-nut") {
        return seed_def_by_kind(PlantKind::WallNut);
    }
    if str_eq(name, "Potato Mine") {
        return seed_def_by_kind(PlantKind::PotatoMine);
    }
    if str_eq(name, "Cherry Bomb") {
        return seed_def_by_kind(PlantKind::CherryBomb);
    }
    if str_eq(name, "Chomper") {
        return seed_def_by_kind(PlantKind::Chomper);
    }
    if str_eq(name, "Squash") {
        return seed_def_by_kind(PlantKind::Squash);
    }
    if str_eq(name, "Threepeater") {
        return seed_def_by_kind(PlantKind::Threepeater);
    }
    if str_eq(name, "Jalapeno") {
        return seed_def_by_kind(PlantKind::Jalapeno);
    }
    if str_eq(name, "Spikeweed") {
        return seed_def_by_kind(PlantKind::Spikeweed);
    }
    if str_eq(name, "Torchwood") {
        return seed_def_by_kind(PlantKind::Torchwood);
    }
    if str_eq(name, "Tall-nut") {
        return seed_def_by_kind(PlantKind::TallNut);
    }
    if str_eq(name, "Garlic") {
        return seed_def_by_kind(PlantKind::Garlic);
    }
    if str_eq(name, "Hypno-shroom") {
        return seed_def_by_kind(PlantKind::HypnoShroom);
    }
    if str_eq(name, "Ice-shroom") {
        return seed_def_by_kind(PlantKind::IceShroom);
    }
    if str_eq(name, "Doom-shroom") {
        return seed_def_by_kind(PlantKind::DoomShroom);
    }
    proof {
        lemma_kind_named_none(name@);
    }
    None
}

/// The slug character(s) one name character contributes to a key.
pub open spec fn slug_char(c: char) -> Seq<char> {
    if is_ascii_alnum(c) {
        seq![ascii_lower(c)]
    } else if c == ' ' || c == '_' || c == '-' {
        seq!['-']
    } else {
        Seq::empty()
    }
}

/// Lowercase, dash-separated slug of a name.
pub open spec fn slug(s: Seq<char>) -> Seq<char>
    decreases s.len(),
{
    if s.len() == 0 {
        Seq::empty()
    } else {
        slug(s.drop_last()) + slug_char(s.last())
    }
}

/// Catalog key of a seed's display name: `seed-` plus the slug of the name.
pub fn seed_key(name: &str) -> (r: String)
    ensures
        r@ == "seed-"@ + slug(name@),
{
    let mut out = String::new();
    out.append("seed-");
    let len = name.unicode_len();
    let mut i: usize = 0;
    while i < len
        invariant
            i <= len,
            len == name@.len(),
            out@ == "seed-"@ + slug(name@.take(i as int)),
        decreases len - i,
    {
        let c = name.get_char(i);
        if ('a' <= c && c <= 'z') || ('A' <= c && c <= 'Z') || ('0' <= c && c <= '9') {
            push_char(&mut out, to_ascii_lower(c));
        } else if c == ' ' || c == '_' || c == '-' {
            push_char(&mut out, '-');
        }
        assert(name@.take(i + 1).drop_last() == name@.take(i as int));
        assert(name@.take(i + 1).last() == c);
        i = i + 1;
    }
    assert(name@.take(len as int) == name@);
    out
}

} // verus!
