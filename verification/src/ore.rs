//! Ores found in the world and what mining them yields.
use vstd::prelude::*;
use crate::text::{join_path, join_path_spec, owned, text_eq};

verus! {

/// The ores that can be mined in the world.
#[derive(Debug, Clone, Copy, PartialEq, Eq, Structural)]
pub enum Ore {
    Amethyst,
    Copper,
    Diamond,
    Emerald,
    Gold,
    Ruby,
    Silver,
    WitheDiamond,
}

/// Whether a processed ore becomes a gem or an ingot.
#[derive(Debug, Clone, Copy, PartialEq, Eq, Structural)]
pub enum OreType {
    Gem,
    Ingot,
}

/// The kind of material an ore yields: copper, gold and silver give ingots,
/// every other ore gives gems.
pub open spec fn spec_ore_type(ore: Ore) -> OreType {
    match ore {
        Ore::Copper | Ore::Gold | Ore::Silver => OreType::Ingot,
        _ => OreType::Gem,
    }
}

/// The display name of an ore: its variant name.
pub open spec fn ore_name(ore: Ore) -> Seq<char> {
    match ore {
        Ore::Amethyst => "Amethyst"@,
        Ore::Copper => "Copper"@,
        Ore::Diamond => "Diamond"@,
        Ore::Emerald => "Emerald"@,
        Ore::Gold => "Gold"@,
        Ore::Ruby => "Ruby"@,
        Ore::Silver => "Silver"@,
        Ore::WitheDiamond => "WitheDiamond"@,
    }
}

/// The ore whose display name is `s`, if any.
pub open spec fn ore_from_name(s: Seq<char>) -> Option<Ore> {
    if s == "Amethyst"@ {
        Some(Ore::Amethyst)
    } else if s == "Copper"@ {
        Some(Ore::Copper)
    } else if s == "Diamond"@ {
        Some(Ore::Diamond)
    } else if s == "Emerald"@ {
        Some(Ore::Emerald)
    } else if s == "Gold"@ {
        Some(Ore::Gold)
    } else if s == "Ruby"@ {
        Some(Ore::Ruby)
    } else if s == "Silver"@ {
        Some(Ore::Silver)
    } else if s == "WitheDiamond"@ {
        Some(Ore::WitheDiamond)
    } else {
        None
    }
}

/// The path of the texture drawn for an ore.
pub open spec fn ore_texture(ore: Ore) -> Seq<char> {
    join_path_spec("textures/ores"@, ore_name(ore) + ".png"@)
}

impl Default for Ore {
    /// Silver is the ore a default value stands for.
    fn default() -> (o: Ore)
        ensures
            o == Ore::Silver,
    {
        Ore::Silver
    }
}

impl Ore {
    pub fn ore_type(&self) -> (t: OreType)
        ensures
            t == spec_ore_type(*self),
    {
        match self {
            Ore::Amethyst => OreType::Gem,
            Ore::Copper => OreType::Ingot,
            Ore::Diamond => OreType::Gem,
            Ore::Emerald => OreType::Gem,
            Ore::Gold => OreType::Ingot,
            Ore::Ruby => OreType::Gem,
            Ore::Silver => OreType::Ingot,
            Ore::WitheDiamond => OreType::Gem,
        }
    }

    /// The display name of the ore.
    pub fn name(&self) -> (s: String)
        ensures
            s@ == ore_name(*self),
    {
        match self {
            Ore::Amethyst => owned("Amethyst"),
            Ore::Copper => owned("Copper"),
            Ore::Diamond => owned("Diamond"),
            Ore::Emerald => owned("Emerald"),
            Ore::Gold => owned("Gold"),
            Ore::Ruby => owned("Ruby"),
            Ore::Silver => owned("Silver"),
            Ore::WitheDiamond => owned("WitheDiamond"),
        }
    }

    /// The ore whose display name is exactly `s`.
    pub fn from_name(s: &str) -> (o: Option<Ore>)
        ensures
            o == ore_from_name(s@),
    {
        if text_eq(s, "Amethyst") {
            Some(Ore::Amethyst)
        } else if text_eq(s, "Copper") {
            Some(Ore::Copper)
        } else if text_eq(s, "Diamond") {
            Some(Ore::Diamond)
        } else if text_eq(s, "Emerald") {
            Some(Ore::Emerald)
        } else if text_eq(s, "Gold") {
            Some(Ore::Gold)
        } else if text_eq(s, "Ruby") {
            Some(Ore::Ruby)
        } else if text_eq(s, "Silver") {
            Some(Ore::Silver)
        } else if text_eq(s, "WitheDiamond") {
            Some(Ore::WitheDiamond)
        } else {
            None
        }
    }

    /// The path of the ore's texture.
    pub fn get_texture(&self) -> (p: String)
        ensures
            p@ == ore_texture(*self),
    {
        let mut file = self.name();
        file.append(".png");
        join_path("textures/ores", file.as_str())
    }
}

/// Reading back the name of an ore gives the same ore.
pub proof fn lemma_ore_name_round_trip(ore: Ore)
    ensures
        ore_from_name(ore_name(ore)) == Some(ore),
{
    reveal_strlit("Amethyst");
    reveal_strlit("Copper");
    reveal_strlit("Diamond");
    reveal_strlit("Emerald");
    reveal_strlit("Gold");
    reveal_strlit("Ruby");
    reveal_strlit("Silver");
    reveal_strlit("WitheDiamond");
    // Every name starts with its own letter.
    assert("Amethyst"@[0] == 'A');
    assert("Copper"@[0] == 'C');
    assert("Diamond"@[0] == 'D');
    assert("Emerald"@[0] == 'E');
    assert("Gold"@[0] == 'G');
    assert("Ruby"@[0] == 'R');
    assert("Silver"@[0] == 'S');
    assert("WitheDiamond"@[0] == 'W');
}

/// Exactly copper, gold and silver give ingots; every other ore gives gems.
pub proof fn lemma_ingot_ores(ore: Ore)
    ensures
        spec_ore_type(ore) == OreType::Ingot <==> (ore == Ore::Copper || ore == Ore::Gold || ore
            == Ore::Silver),
        spec_ore_type(ore) == OreType::Gem <==> !(ore == Ore::Copper || ore == Ore::Gold || ore
            == Ore::Silver),
{
}

} // verus!
