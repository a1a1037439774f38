//! Creatures of the world: their names, textures and loot.
use vstd::prelude::*;
use crate::text::{join_path, join_path_spec, owned};
use self::list::sheep::Sheep;

pub mod list;

verus! {

/// How a creature behaves towards the player.
#[derive(Debug, Clone, Copy, PartialEq, Eq, Structural)]
pub enum MobType {
    Passive,
    Neutral,
    Agressive,
}

/// The loot table a creature drops on death, by name.
#[derive(Debug, Clone, Copy)]
pub struct MobLootTable(pub &'static str);

/// The path of the loot table called `name`.
pub open spec fn loot_table_path(name: Seq<char>) -> Seq<char> {
    join_path_spec("mobs"@, name + ".json"@)
}

impl MobLootTable {
    /// The path of the loot table's file.
    pub fn path(&self) -> (p: String)
        ensures
            p@ == loot_table_path(self.0@),
    {
        let mut file = owned(self.0);
        file.append(".json");
        join_path("mobs", file.as_str())
    }
}

/// What the game keeps of a creature besides its looks.
pub struct Mob {
    pub typ: MobType,
    pub death_loot_table: MobLootTable,
}

impl Mob {
    pub fn new(typ: MobType, death_loot_table: MobLootTable) -> (m: Mob)
        ensures
            m.typ == typ,
            m.death_loot_table.0@ == death_loot_table.0@,
    {
        Mob { typ, death_loot_table }
    }
}

/// The path of the texture of animation `animation` of the creature called
/// `name`.
pub open spec fn mob_texture(name: Seq<char>, animation: Seq<char>) -> Seq<char> {
    join_path_spec(join_path_spec("textures/mobs"@, name), animation + ".png"@)
}

/// What every kind of creature tells about itself.
pub trait MobTrait {
    spec fn spec_name(&self) -> Seq<char>;

    spec fn spec_typ(&self) -> MobType;

    fn name(&self) -> (n: &'static str)
        ensures
            n@ == self.spec_name(),
    ;

    fn typ(&self) -> (t: MobType)
        ensures
            t == self.spec_typ(),
    ;

    /// The path of the texture of one of the creature's animations.
    fn texture(&self, animation: &str) -> (p: String)
        ensures
            p@ == mob_texture(self.spec_name(), animation@),
    {
        let dir = join_path("textures/mobs", self.name());
        let mut file = owned(animation);
        file.append(".png");
        join_path(dir.as_str(), file.as_str())
    }

    /// The loot table named after the creature.
    fn death_loot_table(&self) -> (t: MobLootTable)
        ensures
            t.0@ == self.spec_name(),
    {
        MobLootTable(self.name())
    }

    /// The creature's record: its behaviour and its loot table.
    fn mob_obj(&self) -> (m: Mob)
        ensures
            m.typ == self.spec_typ(),
            m.death_loot_table.0@ == self.spec_name(),
    {
        let typ = self.typ();
        let table = self.death_loot_table();
        Mob::new(typ, table)
    }
}

/// The creatures that can be saved with the world.
#[derive(Debug, Clone, Copy, PartialEq, Eq, Structural)]
pub enum MobObject {
    Sheep(Sheep),
}

impl MobTrait for MobObject {
    open spec fn spec_name(&self) -> Seq<char> {
        match self {
            MobObject::Sheep(m) => m.spec_name(),
        }
    }

    open spec fn spec_typ(&self) -> MobType {
        match self {
            MobObject::Sheep(m) => m.spec_typ(),
        }
    }

    fn name(&self) -> (n: &'static str) {
        match self {
            MobObject::Sheep(m) => m.name(),
        }
    }

    fn typ(&self) -> (t: MobType) {
        match self {
            MobObject::Sheep(m) => m.typ(),
        }
    }
}

} // verus!
