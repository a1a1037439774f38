//! The kinds of creature.
use vstd::prelude::*;
use crate::mob::{MobTrait, MobType};
use self::rabbit::Rabbit;

pub mod pig;
pub mod rabbit;
pub mod sheep;

verus! {

/// The creatures of the list that can be saved with the world.
#[derive(Debug, Clone, Copy, PartialEq, Eq, Structural)]
pub enum MobObject {
    Rabbit(Rabbit),
}

impl MobTrait for MobObject {
    open spec fn spec_name(&self) -> Seq<char> {
        match self {
            MobObject::Rabbit(m) => m.spec_name(),
        }
    }

    open spec fn spec_typ(&self) -> MobType {
        match self {
            MobObject::Rabbit(m) => m.spec_typ(),
        }
    }

    fn name(&self) -> (n: &'static str) {
        match self {
            MobObject::Rabbit(m) => m.name(),
        }
    }

    fn typ(&self) -> (t: MobType) {
        match self {
            MobObject::Rabbit(m) => m.typ(),
        }
    }
}

} // verus!
