use vstd::prelude::*;
use crate::mob::{MobTrait, MobType};

verus! {

/// A rabbit.
#[derive(Debug, Clone, Copy, PartialEq, Eq, Structural, Default)]
pub struct Rabbit;

impl MobTrait for Rabbit {
    open spec fn spec_name(&self) -> Seq<char> {
        "rabbit"@
    }

    open spec fn spec_typ(&self) -> MobType {
        MobType::Passive
    }

    fn name(&self) -> (n: &'static str) {
        "rabbit"
    }

    fn typ(&self) -> (t: MobType) {
        MobType::Passive
    }
}

} // verus!
