use vstd::prelude::*;
use crate::mob::{MobTrait, MobType};

verus! {

/// A pig.
#[derive(Debug, Clone, Copy, PartialEq, Eq, Structural, Default)]
pub struct Pig;

impl MobTrait for Pig {
    open spec fn spec_name(&self) -> Seq<char> {
        "pig"@
    }

    open spec fn spec_typ(&self) -> MobType {
        MobType::Passive
    }

    fn name(&self) -> (n: &'static str) {
        "pig"
    }

    fn typ(&self) -> (t: MobType) {
        MobType::Passive
    }
}

} // verus!
