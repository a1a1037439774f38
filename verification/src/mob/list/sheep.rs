use vstd::prelude::*;
use crate::mob::{MobTrait, MobType};

verus! {

/// A sheep, shorn or not.
#[derive(Debug, Clone, Copy, PartialEq, Eq, Structural)]
pub struct Sheep {
    pub shorn: bool,
}

impl MobTrait for Sheep {
    open spec fn spec_name(&self) -> Seq<char> {
        "sheep"@
    }

    open spec fn spec_typ(&self) -> MobType {
        MobType::Passive
    }

    fn name(&self) -> (n: &'static str) {
        "sheep"
    }

    fn typ(&self) -> (t: MobType) {
        MobType::Passive
    }
}

impl Default for Sheep {
    /// A sheep starts shorn.
    fn default() -> (s: Sheep)
        ensures
            s.shorn,
    {
        Sheep { shorn: true }
    }
}

} // verus!
