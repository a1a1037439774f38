//! Loot dropped by weighted rolls.
use vstd::prelude::*;
use crate::items::stack::ItemStack;
use crate::random::random_u32;

verus! {

/// One possible drop and how likely it is against the others.
pub struct Loot {
    pub itemstack: ItemStack,
    pub weight: u32,
}

/// Drops rolled `rolls` times, each roll picking at most one loot.
pub struct LootTable {
    pub loots: Vec<Loot>,
    pub rolls: u32,
}

/// The sum of the weights of `loots`.
pub open spec fn weight_sum(loots: Seq<Loot>) -> nat
    decreases loots.len(),
{
    if loots.len() == 0 {
        0
    } else {
        weight_sum(loots.drop_last()) + loots.last().weight as nat
    }
}

/// The sum of the weights as a 32-bit number, wrapping on overflow.
pub open spec fn total_weight(loots: Seq<Loot>) -> u32 {
    (weight_sum(loots) % 0x1_0000_0000) as u32
}

/// The number a roll lands on for a drawn number: `draw` times the total
/// weight, wrapping on overflow.
pub open spec fn roll_value(draw: u32, total: u32) -> u32 {
    ((draw as nat * total as nat) % 0x1_0000_0000) as u32
}

/// The loot a roll landing on `r` picks: the first loot whose weight,
/// added to those before it, goes beyond `r`; none when `r` reaches the sum
/// of all weights.
pub open spec fn pick(loots: Seq<Loot>, r: int) -> Option<int>
    decreases loots.len(),
{
    if loots.len() == 0 {
        None
    } else if r < loots[0].weight {
        Some(0)
    } else {
        match pick(loots.drop_first(), r - loots[0].weight) {
            Some(i) => Some(i + 1),
            None => None,
        }
    }
}

/// The stacks dropped by rolls on the drawn numbers `draws`, in order.
pub open spec fn rolled(loots: Seq<Loot>, draws: Seq<u32>) -> Seq<ItemStack>
    decreases draws.len(),
{
    if draws.len() == 0 {
        Seq::<ItemStack>::empty()
    } else {
        let before = rolled(loots, draws.drop_last());
        match pick(loots, roll_value(draws.last(), total_weight(loots)) as int) {
            Some(i) => before.push(loots[i].itemstack),
            None => before,
        }
    }
}

/// A roll picks a loot exactly when it lands below the sum of the weights,
/// and the loot it picks is one of the table's, of positive weight.
pub proof fn lemma_pick(loots: Seq<Loot>, r: int)
    requires
        r >= 0,
    ensures
        pick(loots, r) is Some <==> r < weight_sum(loots),
        pick(loots, r) matches Some(i) ==> 0 <= i < loots.len() && loots[i].weight > 0,
    decreases loots.len(),
{
    if loots.len() > 0 {
        lemma_weight_sum_first(loots);
        if r >= loots[0].weight {
            lemma_pick(loots.drop_first(), r - loots[0].weight);
        }
    }
}

/// Whether `stack` is the stack of one of `loots` of positive weight.
pub open spec fn drops_from(loots: Seq<Loot>, stack: ItemStack) -> bool {
    exists|i: int| 0 <= i < loots.len() && loots[i].weight > 0 && #[trigger] loots[i].itemstack == stack
}

/// Rolling a table drops at most one stack per roll, and every stack it
/// drops is that of one of its loots, of positive weight.
pub proof fn lemma_rolled_drops(loots: Seq<Loot>, draws: Seq<u32>)
    ensures
        rolled(loots, draws).len() <= draws.len(),
        forall|k: int|
            0 <= k < rolled(loots, draws).len() ==> drops_from(loots, #[trigger] rolled(loots, draws)[k]),
    decreases draws.len(),
{
    if draws.len() > 0 {
        let before = rolled(loots, draws.drop_last());
        lemma_rolled_drops(loots, draws.drop_last());
        let r = roll_value(draws.last(), total_weight(loots)) as int;
        lemma_pick(loots, r);
        match pick(loots, r) {
            Some(i) => {
                let after = before.push(loots[i].itemstack);
                assert(rolled(loots, draws) == after);
                assert forall|k: int| 0 <= k < after.len() implies drops_from(loots, #[trigger] after[k]) by {
                    if k < before.len() {
                        assert(after[k] == before[k]);
                    } else {
                        assert(loots[i].itemstack == after[k]);
                    }
                }
            },
            None => {},
        }
    }
}

/// Rolls are independent: rolling on `a` then on `b` drops what rolling on
/// `a` drops followed by what rolling on `b` drops.
pub proof fn lemma_rolled_concat(loots: Seq<Loot>, a: Seq<u32>, b: Seq<u32>)
    ensures
        rolled(loots, a + b) == rolled(loots, a) + rolled(loots, b),
    decreases b.len(),
{
    if b.len() == 0 {
        assert(a + b =~= a);
        assert(rolled(loots, a) + rolled(loots, b) =~= rolled(loots, a));
    } else {
        lemma_rolled_concat(loots, a, b.drop_last());
        assert((a + b).drop_last() =~= a + b.drop_last());
        assert((a + b).last() == b.last());
        match pick(loots, roll_value(b.last(), total_weight(loots)) as int) {
            Some(i) => {
                assert(rolled(loots, a) + rolled(loots, b) =~= (rolled(loots, a) + rolled(
                    loots,
                    b.drop_last(),
                )).push(loots[i].itemstack));
            },
            None => {},
        }
    }
}

/// A single roll drops the stack of the loot it lands on, or nothing when
/// it lands past every loot.
pub proof fn lemma_rolled_one(loots: Seq<Loot>, draw: u32)
    ensures
        pick(loots, roll_value(draw, total_weight(loots)) as int) matches Some(i) ==> rolled(
            loots,
            seq![draw],
        ) == seq![loots[i].itemstack],
        pick(loots, roll_value(draw, total_weight(loots)) as int) is None ==> rolled(
            loots,
            seq![draw],
        ) == Seq::<ItemStack>::empty(),
{
    assert(seq![draw].drop_last() =~= Seq::<u32>::empty());
    assert(rolled(loots, Seq::<u32>::empty()) == Seq::<ItemStack>::empty());
    match pick(loots, roll_value(draw, total_weight(loots)) as int) {
        Some(i) => {
            assert(Seq::<ItemStack>::empty().push(loots[i].itemstack) =~= seq![loots[i].itemstack]);
        },
        None => {},
    }
}

/// The sum of the weights, counted from the first loot.
proof fn lemma_weight_sum_first(loots: Seq<Loot>)
    requires
        loots.len() > 0,
    ensures
        weight_sum(loots) == loots[0].weight + weight_sum(loots.drop_first()),
    decreases loots.len(),
{
    if loots.len() > 1 {
        lemma_weight_sum_first(loots.drop_last());
        assert(loots.drop_last().drop_first() =~= loots.drop_first().drop_last());
        assert(loots.drop_first().last() == loots.last());
        assert(loots.drop_last()[0] == loots[0]);
        assert(weight_sum(loots.drop_first()) == weight_sum(loots.drop_first().drop_last())
            + loots.drop_first().last().weight);
    } else {
        assert(loots.drop_first().len() == 0);
        assert(loots.drop_last().len() == 0);
        assert(weight_sum(loots.drop_first()) == 0);
        assert(weight_sum(loots.drop_last()) == 0);
        assert(loots.last() == loots[0]);
        assert(weight_sum(loots) == weight_sum(loots.drop_last()) + loots.last().weight);
    }
}

impl Loot {
    pub fn new(itemstack: ItemStack, weight: u32) -> (l: Loot)
        ensures
            l.itemstack == itemstack,
            l.weight == weight,
    {
        Loot { itemstack, weight }
    }
}

impl LootTable {
    pub fn new(loots: Vec<Loot>, rolls: u32) -> (t: LootTable)
        ensures
            t.loots@ == loots@,
            t.rolls == rolls,
    {
        LootTable { loots, rolls }
    }

    /// The sum of the weights, wrapping on overflow.
    pub fn total_weight(&self) -> (t: u32)
        ensures
            t == total_weight(self.loots@),
    {
        let mut total: u32 = 0;
        let mut i: usize = 0;
        while i < self.loots.len()
            invariant
                i <= self.loots.len(),
                total == total_weight(self.loots@.take(i as int)),
            decreases self.loots.len() - i,
        {
            proof {
                let s = self.loots@.take(i + 1);
                assert(s.drop_last() =~= self.loots@.take(i as int));
                assert(s.last() == self.loots@[i as int]);
            }
            total = total.wrapping_add(self.loots[i].weight);
            i = i + 1;
        }
        proof {
            assert(self.loots@.take(self.loots.len() as int) =~= self.loots@);
        }
        total
    }

    /// The index of the loot a roll landing on `r` picks (see `pick`).
    pub fn pick_index(&self, r: u32) -> (p: Option<usize>)
        ensures
            p matches Some(i) ==> pick(self.loots@, r as int) == Some(i as int),
            p is None ==> pick(self.loots@, r as int) is None,
    {
        let mut rest: u32 = r;
        let mut i: usize = 0;
        proof {
            assert(self.loots@.skip(0) =~= self.loots@);
        }
        while i < self.loots.len()
            invariant
                i <= self.loots.len(),
                pick(self.loots@, r as int) == match pick(self.loots@.skip(i as int), rest as int) {
                    Some(j) => Some(j + i),
                    None => None,
                },
            decreases self.loots.len() - i,
        {
            let w = self.loots[i].weight;
            proof {
                assert(self.loots@.skip(i as int).drop_first() =~= self.loots@.skip(i + 1));
                assert(self.loots@.skip(i as int)[0] == self.loots@[i as int]);
            }
            if rest < w {
                return Some(i);
            }
            rest = rest - w;
            i = i + 1;
        }
        None
    }

    /// The stacks dropped when the rolls draw the numbers `draws`.
    pub fn loots_for_draws(&self, draws: &Vec<u32>) -> (res: Vec<ItemStack>)
        ensures
            res@ == rolled(self.loots@, draws@),
    {
        let total = self.total_weight();
        let mut res: Vec<ItemStack> = Vec::new();
        let mut k: usize = 0;
        while k < draws.len()
            invariant
                k <= draws.len(),
                total == total_weight(self.loots@),
                res@ == rolled(self.loots@, draws@.take(k as int)),
            decreases draws.len() - k,
        {
            proof {
                let d = draws@.take(k + 1);
                assert(d.drop_last() =~= draws@.take(k as int));
                assert(d.last() == draws@[k as int]);
            }
            let r = draws[k].wrapping_mul(total);
            match self.pick_index(r) {
                Some(i) => {
                    proof {
                        lemma_pick(self.loots@, r as int);
                    }
                    res.push(self.loots[i].itemstack);
                },
                None => {},
            }
            k = k + 1;
        }
        proof {
            assert(draws@.take(draws.len() as int) =~= draws@);
        }
        res
    }

    /// Rolls the table `rolls` times with numbers drawn at random.
    pub fn get_random_loots(&self) -> (res: Vec<ItemStack>)
        ensures
            exists|draws: Seq<u32>|
                draws.len() == self.rolls && res@ == rolled(self.loots@, draws),
            res@.len() <= self.rolls,
            forall|k: int| 0 <= k < res@.len() ==> drops_from(self.loots@, #[trigger] res@[k]),
    {
        let mut draws: Vec<u32> = Vec::new();
        let mut n: u32 = 0;
        while n < self.rolls
            invariant
                n <= self.rolls,
                draws@.len() == n,
            decreases self.rolls - n,
        {
            draws.push(random_u32());
            n = n + 1;
        }
        let res = self.loots_for_draws(&draws);
        proof {
            assert(draws@.len() == self.rolls && res@ == rolled(self.loots@, draws@));
            lemma_rolled_drops(self.loots@, draws@);
        }
        res
    }
}

} // verus!
