//! Choosing the player's class when a world is created.
use vstd::prelude::*;
use vstd::arithmetic::div_mod::{
    lemma_add_mod_noop, lemma_mod_add_multiples_vanish, lemma_mod_self_0, lemma_small_mod,
};

verus! {

/// The position of the class chosen among the `count` classes.
#[derive(Debug, Clone, Copy, PartialEq, Eq, Structural)]
pub struct CurrentSelectedClass {
    pub index: usize,
}

impl Default for CurrentSelectedClass {
    /// The first class.
    fn default() -> (c: CurrentSelectedClass)
        ensures
            c.index == 0,
    {
        CurrentSelectedClass { index: 0 }
    }
}

/// The class after `index` among `count`, going round.
pub open spec fn next_class(index: int, count: int) -> int {
    (index + 1) % count
}

/// The class before `index` among `count`, going round.
pub open spec fn previous_class(index: int, count: int) -> int {
    if index == 0 {
        count - 1
    } else {
        (index - 1) % count
    }
}

impl CurrentSelectedClass {
    /// Chooses the next class, the first after the last.
    pub fn select_right(&mut self, count: usize)
        requires
            old(self).index < count,
        ensures
            final(self).index == next_class(old(self).index as int, count as int),
            final(self).index < count,
    {
        self.index = (self.index + 1) % count;
    }

    /// Chooses the previous class, the last before the first.
    pub fn select_left(&mut self, count: usize)
        requires
            old(self).index < count,
        ensures
            final(self).index == previous_class(old(self).index as int, count as int),
            final(self).index < count,
    {
        self.index = if self.index == 0 {
            count - 1
        } else {
            (self.index - 1) % count
        };
    }
}

/// How a class's picture shows in the chooser.
#[derive(Debug, Clone, Copy, PartialEq, Eq, Structural)]
pub struct ClassStyle {
    /// Shown at all: the chosen class and its neighbours, going round.
    pub visible: bool,
    /// Drawn larger: the chosen class.
    pub enlarged: bool,
}

/// How far apart two of `count` classes are, going round whichever way is
/// shorter.
pub open spec fn circular_distance(a: int, b: int, count: int) -> int {
    let diff = if a >= b { a - b } else { b - a };
    if diff <= count - diff {
        diff
    } else {
        count - diff
    }
}

/// How the picture of class `this_index` shows while class
/// `current_index` is chosen, among `count` classes.
pub fn calc_class_style(current_index: usize, this_index: usize, count: usize) -> (s: ClassStyle)
    requires
        current_index < count,
        this_index < count,
    ensures
        s.visible == (circular_distance(current_index as int, this_index as int, count as int) <= 1),
        s.enlarged == (circular_distance(current_index as int, this_index as int, count as int) == 0),
{
    let diff = if current_index >= this_index {
        current_index - this_index
    } else {
        this_index - current_index
    };
    let circ_diff = if diff <= count - diff {
        diff
    } else {
        count - diff
    };
    ClassStyle { visible: circ_diff <= 1, enlarged: circ_diff == 0 }
}

/// Going right then left, or left then right, comes back to the class one
/// started from.
pub proof fn lemma_select_round_trip(index: int, count: int)
    requires
        0 <= index < count,
    ensures
        previous_class(next_class(index, count), count) == index,
        next_class(previous_class(index, count), count) == index,
{
    if index + 1 < count {
        lemma_small_mod((index + 1) as nat, count as nat);
        lemma_small_mod(index as nat, count as nat);
    } else {
        lemma_mod_self_0(count);
        lemma_small_mod((count - 1) as nat, count as nat);
    }
    if index > 0 {
        lemma_small_mod((index - 1) as nat, count as nat);
        lemma_small_mod(index as nat, count as nat);
    } else {
        lemma_mod_self_0(count);
    }
}

/// The class reached from `index` by `steps` steps to the right among
/// `count` classes.
pub open spec fn right_steps(index: int, count: int, steps: nat) -> int
    decreases steps,
{
    if steps == 0 {
        index
    } else {
        next_class(right_steps(index, count, (steps - 1) as nat), count)
    }
}

proof fn lemma_right_steps_mod(index: int, count: int, steps: nat)
    requires
        0 <= index < count,
    ensures
        right_steps(index, count, steps) == (index + steps) % count,
    decreases steps,
{
    if steps == 0 {
        lemma_small_mod(index as nat, count as nat);
    } else {
        lemma_right_steps_mod(index, count, (steps - 1) as nat);
        let x = index + steps - 1;
        lemma_add_mod_noop(x, 1, count);
        lemma_add_mod_noop(x % count, 1, count);
        lemma_small_mod((x % count) as nat, count as nat);
    }
}

/// Going right as many times as there are classes comes back to the class
/// one started from.
pub proof fn lemma_full_turn(index: int, count: int)
    requires
        0 <= index < count,
    ensures
        right_steps(index, count, count as nat) == index,
{
    lemma_right_steps_mod(index, count, count as nat);
    lemma_mod_add_multiples_vanish(index, count);
    lemma_small_mod(index as nat, count as nat);
}

} // verus!
