//! Timed effects on a character, such as levitation.
use vstd::prelude::*;
use crate::assoc::{assoc_map, keys_distinct, lemma_assoc_map_contains, lemma_assoc_map_ext, lemma_assoc_map_index};

verus! {

/// The effects a character can be under.
#[derive(Debug, Clone, Copy, PartialEq, Eq, Structural)]
pub enum Effect {
    Levitation,
}

/// A timer that runs once, with times counted in nanoseconds: it has run
/// for `elapsed` out of `duration`, and `finished` is set by the tick that
/// reaches the end.
#[derive(Debug, Clone, Copy, PartialEq, Eq, Structural)]
pub struct EffectTimer {
    pub duration: u64,
    pub elapsed: u64,
    pub finished: bool,
}

/// The timer has not run past its end.
pub open spec fn timer_wf(t: EffectTimer) -> bool {
    t.elapsed <= t.duration
}

/// The time left before the timer ends.
pub open spec fn timer_remaining(t: EffectTimer) -> int {
    t.duration - t.elapsed
}

/// The timer after `delta` more nanoseconds: a finished timer stays as it
/// is; otherwise it runs on and finishes once it reaches its duration,
/// where it stops.
pub open spec fn timer_tick(t: EffectTimer, delta: u64) -> EffectTimer {
    if t.finished {
        t
    } else if t.elapsed + delta >= t.duration {
        EffectTimer { duration: t.duration, elapsed: t.duration, finished: true }
    } else {
        EffectTimer { duration: t.duration, elapsed: (t.elapsed + delta) as u64, finished: false }
    }
}

impl EffectTimer {
    /// A timer of `duration` nanoseconds that has not started.
    pub fn new(duration: u64) -> (t: EffectTimer)
        ensures
            t == (EffectTimer { duration, elapsed: 0, finished: false }),
    {
        EffectTimer { duration, elapsed: 0, finished: false }
    }

    /// The time left before the timer ends.
    pub fn remaining(&self) -> (r: u64)
        requires
            timer_wf(*self),
        ensures
            r == timer_remaining(*self),
    {
        self.duration - self.elapsed
    }

    /// Runs the timer for `delta` more nanoseconds (see `timer_tick`).
    pub fn tick(&mut self, delta: u64)
        requires
            timer_wf(*old(self)),
        ensures
            *final(self) == timer_tick(*old(self), delta),
            timer_wf(*final(self)),
    {
        if self.finished {
            return;
        }
        if delta >= self.duration - self.elapsed {
            self.elapsed = self.duration;
            self.finished = true;
        } else {
            self.elapsed = self.elapsed + delta;
        }
    }
}

/// An effect's timer and strength.
#[derive(Debug, Clone, Copy, PartialEq, Eq, Structural)]
pub struct EffectData {
    pub timer: EffectTimer,
    pub level: u8,
}

impl EffectData {
    /// An effect of strength `level` lasting `duration` nanoseconds.
    pub fn new(duration: u64, level: u8) -> (d: EffectData)
        ensures
            d.timer == (EffectTimer { duration, elapsed: 0, finished: false }),
            d.level == level,
    {
        EffectData { timer: EffectTimer::new(duration), level }
    }
}

/// What an effect becomes when it is given again while still on: it keeps
/// whichever timer has more time left (the current one on a tie) and the
/// higher of the two levels.
pub open spec fn merge_effect(current: EffectData, new: EffectData) -> EffectData {
    EffectData {
        timer: if timer_remaining(current.timer) < timer_remaining(new.timer) {
            new.timer
        } else {
            current.timer
        },
        level: if current.level < new.level {
            new.level
        } else {
            current.level
        },
    }
}

/// The effects a character is under, each at most once.
pub struct EffectsController {
    effects: Vec<(Effect, EffectData)>,
}

impl View for EffectsController {
    type V = Map<Effect, EffectData>;

    closed spec fn view(&self) -> Map<Effect, EffectData> {
        assoc_map(self.effects@)
    }
}

impl EffectsController {
    /// Each effect occurs once and every timer is within its duration.
    pub closed spec fn well_formed(&self) -> bool {
        &&& keys_distinct(self.effects@)
        &&& forall|i: int| 0 <= i < self.effects@.len() ==> timer_wf(#[trigger] self.effects@[i].1.timer)
    }

    /// Every effect a controller holds has a valid timer.
    pub proof fn lemma_timers_well_formed(&self)
        requires
            self.well_formed(),
        ensures
            forall|e: Effect| #[trigger] self@.contains_key(e) ==> timer_wf(self@[e].timer),
    {
        assert forall|e: Effect| #[trigger] self@.contains_key(e) implies timer_wf(self@[e].timer) by {
            lemma_assoc_map_contains(self.effects@, e);
            let i = choose|i: int| 0 <= i < self.effects@.len() && self.effects@[i].0 == e;
            lemma_assoc_map_index(self.effects@, i);
        }
    }

    /// No effect.
    pub fn new() -> (c: EffectsController)
        ensures
            c.well_formed(),
            c@ == Map::<Effect, EffectData>::empty(),
    {
        let c = EffectsController { effects: Vec::new() };
        proof {
            assert(assoc_map(c.effects@) =~= Map::<Effect, EffectData>::empty());
        }
        c
    }

    /// The position of `effect` in the list, if it is on.
    fn find(&self, effect: &Effect) -> (r: Option<usize>)
        requires
            self.well_formed(),
        ensures
            r matches Some(i) ==> i < self.effects@.len() && self.effects@[i as int].0 == *effect,
            r is None ==> !self@.contains_key(*effect),
    {
        let mut i: usize = 0;
        while i < self.effects.len()
            invariant
                i <= self.effects@.len(),
                forall|j: int| 0 <= j < i ==> self.effects@[j].0 != *effect,
            decreases self.effects.len() - i,
        {
            if self.effects[i].0 == *effect {
                return Some(i);
            }
            i = i + 1;
        }
        proof {
            lemma_assoc_map_contains(self.effects@, *effect);
        }
        None
    }

    /// The effect's data, if it is on.
    pub fn get_effect(&self, effect: &Effect) -> (r: Option<&EffectData>)
        requires
            self.well_formed(),
        ensures
            r matches Some(d) ==> self@.contains_key(*effect) && *d == self@[*effect],
            r matches Some(d) ==> timer_wf(d.timer),
            r is None ==> !self@.contains_key(*effect),
    {
        proof {
            self.lemma_timers_well_formed();
        }
        match self.find(effect) {
            Some(i) => {
                proof {
                    lemma_assoc_map_index(self.effects@, i as int);
                }
                Some(&self.effects[i].1)
            },
            None => None,
        }
    }

    /// Gives the effect: an effect that is not on starts with `data`; one
    /// that is on is merged with it (see `merge_effect`).
    pub fn add(&mut self, effect: Effect, data: EffectData)
        requires
            old(self).well_formed(),
            timer_wf(data.timer),
        ensures
            final(self).well_formed(),
            old(self)@.contains_key(effect) ==> final(self)@ == old(self)@.insert(
                effect,
                merge_effect(old(self)@[effect], data),
            ),
            !old(self)@.contains_key(effect) ==> final(self)@ == old(self)@.insert(effect, data),
    {
        match self.find(&effect) {
            Some(i) => {
                let ghost s = self.effects@;
                proof {
                    lemma_assoc_map_index(s, i as int);
                }
                let mut current = self.effects[i].1;
                if current.timer.remaining() < data.timer.remaining() {
                    current.timer = data.timer;
                }
                if current.level < data.level {
                    current.level = data.level;
                }
                self.effects.set(i, (effect, current));
                proof {
                    let m = assoc_map(s).insert(effect, current);
                    assert(current == merge_effect(assoc_map(s)[effect], data));
                    assert forall|a: int, b: int| 0 <= a < b < self.effects@.len() implies self.effects@[a].0
                        != self.effects@[b].0 by {
                        assert(s[a].0 != s[b].0);
                    }
                    assert forall|j: int| 0 <= j < self.effects@.len() implies m.dom().contains(
                        #[trigger] self.effects@[j].0,
                    ) && m[self.effects@[j].0] == self.effects@[j].1 by {
                        if j != i {
                            lemma_assoc_map_index(s, j);
                        }
                    }
                    assert forall|k: Effect| m.dom().contains(k) implies exists|j: int|
                        0 <= j < self.effects@.len() && #[trigger] self.effects@[j].0 == k by {
                        if k != effect {
                            lemma_assoc_map_contains(s, k);
                            let j = choose|j: int| 0 <= j < s.len() && s[j].0 == k;
                            assert(self.effects@[j].0 == k);
                        } else {
                            assert(self.effects@[i as int].0 == k);
                        }
                    }
                    lemma_assoc_map_ext(self.effects@, m);
                }
            },
            None => {
                let ghost s = self.effects@;
                self.effects.push((effect, data));
                proof {
                    assert(self.effects@.drop_last() =~= s);
                    assert forall|a: int, b: int| 0 <= a < b < self.effects@.len() implies self.effects@[a].0
                        != self.effects@[b].0 by {
                        if b == s.len() {
                            lemma_assoc_map_contains(s, effect);
                            assert(s[a].0 == self.effects@[a].0);
                        } else {
                            assert(s[a].0 != s[b].0);
                        }
                    }
                }
            },
        }
    }

    /// Gives `effect` at strength `level` for `duration` nanoseconds.
    pub fn add_new(&mut self, effect: Effect, duration: u64, level: u8)
        requires
            old(self).well_formed(),
        ensures
            final(self).well_formed(),
            old(self)@.contains_key(effect) ==> final(self)@ == old(self)@.insert(
                effect,
                merge_effect(old(self)@[effect], EffectData::new_spec(duration, level)),
            ),
            !old(self)@.contains_key(effect) ==> final(self)@ == old(self)@.insert(
                effect,
                EffectData::new_spec(duration, level),
            ),
    {
        self.add(effect, EffectData::new(duration, level))
    }
}

impl EffectData {
    /// The data `EffectData::new(duration, level)` gives.
    pub open spec fn new_spec(duration: u64, level: u8) -> EffectData {
        EffectData { timer: EffectTimer { duration, elapsed: 0, finished: false }, level }
    }
}

/// An effect's data after `delta` more nanoseconds.
pub open spec fn effect_tick(d: EffectData, delta: u64) -> EffectData {
    EffectData { timer: timer_tick(d.timer, delta), level: d.level }
}

/// The effects after `delta` more nanoseconds: every timer runs on, and the
/// effects whose timer finishes are over.
pub open spec fn effects_after(m: Map<Effect, EffectData>, delta: u64) -> Map<Effect, EffectData> {
    Map::new(
        |e: Effect| m.dom().contains(e) && !timer_tick(m[e].timer, delta).finished,
        |e: Effect| effect_tick(m[e], delta),
    )
}

impl EffectsController {
    /// Ends `effect` if it is on.
    pub fn remove(&mut self, effect: &Effect)
        requires
            old(self).well_formed(),
        ensures
            final(self).well_formed(),
            final(self)@ == old(self)@.remove(*effect),
    {
        let ghost s = self.effects@;
        match self.find(effect) {
            Some(i) => {
                self.effects.remove(i);
                proof {
                    let t = self.effects@;
                    let m = assoc_map(s).remove(*effect);
                    assert forall|j: int| 0 <= j < t.len() implies #[trigger] t[j] == if j < i {
                        s[j]
                    } else {
                        s[j + 1]
                    } by {}
                    assert forall|a: int, b: int| 0 <= a < b < t.len() implies t[a].0 != t[b].0 by {
                        let a2 = if a < i { a } else { a + 1 };
                        let b2 = if b < i { b } else { b + 1 };
                        assert(s[a2].0 != s[b2].0);
                    }
                    assert forall|j: int| 0 <= j < t.len() implies m.dom().contains(#[trigger] t[j].0)
                        && m[t[j].0] == t[j].1 by {
                        let j2 = if j < i { j } else { j + 1 };
                        lemma_assoc_map_index(s, j2);
                        assert(s[j2].0 != s[i as int].0);
                    }
                    assert forall|k: Effect| m.dom().contains(k) implies exists|j: int|
                        0 <= j < t.len() && #[trigger] t[j].0 == k by {
                        lemma_assoc_map_contains(s, k);
                        let j2 = choose|j2: int| 0 <= j2 < s.len() && s[j2].0 == k;
                        if j2 < i {
                            assert(t[j2].0 == k);
                        } else {
                            assert(j2 != i);
                            assert(t[j2 - 1].0 == k);
                        }
                    }
                    lemma_assoc_map_ext(t, m);
                }
            },
            None => {
                proof {
                    assert(assoc_map(s).remove(*effect) =~= assoc_map(s));
                }
            },
        }
    }

    /// Ends every effect of `effects` that is on.
    pub fn clear_many(&mut self, effects: Vec<Effect>)
        requires
            old(self).well_formed(),
        ensures
            final(self).well_formed(),
            final(self)@ == old(self)@.remove_keys(effects@.to_set()),
    {
        let ghost start = self@;
        let mut k: usize = 0;
        proof {
            assert(start.remove_keys(effects@.take(0).to_set()) =~= start);
        }
        while k < effects.len()
            invariant
                self.well_formed(),
                k <= effects.len(),
                self@ == start.remove_keys(effects@.take(k as int).to_set()),
                start == old(self)@,
            decreases effects.len() - k,
        {
            let ghost before = self@;
            self.remove(&effects[k]);
            proof {
                let t1 = effects@.take(k + 1);
                let t0 = effects@.take(k as int);
                let x = effects@[k as int];
                assert forall|a: Effect| t1.contains(a) <==> (t0.contains(a) || a == x) by {
                    if t1.contains(a) {
                        let j = choose|j: int| 0 <= j < t1.len() && t1[j] == a;
                        if j < k {
                            assert(t0[j] == a);
                        }
                    }
                    if t0.contains(a) {
                        let j = choose|j: int| 0 <= j < t0.len() && t0[j] == a;
                        assert(t1[j] == a);
                    }
                    if a == x {
                        assert(t1[k as int] == a);
                    }
                }
                assert(t1.to_set() =~= t0.to_set().insert(x));
                assert(self@ =~= start.remove_keys(effects@.take(k + 1).to_set()));
            }
            k = k + 1;
        }
        proof {
            assert(effects@.take(effects.len() as int) =~= effects@);
        }
    }

    /// Ends every effect.
    pub fn clear_all(&mut self)
        requires
            old(self).well_formed(),
        ensures
            final(self).well_formed(),
            final(self)@ == Map::<Effect, EffectData>::empty(),
    {
        self.effects.clear();
        proof {
            assert(assoc_map(self.effects@) =~= Map::<Effect, EffectData>::empty());
        }
    }

    /// Runs every effect's timer for `delta` more nanoseconds and ends the
    /// effects whose timer finishes (see `effects_after`).
    pub fn update(&mut self, delta: u64)
        requires
            old(self).well_formed(),
        ensures
            final(self).well_formed(),
            final(self)@ == effects_after(old(self)@, delta),
    {
        let ghost s = self.effects@;
        let mut kept: Vec<(Effect, EffectData)> = Vec::new();
        let ghost mut origin: Seq<int> = Seq::empty();
        let mut i: usize = 0;
        while i < self.effects.len()
            invariant
                self.effects@ == s,
                self.well_formed(),
                i <= s.len(),
                origin.len() == kept@.len(),
                forall|j: int| 0 <= j < origin.len() ==> 0 <= #[trigger] origin[j] < i,
                forall|a: int, b: int| 0 <= a < b < origin.len() ==> origin[a] < origin[b],
                forall|j: int| 0 <= j < kept@.len() ==> #[trigger] kept@[j] == (s[origin[j]].0, effect_tick(s[origin[j]].1, delta))
                    && !timer_tick(s[origin[j]].1.timer, delta).finished,
                forall|a: int| 0 <= a < i && !timer_tick(#[trigger] s[a].1.timer, delta).finished ==> exists|j: int|
                    0 <= j < origin.len() && origin[j] == a,
            decreases s.len() - i,
        {
            let (e, d) = self.effects[i];
            let mut timer = d.timer;
            proof {
                assert(timer_wf(s[i as int].1.timer));
            }
            timer.tick(delta);
            if !timer.finished {
                kept.push((e, EffectData { timer, level: d.level }));
                proof {
                    origin = origin.push(i as int);
                }
            }
            proof {
                assert forall|a: int| 0 <= a < i + 1 && !timer_tick(#[trigger] s[a].1.timer, delta).finished implies exists|j: int|
                    0 <= j < origin.len() && origin[j] == a by {
                    if a == i {
                        assert(origin[origin.len() - 1] == a);
                    }
                }
            }
            i = i + 1;
        }
        proof {
            let t = kept@;
            let m = effects_after(assoc_map(s), delta);
            assert forall|a: int, b: int| 0 <= a < b < t.len() implies t[a].0 != t[b].0 by {
                assert(s[origin[a]].0 != s[origin[b]].0);
            }
            assert forall|j: int| 0 <= j < t.len() implies timer_wf(#[trigger] t[j].1.timer) by {
                assert(timer_wf(s[origin[j]].1.timer));
            }
            assert forall|j: int| 0 <= j < t.len() implies m.dom().contains(#[trigger] t[j].0) && m[t[j].0]
                == t[j].1 by {
                lemma_assoc_map_index(s, origin[j]);
            }
            assert forall|k: Effect| m.dom().contains(k) implies exists|j: int|
                0 <= j < t.len() && #[trigger] t[j].0 == k by {
                lemma_assoc_map_contains(s, k);
                let a = choose|a: int| 0 <= a < s.len() && s[a].0 == k;
                lemma_assoc_map_index(s, a);
                let j = choose|j: int| 0 <= j < origin.len() && origin[j] == a;
                assert(t[j].0 == k);
            }
            lemma_assoc_map_ext(t, m);
        }
        self.effects = kept;
    }
}

impl Default for EffectsController {
    /// No effect.
    fn default() -> (c: EffectsController)
        ensures
            c.well_formed(),
            c@ == Map::<Effect, EffectData>::empty(),
    {
        EffectsController::new()
    }
}

/// Giving an effect that is already on never shortens it nor weakens it:
/// the merged effect has at least the time left and the level of each of
/// the two.
pub proof fn lemma_merge_keeps_best(current: EffectData, new: EffectData)
    ensures
        timer_remaining(merge_effect(current, new).timer) >= timer_remaining(current.timer),
        timer_remaining(merge_effect(current, new).timer) >= timer_remaining(new.timer),
        merge_effect(current, new).level >= current.level,
        merge_effect(current, new).level >= new.level,
        merge_effect(current, new).level == current.level || merge_effect(current, new).level
            == new.level,
        merge_effect(current, new).timer == current.timer || merge_effect(current, new).timer
            == new.timer,
{
}

/// Time only runs down: a tick never adds time left, keeps the timer within
/// its duration, and a finished timer stays finished and unchanged.
pub proof fn lemma_tick_runs_down(t: EffectTimer, delta: u64)
    requires
        timer_wf(t),
    ensures
        timer_wf(timer_tick(t, delta)),
        timer_remaining(timer_tick(t, delta)) <= timer_remaining(t),
        timer_tick(t, delta).duration == t.duration,
        t.finished ==> timer_tick(t, delta) == t,
        timer_tick(t, delta).finished <==> (t.finished || t.elapsed + delta >= t.duration),
{
}

/// Time passing only runs the timers down: an effect still on afterwards
/// was on before, keeps its level and has `delta` less time left; an effect
/// with more than `delta` left on a running timer stays on, and one with no
/// more than that left is over.
pub proof fn lemma_update_runs_timers(m: Map<Effect, EffectData>, delta: u64)
    requires
        forall|e: Effect| #[trigger] m.contains_key(e) ==> timer_wf(m[e].timer),
    ensures
        forall|e: Effect| #[trigger]
            effects_after(m, delta).contains_key(e) ==> {
                &&& m.contains_key(e)
                &&& effects_after(m, delta)[e].level == m[e].level
                &&& timer_remaining(effects_after(m, delta)[e].timer) == timer_remaining(m[e].timer)
                    - delta
            },
        forall|e: Effect|
            #[trigger] m.contains_key(e) ==> (effects_after(m, delta).contains_key(e) <==> (
            !m[e].timer.finished && timer_remaining(m[e].timer) > delta)),
{
}

} // verus!
