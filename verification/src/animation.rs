//! Which animation of a sprite sheet plays, and when it is over.
use vstd::prelude::*;
use crate::assoc::{assoc_map, keys_distinct, lemma_assoc_map_contains, lemma_assoc_map_index};
use crate::text::{owned, text_eq};

verus! {

/// How an animation's timer runs.
#[derive(Debug, Clone, Copy, PartialEq, Eq, Structural)]
pub enum AnimationMode {
    /// Plays once, then the controller goes back to its default animation.
    Once,
    /// Driven by hand: the frame is not advanced by the timer.
    Custom,
    /// Loops.
    Repeating,
}

/// In which order the frames are shown.
#[derive(Debug, Clone, Copy, PartialEq, Eq, Structural)]
pub enum AnimationDirection {
    Forwards,
    BackAndForth,
}

impl Default for AnimationDirection {
    fn default() -> (d: AnimationDirection)
        ensures
            d == AnimationDirection::Forwards,
    {
        AnimationDirection::Forwards
    }
}

/// How a timer behaves when it reaches its duration.
#[derive(Debug, Clone, Copy, PartialEq, Eq, Structural)]
pub enum TimerMode {
    Once,
    Repeating,
}

/// The timer mode an animation mode runs its timer in: once for a one-shot
/// animation, repeating for the others.
pub open spec fn timer_mode_of(mode: AnimationMode) -> TimerMode {
    match mode {
        AnimationMode::Once => TimerMode::Once,
        _ => TimerMode::Repeating,
    }
}

impl AnimationMode {
    /// The timer mode the animation's timer runs in.
    pub fn timer_mode(&self) -> (t: TimerMode)
        ensures
            t == timer_mode_of(*self),
    {
        match self {
            AnimationMode::Once => TimerMode::Once,
            _ => TimerMode::Repeating,
        }
    }
}

/// An animation of a sprite sheet: `frames` frames over `duration`
/// nanoseconds.
#[derive(Debug, Clone, Copy, PartialEq, Eq, Structural)]
pub struct Animation {
    pub mode: AnimationMode,
    pub direction: AnimationDirection,
    pub duration: u64,
    pub frames: usize,
}

/// The number of frames of width `tile_size` in a sheet `width` wide.
pub fn frame_count(width: u32, tile_size: u32) -> (n: usize)
    requires
        tile_size > 0,
    ensures
        n == width / tile_size,
{
    (width / tile_size) as usize
}

/// What the animation timer must be set to: reset, given this mode and
/// duration, and unpaused.
#[derive(Debug, Clone, Copy, PartialEq, Eq, Structural)]
pub struct TimerReset {
    pub mode: TimerMode,
    pub duration: u64,
}

/// The reset that starts `animation`.
pub open spec fn reset_for(animation: Animation) -> TimerReset {
    TimerReset { mode: timer_mode_of(animation.mode), duration: animation.duration }
}

/// An optional text seen as an optional character sequence.
pub open spec fn opt_view(o: Option<String>) -> Option<Seq<char>> {
    match o {
        Some(s) => Some(s@),
        None => None,
    }
}

/// Named animations seen as pairs of name and animation.
pub open spec fn named_view(v: Seq<(String, Animation)>) -> Seq<(Seq<char>, Animation)> {
    v.map_values(|p: (String, Animation)| (p.0@, p.1))
}

/// The animations of a sprite and which of them plays.
pub struct AnimationController {
    pub animations: Vec<(String, Animation)>,
    pub current_animation: Option<String>,
    pub default_animation: Option<String>,
    pub just_finished: Option<String>,
    pub backwards: bool,
}

impl AnimationController {
    /// The animations by name.
    pub open spec fn animation_map(&self) -> Map<Seq<char>, Animation> {
        assoc_map(named_view(self.animations@))
    }

    /// Names are not repeated, and the current and default animations are
    /// ones the controller has.
    pub open spec fn well_formed(&self) -> bool {
        &&& keys_distinct(named_view(self.animations@))
        &&& (opt_view(self.current_animation) matches Some(n) ==> self.animation_map().dom().contains(n))
        &&& (opt_view(self.default_animation) matches Some(n) ==> self.animation_map().dom().contains(n))
    }

    /// The name of the animation that shows: the current one, else the
    /// default one.
    pub open spec fn showing(&self) -> Option<Seq<char>> {
        match opt_view(self.current_animation) {
            Some(n) => Some(n),
            None => opt_view(self.default_animation),
        }
    }

    /// A controller with these animations, none playing.
    pub fn new(animations: Vec<(String, Animation)>) -> (c: AnimationController)
        requires
            keys_distinct(named_view(animations@)),
        ensures
            c.well_formed(),
            c.animations@ == animations@,
            c.current_animation is None,
            c.default_animation is None,
            c.just_finished is None,
            c.backwards,
    {
        AnimationController {
            animations,
            current_animation: None,
            default_animation: None,
            just_finished: None,
            backwards: true,
        }
    }

    /// The position of the animation called `name`, if the controller has it.
    fn find(&self, name: &str) -> (r: Option<usize>)
        requires
            self.well_formed(),
        ensures
            r matches Some(i) ==> i < self.animations@.len() && self.animations@[i as int].0@ == name@
                && self.animation_map().dom().contains(name@) && self.animation_map()[name@]
                == self.animations@[i as int].1,
            r is None ==> !self.animation_map().dom().contains(name@),
    {
        let ghost named = named_view(self.animations@);
        let mut i: usize = 0;
        while i < self.animations.len()
            invariant
                named == named_view(self.animations@),
                self.well_formed(),
                i <= self.animations@.len(),
                forall|j: int| 0 <= j < i ==> self.animations@[j].0@ != name@,
            decreases self.animations.len() - i,
        {
            if text_eq(self.animations[i].0.as_str(), name) {
                proof {
                    assert(named[i as int] == (self.animations@[i as int].0@, self.animations@[i as int].1));
                    lemma_assoc_map_index(named, i as int);
                }
                return Some(i);
            }
            i = i + 1;
        }
        proof {
            lemma_assoc_map_contains(named, name@);
            assert forall|j: int| 0 <= j < named.len() implies named[j].0 != name@ by {
                assert(named[j].0 == self.animations@[j].0@);
            }
        }
        None
    }

    /// Whether the controller has an animation called `name`.
    pub fn has_animation(&self, name: &str) -> (r: bool)
        requires
            self.well_formed(),
        ensures
            r == self.animation_map().dom().contains(name@),
    {
        self.find(name).is_some()
    }

    /// The animation called `name`, which the controller must have.
    pub fn get_animation(&self, name: &str) -> (a: &Animation)
        requires
            self.well_formed(),
            self.animation_map().dom().contains(name@),
        ensures
            *a == self.animation_map()[name@],
    {
        match self.find(name) {
            Some(i) => &self.animations[i].1,
            None => {
                proof {
                    assert(false);
                }
                &self.animations[0].1
            },
        }
    }

    /// The animation that shows: the current one, else the default one.
    pub fn current_animation(&self) -> (a: Option<&Animation>)
        requires
            self.well_formed(),
        ensures
            self.showing() matches Some(n) ==> a matches Some(x) && *x == self.animation_map()[n],
            self.showing() is None ==> a is None,
    {
        match &self.current_animation {
            Some(name) => Some(self.get_animation(name.as_str())),
            None => match &self.default_animation {
                Some(name) => Some(self.get_animation(name.as_str())),
                None => None,
            },
        }
    }

    /// Starts the animation called `name`, which the controller must have:
    /// it becomes the current one unless it is the default one, it plays
    /// forwards, and the timer is reset for it (the result).
    pub fn play(&mut self, name: &str) -> (reset: TimerReset)
        requires
            old(self).well_formed(),
            old(self).animation_map().dom().contains(name@),
        ensures
            final(self).well_formed(),
            final(self).animations@ == old(self).animations@,
            final(self).default_animation == old(self).default_animation,
            final(self).just_finished == old(self).just_finished,
            opt_view(old(self).default_animation) != Some(name@) ==> opt_view(
                final(self).current_animation,
            ) == Some(name@),
            opt_view(old(self).default_animation) == Some(name@) ==> final(self).current_animation
                == old(self).current_animation,
            !final(self).backwards,
            reset == reset_for(old(self).animation_map()[name@]),
    {
        let animation = *self.get_animation(name);
        let is_default = match &self.default_animation {
            Some(d) => text_eq(d.as_str(), name),
            None => false,
        };
        if !is_default {
            self.current_animation = Some(owned(name));
        }
        self.backwards = false;
        TimerReset { mode: animation.mode.timer_mode(), duration: animation.duration }
    }

    /// Sets `name` as the default animation and starts it, when the
    /// controller has it; otherwise nothing changes. The reset is the one
    /// `play` asks for, if it was called.
    pub fn with_default(self, name: &str) -> (r: (AnimationController, Option<TimerReset>))
        requires
            self.well_formed(),
        ensures
            r.0.well_formed(),
            r.0.animations@ == self.animations@,
            self.animation_map().dom().contains(name@) ==> {
                &&& opt_view(r.0.default_animation) == Some(name@)
                &&& r.0.current_animation == self.current_animation
                &&& !r.0.backwards
                &&& r.0.just_finished == self.just_finished
                &&& r.1 == Some(reset_for(self.animation_map()[name@]))
            },
            !self.animation_map().dom().contains(name@) ==> r.0 == self && r.1 is None,
    {
        if self.has_animation(name) {
            let mut c = self;
            c.default_animation = Some(owned(name));
            let reset = c.play(name);
            (c, Some(reset))
        } else {
            (self, None)
        }
    }

    /// Goes back to the default animation, if there is one, and clears the
    /// current one. The reset is the one `play` asks for, if it was called.
    pub fn stop(&mut self) -> (reset: Option<TimerReset>)
        requires
            old(self).well_formed(),
        ensures
            final(self).well_formed(),
            final(self).animations@ == old(self).animations@,
            final(self).default_animation == old(self).default_animation,
            final(self).current_animation is None,
            final(self).just_finished == old(self).just_finished,
            opt_view(old(self).default_animation) matches Some(d) ==> !final(self).backwards && reset
                == Some(reset_for(old(self).animation_map()[d])),
            old(self).default_animation is None ==> final(self).backwards == old(self).backwards
                && reset is None,
    {
        let reset = match &self.default_animation {
            Some(default) => {
                let d = default.clone();
                Some(self.play(d.as_str()))
            },
            None => None,
        };
        self.current_animation = None;
        reset
    }

    /// One step of the current animation, told whether its timer just
    /// reached its end: a one-shot animation is then over (it is recorded
    /// as just finished and the controller stops); a back-and-forth one
    /// turns around. `just_finished` is cleared first.
    pub fn tick(&mut self, timer_just_finished: bool) -> (reset: Option<TimerReset>)
        requires
            old(self).well_formed(),
        ensures
            final(self).well_formed(),
            final(self).animations@ == old(self).animations@,
            final(self).default_animation == old(self).default_animation,
            ({
                let cur = opt_view(old(self).current_animation);
                let over = timer_just_finished && cur is Some && old(self).animation_map()[cur->0].mode
                    == AnimationMode::Once;
                let turn = timer_just_finished && cur is Some && old(self).animation_map()[cur->0].mode
                    != AnimationMode::Once && old(self).animation_map()[cur->0].direction
                    == AnimationDirection::BackAndForth;
                &&& over ==> {
                    &&& opt_view(final(self).just_finished) == cur
                    &&& final(self).current_animation is None
                    &&& (opt_view(old(self).default_animation) matches Some(d) ==> !final(self).backwards
                        && reset == Some(reset_for(old(self).animation_map()[d])))
                    &&& (old(self).default_animation is None ==> final(self).backwards
                        == old(self).backwards && reset is None)
                }
                &&& !over ==> {
                    &&& final(self).just_finished is None
                    &&& final(self).current_animation == old(self).current_animation
                    &&& final(self).backwards == (if turn {
                        !old(self).backwards
                    } else {
                        old(self).backwards
                    })
                    &&& reset is None
                }
            }),
    {
        self.just_finished = None;
        let current = self.current_animation.clone();
        match current {
            Some(name) => {
                let animation = *self.get_animation(name.as_str());
                if timer_just_finished {
                    if animation.mode == AnimationMode::Once {
                        self.just_finished = Some(name);
                        return self.stop();
                    } else if animation.direction == AnimationDirection::BackAndForth {
                        self.backwards = !self.backwards;
                    }
                }
                None
            },
            None => None,
        }
    }

    /// Whether the animation that just finished is the one called `name`.
    pub fn just_finished(&self, name: &str) -> (r: bool)
        ensures
            r == (opt_view(self.just_finished) == Some(name@)),
    {
        match &self.just_finished {
            Some(n) => text_eq(n.as_str(), name),
            None => false,
        }
    }
}

} // verus!
