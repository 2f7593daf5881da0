//! The application state shared between render, tick and input dispatch,
//! and the clock that turns wall-clock readings into tick durations. The
//! event loop itself (terminal, timers, audio threads) lives outside; what
//! it decides each iteration — which action an event causes and how the
//! state changes — is here, as one verified step function.

use crate::input::{dispatch, dispatch_spec, Action, InputEvent};
use crate::mood::{cycle_spec, pet_spec, MoodState};
use crate::region::HitRegion;
use vstd::prelude::*;

verus! {

/// Turns successive readings of a monotonic millisecond clock into elapsed
/// durations for the simulation tick. Tolerates a first reading equal to the
/// start time (elapsed zero) and arbitrarily large stalls.
#[derive(Clone, Copy, PartialEq, Eq, Structural, Debug)]
pub struct SimulationClock {
    /// The clock reading at the previous tick, in milliseconds.
    pub last_tick_ms: u64,
}

impl SimulationClock {
    /// A clock whose previous tick is `now_ms`, so the first advance from
    /// that instant reports zero elapsed time.
    pub fn new(now_ms: u64) -> (c: SimulationClock)
        ensures
            c.last_tick_ms == now_ms,
    {
        SimulationClock { last_tick_ms: now_ms }
    }

    /// Record the reading `now_ms` and return the time elapsed since the
    /// previous tick; a reading earlier than the previous one counts as no
    /// elapsed time rather than wrapping.
    pub fn advance(&mut self, now_ms: u64) -> (dt_ms: u64)
        ensures
            final(self).last_tick_ms == now_ms,
            dt_ms == if now_ms >= old(self).last_tick_ms {
                now_ms - old(self).last_tick_ms
            } else {
                0
            },
    {
        let dt_ms = if now_ms >= self.last_tick_ms {
            now_ms - self.last_tick_ms
        } else {
            0
        };
        self.last_tick_ms = now_ms;
        dt_ms
    }
}

/// The mood after the given action is applied to it at time `now_ms`: a
/// pet-action pets, a skin-cycle action cycles the variant, and nothing
/// else touches the mood.
pub open spec fn apply_action_spec(m: MoodState, a: Action, now_ms: u64) -> MoodState {
    match a {
        Action::Pet => pet_spec(m, now_ms),
        Action::CycleSkin => cycle_spec(m),
        Action::Nothing => m,
        Action::Quit => m,
    }
}

/// The state shared by render, tick and dispatch: the pet's mood and the
/// rectangle where the pet was last rendered.
#[derive(Clone, Copy, PartialEq, Eq, Structural, Debug)]
pub struct AppState {
    /// The pet's mood.
    pub mood: MoodState,
    /// Where the pet panel was last rendered; pointer presses are tested
    /// against this, so a press between two renders uses the previous
    /// frame's rectangle.
    pub hit: HitRegion,
}

impl AppState {
    pub open spec fn wf(self) -> bool {
        self.mood.wf()
    }

    /// The startup state: default mood, and an empty hit region until the
    /// first render pass records a real one.
    pub fn new(now_ms: u64) -> (s: AppState)
        ensures
            s.wf(),
            s.mood == MoodState::new_spec(now_ms),
            s.hit == (HitRegion { x: 0u16, y: 0u16, width: 0u16, height: 0u16 }),
    {
        AppState { mood: MoodState::new(now_ms), hit: HitRegion::empty() }
    }

    /// Record where the render pass just drew the pet panel. Only the hit
    /// region changes.
    pub fn set_hit_region(&mut self, hit: HitRegion)
        ensures
            final(self).hit == hit,
            final(self).mood == old(self).mood,
    {
        self.hit = hit;
    }

    /// Advance the simulation by `dt_ms` milliseconds (see
    /// [`MoodState::tick`]). The hit region is untouched.
    pub fn tick(&mut self, dt_ms: u64)
        requires
            old(self).wf(),
        ensures
            final(self).wf(),
            final(self).mood == crate::mood::tick_spec(old(self).mood, dt_ms),
            final(self).hit == old(self).hit,
    {
        self.mood.tick(dt_ms);
    }

    /// Dispatch one input event against the current hit region and apply its
    /// effect on the mood: the returned action tells the caller what else to
    /// do (trigger one audio cue on `Pet`, leave the loop on `Quit`). The
    /// hit region never changes here, and the mood changes exactly as the
    /// action demands — in particular, a pointer press outside the hit
    /// region and any non-press event leave the state untouched.
    pub fn handle_event(&mut self, e: &InputEvent, now_ms: u64) -> (a: Action)
        requires
            old(self).wf(),
            old(self).mood.squeak_count < u64::MAX,
        ensures
            final(self).wf(),
            a == dispatch_spec(*e, old(self).hit),
            final(self).mood == apply_action_spec(old(self).mood, a, now_ms),
            final(self).hit == old(self).hit,
    {
        let a = dispatch(e, &self.hit);
        match a {
            Action::Pet => self.mood.pet(now_ms),
            Action::CycleSkin => self.mood.cycle_appearance(),
            Action::Nothing => (),
            Action::Quit => (),
        }
        a
    }
}

} // verus!
