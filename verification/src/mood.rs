//! The pet's mood: a pair of continuous variables held in fixed point
//! (millionths of a unit), a discrete appearance variant, and a squeak
//! counter. Petting nudges happiness up by a fixed step; each simulation
//! tick decays happiness and advances the free-running vibe phase, both
//! proportionally to the elapsed time.

use vstd::arithmetic::div_mod::{
    lemma_add_mod_noop, lemma_mod_bound, lemma_mul_mod_noop_right, lemma_small_mod,
};
use vstd::prelude::*;

verus! {

/// One full unit (happiness 1.0, or one whole turn of the vibe phase),
/// expressed in millionths.
pub const UNIT: u32 = 1_000_000;

/// Happiness gained by one pet-action: 0.08 of a unit.
pub const PET_BOOST: u32 = 80_000;

/// Happiness lost per millisecond of elapsed time: 0.015 of a unit per second.
pub const DECAY_PER_MS: u64 = 15;

/// Vibe phase gained per millisecond of elapsed time: 0.9 of a unit per second.
pub const VIBE_RATE_PER_MS: u64 = 900;

/// The pet's appearance variant, cycled by the skin-cycle action.
#[derive(Clone, Copy, PartialEq, Eq, Structural, Debug)]
pub enum Variant {
    Classic,
    LongTail,
    Chubby,
}

/// The successor of a variant in the fixed cyclic order
/// Classic -> LongTail -> Chubby -> Classic.
pub open spec fn next_variant(v: Variant) -> Variant {
    match v {
        Variant::Classic => Variant::LongTail,
        Variant::LongTail => Variant::Chubby,
        Variant::Chubby => Variant::Classic,
    }
}

/// The pet's mood state. `happiness` lies in `0 ..= UNIT` and `vibe_phase`
/// in `0 .. UNIT`; both are millionths of a unit.
#[derive(Clone, Copy, PartialEq, Eq, Structural, Debug)]
pub struct MoodState {
    /// Contentment in `[0, 1]`, as millionths.
    pub happiness: u32,
    /// Free-running idle-animation phase in `[0, 1)`, as millionths.
    pub vibe_phase: u32,
    /// Which art table renders the pet.
    pub variant: Variant,
    /// How many pet-actions were accepted so far; never reset.
    pub squeak_count: u64,
    /// When the pet was last petted, in milliseconds of the caller's clock.
    pub last_interaction_ms: u64,
}

/// Happiness after one pet-action: raised by `PET_BOOST`, clamped to `UNIT`.
pub open spec fn boosted_happiness(h: int) -> int {
    if h + PET_BOOST >= UNIT {
        UNIT as int
    } else {
        h + PET_BOOST
    }
}

/// Happiness after `dt` milliseconds of decay: lowered by `DECAY_PER_MS`
/// per millisecond, clamped to 0.
pub open spec fn decayed_happiness(h: int, dt: int) -> int {
    if h - DECAY_PER_MS * dt <= 0 {
        0
    } else {
        h - DECAY_PER_MS * dt
    }
}

/// Vibe phase after `dt` milliseconds: advanced by `VIBE_RATE_PER_MS` per
/// millisecond and wrapped modulo one unit.
pub open spec fn advanced_phase(p: int, dt: int) -> int {
    (p + VIBE_RATE_PER_MS * dt) % (UNIT as int)
}

/// The mood after one pet-action at time `now_ms`.
pub open spec fn pet_spec(m: MoodState, now_ms: u64) -> MoodState {
    MoodState {
        happiness: boosted_happiness(m.happiness as int) as u32,
        squeak_count: (m.squeak_count + 1) as u64,
        last_interaction_ms: now_ms,
        ..m
    }
}

/// The mood after one tick of `dt_ms` milliseconds.
pub open spec fn tick_spec(m: MoodState, dt_ms: u64) -> MoodState {
    MoodState {
        happiness: decayed_happiness(m.happiness as int, dt_ms as int) as u32,
        vibe_phase: advanced_phase(m.vibe_phase as int, dt_ms as int) as u32,
        ..m
    }
}

/// The mood after one skin-cycle action.
pub open spec fn cycle_spec(m: MoodState) -> MoodState {
    MoodState { variant: next_variant(m.variant), ..m }
}

impl MoodState {
    /// The mood invariant: happiness in `[0, 1]`, vibe phase in `[0, 1)`.
    pub open spec fn wf(self) -> bool {
        &&& self.happiness <= UNIT
        &&& self.vibe_phase < UNIT
    }

    /// The startup mood: happiness one half, phase zero, classic variant,
    /// no squeaks yet.
    pub open spec fn new_spec(now_ms: u64) -> MoodState {
        MoodState {
            happiness: (UNIT / 2) as u32,
            vibe_phase: 0u32,
            variant: Variant::Classic,
            squeak_count: 0u64,
            last_interaction_ms: now_ms,
        }
    }

    /// The startup mood, as `new_spec` gives it.
    pub fn new(now_ms: u64) -> (m: MoodState)
        ensures
            m == MoodState::new_spec(now_ms),
            m.wf(),
            m.happiness == UNIT / 2,
            m.vibe_phase == 0,
            m.variant == Variant::Classic,
            m.squeak_count == 0,
            m.last_interaction_ms == now_ms,
    {
        MoodState {
            happiness: UNIT / 2,
            vibe_phase: 0,
            variant: Variant::Classic,
            squeak_count: 0,
            last_interaction_ms: now_ms,
        }
    }

    /// Accept one pet-action at time `now_ms`: happiness rises by the fixed
    /// step (clamped to one unit), the squeak counter advances by one, and
    /// the interaction time is recorded. Nothing else changes.
    pub fn pet(&mut self, now_ms: u64)
        requires
            old(self).wf(),
            old(self).squeak_count < u64::MAX,
        ensures
            *final(self) == pet_spec(*old(self), now_ms),
            final(self).wf(),
            final(self).happiness as int == boosted_happiness(old(self).happiness as int),
            final(self).squeak_count == old(self).squeak_count + 1,
            final(self).last_interaction_ms == now_ms,
            final(self).vibe_phase == old(self).vibe_phase,
            final(self).variant == old(self).variant,
    {
        let raised = self.happiness + PET_BOOST;
        self.happiness = if raised >= UNIT {
            UNIT
        } else {
            raised
        };
        self.squeak_count = self.squeak_count + 1;
        self.last_interaction_ms = now_ms;
    }

    /// Advance the simulation by `dt_ms` milliseconds: the vibe phase moves
    /// forward and wraps modulo one unit, happiness decays linearly and is
    /// clamped at zero. Safe for `dt_ms == 0` (no change) and for arbitrarily
    /// large `dt_ms`. The variant, squeak count and interaction time are
    /// untouched.
    pub fn tick(&mut self, dt_ms: u64)
        requires
            old(self).wf(),
        ensures
            *final(self) == tick_spec(*old(self), dt_ms),
            final(self).wf(),
            final(self).happiness as int == decayed_happiness(
                old(self).happiness as int,
                dt_ms as int,
            ),
            final(self).vibe_phase as int == advanced_phase(
                old(self).vibe_phase as int,
                dt_ms as int,
            ),
            final(self).variant == old(self).variant,
            final(self).squeak_count == old(self).squeak_count,
            final(self).last_interaction_ms == old(self).last_interaction_ms,
    {
        let reduced: u64 = dt_ms % (UNIT as u64);
        let sum: u64 = self.vibe_phase as u64 + VIBE_RATE_PER_MS * reduced;
        proof {
            lemma_phase_reduction(self.vibe_phase as int, dt_ms as int);
        }
        self.vibe_phase = (sum % (UNIT as u64)) as u32;

        let decay = match dt_ms.checked_mul(DECAY_PER_MS) {
            Some(d) => d,
            None => UNIT as u64,
        };
        self.happiness = if decay >= self.happiness as u64 {
            0
        } else {
            self.happiness - decay as u32
        };
    }

    /// Advance the appearance variant one step along the fixed cyclic order.
    /// All other fields are untouched.
    pub fn cycle_appearance(&mut self)
        requires
            old(self).wf(),
        ensures
            *final(self) == cycle_spec(*old(self)),
            final(self).wf(),
            final(self).variant == next_variant(old(self).variant),
            final(self).happiness == old(self).happiness,
            final(self).vibe_phase == old(self).vibe_phase,
            final(self).squeak_count == old(self).squeak_count,
            final(self).last_interaction_ms == old(self).last_interaction_ms,
    {
        self.variant = match self.variant {
            Variant::Classic => Variant::LongTail,
            Variant::LongTail => Variant::Chubby,
            Variant::Chubby => Variant::Classic,
        };
    }
}

/// One operation on the mood, for stating laws over arbitrary
/// interleavings of pet-actions, ticks and skin cycles.
#[derive(Clone, Copy, PartialEq, Eq, Structural, Debug)]
pub enum MoodOp {
    /// A pet-action at the given time in milliseconds.
    Pet(u64),
    /// A simulation tick of the given elapsed milliseconds.
    Tick(u64),
    /// A skin-cycle action.
    Cycle,
}

/// The mood after one operation.
pub open spec fn apply_op(m: MoodState, op: MoodOp) -> MoodState {
    match op {
        MoodOp::Pet(now_ms) => pet_spec(m, now_ms),
        MoodOp::Tick(dt_ms) => tick_spec(m, dt_ms),
        MoodOp::Cycle => cycle_spec(m),
    }
}

/// The mood after a whole sequence of operations, applied left to right.
pub open spec fn apply_ops(m: MoodState, ops: Seq<MoodOp>) -> MoodState
    decreases ops.len(),
{
    if ops.len() == 0 {
        m
    } else {
        apply_ops(apply_op(m, ops[0]), ops.drop_first())
    }
}

/// How many of the operations are pet-actions.
pub open spec fn pet_count(ops: Seq<MoodOp>) -> nat
    decreases ops.len(),
{
    if ops.len() == 0 {
        0
    } else {
        (match ops[0] {
            MoodOp::Pet(_) => 1nat,
            _ => 0nat,
        }) + pet_count(ops.drop_first())
    }
}

/// One pet-action keeps the mood invariant.
pub proof fn lemma_pet_keeps_wf(m: MoodState, now_ms: u64)
    requires
        m.wf(),
    ensures
        pet_spec(m, now_ms).wf(),
{
}

/// One tick keeps the mood invariant, whatever the elapsed time: happiness
/// stays in `[0, 1]` and the vibe phase stays in `[0, 1)`.
pub proof fn lemma_tick_keeps_wf(m: MoodState, dt_ms: u64)
    requires
        m.wf(),
    ensures
        tick_spec(m, dt_ms).wf(),
{
    lemma_mod_bound(m.vibe_phase + VIBE_RATE_PER_MS * dt_ms, UNIT as int);
}

/// Law: no sequence of pet-actions, ticks and skin cycles ever drives
/// happiness out of `[0, 1]` or the vibe phase out of `[0, 1)`.
pub proof fn lemma_ops_keep_wf(m: MoodState, ops: Seq<MoodOp>)
    requires
        m.wf(),
    ensures
        apply_ops(m, ops).wf(),
    decreases ops.len(),
{
    if ops.len() > 0 {
        match ops[0] {
            MoodOp::Pet(now_ms) => lemma_pet_keeps_wf(m, now_ms),
            MoodOp::Tick(dt_ms) => lemma_tick_keeps_wf(m, dt_ms),
            MoodOp::Cycle => (),
        }
        lemma_ops_keep_wf(apply_op(m, ops[0]), ops.drop_first());
    }
}

/// Law: after any interleaving of operations, the squeak count equals the
/// starting count plus exactly the number of pet-actions among them — ticks
/// and skin cycles never touch it.
pub proof fn lemma_squeak_count_additive(m: MoodState, ops: Seq<MoodOp>)
    requires
        m.squeak_count + pet_count(ops) <= u64::MAX,
    ensures
        apply_ops(m, ops).squeak_count == m.squeak_count + pet_count(ops),
    decreases ops.len(),
{
    if ops.len() > 0 {
        lemma_squeak_count_additive(apply_op(m, ops[0]), ops.drop_first());
    }
}

/// Law: three skin-cycle actions in a row return the mood to exactly where
/// it started — the cyclic order of the variants has length three.
pub proof fn lemma_cycle_three_times_is_identity(m: MoodState)
    ensures
        cycle_spec(cycle_spec(cycle_spec(m))) == m,
{
}

/// Advancing the phase by `dt` milliseconds and advancing it by
/// `dt mod UNIT` milliseconds wrap to the same phase, so the computation
/// can stay within machine bounds for arbitrarily large `dt`.
proof fn lemma_phase_reduction(p: int, dt: int)
    requires
        0 <= p < UNIT,
        0 <= dt,
    ensures
        (p + VIBE_RATE_PER_MS * (dt % (UNIT as int))) % (UNIT as int) == advanced_phase(p, dt),
        0 <= advanced_phase(p, dt) < UNIT,
{
    let m = UNIT as int;
    let r = VIBE_RATE_PER_MS as int;
    lemma_small_mod(p as nat, UNIT as nat);
    lemma_mul_mod_noop_right(r, dt, m);
    lemma_add_mod_noop(p, r * (dt % m), m);
    lemma_add_mod_noop(p, r * dt, m);
    lemma_mod_bound(p + r * dt, m);
}

} // verus!
