//! Deterministic synthesis of the squeak cue: a short rising glissando of
//! six sine segments. Synthesis is pure — it only computes the segment
//! parameters; handing them to an audio sink is the caller's business.
//! Amplitudes are held in hundredths of full scale so that synthesis is
//! exact integer arithmetic.

use vstd::prelude::*;

verus! {

/// How many segments one cue consists of.
pub const SEGMENT_COUNT: u64 = 6;

/// Frequency of the first segment, in hertz.
pub const BASE_FREQ_HZ: u64 = 1600;

/// How much higher each segment sounds than the one before it, in hertz.
pub const FREQ_STEP_HZ: u64 = 450;

/// Amplitude of the first segment, in hundredths of full scale (0.25).
pub const BASE_AMPLITUDE_CENTI: u64 = 25;

/// How much louder each segment is than the one before it, in hundredths
/// of full scale (0.12).
pub const AMPLITUDE_STEP_CENTI: u64 = 12;

/// The fixed fade-in applied to every segment, in milliseconds.
pub const FADE_IN_MS: u64 = 8;

/// One waveform segment: a pure sine tone of the given frequency, played at
/// the given amplitude for the given duration, with a short fade-in.
#[derive(Clone, Copy, PartialEq, Eq, Structural, Debug)]
pub struct Segment {
    /// Tone frequency in hertz.
    pub freq_hz: u64,
    /// Amplitude in hundredths of full scale.
    pub amplitude_centi: u64,
    /// How long the segment plays, in milliseconds.
    pub duration_ms: u64,
    /// Fade-in length in milliseconds.
    pub fade_in_ms: u64,
}

/// The segment at index `i` of a cue of `total_ms` milliseconds: frequencies
/// rise linearly from the base, amplitudes likewise; the total duration is
/// divided evenly and the last segment absorbs the remainder.
pub open spec fn segment_spec(total_ms: u64, i: int) -> Segment {
    Segment {
        freq_hz: (BASE_FREQ_HZ + i * FREQ_STEP_HZ) as u64,
        amplitude_centi: (BASE_AMPLITUDE_CENTI + i * AMPLITUDE_STEP_CENTI) as u64,
        duration_ms: if i == SEGMENT_COUNT - 1 {
            (total_ms - (SEGMENT_COUNT - 1) * (total_ms as int / SEGMENT_COUNT as int)) as u64
        } else {
            (total_ms as int / SEGMENT_COUNT as int) as u64
        },
        fade_in_ms: FADE_IN_MS,
    }
}

/// The sum of the durations of the first `n` segments of `s`.
pub open spec fn duration_sum(s: Seq<Segment>, n: int) -> int
    decreases n,
{
    if n <= 0 {
        0
    } else {
        duration_sum(s, n - 1) + s[n - 1].duration_ms
    }
}

/// Synthesize the squeak cue for a requested total duration: exactly
/// `SEGMENT_COUNT` segments in ascending index order, each as
/// `segment_spec` gives it, so frequencies strictly rise and the durations
/// sum to exactly `total_ms`. The segments are meant to be appended to the
/// audio sink in this order and played back to back.
pub fn synthesize(total_ms: u64) -> (cue: Vec<Segment>)
    ensures
        cue@.len() == SEGMENT_COUNT,
        forall|i: int| 0 <= i < cue@.len() ==> cue@[i] == segment_spec(total_ms, i),
        forall|i: int, j: int|
            0 <= i < j < cue@.len() ==> cue@[i].freq_hz < cue@[j].freq_hz,
        duration_sum(cue@, SEGMENT_COUNT as int) == total_ms,
{
    let seg_ms = total_ms / SEGMENT_COUNT;
    let mut cue: Vec<Segment> = Vec::new();
    let mut i: u64 = 0;
    while i < SEGMENT_COUNT
        invariant
            i <= SEGMENT_COUNT,
            cue@.len() == i,
            seg_ms == total_ms / SEGMENT_COUNT,
            forall|k: int| 0 <= k < i ==> cue@[k] == segment_spec(total_ms, k),
        decreases SEGMENT_COUNT - i,
    {
        let duration_ms = if i == SEGMENT_COUNT - 1 {
            total_ms - (SEGMENT_COUNT - 1) * seg_ms
        } else {
            seg_ms
        };
        cue.push(
            Segment {
                freq_hz: BASE_FREQ_HZ + i * FREQ_STEP_HZ,
                amplitude_centi: BASE_AMPLITUDE_CENTI + i * AMPLITUDE_STEP_CENTI,
                duration_ms,
                fade_in_ms: FADE_IN_MS,
            },
        );
        i = i + 1;
    }
    proof {
        lemma_duration_sum(cue@, total_ms, SEGMENT_COUNT as int);
        assert forall|a: int, b: int| 0 <= a < b < cue@.len() implies cue@[a].freq_hz
            < cue@[b].freq_hz by {
            assert(cue@[a] == segment_spec(total_ms, a));
            assert(cue@[b] == segment_spec(total_ms, b));
            assert(0 <= a * FREQ_STEP_HZ < b * FREQ_STEP_HZ <= 5 * FREQ_STEP_HZ)
                by (nonlinear_arith)
                requires
                    0 <= a < b <= 5,
            ;
        };
    }
    cue
}

/// The durations of the first `n` segments given by `segment_spec` sum to
/// `n` even shares, and all six to the full requested duration.
proof fn lemma_duration_sum(s: Seq<Segment>, total_ms: u64, n: int)
    requires
        0 <= n <= SEGMENT_COUNT,
        s.len() == SEGMENT_COUNT,
        forall|k: int| 0 <= k < s.len() ==> s[k] == segment_spec(total_ms, k),
    ensures
        n < SEGMENT_COUNT ==> duration_sum(s, n) == n * (total_ms as int / SEGMENT_COUNT as int),
        n == SEGMENT_COUNT ==> duration_sum(s, n) == total_ms,
    decreases n,
{
    let share = total_ms as int / SEGMENT_COUNT as int;
    if n > 0 {
        lemma_duration_sum(s, total_ms, n - 1);
        assert((n - 1) * share + share == n * share) by (nonlinear_arith);
        if n == SEGMENT_COUNT {
            vstd::arithmetic::div_mod::lemma_fundamental_div_mod(
                total_ms as int,
                SEGMENT_COUNT as int,
            );
            vstd::arithmetic::div_mod::lemma_mod_bound(total_ms as int, SEGMENT_COUNT as int);
        }
    }
}

} // verus!
