//! What the render pass shows of the pet: the ASCII art lines for each
//! appearance variant, chosen by thresholds on the vibe phase and the
//! happiness level; the padding that makes an art block rectangular so it
//! centres cleanly; and the small numeric series behind the energy bar
//! chart and the happiness gauge label.

use crate::mood::{Variant, UNIT};
use vstd::prelude::*;
use vstd::string::{StrSliceExecFns, StringExecFns};

verus! {

/// Below this vibe phase (half a unit) the tail is drawn calm (`~`),
/// from it on wavy (`≈`).
pub const TAIL_WAVY_THRESHOLD: u32 = 500_000;

/// Above this happiness the classic variant gets bright eyes and a blush.
pub const CLASSIC_BRIGHT_THRESHOLD: u32 = 660_000;

/// Above this happiness the long-tail variant gets a bright eye.
pub const LONGTAIL_BRIGHT_THRESHOLD: u32 = 500_000;

/// Above this happiness the chubby variant gets bright eyes.
pub const CHUBBY_BRIGHT_THRESHOLD: u32 = 700_000;

/// How many buckets the energy bar chart has.
pub const ENERGY_BUCKETS: u64 = 8;

/// The character contents of a block of lines.
pub open spec fn views_of(lines: Seq<String>) -> Seq<Seq<char>> {
    lines.map_values(|s: String| s@)
}

/// The width of the widest line of the block.
pub open spec fn width_of(lines: Seq<Seq<char>>) -> nat
    decreases lines.len(),
{
    if lines.len() == 0 {
        0
    } else {
        let rest = width_of(lines.drop_last());
        if lines.last().len() > rest {
            lines.last().len()
        } else {
            rest
        }
    }
}

/// `n` spaces.
pub open spec fn spaces(n: nat) -> Seq<char> {
    Seq::new(n, |i: int| ' ')
}

/// Line `i` of the block, padded with spaces on the right to the width of
/// the widest line.
pub open spec fn padded_line(lines: Seq<Seq<char>>, i: int) -> Seq<char> {
    lines[i] + spaces((width_of(lines) - lines[i].len()) as nat)
}

/// The whole block, each line padded to the width of the widest one.
pub open spec fn pad_lines(lines: Seq<Seq<char>>) -> Seq<Seq<char>> {
    Seq::new(lines.len(), |i: int| padded_line(lines, i))
}

/// No line is wider than the widest.
proof fn lemma_width_of_bound(lines: Seq<Seq<char>>, i: int)
    requires
        0 <= i < lines.len(),
    ensures
        lines[i].len() <= width_of(lines),
    decreases lines.len(),
{
    if i < lines.len() - 1 {
        lemma_width_of_bound(lines.drop_last(), i);
    }
}

/// Pad every line of a block with trailing spaces to the width of the
/// widest line: the result has the same number of lines, every line is
/// exactly that wide, and each keeps its original content as a prefix
/// followed by spaces only.
pub fn pad_block(lines: Vec<String>) -> (r: Vec<String>)
    ensures
        views_of(r@) == pad_lines(views_of(lines@)),
        r@.len() == lines@.len(),
        forall|i: int|
            0 <= i < r@.len() ==> (#[trigger] r@[i])@.len() == width_of(views_of(lines@)),
{
    let ghost all = views_of(lines@);
    let mut width: usize = 0;
    let mut j: usize = 0;
    while j < lines.len()
        invariant
            j <= lines.len(),
            all == views_of(lines@),
            width as nat == width_of(all.take(j as int)),
        decreases lines.len() - j,
    {
        let n = lines[j].as_str().unicode_len();
        proof {
            assert(all.take(j + 1).drop_last() =~= all.take(j as int));
            assert(all.take(j + 1).last() == lines@[j as int]@);
        }
        if n > width {
            width = n;
        }
        j = j + 1;
    }
    proof {
        assert(all.take(lines@.len() as int) =~= all);
    }

    let mut r: Vec<String> = Vec::new();
    let mut j: usize = 0;
    while j < lines.len()
        invariant
            j <= lines.len(),
            all == views_of(lines@),
            width as nat == width_of(all),
            r@.len() == j,
            forall|k: int| 0 <= k < j ==> (#[trigger] r@[k])@ == padded_line(all, k),
        decreases lines.len() - j,
    {
        proof {
            lemma_width_of_bound(all, j as int);
        }
        let mut cur: String = lines[j].clone();
        let mut n: usize = cur.as_str().unicode_len();
        proof {
            assert(cur@ =~= all[j as int] + spaces(0));
        }
        while n < width
            invariant
                all[j as int].len() <= n <= width,
                cur@.len() == n,
                cur@ == all[j as int] + spaces((n - all[j as int].len()) as nat),
            decreases width - n,
        {
            cur.append(" ");
            proof {
                reveal_strlit(" ");
                assert(cur@ =~= all[j as int] + spaces((n + 1 - all[j as int].len()) as nat));
            }
            n = n + 1;
        }
        proof {
            assert(cur@ == padded_line(all, j as int));
        }
        r.push(cur);
        j = j + 1;
    }
    proof {
        assert(views_of(r@) =~= pad_lines(all));
        assert forall|i: int| 0 <= i < r@.len() implies (#[trigger] r@[i])@.len() == width_of(
            all,
        ) by {
            lemma_width_of_bound(all, i);
            assert(r@[i]@ == padded_line(all, i));
        };
    }
    r
}

/// The tail glyph: calm below half a unit of vibe phase, wavy from there on.
pub open spec fn tail_glyph(vibe: u32) -> Seq<char> {
    if vibe < TAIL_WAVY_THRESHOLD {
        "~"@
    } else {
        "≈"@
    }
}

/// The unpadded art lines for a variant, given the vibe phase and the
/// happiness level, both in millionths. The glyphs are the testable part:
/// the tail waves once the vibe phase passes half a unit, and the eyes (and
/// the classic variant's blush) brighten once happiness passes the
/// variant's threshold.
pub open spec fn art_lines(vibe: u32, happy: u32, variant: Variant) -> Seq<Seq<char>> {
    match variant {
        Variant::Classic => {
            let tail = tail_glyph(vibe);
            let eye = if happy > CLASSIC_BRIGHT_THRESHOLD {
                "•"@
            } else {
                "."@
            };
            let blush = if happy > CLASSIC_BRIGHT_THRESHOLD {
                "˘"@
            } else {
                " "@
            };
            seq![
                "  (\\_/)     "@ + tail + tail + tail,
                "  ("@ + eye + blush + eye + ")     "@,
                "  (   )    "@,
                "  (   )    "@,
                "   \" \"     "@,
            ]
        },
        Variant::LongTail => {
            let tail = tail_glyph(vibe) + tail_glyph(vibe);
            let eye = if happy > LONGTAIL_BRIGHT_THRESHOLD {
                "•"@
            } else {
                "."@
            };
            seq![
                "  (\\_/)      "@ + tail + tail + tail + tail,
                "  ("@ + eye + " .)    "@,
                "  (   )    "@,
                "   v v     "@,
            ]
        },
        Variant::Chubby => {
            let tail = tail_glyph(vibe);
            let eye = if happy > CHUBBY_BRIGHT_THRESHOLD {
                "•"@
            } else {
                "o"@
            };
            seq![
                "  (\\_/)    "@ + tail + tail + tail,
                " ( "@ + eye + " "@ + eye + " ) "@,
                " (  -  ) "@,
                " (     ) "@,
                "  \"   \"  "@,
            ]
        },
    }
}

/// The pet's art block for one frame: the variant's lines with the glyphs
/// that the vibe phase and happiness select, padded to a rectangle.
pub fn rat_art(vibe: u32, happy: u32, variant: Variant) -> (r: Vec<String>)
    ensures
        views_of(r@) == pad_lines(art_lines(vibe, happy, variant)),
{
    let tail: &str = if vibe < TAIL_WAVY_THRESHOLD {
        "~"
    } else {
        "≈"
    };
    let mut raw: Vec<String> = Vec::new();
    match variant {
        Variant::Classic => {
            let eye: &str = if happy > CLASSIC_BRIGHT_THRESHOLD {
                "•"
            } else {
                "."
            };
            let blush: &str = if happy > CLASSIC_BRIGHT_THRESHOLD {
                "˘"
            } else {
                " "
            };
            raw.push(String::from_str("  (\\_/)     ").concat(tail).concat(tail).concat(tail));
            raw.push(String::from_str("  (").concat(eye).concat(blush).concat(eye).concat(")     "));
            raw.push(String::from_str("  (   )    "));
            raw.push(String::from_str("  (   )    "));
            raw.push(String::from_str("   \" \"     "));
        },
        Variant::LongTail => {
            let eye: &str = if happy > LONGTAIL_BRIGHT_THRESHOLD {
                "•"
            } else {
                "."
            };
            let tail2 = String::from_str(tail).concat(tail);
            let first = String::from_str("  (\\_/)      ")
                .concat(tail2.as_str())
                .concat(tail2.as_str())
                .concat(tail2.as_str())
                .concat(tail2.as_str());
            raw.push(first);
            raw.push(String::from_str("  (").concat(eye).concat(" .)    "));
            raw.push(String::from_str("  (   )    "));
            raw.push(String::from_str("   v v     "));
        },
        Variant::Chubby => {
            let eye: &str = if happy > CHUBBY_BRIGHT_THRESHOLD {
                "•"
            } else {
                "o"
            };
            raw.push(String::from_str("  (\\_/)    ").concat(tail).concat(tail).concat(tail));
            raw.push(String::from_str(" ( ").concat(eye).concat(" ").concat(eye).concat(" ) "));
            raw.push(String::from_str(" (  -  ) "));
            raw.push(String::from_str(" (     ) "));
            raw.push(String::from_str("  \"   \"  "));
        },
    }
    proof {
        assert(views_of(raw@) =~= art_lines(vibe, happy, variant));
    }
    pad_block(raw)
}

/// The height of bucket `i` of the energy bar chart: the distance from the
/// bucket the vibe phase points at, wrapped into `1 ..= 4`.
pub open spec fn energy_bar_spec(vibe: u32, i: int) -> int {
    (vstd::math::abs(vibe * ENERGY_BUCKETS / (UNIT as int) - i) as int) % 4 + 1
}

/// The eight bucket heights of the energy bar chart for the given vibe
/// phase.
pub fn energy_bars(vibe: u32) -> (r: Vec<u64>)
    requires
        vibe < UNIT,
    ensures
        r@.len() == ENERGY_BUCKETS,
        forall|i: int| 0 <= i < r@.len() ==> r@[i] == energy_bar_spec(vibe, i),
{
    let bucket: u64 = vibe as u64 * ENERGY_BUCKETS / UNIT as u64;
    let mut r: Vec<u64> = Vec::new();
    let mut i: u64 = 0;
    while i < ENERGY_BUCKETS
        invariant
            i <= ENERGY_BUCKETS,
            bucket == vibe * ENERGY_BUCKETS / (UNIT as int),
            r@.len() == i,
            forall|k: int| 0 <= k < i ==> r@[k] == energy_bar_spec(vibe, k),
        decreases ENERGY_BUCKETS - i,
    {
        let d: u64 = if bucket >= i {
            bucket - i
        } else {
            i - bucket
        };
        r.push(d % 4 + 1);
        i = i + 1;
    }
    r
}

/// The happiness gauge label: the level as a whole percentage, rounded half
/// up, so full happiness reads 100.
pub fn happiness_percent(happy: u32) -> (p: u32)
    requires
        happy <= UNIT,
    ensures
        p == (happy + UNIT / 200) as int / (UNIT / 100) as int,
        p <= 100,
{
    (happy + UNIT / 200) / (UNIT / 100)
}

} // verus!
