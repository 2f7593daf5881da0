use terminal_rat::art::{energy_bars, happiness_percent, pad_block, rat_art};
use terminal_rat::mood::Variant;

#[test]
fn pad_block_pads_every_line_to_the_widest() {
    let padded = pad_block(vec!["ab".to_string(), "a".to_string(), "abcd".to_string()]);
    assert_eq!(padded, vec!["ab  ".to_string(), "a   ".to_string(), "abcd".to_string()]);
}

#[test]
fn pad_block_of_nothing_is_nothing() {
    let padded = pad_block(Vec::new());
    assert!(padded.is_empty());
}

#[test]
fn pad_block_measures_characters_not_bytes() {
    let padded = pad_block(vec!["≈≈".to_string(), "a".to_string()]);
    assert_eq!(padded, vec!["≈≈".to_string(), "a ".to_string()]);
}

#[test]
fn pad_block_keeps_equal_lines_untouched() {
    let lines = vec!["one".to_string(), "two".to_string()];
    assert_eq!(pad_block(lines.clone()), lines);
}

#[test]
fn classic_art_when_calm_and_content() {
    // Vibe below one half: calm tail; happiness at one half: plain eyes.
    let art = rat_art(0, 500_000, Variant::Classic);
    assert_eq!(art.len(), 5);
    assert_eq!(art[0], "  (\\_/)     ~~~");
    assert!(art[1].starts_with("  (. .)"));
    let width = art[0].chars().count();
    for line in &art {
        assert_eq!(line.chars().count(), width);
    }
}

#[test]
fn classic_art_when_vibing_and_happy() {
    // Vibe past one half: wavy tail; happiness past the threshold: bright
    // eyes and a blush.
    let art = rat_art(600_000, 700_000, Variant::Classic);
    assert!(art[0].contains("≈≈≈"));
    assert!(art[1].starts_with("  (•˘•)"));
}

#[test]
fn long_tail_art_has_four_lines_and_a_long_tail() {
    let art = rat_art(0, 400_000, Variant::LongTail);
    assert_eq!(art.len(), 4);
    assert!(art[0].contains("~~~~~~~~"));
    assert!(art[1].starts_with("  (. .)"));
    let bright = rat_art(0, 600_000, Variant::LongTail);
    assert!(bright[1].starts_with("  (• .)"));
}

#[test]
fn chubby_art_brightens_only_past_its_own_threshold() {
    let plain = rat_art(0, 690_000, Variant::Chubby);
    assert_eq!(plain.len(), 5);
    assert!(plain[1].starts_with(" ( o o )"));
    let bright = rat_art(0, 710_000, Variant::Chubby);
    assert!(bright[1].starts_with(" ( • • )"));
}

#[test]
fn art_blocks_are_rectangular_for_all_variants() {
    for variant in [Variant::Classic, Variant::LongTail, Variant::Chubby] {
        for (vibe, happy) in [(0u32, 0u32), (999_999, 1_000_000), (500_000, 660_000)] {
            let art = rat_art(vibe, happy, variant);
            let width = art[0].chars().count();
            for line in &art {
                assert_eq!(line.chars().count(), width);
            }
        }
    }
}

#[test]
fn energy_bars_follow_the_vibe_bucket() {
    // Phase zero points at bucket 0.
    assert_eq!(energy_bars(0), vec![1, 2, 3, 4, 1, 2, 3, 4]);
    // Phase 0.9 points at bucket 7.
    assert_eq!(energy_bars(900_000), vec![4, 3, 2, 1, 4, 3, 2, 1]);
    // Phase 0.5 points at bucket 4.
    assert_eq!(energy_bars(500_000), vec![1, 4, 3, 2, 1, 2, 3, 4]);
}

#[test]
fn happiness_percent_rounds_half_up() {
    assert_eq!(happiness_percent(0), 0);
    assert_eq!(happiness_percent(500_000), 50);
    assert_eq!(happiness_percent(565_000), 57);
    assert_eq!(happiness_percent(994_999), 99);
    assert_eq!(happiness_percent(995_000), 100);
    assert_eq!(happiness_percent(1_000_000), 100);
}
