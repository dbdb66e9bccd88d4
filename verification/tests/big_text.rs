use qobine::focus::{fit_big_text, truncate_with_dots, wrap_big_text};

#[test]
fn short_text_stays_on_one_line() {
    assert_eq!(fit_big_text("Meddle", 40, 3), ["Meddle"]);
}

#[test]
fn multi_word_text_wraps() {
    assert_eq!(
        fit_big_text("Depression Cherry", 40, 6),
        ["Depression", "Cherry"]
    );
}

#[test]
fn long_word_is_truncated() {
    assert_eq!(fit_big_text("Supermassive", 24, 3), ["Sup..."]);
}

#[test]
fn excess_lines_are_truncated() {
    assert_eq!(
        fit_big_text("one two three four five six seven", 36, 6),
        ["one two", "three", "four f..."]
    );
}

#[test]
fn exact_fit_is_not_truncated() {
    assert_eq!(fit_big_text("one two", 28, 3), ["one two"]);
}

#[test]
fn tiny_width_uses_visible_dots() {
    assert_eq!(truncate_with_dots("long", 2), "..");
}

#[test]
fn truncation_edges() {
    assert_eq!(truncate_with_dots("anything", 0), "");
    assert_eq!(truncate_with_dots("long", 3), "...");
    assert_eq!(truncate_with_dots("ab", 5), "ab...");
    assert_eq!(truncate_with_dots("abcdef", 5), "ab...");
}

#[test]
fn zero_box_has_no_lines() {
    assert!(fit_big_text("Meddle", 3, 10).is_empty());
    assert!(fit_big_text("Meddle", 40, 1).is_empty());
    assert!(wrap_big_text("Meddle", 0).is_empty());
}

#[test]
fn wrapping_collapses_white_space() {
    assert_eq!(wrap_big_text("  a\t\tb  ", 10), ["a b"]);
    assert!(wrap_big_text("   ", 10).is_empty());
}

#[test]
fn long_word_closes_current_line() {
    assert_eq!(wrap_big_text("ab cdefgh ij", 4), ["ab", "c...", "ij"]);
}

#[test]
fn fitted_lines_fit_the_box() {
    let text = "the quick brown fox jumps over the lazy dog again and again";
    for width in 0..60u16 {
        for height in 0..12u16 {
            let lines = fit_big_text(text, width, height);
            assert!(lines.len() <= usize::from(height / 2));
            for line in &lines {
                assert!(line.chars().count() <= usize::from(width / 4));
            }
        }
    }
}
