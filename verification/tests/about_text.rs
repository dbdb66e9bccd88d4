use qobine::overlays::{breadcrumb_titles, OverlayKind};
use qobine::about::{
    about_lines, about_scroll_delta, about_view, breadcrumb_line, header_blurb, scroll_about, wrap_text, Emphasis,
};
use qobine::keys::Key;

#[test]
fn wraps_each_line_separately() {
    assert_eq!(wrap_text("one two three\nfour", 8), ["one two", "three", "four"]);
    assert_eq!(wrap_text("a\n\nb\n", 10), ["a", "", "b"]);
    assert!(wrap_text("", 10).is_empty());
}

#[test]
fn long_words_stay_whole() {
    assert_eq!(wrap_text("abcdefghij xy", 4), ["abcdefghij", "xy"]);
}

#[test]
fn zero_width_counts_as_one() {
    assert_eq!(wrap_text("a b", 0), ["a", "b"]);
}

#[test]
fn short_blurb_is_normalized() {
    let b = header_blurb("  a   short\n text ", 40);
    assert_eq!(b.text, "a short text");
    assert!(!b.see_about);
}

#[test]
fn long_blurb_is_shortened_with_hint() {
    let b = header_blurb("one two three four five six seven", 20);
    assert_eq!(b.text, "one two\u{2026}");
    assert!(b.see_about);
    let narrow = header_blurb("one two three four five six seven", 5);
    assert_eq!(narrow.text, "\u{2026}");
    assert!(narrow.see_about);
}

#[test]
fn blurb_fits_its_width() {
    let text = "the quick brown fox jumps over the lazy dog";
    for width in 13..60 {
        let b = header_blurb(text, width);
        let hint = if b.see_about { 12 } else { 0 };
        assert!(b.text.chars().count() + hint <= width);
    }
}

#[test]
fn scroll_keys() {
    assert_eq!(about_scroll_delta(Key::Up), Some(-1));
    assert_eq!(about_scroll_delta(Key::Char('k')), Some(-1));
    assert_eq!(about_scroll_delta(Key::Down), Some(1));
    assert_eq!(about_scroll_delta(Key::Char('j')), Some(1));
    assert_eq!(about_scroll_delta(Key::PageUp), Some(-10));
    assert_eq!(about_scroll_delta(Key::PageDown), Some(10));
    assert_eq!(about_scroll_delta(Key::Enter), None);
}

#[test]
fn scrolling_saturates() {
    let mut p = 3usize;
    scroll_about(&mut p, -10);
    assert_eq!(p, 0);
    scroll_about(&mut p, 10);
    assert_eq!(p, 10);
    let mut top = usize::MAX - 2;
    scroll_about(&mut top, 10);
    assert_eq!(top, usize::MAX);
    scroll_about(&mut top, isize::MIN);
    assert_eq!(top, usize::MAX - (isize::MAX as usize) - 1);
}

#[test]
fn about_position_is_clamped() {
    let v = about_view(30, 10, 50);
    assert_eq!(v.position, 20);
    assert!(v.show_scrollbar);
    let w = about_view(5, 10, 3);
    assert_eq!(w.position, 0);
    assert!(!w.show_scrollbar);
}

#[test]
fn about_page_lines() {
    let awards = vec!["Grammy".to_string(), "Choc".to_string()];
    let lines = about_lines("some text", &awards, 20);
    let texts: Vec<(&str, bool)> = lines.iter().map(|l| (l.text.as_str(), l.heading)).collect();
    assert_eq!(
        texts,
        [("Awards", true), ("\u{2022} Grammy", false), ("\u{2022} Choc", false), ("", false), ("some text", false)]
    );
    let plain = about_lines("x", &Vec::new(), 20);
    assert_eq!(plain.len(), 1);
    assert_eq!(plain[0].text, "x");
}

#[test]
fn breadcrumb_pieces() {
    let titles = vec!["Artist".to_string(), "Album".to_string()];
    let pieces = breadcrumb_line(&titles);
    assert_eq!(pieces.len(), 3);
    assert_eq!(pieces[0], ("Artist".to_string(), Emphasis::Dim));
    assert_eq!(pieces[1], (" \u{203a} ".to_string(), Emphasis::Dim));
    assert_eq!(pieces[2], ("Album".to_string(), Emphasis::Bold));
    assert!(breadcrumb_line(&Vec::new()).is_empty());
    assert_eq!(breadcrumb_line(&vec!["One".to_string()]), [("One".to_string(), Emphasis::Bold)]);
}

#[test]
fn scrolling_back_returns() {
    for start in [0usize, 3, 40] {
        for delta in [-3isize, -1, 1, 10] {
            if start as isize + delta >= 0 {
                let mut p = start;
                scroll_about(&mut p, delta);
                scroll_about(&mut p, -delta);
                assert_eq!(p, start);
            }
        }
    }
}

#[test]
fn page_titles() {
    assert_eq!(OverlayKind::Artist { name: "Björk".to_string() }.title(), "Björk");
    assert_eq!(OverlayKind::AddTrackToPlaylist { track_title: "Joga".to_string() }.title(), "Add Joga to playlist");
    assert_eq!(OverlayKind::NewPlaylist.title(), "New playlist");
    assert_eq!(OverlayKind::DeletePlaylist.title(), "Delete playlist");
    let titles: Vec<String> = ["a", "b", "c", "d"].iter().map(|s| s.to_string()).collect();
    assert_eq!(breadcrumb_titles(&titles), ["b", "c", "d"]);
    assert_eq!(breadcrumb_titles(&titles[..2].to_vec()), ["a", "b"]);
}
