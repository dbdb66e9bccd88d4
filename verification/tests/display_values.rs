use qobine::display::position_text;
use qobine::models::Notification;
use qobine::notifications::notification_parts;
use qobine::screens::album_section_labels;
use qobine::display::{
    album_metadata, big_text_width, connect_popup_size, focus_plan, format_duration, format_mseconds, format_seconds,
    get_status, notification_layout, sidebar_width, title_markers, Area, Marker,
};
use qobine::models::Status;

#[test]
fn durations() {
    assert_eq!(format_seconds(0), "00:00");
    assert_eq!(format_seconds(65), "01:05");
    assert_eq!(format_seconds(6000), "100:00");
    assert_eq!(format_mseconds(61_999), "01:01");
    assert_eq!(format_duration(59), "00:59");
    assert_eq!(format_duration(3600), "1:00:00");
    assert_eq!(format_duration(3725), "1:02:05");
    assert_eq!(format_duration(u32::MAX), "1193046:28:15");
}

#[test]
fn status_texts() {
    assert_eq!(get_status(Status::Playing), "Playing \u{23f5}");
    assert_eq!(get_status(Status::Paused), "Paused \u{23f8}");
    assert_eq!(get_status(Status::Buffering), "Buffering");
    assert_eq!(Status::default(), Status::Paused);
}

#[test]
fn sidebar_widths() {
    assert_eq!(sidebar_width(&vec!["Tracks", "Go to Artist"]), 15);
    assert_eq!(sidebar_width(&Vec::new()), 3);
    assert_eq!(sidebar_width(&vec!["\u{e9}t\u{e9}"]), 8);
}

#[test]
fn markers() {
    assert_eq!(title_markers(true, true, true), [Marker::Favorite, Marker::Explicit, Marker::HiRes]);
    assert_eq!(title_markers(false, true, false), [Marker::HiRes]);
    assert!(title_markers(false, false, false).is_empty());
    assert_eq!(Marker::Favorite.glyph(), "\u{f004}");
    assert_eq!(Marker::Owned.glyph(), "\u{f007}");
}

#[test]
fn album_metadata_lines() {
    assert_eq!(album_metadata(1971, 6, 2795, 2), "1971 \u{b7} 6 tracks \u{b7} 46:35 \u{b7} 2 awards");
    assert_eq!(album_metadata(0, 1, 59, 1), "1 tracks \u{b7} 00:59 \u{b7} 1 award");
    assert_eq!(album_metadata(0, 10, 600, 0), "10 tracks \u{b7} 10:00");
}

#[test]
fn notifications_stack_from_the_top_right() {
    let area = Area { x: 0, y: 0, width: 100, height: 10 };
    let boxes = notification_layout(area, &vec![10, 200, 5]);
    assert_eq!(
        boxes,
        [Area { x: 40, y: 0, width: 60, height: 3 }, Area { x: 40, y: 3, width: 60, height: 6 }]
    );
    let narrow = notification_layout(Area { x: 5, y: 2, width: 2, height: 5 }, &vec![3]);
    assert_eq!(narrow, [Area { x: 5, y: 2, width: 2, height: 5 }]);
    assert!(notification_layout(area, &Vec::new()).is_empty());
}

#[test]
fn connect_popup_sizes() {
    let devices = vec!["Kitchen".to_string(), "Living room speaker system".to_string()];
    assert_eq!(connect_popup_size(&devices, "Living room speaker system", 200, 50), (41, 4));
    assert_eq!(connect_popup_size(&devices, "Kitchen", 200, 50), (34, 4));
    assert_eq!(connect_popup_size(&devices, "Kitchen", 20, 3), (20, 3));
    assert_eq!(connect_popup_size(&Vec::new(), "", 200, 50), (34, 2));
}

#[test]
fn focus_screen_plan() {
    let p = focus_plan(Some("Meddle"), "Echoes", 40, 20);
    assert_eq!(p.entity_lines, ["Meddle"]);
    assert_eq!(p.title_lines, ["Echoes"]);
    assert_eq!(p.entity_height, 2);
    assert_eq!(p.title_height, 2);
    assert_eq!(p.top_spacer, 4);
    let q = focus_plan(None, "Echoes", 40, 4);
    assert!(q.entity_lines.is_empty());
    assert!(q.title_lines.is_empty());
    assert_eq!(q.top_spacer, 0);
    assert_eq!(big_text_width(&p.title_lines, 100), 24);
    assert_eq!(big_text_width(&p.title_lines, 10), 10);
    assert_eq!(big_text_width(&Vec::new(), 10), 0);
}

#[test]
fn track_positions() {
    assert_eq!(position_text(0, 10), "1 of 10");
    assert_eq!(position_text(usize::MAX, 0), format!("{} of 0", usize::MAX));
}

#[test]
fn notification_boxes_are_titled() {
    let n = Notification::Warning("careful".to_string());
    let (title, message) = notification_parts(&n);
    assert_eq!(title, "Warning");
    assert_eq!(message, "careful");
    assert_eq!(notification_parts(&Notification::Error("x".to_string())).0, "Error");
}

#[test]
fn section_labels() {
    assert_eq!(
        album_section_labels(),
        ["New releases", "Qobuzissime", "Essential Discography", "Album of the week", "Press Accolades", "Most streamed"]
    );
}

#[test]
fn overlong_lines_count_as_empty_for_the_width() {
    let lines = vec!["x".repeat(70000), "ab".to_string()];
    assert_eq!(big_text_width(&lines, 100), 8);
    assert_eq!(big_text_width(&vec!["x".repeat(70000)], 100), 0);
    assert_eq!(big_text_width(&vec!["x".repeat(20000)], u16::MAX), u16::MAX);
}
