use whisper_desktop::text::i64_to_decimal;
use whisper_desktop::system::notifications::notification_preview;
use whisper_desktop::system::tray::UnreadBadge;

#[test]
fn test_badge_count() {
    let mut badge = UnreadBadge::new();
    badge.update_badge(0);
    assert_eq!(badge.get_badge_count(), 0);

    badge.update_badge(5);
    assert_eq!(badge.get_badge_count(), 5);

    badge.update_badge(0);
}

#[test]
fn window_title_shows_unread_count() {
    let mut badge = UnreadBadge::new();
    assert_eq!(badge.window_title(), "Whisper");
    badge.update_badge(12);
    assert_eq!(badge.window_title(), "Whisper (12)");
    badge.update_badge(-3);
    assert_eq!(badge.window_title(), "Whisper");
}

#[test]
fn long_previews_are_truncated() {
    assert_eq!(notification_preview("short"), "short");
    let exact = "a".repeat(100);
    assert_eq!(notification_preview(&exact), exact);
    let long = "b".repeat(150);
    let shown = notification_preview(&long);
    assert_eq!(shown, format!("{}...", "b".repeat(97)));
}

#[test]
fn decimal_text_matches_rust_formatting() {
    for n in [0i64, 7, 10, 42, -1, -90, 1234567890, i64::MAX, i64::MIN] {
        assert_eq!(i64_to_decimal(n), n.to_string());
    }
}
