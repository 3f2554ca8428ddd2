use color_ssh::cell_style::{cell_colors, cell_paint, session_failed_lines, CellPaint, NoticeTone, TermColor};

#[test]
fn highlights_follow_their_precedence() {
    assert_eq!(cell_paint(true, true, true, true, false, 0), CellPaint::CurrentMatch);
    assert_eq!(cell_paint(false, true, true, true, false, 0), CellPaint::Match);
    assert_eq!(cell_paint(false, false, true, true, false, 0), CellPaint::Selected);
    assert_eq!(cell_paint(false, false, false, true, false, 0), CellPaint::Cursor);
    assert_eq!(cell_paint(false, false, false, true, true, 0), CellPaint::Plain);
    assert_eq!(cell_paint(false, false, false, true, false, 3), CellPaint::Plain);
    assert_eq!(cell_paint(false, false, false, false, false, 0), CellPaint::Plain);
}

#[test]
fn inverse_video_swaps_and_fills_defaults() {
    assert_eq!(cell_colors(TermColor::Idx(2), TermColor::Rgb(1, 2, 3), false), (TermColor::Idx(2), TermColor::Rgb(1, 2, 3)));
    assert_eq!(cell_colors(TermColor::Idx(2), TermColor::Rgb(1, 2, 3), true), (TermColor::Rgb(1, 2, 3), TermColor::Idx(2)));
    assert_eq!(cell_colors(TermColor::Default, TermColor::Default, true), (TermColor::Idx(0), TermColor::Idx(15)));
    assert_eq!(cell_colors(TermColor::Default, TermColor::Default, false), (TermColor::Default, TermColor::Default));
}

#[test]
fn failed_session_notice() {
    let lines = session_failed_lines("web");
    assert_eq!(lines.len(), 4);
    assert!(lines[0].is_empty() && lines[2].is_empty());
    assert_eq!(lines[1], vec![("Failed to start SSH session for ".to_string(), NoticeTone::Error), ("web".to_string(), NoticeTone::HostName)]);
    assert_eq!(
        lines[3],
        vec![("Press ".to_string(), NoticeTone::Hint), ("Ctrl+W".to_string(), NoticeTone::Key), (" to close this tab".to_string(), NoticeTone::Hint)]
    );
}
