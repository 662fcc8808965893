use nanoview::{Direction, Size, View};

fn view_of(text: &str, height: usize, width: usize) -> View {
    let mut view = View::new(Size { height, width });
    view.load(Ok(String::from(text))).unwrap();
    view
}

#[test]
fn horizontal_scroll_shows_the_columns_of_the_window() {
    let mut view = view_of("0123456789", 1, 6);
    for _ in 0..7 {
        view.move_pointer(&Direction::Right);
    }
    assert_eq!(view.scroll_offset.x, 2);
    let rows = view.render();
    assert_eq!(rows, vec!["234567"]);
}

#[test]
fn short_lines_give_short_or_empty_rows() {
    let mut view = view_of("abcdef\nab\n\nabcd", 5, 3);
    for _ in 0..3 {
        view.move_pointer(&Direction::Right);
    }
    assert_eq!(view.scroll_offset.x, 1);
    let rows = view.render();
    assert_eq!(rows, vec!["bcd", "b", "", "bcd", "~"]);
}

#[test]
fn vertical_scroll_starts_at_the_offset_line() {
    let mut view = view_of("l0\nl1\nl2\nl3\nl4", 2, 5);
    for _ in 0..3 {
        view.move_pointer(&Direction::Down);
    }
    assert_eq!(view.scroll_offset.y, 2);
    let rows = view.render();
    assert_eq!(rows, vec!["l2", "l3"]);
}

#[test]
fn empty_buffer_shows_the_banner_a_third_of_the_way_down() {
    let mut view = View::new(Size { height: 9, width: 20 });
    let rows = view.render();
    assert_eq!(rows.len(), 9);
    for (row, text) in rows.iter().enumerate() {
        if row == 3 {
            assert_eq!(text, "~ nanoview -- 0.1.0");
        } else {
            assert_eq!(text, "~");
        }
    }
}

#[test]
fn populated_buffer_shows_no_banner() {
    let mut view = view_of("only", 3, 20);
    let rows = view.render();
    assert_eq!(rows, vec!["only", "~", "~"]);
}

#[test]
fn welcome_message_exact_values() {
    assert_eq!(View::build_welcome_message(0), "~");
    assert_eq!(View::build_welcome_message(5), "~");
    assert_eq!(View::build_welcome_message(17), "~");
    assert_eq!(View::build_welcome_message(18), "~nanoview -- 0.1.0");
    assert_eq!(View::build_welcome_message(20), "~ nanoview -- 0.1.0");
    assert_eq!(View::build_welcome_message(21), "~ nanoview -- 0.1.0");
    assert_eq!(View::build_welcome_message(40), format!("~{}nanoview -- 0.1.0", " ".repeat(11)));
}

#[test]
fn narrow_window_shows_the_filler_instead_of_the_banner() {
    let mut view = View::new(Size { height: 3, width: 5 });
    let rows = view.render();
    assert_eq!(rows, vec!["~", "~", "~"]);
}

#[test]
fn render_clears_the_stale_flag_and_then_draws_nothing() {
    let mut view = view_of("text", 2, 4);
    assert!(view.need_redraw);
    assert_eq!(view.render().len(), 2);
    assert!(!view.need_redraw);
    assert!(view.render().is_empty());
}

#[test]
fn degenerate_window_draws_nothing_and_stays_stale() {
    let mut view = view_of("text", 0, 4);
    assert!(view.render().is_empty());
    assert!(view.need_redraw);
    let mut view = view_of("text", 4, 0);
    assert!(view.render().is_empty());
    assert!(view.need_redraw);
}

#[test]
fn render_counts_columns_in_characters() {
    let mut view = view_of("äöüß-xyz", 1, 3);
    for _ in 0..4 {
        view.move_pointer(&Direction::Right);
    }
    let rows = view.render();
    assert_eq!(rows, vec!["üß-"]);
}
