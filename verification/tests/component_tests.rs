use hecto::position::Direction;
use hecto::position::Position;
use hecto::prompt::Prompt;
use hecto::prompt::PromptStatus;
use hecto::status_line::StatusLine;
use hecto::status_line::StatusLineComponent;
use hecto::status_line::StatusLineFileNameComponent;
use hecto::status_line::StatusLineLineIndicatorComponent;
use hecto::status_line::StatusLineModifiedComponent;
use hecto::status_message::StatusMessage;
use hecto::terminal::Key;
use hecto::terminal::Size;
use hecto::utils::centered_text;
use hecto::utils::decimal_string;

#[test]
fn position_steps_saturate_at_origin() {
    let p = Position { x: 0, y: 0 };
    assert_eq!(p.up(), Position { x: 0, y: 0 });
    assert_eq!(p.left(), Position { x: 0, y: 0 });
    assert_eq!(p.down(), Position { x: 0, y: 1 });
    assert_eq!(p.right(), Position { x: 1, y: 0 });
}

#[test]
fn position_steps_saturate_at_max() {
    let p = Position { x: usize::MAX, y: usize::MAX };
    assert_eq!(p.down().y, usize::MAX);
    assert_eq!(p.right().x, usize::MAX);
}

#[test]
fn position_move_to_matches_directions() {
    let p = Position { x: 3, y: 4 };
    assert_eq!(p.move_to(&Direction::Up), p.up());
    assert_eq!(p.move_to(&Direction::Down), p.down());
    assert_eq!(p.move_to(&Direction::Left), p.left());
    assert_eq!(p.move_to(&Direction::Right), p.right());
}

#[test]
fn position_saturating_arithmetic() {
    let a = Position { x: 5, y: 2 };
    let b = Position { x: 3, y: 7 };
    assert_eq!(a.saturating_sub(&b), Position { x: 2, y: 0 });
    assert_eq!(a.saturating_add(&b), Position { x: 8, y: 9 });
    let near_max = Position { x: usize::MAX - 1, y: 0 };
    assert_eq!(near_max.saturating_add(&b).x, usize::MAX);
}

#[test]
fn size_contains_positions_strictly_inside() {
    let size = Size { width: 3, height: 2 };
    assert!(size.is_in(&Position { x: 0, y: 0 }));
    assert!(size.is_in(&Position { x: 2, y: 1 }));
    assert!(!size.is_in(&Position { x: 3, y: 1 }));
    assert!(!size.is_in(&Position { x: 2, y: 2 }));
}

#[test]
fn prompt_collects_characters() {
    let mut p = Prompt::default();
    let (s, v) = p.prompt(Key::Char('h'));
    assert!(s == PromptStatus::InProgress);
    assert_eq!(v, Some("h".to_string()));
    let (_, v) = p.prompt(Key::Char('i'));
    assert_eq!(v, Some("hi".to_string()));
    let (s, v) = p.prompt(Key::Char('\n'));
    assert!(s == PromptStatus::Committed);
    assert_eq!(v, Some("hi".to_string()));
}

#[test]
fn prompt_backspace_drops_last_grapheme() {
    let mut p = Prompt::default();
    p.prompt(Key::Char('a'));
    p.prompt(Key::Char('e'));
    p.prompt(Key::Char('\u{301}'));
    let (_, v) = p.prompt(Key::Backspace);
    // The accent merged with the 'e' into one cluster; both go together.
    assert_eq!(v, Some("a".to_string()));
    let (_, v) = p.prompt(Key::Backspace);
    assert_eq!(v, Some("".to_string()));
    let (s, v) = p.prompt(Key::Backspace);
    assert!(s == PromptStatus::InProgress);
    assert_eq!(v, Some("".to_string()));
}

#[test]
fn prompt_escape_aborts_and_clears() {
    let mut p = Prompt::default();
    p.prompt(Key::Char('x'));
    let (s, v) = p.prompt(Key::Esc);
    assert!(s == PromptStatus::Aborted);
    assert_eq!(v, None);
    let (_, v) = p.prompt(Key::Char('y'));
    assert_eq!(v, Some("y".to_string()));
}

#[test]
fn prompt_ignores_control_characters_and_other_keys() {
    let mut p = Prompt::default();
    p.prompt(Key::Char('a'));
    p.prompt(Key::Char('\u{7}'));
    p.prompt(Key::Up);
    p.prompt(Key::Other);
    let (_, v) = p.prompt(Key::Char('b'));
    assert_eq!(v, Some("ab".to_string()));
}

#[test]
fn status_message_expires_after_five_seconds() {
    let m = StatusMessage::from("hello", 1000);
    assert_eq!(m.text, "hello");
    assert!(m.is_visible(1000));
    assert!(m.is_visible(5999));
    assert!(!m.is_visible(6000));
}

#[test]
fn set_status_restarts_the_clock() {
    let mut m = StatusMessage::from("old", 0);
    m.set_status("new", 10_000);
    assert_eq!(m.text, "new");
    assert!(m.is_visible(14_999));
    assert!(!m.is_visible(15_000));
}

#[test]
fn status_line_joins_pads_and_truncates() {
    let mut line = StatusLine::default();
    line.push(StatusLineComponent { text: "abc".to_string() });
    line.push(StatusLineComponent { text: "de".to_string() });
    line.set_separator(" | ");
    line.set_width(12);
    assert_eq!(line.to_string(), "abc | de    ");
    line.set_width(5);
    assert_eq!(line.to_string(), "abc |");
    line.set_width(0);
    assert_eq!(line.to_string(), "");
}

#[test]
fn status_line_component_update() {
    let mut c = StatusLineComponent { text: "a".to_string() };
    assert_eq!(c.to_string(), "a");
    c.update("b".to_string());
    assert_eq!(c.to_string(), "b");
}

#[test]
fn modified_marker_follows_dirty_flag() {
    assert_eq!(StatusLineModifiedComponent::new(true).to_string(), "(modified)");
    assert_eq!(StatusLineModifiedComponent::new(false).to_string(), "");
}

#[test]
fn file_name_component_truncates_to_twenty() {
    let c = StatusLineFileNameComponent::new(Some("short.txt".to_string()));
    assert_eq!(c.to_string(), "short.txt");
    let long = "abcdefghijklmnopqrstuvwxyz.txt".to_string();
    let c = StatusLineFileNameComponent::new(Some(long));
    assert_eq!(c.to_string(), "abcdefghijklmnopqrst");
    let c = StatusLineFileNameComponent::new(None);
    assert_eq!(c.to_string(), "[No Name]");
}

#[test]
fn line_indicator_is_one_based_over_total() {
    let c = StatusLineLineIndicatorComponent::new(0, 5);
    assert_eq!(c.to_string(), "1/5");
    let c = StatusLineLineIndicatorComponent::new(41, 120);
    assert_eq!(c.to_string(), "42/120");
}

#[test]
fn decimal_string_writes_base_ten() {
    assert_eq!(decimal_string(0), "0");
    assert_eq!(decimal_string(7), "7");
    assert_eq!(decimal_string(10), "10");
    assert_eq!(decimal_string(1234567890), "1234567890");
}

#[test]
fn centered_text_pads_left_and_cuts() {
    assert_eq!(centered_text("ab", 6), "  ab");
    assert_eq!(centered_text("ab", 7), "  ab");
    assert_eq!(centered_text("abcdef", 4), "abcd");
    assert_eq!(centered_text("ab", 2), "ab");
    assert_eq!(centered_text("", 0), "");
}
