use osmium_engine::utils::str_size;
use osmium_engine::{Dimension, Placement, Position, Props, Style};

#[test]
fn measures_two_lines() {
    assert_eq!(str_size("Hello\nWorld!"), (6, 2));
    assert_eq!(str_size("Hello\nWorld"), (5, 2));
}

#[test]
fn measures_empty_text() {
    assert_eq!(str_size(""), (0, 1));
}

#[test]
fn measures_single_line() {
    assert_eq!(str_size("abc"), (3, 1));
    assert_eq!(str_size("a longer single line").1, 1);
}

#[test]
fn measures_trailing_newline_as_empty_line() {
    assert_eq!(str_size("ab\n"), (2, 2));
    assert_eq!(str_size("\n\n"), (0, 3));
}

#[test]
fn measures_characters_not_bytes() {
    assert_eq!(str_size("héllo"), (5, 1));
}

#[test]
fn centered_position() {
    assert_eq!(Position::Center.get(10, 20), 5);
    assert_eq!(Position::Center.get(3, 10), 3);
    assert_eq!(Position::Center.get(20, 20), 0);
}

#[test]
fn centered_position_clamps_when_content_overflows() {
    assert_eq!(Position::Center.get(21, 20), 0);
    assert_eq!(Position::Center.get(u16::MAX, 0), 0);
}

#[test]
fn percent_position() {
    assert_eq!(Position::Percent(50).get(0, 100), 50);
    assert_eq!(Position::Percent(33).get(0, 100), 33);
    assert_eq!(Position::Percent(33).get(0, 10), 3);
    assert_eq!(Position::Percent(200).get(0, 60000), u16::MAX);
}

#[test]
fn absolute_position() {
    assert_eq!(Position::Num(7).get(100, 3), 7);
}

#[test]
fn auto_dimension_keeps_measure() {
    for (written, frame) in [(0u16, 0u16), (7, 3), (3, 7), (u16::MAX, 1)] {
        assert_eq!(Dimension::Auto.get_root(written, frame), written);
    }
}

#[test]
fn dimension_before_content() {
    assert_eq!(Dimension::Auto.get(7, 3), 3);
    assert_eq!(Dimension::Percent(50).get(7, 30), 15);
    assert_eq!(Dimension::Num(4).get(7, 30), 4);
    assert_eq!(Dimension::Percent(25).get_root(7, 30), 7);
    assert_eq!(Dimension::Num(4).get_root(7, 30), 4);
}

#[test]
fn placement_is_half_open() {
    let place = Placement { x: 2, y: 3, width: 4, height: 2 };
    assert!(place.contains(2, 3));
    assert!(place.contains(5, 4));
    assert!(!place.contains(6, 4));
    assert!(!place.contains(5, 5));
    assert!(!place.contains(1, 3));
}

#[test]
fn last_setter_wins() {
    let p = Props::new(1, 2).width(3).height(4).width(5).height(6);
    assert_eq!(p.width, Dimension::Num(5));
    assert_eq!(p.height, Dimension::Num(6));
    assert_eq!(p.x, Position::Num(1));
    assert_eq!(p.y, Position::Num(2));
}

#[test]
fn setters_leave_template_alone() {
    let base = Props::center();
    let a = base.width_percent(50).height_percent(25);
    let b = base.x_percent(10).y_percent(20);
    assert_eq!(base.width, Dimension::Auto);
    assert_eq!(base.x, Position::Center);
    assert_eq!(a.width, Dimension::Percent(50));
    assert_eq!(a.height, Dimension::Percent(25));
    assert_eq!(b.x, Position::Percent(10));
    assert_eq!(b.y, Position::Percent(20));
    assert_eq!(b.width, Dimension::Auto);
}

#[test]
fn presets() {
    let p = Props::auto();
    assert_eq!((p.x, p.y), (Position::Num(0), Position::Num(0)));
    let p = Props::center_horizontal();
    assert_eq!((p.x, p.y), (Position::Center, Position::Num(0)));
    let p = Props::center_vertical();
    assert_eq!((p.x, p.y), (Position::Num(0), Position::Center));
    assert_eq!(p.style, Style::default());
    assert!(p.style_state.is_empty());
}

#[test]
fn style_state_replaces_same_name() {
    let s1 = Style { px: 1, ..Style::default() };
    let s2 = Style { px: 2, ..Style::default() };
    let p = Props::auto().style_state("hover", s1).style_state("focus", s1).style_state("hover", s2);
    assert_eq!(p.style_state.len(), 2);
    assert_eq!(p.style_state[0], ("hover".to_string(), s2));
    assert_eq!(p.style_state[1], ("focus".to_string(), s1));
    assert_eq!(p.hover_style(), Some(s2));
    assert_eq!(Props::auto().style_state("focus", s1).hover_style(), None);
}

#[test]
fn effective_style_picks_hover_inside_box_only() {
    let base = Style { px: 1, ..Style::default() };
    let hover = Style { py: 1, ..Style::default() };
    let p = Props::auto().style(base).style_state("hover", hover);
    let place = Placement { x: 0, y: 0, width: 3, height: 1 };
    assert_eq!(p.effective_style(Some((2, 0)), &place), hover);
    assert_eq!(p.effective_style(Some((3, 0)), &place), base);
    assert_eq!(p.effective_style(Some((0, 1)), &place), base);
    assert_eq!(p.effective_style(None, &place), base);
    let q = Props::auto().style(base).style_state("hovered", hover);
    assert_eq!(q.effective_style(Some((0, 0)), &place), base);
}
