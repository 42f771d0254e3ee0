use osmium_engine::{
    Button, Color, Console, Element, Event, Frame, Framing, Key, Props, StringFrame, Style,
};

fn painted(frame: &mut Frame, text: &str, props: &Props) -> String {
    let before = frame.out.len();
    frame.draw(text, props);
    frame.out[before..].to_string()
}

#[test]
fn centered_text_in_small_terminal() {
    let mut frame = Frame::new((10, 4));
    frame.draw("Hi", &Props::center());
    assert_eq!(frame.out, "\x1b[2;5HHi\x1b[0m");
}

#[test]
fn multi_line_text_one_write_per_line() {
    let mut frame = Frame::new((80, 24));
    assert_eq!(
        painted(&mut frame, "a\nbc", &Props::new(1, 1)),
        "\x1b[2;2Ha\x1b[0m\x1b[3;2Hbc\x1b[0m"
    );
}

#[test]
fn empty_text_still_one_write() {
    let mut frame = Frame::new((80, 24));
    assert_eq!(painted(&mut frame, "", &Props::auto()), "\x1b[1;1H\x1b[0m");
}

#[test]
fn fixed_size_centres_the_box() {
    let mut frame = Frame::new((20, 10));
    let props = Props::center().width(10).height(4);
    assert_eq!(painted(&mut frame, "ab", &props), "\x1b[4;6Hab\x1b[0m");
}

#[test]
fn percent_position_places_text() {
    let mut frame = Frame::new((100, 50));
    let props = Props::auto().x_percent(33).y_percent(10);
    assert_eq!(painted(&mut frame, "x", &props), "\x1b[6;34Hx\x1b[0m");
}

#[test]
fn colors_prefix_each_line() {
    let mut frame = Frame::new((80, 24));
    let style = Style { color: Color::Red, background: Color::Blue, px: 0, py: 0 };
    let props = Props::new(0, 0).style(style);
    assert_eq!(
        painted(&mut frame, "a\nb", &props),
        "\x1b[1;1H\x1b[31;44ma\x1b[0m\x1b[2;1H\x1b[31;44mb\x1b[0m"
    );
}

#[test]
fn padding_insets_content_and_shifts_origin() {
    let mut frame = Frame::new((80, 24));
    let style = Style { px: 1, py: 1, ..Style::default() };
    let props = Props::new(2, 3).style(style);
    assert_eq!(
        painted(&mut frame, "ab", &props),
        "\x1b[3;2H    \x1b[0m\x1b[4;2H ab \x1b[0m\x1b[5;2H    \x1b[0m"
    );
}

#[test]
fn padding_at_origin_clamps_to_first_cell() {
    let mut frame = Frame::new((80, 24));
    let style = Style { px: 2, py: 0, ..Style::default() };
    let props = Props::auto().style(style);
    assert_eq!(painted(&mut frame, "ab", &props), "\x1b[1;1H  ab  \x1b[0m");
}

#[test]
fn hover_applies_inside_box() {
    let hover = Style { color: Color::Green, ..Style::default() };
    let props = Props::new(2, 1).style_state("hover", hover);
    let mut frame = Frame::new((80, 24));
    frame.mouse_position = Some((3, 1));
    assert_eq!(painted(&mut frame, "ab", &props), "\x1b[2;3H\x1b[32mab\x1b[0m");
}

#[test]
fn hover_does_not_apply_on_right_or_bottom_edge() {
    let hover = Style { color: Color::Green, ..Style::default() };
    let props = Props::new(2, 1).style_state("hover", hover);
    let mut frame = Frame::new((80, 24));
    frame.mouse_position = Some((4, 1));
    assert_eq!(painted(&mut frame, "ab", &props), "\x1b[2;3Hab\x1b[0m");
    frame.mouse_position = Some((2, 2));
    assert_eq!(painted(&mut frame, "ab", &props), "\x1b[2;3Hab\x1b[0m");
    frame.mouse_position = Some((2, 1));
    assert_eq!(painted(&mut frame, "ab", &props), "\x1b[2;3H\x1b[32mab\x1b[0m");
}

#[test]
fn draw_text_matches_draw() {
    let mut a = Frame::new((30, 10));
    let mut b = Frame::new((30, 10));
    a.draw(String::from("one\ntwo"), &Props::center());
    b.draw_text("one\ntwo", &Props::center());
    assert_eq!(a.out, b.out);
}

#[test]
fn string_sink_keeps_rendered_text_only() {
    let style = Style { color: Color::Red, background: Color::Rgb(1, 2, 3), px: 3, py: 2 };
    let mut sink = StringFrame::new();
    sink.draw("Hi", &Props::center().width(40).style(style));
    sink.draw(String::from("\nthere"), &Props::new(7, 9));
    assert_eq!(sink.text, "Hi\nthere");
    assert!(!sink.text.contains('\x1b'));
}

#[test]
fn raw_text_is_written_unchanged() {
    let mut sink = StringFrame::new();
    sink.draw_raw_text("raw");
    assert_eq!(sink.text, "raw");
    let mut frame = Frame::new((5, 5));
    frame.draw_raw_text("\x1b[?25l");
    assert_eq!(frame.out, "\x1b[?25l");
}

#[test]
fn console_frame_starts_with_clear_and_tracks_pointer() {
    let mut console = Console::new(true, (80, 24));
    assert_eq!(console.mouse_position, None);
    let frame = console.frame((100, 30), Some(Event::MouseMove(4, 5)));
    assert_eq!(frame.out, "\x1b[2J\x1b[H");
    assert_eq!((frame.width, frame.height), (100, 30));
    assert_eq!(frame.mouse_position, Some((4, 5)));
    assert_eq!((console.width, console.height), (100, 30));
    let frame = console.frame((100, 30), Some(Event::Key(Key::Enter)));
    assert_eq!(frame.mouse_position, Some((4, 5)));
    assert_eq!(frame.event, Some(Event::Key(Key::Enter)));
    let frame = console.frame((90, 20), Some(Event::MouseClick(1, 2)));
    assert_eq!(frame.mouse_position, Some((1, 2)));
    assert!(console.mouse);
}

#[test]
fn button_runs_callback_on_enter() {
    let mut count = 0;
    let mut frame = Frame::new((40, 10));
    frame.event = Some(Event::Key(Key::Enter));
    frame.draw(Button { text: String::from("press"), on_click: || count += 1 }, &Props::auto());
    frame.event = Some(Event::Key(Key::Char('x')));
    frame.draw(Button { text: String::from("press"), on_click: || count += 1 }, &Props::auto());
    assert_eq!(count, 1);
    assert_eq!(frame.out, "\x1b[1;1Hpress\x1b[0m\x1b[1;1Hpress\x1b[0m");
}

#[test]
fn button_action_zero_only() {
    let mut count = 0;
    let mut b = Button { text: String::from("b"), on_click: || count += 1 };
    b.action(1);
    b.action(0);
    b.action(0);
    drop(b);
    assert_eq!(count, 2);
}
