use tui::render::ScreenArea;
use tui::render::SpanStyle;
use tui::render::u8_to_decimal;
use tui::state::App;
use tui::state::Key;
use tui::state::LoopEvent;

#[test]
fn initial_state_is_zero_and_running() {
    let a = App::new();
    assert_eq!(a.counter, 0);
    assert!(!a.exit_requested);
    let d = App::default();
    assert_eq!(d.counter, 0);
    assert!(!d.exit_requested);
}

#[test]
fn right_presses_accumulate() {
    let mut a = App::new();
    for _ in 0..3 {
        a.handle_key_event(Key::Right);
    }
    assert_eq!(a.counter, 3);
    assert!(!a.exit_requested);

    let mut b = App::new();
    for _ in 0..255 {
        b.handle_key_event(Key::Right);
    }
    assert_eq!(b.counter, 255);
}

#[test]
fn left_then_right_is_net_zero() {
    let mut a = App::new();
    a.handle_key_event(Key::Left);
    a.handle_key_event(Key::Right);
    assert_eq!(a.counter, 0);

    let mut b = App::new();
    for _ in 0..7 {
        b.handle_key_event(Key::Right);
    }
    b.handle_key_event(Key::Left);
    b.handle_key_event(Key::Right);
    assert_eq!(b.counter, 7);
}

#[test]
fn counter_wraps_at_both_ends() {
    let mut a = App::new();
    a.decrement();
    assert_eq!(a.counter, 255);
    a.increment();
    assert_eq!(a.counter, 0);

    let mut b = App::new();
    for _ in 0..255 {
        b.increment();
    }
    assert_eq!(b.counter, 255);
    b.increment();
    assert_eq!(b.counter, 0);
}

#[test]
fn scenario_right_right_left() {
    let mut a = App::new();
    a.handle_key_event(Key::Right);
    a.handle_key_event(Key::Right);
    a.handle_key_event(Key::Left);
    assert_eq!(a.counter, 1);
    assert!(!a.exit_requested);
}

#[test]
fn scenario_quit_at_five() {
    let mut a = App::new();
    for _ in 0..5 {
        a.handle_key_event(Key::Right);
    }
    assert_eq!(a.counter, 5);
    a.handle_key_event(Key::Char('Q'));
    assert!(a.exit_requested);
    assert_eq!(a.counter, 5);
    // The main loop stops at its very next check, before any further render.
    assert!(a.should_exit());
}

#[test]
fn lowercase_q_is_ignored() {
    let mut a = App::new();
    a.handle_key_event(Key::Char('q'));
    assert_eq!(a.counter, 0);
    assert!(!a.exit_requested);
}

#[test]
fn other_keys_leave_state_unchanged() {
    let mut a = App::new();
    a.handle_key_event(Key::Right);
    let before = a;
    a.handle_key_event(Key::Char('x'));
    assert_eq!(a, before);
    a.handle_key_event(Key::Char(' '));
    assert_eq!(a, before);
    a.handle_key_event(Key::Other);
    assert_eq!(a, before);
}

#[test]
fn only_initial_presses_are_dispatched() {
    let mut a = App::new();
    a.handle_event(LoopEvent::Key { code: Key::Right, press: false });
    a.handle_event(LoopEvent::Key { code: Key::Char('Q'), press: false });
    a.handle_event(LoopEvent::NonKey);
    assert_eq!(a.counter, 0);
    assert!(!a.exit_requested);
    a.handle_event(LoopEvent::Key { code: Key::Right, press: true });
    assert_eq!(a.counter, 1);
}

#[test]
fn exit_flag_is_one_way() {
    let mut a = App::new();
    a.handle_key_event(Key::Char('Q'));
    assert!(a.exit_requested);
    a.handle_key_event(Key::Right);
    assert!(a.exit_requested);
    a.handle_key_event(Key::Char('q'));
    assert!(a.exit_requested);
}

#[test]
fn decimal_strings_are_exact() {
    assert_eq!(u8_to_decimal(0), "0");
    assert_eq!(u8_to_decimal(5), "5");
    assert_eq!(u8_to_decimal(9), "9");
    assert_eq!(u8_to_decimal(10), "10");
    assert_eq!(u8_to_decimal(42), "42");
    assert_eq!(u8_to_decimal(99), "99");
    assert_eq!(u8_to_decimal(100), "100");
    assert_eq!(u8_to_decimal(201), "201");
    assert_eq!(u8_to_decimal(255), "255");
}

#[test]
fn render_describes_the_panel() {
    let mut a = App::new();
    for _ in 0..42 {
        a.increment();
    }
    let area = ScreenArea { width: 80, height: 24 };
    let f = a.render(area);
    assert_eq!(f.area, area);
    assert!(f.thick_border);
    assert!(f.centered);

    assert_eq!(f.title.len(), 1);
    assert_eq!(f.title[0].content, " Test ");
    assert_eq!(f.title[0].style, SpanStyle::Emphasis);

    let texts: Vec<&str> = f.instructions.iter().map(|t| t.content.as_str()).collect();
    assert_eq!(texts, vec![" Decrement ", "<Left>", " Increment ", "<Right>", " Quit ", "<Q> "]);
    let styles: Vec<SpanStyle> = f.instructions.iter().map(|t| t.style).collect();
    assert_eq!(
        styles,
        vec![
            SpanStyle::Plain,
            SpanStyle::KeyEmphasis,
            SpanStyle::Plain,
            SpanStyle::KeyEmphasis,
            SpanStyle::Plain,
            SpanStyle::KeyEmphasis,
        ]
    );

    assert_eq!(f.body.len(), 2);
    assert_eq!(f.body[0].content, "Value: ");
    assert_eq!(f.body[0].style, SpanStyle::Plain);
    assert_eq!(f.body[1].content, "42");
    assert_eq!(f.body[1].style, SpanStyle::ValueHighlight);
}

#[test]
fn render_is_deterministic() {
    let mut a = App::new();
    a.increment();
    let area = ScreenArea { width: 30, height: 10 };
    let f1 = a.render(area);
    let f2 = a.render(area);
    assert_eq!(f1, f2);
}

#[test]
fn render_tolerates_zero_size_area() {
    let a = App::new();
    let f = a.render(ScreenArea { width: 0, height: 0 });
    assert_eq!(f.area, ScreenArea { width: 0, height: 0 });
    assert_eq!(f.body[1].content, "0");
}
