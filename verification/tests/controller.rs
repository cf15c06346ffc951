use termpage::controller::{Controller, Directive, InputEvent, ViewportLimits};

fn limits() -> ViewportLimits {
    ViewportLimits::new(80, 24)
}

fn verticals_of(events: Vec<InputEvent>) -> Vec<u32> {
    termpage::controller::replay(limits(), &events, 100).iter().map(|p| p.vertical).collect()
}

#[test]
fn fresh_controller_starts_at_origin_without_frame() {
    let c = Controller::new(limits());
    assert_eq!(c.scroll.horizontal, 0);
    assert_eq!(c.scroll.vertical, 0);
    assert!(!c.has_frame);
    assert_eq!(c.limits.columns, 80);
    assert_eq!(c.limits.rows, 24);
}

#[test]
fn first_frame_renders_once_then_only_repaints() {
    let mut c = Controller::new(limits());
    assert_eq!(c.first_frame(), Directive::Render);
    assert!(c.has_frame);
    assert_eq!(c.scroll.vertical, 0);
    assert_eq!(c.first_frame(), Directive::PaintOnly);
}

#[test]
fn zero_input_events_give_exactly_one_render() {
    // The forced first frame: one render before the loop ever waits for
    // input, at the starting position.
    let renders = termpage::controller::replay(limits(), &vec![], 100);
    assert_eq!(renders.len(), 1);
    assert_eq!(renders[0].horizontal, 0);
    assert_eq!(renders[0].vertical, 0);
}

#[test]
fn plain_events_never_rerender() {
    // Only the forced first frame renders; plain events repaint the cache.
    let renders = termpage::controller::replay(
        limits(),
        &vec![InputEvent::Other, InputEvent::Other, InputEvent::Other],
        100,
    );
    assert_eq!(renders.len(), 1);
}

#[test]
fn escape_as_first_input_allows_at_most_one_render() {
    // Only the forced first frame; nothing after the escape key.
    let renders = termpage::controller::replay(
        limits(),
        &vec![InputEvent::Escape, InputEvent::Down, InputEvent::Down],
        100,
    );
    assert_eq!(renders.len(), 1);
    assert_eq!(renders[0].vertical, 0);
}

#[test]
fn down_then_up_twice_clamps_at_zero() {
    // After the forced first frame at (0,0): Down -> (0,100) with one
    // render; Up twice -> (0,0) clamped, two more renders, never a negative
    // offset.
    let renders = termpage::controller::replay(
        limits(),
        &vec![InputEvent::Down, InputEvent::Up, InputEvent::Up],
        100,
    );
    assert_eq!(renders.len(), 4);
    assert_eq!((renders[0].horizontal, renders[0].vertical), (0, 0));
    assert_eq!((renders[1].horizontal, renders[1].vertical), (0, 100));
    assert_eq!((renders[2].horizontal, renders[2].vertical), (0, 0));
    assert_eq!((renders[3].horizontal, renders[3].vertical), (0, 0));
}

#[test]
fn down_run_adds_exactly_one_step_per_event() {
    let verticals = verticals_of(vec![InputEvent::Down, InputEvent::Down, InputEvent::Down]);
    assert_eq!(verticals, vec![0, 100, 200, 300]);
}

#[test]
fn events_after_escape_are_never_processed() {
    let verticals = verticals_of(vec![
        InputEvent::Down,
        InputEvent::Down,
        InputEvent::Up,
        InputEvent::Other,
        InputEvent::Escape,
        InputEvent::Down,
    ]);
    assert_eq!(verticals, vec![0, 100, 200, 100]);
}

#[test]
fn escape_leaves_state_untouched() {
    let mut c = Controller::new(limits());
    let d = c.handle_event(InputEvent::Down, 100);
    assert_eq!(d, Directive::Render);
    let d = c.handle_event(InputEvent::Escape, 100);
    assert_eq!(d, Directive::Quit);
    assert_eq!(c.scroll.vertical, 100);
    assert!(c.has_frame);
}

#[test]
fn plain_event_with_cached_frame_only_paints() {
    let mut c = Controller::new(limits());
    // The loop's forced-render rule: a plain event renders if and only if
    // no frame was ever cached.
    let d = c.handle_event(InputEvent::Other, 100);
    assert_eq!(d, Directive::Render);
    let d = c.handle_event(InputEvent::Other, 100);
    assert_eq!(d, Directive::PaintOnly);
    assert_eq!(c.scroll.vertical, 0);
}

#[test]
fn up_saturates_at_zero_for_any_run() {
    let verticals = verticals_of(vec![
        InputEvent::Up,
        InputEvent::Up,
        InputEvent::Down,
        InputEvent::Up,
        InputEvent::Up,
    ]);
    assert_eq!(verticals, vec![0, 0, 0, 100, 0, 0]);
}
