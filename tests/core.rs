use ime_hint::badge::{BadgeMachine, Transition};
use ime_hint::geometry::{
    badge_position, compute_geometry, move_window_to_fixed, DisplayBounds, DisplayMode, Position,
    Size, WindowConfig,
};
use ime_hint::ime::{current_state, ImeState, SourceReport};
use ime_hint::mock::{mock_round, MockState};
use ime_hint::poller::{Monitor, PollState, IDLE_THRESHOLD_MS};
use ime_hint::presenter::{
    apply_display_mode, emit_badge, on_transition, parse_display_mode, set_display_mode,
    set_window_size, Settings,
};

fn hd() -> DisplayBounds {
    DisplayBounds { width: 1920, height: 1080 }
}

#[test]
fn bar_bottom_example() {
    let g = compute_geometry(hd(), DisplayMode::BarBottom, WindowConfig::new());
    assert_eq!(g.size, Size { width: 1920, height: 10 });
    assert_eq!(g.position, Some(Position { x: 0, y: 1070 }));
}

#[test]
fn bar_modes_on_hd() {
    let c = WindowConfig::new();
    let r = compute_geometry(hd(), DisplayMode::BarRight, c);
    assert_eq!(r.size, Size { width: 10, height: 1080 });
    assert_eq!(r.position, Some(Position { x: 1910, y: 0 }));
    let l = compute_geometry(hd(), DisplayMode::BarLeft, c);
    assert_eq!(l.size, Size { width: 10, height: 1080 });
    assert_eq!(l.position, Some(Position { x: 0, y: 0 }));
    let t = compute_geometry(hd(), DisplayMode::BarTop, c);
    assert_eq!(t.size, Size { width: 1920, height: 10 });
    assert_eq!(t.position, Some(Position { x: 0, y: 0 }));
}

#[test]
fn bar_positions_clamp_on_tiny_display() {
    let tiny = DisplayBounds { width: 4, height: 3 };
    let c = WindowConfig::new();
    let r = compute_geometry(tiny, DisplayMode::BarRight, c);
    assert_eq!(r.position, Some(Position { x: 0, y: 0 }));
    let b = compute_geometry(tiny, DisplayMode::BarBottom, c);
    assert_eq!(b.position, Some(Position { x: 0, y: 0 }));
    let exact = DisplayBounds { width: 10, height: 10 };
    assert_eq!(compute_geometry(exact, DisplayMode::BarRight, c).position, Some(Position { x: 0, y: 0 }));
    assert_eq!(compute_geometry(exact, DisplayMode::BarBottom, c).position, Some(Position { x: 0, y: 0 }));
}

#[test]
fn geometry_is_repeatable() {
    let c = WindowConfig { width: 300, height: 90 };
    for m in [DisplayMode::Badge, DisplayMode::BarRight, DisplayMode::BarLeft, DisplayMode::BarTop, DisplayMode::BarBottom] {
        assert_eq!(compute_geometry(hd(), m, c), compute_geometry(hd(), m, c));
    }
}

#[test]
fn badge_mode_sizes_only() {
    let g = compute_geometry(hd(), DisplayMode::Badge, WindowConfig { width: 300, height: 90 });
    assert_eq!(g.size, Size { width: 300, height: 90 });
    assert_eq!(g.position, None);
}

#[test]
fn badge_anchor_example() {
    let c = WindowConfig::new();
    assert_eq!(move_window_to_fixed(hd(), c), Position { x: 1636, y: 24 });
    assert_eq!(badge_position(hd(), c, None), Position { x: 1636, y: 24 });
}

#[test]
fn badge_anchor_clamps_and_persisted_wins() {
    let narrow = DisplayBounds { width: 200, height: 100 };
    assert_eq!(move_window_to_fixed(narrow, WindowConfig::new()), Position { x: 0, y: 24 });
    let saved = Position { x: 5, y: 7 };
    assert_eq!(badge_position(hd(), WindowConfig::new(), Some(saved)), saved);
}

#[test]
fn probe_sequence_example() {
    let mut b = BadgeMachine::new();
    assert_eq!(b.on_probe_result(ImeState::Unknown), Some(Transition { state: ImeState::Unknown }));
    assert_eq!(b.on_probe_result(ImeState::On), Some(Transition { state: ImeState::On }));
    assert_eq!(b.on_probe_result(ImeState::On), None);
    assert_eq!(b.on_probe_result(ImeState::Off), Some(Transition { state: ImeState::Off }));
    let mut c = BadgeMachine::new();
    let out = c.run_probes(&vec![ImeState::Unknown, ImeState::On, ImeState::On, ImeState::Off]);
    assert_eq!(out, vec![ImeState::Unknown, ImeState::On, ImeState::Off]);
    assert_eq!(c.last, Some(ImeState::Off));
}

#[test]
fn repeated_probes_emit_once() {
    let mut b = BadgeMachine::new();
    let out = b.run_probes(&vec![ImeState::On, ImeState::On, ImeState::On]);
    assert_eq!(out, vec![ImeState::On]);
    let again = b.run_probes(&vec![ImeState::On, ImeState::On]);
    assert!(again.is_empty());
    assert!(b.run_probes(&vec![]).is_empty());
}

#[test]
fn resume_after_idle_forces_transition() {
    let mut m = Monitor::new();
    let first = m.tick(0);
    assert!(first.probe && !first.reset_badge);
    assert_eq!(first.delay_ms, 300);
    assert!(m.badge.on_probe_result(ImeState::On).is_some());
    let idle = m.tick(60_000);
    assert!(!idle.probe && !idle.reset_badge);
    assert_eq!(idle.delay_ms, 1500);
    let still_idle = m.tick(70_000);
    assert!(!still_idle.probe && !still_idle.reset_badge);
    let back = m.tick(100);
    assert!(back.probe && back.reset_badge);
    assert_eq!(back.delay_ms, 300);
    assert_eq!(m.badge.on_probe_result(ImeState::On), Some(Transition { state: ImeState::On }));
    assert_eq!(m.badge.on_probe_result(ImeState::On), None);
}

#[test]
fn idle_threshold_is_inclusive() {
    let mut p = PollState::new();
    let at = p.tick(IDLE_THRESHOLD_MS);
    assert!(p.idle_mode);
    assert!(!at.probe);
    assert_eq!(at.delay_ms, 1500);
    let below = p.tick(IDLE_THRESHOLD_MS - 1);
    assert!(!p.idle_mode);
    assert!(below.probe && below.reset_badge);
}

#[test]
fn classification_of_reports() {
    let none = SourceReport { has_current: false, current_is_ascii_source: Some(true), current_ascii_flag: Some(true) };
    assert_eq!(current_state(&none), ImeState::Unknown);
    let same = SourceReport { has_current: true, current_is_ascii_source: Some(true), current_ascii_flag: None };
    assert_eq!(current_state(&same), ImeState::Off);
    let other = SourceReport { has_current: true, current_is_ascii_source: Some(false), current_ascii_flag: Some(true) };
    assert_eq!(current_state(&other), ImeState::On);
    let flag_on = SourceReport { has_current: true, current_is_ascii_source: None, current_ascii_flag: Some(true) };
    assert_eq!(current_state(&flag_on), ImeState::Off);
    let flag_off = SourceReport { has_current: true, current_is_ascii_source: None, current_ascii_flag: Some(false) };
    assert_eq!(current_state(&flag_off), ImeState::On);
    let no_flag = SourceReport { has_current: true, current_is_ascii_source: None, current_ascii_flag: None };
    assert_eq!(current_state(&no_flag), ImeState::Unknown);
}

#[test]
fn state_codes() {
    assert_eq!(ImeState::On.code(), 1);
    assert_eq!(ImeState::Off.code(), 0);
    assert_eq!(ImeState::Unknown.code(), 2);
}

#[test]
fn display_mode_names() {
    assert_eq!(parse_display_mode("bar", "left"), DisplayMode::BarLeft);
    assert_eq!(parse_display_mode("bar", "right"), DisplayMode::BarRight);
    assert_eq!(parse_display_mode("bar", "top"), DisplayMode::BarTop);
    assert_eq!(parse_display_mode("bar", "bottom"), DisplayMode::BarBottom);
    assert_eq!(parse_display_mode("bar", "middle"), DisplayMode::BarRight);
    assert_eq!(parse_display_mode("badge", "left"), DisplayMode::Badge);
}

#[test]
fn settings_commands() {
    let mut s = Settings::new();
    assert_eq!(set_window_size(&mut s, 400, 150), Size { width: 400, height: 150 });
    assert_eq!(s.window, WindowConfig { width: 400, height: 150 });
    let plan = set_display_mode(&mut s, "bar", "top", Some(hd()));
    assert_eq!(s.mode, DisplayMode::BarTop);
    assert_eq!(plan.resize, Some(Size { width: 1920, height: 10 }));
    assert_eq!(plan.position, Some(Position { x: 0, y: 0 }));
    let none = set_display_mode(&mut s, "badge", "", Some(hd()));
    assert_eq!(s.mode, DisplayMode::Badge);
    assert_eq!(none.resize, None);
    assert_eq!(none.position, None);
}

#[test]
fn bar_mode_without_bounds_changes_nothing() {
    let p = apply_display_mode(DisplayMode::BarRight, None, WindowConfig::new());
    assert_eq!(p.resize, None);
    assert_eq!(p.position, None);
}

#[test]
fn badge_notification_plans() {
    let mut s = Settings::new();
    let (ev, plan) = emit_badge(&s, true, ImeState::On, "idle", Some(hd()));
    assert!(ev.visible);
    assert_eq!(ev.state, ImeState::On);
    assert_eq!(ev.reason, "idle");
    assert!(plan.show);
    assert_eq!(plan.resize, Some(Size { width: 260, height: 120 }));
    assert_eq!(plan.position, Some(Position { x: 1636, y: 24 }));
    s.mark_position_set();
    let (_, kept) = emit_badge(&s, true, ImeState::On, "idle", Some(hd()));
    assert_eq!(kept.position, None);
    let (hidden, hplan) = emit_badge(&Settings::new(), false, ImeState::Off, "input", Some(hd()));
    assert!(!hidden.visible);
    assert_eq!(hplan.position, None);
}

#[test]
fn transition_notification() {
    let mut s = Settings::new();
    set_window_size(&mut s, 200, 80);
    let (ev, plan) = on_transition(&s, Transition { state: ImeState::Off }, None);
    assert!(ev.visible);
    assert_eq!(ev.state, ImeState::Off);
    assert_eq!(ev.reason, "ime");
    assert_eq!(plan.resize, Some(Size { width: 200, height: 80 }));
    assert_eq!(plan.position, None);
    set_display_mode(&mut s, "bar", "bottom", None);
    let (_, bar) = on_transition(&s, Transition { state: ImeState::On }, Some(hd()));
    assert_eq!(bar.resize, Some(Size { width: 1920, height: 10 }));
    assert_eq!(bar.position, Some(Position { x: 0, y: 1070 }));
}

#[test]
fn mock_generator() {
    let mut m = MockState::new();
    assert!(!m.running);
    assert!(m.start());
    assert!(!m.start());
    m.stop();
    assert!(!m.running);
    assert_eq!(mock_round(true), (ImeState::On, false));
    assert_eq!(mock_round(false), (ImeState::Off, true));
}

#[test]
fn unknown_bar_side_is_stored_as_right_but_not_applied() {
    let mut s = Settings::new();
    let plan = set_display_mode(&mut s, "bar", "middle", Some(hd()));
    assert_eq!(s.mode, DisplayMode::BarRight);
    assert_eq!(plan.resize, None);
    assert_eq!(plan.position, None);
    let right = set_display_mode(&mut s, "bar", "right", Some(hd()));
    assert_eq!(s.mode, DisplayMode::BarRight);
    assert_eq!(right.resize, Some(Size { width: 10, height: 1080 }));
    assert_eq!(right.position, Some(Position { x: 1910, y: 0 }));
}
