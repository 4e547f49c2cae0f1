use drogue_wasm::input::InputPin;
use drogue_wasm::output::OutputPin;
use drogue_wasm::output::PinError;
use drogue_wasm::output::RenderRule;
use drogue_wasm::visual::LedColor;

#[test]
fn input_pin_starts_high() {
    let p = InputPin::new();
    assert!(p.get_value());
}

#[test]
fn input_level_is_initial_xor_event_parity() {
    for n in 0..8usize {
        let mut p = InputPin::new();
        p.fire_events(n);
        assert_eq!(p.get_value(), true != (n % 2 == 1));
    }
}

#[test]
fn click_source_toggles_and_resolves_pending_wait() {
    let mut p = InputPin::new();
    assert!(p.get_value());
    p.wait();
    assert_eq!(p.poll_edge(), None);
    let woke = p.on_event();
    assert!(woke);
    assert!(!p.get_value());
    assert_eq!(p.poll_edge(), Some(()));
    let woke_again = p.on_event();
    assert!(!woke_again);
    assert!(p.get_value());
}

#[test]
fn edge_wait_ignores_toggles_before_reset() {
    let mut p = InputPin::new();
    p.on_event();
    p.wait();
    assert_eq!(p.poll_edge(), None);
    p.on_event();
    assert_eq!(p.poll_edge(), Some(()));
}

#[test]
fn output_pin_starts_low_and_unconfigured() {
    let mut p = OutputPin::new();
    assert_eq!(p.set_value(true), Err(PinError::NotConfigured));
}

#[test]
fn output_pin_rejects_second_configuration() {
    let mut p = OutputPin::new();
    let first = p.configure("led".to_string(), RenderRule::Text);
    assert_eq!(first, Ok("OFF".to_string()));
    let second = p.configure("led".to_string(), RenderRule::Indicator(LedColor::Red));
    assert_eq!(second, Err(PinError::AlreadyConfigured));
    assert_eq!(p.set_value(true), Ok("ON".to_string()));
}

#[test]
fn output_writes_are_distinct_and_idempotent() {
    let mut p = OutputPin::new();
    p.configure("led".to_string(), RenderRule::Indicator(LedColor::Blue))
        .unwrap();
    let on_first = p.set_value(true).unwrap();
    let off = p.set_value(false).unwrap();
    let on_second = p.set_value(true).unwrap();
    assert_ne!(on_first, off);
    assert_eq!(on_first, on_second);
    let off_second = p.set_value(false).unwrap();
    assert_eq!(off, off_second);
}

#[test]
fn green_indicator_end_to_end() {
    let mut p = OutputPin::new();
    let initial = p
        .configure("led".to_string(), RenderRule::Indicator(LedColor::Green))
        .unwrap();
    let expected_off =
        r#"<svg height="50" width="50"><circle cx="25" cy="25" r="10" fill="darkgreen" /></svg>"#;
    let expected_on = r#"<svg height="50" width="50"><circle cx="25" cy="25" r="10" fill="lightgreen" stroke-width="3" stroke="darkgreen"/></svg>"#;
    assert_eq!(initial, expected_off);
    assert_eq!(p.set_value(false).unwrap(), expected_off);
    assert_eq!(p.set_value(true).unwrap(), expected_on);
}

#[test]
fn text_rule_renders_on_and_off_literals() {
    let mut p = OutputPin::new();
    let initial = p.configure("state".to_string(), RenderRule::Text).unwrap();
    assert_eq!(initial, "OFF");
    assert_eq!(p.set_value(true).unwrap(), "ON");
    assert_eq!(p.set_value(false).unwrap(), "OFF");
}
