use air_monitor::led::{Color, LedCommand, LedEvent, LedProcessor};
use std::time::Duration;

#[test]
fn colors_are_inverted() {
    assert_eq!(Color::red(), Color { r: 0, g: 255, b: 255 });
    assert_eq!(Color::green(), Color { r: 255, g: 0, b: 255 });
    assert_eq!(Color::blue(), Color { r: 255, g: 255, b: 0 });
    assert_eq!(Color::white(), Color { r: 0, g: 0, b: 0 });
    assert_eq!(Color::off(), Color { r: 255, g: 255, b: 255 });
}

#[test]
fn starts_off_and_waits_without_limit() {
    let p = LedProcessor::new();
    assert_eq!(p.render(), Color::off());
    assert_eq!(p.wait_limit(), None);
}

#[test]
fn continuous_shows_color() {
    let mut p = LedProcessor::new();
    assert!(p.handle(LedEvent::Command(LedCommand::Continuous(Color::green()))));
    assert_eq!(p.render(), Color::green());
    assert_eq!(p.wait_limit(), None);
    assert!(p.handle(LedEvent::Command(LedCommand::Off)));
    assert_eq!(p.render(), Color::off());
}

#[test]
fn blinking_toggles_on_each_timeout() {
    let mut p = LedProcessor::new();
    let period = Duration::from_millis(100);
    p.handle(LedEvent::Command(LedCommand::Blinking(Color::blue(), period)));
    assert_eq!(p.wait_limit(), Some(period));
    assert_eq!(p.render(), Color::blue());
    let mut toggles = 0;
    let mut last = p.render();
    for _ in 0..2 {
        assert!(p.handle(LedEvent::Timeout));
        if p.render() != last {
            toggles += 1;
        }
        last = p.render();
    }
    assert!(toggles >= 2);
    assert_eq!(p.render(), Color::blue());
}

#[test]
fn command_while_blinking_resets_phase() {
    let mut p = LedProcessor::new();
    p.handle(LedEvent::Command(LedCommand::Blinking(Color::red(), Duration::from_millis(100))));
    p.handle(LedEvent::Timeout);
    assert_eq!(p.render(), Color::off());
    p.handle(LedEvent::Command(LedCommand::Blinking(Color::white(), Duration::from_millis(50))));
    assert_eq!(p.render(), Color::white());
    p.handle(LedEvent::Timeout);
    p.handle(LedEvent::Command(LedCommand::Continuous(Color::green())));
    assert_eq!(p.render(), Color::green());
    assert_eq!(p.wait_limit(), None);
}

#[test]
fn timeout_outside_blinking_changes_nothing() {
    let mut p = LedProcessor::new();
    p.handle(LedEvent::Command(LedCommand::Continuous(Color::red())));
    p.handle(LedEvent::Timeout);
    assert_eq!(p.render(), Color::red());
}

#[test]
fn closed_queue_stops() {
    let mut p = LedProcessor::new();
    assert!(!p.handle(LedEvent::Closed));
}
