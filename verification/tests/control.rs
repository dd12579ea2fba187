use proximity_display::controller::{Config, ControllerState, CycleActions};
use proximity_display::display::{
    select_display, stderr_indicates_error, Display, DisplayPowerMode,
};
use proximity_display::error::Error;
use proximity_display::presence::State;

fn config() -> Config {
    Config {
        proximity_low: 50,
        proximity_high: 150,
        proximity_hold: 20,
        ambient_light_range: Some(0..100),
        brightness_range: Some(10..100),
    }
}

#[test]
fn cycle_applies_power_and_brightness_on_change() {
    let mut s = ControllerState::new();
    assert_eq!(s.state, State::Cleared);

    let actions = s.cycle(&config(), 160, 50, 0);
    assert_eq!(actions.power, Some(DisplayPowerMode::On));
    assert_eq!(actions.set_brightness, Some(55));
    assert_eq!(s.state, State::Detected);
    assert_eq!(s.brightness, 55);
    assert_eq!(s.count, 1);
}

#[test]
fn cycle_twice_with_unchanged_readings_acts_once() {
    let mut s = ControllerState::new();

    let first = s.cycle(&config(), 160, 50, 0);
    assert_eq!(first.power, Some(DisplayPowerMode::On));
    assert_eq!(first.set_brightness, Some(55));

    let second = s.cycle(&config(), 160, 50, 0);
    assert_eq!(
        second,
        CycleActions { power: None, set_brightness: None }
    );
    assert_eq!(s.count, 2);
}

#[test]
fn cycle_full_presence_sequence() {
    let mut s = ControllerState::new();

    // Presence asserted.
    let a = s.cycle(&config(), 200, 0, 0);
    assert_eq!(a.power, Some(DisplayPowerMode::On));

    // Weak reading starts the hold window; no power action yet.
    let a = s.cycle(&config(), 10, 0, 5);
    assert_eq!(a.power, None);
    assert_eq!(s.state, State::ClearedTransitioning(5));

    // Still inside the hold window.
    let a = s.cycle(&config(), 10, 0, 24);
    assert_eq!(a.power, None);

    // Re-detection mid-window restores presence instantly.
    let a = s.cycle(&config(), 200, 0, 24);
    assert_eq!(a.power, Some(DisplayPowerMode::On));

    // Weak again, and this time the window runs out.
    let a = s.cycle(&config(), 10, 0, 30);
    assert_eq!(a.power, None);
    let a = s.cycle(&config(), 10, 0, 51);
    assert_eq!(a.power, Some(DisplayPowerMode::Off));
    assert_eq!(s.state, State::Cleared);
}

#[test]
fn cycle_without_brightness_ranges_never_writes_brightness() {
    let mut s = ControllerState::new();
    let c = Config {
        proximity_low: 50,
        proximity_high: 150,
        proximity_hold: 20,
        ambient_light_range: None,
        brightness_range: Some(10..100),
    };
    let actions = s.cycle(&c, 160, 50, 0);
    assert_eq!(actions.set_brightness, None);
    assert_eq!(s.brightness, 0);
}

#[test]
fn cycle_brightness_written_only_on_change() {
    let mut s = ControllerState::new();
    let a = s.cycle(&config(), 0, 50, 0);
    assert_eq!(a.set_brightness, Some(55));
    let a = s.cycle(&config(), 0, 50, 1);
    assert_eq!(a.set_brightness, None);
    let a = s.cycle(&config(), 0, 60, 2);
    assert_eq!(a.set_brightness, Some(64));
}

fn display(name: &str) -> Display {
    Display { name: name.to_string(), brightness: 100, max_brightness: 255 }
}

#[test]
fn select_display_by_name_ignores_ascii_case() {
    let displays = vec![display("eDP-1"), display("HDMI-A-1")];
    let wanted = "hdmi-a-1".to_string();
    let found = select_display(displays, Some(&wanted)).expect("display found");
    assert_eq!(found.name, "HDMI-A-1");
}

#[test]
fn select_display_takes_the_first_match() {
    let displays = vec![display("panel"), display("PANEL")];
    let wanted = "Panel".to_string();
    let found = select_display(displays, Some(&wanted)).expect("display found");
    assert_eq!(found.name, "panel");
}

#[test]
fn select_display_unknown_name_finds_nothing() {
    let displays = vec![display("eDP-1")];
    let wanted = "HDMI-A-1".to_string();
    assert!(select_display(displays, Some(&wanted)).is_none());

    // Names differing beyond case do not match.
    let displays = vec![display("eDP-11")];
    let wanted = "edp-1".to_string();
    assert!(select_display(displays, Some(&wanted)).is_none());
}

#[test]
fn select_display_without_name_takes_the_first() {
    let displays = vec![display("first"), display("second")];
    let found = select_display(displays, None).expect("display found");
    assert_eq!(found.name, "first");

    assert!(select_display(Vec::new(), None).is_none());
}

#[test]
fn set_brightness_checks_the_device_range() {
    let mut d = display("eDP-1");
    assert!(d.set_brightness(255).is_ok());
    assert_eq!(d.brightness, 255);

    match d.set_brightness(256) {
        Err(Error::BrightnessOutOfRange { value, max }) => {
            assert_eq!(value, 256);
            assert_eq!(max, 255);
        }
        other => panic!("expected BrightnessOutOfRange, got {other:?}"),
    }
    assert_eq!(d.brightness, 255);
}

#[test]
fn stderr_error_prefix_protocol() {
    assert!(stderr_indicates_error(b"ERROR: output not found"));
    assert!(stderr_indicates_error(b"ERROR"));
    assert!(!stderr_indicates_error(b""));
    assert!(!stderr_indicates_error(b"ERRO"));
    assert!(!stderr_indicates_error(b"warning: something"));
    assert!(!stderr_indicates_error(b"error: lower case"));
}
