use kopuz::radio_page::{listed_stations, Debounce, PinState, StationRow};

#[test]
fn a_click_moves_the_pin_at_once() {
    let mut pins = PinState::new();
    assert!(!pins.toggle("a"));
    assert!(pins.contains("a"));
    assert!(pins.toggle("a"));
    assert!(!pins.contains("a"));
}

#[test]
fn a_refused_pin_is_put_back() {
    let mut pins = PinState::new();
    pins.replace(vec!["a".to_string(), "b".to_string()]);
    let was = pins.toggle("a");
    pins.settle("a", was, false);
    assert!(pins.contains("a") && pins.contains("b"));
    assert_eq!(pins.generation, 0);
    let was = pins.toggle("c");
    pins.settle("c", was, false);
    assert!(!pins.contains("c"));
}

#[test]
fn an_accepted_pin_bumps_the_generation() {
    let mut pins = PinState::new();
    let was = pins.toggle("x");
    pins.settle("x", was, true);
    assert!(pins.contains("x"));
    assert_eq!(pins.generation, 1);
}

fn row(id: &str, name: &str, pinned: bool) -> StationRow {
    StationRow {
        id: id.to_string(),
        name: name.to_string(),
        description: String::new(),
        stream_names: Vec::new(),
        tags: vec!["rock".to_string()],
        pinned,
    }
}

#[test]
fn only_matching_pinned_stations_are_listed() {
    let rows = vec![row("a", "Jazz FM", true), row("b", "Jazz Two", false), row("c", "Metal", true)];
    assert_eq!(listed_stations(&rows, ""), vec![0, 2]);
    assert_eq!(listed_stations(&rows, "jazz"), vec![0]);
    assert_eq!(listed_stations(&rows, "rock"), vec![0, 2]);
    assert_eq!(listed_stations(&rows, "JaZZ"), vec![0]);
    assert_eq!(listed_stations(&rows, "ROCK"), vec![0, 2]);
}

#[test]
fn only_the_latest_keystroke_applies() {
    let mut d = Debounce::new();
    let first = d.bump();
    let second = d.bump();
    assert!(!d.is_latest(first));
    assert!(d.is_latest(second));
}
