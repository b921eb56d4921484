use robot_core::blinky::{heartbeat, Beat};
use robot_core::schedule::Delay;

#[test]
fn first_beat_drives_the_light_low() {
    let mut toggle = false;
    let beat = heartbeat(&mut toggle);
    assert_eq!(beat, Beat { led_high: false, again_after: Delay::Secs(1) });
    assert!(toggle);
}

#[test]
fn second_beat_drives_the_light_high() {
    let mut toggle = true;
    let beat = heartbeat(&mut toggle);
    assert_eq!(beat, Beat { led_high: true, again_after: Delay::Secs(1) });
    assert!(!toggle);
}

#[test]
fn beats_alternate() {
    let mut toggle = false;
    let levels: Vec<bool> = (0..6).map(|_| heartbeat(&mut toggle).led_high).collect();
    assert_eq!(levels, vec![false, true, false, true, false, true]);
    assert!(!toggle);
}
