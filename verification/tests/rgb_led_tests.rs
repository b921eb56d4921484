use robot_core::rgb_led::{set_light_from_range, DiscoMode, LightStep, SixColor, BAND_WIDTH_CM};
use robot_core::schedule::Delay;

#[test]
fn light_runs_again_after_a_tenth_of_a_second() {
    assert_eq!(
        set_light_from_range(0),
        LightStep { color: SixColor::Red, again_after: Delay::Millis(100) }
    );
}

#[test]
fn each_band_has_its_color() {
    assert_eq!(BAND_WIDTH_CM, 20);
    assert_eq!(set_light_from_range(0).color, SixColor::Red);
    assert_eq!(set_light_from_range(19).color, SixColor::Red);
    assert_eq!(set_light_from_range(20).color, SixColor::Yellow);
    assert_eq!(set_light_from_range(39).color, SixColor::Yellow);
    assert_eq!(set_light_from_range(40).color, SixColor::Green);
    assert_eq!(set_light_from_range(59).color, SixColor::Green);
    assert_eq!(set_light_from_range(60).color, SixColor::Cyan);
    assert_eq!(set_light_from_range(79).color, SixColor::Cyan);
    assert_eq!(set_light_from_range(80).color, SixColor::Blue);
    assert_eq!(set_light_from_range(99).color, SixColor::Blue);
}

#[test]
fn a_metre_and_more_is_magenta() {
    assert_eq!(set_light_from_range(100).color, SixColor::Magenta);
    assert_eq!(set_light_from_range(17_150).color, SixColor::Magenta);
    assert_eq!(set_light_from_range(u32::MAX).color, SixColor::Magenta);
}

#[test]
fn colors_light_their_channels() {
    assert_eq!(SixColor::Red.channels(), (true, false, false));
    assert_eq!(SixColor::Yellow.channels(), (true, true, false));
    assert_eq!(SixColor::Green.channels(), (false, true, false));
    assert_eq!(SixColor::Cyan.channels(), (false, true, true));
    assert_eq!(SixColor::Blue.channels(), (false, false, true));
    assert_eq!(SixColor::Magenta.channels(), (true, false, true));
}

#[test]
fn disco_steps_through_the_six_colors() {
    let mut disco = DiscoMode::new();
    let colors: Vec<SixColor> = (0..6).map(|_| disco.step().color).collect();
    assert_eq!(
        colors,
        vec![
            SixColor::Red,
            SixColor::Yellow,
            SixColor::Green,
            SixColor::Cyan,
            SixColor::Blue,
            SixColor::Magenta,
        ]
    );
}

#[test]
fn disco_starts_over_after_magenta() {
    let mut disco = DiscoMode::new();
    let first: Vec<SixColor> = (0..6).map(|_| disco.step().color).collect();
    let second: Vec<SixColor> = (0..6).map(|_| disco.step().color).collect();
    assert_eq!(first, second);
    assert_eq!(disco.step().color, SixColor::Red);
}

#[test]
fn disco_runs_again_after_a_second() {
    let mut disco = DiscoMode::new();
    assert_eq!(disco.step().again_after, Delay::Secs(1));
}
