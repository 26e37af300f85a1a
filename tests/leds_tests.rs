use owb_core::leds::{frame, LEDCommand, LedModule, Rgb, LED_COUNT};

#[test]
fn on_without_colour_shows_white() {
    let mut m = LedModule::new();
    assert!(!m.is_on());
    assert_eq!(m.ex_command(LEDCommand::On), Some(Rgb { r: 255, g: 255, b: 255 }));
    assert!(m.is_on());
}

#[test]
fn colour_while_off_is_remembered() {
    let mut m = LedModule::new();
    assert_eq!(m.ex_command(LEDCommand::SC { r: 1, g: 2, b: 3 }), None);
    assert_eq!(m.last_color(), Some(Rgb { r: 1, g: 2, b: 3 }));
    assert_eq!(m.ex_command(LEDCommand::On), Some(Rgb { r: 1, g: 2, b: 3 }));
    assert_eq!(m.ex_command(LEDCommand::SC { r: 9, g: 8, b: 7 }), Some(Rgb { r: 9, g: 8, b: 7 }));
    assert_eq!(m.ex_command(LEDCommand::Off), Some(Rgb { r: 0, g: 0, b: 0 }));
    assert!(!m.is_on());
    assert_eq!(m.last_color(), Some(Rgb { r: 9, g: 8, b: 7 }));
}

#[test]
fn frame_fills_the_chain() {
    let c = Rgb { r: 4, g: 5, b: 6 };
    let f = frame(c);
    assert_eq!(f.len(), LED_COUNT);
    assert_eq!(LED_COUNT, 2);
    assert!(f.iter().all(|&x| x == c));
}
