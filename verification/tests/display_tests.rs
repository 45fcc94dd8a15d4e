use hexcell::display::{fade_progress, Display, Led, LED_COUNT};

#[test]
fn scale_by_half_halves_each_channel() {
    let led = Led { r: 200, g: 100, b: 3 };
    assert_eq!(led.scale(128), Led { r: 100, g: 50, b: 1 });
}

#[test]
fn scale_by_full_factor_falls_one_step_short() {
    let led = Led { r: 255, g: 1, b: 0 };
    assert_eq!(led.scale(255), Led { r: 254, g: 0, b: 0 });
}

#[test]
fn scale_by_zero_is_dark() {
    let led = Led { r: 255, g: 7, b: 90 };
    assert_eq!(led.scale(0), Led { r: 0, g: 0, b: 0 });
}

#[test]
fn fade_progress_is_elapsed_times_256_over_duration() {
    assert_eq!(fade_progress(0, 1_000_000), 0);
    assert_eq!(fade_progress(500_000, 1_000_000), 128);
    assert_eq!(fade_progress(999_999, 1_000_000), 255);
    assert_eq!(fade_progress(1_000_000, 1_000_000), 255);
    assert_eq!(fade_progress(5, 0), 255);
}

#[test]
fn fade_progress_holds_for_long_durations() {
    // 2^31 out of 2^32 - 1 microseconds is just under half way.
    assert_eq!(fade_progress(0x8000_0000, u32::MAX), 128);
    assert_eq!(fade_progress(0x4000_0000, u32::MAX), 64);
}

#[test]
fn interpolate_half_way_between_dark_and_red() {
    let mut from = Led { r: 0, g: 0, b: 0 };
    let out = from.interpolate(Led { r: 255, g: 0, b: 0 }, 500_000, 1_000_000);
    assert_eq!(out, Led { r: 127, g: 0, b: 0 });
    assert_eq!(from, Led { r: 0, g: 0, b: 0 });
}

#[test]
fn interpolate_at_start_shows_start_within_one_step() {
    let mut from = Led { r: 200, g: 0, b: 16 };
    let out = from.interpolate(Led { r: 0, g: 255, b: 16 }, 0, 1_000);
    assert_eq!(out, Led { r: 199, g: 0, b: 15 });
}

#[test]
fn interpolate_at_end_shows_target_within_one_step() {
    let mut from = Led { r: 200, g: 0, b: 16 };
    let out = from.interpolate(Led { r: 0, g: 255, b: 16 }, 1_000, 1_000);
    assert_eq!(out, Led { r: 0, g: 254, b: 15 });
    let later = from.interpolate(Led { r: 0, g: 255, b: 16 }, 5_000, 1_000);
    assert_eq!(later, out);
}

#[test]
fn interpolate_never_falls_on_the_way_up() {
    let mut from = Led { r: 100, g: 0, b: 7 };
    let to = Led { r: 101, g: 255, b: 7 };
    let mut last = from.interpolate(to, 0, 10_000);
    let mut elapsed = 0;
    while elapsed <= 10_500 {
        let now = from.interpolate(to, elapsed, 10_000);
        assert!(now.r >= last.r && now.g >= last.g && now.b >= last.b);
        last = now;
        elapsed += 13;
    }
}

#[test]
fn div_and_mul_by_a_number() {
    let led = Led { r: 90, g: 45, b: 7 };
    assert_eq!(led.div(2), Led { r: 45, g: 22, b: 3 });
    assert_eq!(Led { r: 40, g: 2, b: 0 }.mul(3), Led { r: 120, g: 6, b: 0 });
}

#[test]
fn operators_work_channel_by_channel() {
    let a = Led { r: 10, g: 20, b: 30 };
    let b = Led { r: 1, g: 2, b: 3 };
    assert_eq!(a + b, Led { r: 11, g: 22, b: 33 });
    assert_eq!(a - b, Led { r: 9, g: 18, b: 27 });
    assert_eq!(b - a, Led { r: 247, g: 238, b: 229 });
    assert_eq!(a * b, Led { r: 10, g: 40, b: 90 });
    assert_eq!(a / b, Led { r: 10, g: 10, b: 10 });
    assert_eq!(&a + &b, Led { r: 11, g: 22, b: 33 });
    let mut c = a;
    c += b;
    assert_eq!(c, Led { r: 11, g: 22, b: 33 });
    c -= b;
    assert_eq!(c, a);
}

#[test]
fn default_led_is_dark() {
    assert_eq!(Led::default(), Led { r: 0, g: 0, b: 0 });
    assert_eq!(Led::off(), Led::default());
}

#[test]
fn new_display_is_dark() {
    let display = Display::new();
    assert_eq!(display.leds, [Led { r: 0, g: 0, b: 0 }; LED_COUNT]);
}

#[test]
fn set_led_changes_one_led_and_ignores_bad_index() {
    let mut display = Display::new();
    let red = Led { r: 255, g: 0, b: 0 };
    display.set_led(4, red);
    for idx in 0..LED_COUNT {
        let expected = if idx == 4 { red } else { Led::off() };
        assert_eq!(display.leds[idx], expected);
    }
    let before = display.leds;
    display.set_led(LED_COUNT, red);
    display.set_led(usize::MAX, red);
    assert_eq!(display.leds, before);
}

#[test]
fn set_all_and_clear() {
    let mut display = Display::new();
    let blue = Led { r: 0, g: 0, b: 255 };
    display.set_all(blue);
    assert_eq!(display.leds, [blue; LED_COUNT]);
    display.clear();
    assert_eq!(display.leds, [Led::off(); LED_COUNT]);
}
