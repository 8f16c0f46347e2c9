use zoom_sync::clock::{millis_to_next_hour, WallClock};
use zoom_sync::color::{parse_color, parse_hex_color, rgb_to_rgb565, ColorError};
use zoom_sync::config::{
    Config, GeneralConfig, MediaConfig, RefreshConfig, SystemInfoConfig, WeatherConfig,
};
use zoom_sync::media::{
    assemble_animation, delay_centiseconds, encode_pixels, AnimationFrame, MAX_FRAMES,
};

#[test]
fn pixels_become_rgb565_with_alpha() {
    assert_eq!(encode_pixels(&[255, 0, 0]), vec![0xF8, 0x00, 0xFF]);
    assert_eq!(encode_pixels(&[0, 255, 0]), vec![0x07, 0xE0, 0xFF]);
    assert_eq!(encode_pixels(&[0, 0, 255]), vec![0x00, 0x1F, 0xFF]);
    assert_eq!(
        encode_pixels(&[255, 255, 255, 0, 0, 0]),
        vec![0xFF, 0xFF, 0xFF, 0x00, 0x00, 0xFF]
    );
    // channels are scaled, not cut off
    assert_eq!(encode_pixels(&[128, 128, 128]), vec![0x7B, 0xEF, 0xFF]);
    assert_eq!(encode_pixels(&[16, 32, 64]), vec![0x11, 0x07, 0xFF]);
    assert_eq!(encode_pixels(&[7, 3, 7]), vec![0x00, 0x00, 0xFF]);
    assert_eq!(encode_pixels(&[8, 4, 8]), vec![0x08, 0x21, 0xFF]);
}

#[test]
fn bytes_behind_the_last_whole_pixel_are_left_out() {
    assert_eq!(encode_pixels(&[]), Vec::<u8>::new());
    assert_eq!(encode_pixels(&[1, 2]), Vec::<u8>::new());
    assert_eq!(encode_pixels(&[255, 0, 0, 9]), vec![0xF8, 0x00, 0xFF]);
    let many = vec![200u8; 3 * 1000];
    assert_eq!(encode_pixels(&many).len(), 3000);
}

#[test]
fn frame_delays() {
    assert_eq!(delay_centiseconds(100, 1), 10);
    assert_eq!(delay_centiseconds(95, 1), 9);
    assert_eq!(delay_centiseconds(1000, 3), 33);
    assert_eq!(delay_centiseconds(0, 7), 0);
    assert_eq!(delay_centiseconds(655_360, 1), 0);
    assert_eq!(delay_centiseconds(655_370, 1), 1);
}

#[test]
fn animation_layout() {
    let frames = vec![
        AnimationFrame { delay: 10, pixels: vec![1, 2, 3] },
        AnimationFrame { delay: 0x0102, pixels: vec![4, 5, 6, 7] },
    ];
    assert_eq!(
        assemble_animation(&frames),
        Some(vec![0, 2, 0, 10, 1, 2, 1, 2, 3, 4, 5, 6, 7])
    );
    assert_eq!(assemble_animation(&vec![]), Some(vec![0, 0]));
}

#[test]
fn animation_with_too_many_frames() {
    let frame = AnimationFrame { delay: 1, pixels: vec![] };
    let most = vec![frame.clone(); MAX_FRAMES];
    let buffer = assemble_animation(&most).unwrap();
    assert_eq!(buffer.len(), 2 + 2 * MAX_FRAMES);
    assert_eq!(&buffer[0..2], &[0xFF, 0xFF]);
    let more = vec![frame; MAX_FRAMES + 1];
    assert_eq!(assemble_animation(&more), None);
}

#[test]
fn hex_colors() {
    assert_eq!(parse_hex_color("#000000"), Some([0, 0, 0]));
    assert_eq!(parse_hex_color("#ff8000"), Some([255, 128, 0]));
    assert_eq!(parse_hex_color("FF8000"), Some([255, 128, 0]));
    assert_eq!(parse_hex_color("##a1B2c3"), Some([0xA1, 0xB2, 0xC3]));
    assert_eq!(parse_hex_color("#fff"), None);
    assert_eq!(parse_hex_color("#ff80000"), None);
    assert_eq!(parse_hex_color("#ff80 0"), None);
    assert_eq!(parse_hex_color("#gg0000"), None);
    assert_eq!(parse_hex_color(""), None);
    assert_eq!(parse_hex_color("#"), None);
    assert_eq!(parse_hex_color("aé123"), None);
}

#[test]
fn a_plus_sign_may_stand_for_the_first_digit_of_a_pair() {
    assert_eq!(parse_hex_color("+1+2+3"), Some([1, 2, 3]));
    assert_eq!(parse_hex_color("#+f10+A"), Some([15, 16, 10]));
    assert_eq!(parse_hex_color("++1234"), None);
    assert_eq!(parse_hex_color("1+2345"), None);
    assert_eq!(parse_hex_color("-1-2-3"), None);
    assert_eq!(parse_hex_color("+12345"), Some([0x01, 0x23, 0x45]));
    assert_eq!(parse_hex_color("12+345"), Some([0x12, 0x03, 0x45]));
    assert_eq!(parse_hex_color("123+45"), None);
    // read as one number, only the first character may be the sign
    assert_eq!(parse_color("+12345"), Ok([0x01, 0x23, 0x45]));
    assert_eq!(parse_color("#+fffff"), Ok([0x0F, 0xFF, 0xFF]));
    assert_eq!(parse_color("+1+2+3"), Err(ColorError::InvalidDigit));
    assert_eq!(parse_color("-12345"), Err(ColorError::InvalidDigit));
    assert_eq!(parse_color("+12"), Err(ColorError::InvalidDigit));
    assert_eq!(parse_color("1+2"), Err(ColorError::InvalidDigit));
}

#[test]
fn short_and_long_colors() {
    assert_eq!(parse_color("#fff"), Ok([255, 255, 255]));
    assert_eq!(parse_color("1a2"), Ok([0x11, 0xAA, 0x22]));
    assert_eq!(parse_color("#102030"), Ok([0x10, 0x20, 0x30]));
    assert_eq!(parse_color("#12"), Err(ColorError::InvalidLength(2)));
    assert_eq!(parse_color("#1234567"), Err(ColorError::InvalidLength(7)));
    assert_eq!(parse_color(""), Err(ColorError::InvalidLength(0)));
    assert_eq!(parse_color("#xyz"), Err(ColorError::InvalidDigit));
    assert_eq!(parse_color("#12345z"), Err(ColorError::InvalidDigit));
}

#[test]
fn theme_colors() {
    assert_eq!(rgb_to_rgb565([255, 0, 0]), 0xF800);
    assert_eq!(rgb_to_rgb565([0, 255, 0]), 0x07E0);
    assert_eq!(rgb_to_rgb565([0, 0, 255]), 0x001F);
    assert_eq!(rgb_to_rgb565([128, 128, 128]), 0x8410);
}

#[test]
fn weekday_comes_from_the_calendar() {
    // 2024-01-01 was a Monday
    assert_eq!(WallClock::from_ymd_hms(2024, 1, 1, 0, 0, 0).unwrap().weekday, 1);
    // 2024-02-29 was a Thursday
    assert_eq!(WallClock::from_ymd_hms(2024, 2, 29, 12, 30, 15).unwrap().weekday, 4);
    // 2023-12-31 was a Sunday
    assert_eq!(WallClock::from_ymd_hms(2023, 12, 31, 23, 59, 59).unwrap().weekday, 0);
    // 2000-01-01 was a Saturday
    assert_eq!(WallClock::from_ymd_hms(2000, 1, 1, 0, 0, 0).unwrap().weekday, 6);
    let clock = WallClock::from_ymd_hms(2024, 2, 29, 12, 30, 15).unwrap();
    assert_eq!(
        clock,
        WallClock { year: 2024, month: 2, day: 29, hour: 12, minute: 30, second: 15, weekday: 4 }
    );
}

#[test]
fn dates_and_times_that_do_not_exist() {
    assert_eq!(WallClock::from_ymd_hms(2023, 2, 29, 0, 0, 0), None);
    assert_eq!(WallClock::from_ymd_hms(2024, 4, 31, 0, 0, 0), None);
    assert_eq!(WallClock::from_ymd_hms(2024, 0, 1, 0, 0, 0), None);
    assert_eq!(WallClock::from_ymd_hms(2024, 13, 1, 0, 0, 0), None);
    assert_eq!(WallClock::from_ymd_hms(2024, 1, 0, 0, 0, 0), None);
    assert_eq!(WallClock::from_ymd_hms(2024, 1, 1, 24, 0, 0), None);
    assert_eq!(WallClock::from_ymd_hms(2024, 1, 1, 0, 60, 0), None);
    assert_eq!(WallClock::from_ymd_hms(2024, 1, 1, 0, 0, 60), None);
    assert_eq!(WallClock::from_ymd_hms(-1, 1, 1, 0, 0, 0), None);
    assert_eq!(WallClock::from_ymd_hms(65536, 1, 1, 0, 0, 0), None);
    assert!(WallClock::from_ymd_hms(65535, 1, 1, 0, 0, 0).is_some());
    assert!(WallClock::from_ymd_hms(0, 1, 1, 0, 0, 0).is_some());
}

#[test]
fn clock_from_a_known_weekday() {
    assert_eq!(
        WallClock::with_weekday(2024, 1, 1, 8, 9, 10, Some(1)),
        Some(WallClock { year: 2024, month: 1, day: 1, hour: 8, minute: 9, second: 10, weekday: 1 })
    );
    assert_eq!(WallClock::with_weekday(2024, 1, 1, 8, 9, 10, None), None);
    assert_eq!(WallClock::with_weekday(2024, 1, 1, 8, 9, 10, Some(7)), None);
    assert_eq!(WallClock::with_weekday(2024, 1, 32, 8, 9, 10, Some(1)), None);
}

#[test]
fn twelve_hour_dial() {
    let at = |hour: u32| WallClock::from_ymd_hms(2024, 1, 1, hour, 0, 0).unwrap().hour12();
    assert_eq!(at(0), 12);
    assert_eq!(at(1), 1);
    assert_eq!(at(11), 11);
    assert_eq!(at(12), 12);
    assert_eq!(at(13), 1);
    assert_eq!(at(23), 11);
}

#[test]
fn wait_for_the_next_full_hour() {
    assert_eq!(millis_to_next_hour(0, 0, 0), 3_600_100);
    assert_eq!(millis_to_next_hour(59, 59, 999), 101);
    assert_eq!(millis_to_next_hour(30, 0, 0), 1_800_100);
    assert_eq!(millis_to_next_hour(59, 59, 1_000), 100);
    assert_eq!(millis_to_next_hour(255, 255, 65_535), 100);
}

#[test]
fn default_config() {
    let config = Config::default();
    assert_eq!(
        config.general,
        GeneralConfig {
            fahrenheit: false,
            use_12hr_time: false,
            initial_screen: String::from("meletrix")
        }
    );
    assert_eq!(config.refresh, RefreshConfig { system: 10_000, weather: 3_600_000, retry: 5_000 });
    assert_eq!(config.weather, WeatherConfig { enabled: true });
    assert_eq!(
        config.system_info,
        SystemInfoConfig { enabled: true, cpu_source: String::from("Package"), gpu_device: 0 }
    );
    assert_eq!(
        config.media,
        MediaConfig {
            background_color: String::from("#000000"),
            use_nearest_neighbor: false,
            last_image: None,
            last_gif: None
        }
    );
    let settings = config.settings("meletrix");
    assert_eq!(settings.initial_screen, "meletrix");
    assert_eq!(settings.retry_ms, 5_000);
    assert_eq!(settings.weather_ms, 3_600_000);
    assert_eq!(settings.system_ms, 10_000);
    assert!(settings.weather_enabled);
    assert!(settings.system_info_enabled);
    assert!(!settings.fahrenheit);
    assert!(!settings.use_12hr_time);
}
