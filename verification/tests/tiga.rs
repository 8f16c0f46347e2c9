use zoom_sync::clock::WallClock;
use zoom_sync::features::{HasGif, HasImage, HasTheme, HasTime, HasWeather};
use zoom_sync::board::{BoardError, FailureReason};
use zoom_sync::session::{AckPolicy, Packet};
use zoom_sync::tiga::abi::{
    build_packet, datetime, image_chunk, image_end, screen_control, theme, weather, FRAME_LEN,
    MAX_PAYLOAD,
};
use zoom_sync::tiga::commands::clamp_temperature;
use zoom_sync::tiga::crc::crc16;
use zoom_sync::tiga::dyna::ZoomTklDyna;
use zoom_sync::tiga::types::{encode_temperature, Rgb565, ScreenMode, WeatherIcon};
use zoom_sync::tiga::upload::{upload_frames, MAX_UPLOAD};
use zoom_sync::tiga::zoom75::Zoom75Tiga;

#[test]
fn datetime_frame_for_new_year_2024() {
    // 2024-01-01T00:00:00, a Monday
    let packet = datetime(2024, 1, 1, 0, 0, 0, 1);
    assert_eq!(
        packet,
        [
            28, 3, 0, 0, 0, 15, 89, 93, 165, 56, 0, 10, 0, 1, 7, 232, 1, 1, 0, 0, 0, 1, 202, 0, 0,
            0, 0, 0, 0, 0, 0, 0
        ]
    );
    // flag1, flag2, yearHi, yearLo, month, day, hour, minute, second, dow
    assert_eq!(&packet[12..22], &[0x00, 0x01, 0x07, 0xE8, 1, 1, 0, 0, 0, 1]);
}

#[test]
fn set_time_end_to_end() {
    let time = WallClock::from_ymd_hms(2024, 1, 1, 0, 0, 0).unwrap();
    assert_eq!(time.weekday, 1);
    let exchange = ZoomTklDyna.set_time(&time);
    assert_eq!(exchange.ack, AckPolicy::FireAndForget);
    assert_eq!(exchange.progress, None);
    let bytes = exchange.packet.to_vec();
    assert_eq!(bytes.len(), 32);
    assert_eq!(bytes[9], 0x38);
    assert_eq!(bytes[11], 10);
    assert_eq!(bytes[14], 0x07);
    assert_eq!(bytes[15], 0xE8);
    assert_eq!(&bytes[16..21], &[1, 1, 0, 0, 0]);
    assert_eq!(bytes[21], 1);
    // the 12-hour flag changes nothing on this board
    let through_trait = HasTime::set_time(&Zoom75Tiga, &time, true);
    assert_eq!(through_trait.packet.to_vec(), bytes);
}

#[test]
fn frame_has_fixed_length_for_every_payload() {
    for len in 0..=MAX_PAYLOAD {
        let payload = vec![0xAB; len];
        let packet = build_packet(0x38, &payload, 0x02);
        assert_eq!(packet.len(), FRAME_LEN);
        assert_eq!(packet[0], 0x1C);
        assert_eq!(packet[1], 0x02);
        assert_eq!(packet[5] as usize, len + 5);
        assert_eq!(packet[8], 0xA5);
        assert_eq!(packet[11] as usize, len);
        assert_eq!(&packet[12..12 + len], &payload[..]);
    }
}

#[test]
fn frame_checksum_and_crc() {
    let packet = build_packet(0xFC, &[0xFF; 19], 0x02);
    assert_eq!(
        packet,
        [
            28, 2, 0, 0, 0, 24, 97, 225, 165, 252, 0, 19, 255, 255, 255, 255, 255, 255, 255, 255,
            255, 255, 255, 255, 255, 255, 255, 255, 255, 255, 255, 3
        ]
    );
    let empty = build_packet(0x38, &[], 0x02);
    assert_eq!(&empty[..13], &[28, 2, 0, 0, 0, 5, 18, 184, 165, 56, 0, 0, 199]);
    // the crc is that of the frame with the crc field still zero
    let mut open = empty;
    open[6] = 0;
    open[7] = 0;
    let crc = crc16(&open);
    assert_eq!(empty[6], (crc & 0xFF) as u8);
    assert_eq!(empty[7], (crc >> 8) as u8);
}

#[test]
fn weather_frame() {
    let packet = weather(
        WeatherIcon::SunnyDay,
        encode_temperature(25),
        encode_temperature(30),
        encode_temperature(-10),
    );
    assert_eq!(
        packet,
        [
            28, 2, 0, 0, 0, 13, 169, 237, 165, 254, 0, 8, 0, 1, 0, 250, 1, 44, 128, 100, 237, 0, 0,
            0, 0, 0, 0, 0, 0, 0, 0, 0
        ]
    );
}

#[test]
fn theme_frame() {
    let packet = theme(Rgb565(0xF800), Rgb565(0x001F), 3);
    assert_eq!(
        packet,
        [
            28, 2, 0, 0, 0, 11, 93, 97, 165, 253, 0, 6, 0, 248, 0, 0, 31, 3, 226, 0, 0, 0, 0, 0, 0,
            0, 0, 0, 0, 0, 0, 0
        ]
    );
    let through_trait = HasTheme::set_theme(&ZoomTklDyna, 0xF800, 0x001F, 3);
    assert_eq!(through_trait.packet, Packet::Frame(packet));
}

#[test]
fn screen_control_frames() {
    assert_eq!(ScreenMode::Up.to_bytes(), [0x02, 0xC2]);
    assert_eq!(ScreenMode::Down.to_bytes(), [0x01, 0xC3]);
    assert_eq!(ScreenMode::Enter.to_bytes(), [0x03, 0xC1]);
    assert_eq!(ScreenMode::Return.to_bytes(), [0x04, 0xC0]);
    assert_eq!(ScreenMode::Reset.to_bytes(), [0x01, 0xC8]);
    assert_eq!(
        &screen_control(ScreenMode::Up)[..16],
        &[28, 2, 0, 0, 0, 7, 83, 135, 165, 57, 0, 2, 2, 194, 0, 0]
    );
    assert_eq!(
        &screen_control(ScreenMode::Reset)[..16],
        &[28, 2, 0, 0, 0, 7, 26, 15, 165, 57, 0, 2, 1, 200, 251, 0]
    );
    assert_eq!(ZoomTklDyna.screen_reset().packet, ZoomTklDyna.clear_gif().packet);
    assert_eq!(
        ZoomTklDyna.screen_enter().packet,
        Packet::Frame(screen_control(ScreenMode::Enter))
    );
    assert_eq!(
        Zoom75Tiga.screen_return().packet,
        Packet::Frame(screen_control(ScreenMode::Return))
    );
}

#[test]
fn image_chunk_frames() {
    let full: Vec<u8> = (1..=16).collect();
    assert_eq!(
        image_chunk(0, &full),
        [
            28, 2, 0, 0, 0, 24, 13, 72, 165, 252, 0, 19, 0, 0, 0, 1, 2, 3, 4, 5, 6, 7, 8, 9, 10,
            11, 12, 13, 14, 15, 16, 104
        ]
    );
    assert_eq!(
        image_chunk(258, &[9, 8, 7]),
        [
            28, 2, 0, 0, 0, 11, 187, 254, 165, 252, 0, 6, 0, 1, 2, 9, 8, 7, 226, 0, 0, 0, 0, 0, 0,
            0, 0, 0, 0, 0, 0, 0
        ]
    );
    assert_eq!(
        image_end(),
        [
            28, 2, 0, 0, 0, 8, 137, 38, 165, 252, 0, 3, 0, 255, 255, 2, 0, 0, 0, 0, 0, 0, 0, 0, 0,
            0, 0, 0, 0, 0, 0, 0
        ]
    );
}

#[test]
fn upload_is_cut_into_chunks_of_sixteen() {
    let data: Vec<u8> = (0..40).collect();
    let plan = upload_frames(&data).unwrap();
    assert_eq!(plan.len(), 4);
    assert_eq!(plan[0].packet, Packet::Frame(image_chunk(0, &data[0..16])));
    assert_eq!(plan[1].packet, Packet::Frame(image_chunk(1, &data[16..32])));
    assert_eq!(plan[2].packet, Packet::Frame(image_chunk(2, &data[32..40])));
    assert_eq!(plan[3].packet, Packet::Frame(image_end()));
    for (i, exchange) in plan.iter().enumerate() {
        assert_eq!(exchange.progress, Some(i));
        assert_eq!(exchange.ack, AckPolicy::FireAndForget);
    }
}

#[test]
fn upload_progress_is_chunk_count_plus_one() {
    for len in [0usize, 1, 15, 16, 17, 32, 1000] {
        let data = vec![7u8; len];
        let plan = ZoomTklDyna.upload_image(&data).unwrap();
        let chunks = (len + 15) / 16;
        let reports: Vec<usize> = plan.iter().filter_map(|e| e.progress).collect();
        assert_eq!(reports.len(), chunks + 1);
        assert_eq!(reports, (0..=chunks).collect::<Vec<usize>>());
    }
}

#[test]
fn upload_of_nothing_only_ends() {
    let plan = upload_frames(&[]).unwrap();
    assert_eq!(plan.len(), 1);
    assert_eq!(plan[0].packet, Packet::Frame(image_end()));
    assert_eq!(plan[0].progress, Some(0));
    assert_eq!(ZoomTklDyna.clear_image().packet, Packet::Frame(image_end()));
}

#[test]
fn upload_refuses_what_cannot_be_numbered() {
    let data = vec![0u8; MAX_UPLOAD + 1];
    assert_eq!(
        upload_frames(&data),
        Err(BoardError::MediaTooLarge("media does not fit into 65535 pages"))
    );
    let plan = HasGif::upload_gif(&Zoom75Tiga, &vec![0u8; 64]).unwrap();
    assert_eq!(plan.len(), 5);
    let same = HasImage::upload_image(&Zoom75Tiga, &vec![0u8; 64]).unwrap();
    assert_eq!(plan, same);
    assert_eq!(Zoom75Tiga.upload_565_animation(&vec![0u8; 64]).unwrap(), same);
}

#[test]
fn tiga_weather_icons() {
    assert_eq!(WeatherIcon::from_wmo(0, true), Some(WeatherIcon::SunnyDay));
    assert_eq!(WeatherIcon::from_wmo(1, false), Some(WeatherIcon::ClearNight));
    assert_eq!(WeatherIcon::from_wmo(2, true), Some(WeatherIcon::PartlyCloudyDay));
    assert_eq!(WeatherIcon::from_wmo(2, false), Some(WeatherIcon::PartlyCloudyNight));
    for wmo in [3, 45, 48] {
        assert_eq!(WeatherIcon::from_wmo(wmo, true), Some(WeatherIcon::Cloudy));
    }
    for wmo in [51, 53, 55, 56, 57, 61, 63, 65, 66, 67, 80, 81, 82] {
        assert_eq!(WeatherIcon::from_wmo(wmo, false), Some(WeatherIcon::Rain));
    }
    for wmo in [71, 73, 75, 77, 85, 86] {
        assert_eq!(WeatherIcon::from_wmo(wmo, true), Some(WeatherIcon::Snow));
    }
    for wmo in [95, 96, 99] {
        assert_eq!(WeatherIcon::from_wmo(wmo, true), Some(WeatherIcon::Thunderstorm));
    }
    for wmo in [4, 44, 50, 79, 83, 100, 255] {
        assert_eq!(WeatherIcon::from_wmo(wmo, true), None);
    }
    assert_eq!(WeatherIcon::Unknown.code(), 0);
    assert_eq!(WeatherIcon::Rain.code(), 3);
    assert_eq!(WeatherIcon::Snow.code(), 4);
    assert_eq!(WeatherIcon::Cloudy.code(), 5);
    assert_eq!(WeatherIcon::Thunderstorm.code(), 8);
}

#[test]
fn tiga_weather_through_the_trait() {
    let exchange = HasWeather::set_weather(&ZoomTklDyna, 0, true, 25, -10, 30).unwrap();
    assert_eq!(
        exchange.packet,
        Packet::Frame(weather(WeatherIcon::SunnyDay, 250, 300, 0x8064))
    );
    assert_eq!(
        exchange.packet,
        ZoomTklDyna.set_weather(WeatherIcon::SunnyDay, 25, -10, 30).packet
    );
    assert_eq!(
        HasWeather::set_weather(&ZoomTklDyna, 4, true, 25, -10, 30),
        Err(BoardError::CommandFailed(FailureReason::UnknownWeatherCode))
    );
    // temperatures beyond the fifteen value bits are brought into range
    assert_eq!(clamp_temperature(i16::MAX), 3276);
    assert_eq!(clamp_temperature(i16::MIN), -3276);
    assert_eq!(clamp_temperature(-3276), -3276);
    let hot = HasWeather::set_weather(&Zoom75Tiga, 3, true, i16::MAX, i16::MIN, 0).unwrap();
    assert_eq!(
        hot.packet,
        Packet::Frame(weather(WeatherIcon::Cloudy, 32760, 0, 32760 | 0x8000))
    );
}
