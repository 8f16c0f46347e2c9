use zoom_sync::board::{BoardError, FailureReason};
use zoom_sync::clock::WallClock;
use zoom_sync::features::{
    AnimationFormat, HasGif, HasImage, HasScreen, HasScreenSize, HasSystemInfo, HasTime,
    HasWeather,
};
use zoom_sync::session::{AckPolicy, Packet};
use zoom_sync::zoom65v3::abi;
use zoom_sync::zoom65v3::abi::Arg;
use zoom_sync::zoom65v3::board::{clamp_temperature, Zoom65v3, GIF_LIMIT, IMAGE_SIZE};
use zoom_sync::zoom65v3::checksum::checksum;
use zoom_sync::zoom65v3::float::DumbFloat16;
use zoom_sync::zoom65v3::types::{
    Icon, LogoOffset, ScreenPosition, ScreenTheme, SystemOffset, TimeOffset, UploadChannel,
    OPTIONS,
};
use zoom_sync::zoom65v3::upload::{chunk_packet, upload_reports};

fn report_of(body: &[u8]) -> [u8; 33] {
    let mut buf = [0u8; 33];
    buf[1] = 88;
    buf[2] = body.len() as u8;
    buf[3..3 + body.len()].copy_from_slice(body);
    buf
}

#[test]
fn command_reports() {
    assert_eq!(abi::reset_screen(), report_of(&[165, 1, 255]));
    assert_eq!(abi::screen_theme(ScreenTheme::Blue), report_of(&[165, 1, 255, 1]));
    assert_eq!(abi::screen_theme(ScreenTheme::Pink), report_of(&[165, 1, 255, 2]));
    assert_eq!(abi::screen_up(), report_of(&[165, 0, 34]));
    assert_eq!(abi::screen_down(), report_of(&[165, 0, 33]));
    assert_eq!(abi::screen_switch(), report_of(&[165, 0, 32]));
    assert_eq!(abi::delete_image(), report_of(&[165, 2, 224]));
    assert_eq!(abi::delete_gif(), report_of(&[165, 2, 225]));
    assert_eq!(abi::upload_start(UploadChannel::Image), report_of(&[165, 2, 240, 1]));
    assert_eq!(abi::upload_start(UploadChannel::Gif), report_of(&[165, 2, 240, 2]));
    assert_eq!(abi::upload_length(0x01020304), report_of(&[165, 2, 208, 1, 2, 3, 4]));
    assert_eq!(abi::upload_end(), report_of(&[165, 2, 241, 1]));
    assert_eq!(
        abi::set_time(24, 12, 31, 23, 59, 58),
        report_of(&[165, 1, 16, 24, 12, 31, 23, 59, 58])
    );
    assert_eq!(
        abi::set_weather(Icon::Thunderstorm, 20, 10, 30),
        report_of(&[165, 1, 32, 8, 20, 10, 30])
    );
    assert_eq!(
        abi::set_system_info(50, 60, DumbFloat16::from_bit_repr([0x12, 0x34])),
        report_of(&[165, 1, 64, 50, 60, 0x12, 0x34])
    );
}

#[test]
fn version_request() {
    let mut buf = [0u8; 33];
    buf[1] = 1;
    assert_eq!(abi::get_version(), buf);
}

#[test]
fn report_has_fixed_length_for_every_body() {
    for len in 0..=abi::MAX_BODY {
        let body = vec![9u8; len];
        let buf = abi::build_report(&body);
        assert_eq!(buf.len(), abi::REPORT_LEN);
        assert_eq!(buf, report_of(&body));
    }
}

#[test]
fn arguments_on_the_wire() {
    assert_eq!(7u8.to_bytes(), vec![7]);
    assert_eq!(0xAABBCCDDu32.to_bytes(), vec![0xAA, 0xBB, 0xCC, 0xDD]);
    assert_eq!(ScreenTheme::Pink.to_bytes(), vec![2]);
    assert_eq!(UploadChannel::Gif.to_bytes(), vec![2]);
    assert_eq!(Icon::Snowfall.to_bytes(), vec![7]);
    assert_eq!(DumbFloat16::from_bit_repr([1, 2]).to_bytes(), vec![1, 2]);
    assert_eq!(ScreenTheme::default(), ScreenTheme::Blue);
}

#[test]
fn zoom65_weather_icons() {
    assert_eq!(Icon::from_wmo(0, true), Some(Icon::DayClear));
    assert_eq!(Icon::from_wmo(1, false), Some(Icon::NightClear));
    assert_eq!(Icon::from_wmo(2, true), Some(Icon::DayPartlyCloudy));
    assert_eq!(Icon::from_wmo(2, false), Some(Icon::NightPartlyCloudy));
    assert_eq!(Icon::from_wmo(45, false), Some(Icon::Cloudy));
    assert_eq!(Icon::from_wmo(61, true), Some(Icon::Rainy));
    assert_eq!(Icon::from_wmo(81, true), Some(Icon::DayPartlyRainy));
    assert_eq!(Icon::from_wmo(81, false), Some(Icon::Rainy));
    assert_eq!(Icon::from_wmo(77, true), Some(Icon::Snowfall));
    assert_eq!(Icon::from_wmo(99, true), Some(Icon::Thunderstorm));
    assert_eq!(Icon::from_wmo(100, true), None);
    assert_eq!(Icon::DayClear.code(), 0);
    assert_eq!(Icon::NightClear.code(), 4);
    assert_eq!(Icon::Thunderstorm.code(), 8);
}

#[test]
fn screen_positions_and_directions() {
    assert_eq!(SystemOffset::CpuTemp.pos().to_directions(), (-2, 0));
    assert_eq!(SystemOffset::Download.pos().to_directions(), (-2, 2));
    assert_eq!(TimeOffset::Weather.pos().to_directions(), (-1, 1));
    assert_eq!(LogoOffset::Gif.pos().to_directions(), (0, 3));
    assert_eq!(ScreenPosition::Battery.to_directions(), (1, 0));
    assert_eq!(ScreenPosition::default(), ScreenPosition::Logo(LogoOffset::Meletrix));
    assert_eq!(SystemOffset::default(), SystemOffset::CpuTemp);
    assert_eq!(TimeOffset::default(), TimeOffset::Time);
    assert_eq!(LogoOffset::default(), LogoOffset::Meletrix);
}

#[test]
fn screen_position_names() {
    assert_eq!("cpu".parse(), Ok(ScreenPosition::System(SystemOffset::CpuTemp)));
    assert_eq!("GPU".parse(), Ok(ScreenPosition::System(SystemOffset::GpuTemp)));
    assert_eq!("d".parse(), Ok(ScreenPosition::System(SystemOffset::Download)));
    assert_eq!("Download".parse(), Ok(ScreenPosition::System(SystemOffset::Download)));
    assert_eq!("t".parse(), Ok(ScreenPosition::Time(TimeOffset::Time)));
    assert_eq!("WEATHER".parse(), Ok(ScreenPosition::Time(TimeOffset::Weather)));
    assert_eq!("m".parse(), Ok(ScreenPosition::Logo(LogoOffset::Meletrix)));
    assert_eq!("Zoom65".parse(), Ok(ScreenPosition::Logo(LogoOffset::Zoom65)));
    assert_eq!("i".parse(), Ok(ScreenPosition::Logo(LogoOffset::Image)));
    assert_eq!("gif".parse(), Ok(ScreenPosition::Logo(LogoOffset::Gif)));
    assert_eq!("B".parse(), Ok(ScreenPosition::Battery));
    assert_eq!(
        "nowhere".parse::<ScreenPosition>(),
        Err(format!("{}{}", zoom_sync::zoom65v3::types::INVALID_POSITION, OPTIONS))
    );
    // names are matched in lower case only once they have been lowered
    assert_eq!(ScreenPosition::from_id("CPU"), None);
    assert_eq!(ScreenPosition::from_id("cpu"), Some(ScreenPosition::System(SystemOffset::CpuTemp)));
}

#[test]
fn route_to_a_screen() {
    let board = Zoom65v3;
    let reset = Packet::Report(abi::reset_screen());
    let up = Packet::Report(abi::screen_up());
    let down = Packet::Report(abi::screen_down());
    let switch = Packet::Report(abi::screen_switch());
    let packets = |p: ScreenPosition| -> Vec<Packet> {
        board.set_screen(p).iter().map(|e| e.packet).collect()
    };
    assert_eq!(packets(LogoOffset::Meletrix.pos()), vec![reset]);
    assert_eq!(packets(SystemOffset::Download.pos()), vec![reset, up, up, switch, switch]);
    assert_eq!(packets(TimeOffset::Weather.pos()), vec![reset, up, switch]);
    assert_eq!(packets(LogoOffset::Gif.pos()), vec![reset, switch, switch, switch]);
    assert_eq!(packets(ScreenPosition::Battery), vec![reset, down]);
    for exchange in board.set_screen(SystemOffset::GpuTemp.pos()) {
        assert_eq!(exchange.ack, AckPolicy::StatusBytes);
        assert_eq!(exchange.progress, None);
    }
    let by_name = HasScreen::set_screen(&board, "Download").unwrap();
    assert_eq!(by_name, board.set_screen(SystemOffset::Download.pos()));
    assert!(matches!(
        HasScreen::set_screen(&board, "nowhere"),
        Err(BoardError::InvalidScreenPosition(_))
    ));
}

#[test]
fn single_step_exchanges() {
    let board = Zoom65v3;
    assert_eq!(board.screen_up().packet, Packet::Report(abi::screen_up()));
    assert_eq!(board.screen_down().packet, Packet::Report(abi::screen_down()));
    assert_eq!(board.screen_switch().packet, Packet::Report(abi::screen_switch()));
    assert_eq!(board.reset_screen().packet, Packet::Report(abi::reset_screen()));
    assert_eq!(
        board.screen_theme(ScreenTheme::Pink).packet,
        Packet::Report(abi::screen_theme(ScreenTheme::Pink))
    );
    assert_eq!(board.clear_image().packet, Packet::Report(abi::delete_image()));
    assert_eq!(board.clear_gif().packet, Packet::Report(abi::delete_gif()));
    assert_eq!(HasScreen::screen_up(&board), board.screen_up());
    assert_eq!(HasScreen::reset_screen(&board), board.reset_screen());
    assert_eq!(HasImage::clear_image(&board), board.clear_image());
    assert_eq!(HasGif::clear_gif(&board), board.clear_gif());
    assert_eq!(HasScreenSize::screen_size(&board), (110, 110));
    assert_eq!(HasScreen::screen_positions(&board).len(), 10);
    assert_eq!(HasScreen::screen_positions(&board)[2].id, "download");
    assert_eq!(HasScreen::screen_positions(&board)[8].display_name, "GIF");
}

#[test]
fn zoom65_time() {
    let board = Zoom65v3;
    let time = WallClock::from_ymd_hms(2024, 12, 31, 23, 59, 58).unwrap();
    assert_eq!(
        board.set_time(&time, false).packet,
        Packet::Report(abi::set_time(24, 12, 31, 23, 59, 58))
    );
    assert_eq!(
        board.set_time(&time, true).packet,
        Packet::Report(abi::set_time(24, 12, 31, 11, 59, 58))
    );
    let midnight = WallClock::from_ymd_hms(2100, 1, 1, 0, 0, 0).unwrap();
    assert_eq!(
        HasTime::set_time(&board, &midnight, true).packet,
        Packet::Report(abi::set_time(0, 1, 1, 12, 0, 0))
    );
    assert_eq!(midnight.hour12(), 12);
    assert_eq!(time.hour12(), 11);
}

#[test]
fn zoom65_weather_and_system_info() {
    let board = Zoom65v3;
    assert_eq!(
        HasWeather::set_weather(&board, 95, true, 20, -5, 300).unwrap().packet,
        Packet::Report(abi::set_weather(Icon::Thunderstorm, 20, 0, 255))
    );
    assert_eq!(
        HasWeather::set_weather(&board, 42, true, 20, 10, 30),
        Err(BoardError::CommandFailed(FailureReason::UnknownWeatherCode))
    );
    assert_eq!(clamp_temperature(-1), 0);
    assert_eq!(clamp_temperature(255), 255);
    assert_eq!(clamp_temperature(256), 255);
    assert_eq!(clamp_temperature(37), 37);
    let download = DumbFloat16::from_bit_repr([0x04, 0xD2]);
    assert_eq!(
        HasSystemInfo::set_system_info(&board, 45, 50, download).packet,
        Packet::Report(abi::set_system_info(45, 50, download))
    );
}

#[test]
fn chunk_reports() {
    let image: Vec<u8> = (0..50).map(|i| ((i * 7 + 3) & 0xFF) as u8).collect();
    assert_eq!(
        chunk_packet(0, &image[0..24], 0),
        [
            0, 88, 30, 0, 0, 3, 10, 17, 24, 31, 38, 45, 52, 59, 66, 73, 80, 87, 94, 101, 108, 115,
            122, 129, 136, 143, 150, 157, 164, 79, 2, 189, 17
        ]
    );
    // the last two bytes of a gif are padded to a multiple of four
    assert_eq!(
        chunk_packet(2, &image[48..50], 2),
        [
            0, 88, 10, 0, 2, 83, 90, 0, 0, 234, 253, 96, 56, 0, 0, 0, 0, 0, 0, 0, 0, 0, 0, 0, 0, 0,
            0, 0, 0, 0, 0, 0, 0
        ]
    );
    assert_eq!(
        chunk_packet(2, &image[48..50], 0),
        [
            0, 88, 8, 0, 2, 83, 90, 136, 197, 168, 118, 0, 0, 0, 0, 0, 0, 0, 0, 0, 0, 0, 0, 0, 0,
            0, 0, 0, 0, 0, 0, 0, 0
        ]
    );
}

#[test]
fn chunk_checksum_covers_index_data_and_two_zero_bytes() {
    let header = [
        71u8, 73, 70, 56, 57, 97, 111, 0, 111, 0, 247, 0, 0, 0, 0, 0, 0, 0, 0, 0, 0, 0, 0, 0,
    ];
    let packet = chunk_packet(0, &header, 0);
    assert_eq!(&packet[29..33], &[94, 148, 189, 206]);
    let mut covered = vec![0u8, 0];
    covered.extend_from_slice(&header);
    covered.extend_from_slice(&[0, 0]);
    assert_eq!(&packet[29..33], &checksum(&covered));
}

#[test]
fn gif_upload_pads_only_the_last_chunk() {
    let data: Vec<u8> = (0..50).map(|i| ((i * 7 + 3) & 0xFF) as u8).collect();
    let plan = upload_reports(&data, UploadChannel::Gif);
    assert_eq!(plan.len(), 3 + 4);
    assert_eq!(plan[0].packet, Packet::Report(abi::upload_start(UploadChannel::Gif)));
    assert_eq!(plan[1].packet, Packet::Report(abi::upload_length(50)));
    assert_eq!(plan[2].packet, Packet::Report(chunk_packet(0, &data[0..24], 0)));
    assert_eq!(plan[3].packet, Packet::Report(chunk_packet(1, &data[24..48], 0)));
    assert_eq!(plan[4].packet, Packet::Report(chunk_packet(2, &data[48..50], 2)));
    assert_eq!(plan[5].packet, Packet::Report(abi::upload_end()));
    assert_eq!(plan[6].packet, Packet::Report(abi::reset_screen()));
    // the length that is announced stays unpadded
    assert_eq!(plan[1].packet.to_vec()[6..10], [0, 0, 0, 50]);
    // the length byte of the last chunk counts the padding
    assert_eq!(plan[4].packet.to_vec()[2], 2 + 2 + 2 + 4);
    let progress: Vec<Option<usize>> = plan.iter().map(|e| e.progress).collect();
    assert_eq!(progress, vec![None, None, Some(0), Some(1), Some(2), Some(3), None]);
    for exchange in &plan {
        assert_eq!(exchange.ack, AckPolicy::StatusBytes);
    }
}

#[test]
fn image_upload_is_never_padded() {
    let data = [1u8, 2, 3, 4, 5];
    let image = upload_reports(&data, UploadChannel::Image);
    assert_eq!(
        image[2].packet.to_vec(),
        vec![
            0, 88, 11, 0, 0, 1, 2, 3, 4, 5, 82, 136, 231, 112, 0, 0, 0, 0, 0, 0, 0, 0, 0, 0, 0, 0,
            0, 0, 0, 0, 0, 0, 0
        ]
    );
    let gif = upload_reports(&data, UploadChannel::Gif);
    assert_eq!(
        gif[2].packet.to_vec(),
        vec![
            0, 88, 14, 0, 0, 1, 2, 3, 4, 5, 0, 0, 0, 203, 58, 93, 8, 0, 0, 0, 0, 0, 0, 0, 0, 0, 0,
            0, 0, 0, 0, 0, 0
        ]
    );
    // a gif of whole chunks has no chunk to pad
    let whole = upload_reports(&[5u8; 48], UploadChannel::Gif);
    assert_eq!(whole.len(), 2 + 4);
    assert_eq!(whole[3].packet, Packet::Report(chunk_packet(1, &[5u8; 24], 0)));
}

#[test]
fn animation_formats() {
    assert_eq!(HasGif::format(&Zoom65v3), AnimationFormat::Gif { width: 111, height: 111 });
    assert_eq!(
        HasGif::format(&zoom_sync::tiga::dyna::ZoomTklDyna),
        AnimationFormat::Rgb565 { width: 320, height: 172 }
    );
    assert_eq!(
        HasGif::format(&zoom_sync::tiga::zoom75::Zoom75Tiga),
        AnimationFormat::Rgb565 { width: 320, height: 172 }
    );
}

#[test]
fn invalid_position_message() {
    assert_eq!(
        OPTIONS,
        "[ cpu, gpu, download|d, time|t, weather|w, meletrix|m, zoom65|z, image|i, gif|g, \
         battery|b ]"
    );
    assert_eq!(
        zoom_sync::zoom65v3::types::INVALID_POSITION,
        "invalid screen position, must be one of: "
    );
}

#[test]
fn media_size_limits() {
    let board = Zoom65v3;
    assert_eq!(
        board.upload_image(&vec![0u8; IMAGE_SIZE - 1]),
        Err(BoardError::MediaTooLarge("image must be exactly 36300 bytes"))
    );
    assert_eq!(
        board.upload_image(&vec![0u8; IMAGE_SIZE + 1]),
        Err(BoardError::MediaTooLarge("image must be exactly 36300 bytes"))
    );
    let plan = HasImage::upload_image(&board, &vec![0u8; IMAGE_SIZE]).unwrap();
    assert_eq!(plan.len(), 1513 + 4);
    assert_eq!(plan[1].packet, Packet::Report(abi::upload_length(36300)));
    assert_eq!(plan[1514].progress, Some(1512));
    assert_eq!(plan[1515].progress, Some(1513));
    assert_eq!(
        HasGif::upload_gif(&board, &vec![0u8; GIF_LIMIT]),
        Err(BoardError::MediaTooLarge("gif exceeds device limit"))
    );
    assert!(board.upload_gif(&vec![0u8; 1000]).is_ok());
}
