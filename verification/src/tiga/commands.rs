//! The operations of a Tiga keyboard, each as the exchange that carries it
//! out. These keyboards acknowledge nothing that has to be checked: every
//! exchange is fire-and-forget.

use crate::board::{BoardError, FailureReason};
use crate::clock::WallClock;
use crate::session::{AckPolicy, Exchange, ExchangeView, Packet};
use crate::tiga::abi::{
    datetime, datetime_payload, frame, screen_control, theme, theme_payload, weather,
    weather_payload, CMD_DATETIME, CMD_SCREEN, CMD_THEME, CMD_WEATHER, SUB_TYPE_COMMAND,
    SUB_TYPE_DATETIME,
};
use crate::tiga::types::{
    encode_temperature, encoded_temperature, Rgb565, ScreenMode, WeatherIcon, MAX_TEMPERATURE,
};
use vstd::prelude::*;

verus! {

/// The exchange that writes `packet` and expects nothing back.
pub open spec fn silent(packet: Seq<u8>) -> ExchangeView {
    ExchangeView { packet, ack: AckPolicy::FireAndForget, progress: None }
}

/// Wrap a frame into an exchange that expects nothing back.
pub fn send(packet: [u8; 32]) -> (exchange: Exchange)
    ensures
        exchange@ == silent(packet@),
{
    Exchange { packet: Packet::Frame(packet), ack: AckPolicy::FireAndForget, progress: None }
}

/// The exchange that sets the clock. The keyboard keeps a 24-hour clock.
pub open spec fn time_sync(time: WallClock) -> ExchangeView {
    silent(
        frame(
            CMD_DATETIME,
            datetime_payload(
                time.year,
                time.month,
                time.day,
                time.hour,
                time.minute,
                time.second,
                time.weekday,
            ),
            SUB_TYPE_DATETIME,
        ),
    )
}

/// Sync the given date and time to the keyboard display.
pub fn set_time(time: &WallClock) -> (exchange: Exchange)
    ensures
        exchange@ == time_sync(*time),
{
    send(
        datetime(
            time.year,
            time.month,
            time.day,
            time.hour,
            time.minute,
            time.second,
            time.weekday,
        ),
    )
}

/// A temperature as the weather frame carries it.
pub open spec fn temperature_on_wire(temp_celsius: i16) -> u16 {
    encoded_temperature(temp_celsius as int) as u16
}

/// The exchange that shows an icon with the current, lowest and highest
/// temperature. In the frame the highest temperature comes before the
/// lowest.
pub open spec fn weather_report(icon: WeatherIcon, current: i16, low: i16, high: i16)
    -> ExchangeView {
    silent(
        frame(
            CMD_WEATHER,
            weather_payload(
                icon,
                temperature_on_wire(current),
                temperature_on_wire(high),
                temperature_on_wire(low),
            ),
            SUB_TYPE_COMMAND,
        ),
    )
}

/// Whether a temperature can be encoded.
pub open spec fn encodable(temp_celsius: i16) -> bool {
    -MAX_TEMPERATURE <= temp_celsius <= MAX_TEMPERATURE
}

/// Update the weather display.
pub fn set_weather(icon: WeatherIcon, current: i16, low: i16, high: i16) -> (exchange: Exchange)
    requires
        encodable(current),
        encodable(low),
        encodable(high),
    ensures
        exchange@ == weather_report(icon, current, low, high),
{
    send(
        weather(
            icon,
            encode_temperature(current),
            encode_temperature(high),
            encode_temperature(low),
        ),
    )
}

/// The nearest temperature that can be encoded.
pub open spec fn clamped(temp_celsius: i16) -> i16 {
    if temp_celsius > MAX_TEMPERATURE {
        MAX_TEMPERATURE
    } else if temp_celsius < -MAX_TEMPERATURE {
        (-MAX_TEMPERATURE) as i16
    } else {
        temp_celsius
    }
}

/// Bring a temperature into the range that can be encoded.
pub fn clamp_temperature(temp_celsius: i16) -> (t: i16)
    ensures
        t == clamped(temp_celsius),
        encodable(t),
{
    if temp_celsius > MAX_TEMPERATURE {
        MAX_TEMPERATURE
    } else if temp_celsius < -MAX_TEMPERATURE {
        -MAX_TEMPERATURE
    } else {
        temp_celsius
    }
}

/// The weather update for a WMO code: the report with the code's icon and
/// the temperatures brought into range, or a failed command where no icon
/// exists for the code.
pub open spec fn weather_update(wmo: u8, is_day: bool, current: i16, low: i16, high: i16) -> Result<
    ExchangeView,
    BoardError,
> {
    match WeatherIcon::for_wmo(wmo, is_day) {
        Some(icon) => Ok(weather_report(icon, clamped(current), clamped(low), clamped(high))),
        None => Err(BoardError::CommandFailed(FailureReason::UnknownWeatherCode)),
    }
}

/// Update the weather display from a WMO code.
pub fn set_weather_by_code(wmo: u8, is_day: bool, current: i16, low: i16, high: i16) -> (outcome:
    Result<Exchange, BoardError>)
    ensures
        crate::features::exchange_or_error(outcome) == weather_update(
            wmo,
            is_day,
            current,
            low,
            high,
        ),
{
    match WeatherIcon::from_wmo(wmo, is_day) {
        Some(icon) => Ok(
            set_weather(
                icon,
                clamp_temperature(current),
                clamp_temperature(low),
                clamp_temperature(high),
            ),
        ),
        None => Err(BoardError::CommandFailed(FailureReason::UnknownWeatherCode)),
    }
}

/// The exchange that sets the theme colors.
pub open spec fn theme_change(bg_color: Rgb565, font_color: Rgb565, theme_id: u8) -> ExchangeView {
    silent(frame(CMD_THEME, theme_payload(bg_color, font_color, theme_id), SUB_TYPE_COMMAND))
}

/// Set the screen theme colors.
pub fn set_theme(bg_color: Rgb565, font_color: Rgb565, theme_id: u8) -> (exchange: Exchange)
    ensures
        exchange@ == theme_change(bg_color, font_color, theme_id),
{
    send(theme(bg_color, font_color, theme_id))
}

/// The exchange that sends a screen control command.
pub open spec fn screen_command(mode: ScreenMode) -> ExchangeView {
    silent(frame(CMD_SCREEN, mode.payload(), SUB_TYPE_COMMAND))
}

/// Send a screen control command.
pub fn control_screen(mode: ScreenMode) -> (exchange: Exchange)
    ensures
        exchange@ == screen_command(mode),
{
    send(screen_control(mode))
}

} // verus!
