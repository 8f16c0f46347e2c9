//! One-shot operations on a board of any type: the capability is looked
//! up, and where the board has it the operation is turned into exchanges.

use crate::board::BoardError;
use crate::clock::WallClock;
use crate::features::{Board, HasTime, HasWeather};
use crate::session::Exchange;
use vstd::prelude::*;

verus! {

/// The capabilities that a board can have.
#[derive(Debug, Clone, Copy, PartialEq, Eq, Structural)]
pub enum Capability {
    Time,
    Weather,
    SystemInfo,
    Screen,
    Image,
    Gif,
    Theme,
}

impl Capability {
    /// What is said of a board that lacks the capability.
    pub open spec fn missing(self) -> Seq<char> {
        match self {
            Capability::Time => "board does not support time"@,
            Capability::Weather => "board does not support weather"@,
            Capability::SystemInfo => "board does not support system info"@,
            Capability::Screen => "board does not support screen control"@,
            Capability::Image => "board does not support images"@,
            Capability::Gif => "board does not support gifs"@,
            Capability::Theme => "board does not support theme customization"@,
        }
    }

    /// What is said of a board that lacks the capability.
    pub fn missing_message(&self) -> (msg: &'static str)
        ensures
            msg@ == self.missing(),
    {
        match self {
            Capability::Time => "board does not support time",
            Capability::Weather => "board does not support weather",
            Capability::SystemInfo => "board does not support system info",
            Capability::Screen => "board does not support screen control",
            Capability::Image => "board does not support images",
            Capability::Gif => "board does not support gifs",
            Capability::Theme => "board does not support theme customization",
        }
    }
}

/// Why an operation cannot be applied to a board.
#[derive(Debug, Clone, PartialEq, Eq)]
pub enum ApplyError {
    /// The board lacks the capability.
    Unsupported(Capability),
    /// The board has no screen position of this name.
    UnknownPosition(String),
    /// Reactive mode is no single command.
    Reactive,
    /// The board refused.
    Board(BoardError),
}

/// Weather as it is handed to a board: the WMO code, whether it is day, and
/// the current, lowest and highest temperature in whole degrees.
#[derive(Debug, Clone, Copy, PartialEq, Eq, Structural)]
pub struct WeatherData {
    pub wmo: u8,
    pub is_day: bool,
    pub current: i16,
    pub min: i16,
    pub max: i16,
}

/// First hour that counts as day.
pub const FIRST_DAY_HOUR: u32 = 6;

/// Last hour that counts as day.
pub const LAST_DAY_HOUR: u32 = 18;

/// Whether an hour of the clock counts as day, where the weather is given
/// by hand and nothing else tells day from night.
pub fn is_daytime(hour: u32) -> (day: bool)
    ensures
        day == (FIRST_DAY_HOUR <= hour <= LAST_DAY_HOUR),
{
    FIRST_DAY_HOUR <= hour && hour <= LAST_DAY_HOUR
}

/// The exchange that sets a board's clock; an error where the board has no
/// clock. The board may be of any type, a trait object too.
pub fn apply_time_to<B: Board + ?Sized>(board: &B, time: &WallClock, use_12hr: bool) -> (outcome:
    Result<Exchange, ApplyError>)
    ensures
        match board.time() {
            Some(clock) => outcome matches Ok(exchange) && exchange@ == clock.time_sync(
                *time,
                use_12hr,
            ),
            None => outcome matches Err(ApplyError::Unsupported(Capability::Time)),
        },
{
    match board.as_time() {
        Some(clock) => Ok(clock.set_time(time, use_12hr)),
        None => Err(ApplyError::Unsupported(Capability::Time)),
    }
}

/// The exchange that sets a board's clock; an error where the board has no
/// clock. This is `apply_time_to` for a board held as a trait object.
pub fn apply_time(board: &dyn Board, time: &WallClock, use_12hr: bool) -> (outcome: Result<
    Exchange,
    ApplyError,
>)
    ensures
        match board.time() {
            Some(clock) => outcome matches Ok(exchange) && exchange@ == clock.time_sync(
                *time,
                use_12hr,
            ),
            None => outcome matches Err(ApplyError::Unsupported(Capability::Time)),
        },
{
    apply_time_to(board, time, use_12hr)
}

/// The exchange that shows the weather on a board; an error where the board
/// shows no weather or has no icon for the weather code. The board may be of
/// any type, a trait object too.
pub fn apply_weather_to<B: Board + ?Sized>(board: &B, data: &WeatherData) -> (outcome: Result<
    Exchange,
    ApplyError,
>)
    ensures
        match board.weather() {
            Some(display) => match display.weather_update(
                data.wmo,
                data.is_day,
                data.current,
                data.min,
                data.max,
            ) {
                Ok(view) => outcome matches Ok(exchange) && exchange@ == view,
                Err(error) => outcome matches Err(ApplyError::Board(e)) && e == error,
            },
            None => outcome matches Err(ApplyError::Unsupported(Capability::Weather)),
        },
{
    match board.as_weather() {
        Some(display) => match display.set_weather(
            data.wmo,
            data.is_day,
            data.current,
            data.min,
            data.max,
        ) {
            Ok(exchange) => Ok(exchange),
            Err(error) => Err(ApplyError::Board(error)),
        },
        None => Err(ApplyError::Unsupported(Capability::Weather)),
    }
}

/// The exchange that shows the weather on a board; an error where the board
/// shows no weather or has no icon for the weather code. This is
/// `apply_weather_to` for a board held as a trait object.
pub fn apply_weather(board: &dyn Board, data: &WeatherData) -> (outcome: Result<
    Exchange,
    ApplyError,
>)
    ensures
        match board.weather() {
            Some(display) => match display.weather_update(
                data.wmo,
                data.is_day,
                data.current,
                data.min,
                data.max,
            ) {
                Ok(view) => outcome matches Ok(exchange) && exchange@ == view,
                Err(error) => outcome matches Err(ApplyError::Board(e)) && e == error,
            },
            None => outcome matches Err(ApplyError::Unsupported(Capability::Weather)),
        },
{
    apply_weather_to(board, data)
}

} // verus!
