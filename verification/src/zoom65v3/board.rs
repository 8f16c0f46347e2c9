//! The Zoom65 V3 keyboard.

use crate::board::{
    BoardError, BoardInfo, Capabilities, FailureReason, ScreenGroup,
    ScreenPosition as CoreScreenPosition,
};
use crate::clock::{hour_on_dial, WallClock};
use crate::features::{
    plan_or_error, AnimationFormat, Board, HasGif, HasImage, HasScreen, HasScreenSize,
    HasSystemInfo, HasTheme, HasTime, HasWeather, Navigation,
};
use crate::session::{lemma_plan_view_push, plan_view, Exchange, ExchangeView};
use crate::text::lowercase_of;
use crate::zoom65v3::abi;
use crate::zoom65v3::abi::{report, Arg};
use crate::zoom65v3::float::DumbFloat16;
use crate::zoom65v3::types::{Icon, ScreenPosition, ScreenTheme, UploadChannel};
use crate::zoom65v3::upload::{acknowledged, request, upload_plan, upload_reports};
use crate::zoom65v3::{SCREEN_HEIGHT, SCREEN_WIDTH};
use vstd::prelude::*;

verus! {

pub const ZOOM65_VENDOR_ID: u16 = 0x36B5;

pub const ZOOM65_PRODUCT_ID: u16 = 0x287F;

pub const ZOOM65_USAGE_PAGE: u16 = 65376;

pub const ZOOM65_USAGE: u16 = 97;

/// Length of an encoded image: 110 x 110 pixels of three bytes.
pub const IMAGE_SIZE: usize = 36300;

/// Width of a gif: one pixel more than the screen.
pub const GIF_WIDTH: u32 = 111;

/// Height of a gif: one pixel more than the screen.
pub const GIF_HEIGHT: u32 = 111;

/// First length that is too large for a gif.
pub const GIF_LIMIT: usize = 1013808;

/// Static board info for detection
pub open spec fn descriptor() -> BoardInfo {
    BoardInfo {
        name: "Zoom65 V3",
        cli_name: "zoom65v3",
        vendor_id: Some(ZOOM65_VENDOR_ID),
        product_id: Some(ZOOM65_PRODUCT_ID),
        usage_page: Some(ZOOM65_USAGE_PAGE),
        usage: Some(ZOOM65_USAGE),
        capabilities: Capabilities {
            time: true,
            weather: true,
            system_info: true,
            screen: true,
            image: true,
            gif: true,
            theme: false,
        },
    }
}

/// Static board info for detection
pub fn info() -> (info: BoardInfo)
    ensures
        info == descriptor(),
{
    BoardInfo {
        name: "Zoom65 V3",
        cli_name: "zoom65v3",
        vendor_id: Some(ZOOM65_VENDOR_ID),
        product_id: Some(ZOOM65_PRODUCT_ID),
        usage_page: Some(ZOOM65_USAGE_PAGE),
        usage: Some(ZOOM65_USAGE),
        capabilities: Capabilities {
            time: true,
            weather: true,
            system_info: true,
            screen: true,
            image: true,
            gif: true,
            theme: false,
        },
    }
}

/// A screen position of the given name and group.
pub open spec fn entry(
    id: &'static str,
    display_name: &'static str,
    group: ScreenGroup,
) -> CoreScreenPosition {
    CoreScreenPosition { id, display_name, group }
}

/// Screen positions for this board, in menu order
pub open spec fn positions() -> Seq<CoreScreenPosition> {
    seq![
        entry("cpu", "CPU Temp", ScreenGroup::System),
        entry("gpu", "GPU Temp", ScreenGroup::System),
        entry("download", "Download", ScreenGroup::System),
        entry("time", "Time", ScreenGroup::Time),
        entry("weather", "Weather", ScreenGroup::Time),
        entry("meletrix", "Meletrix", ScreenGroup::Logo),
        entry("zoom65", "Zoom65", ScreenGroup::Logo),
        entry("image", "Image", ScreenGroup::Logo),
        entry("gif", "GIF", ScreenGroup::Logo),
        entry("battery", "Battery", ScreenGroup::Battery),
    ]
}

fn position(id: &'static str, display_name: &'static str, group: ScreenGroup) -> (p:
    CoreScreenPosition)
    ensures
        p == entry(id, display_name, group),
{
    CoreScreenPosition { id, display_name, group }
}

/// Screen positions for this board, in menu order
pub fn screen_positions() -> (list: Vec<CoreScreenPosition>)
    ensures
        list@ == positions(),
{
    let mut list: Vec<CoreScreenPosition> = Vec::new();
    list.push(position("cpu", "CPU Temp", ScreenGroup::System));
    list.push(position("gpu", "GPU Temp", ScreenGroup::System));
    list.push(position("download", "Download", ScreenGroup::System));
    list.push(position("time", "Time", ScreenGroup::Time));
    list.push(position("weather", "Weather", ScreenGroup::Time));
    list.push(position("meletrix", "Meletrix", ScreenGroup::Logo));
    list.push(position("zoom65", "Zoom65", ScreenGroup::Logo));
    list.push(position("image", "Image", ScreenGroup::Logo));
    list.push(position("gif", "GIF", ScreenGroup::Logo));
    list.push(position("battery", "Battery", ScreenGroup::Battery));
    assert(list@ =~= positions());
    list
}

/// The exchange for one step of navigation.
pub open spec fn navigation(step: Navigation) -> ExchangeView {
    match step {
        Navigation::Up => acknowledged(report(seq![165u8, 0u8, 34u8])),
        Navigation::Down => acknowledged(report(seq![165u8, 0u8, 33u8])),
        Navigation::Switch => acknowledged(report(seq![165u8, 0u8, 32u8])),
        Navigation::Reset => acknowledged(report(seq![165u8, 1u8, 255u8])),
    }
}

/// `n` times the same exchange.
pub open spec fn repeated(exchange: ExchangeView, n: nat) -> Seq<ExchangeView> {
    Seq::new(n, |i: int| exchange)
}

/// The exchanges that bring the screen to a position: back to the default
/// screen, up or down to the row, then along the row.
pub open spec fn route(position: ScreenPosition) -> Seq<ExchangeView> {
    seq![navigation(Navigation::Reset)] + (if position.rows() < 0 {
        repeated(navigation(Navigation::Up), (-position.rows()) as nat)
    } else {
        repeated(navigation(Navigation::Down), position.rows() as nat)
    }) + repeated(navigation(Navigation::Switch), position.shifts())
}

/// The year as the clock report carries it: without the century.
pub open spec fn short_year(year: u16) -> u8 {
    (year % 100) as u8
}

/// The exchange that sets the clock, with the hour on a 12-hour dial where
/// that is asked for.
pub open spec fn time_sync(time: WallClock, use_12hr: bool) -> ExchangeView {
    acknowledged(
        report(
            seq![
                165u8,
                1u8,
                16u8,
                short_year(time.year),
                time.month,
                time.day,
                if use_12hr {
                    hour_on_dial(time.hour)
                } else {
                    time.hour
                },
                time.minute,
                time.second,
            ],
        ),
    )
}

/// The exchange that shows an icon with the current, lowest and highest
/// temperature.
pub open spec fn weather_report(icon: Icon, current: u8, low: u8, high: u8) -> ExchangeView {
    acknowledged(report(seq![165u8, 1u8, 32u8] + icon.wire() + seq![current, low, high]))
}

/// A temperature brought into the range of a byte.
pub open spec fn clamped(temp_celsius: i16) -> u8 {
    if temp_celsius < 0 {
        0
    } else if temp_celsius > 255 {
        255
    } else {
        temp_celsius as u8
    }
}

/// Bring a temperature into the range of a byte.
pub fn clamp_temperature(temp_celsius: i16) -> (t: u8)
    ensures
        t == clamped(temp_celsius),
{
    if temp_celsius < 0 {
        0
    } else if temp_celsius > 255 {
        255
    } else {
        temp_celsius as u8
    }
}

/// The weather update for a WMO code: the report with the code's icon and
/// the temperatures brought into range, or a failed command where no icon
/// exists for the code.
pub open spec fn weather_update(wmo: u8, is_day: bool, current: i16, low: i16, high: i16) -> Result<
    ExchangeView,
    BoardError,
> {
    match Icon::for_wmo(wmo, is_day) {
        Some(icon) => Ok(weather_report(icon, clamped(current), clamped(low), clamped(high))),
        None => Err(BoardError::CommandFailed(FailureReason::UnknownWeatherCode)),
    }
}

/// The exchange that shows the system information.
pub open spec fn system_info_update(cpu_temp: u8, gpu_temp: u8, download: DumbFloat16)
    -> ExchangeView {
    acknowledged(report(seq![165u8, 1u8, 64u8, cpu_temp, gpu_temp] + download.wire()))
}

/// What is said of an image of the wrong length.
pub open spec fn wrong_image_size() -> BoardError {
    BoardError::MediaTooLarge("image must be exactly 36300 bytes")
}

/// What is said of a gif that is too large.
pub open spec fn gif_too_large() -> BoardError {
    BoardError::MediaTooLarge("gif exceeds device limit")
}

/// The upload of an image: only a buffer of exactly 36300 bytes is taken.
pub open spec fn image_upload(data: Seq<u8>) -> Result<Seq<ExchangeView>, BoardError> {
    if data.len() != IMAGE_SIZE {
        Err(wrong_image_size())
    } else {
        Ok(upload_plan(data, UploadChannel::Image))
    }
}

/// The upload of a gif: only a buffer below the limit is taken.
pub open spec fn gif_upload(data: Seq<u8>) -> Result<Seq<ExchangeView>, BoardError> {
    if data.len() >= GIF_LIMIT {
        Err(gif_too_large())
    } else {
        Ok(upload_plan(data, UploadChannel::Gif))
    }
}

/// The exchanges that bring the screen to the position that a name stands
/// for, upper and lower case taken alike; `None` where it stands for none.
pub open spec fn screen_change(id: Seq<char>) -> Option<Seq<ExchangeView>> {
    match ScreenPosition::named(lowercase_of(id)) {
        Some(position) => Some(route(position)),
        None => None,
    }
}

/// High level abstraction for managing a zoom65 v3 keyboard
#[derive(Debug, Clone, Copy, PartialEq, Eq)]
pub struct Zoom65v3;

impl Zoom65v3 {
    /// Set the screen theme. Will reset the screen back to the meletrix logo
    pub fn screen_theme(&self, theme: ScreenTheme) -> (exchange: Exchange)
        ensures
            exchange@ == acknowledged(report(seq![165u8, 1u8, 255u8] + theme.wire())),
    {
        request(abi::screen_theme(theme))
    }

    /// Increment the screen position
    pub fn screen_up(&self) -> (exchange: Exchange)
        ensures
            exchange@ == navigation(Navigation::Up),
    {
        request(abi::screen_up())
    }

    /// Decrement the screen position
    pub fn screen_down(&self) -> (exchange: Exchange)
        ensures
            exchange@ == navigation(Navigation::Down),
    {
        request(abi::screen_down())
    }

    /// Switch the active screen
    pub fn screen_switch(&self) -> (exchange: Exchange)
        ensures
            exchange@ == navigation(Navigation::Switch),
    {
        request(abi::screen_switch())
    }

    /// Reset the screen back to the meletrix logo
    pub fn reset_screen(&self) -> (exchange: Exchange)
        ensures
            exchange@ == navigation(Navigation::Reset),
    {
        request(abi::reset_screen())
    }

    /// Set the screen to a specific position and offset
    pub fn set_screen(&self, position: ScreenPosition) -> (plan: Vec<Exchange>)
        ensures
            plan_view(plan@) == route(position),
    {
        let (y, x) = position.to_directions();
        let mut plan: Vec<Exchange> = Vec::new();

        // Back to default
        let reset = self.reset_screen();
        proof {
            lemma_plan_view_push(plan@, reset);
            assert(plan_view(plan@.push(reset)) =~= seq![navigation(Navigation::Reset)]);
        }
        plan.push(reset);

        // Move screen up or down
        let climb: usize = if y < 0 {
            (-y) as usize
        } else {
            y as usize
        };
        let ghost vertical = if y < 0 {
            navigation(Navigation::Up)
        } else {
            navigation(Navigation::Down)
        };
        let mut moved: usize = 0;
        while moved < climb
            invariant
                moved <= climb,
                -2 <= y <= 1,
                climb == if y < 0 {
                    -y
                } else {
                    y as int
                },
                vertical == if y < 0 {
                    navigation(Navigation::Up)
                } else {
                    navigation(Navigation::Down)
                },
                plan_view(plan@) == seq![navigation(Navigation::Reset)] + repeated(
                    vertical,
                    moved as nat,
                ),
            decreases climb - moved,
        {
            let step = if y < 0 {
                self.screen_up()
            } else {
                self.screen_down()
            };
            proof {
                lemma_plan_view_push(plan@, step);
                let start = seq![navigation(Navigation::Reset)];
                assert((start + repeated(vertical, moved as nat)).push(step@) =~= start
                    + repeated(vertical, (moved + 1) as nat));
            }
            plan.push(step);
            moved = moved + 1;
        }

        // Switch screen to offset
        let ghost head = plan_view(plan@);
        let mut shifted: usize = 0;
        while shifted < x
            invariant
                shifted <= x,
                plan_view(plan@) == head + repeated(
                    navigation(Navigation::Switch),
                    shifted as nat,
                ),
            decreases x - shifted,
        {
            let step = self.screen_switch();
            proof {
                lemma_plan_view_push(plan@, step);
                assert((head + repeated(navigation(Navigation::Switch), shifted as nat)).push(
                    step@,
                ) =~= head + repeated(navigation(Navigation::Switch), (shifted + 1) as nat));
            }
            plan.push(step);
            shifted = shifted + 1;
        }
        assert(plan_view(plan@) =~= route(position));
        plan
    }

    /// Update the keyboards current time.
    /// If 12hr is true, the hour is sent as 01-12.
    pub fn set_time(&self, time: &WallClock, use_12hr: bool) -> (exchange: Exchange)
        ensures
            exchange@ == time_sync(*time, use_12hr),
    {
        // The year goes out without the century, as the keyboard counts
        // from 2000.
        let year = (time.year % 100) as u8;
        let hour = if use_12hr {
            time.hour12()
        } else {
            time.hour
        };
        request(abi::set_time(year, time.month, time.day, hour, time.minute, time.second))
    }

    /// Update the keyboards current weather report
    pub fn set_weather(&self, icon: Icon, current: u8, low: u8, high: u8) -> (exchange: Exchange)
        ensures
            exchange@ == weather_report(icon, current, low, high),
    {
        request(abi::set_weather(icon, current, low, high))
    }

    /// Update the keyboards current system info
    pub fn set_system_info(&self, cpu_temp: u8, gpu_temp: u8, download: DumbFloat16) -> (exchange:
        Exchange)
        ensures
            exchange@ == system_info_update(cpu_temp, gpu_temp, download),
    {
        request(abi::set_system_info(cpu_temp, gpu_temp, download))
    }

    /// Upload an image to the keyboard. Must be encoded as 110x110 RGBA-3328
    /// raw buffer
    pub fn upload_image(&self, buf: &[u8]) -> (outcome: Result<Vec<Exchange>, BoardError>)
        ensures
            plan_or_error(outcome) == image_upload(buf@),
    {
        if buf.len() != IMAGE_SIZE {
            return Err(BoardError::MediaTooLarge("image must be exactly 36300 bytes"));
        }
        Ok(upload_reports(buf, UploadChannel::Image))
    }

    /// Upload a gif to the keyboard. Must be 111x111.
    pub fn upload_gif(&self, buf: &[u8]) -> (outcome: Result<Vec<Exchange>, BoardError>)
        ensures
            plan_or_error(outcome) == gif_upload(buf@),
    {
        if buf.len() >= GIF_LIMIT {
            return Err(BoardError::MediaTooLarge("gif exceeds device limit"));
        }
        Ok(upload_reports(buf, UploadChannel::Gif))
    }

    /// Clear the image slot
    pub fn clear_image(&self) -> (exchange: Exchange)
        ensures
            exchange@ == acknowledged(report(seq![165u8, 2u8, 224u8])),
    {
        request(abi::delete_image())
    }

    /// Clear the gif slot
    pub fn clear_gif(&self) -> (exchange: Exchange)
        ensures
            exchange@ == acknowledged(report(seq![165u8, 2u8, 225u8])),
    {
        request(abi::delete_gif())
    }
}

impl Board for Zoom65v3 {
    open spec fn descriptor(&self) -> BoardInfo {
        descriptor()
    }

    open spec fn time(&self) -> Option<&dyn HasTime> {
        Some(self)
    }

    open spec fn weather(&self) -> Option<&dyn HasWeather> {
        Some(self)
    }

    open spec fn system_info(&self) -> Option<&dyn HasSystemInfo> {
        Some(self)
    }

    open spec fn screen(&self) -> Option<&dyn HasScreen> {
        Some(self)
    }

    open spec fn image(&self) -> Option<&dyn HasImage> {
        Some(self)
    }

    open spec fn gif(&self) -> Option<&dyn HasGif> {
        Some(self)
    }

    open spec fn theme(&self) -> Option<&dyn HasTheme> {
        None
    }

    open spec fn media_size(&self) -> Option<(u32, u32)> {
        Some((SCREEN_WIDTH, SCREEN_HEIGHT))
    }

    fn info(&self) -> (info: BoardInfo) {
        info()
    }

    fn as_time(&self) -> (cap: Option<&dyn HasTime>) {
        Some(self)
    }

    fn as_weather(&self) -> (cap: Option<&dyn HasWeather>) {
        Some(self)
    }

    fn as_system_info(&self) -> (cap: Option<&dyn HasSystemInfo>) {
        Some(self)
    }

    fn as_screen(&self) -> (cap: Option<&dyn HasScreen>) {
        Some(self)
    }

    fn as_screen_size(&self) -> (size: Option<(u32, u32)>) {
        Some((SCREEN_WIDTH, SCREEN_HEIGHT))
    }

    fn as_image(&self) -> (cap: Option<&dyn HasImage>) {
        Some(self)
    }

    fn as_gif(&self) -> (cap: Option<&dyn HasGif>) {
        Some(self)
    }

    fn as_theme(&self) -> (cap: Option<&dyn HasTheme>) {
        None
    }
}

impl HasTime for Zoom65v3 {
    open spec fn time_sync(&self, time: WallClock, use_12hr: bool) -> ExchangeView {
        time_sync(time, use_12hr)
    }

    fn set_time(&self, time: &WallClock, use_12hr: bool) -> (exchange: Exchange) {
        Zoom65v3::set_time(self, time, use_12hr)
    }
}

impl HasWeather for Zoom65v3 {
    open spec fn weather_update(&self, wmo: u8, is_day: bool, current: i16, low: i16, high: i16)
        -> Result<ExchangeView, BoardError> {
        weather_update(wmo, is_day, current, low, high)
    }

    fn set_weather(&self, wmo: u8, is_day: bool, current: i16, low: i16, high: i16) -> (outcome:
        Result<Exchange, BoardError>) {
        match Icon::from_wmo(wmo, is_day) {
            // Clamp to u8 range for this board's protocol
            Some(icon) => Ok(
                Zoom65v3::set_weather(
                    self,
                    icon,
                    clamp_temperature(current),
                    clamp_temperature(low),
                    clamp_temperature(high),
                ),
            ),
            None => Err(BoardError::CommandFailed(FailureReason::UnknownWeatherCode)),
        }
    }
}

impl HasSystemInfo for Zoom65v3 {
    open spec fn system_info_update(&self, cpu: u8, gpu: u8, download: DumbFloat16)
        -> ExchangeView {
        system_info_update(cpu, gpu, download)
    }

    fn set_system_info(&self, cpu: u8, gpu: u8, download: DumbFloat16) -> (exchange: Exchange) {
        Zoom65v3::set_system_info(self, cpu, gpu, download)
    }
}

impl HasScreen for Zoom65v3 {
    open spec fn positions(&self) -> Seq<CoreScreenPosition> {
        positions()
    }

    open spec fn screen_change(&self, id: Seq<char>) -> Option<Seq<ExchangeView>> {
        screen_change(id)
    }

    open spec fn refusal(&self, id: Seq<char>) -> Seq<char> {
        crate::zoom65v3::types::INVALID_POSITION@ + crate::zoom65v3::types::OPTIONS@
    }

    open spec fn navigation(&self, step: Navigation) -> ExchangeView {
        navigation(step)
    }

    fn screen_positions(&self) -> (list: Vec<CoreScreenPosition>) {
        screen_positions()
    }

    fn set_screen(&self, id: &str) -> (outcome: Result<Vec<Exchange>, BoardError>) {
        match ScreenPosition::parse(id) {
            Ok(position) => Ok(Zoom65v3::set_screen(self, position)),
            Err(why) => Err(BoardError::InvalidScreenPosition(why)),
        }
    }

    fn screen_up(&self) -> (exchange: Exchange) {
        Zoom65v3::screen_up(self)
    }

    fn screen_down(&self) -> (exchange: Exchange) {
        Zoom65v3::screen_down(self)
    }

    fn screen_switch(&self) -> (exchange: Exchange) {
        Zoom65v3::screen_switch(self)
    }

    fn reset_screen(&self) -> (exchange: Exchange) {
        Zoom65v3::reset_screen(self)
    }
}

impl HasScreenSize for Zoom65v3 {
    open spec fn dimensions(&self) -> (u32, u32) {
        (SCREEN_WIDTH, SCREEN_HEIGHT)
    }

    fn screen_size(&self) -> (size: (u32, u32)) {
        (SCREEN_WIDTH, SCREEN_HEIGHT)
    }
}

impl HasImage for Zoom65v3 {
    open spec fn image_upload(&self, data: Seq<u8>) -> Result<Seq<ExchangeView>, BoardError> {
        image_upload(data)
    }

    open spec fn image_removal(&self) -> ExchangeView {
        acknowledged(report(seq![165u8, 2u8, 224u8]))
    }

    fn upload_image(&self, data: &[u8]) -> (outcome: Result<Vec<Exchange>, BoardError>) {
        Zoom65v3::upload_image(self, data)
    }

    fn clear_image(&self) -> (exchange: Exchange) {
        Zoom65v3::clear_image(self)
    }
}

impl HasGif for Zoom65v3 {
    open spec fn animation_format(&self) -> AnimationFormat {
        AnimationFormat::Gif { width: GIF_WIDTH, height: GIF_HEIGHT }
    }

    fn format(&self) -> (format: AnimationFormat) {
        AnimationFormat::Gif { width: GIF_WIDTH, height: GIF_HEIGHT }
    }

    open spec fn gif_upload(&self, data: Seq<u8>) -> Result<Seq<ExchangeView>, BoardError> {
        gif_upload(data)
    }

    open spec fn gif_removal(&self) -> ExchangeView {
        acknowledged(report(seq![165u8, 2u8, 225u8]))
    }

    fn upload_gif(&self, data: &[u8]) -> (outcome: Result<Vec<Exchange>, BoardError>) {
        Zoom65v3::upload_gif(self, data)
    }

    fn clear_gif(&self) -> (exchange: Exchange) {
        Zoom65v3::clear_gif(self)
    }
}

} // verus!
