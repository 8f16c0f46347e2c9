//! The Zoom75 Tiga keyboard.
//!
//! The board speaks the Tiga protocol like the Zoom TKL Dyna. It takes no
//! part in detection and cannot be selected by name: its vendor and product
//! id are not known, and its descriptor would match every keyboard that has
//! the screen interface.

use crate::board::{BoardError, BoardInfo, Capabilities};
use crate::clock::WallClock;
use crate::features::{
    AnimationFormat, Board, HasGif, HasImage, HasScreen, HasSystemInfo, HasTheme, HasTime,
    HasWeather,
};
use crate::session::{Exchange, ExchangeView};
use crate::tiga::abi::{frame, image_end, image_end_payload, CMD_IMAGE, SUB_TYPE_COMMAND};
use crate::tiga::commands;
use crate::tiga::types::{Rgb565, ScreenMode, WeatherIcon};
use crate::tiga::upload;
use crate::tiga::{SCREEN_HEIGHT, SCREEN_WIDTH};
use vstd::prelude::*;

verus! {

/// HID usage page for the Zoom75 Tiga screen interface
pub const USAGE_PAGE: u16 = 65376;

/// HID usage for the Zoom75 Tiga screen interface
pub const USAGE: u16 = 97;

/// Static board info. The vendor and product id are not known, so every
/// device with the screen interface's usage matches.
pub open spec fn descriptor() -> BoardInfo {
    BoardInfo {
        name: "Zoom75 Tiga",
        cli_name: "zoom75-tiga",
        vendor_id: None,
        product_id: None,
        usage_page: Some(USAGE_PAGE),
        usage: Some(USAGE),
        capabilities: Capabilities {
            theme: true,
            time: true,
            weather: true,
            image: true,
            system_info: false,
            screen: false,
            gif: true,
        },
    }
}

/// Static board info
pub fn info() -> (info: BoardInfo)
    ensures
        info == descriptor(),
{
    BoardInfo {
        name: "Zoom75 Tiga",
        cli_name: "zoom75-tiga",
        vendor_id: None,
        product_id: None,
        usage_page: Some(USAGE_PAGE),
        usage: Some(USAGE),
        capabilities: Capabilities {
            theme: true,
            time: true,
            weather: true,
            image: true,
            system_info: false,
            screen: false,
            gif: true,
        },
    }
}

/// High level abstraction for managing a Zoom75 Tiga keyboard
#[derive(Debug, Clone, Copy, PartialEq, Eq)]
pub struct Zoom75Tiga;

impl Zoom75Tiga {
    /// Sync the given date and time to the keyboard display.
    pub fn set_time(&self, time: &WallClock) -> (exchange: Exchange)
        ensures
            exchange@ == commands::time_sync(*time),
    {
        commands::set_time(time)
    }

    /// Update the weather display.
    pub fn set_weather(&self, icon: WeatherIcon, current: i16, low: i16, high: i16) -> (exchange:
        Exchange)
        requires
            commands::encodable(current),
            commands::encodable(low),
            commands::encodable(high),
        ensures
            exchange@ == commands::weather_report(icon, current, low, high),
    {
        commands::set_weather(icon, current, low, high)
    }

    /// Set the screen theme colors.
    pub fn set_theme(&self, bg_color: Rgb565, font_color: Rgb565, theme_id: u8) -> (exchange:
        Exchange)
        ensures
            exchange@ == commands::theme_change(bg_color, font_color, theme_id),
    {
        commands::set_theme(bg_color, font_color, theme_id)
    }

    /// Send a screen control command.
    pub fn screen_control(&self, mode: ScreenMode) -> (exchange: Exchange)
        ensures
            exchange@ == commands::screen_command(mode),
    {
        commands::control_screen(mode)
    }

    /// Navigate up in menu.
    pub fn screen_up(&self) -> (exchange: Exchange)
        ensures
            exchange@ == commands::screen_command(ScreenMode::Up),
    {
        self.screen_control(ScreenMode::Up)
    }

    /// Navigate down in menu.
    pub fn screen_down(&self) -> (exchange: Exchange)
        ensures
            exchange@ == commands::screen_command(ScreenMode::Down),
    {
        self.screen_control(ScreenMode::Down)
    }

    /// Enter/select menu item.
    pub fn screen_enter(&self) -> (exchange: Exchange)
        ensures
            exchange@ == commands::screen_command(ScreenMode::Enter),
    {
        self.screen_control(ScreenMode::Enter)
    }

    /// Return/back from menu.
    pub fn screen_return(&self) -> (exchange: Exchange)
        ensures
            exchange@ == commands::screen_command(ScreenMode::Return),
    {
        self.screen_control(ScreenMode::Return)
    }

    /// Reset themes, gifs and images.
    pub fn screen_reset(&self) -> (exchange: Exchange)
        ensures
            exchange@ == commands::screen_command(ScreenMode::Reset),
    {
        self.screen_control(ScreenMode::Reset)
    }

    /// Upload an image to the keyboard screen.
    ///
    /// The image data should be in RGB565 format.
    /// Screen size is 320x172 pixels.
    pub fn upload_image(&self, data: &[u8]) -> (outcome: Result<Vec<Exchange>, BoardError>)
        ensures
            crate::features::plan_or_error(outcome) == upload::upload(data@),
    {
        upload::upload_frames(data)
    }

    /// Upload a RGB565 animation to the keyboard screen.
    ///
    /// The data should be encoded with frame count, delays, and RGB565
    /// frame data.
    pub fn upload_565_animation(&self, data: &[u8]) -> (outcome: Result<Vec<Exchange>, BoardError>)
        ensures
            crate::features::plan_or_error(outcome) == upload::upload(data@),
    {
        self.upload_image(data)
    }

    /// Clear the image from the screen: an upload that ends at once.
    pub fn clear_image(&self) -> (exchange: Exchange)
        ensures
            exchange@ == commands::silent(frame(CMD_IMAGE, image_end_payload(), SUB_TYPE_COMMAND)),
    {
        commands::send(image_end())
    }

    /// Clear the GIF/animation from the screen.
    pub fn clear_gif(&self) -> (exchange: Exchange)
        ensures
            exchange@ == commands::screen_command(ScreenMode::Reset),
    {
        self.screen_reset()
    }
}

impl Board for Zoom75Tiga {
    open spec fn descriptor(&self) -> BoardInfo {
        descriptor()
    }

    open spec fn time(&self) -> Option<&dyn HasTime> {
        Some(self)
    }

    open spec fn weather(&self) -> Option<&dyn HasWeather> {
        Some(self)
    }

    open spec fn system_info(&self) -> Option<&dyn HasSystemInfo> {
        None
    }

    open spec fn screen(&self) -> Option<&dyn HasScreen> {
        None
    }

    open spec fn image(&self) -> Option<&dyn HasImage> {
        Some(self)
    }

    open spec fn gif(&self) -> Option<&dyn HasGif> {
        Some(self)
    }

    open spec fn theme(&self) -> Option<&dyn HasTheme> {
        Some(self)
    }

    open spec fn media_size(&self) -> Option<(u32, u32)> {
        Some((SCREEN_WIDTH, SCREEN_HEIGHT))
    }

    fn info(&self) -> (info: BoardInfo) {
        info()
    }

    fn as_time(&self) -> (cap: Option<&dyn HasTime>) {
        Some(self)
    }

    fn as_weather(&self) -> (cap: Option<&dyn HasWeather>) {
        Some(self)
    }

    fn as_system_info(&self) -> (cap: Option<&dyn HasSystemInfo>) {
        None
    }

    fn as_screen(&self) -> (cap: Option<&dyn HasScreen>) {
        None
    }

    fn as_screen_size(&self) -> (size: Option<(u32, u32)>) {
        Some((SCREEN_WIDTH, SCREEN_HEIGHT))
    }

    fn as_image(&self) -> (cap: Option<&dyn HasImage>) {
        Some(self)
    }

    fn as_gif(&self) -> (cap: Option<&dyn HasGif>) {
        Some(self)
    }

    fn as_theme(&self) -> (cap: Option<&dyn HasTheme>) {
        Some(self)
    }
}

impl HasTime for Zoom75Tiga {
    open spec fn time_sync(&self, time: WallClock, use_12hr: bool) -> ExchangeView {
        commands::time_sync(time)
    }

    fn set_time(&self, time: &WallClock, use_12hr: bool) -> (exchange: Exchange) {
        Zoom75Tiga::set_time(self, time)
    }
}

impl HasWeather for Zoom75Tiga {
    open spec fn weather_update(&self, wmo: u8, is_day: bool, current: i16, low: i16, high: i16)
        -> Result<ExchangeView, BoardError> {
        commands::weather_update(wmo, is_day, current, low, high)
    }

    fn set_weather(&self, wmo: u8, is_day: bool, current: i16, low: i16, high: i16) -> (outcome:
        Result<Exchange, BoardError>) {
        commands::set_weather_by_code(wmo, is_day, current, low, high)
    }
}

impl HasImage for Zoom75Tiga {
    open spec fn image_upload(&self, data: Seq<u8>) -> Result<Seq<ExchangeView>, BoardError> {
        upload::upload(data)
    }

    open spec fn image_removal(&self) -> ExchangeView {
        commands::silent(frame(CMD_IMAGE, image_end_payload(), SUB_TYPE_COMMAND))
    }

    fn upload_image(&self, data: &[u8]) -> (outcome: Result<Vec<Exchange>, BoardError>) {
        Zoom75Tiga::upload_image(self, data)
    }

    fn clear_image(&self) -> (exchange: Exchange) {
        Zoom75Tiga::clear_image(self)
    }
}

impl HasTheme for Zoom75Tiga {
    open spec fn theme_change(&self, bg_color: u16, font_color: u16, theme_id: u8) -> ExchangeView {
        commands::theme_change(Rgb565(bg_color), Rgb565(font_color), theme_id)
    }

    fn set_theme(&self, bg_color: u16, font_color: u16, theme_id: u8) -> (exchange: Exchange) {
        Zoom75Tiga::set_theme(self, Rgb565(bg_color), Rgb565(font_color), theme_id)
    }
}

impl HasGif for Zoom75Tiga {
    open spec fn animation_format(&self) -> AnimationFormat {
        AnimationFormat::Rgb565 { width: SCREEN_WIDTH, height: SCREEN_HEIGHT }
    }

    fn format(&self) -> (format: AnimationFormat) {
        AnimationFormat::Rgb565 { width: SCREEN_WIDTH, height: SCREEN_HEIGHT }
    }

    open spec fn gif_upload(&self, data: Seq<u8>) -> Result<Seq<ExchangeView>, BoardError> {
        upload::upload(data)
    }

    open spec fn gif_removal(&self) -> ExchangeView {
        commands::screen_command(ScreenMode::Reset)
    }

    /// Upload an animation that has already been encoded as RGB565 frames
    /// with their delays.
    fn upload_gif(&self, data: &[u8]) -> (outcome: Result<Vec<Exchange>, BoardError>) {
        self.upload_565_animation(data)
    }

    fn clear_gif(&self) -> (exchange: Exchange) {
        Zoom75Tiga::clear_gif(self)
    }
}

} // verus!
