//! Feature traits for board capabilities.
//!
//! A board opts in to a feature by implementing its trait and handing itself
//! out from the matching `as_*()` method of [`Board`]. No method here touches
//! the device: each returns the exchanges that the caller has to carry out,
//! in order, stopping at the first that fails.

use crate::board::{BoardError, BoardInfo, ScreenPosition};
use crate::clock::WallClock;
use crate::session::{plan_view, Exchange, ExchangeView};
use crate::zoom65v3::float::DumbFloat16;
use vstd::prelude::*;

verus! {

/// A single exchange or an error, with the packet as a byte sequence.
pub open spec fn exchange_or_error(r: Result<Exchange, BoardError>) -> Result<
    ExchangeView,
    BoardError,
> {
    match r {
        Ok(e) => Ok(e@),
        Err(e) => Err(e),
    }
}

/// A run of exchanges or an error, with the packets as byte sequences.
pub open spec fn plan_or_error(r: Result<Vec<Exchange>, BoardError>) -> Result<
    Seq<ExchangeView>,
    BoardError,
> {
    match r {
        Ok(plan) => Ok(plan_view(plan@)),
        Err(e) => Err(e),
    }
}

/// Time synchronization capability
pub trait HasTime {
    /// The exchange that sets the keyboard's clock.
    spec fn time_sync(&self, time: WallClock, use_12hr: bool) -> ExchangeView;

    fn set_time(&self, time: &WallClock, use_12hr: bool) -> (exchange: Exchange)
        ensures
            exchange@ == self.time_sync(*time, use_12hr),
    ;
}

/// Weather display capability
pub trait HasWeather {
    /// The exchange that shows the weather, or the error for a weather code
    /// that the board has no icon for.
    spec fn weather_update(&self, wmo: u8, is_day: bool, current: i16, low: i16, high: i16)
        -> Result<ExchangeView, BoardError>;

    /// Set weather display. The WMO code is converted to the board's own
    /// icon. Temperatures are in Celsius; each board converts to its native
    /// format.
    fn set_weather(&self, wmo: u8, is_day: bool, current: i16, low: i16, high: i16) -> (outcome:
        Result<Exchange, BoardError>)
        ensures
            exchange_or_error(outcome) == self.weather_update(wmo, is_day, current, low, high),
    ;
}

/// System info display capability (CPU temp, GPU temp, download speed)
pub trait HasSystemInfo {
    /// The exchange that shows the system information.
    spec fn system_info_update(&self, cpu: u8, gpu: u8, download: DumbFloat16) -> ExchangeView;

    fn set_system_info(&self, cpu: u8, gpu: u8, download: DumbFloat16) -> (exchange: Exchange)
        ensures
            exchange@ == self.system_info_update(cpu, gpu, download),
    ;
}

/// Screen position control capability
pub trait HasScreen {
    /// The screen positions of this board, in menu order.
    spec fn positions(&self) -> Seq<ScreenPosition>;

    /// The exchanges that bring the screen to the position named `id`;
    /// `None` where the name stands for no position.
    spec fn screen_change(&self, id: Seq<char>) -> Option<Seq<ExchangeView>>;

    /// What is said of a name that stands for no position.
    spec fn refusal(&self, id: Seq<char>) -> Seq<char>;

    /// The exchange for one step of navigation.
    spec fn navigation(&self, step: Navigation) -> ExchangeView;

    /// Available screen positions for this board
    fn screen_positions(&self) -> (positions: Vec<ScreenPosition>)
        ensures
            positions@ == self.positions(),
    ;

    /// Set screen by position ID (e.g., "cpu", "weather", "gif")
    fn set_screen(&self, id: &str) -> (outcome: Result<Vec<Exchange>, BoardError>)
        ensures
            outcome is Ok <==> self.screen_change(id@) is Some,
            outcome matches Ok(plan) ==> self.screen_change(id@) == Some(plan_view(plan@)),
            outcome matches Err(e) ==> e matches BoardError::InvalidScreenPosition(why) && why@
                == self.refusal(id@),
    ;

    fn screen_up(&self) -> (exchange: Exchange)
        ensures
            exchange@ == self.navigation(Navigation::Up),
    ;

    fn screen_down(&self) -> (exchange: Exchange)
        ensures
            exchange@ == self.navigation(Navigation::Down),
    ;

    fn screen_switch(&self) -> (exchange: Exchange)
        ensures
            exchange@ == self.navigation(Navigation::Switch),
    ;

    fn reset_screen(&self) -> (exchange: Exchange)
        ensures
            exchange@ == self.navigation(Navigation::Reset),
    ;
}

/// One step of screen navigation.
#[derive(Debug, Clone, Copy, PartialEq, Eq, Structural)]
pub enum Navigation {
    Up,
    Down,
    Switch,
    Reset,
}

/// Screen dimensions - boards with media support also answer
/// `as_screen_size()`
pub trait HasScreenSize {
    /// Width and height of the screen in pixels.
    spec fn dimensions(&self) -> (u32, u32);

    fn screen_size(&self) -> (size: (u32, u32))
        ensures
            size == self.dimensions(),
    ;
}

/// Static image upload capability
pub trait HasImage {
    /// The exchanges that upload an encoded image, or the error for a
    /// buffer that the board cannot take.
    spec fn image_upload(&self, data: Seq<u8>) -> Result<
        Seq<ExchangeView>,
        BoardError,
    >;

    /// The exchange that clears the image slot.
    spec fn image_removal(&self) -> ExchangeView;

    fn upload_image(&self, data: &[u8]) -> (outcome: Result<Vec<Exchange>, BoardError>)
        ensures
            plan_or_error(outcome) == self.image_upload(data@),
    ;

    fn clear_image(&self) -> (exchange: Exchange)
        ensures
            exchange@ == self.image_removal(),
    ;
}

/// How a board wants its animations encoded, and at which size.
#[derive(Debug, Clone, Copy, PartialEq, Eq, Structural)]
pub enum AnimationFormat {
    /// A standard gif of this size
    Gif { width: u32, height: u32 },
    /// RGB565 frames of this size behind a table of their delays
    Rgb565 { width: u32, height: u32 },
}

/// Animated GIF upload capability
pub trait HasGif {
    /// How the board wants its animations encoded.
    spec fn animation_format(&self) -> AnimationFormat;

    fn format(&self) -> (format: AnimationFormat)
        ensures
            format == self.animation_format(),
    ;

    /// The exchanges that upload an encoded animation, or the error for a
    /// buffer that the board cannot take.
    spec fn gif_upload(&self, data: Seq<u8>) -> Result<
        Seq<ExchangeView>,
        BoardError,
    >;

    /// The exchange that clears the animation slot.
    spec fn gif_removal(&self) -> ExchangeView;

    fn upload_gif(&self, data: &[u8]) -> (outcome: Result<Vec<Exchange>, BoardError>)
        ensures
            plan_or_error(outcome) == self.gif_upload(data@),
    ;

    fn clear_gif(&self) -> (exchange: Exchange)
        ensures
            exchange@ == self.gif_removal(),
    ;
}

/// Theme customization capability (background color, font color)
pub trait HasTheme {
    /// The exchange that sets the theme.
    spec fn theme_change(&self, bg_color: u16, font_color: u16, theme_id: u8) -> ExchangeView;

    /// Set screen theme with RGB565 colors
    /// - bg_color: Background color as RGB565 (16-bit)
    /// - font_color: Font color as RGB565 (16-bit)
    /// - theme_id: Theme preset ID
    fn set_theme(&self, bg_color: u16, font_color: u16, theme_id: u8) -> (exchange: Exchange)
        ensures
            exchange@ == self.theme_change(bg_color, font_color, theme_id),
    ;
}

/// Core board trait - object-safe for `dyn Board`
///
/// A board answers with its static descriptor and, for each capability, with
/// a handle or nothing. Which capabilities a board has never changes, and
/// always agrees with the flags of its descriptor.
pub trait Board: Send {
    /// The static descriptor of this board type.
    spec fn descriptor(&self) -> BoardInfo;

    /// The handle for time synchronization, if the board has a clock.
    spec fn time(&self) -> Option<&dyn HasTime>;

    /// The handle for the weather display, if the board has one.
    spec fn weather(&self) -> Option<&dyn HasWeather>;

    /// The handle for the system info display, if the board has one.
    spec fn system_info(&self) -> Option<&dyn HasSystemInfo>;

    /// The handle for screen control, if the board has it.
    spec fn screen(&self) -> Option<&dyn HasScreen>;

    /// The handle for image upload, if the board takes images.
    spec fn image(&self) -> Option<&dyn HasImage>;

    /// The handle for animation upload, if the board takes animations.
    spec fn gif(&self) -> Option<&dyn HasGif>;

    /// The handle for theme customization, if the board has themes.
    spec fn theme(&self) -> Option<&dyn HasTheme>;

    /// The screen size, on boards that take media.
    spec fn media_size(&self) -> Option<(u32, u32)>;

    /// Get board info
    fn info(&self) -> (info: BoardInfo)
        ensures
            info == self.descriptor(),
    ;

    fn as_time(&self) -> (cap: Option<&dyn HasTime>)
        ensures
            cap == self.time(),
            cap.is_some() == self.descriptor().capabilities.time,
    ;

    fn as_weather(&self) -> (cap: Option<&dyn HasWeather>)
        ensures
            cap == self.weather(),
            cap.is_some() == self.descriptor().capabilities.weather,
    ;

    fn as_system_info(&self) -> (cap: Option<&dyn HasSystemInfo>)
        ensures
            cap == self.system_info(),
            cap.is_some() == self.descriptor().capabilities.system_info,
    ;

    fn as_screen(&self) -> (cap: Option<&dyn HasScreen>)
        ensures
            cap == self.screen(),
            cap.is_some() == self.descriptor().capabilities.screen,
    ;

    fn as_screen_size(&self) -> (size: Option<(u32, u32)>)
        ensures
            size == self.media_size(),
            size.is_some() == (self.descriptor().capabilities.image
                || self.descriptor().capabilities.gif),
    ;

    fn as_image(&self) -> (cap: Option<&dyn HasImage>)
        ensures
            cap == self.image(),
            cap.is_some() == self.descriptor().capabilities.image,
    ;

    fn as_gif(&self) -> (cap: Option<&dyn HasGif>)
        ensures
            cap == self.gif(),
            cap.is_some() == self.descriptor().capabilities.gif,
    ;

    fn as_theme(&self) -> (cap: Option<&dyn HasTheme>)
        ensures
            cap == self.theme(),
            cap.is_some() == self.descriptor().capabilities.theme,
    ;
}

} // verus!
