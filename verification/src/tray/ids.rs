//! Menu item IDs for event handling

use vstd::prelude::*;

verus! {

pub const STATUS: &'static str = "status";

// Screen positions (radio group)
pub const SCREEN_CPU: &'static str = "screen_cpu";

pub const SCREEN_GPU: &'static str = "screen_gpu";

pub const SCREEN_DOWNLOAD: &'static str = "screen_download";

pub const SCREEN_TIME: &'static str = "screen_time";

pub const SCREEN_WEATHER: &'static str = "screen_weather";

pub const SCREEN_MELETRIX: &'static str = "screen_meletrix";

pub const SCREEN_ZOOM65: &'static str = "screen_zoom65";

pub const SCREEN_IMAGE: &'static str = "screen_image";

pub const SCREEN_GIF: &'static str = "screen_gif";

pub const SCREEN_BATTERY: &'static str = "screen_battery";

// Screen navigation
pub const NAV_UP: &'static str = "nav_up";

pub const NAV_DOWN: &'static str = "nav_down";

pub const NAV_SWITCH: &'static str = "nav_switch";

// Settings toggles
pub const TOGGLE_WEATHER: &'static str = "toggle_weather";

pub const TOGGLE_SYSTEM: &'static str = "toggle_system";

pub const TOGGLE_12HR: &'static str = "toggle_12hr";

pub const TOGGLE_FAHRENHEIT: &'static str = "toggle_fahrenheit";

pub const TOGGLE_REACTIVE: &'static str = "toggle_reactive";

// Media
pub const UPLOAD_IMAGE: &'static str = "upload_image";

pub const UPLOAD_GIF: &'static str = "upload_gif";

pub const CLEAR_IMAGE: &'static str = "clear_image";

pub const CLEAR_GIF: &'static str = "clear_gif";

pub const CLEAR_ALL: &'static str = "clear_all";

// Config
pub const OPEN_CONFIG: &'static str = "open_config";

pub const RELOAD_CONFIG: &'static str = "reload_config";

// App
pub const QUIT: &'static str = "quit";

} // verus!
