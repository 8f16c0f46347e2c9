//! Configuration of the tray daemon, as plain values. Reading and writing
//! the config file is the caller's part.

use crate::tray::commands::Settings;
use vstd::prelude::*;
use vstd::string::StringExecFns;

verus! {

#[derive(Debug, Clone, PartialEq, Eq)]
pub struct GeneralConfig {
    /// Use fahrenheit instead of celsius
    pub fahrenheit: bool,
    /// Use 12-hour time format
    pub use_12hr_time: bool,
    /// Initial screen position on connect (use "reactive" for reactive mode)
    pub initial_screen: String,
}

impl Default for GeneralConfig {
    fn default() -> (config: Self)
        ensures
            !config.fahrenheit,
            !config.use_12hr_time,
            config.initial_screen@ == "meletrix"@,
    {
        GeneralConfig {
            fahrenheit: false,
            use_12hr_time: false,
            initial_screen: String::from_str("meletrix"),
        }
    }
}

/// Refresh intervals, in milliseconds.
#[derive(Debug, Clone, Copy, PartialEq, Eq, Structural)]
pub struct RefreshConfig {
    /// System info refresh interval
    pub system: u64,
    /// Weather refresh interval
    pub weather: u64,
    /// Keyboard reconnection retry interval
    pub retry: u64,
}

impl Default for RefreshConfig {
    fn default() -> (config: Self)
        ensures
            config == (RefreshConfig { system: 10_000, weather: 3_600_000, retry: 5_000 }),
    {
        RefreshConfig { system: 10_000, weather: 3_600_000, retry: 5_000 }
    }
}

#[derive(Debug, Clone, Copy, PartialEq, Eq, Structural)]
pub struct WeatherConfig {
    /// Enable weather updates
    pub enabled: bool,
}

impl Default for WeatherConfig {
    fn default() -> (config: Self)
        ensures
            config.enabled,
    {
        WeatherConfig { enabled: true }
    }
}

#[derive(Debug, Clone, PartialEq, Eq)]
pub struct SystemInfoConfig {
    /// Enable system info updates
    pub enabled: bool,
    /// CPU temperature sensor label ("auto" for automatic)
    pub cpu_source: String,
    /// GPU device index
    pub gpu_device: u32,
}

impl Default for SystemInfoConfig {
    fn default() -> (config: Self)
        ensures
            config.enabled,
            config.cpu_source@ == "Package"@,
            config.gpu_device == 0,
    {
        SystemInfoConfig { enabled: true, cpu_source: String::from_str("Package"), gpu_device: 0 }
    }
}

#[derive(Debug, Clone, PartialEq, Eq)]
pub struct MediaConfig {
    /// Background color for transparent images (hex)
    pub background_color: String,
    /// Use nearest neighbor interpolation
    pub use_nearest_neighbor: bool,
    /// Last uploaded image path
    pub last_image: Option<String>,
    /// Last uploaded GIF path
    pub last_gif: Option<String>,
}

impl Default for MediaConfig {
    fn default() -> (config: Self)
        ensures
            config.background_color@ == "#000000"@,
            !config.use_nearest_neighbor,
            config.last_image is None,
            config.last_gif is None,
    {
        MediaConfig {
            background_color: String::from_str("#000000"),
            use_nearest_neighbor: false,
            last_image: None,
            last_gif: None,
        }
    }
}

#[derive(Debug, Clone, PartialEq, Eq)]
pub struct Config {
    pub general: GeneralConfig,
    pub refresh: RefreshConfig,
    pub weather: WeatherConfig,
    pub system_info: SystemInfoConfig,
    pub media: MediaConfig,
}

impl Default for Config {
    fn default() -> (config: Self)
        ensures
            config.general.initial_screen@ == "meletrix"@,
            !config.general.fahrenheit,
            !config.general.use_12hr_time,
            config.refresh == (RefreshConfig { system: 10_000, weather: 3_600_000, retry: 5_000 }),
            config.weather.enabled,
            config.system_info.enabled,
    {
        Config {
            general: GeneralConfig::default(),
            refresh: RefreshConfig::default(),
            weather: WeatherConfig::default(),
            system_info: SystemInfoConfig::default(),
            media: MediaConfig::default(),
        }
    }
}

impl Config {
    /// The settings that the daemon acts on. The initial screen is handed
    /// in as the name that the config's own stands for.
    pub fn settings(&self, initial_screen: &'static str) -> (settings: Settings)
        ensures
            settings.fahrenheit == self.general.fahrenheit,
            settings.use_12hr_time == self.general.use_12hr_time,
            settings.initial_screen == initial_screen,
            settings.weather_enabled == self.weather.enabled,
            settings.system_info_enabled == self.system_info.enabled,
            settings.system_ms == self.refresh.system,
            settings.weather_ms == self.refresh.weather,
            settings.retry_ms == self.refresh.retry,
    {
        Settings {
            fahrenheit: self.general.fahrenheit,
            use_12hr_time: self.general.use_12hr_time,
            initial_screen,
            weather_enabled: self.weather.enabled,
            system_info_enabled: self.system_info.enabled,
            system_ms: self.refresh.system,
            weather_ms: self.refresh.weather,
            retry_ms: self.refresh.retry,
        }
    }
}

} // verus!
