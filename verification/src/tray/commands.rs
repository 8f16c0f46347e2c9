//! Command and state types for tray-daemon communication

use vstd::prelude::*;

verus! {

/// Commands sent from tray menu to the daemon
#[derive(Debug, Clone, PartialEq, Eq)]
pub enum TrayCommand {
    /// Sync the clock now
    SetTime,
    /// Refresh the weather now
    SetWeather,
    /// Refresh the system info now
    SetSystemInfo,
    /// Set screen to specific position (by ID) and save as default
    SetScreen(&'static str),
    /// Move the screen up
    ScreenUp,
    /// Move the screen down
    ScreenDown,
    /// Switch the screen offset
    ScreenSwitch,
    /// Toggle weather updates
    ToggleWeather,
    /// Toggle system info updates
    ToggleSystemInfo,
    /// Toggle 12-hour time format
    Toggle12HrTime,
    /// Toggle fahrenheit/celsius
    ToggleFahrenheit,
    /// Upload pre-encoded image data
    UploadImage(Vec<u8>),
    /// Upload pre-encoded GIF data
    UploadGif(Vec<u8>),
    /// Clear uploaded image
    ClearImage,
    /// Clear uploaded GIF
    ClearGif,
    /// Clear all media
    ClearAllMedia,
    /// Reload config from file
    ReloadConfig,
    /// Quit the application
    Quit,
}

/// What a command is about, whatever it carries. Of the commands that wait
/// at one time, only the latest of each kind is kept.
#[derive(Debug, Clone, Copy, PartialEq, Eq, Structural)]
pub enum CommandKind {
    SetTime,
    SetWeather,
    SetSystemInfo,
    SetScreen,
    ScreenUp,
    ScreenDown,
    ScreenSwitch,
    ToggleWeather,
    ToggleSystemInfo,
    Toggle12HrTime,
    ToggleFahrenheit,
    UploadImage,
    UploadGif,
    ClearImage,
    ClearGif,
    ClearAllMedia,
    ReloadConfig,
    Quit,
}

impl TrayCommand {
    /// The kind of this command.
    pub open spec fn spec_kind(self) -> CommandKind {
        match self {
            TrayCommand::SetTime => CommandKind::SetTime,
            TrayCommand::SetWeather => CommandKind::SetWeather,
            TrayCommand::SetSystemInfo => CommandKind::SetSystemInfo,
            TrayCommand::SetScreen(_) => CommandKind::SetScreen,
            TrayCommand::ScreenUp => CommandKind::ScreenUp,
            TrayCommand::ScreenDown => CommandKind::ScreenDown,
            TrayCommand::ScreenSwitch => CommandKind::ScreenSwitch,
            TrayCommand::ToggleWeather => CommandKind::ToggleWeather,
            TrayCommand::ToggleSystemInfo => CommandKind::ToggleSystemInfo,
            TrayCommand::Toggle12HrTime => CommandKind::Toggle12HrTime,
            TrayCommand::ToggleFahrenheit => CommandKind::ToggleFahrenheit,
            TrayCommand::UploadImage(_) => CommandKind::UploadImage,
            TrayCommand::UploadGif(_) => CommandKind::UploadGif,
            TrayCommand::ClearImage => CommandKind::ClearImage,
            TrayCommand::ClearGif => CommandKind::ClearGif,
            TrayCommand::ClearAllMedia => CommandKind::ClearAllMedia,
            TrayCommand::ReloadConfig => CommandKind::ReloadConfig,
            TrayCommand::Quit => CommandKind::Quit,
        }
    }

    /// The kind of this command.
    pub fn kind(&self) -> (kind: CommandKind)
        ensures
            kind == self.spec_kind(),
    {
        match self {
            TrayCommand::SetTime => CommandKind::SetTime,
            TrayCommand::SetWeather => CommandKind::SetWeather,
            TrayCommand::SetSystemInfo => CommandKind::SetSystemInfo,
            TrayCommand::SetScreen(_) => CommandKind::SetScreen,
            TrayCommand::ScreenUp => CommandKind::ScreenUp,
            TrayCommand::ScreenDown => CommandKind::ScreenDown,
            TrayCommand::ScreenSwitch => CommandKind::ScreenSwitch,
            TrayCommand::ToggleWeather => CommandKind::ToggleWeather,
            TrayCommand::ToggleSystemInfo => CommandKind::ToggleSystemInfo,
            TrayCommand::Toggle12HrTime => CommandKind::Toggle12HrTime,
            TrayCommand::ToggleFahrenheit => CommandKind::ToggleFahrenheit,
            TrayCommand::UploadImage(_) => CommandKind::UploadImage,
            TrayCommand::UploadGif(_) => CommandKind::UploadGif,
            TrayCommand::ClearImage => CommandKind::ClearImage,
            TrayCommand::ClearGif => CommandKind::ClearGif,
            TrayCommand::ClearAllMedia => CommandKind::ClearAllMedia,
            TrayCommand::ReloadConfig => CommandKind::ReloadConfig,
            TrayCommand::Quit => CommandKind::Quit,
        }
    }
}

/// Connection status for keyboard
#[derive(Debug, Clone, Copy, PartialEq, Eq, Default, Structural)]
pub enum ConnectionStatus {
    #[default]
    Disconnected,
    Connected,
    Reconnecting,
}

impl ConnectionStatus {
    /// The status as the tray shows it.
    pub open spec fn label(self) -> Seq<char> {
        match self {
            ConnectionStatus::Disconnected => "Disconnected"@,
            ConnectionStatus::Connected => "Connected"@,
            ConnectionStatus::Reconnecting => "Reconnecting..."@,
        }
    }

    pub fn as_str(&self) -> (label: &'static str)
        ensures
            label@ == self.label(),
    {
        match self {
            ConnectionStatus::Disconnected => "Disconnected",
            ConnectionStatus::Connected => "Connected",
            ConnectionStatus::Reconnecting => "Reconnecting...",
        }
    }
}

/// The settings that the daemon acts on.
#[derive(Debug, Clone, Copy, PartialEq, Eq)]
pub struct Settings {
    /// Use fahrenheit instead of celsius
    pub fahrenheit: bool,
    /// Use 12-hour time format
    pub use_12hr_time: bool,
    /// Screen position to show on connect ("reactive" for reactive mode)
    pub initial_screen: &'static str,
    /// Enable weather updates
    pub weather_enabled: bool,
    /// Enable system info updates
    pub system_info_enabled: bool,
    /// System info refresh interval in milliseconds
    pub system_ms: u64,
    /// Weather refresh interval in milliseconds
    pub weather_ms: u64,
    /// Keyboard reconnection retry interval in milliseconds
    pub retry_ms: u64,
}

/// State shared from daemon to tray for UI updates
#[derive(Debug, Clone, Copy, PartialEq, Eq)]
pub struct TrayState {
    pub connection: ConnectionStatus,
    pub current_screen: Option<&'static str>,
    pub config: Settings,
    /// Whether reactive mode is currently active
    pub reactive_active: bool,
}

} // verus!
