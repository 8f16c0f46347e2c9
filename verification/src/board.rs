//! Core types of the board abstraction: the static descriptor of a board
//! type, its capability flags, screen positions and the error taxonomy.

use vstd::prelude::*;
use vstd::string::StringExecFns;

verus! {

/// What a board type can do. A flag is set exactly where the board hands out
/// the capability of that name.
#[derive(Debug, Clone, Copy, PartialEq, Eq, Structural)]
pub struct Capabilities {
    pub time: bool,
    pub weather: bool,
    pub system_info: bool,
    pub screen: bool,
    pub image: bool,
    pub gif: bool,
    pub theme: bool,
}

impl Capabilities {
    /// No capability at all.
    pub open spec fn empty() -> Capabilities {
        Capabilities {
            time: false,
            weather: false,
            system_info: false,
            screen: false,
            image: false,
            gif: false,
            theme: false,
        }
    }

    /// Every capability.
    pub open spec fn full() -> Capabilities {
        Capabilities {
            time: true,
            weather: true,
            system_info: true,
            screen: true,
            image: true,
            gif: true,
            theme: true,
        }
    }

    /// No capability at all.
    pub fn none() -> (caps: Self)
        ensures
            caps == Self::empty(),
    {
        Capabilities {
            time: false,
            weather: false,
            system_info: false,
            screen: false,
            image: false,
            gif: false,
            theme: false,
        }
    }

    /// Every capability: what is offered while no board has been detected.
    pub fn all() -> (caps: Self)
        ensures
            caps == Self::full(),
    {
        Capabilities {
            time: true,
            weather: true,
            system_info: true,
            screen: true,
            image: true,
            gif: true,
            theme: true,
        }
    }
}

impl Default for Capabilities {
    fn default() -> (caps: Self)
        ensures
            caps == Capabilities::empty(),
    {
        Capabilities::none()
    }
}

/// Static information about a board type for detection and CLI. A field of
/// the USB identity that is `None` matches every device.
#[derive(Debug, Clone, Copy, PartialEq, Eq)]
pub struct BoardInfo {
    pub name: &'static str,
    pub cli_name: &'static str,
    pub vendor_id: Option<u16>,
    pub product_id: Option<u16>,
    pub usage_page: Option<u16>,
    pub usage: Option<u16>,
    pub capabilities: Capabilities,
}

/// Screen position grouping for menu organization
#[derive(Debug, Clone, Copy, PartialEq, Eq, Hash, Structural)]
pub enum ScreenGroup {
    System,
    Time,
    Logo,
    Battery,
}

/// Screen position for menu building
#[derive(Debug, Clone, Copy, PartialEq, Eq, Hash)]
pub struct ScreenPosition {
    pub id: &'static str,
    pub display_name: &'static str,
    pub group: ScreenGroup,
}

/// Why a command failed.
#[derive(Debug, Clone, Copy, PartialEq, Eq, Structural)]
pub enum FailureReason {
    /// The keyboard answered without the two success bytes.
    Rejected,
    /// The keyboard did not answer within the read timeout.
    NoAnswer,
    /// No icon exists for the WMO weather code.
    UnknownWeatherCode,
}

impl FailureReason {
    /// Whether the failure shows that the session no longer works, as
    /// opposed to a request that the board could not make sense of.
    pub open spec fn is_transport_problem(self) -> bool {
        self != FailureReason::UnknownWeatherCode
    }

    /// The reason in words.
    pub open spec fn text(self) -> Seq<char> {
        match self {
            FailureReason::Rejected => "device rejected command"@,
            FailureReason::NoAnswer => "device did not answer"@,
            FailureReason::UnknownWeatherCode => "unknown WMO code"@,
        }
    }

    /// The reason in words.
    pub fn as_str(&self) -> (s: &'static str)
        ensures
            s@ == self.text(),
    {
        match self {
            FailureReason::Rejected => "device rejected command",
            FailureReason::NoAnswer => "device did not answer",
            FailureReason::UnknownWeatherCode => "unknown WMO code",
        }
    }
}

/// Errors that can occur during board operations
#[derive(Debug, Clone, PartialEq, Eq)]
pub enum BoardError {
    /// Device was not found
    DeviceNotFound,
    /// Command failed on the device
    CommandFailed(FailureReason),
    /// Invalid screen position
    InvalidScreenPosition(String),
    /// Invalid media data
    InvalidMedia(&'static str),
    /// Media too large for device
    MediaTooLarge(&'static str),
    /// HID communication error, with the transport's own message
    Transport(String),
}

impl BoardError {
    /// Whether the session has to be torn down after this error. Transport
    /// errors, a missing device and failed acknowledgements are fatal;
    /// requests that were refused before anything was sent are not.
    pub open spec fn session_fatal(self) -> bool {
        match self {
            BoardError::DeviceNotFound => true,
            BoardError::Transport(_) => true,
            BoardError::CommandFailed(reason) => reason.is_transport_problem(),
            BoardError::InvalidScreenPosition(_) => false,
            BoardError::InvalidMedia(_) => false,
            BoardError::MediaTooLarge(_) => false,
        }
    }

    /// The error in words.
    pub open spec fn text(self) -> Seq<char> {
        match self {
            BoardError::DeviceNotFound => "device not found"@,
            BoardError::CommandFailed(reason) => "command failed: "@ + reason.text(),
            BoardError::InvalidScreenPosition(id) => "invalid screen position: "@ + id@,
            BoardError::InvalidMedia(why) => "invalid media: "@ + why@,
            BoardError::MediaTooLarge(why) => "media too large: "@ + why@,
            BoardError::Transport(why) => "hid error: "@ + why@,
        }
    }

    /// Whether the session has to be torn down after this error.
    pub fn is_session_fatal(&self) -> (fatal: bool)
        ensures
            fatal == self.session_fatal(),
    {
        match self {
            BoardError::DeviceNotFound => true,
            BoardError::Transport(_) => true,
            BoardError::CommandFailed(reason) => match reason {
                FailureReason::UnknownWeatherCode => false,
                _ => true,
            },
            BoardError::InvalidScreenPosition(_) => false,
            BoardError::InvalidMedia(_) => false,
            BoardError::MediaTooLarge(_) => false,
        }
    }

    /// The error in words, for logs and notifications.
    pub fn message(&self) -> (msg: String)
        ensures
            msg@ == self.text(),
    {
        match self {
            BoardError::DeviceNotFound => String::from_str("device not found"),
            BoardError::CommandFailed(reason) => String::from_str("command failed: ").concat(
                reason.as_str(),
            ),
            BoardError::InvalidScreenPosition(id) => String::from_str(
                "invalid screen position: ",
            ).concat(id.as_str()),
            BoardError::InvalidMedia(why) => String::from_str("invalid media: ").concat(why),
            BoardError::MediaTooLarge(why) => String::from_str("media too large: ").concat(why),
            BoardError::Transport(why) => String::from_str("hid error: ").concat(why.as_str()),
        }
    }
}

} // verus!
