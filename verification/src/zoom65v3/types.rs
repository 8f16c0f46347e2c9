//! Value types of the Zoom65 V3 protocol.

use crate::tiga::types::{
    wmo_is_clear, wmo_is_known, wmo_is_overcast, wmo_is_partly_cloudy, wmo_is_rain,
    wmo_is_showers, wmo_is_snow, wmo_is_thunderstorm,
};
use crate::text::{lowercase_of, str_eq, to_lowercase};
use crate::zoom65v3::abi::Arg;
use vstd::prelude::*;
use vstd::string::StringExecFns;

verus! {

/// Color theme of the built-in screens.
#[derive(Clone, Copy, Debug, Default, PartialEq, Eq, Structural)]
pub enum ScreenTheme {
    #[default]
    Blue,
    Pink,
}

impl ScreenTheme {
    /// The byte that stands for this theme on the wire.
    pub open spec fn spec_code(self) -> u8 {
        match self {
            ScreenTheme::Blue => 1,
            ScreenTheme::Pink => 2,
        }
    }

    /// The byte that stands for this theme on the wire.
    #[verifier::when_used_as_spec(spec_code)]
    pub fn code(self) -> (c: u8)
        ensures
            c == self.spec_code(),
    {
        match self {
            ScreenTheme::Blue => 1,
            ScreenTheme::Pink => 2,
        }
    }
}

impl Arg for ScreenTheme {
    open spec fn size() -> nat {
        1
    }

    open spec fn wire(&self) -> Seq<u8> {
        seq![self.spec_code()]
    }

    fn to_bytes(&self) -> (bytes: Vec<u8>) {
        let mut bytes: Vec<u8> = Vec::new();
        bytes.push(self.code());
        assert(bytes@ =~= self.wire());
        bytes
    }
}

/// Channel to start uploading to
#[derive(Clone, Copy, Debug, PartialEq, Eq, Structural)]
pub enum UploadChannel {
    Image,
    Gif,
}

impl UploadChannel {
    /// The byte that stands for this channel on the wire.
    pub open spec fn spec_code(self) -> u8 {
        match self {
            UploadChannel::Image => 1,
            UploadChannel::Gif => 2,
        }
    }

    /// The byte that stands for this channel on the wire.
    #[verifier::when_used_as_spec(spec_code)]
    pub fn code(self) -> (c: u8)
        ensures
            c == self.spec_code(),
    {
        match self {
            UploadChannel::Image => 1,
            UploadChannel::Gif => 2,
        }
    }
}

impl Arg for UploadChannel {
    open spec fn size() -> nat {
        1
    }

    open spec fn wire(&self) -> Seq<u8> {
        seq![self.spec_code()]
    }

    fn to_bytes(&self) -> (bytes: Vec<u8>) {
        let mut bytes: Vec<u8> = Vec::new();
        bytes.push(self.code());
        assert(bytes@ =~= self.wire());
        bytes
    }
}

/// Weather icons of the weather screen.
#[derive(Debug, Clone, Copy, PartialEq, Eq, Structural)]
pub enum Icon {
    DayClear,
    DayPartlyCloudy,
    DayPartlyRainy,
    NightPartlyCloudy,
    NightClear,
    Cloudy,
    Rainy,
    Snowfall,
    Thunderstorm,
}

impl Icon {
    /// The icon shown for a WMO code by day or by night, if the code is known.
    pub open spec fn for_wmo(wmo: u8, is_day: bool) -> Option<Icon> {
        if wmo_is_clear(wmo) {
            Some(
                if is_day {
                    Icon::DayClear
                } else {
                    Icon::NightClear
                },
            )
        } else if wmo_is_partly_cloudy(wmo) {
            Some(
                if is_day {
                    Icon::DayPartlyCloudy
                } else {
                    Icon::NightPartlyCloudy
                },
            )
        } else if wmo_is_overcast(wmo) {
            Some(Icon::Cloudy)
        } else if wmo_is_rain(wmo) {
            Some(Icon::Rainy)
        } else if wmo_is_showers(wmo) {
            Some(
                if is_day {
                    Icon::DayPartlyRainy
                } else {
                    Icon::Rainy
                },
            )
        } else if wmo_is_snow(wmo) {
            Some(Icon::Snowfall)
        } else if wmo_is_thunderstorm(wmo) {
            Some(Icon::Thunderstorm)
        } else {
            None
        }
    }

    /// The byte that stands for this icon on the wire.
    pub open spec fn spec_code(self) -> u8 {
        match self {
            Icon::DayClear => 0,
            Icon::DayPartlyCloudy => 1,
            Icon::DayPartlyRainy => 2,
            Icon::NightPartlyCloudy => 3,
            Icon::NightClear => 4,
            Icon::Cloudy => 5,
            Icon::Rainy => 6,
            Icon::Snowfall => 7,
            Icon::Thunderstorm => 8,
        }
    }

    /// Convert a WMO index into a weather icon, adapting for day and night.
    pub fn from_wmo(wmo: u8, is_day: bool) -> (icon: Option<Self>)
        ensures
            icon == Self::for_wmo(wmo, is_day),
            icon.is_some() == wmo_is_known(wmo),
    {
        match wmo {
            0 | 1 => Some(
                if is_day {
                    Icon::DayClear
                } else {
                    Icon::NightClear
                },
            ),
            2 => Some(
                if is_day {
                    Icon::DayPartlyCloudy
                } else {
                    Icon::NightPartlyCloudy
                },
            ),
            3 | 45 | 48 => Some(Icon::Cloudy),
            51 | 53 | 55 | 56 | 57 | 61 | 63 | 65 | 66 | 67 => Some(Icon::Rainy),
            80..=82 => Some(
                if is_day {
                    Icon::DayPartlyRainy
                } else {
                    Icon::Rainy
                },
            ),
            71 | 73 | 75 | 77 | 85 | 86 => Some(Icon::Snowfall),
            95 | 96 | 99 => Some(Icon::Thunderstorm),
            _ => None,
        }
    }

    /// The byte that stands for this icon on the wire.
    #[verifier::when_used_as_spec(spec_code)]
    pub fn code(self) -> (c: u8)
        ensures
            c == self.spec_code(),
            c <= 8,
    {
        match self {
            Icon::DayClear => 0,
            Icon::DayPartlyCloudy => 1,
            Icon::DayPartlyRainy => 2,
            Icon::NightPartlyCloudy => 3,
            Icon::NightClear => 4,
            Icon::Cloudy => 5,
            Icon::Rainy => 6,
            Icon::Snowfall => 7,
            Icon::Thunderstorm => 8,
        }
    }
}

impl Arg for Icon {
    open spec fn size() -> nat {
        1
    }

    open spec fn wire(&self) -> Seq<u8> {
        seq![self.spec_code()]
    }

    fn to_bytes(&self) -> (bytes: Vec<u8>) {
        let mut bytes: Vec<u8> = Vec::new();
        bytes.push(self.code());
        assert(bytes@ =~= self.wire());
        bytes
    }
}

/// Pages of the system row.
#[derive(Clone, Copy, Debug, Default, PartialEq, Eq, PartialOrd, Ord, Structural)]
pub enum SystemOffset {
    #[default]
    CpuTemp,
    GpuTemp,
    Download,
}

impl SystemOffset {
    /// Number of page switches from the first page of the row.
    pub open spec fn spec_offset(self) -> nat {
        match self {
            SystemOffset::CpuTemp => 0,
            SystemOffset::GpuTemp => 1,
            SystemOffset::Download => 2,
        }
    }

    /// Number of page switches from the first page of the row.
    pub fn offset(self) -> (n: usize)
        ensures
            n == self.spec_offset(),
    {
        match self {
            SystemOffset::CpuTemp => 0,
            SystemOffset::GpuTemp => 1,
            SystemOffset::Download => 2,
        }
    }

    /// Convert into a full screen position type
    pub fn pos(&self) -> (p: ScreenPosition)
        ensures
            p == ScreenPosition::System(*self),
    {
        ScreenPosition::System(*self)
    }
}

/// Pages of the time row.
#[derive(Clone, Copy, Debug, Default, PartialEq, Eq, PartialOrd, Ord, Structural)]
pub enum TimeOffset {
    #[default]
    Time,
    Weather,
}

impl TimeOffset {
    /// Number of page switches from the first page of the row.
    pub open spec fn spec_offset(self) -> nat {
        match self {
            TimeOffset::Time => 0,
            TimeOffset::Weather => 1,
        }
    }

    /// Number of page switches from the first page of the row.
    pub fn offset(self) -> (n: usize)
        ensures
            n == self.spec_offset(),
    {
        match self {
            TimeOffset::Time => 0,
            TimeOffset::Weather => 1,
        }
    }

    /// Convert into a full screen position type
    pub fn pos(&self) -> (p: ScreenPosition)
        ensures
            p == ScreenPosition::Time(*self),
    {
        ScreenPosition::Time(*self)
    }
}

/// Pages of the logo row.
#[derive(Clone, Copy, Debug, Default, PartialEq, Eq, PartialOrd, Ord, Structural)]
pub enum LogoOffset {
    #[default]
    Meletrix,
    Zoom65,
    Image,
    Gif,
}

impl LogoOffset {
    /// Number of page switches from the first page of the row.
    pub open spec fn spec_offset(self) -> nat {
        match self {
            LogoOffset::Meletrix => 0,
            LogoOffset::Zoom65 => 1,
            LogoOffset::Image => 2,
            LogoOffset::Gif => 3,
        }
    }

    /// Number of page switches from the first page of the row.
    pub fn offset(self) -> (n: usize)
        ensures
            n == self.spec_offset(),
    {
        match self {
            LogoOffset::Meletrix => 0,
            LogoOffset::Zoom65 => 1,
            LogoOffset::Image => 2,
            LogoOffset::Gif => 3,
        }
    }

    /// Convert into a full screen position type
    pub fn pos(&self) -> (p: ScreenPosition)
        ensures
            p == ScreenPosition::Logo(*self),
    {
        ScreenPosition::Logo(*self)
    }
}

/// Available screen position and offsets.
#[derive(Clone, Copy, Debug, PartialEq, Eq, Structural)]
pub enum ScreenPosition {
    /// Two rows up from the default row
    System(SystemOffset),
    /// One row up from the default row
    Time(TimeOffset),
    /// The default row
    Logo(LogoOffset),
    /// One row down from the default row
    Battery,
}

impl core::str::FromStr for ScreenPosition {
    type Err = String;

    /// Read a screen position from its name, in any mix of upper and lower
    /// case: the position that the lowered name or short form stands for, or
    /// what is said of a name that stands for none.
    fn from_str(s: &str) -> (outcome: Result<Self, String>)
        ensures
            match outcome {
                Ok(position) => ScreenPosition::parsed(lowercase_of(s@)) == Ok::<
                    ScreenPosition,
                    Seq<char>,
                >(position),
                Err(why) => ScreenPosition::parsed(lowercase_of(s@)) == Err::<
                    ScreenPosition,
                    Seq<char>,
                >(why@),
            },
    {
        ScreenPosition::parse(s)
    }
}

impl Default for ScreenPosition {
    fn default() -> (p: Self)
        ensures
            p == ScreenPosition::Logo(LogoOffset::Meletrix),
    {
        ScreenPosition::Logo(LogoOffset::Meletrix)
    }
}

/// The names that stand for screen positions.
pub const OPTIONS: &'static str =
    "[ cpu, gpu, download|d, time|t, weather|w, meletrix|m, zoom65|z, image|i, gif|g, battery|b ]";

/// Start of what is said of a name that stands for no screen position.
pub const INVALID_POSITION: &'static str = "invalid screen position, must be one of: ";

impl ScreenPosition {
    /// The screen position that a lowercase name or its one-letter short
    /// form stands for.
    pub open spec fn named(id: Seq<char>) -> Option<ScreenPosition> {
        if id == "cpu"@ {
            Some(ScreenPosition::System(SystemOffset::CpuTemp))
        } else if id == "gpu"@ {
            Some(ScreenPosition::System(SystemOffset::GpuTemp))
        } else if id == "download"@ || id == "d"@ {
            Some(ScreenPosition::System(SystemOffset::Download))
        } else if id == "time"@ || id == "t"@ {
            Some(ScreenPosition::Time(TimeOffset::Time))
        } else if id == "weather"@ || id == "w"@ {
            Some(ScreenPosition::Time(TimeOffset::Weather))
        } else if id == "meletrix"@ || id == "m"@ {
            Some(ScreenPosition::Logo(LogoOffset::Meletrix))
        } else if id == "zoom65"@ || id == "z"@ {
            Some(ScreenPosition::Logo(LogoOffset::Zoom65))
        } else if id == "image"@ || id == "i"@ {
            Some(ScreenPosition::Logo(LogoOffset::Image))
        } else if id == "gif"@ || id == "g"@ {
            Some(ScreenPosition::Logo(LogoOffset::Gif))
        } else if id == "battery"@ || id == "b"@ {
            Some(ScreenPosition::Battery)
        } else {
            None
        }
    }

    /// The screen position that a name stands for, or what is said of a
    /// name that stands for none.
    pub open spec fn parsed(lowered: Seq<char>) -> Result<ScreenPosition, Seq<char>> {
        match Self::named(lowered) {
            Some(position) => Ok(position),
            None => Err(INVALID_POSITION@ + OPTIONS@),
        }
    }

    /// Look up the screen position that a lowercase name stands for.
    pub fn from_id(id: &str) -> (position: Option<Self>)
        ensures
            position == Self::named(id@),
    {
        if str_eq(id, "cpu") {
            Some(ScreenPosition::System(SystemOffset::CpuTemp))
        } else if str_eq(id, "gpu") {
            Some(ScreenPosition::System(SystemOffset::GpuTemp))
        } else if str_eq(id, "download") || str_eq(id, "d") {
            Some(ScreenPosition::System(SystemOffset::Download))
        } else if str_eq(id, "time") || str_eq(id, "t") {
            Some(ScreenPosition::Time(TimeOffset::Time))
        } else if str_eq(id, "weather") || str_eq(id, "w") {
            Some(ScreenPosition::Time(TimeOffset::Weather))
        } else if str_eq(id, "meletrix") || str_eq(id, "m") {
            Some(ScreenPosition::Logo(LogoOffset::Meletrix))
        } else if str_eq(id, "zoom65") || str_eq(id, "z") {
            Some(ScreenPosition::Logo(LogoOffset::Zoom65))
        } else if str_eq(id, "image") || str_eq(id, "i") {
            Some(ScreenPosition::Logo(LogoOffset::Image))
        } else if str_eq(id, "gif") || str_eq(id, "g") {
            Some(ScreenPosition::Logo(LogoOffset::Gif))
        } else if str_eq(id, "battery") || str_eq(id, "b") {
            Some(ScreenPosition::Battery)
        } else {
            None
        }
    }

    /// Read a screen position from its name, in any mix of upper and lower
    /// case.
    pub fn parse(s: &str) -> (outcome: Result<Self, String>)
        ensures
            match outcome {
                Ok(position) => Self::parsed(lowercase_of(s@)) == Ok::<
                    ScreenPosition,
                    Seq<char>,
                >(position),
                Err(why) => Self::parsed(lowercase_of(s@)) == Err::<ScreenPosition, Seq<char>>(
                    why@,
                ),
            },
    {
        let lowered = to_lowercase(s);
        match Self::from_id(lowered.as_str()) {
            Some(position) => Ok(position),
            None => Err(String::from_str(INVALID_POSITION).concat(OPTIONS)),
        }
    }

    /// Rows to move from the default row: negative is up, positive is down.
    pub open spec fn rows(self) -> int {
        match self {
            ScreenPosition::System(_) => -2,
            ScreenPosition::Time(_) => -1,
            ScreenPosition::Logo(_) => 0,
            ScreenPosition::Battery => 1,
        }
    }

    /// Page switches to make once the row is reached.
    pub open spec fn shifts(self) -> nat {
        match self {
            ScreenPosition::System(o) => o.spec_offset(),
            ScreenPosition::Time(o) => o.spec_offset(),
            ScreenPosition::Logo(o) => o.spec_offset(),
            ScreenPosition::Battery => 0,
        }
    }

    /// Convert screen position into directions from the default screen as
    /// `(up/down, shift)`.
    pub fn to_directions(&self) -> (d: (isize, usize))
        ensures
            d.0 == self.rows(),
            d.1 == self.shifts(),
            -2 <= d.0 <= 1,
            d.1 <= 3,
    {
        match self {
            ScreenPosition::System(o) => (-2, o.offset()),
            ScreenPosition::Time(o) => (-1, o.offset()),
            ScreenPosition::Logo(o) => (0, o.offset()),
            ScreenPosition::Battery => (1, 0),
        }
    }
}

} // verus!
