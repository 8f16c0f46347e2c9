//! Value types of the Tiga protocol: weather icons, screen navigation codes,
//! temperature encoding and RGB565 colors.

use crate::bytes::{be16, le16, u16_to_be, u16_to_le};
use vstd::prelude::*;

verus! {

/// Weather condition icons for the keyboard display.
/// Some icons may share visual representations on the device.
#[derive(Debug, Clone, Copy, PartialEq, Eq, Structural)]
pub enum WeatherIcon {
    Unknown,
    SunnyDay,
    PartlyCloudyDay,
    Cloudy,
    ClearNight,
    PartlyCloudyNight,
    Thunderstorm,
    Rain,
    Snow,
}

/// WMO codes for a clear or mainly clear sky.
pub open spec fn wmo_is_clear(wmo: u8) -> bool {
    wmo == 0 || wmo == 1
}

/// WMO code for a partly cloudy sky.
pub open spec fn wmo_is_partly_cloudy(wmo: u8) -> bool {
    wmo == 2
}

/// WMO codes for overcast sky and fog.
pub open spec fn wmo_is_overcast(wmo: u8) -> bool {
    wmo == 3 || wmo == 45 || wmo == 48
}

/// WMO codes for drizzle, freezing drizzle, rain and freezing rain.
pub open spec fn wmo_is_rain(wmo: u8) -> bool {
    wmo == 51 || wmo == 53 || wmo == 55 || wmo == 56 || wmo == 57 || wmo == 61 || wmo == 63 || wmo
        == 65 || wmo == 66 || wmo == 67
}

/// WMO codes for rain showers.
pub open spec fn wmo_is_showers(wmo: u8) -> bool {
    80 <= wmo <= 82
}

/// WMO codes for snowfall, snow grains and snow showers.
pub open spec fn wmo_is_snow(wmo: u8) -> bool {
    wmo == 71 || wmo == 73 || wmo == 75 || wmo == 77 || wmo == 85 || wmo == 86
}

/// WMO codes for thunderstorms.
pub open spec fn wmo_is_thunderstorm(wmo: u8) -> bool {
    wmo == 95 || wmo == 96 || wmo == 99
}

/// Whether a WMO code is one of those a display icon exists for.
pub open spec fn wmo_is_known(wmo: u8) -> bool {
    wmo_is_clear(wmo) || wmo_is_partly_cloudy(wmo) || wmo_is_overcast(wmo) || wmo_is_rain(wmo)
        || wmo_is_showers(wmo) || wmo_is_snow(wmo) || wmo_is_thunderstorm(wmo)
}

impl WeatherIcon {
    /// The icon shown for a WMO code by day or by night, if the code is known.
    pub open spec fn for_wmo(wmo: u8, is_day: bool) -> Option<WeatherIcon> {
        if wmo_is_clear(wmo) {
            Some(
                if is_day {
                    WeatherIcon::SunnyDay
                } else {
                    WeatherIcon::ClearNight
                },
            )
        } else if wmo_is_partly_cloudy(wmo) {
            Some(
                if is_day {
                    WeatherIcon::PartlyCloudyDay
                } else {
                    WeatherIcon::PartlyCloudyNight
                },
            )
        } else if wmo_is_overcast(wmo) {
            Some(WeatherIcon::Cloudy)
        } else if wmo_is_rain(wmo) || wmo_is_showers(wmo) {
            Some(WeatherIcon::Rain)
        } else if wmo_is_snow(wmo) {
            Some(WeatherIcon::Snow)
        } else if wmo_is_thunderstorm(wmo) {
            Some(WeatherIcon::Thunderstorm)
        } else {
            None
        }
    }

    /// Index of the icon in the display's icon table.
    pub open spec fn spec_code(self) -> u8 {
        match self {
            WeatherIcon::Unknown => 0,
            WeatherIcon::SunnyDay => 1,
            WeatherIcon::PartlyCloudyDay => 2,
            WeatherIcon::Rain => 3,
            WeatherIcon::Snow => 4,
            WeatherIcon::Cloudy => 5,
            WeatherIcon::ClearNight => 6,
            WeatherIcon::PartlyCloudyNight => 7,
            WeatherIcon::Thunderstorm => 8,
        }
    }

    /// Convert a WMO weather code to a display icon, adapting for day/night.
    pub fn from_wmo(wmo: u8, is_day: bool) -> (icon: Option<Self>)
        ensures
            icon == Self::for_wmo(wmo, is_day),
            icon.is_some() == wmo_is_known(wmo),
    {
        match wmo {
            0 | 1 => Some(
                if is_day {
                    WeatherIcon::SunnyDay
                } else {
                    WeatherIcon::ClearNight
                },
            ),
            2 => Some(
                if is_day {
                    WeatherIcon::PartlyCloudyDay
                } else {
                    WeatherIcon::PartlyCloudyNight
                },
            ),
            3 | 45 | 48 => Some(WeatherIcon::Cloudy),
            51 | 53 | 55 | 56 | 57 | 61 | 63 | 65 | 66 | 67 => Some(WeatherIcon::Rain),
            80..=82 => Some(WeatherIcon::Rain),
            71 | 73 | 75 | 77 | 85 | 86 => Some(WeatherIcon::Snow),
            95 | 96 | 99 => Some(WeatherIcon::Thunderstorm),
            _ => None,
        }
    }

    /// The byte that stands for this icon on the wire.
    #[verifier::when_used_as_spec(spec_code)]
    pub fn code(self) -> (c: u8)
        ensures
            c == self.spec_code(),
            c <= 8,
    {
        match self {
            WeatherIcon::Unknown => 0,
            WeatherIcon::SunnyDay => 1,
            WeatherIcon::PartlyCloudyDay => 2,
            WeatherIcon::Rain => 3,
            WeatherIcon::Snow => 4,
            WeatherIcon::Cloudy => 5,
            WeatherIcon::ClearNight => 6,
            WeatherIcon::PartlyCloudyNight => 7,
            WeatherIcon::Thunderstorm => 8,
        }
    }
}

/// Screen control modes, sent with the screen command as a two-byte payload.
#[derive(Debug, Clone, Copy, PartialEq, Eq, Structural)]
pub enum ScreenMode {
    /// Navigate up in menu
    Up,
    /// Navigate down in menu
    Down,
    /// Enter/select menu item
    Enter,
    /// Return/back from menu
    Return,
    /// Reset themes, gifs and images
    Reset,
}

impl ScreenMode {
    /// The navigation code of this mode.
    pub open spec fn command(self) -> u8 {
        match self {
            ScreenMode::Up => 2,
            ScreenMode::Down => 1,
            ScreenMode::Enter => 3,
            ScreenMode::Return => 4,
            ScreenMode::Reset => 1,
        }
    }

    /// The check byte that follows the navigation code: 0xC4 minus the code
    /// for navigation, 0xC8 for a reset.
    pub open spec fn check(self) -> u8 {
        match self {
            ScreenMode::Reset => 0xC8,
            _ => (0xC4 - self.command()) as u8,
        }
    }

    /// The two-byte payload of this mode.
    pub open spec fn payload(self) -> Seq<u8> {
        seq![self.command(), self.check()]
    }

    /// Get the two-byte payload for this screen mode.
    pub fn to_bytes(self) -> (bytes: [u8; 2])
        ensures
            bytes@ == self.payload(),
    {
        let bytes: [u8; 2] = match self {
            ScreenMode::Up => [0x02, 0xC4 - 0x02],
            ScreenMode::Down => [0x01, 0xC4 - 0x01],
            ScreenMode::Enter => [0x03, 0xC4 - 0x03],
            ScreenMode::Return => [0x04, 0xC4 - 0x04],
            ScreenMode::Reset => [0x01, 0xC8],
        };
        assert(bytes@ =~= self.payload());
        bytes
    }
}

/// Largest magnitude, in degrees, that the 15 value bits can carry.
pub const MAX_TEMPERATURE: i16 = 3276;

/// Flag bit that marks a temperature below zero.
pub const NEGATIVE_FLAG: u16 = 0x8000;

/// The wire form of a temperature: ten times its magnitude, plus 0x8000
/// where it is below zero.
pub open spec fn encoded_temperature(temp_celsius: int) -> int {
    if temp_celsius >= 0 {
        temp_celsius * 10
    } else {
        -temp_celsius * 10 + 0x8000
    }
}

/// Encode a temperature value for the keyboard protocol.
/// Format: value * 10, with bit 15 set for negative temperatures.
pub fn encode_temperature(temp_celsius: i16) -> (encoded: u16)
    requires
        -MAX_TEMPERATURE <= temp_celsius <= MAX_TEMPERATURE,
    ensures
        encoded == encoded_temperature(temp_celsius as int),
        temp_celsius >= 0 ==> encoded & NEGATIVE_FLAG == 0,
        temp_celsius < 0 ==> encoded & NEGATIVE_FLAG == NEGATIVE_FLAG,
{
    if temp_celsius >= 0 {
        let magnitude: u16 = (temp_celsius * 10) as u16;
        assert(magnitude <= 32760 ==> magnitude & 0x8000 == 0) by (bit_vector);
        magnitude
    } else {
        let magnitude: u16 = ((-temp_celsius) * 10) as u16;
        assert(magnitude <= 32760 ==> (magnitude | 0x8000 == magnitude + 0x8000 && (magnitude
            | 0x8000) & 0x8000 == 0x8000)) by (bit_vector);
        magnitude | 0x8000
    }
}

/// RGB565 color for theme settings.
/// 5 bits red, 6 bits green, 5 bits blue.
#[derive(Debug, Clone, Copy, PartialEq, Eq, Structural)]
pub struct Rgb565(pub u16);

/// The 16-bit color that keeps the top 5, 6 and 5 bits of red, green and blue.
pub open spec fn pack_rgb565(r: u8, g: u8, b: u8) -> u16 {
    ((r / 8) * 2048 + (g / 4) * 32 + b / 8) as u16
}

impl Rgb565 {
    /// Create RGB565 from 8-bit RGB values.
    pub fn from_rgb(r: u8, g: u8, b: u8) -> (color: Self)
        ensures
            color.0 == pack_rgb565(r, g, b),
    {
        let r5 = ((r >> 3) & 0x1F) as u16;
        let g6 = ((g >> 2) & 0x3F) as u16;
        let b5 = ((b >> 3) & 0x1F) as u16;
        assert((r >> 3) & 0x1F == r / 8 && (g >> 2) & 0x3F == g / 4 && (b >> 3) & 0x1F == b / 8)
            by (bit_vector);
        assert(r5 < 32 && g6 < 64 && b5 < 32 ==> ((r5 << 11) | (g6 << 5) | b5) == r5 * 2048 + g6
            * 32 + b5) by (bit_vector);
        Rgb565((r5 << 11) | (g6 << 5) | b5)
    }

    /// Get the big-endian bytes for transmission.
    pub fn to_be_bytes(self) -> (bytes: [u8; 2])
        ensures
            bytes@ == be16(self.0),
    {
        u16_to_be(self.0)
    }

    /// Get the little-endian bytes for transmission.
    pub fn to_le_bytes(self) -> (bytes: [u8; 2])
        ensures
            bytes@ == le16(self.0),
    {
        u16_to_le(self.0)
    }
}

} // verus!
