//! Weather condition codes to icons, and the two-colour palette of the icons.
use vstd::prelude::*;

verus! {

/// The icons of the panel's icon set that condition codes map to.
#[derive(Clone, Copy, Debug, PartialEq, Eq, Structural)]
pub enum Icon {
    DayThunderstorm,
    DayLightning,
    DaySprinkle,
    DayRain,
    DayRainMix,
    DayShowers,
    DayStormShowers,
    DaySnow,
    DaySleet,
    Showers,
    Smoke,
    DayHaze,
    Dust,
    Fog,
    Tornado,
    DaySunny,
    DayCloudyGusts,
    DayCloudy,
    StormShowers,
    Hurricane,
    SnowflakeCold,
    Hot,
    Windy,
    Hail,
    StrongWind,
}

/// A condition code that the icon table does not know.
#[derive(Clone, Copy, Debug, PartialEq, Eq, Structural)]
pub enum IconError {
    UnknownCode(u32),
}

/// The icon table: the icon of each known condition code.
pub open spec fn icon_of(code: u32) -> Option<Icon> {
    match code {
        200 | 201 | 202 | 230 | 231 | 232 => Some(Icon::DayThunderstorm),
        210 | 211 | 212 | 221 => Some(Icon::DayLightning),
        300 | 301 | 321 | 500 => Some(Icon::DaySprinkle),
        302 | 310 | 311 | 312 | 313 | 314 | 501 | 502 | 503 | 504 => Some(Icon::DayRain),
        511 | 611 | 612 | 615 | 616 | 620 => Some(Icon::DayRainMix),
        520 | 521 | 522 => Some(Icon::DayShowers),
        531 => Some(Icon::DayStormShowers),
        600 | 602 | 621 | 622 => Some(Icon::DaySnow),
        601 => Some(Icon::DaySleet),
        701 => Some(Icon::Showers),
        711 => Some(Icon::Smoke),
        721 => Some(Icon::DayHaze),
        731 | 761 | 762 => Some(Icon::Dust),
        741 => Some(Icon::Fog),
        781 | 900 => Some(Icon::Tornado),
        800 => Some(Icon::DaySunny),
        801 | 802 | 803 => Some(Icon::DayCloudyGusts),
        804 => Some(Icon::DayCloudy),
        901 => Some(Icon::StormShowers),
        902 => Some(Icon::Hurricane),
        903 => Some(Icon::SnowflakeCold),
        904 => Some(Icon::Hot),
        905 => Some(Icon::Windy),
        906 => Some(Icon::Hail),
        957 => Some(Icon::StrongWind),
        _ => None,
    }
}

/// The icon of a condition code, or `UnknownCode` for a code outside the table.
pub open spec fn icon_result(code: u32) -> Result<Icon, IconError> {
    match icon_of(code) {
        Some(i) => Ok(i),
        None => Err(IconError::UnknownCode(code)),
    }
}

/// The icon of a condition code, or `UnknownCode` for a code outside the table.
pub fn weather_icon(id: u32) -> (r: Result<Icon, IconError>)
    ensures
        r == icon_result(id),
{
    match id {
        200 | 201 | 202 | 230 | 231 | 232 => Ok(Icon::DayThunderstorm),
        210 | 211 | 212 | 221 => Ok(Icon::DayLightning),
        300 | 301 | 321 | 500 => Ok(Icon::DaySprinkle),
        302 | 310 | 311 | 312 | 313 | 314 | 501 | 502 | 503 | 504 => Ok(Icon::DayRain),
        511 | 611 | 612 | 615 | 616 | 620 => Ok(Icon::DayRainMix),
        520 | 521 | 522 => Ok(Icon::DayShowers),
        531 => Ok(Icon::DayStormShowers),
        600 | 602 | 621 | 622 => Ok(Icon::DaySnow),
        601 => Ok(Icon::DaySleet),
        701 => Ok(Icon::Showers),
        711 => Ok(Icon::Smoke),
        721 => Ok(Icon::DayHaze),
        731 | 761 | 762 => Ok(Icon::Dust),
        741 => Ok(Icon::Fog),
        781 | 900 => Ok(Icon::Tornado),
        800 => Ok(Icon::DaySunny),
        801 | 802 | 803 => Ok(Icon::DayCloudyGusts),
        804 => Ok(Icon::DayCloudy),
        901 => Ok(Icon::StormShowers),
        902 => Ok(Icon::Hurricane),
        903 => Ok(Icon::SnowflakeCold),
        904 => Ok(Icon::Hot),
        905 => Ok(Icon::Windy),
        906 => Ok(Icon::Hail),
        957 => Ok(Icon::StrongWind),
        _ => Err(IconError::UnknownCode(id)),
    }
}

/// Raw RGB565 value of the icons' background colour, white.
pub const RGB565_WHITE: u16 = 0xffff;

/// Raw RGB565 value of the icons' foreground colour, black.
pub const RGB565_BLACK: u16 = 0x0000;

/// A pixel colour outside the icons' two-colour palette.
#[derive(Clone, Copy, Debug, PartialEq, Eq, Structural)]
pub enum PaletteError {
    UnexpectedColor(u16),
}

/// Maps an icon pixel's raw RGB565 colour to the panel's binary colour:
/// white is off (`false`), black is on (`true`); any other colour is an error.
pub fn binary_color(raw: u16) -> (r: Result<bool, PaletteError>)
    ensures
        raw == RGB565_WHITE ==> r == Ok::<bool, PaletteError>(false),
        raw == RGB565_BLACK ==> r == Ok::<bool, PaletteError>(true),
        raw != RGB565_WHITE && raw != RGB565_BLACK ==> r == Err::<bool, PaletteError>(
            PaletteError::UnexpectedColor(raw),
        ),
{
    if raw == RGB565_WHITE {
        Ok(false)
    } else if raw == RGB565_BLACK {
        Ok(true)
    } else {
        Err(PaletteError::UnexpectedColor(raw))
    }
}

} // verus!
