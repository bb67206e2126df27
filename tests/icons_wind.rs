use weather_panel::icons::{binary_color, weather_icon, Icon, IconError, PaletteError};
use weather_panel::wind::{cardinal_wind_direction, Cardinal, WindError};

#[test]
fn known_codes_have_icons() {
    assert_eq!(weather_icon(800), Ok(Icon::DaySunny));
    assert_eq!(weather_icon(211), Ok(Icon::DayLightning));
    assert_eq!(weather_icon(601), Ok(Icon::DaySleet));
    assert_eq!(weather_icon(804), Ok(Icon::DayCloudy));
    assert_eq!(weather_icon(957), Ok(Icon::StrongWind));
}

#[test]
fn unknown_code_is_an_error() {
    assert_eq!(weather_icon(999), Err(IconError::UnknownCode(999)));
    assert_eq!(weather_icon(0), Err(IconError::UnknownCode(0)));
}

#[test]
fn palette_maps_white_and_black() {
    assert_eq!(binary_color(0xffff), Ok(false));
    assert_eq!(binary_color(0x0000), Ok(true));
    assert_eq!(binary_color(0xf800), Err(PaletteError::UnexpectedColor(0xf800)));
}

#[test]
fn wind_directions() {
    assert_eq!(cardinal_wind_direction(0), Ok(Cardinal::N));
    assert_eq!(cardinal_wind_direction(1125), Ok(Cardinal::NNE));
    assert_eq!(cardinal_wind_direction(4500), Ok(Cardinal::NE));
    assert_eq!(cardinal_wind_direction(18000), Ok(Cardinal::S));
    assert_eq!(cardinal_wind_direction(33000), Ok(Cardinal::NW));
    assert_eq!(cardinal_wind_direction(36000), Ok(Cardinal::N));
}

#[test]
fn wind_directions_without_a_point() {
    assert_eq!(cardinal_wind_direction(29000), Err(WindError::InvalidDirection(29000)));
    assert_eq!(cardinal_wind_direction(5625), Err(WindError::InvalidDirection(5625)));
    assert_eq!(cardinal_wind_direction(-1), Err(WindError::InvalidDirection(-1)));
    assert_eq!(cardinal_wind_direction(36001), Err(WindError::InvalidDirection(36001)));
}

#[test]
fn compass_point_names() {
    assert_eq!(Cardinal::N.as_str(), "N");
    assert_eq!(Cardinal::WSW.as_str(), "WSW");
    assert_eq!(cardinal_wind_direction(7000).unwrap().as_str(), "ENE");
}
