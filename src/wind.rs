//! Wind direction in degrees to a compass point.
use vstd::prelude::*;

verus! {

/// The compass points that a wind direction is reported as.
#[derive(Clone, Copy, Debug, PartialEq, Eq, Structural)]
pub enum Cardinal {
    N,
    NNE,
    NE,
    ENE,
    E,
    ESE,
    SE,
    SSE,
    S,
    SSW,
    SW,
    WSW,
    W,
    NW,
}

/// A wind direction that no compass point covers.
#[derive(Clone, Copy, Debug, PartialEq, Eq, Structural)]
pub enum WindError {
    InvalidDirection(i32),
}

/// The compass point of a direction in hundredths of a degree. The sectors
/// between 281.25 and 303.75 degrees, between 56.25 and 56.26 degrees, and
/// outside 0..=360 degrees have none.
pub open spec fn cardinal_of(d: int) -> Option<Cardinal> {
    if (0 <= d < 1125) || (34875 <= d <= 36000) {
        Some(Cardinal::N)
    } else if 1125 <= d < 3375 {
        Some(Cardinal::NNE)
    } else if 3375 <= d < 5625 {
        Some(Cardinal::NE)
    } else if 5626 <= d < 7875 {
        Some(Cardinal::ENE)
    } else if 7875 <= d < 10125 {
        Some(Cardinal::E)
    } else if 10125 <= d < 12375 {
        Some(Cardinal::ESE)
    } else if 12375 <= d < 14625 {
        Some(Cardinal::SE)
    } else if 14625 <= d < 16875 {
        Some(Cardinal::SSE)
    } else if 16875 <= d < 19125 {
        Some(Cardinal::S)
    } else if 19125 <= d < 21375 {
        Some(Cardinal::SSW)
    } else if 21375 <= d < 23625 {
        Some(Cardinal::SW)
    } else if 23625 <= d < 25875 {
        Some(Cardinal::WSW)
    } else if 25875 <= d < 28125 {
        Some(Cardinal::W)
    } else if 30375 <= d < 34875 {
        Some(Cardinal::NW)
    } else {
        None
    }
}

/// The compass point of a wind direction given in hundredths of a degree.
pub fn cardinal_wind_direction(degree: i32) -> (r: Result<Cardinal, WindError>)
    ensures
        cardinal_of(degree as int) matches Some(c) ==> r == Ok::<Cardinal, WindError>(c),
        cardinal_of(degree as int) is None ==> r == Err::<Cardinal, WindError>(
            WindError::InvalidDirection(degree),
        ),
{
    let d = degree;
    if (0 <= d && d < 1125) || (34875 <= d && d <= 36000) {
        Ok(Cardinal::N)
    } else if 1125 <= d && d < 3375 {
        Ok(Cardinal::NNE)
    } else if 3375 <= d && d < 5625 {
        Ok(Cardinal::NE)
    } else if 5626 <= d && d < 7875 {
        Ok(Cardinal::ENE)
    } else if 7875 <= d && d < 10125 {
        Ok(Cardinal::E)
    } else if 10125 <= d && d < 12375 {
        Ok(Cardinal::ESE)
    } else if 12375 <= d && d < 14625 {
        Ok(Cardinal::SE)
    } else if 14625 <= d && d < 16875 {
        Ok(Cardinal::SSE)
    } else if 16875 <= d && d < 19125 {
        Ok(Cardinal::S)
    } else if 19125 <= d && d < 21375 {
        Ok(Cardinal::SSW)
    } else if 21375 <= d && d < 23625 {
        Ok(Cardinal::SW)
    } else if 23625 <= d && d < 25875 {
        Ok(Cardinal::WSW)
    } else if 25875 <= d && d < 28125 {
        Ok(Cardinal::W)
    } else if 30375 <= d && d < 34875 {
        Ok(Cardinal::NW)
    } else {
        Err(WindError::InvalidDirection(degree))
    }
}

/// The abbreviation that a compass point is printed as.
pub open spec fn cardinal_name(c: Cardinal) -> Seq<char> {
    match c {
        Cardinal::N => "N"@,
        Cardinal::NNE => "NNE"@,
        Cardinal::NE => "NE"@,
        Cardinal::ENE => "ENE"@,
        Cardinal::E => "E"@,
        Cardinal::ESE => "ESE"@,
        Cardinal::SE => "SE"@,
        Cardinal::SSE => "SSE"@,
        Cardinal::S => "S"@,
        Cardinal::SSW => "SSW"@,
        Cardinal::SW => "SW"@,
        Cardinal::WSW => "WSW"@,
        Cardinal::W => "W"@,
        Cardinal::NW => "NW"@,
    }
}

impl Cardinal {
    /// The abbreviation of the compass point.
    pub fn as_str(&self) -> (r: &'static str)
        ensures
            r@ == cardinal_name(*self),
    {
        match self {
            Cardinal::N => "N",
            Cardinal::NNE => "NNE",
            Cardinal::NE => "NE",
            Cardinal::ENE => "ENE",
            Cardinal::E => "E",
            Cardinal::ESE => "ESE",
            Cardinal::SE => "SE",
            Cardinal::SSE => "SSE",
            Cardinal::S => "S",
            Cardinal::SSW => "SSW",
            Cardinal::SW => "SW",
            Cardinal::WSW => "WSW",
            Cardinal::W => "W",
            Cardinal::NW => "NW",
        }
    }
}

} // verus!
