use vstd::prelude::*;

use crate::errors::{DecodeError, Field};

verus! {

pub open spec fn out_of_range<T>(field: Field, raw: int) -> Result<Option<T>, DecodeError> {
    Err(DecodeError::FieldOutOfRange { field, raw: raw as i64 })
}

/// Speed over ground in tenths of a knot: 1023 is "not available".
pub open spec fn speed_over_ground_of(data: u16) -> Result<Option<u16>, DecodeError> {
    if data <= 1022 {
        Ok(Some(data))
    } else if data == 1023 {
        Ok(None)
    } else {
        out_of_range(Field::SpeedOverGround, data as int)
    }
}

/// Longitude in 1/600000 degree: within ±180°, or 181° for "not available".
pub open spec fn longitude_of(data: i32) -> Result<Option<i32>, DecodeError> {
    if -108000000 <= data && data <= 108000000 {
        Ok(Some(data))
    } else if data == 108600000 {
        Ok(None)
    } else {
        out_of_range(Field::Longitude, data as int)
    }
}

/// Latitude in 1/600000 degree: within ±90°, or 91° for "not available".
pub open spec fn latitude_of(data: i32) -> Result<Option<i32>, DecodeError> {
    if -54000000 <= data && data <= 54000000 {
        Ok(Some(data))
    } else if data == 54600000 {
        Ok(None)
    } else {
        out_of_range(Field::Latitude, data as int)
    }
}

/// True heading in degrees: 511 is "not available".
pub open spec fn heading_of(data: u16) -> Result<Option<u16>, DecodeError> {
    if data <= 359 {
        Ok(Some(data))
    } else if data == 511 {
        Ok(None)
    } else {
        out_of_range(Field::Heading, data as int)
    }
}

/// Speed over ground, in tenths of a knot.
pub fn parse_speed_over_ground(data: u16) -> (r: Result<Option<u16>, DecodeError>)
    ensures
        r == speed_over_ground_of(data),
{
    if data <= 1022 {
        Ok(Some(data))
    } else if data == 1023 {
        Ok(None)
    } else {
        Err(DecodeError::FieldOutOfRange { field: Field::SpeedOverGround, raw: data as i64 })
    }
}

/// Longitude, in 1/600000 degree (divide by 600000 for degrees).
pub fn parse_longitude(data: i32) -> (r: Result<Option<i32>, DecodeError>)
    ensures
        r == longitude_of(data),
        -108000000 <= data <= 108000000 ==> r == Ok::<Option<i32>, DecodeError>(Some(data)),
        data == 108600000 ==> r == Ok::<Option<i32>, DecodeError>(None),
        r.is_err() <==> !(-108000000 <= data <= 108000000 || data == 108600000),
{
    if -108000000 <= data && data <= 108000000 {
        Ok(Some(data))
    } else if data == 108600000 {
        Ok(None)
    } else {
        Err(DecodeError::FieldOutOfRange { field: Field::Longitude, raw: data as i64 })
    }
}

/// Latitude, in 1/600000 degree (divide by 600000 for degrees).
pub fn parse_latitude(data: i32) -> (r: Result<Option<i32>, DecodeError>)
    ensures
        r == latitude_of(data),
        -54000000 <= data <= 54000000 ==> r == Ok::<Option<i32>, DecodeError>(Some(data)),
        data == 54600000 ==> r == Ok::<Option<i32>, DecodeError>(None),
        r.is_err() <==> !(-54000000 <= data <= 54000000 || data == 54600000),
{
    if -54000000 <= data && data <= 54000000 {
        Ok(Some(data))
    } else if data == 54600000 {
        Ok(None)
    } else {
        Err(DecodeError::FieldOutOfRange { field: Field::Latitude, raw: data as i64 })
    }
}

/// Course over ground, in tenths of a degree: 3600 is "not available".
pub fn parse_cog(data: u16) -> (r: Option<u16>)
    ensures
        r == (if data == 3600 { None } else { Some(data) }),
{
    if data == 3600 {
        None
    } else {
        Some(data)
    }
}

/// True heading, in degrees.
pub fn parse_heading(data: u16) -> (r: Result<Option<u16>, DecodeError>)
    ensures
        r == heading_of(data),
{
    if data <= 359 {
        Ok(Some(data))
    } else if data == 511 {
        Ok(None)
    } else {
        Err(DecodeError::FieldOutOfRange { field: Field::Heading, raw: data as i64 })
    }
}

#[derive(Debug, Clone, Copy, PartialEq, Eq, Structural)]
pub enum Accuracy {
    Unaugmented,
    DGPS,
}

pub open spec fn accuracy_of(data: u8) -> Result<Accuracy, DecodeError> {
    if data == 0 {
        Ok(Accuracy::Unaugmented)
    } else if data == 1 {
        Ok(Accuracy::DGPS)
    } else {
        Err(DecodeError::FieldOutOfRange { field: Field::Accuracy, raw: data as i64 })
    }
}

impl Accuracy {
    pub fn parse(data: u8) -> (r: Result<Self, DecodeError>)
        ensures
            r == accuracy_of(data),
    {
        if data == 0 {
            Ok(Accuracy::Unaugmented)
        } else if data == 1 {
            Ok(Accuracy::DGPS)
        } else {
            Err(DecodeError::FieldOutOfRange { field: Field::Accuracy, raw: data as i64 })
        }
    }
}

/// A known rate of turn; its raw code is never -128.
#[derive(Debug, Clone, Copy, PartialEq, Eq)]
pub struct RateOfTurn {
    raw: i8,
}

#[derive(Debug, Clone, Copy, PartialEq, Eq, Structural)]
pub enum Direction {
    Port,
    Starboard,
}

/// The rate index whose magnitude in degrees per minute is `(index / 4.733)²`;
/// ±127 say that the vessel turns faster than 5° per 30 s at an unknown rate.
pub open spec fn rate_index_of(raw: i8) -> Option<i8> {
    if -126 <= raw && raw <= 126 { Some(raw) } else { None }
}

pub open spec fn direction_of(raw: i8) -> Option<Direction> {
    if raw > 0 {
        Some(Direction::Starboard)
    } else if raw < 0 {
        Some(Direction::Port)
    } else {
        None
    }
}

impl View for RateOfTurn {
    type V = i8;

    closed spec fn view(&self) -> i8 {
        self.raw
    }
}

impl RateOfTurn {
    #[verifier::type_invariant]
    spec fn wf(&self) -> bool {
        self.raw != -128
    }

    /// Reads the 8-bit code; 0x80 (-128) is "not available".
    pub fn parse(data: u8) -> (r: Option<Self>)
        ensures
            match r {
                Some(t) => data != 128 && t@ == (if data < 128 { data as int } else { data - 256 }),
                None => data == 128,
            },
    {
        if data == 128 {
            None
        } else {
            let raw: i8 = if data < 128 { data as i8 } else { (data as i16 - 256) as i8 };
            Some(RateOfTurn { raw })
        }
    }

    /// The signed rate index when the rate is known: square it over 4.733 for
    /// degrees per minute.
    pub fn rate(&self) -> (r: Option<i8>)
        ensures
            r == rate_index_of(self@),
    {
        if -126 <= self.raw && self.raw <= 126 {
            Some(self.raw)
        } else {
            None
        }
    }

    pub fn direction(&self) -> (r: Option<Direction>)
        ensures
            r == direction_of(self@),
    {
        if self.raw > 0 {
            Some(Direction::Starboard)
        } else if self.raw < 0 {
            Some(Direction::Port)
        } else {
            None
        }
    }
}

/// Rate-of-turn sentinels: 0x80 carries nothing, ±127 keep the direction but
/// not the magnitude, and 0 has no direction and a zero rate.
pub proof fn lemma_rate_of_turn_sentinels(raw: i8)
    ensures
        raw == 127 ==> rate_index_of(raw).is_none() && direction_of(raw) == Some(Direction::Starboard),
        raw == -127 ==> rate_index_of(raw).is_none() && direction_of(raw) == Some(Direction::Port),
        raw == 0 ==> rate_index_of(raw) == Some(0i8) && direction_of(raw).is_none(),
        -126 <= raw <= 126 ==> rate_index_of(raw) == Some(raw),
{
}

#[derive(Debug, Clone, Copy, PartialEq, Eq, Structural)]
pub enum ManeuverIndicator {
    NoSpecialManeuver,
    SpecialManeuver,
}

} // verus!
