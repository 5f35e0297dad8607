use vstd::prelude::*;

use crate::bits::{field, signed_value_of, BitBuffer, BitCursor};
use crate::errors::{DecodeError, Field};
use crate::navigation::{accuracy_of, latitude_of, longitude_of, parse_latitude, parse_longitude, Accuracy};
use crate::radio_status::{parse_radio, radio_status_of, RadioStatus};
use crate::types::{epfd_type_of, EpfdType};

verus! {

/// Base Station Report (type 4). Longitude and latitude are in 1/600000 degree.
#[derive(Debug, Clone, Copy, PartialEq, Eq, Structural)]
pub struct BaseStationReport {
    pub message_type: u8,
    pub repeat_indicator: u8,
    pub mmsi: u32,
    pub year: Option<u16>,
    pub month: Option<u8>,
    pub day: Option<u8>,
    pub hour: Option<u8>,
    pub minute: Option<u8>,
    pub second: Option<u8>,
    pub fix_quality: Accuracy,
    pub longitude: Option<i32>,
    pub latitude: Option<i32>,
    pub epfd_type: Option<EpfdType>,
    pub raim: bool,
    pub radio_status: RadioStatus,
}

/// Year 0 is "not available".
pub open spec fn year_of(v: nat) -> Option<u16> {
    if v == 0 { None } else { Some(v as u16) }
}

/// Month 0 is "not available"; 13 to 15 are invalid.
pub open spec fn month_of(v: nat) -> Result<Option<u8>, DecodeError> {
    if v == 0 {
        Ok(None)
    } else if v <= 12 {
        Ok(Some(v as u8))
    } else {
        Err(DecodeError::FieldOutOfRange { field: Field::Month, raw: v as i64 })
    }
}

/// Day 0 is "not available"; every other 5-bit value is a day.
pub open spec fn day_of(v: nat) -> Option<u8> {
    if v == 0 { None } else { Some(v as u8) }
}

/// Hour 24 is "not available"; 25 to 31 are invalid.
pub open spec fn hour_of(v: nat) -> Result<Option<u8>, DecodeError> {
    if v <= 23 {
        Ok(Some(v as u8))
    } else if v == 24 {
        Ok(None)
    } else {
        Err(DecodeError::FieldOutOfRange { field: Field::Hour, raw: v as i64 })
    }
}

/// Minute or second 60 is "not available"; 61 to 63 are invalid.
pub open spec fn minsec_of(v: nat, f: Field) -> Result<Option<u8>, DecodeError> {
    if v <= 59 {
        Ok(Some(v as u8))
    } else if v == 60 {
        Ok(None)
    } else {
        Err(DecodeError::FieldOutOfRange { field: f, raw: v as i64 })
    }
}

pub open spec fn signed_field(s: Seq<bool>, start: int, width: int) -> int {
    signed_value_of(s.subrange(start, start + width))
}

pub open spec fn longitude_at(s: Seq<bool>) -> Result<Option<i32>, DecodeError> {
    longitude_of(signed_field(s, 79, 28) as i32)
}

pub open spec fn latitude_at(s: Seq<bool>) -> Result<Option<i32>, DecodeError> {
    latitude_of(signed_field(s, 107, 27) as i32)
}

/// Why a buffer does not decode as a Base Station Report, or `None` when it does:
/// the first field, in wire order, that runs out of bits or is invalid.
pub open spec fn base_station_error(s: Seq<bool>) -> Option<DecodeError> {
    if s.len() < 56 {
        Some(DecodeError::InsufficientBits)
    } else if month_of(field(s, 52, 4)).is_err() {
        Some(month_of(field(s, 52, 4))->Err_0)
    } else if s.len() < 66 {
        Some(DecodeError::InsufficientBits)
    } else if hour_of(field(s, 61, 5)).is_err() {
        Some(hour_of(field(s, 61, 5))->Err_0)
    } else if s.len() < 72 {
        Some(DecodeError::InsufficientBits)
    } else if minsec_of(field(s, 66, 6), Field::Minute).is_err() {
        Some(minsec_of(field(s, 66, 6), Field::Minute)->Err_0)
    } else if s.len() < 78 {
        Some(DecodeError::InsufficientBits)
    } else if minsec_of(field(s, 72, 6), Field::Second).is_err() {
        Some(minsec_of(field(s, 72, 6), Field::Second)->Err_0)
    } else if s.len() < 107 {
        Some(DecodeError::InsufficientBits)
    } else if longitude_at(s).is_err() {
        Some(longitude_at(s)->Err_0)
    } else if s.len() < 134 {
        Some(DecodeError::InsufficientBits)
    } else if latitude_at(s).is_err() {
        Some(latitude_at(s)->Err_0)
    } else if s.len() < 138 {
        Some(DecodeError::InsufficientBits)
    } else if epfd_type_of(field(s, 134, 4) as u8).is_err() {
        Some(DecodeError::UnknownEnumValue)
    } else if s.len() < 168 {
        Some(DecodeError::InsufficientBits)
    } else {
        None
    }
}

/// The report that a buffer without error decodes to.
pub open spec fn base_station_report_of(s: Seq<bool>) -> BaseStationReport {
    BaseStationReport {
        message_type: field(s, 0, 6) as u8,
        repeat_indicator: field(s, 6, 2) as u8,
        mmsi: field(s, 8, 30) as u32,
        year: year_of(field(s, 38, 14)),
        month: month_of(field(s, 52, 4))->Ok_0,
        day: day_of(field(s, 56, 5)),
        hour: hour_of(field(s, 61, 5))->Ok_0,
        minute: minsec_of(field(s, 66, 6), Field::Minute)->Ok_0,
        second: minsec_of(field(s, 72, 6), Field::Second)->Ok_0,
        fix_quality: accuracy_of(field(s, 78, 1) as u8)->Ok_0,
        longitude: longitude_at(s)->Ok_0,
        latitude: latitude_at(s)->Ok_0,
        epfd_type: epfd_type_of(field(s, 134, 4) as u8)->Ok_0,
        raim: field(s, 148, 1) == 1,
        radio_status: radio_status_of(s, 149, field(s, 0, 6) as u8),
    }
}

/// Reads the unsigned field at the cursor, stated over its absolute position.
fn take_field(cursor: &mut BitCursor, width: u32) -> (r: Result<u32, DecodeError>)
    requires
        old(cursor).wf(),
        width <= 32,
    ensures
        final(cursor).wf(),
        final(cursor).bits() == old(cursor).bits(),
        match r {
            Ok(v) => old(cursor).pos() + width <= old(cursor).bits().len()
                && v == field(old(cursor).bits(), old(cursor).pos() as int, width as int)
                && v < vstd::arithmetic::power2::pow2(width as nat)
                && final(cursor).pos() == old(cursor).pos() + width,
            Err(e) => old(cursor).pos() + width > old(cursor).bits().len()
                && e == DecodeError::InsufficientBits,
        },
{
    cursor.take_unsigned(width)
}

fn parse_month(v: u32) -> (r: Result<Option<u8>, DecodeError>)
    ensures
        r == month_of(v as nat),
{
    if v == 0 {
        Ok(None)
    } else if v <= 12 {
        Ok(Some(v as u8))
    } else {
        Err(DecodeError::FieldOutOfRange { field: Field::Month, raw: v as i64 })
    }
}

fn parse_hour(v: u32) -> (r: Result<Option<u8>, DecodeError>)
    ensures
        r == hour_of(v as nat),
{
    if v <= 23 {
        Ok(Some(v as u8))
    } else if v == 24 {
        Ok(None)
    } else {
        Err(DecodeError::FieldOutOfRange { field: Field::Hour, raw: v as i64 })
    }
}

fn parse_minsec(v: u32, f: Field) -> (r: Result<Option<u8>, DecodeError>)
    ensures
        r == minsec_of(v as nat, f),
{
    if v <= 59 {
        Ok(Some(v as u8))
    } else if v == 60 {
        Ok(None)
    } else {
        Err(DecodeError::FieldOutOfRange { field: f, raw: v as i64 })
    }
}

impl BaseStationReport {
    pub fn name(&self) -> (r: &'static str)
        ensures
            r@ == "Base Station Report"@,
    {
        "Base Station Report"
    }

    #[verifier::rlimit(50)]
    pub fn parse(data: &BitBuffer) -> (r: Result<Self, DecodeError>)
        ensures
            match r {
                Ok(rep) => base_station_error(data@) is None && rep == base_station_report_of(data@),
                Err(e) => base_station_error(data@) == Some(e),
            },
    {
        let mut cursor = data.cursor();
        proof {
            vstd::arithmetic::power2::lemma2_to64();
        }
        if cursor.remaining_bits() < 56 {
            return Err(DecodeError::InsufficientBits);
        }
        let message_type = take_field(&mut cursor, 6)?;
        let repeat_indicator = take_field(&mut cursor, 2)?;
        let mmsi = take_field(&mut cursor, 30)?;
        let raw_year = take_field(&mut cursor, 14)?;
        let year: Option<u16> = if raw_year == 0 { None } else { Some(raw_year as u16) };
        let month = parse_month(take_field(&mut cursor, 4)?)?;
        let raw_day = take_field(&mut cursor, 5)?;
        let day: Option<u8> = if raw_day == 0 { None } else { Some(raw_day as u8) };
        let hour = parse_hour(take_field(&mut cursor, 5)?)?;
        let minute = parse_minsec(take_field(&mut cursor, 6)?, Field::Minute)?;
        let second = parse_minsec(take_field(&mut cursor, 6)?, Field::Second)?;
        if cursor.remaining_bits() < 29 {
            return Err(DecodeError::InsufficientBits);
        }
        let fix_quality = Accuracy::parse(take_field(&mut cursor, 1)? as u8)?;
        let longitude = parse_longitude(cursor.take_signed(28)?)?;
        let latitude = parse_latitude(cursor.take_signed(27)?)?;
        let epfd_type = EpfdType::parse(take_field(&mut cursor, 4)? as u8)?;
        if cursor.remaining_bits() < 30 {
            return Err(DecodeError::InsufficientBits);
        }
        let _spare = take_field(&mut cursor, 10)?;
        let raim = take_field(&mut cursor, 1)? == 1;
        let radio_status = parse_radio(&mut cursor, message_type as u8)?;
        Ok(BaseStationReport {
            message_type: message_type as u8,
            repeat_indicator: repeat_indicator as u8,
            mmsi,
            year,
            month,
            day,
            hour,
            minute,
            second,
            fix_quality,
            longitude,
            latitude,
            epfd_type,
            raim,
            radio_status,
        })
    }
}

} // verus!
