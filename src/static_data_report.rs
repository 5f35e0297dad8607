use vstd::prelude::*;

use crate::bits::{field, BitBuffer, BitCursor};
use crate::errors::DecodeError;
use crate::text::{chars_of, decode_text, text_of, trim_padding};
use crate::types::{ship_type_of, ShipType};

verus! {

/// Static Data Report (type 24).
#[derive(Debug, PartialEq)]
pub struct StaticDataReport {
    pub message_type: u8,
    pub repeat_indicator: u8,
    pub mmsi: u32,
    pub message_part: MessagePart,
}

/// Static Data Report messages have two different sub-message types.
/// The idea is that both get broadcast periodically.
#[derive(Debug, PartialEq)]
pub enum MessagePart {
    /// Part A contains just the vessel name
    PartA {
        /// Name of the vessel in the report
        vessel_name: String,
    },
    /// Part B is further split into two parts, depending on whether
    /// the broadcasting entity is an auxiliary craft, or of the main
    /// ship
    PartB {
        ship_type: Option<ShipType>,
        vendor_id: String,
        model_serial: String,
        unit_model_code: u8,
        serial_number: u32,
        callsign: String,
        dimension_to_bow: u16,
        dimension_to_stern: u16,
        dimension_to_port: u16,
        dimension_to_starboard: u16,
    },
}

/// The trimmed 6-bit text of `width` bits from `start`.
pub open spec fn text_at(s: Seq<bool>, start: int, width: int) -> Seq<char> {
    chars_of(trim_padding(text_of(s.subrange(start, start + width))))
}

/// Why a buffer does not decode as a Static Data Report, or `None` when it does.
pub open spec fn static_data_error(s: Seq<bool>) -> Option<DecodeError> {
    if s.len() < 40 {
        Some(DecodeError::InsufficientBits)
    } else if field(s, 38, 2) == 0 {
        if s.len() < 160 { Some(DecodeError::InsufficientBits) } else { None }
    } else if field(s, 38, 2) == 1 {
        if s.len() < 48 {
            Some(DecodeError::InsufficientBits)
        } else if ship_type_of(field(s, 40, 8) as u8).is_err() {
            Some(DecodeError::UnknownEnumValue)
        } else if s.len() < 168 {
            Some(DecodeError::InsufficientBits)
        } else {
            None
        }
    } else {
        Some(DecodeError::UnknownMessagePart)
    }
}

/// What a decoded part holds, read from the buffer `s`.
pub open spec fn part_matches(s: Seq<bool>, part: MessagePart) -> bool {
    match part {
        MessagePart::PartA { vessel_name } => field(s, 38, 2) == 0
            && vessel_name@ == text_at(s, 40, 120),
        MessagePart::PartB {
            ship_type,
            vendor_id,
            model_serial,
            unit_model_code,
            serial_number,
            callsign,
            dimension_to_bow,
            dimension_to_stern,
            dimension_to_port,
            dimension_to_starboard,
        } => field(s, 38, 2) == 1
            && ship_type_of(field(s, 40, 8) as u8) == Ok::<Option<ShipType>, DecodeError>(ship_type)
            && vendor_id@ == text_at(s, 48, 18)
            && model_serial@ == text_at(s, 66, 24)
            && unit_model_code == field(s, 66, 4)
            && serial_number == field(s, 70, 20)
            && callsign@ == text_at(s, 90, 42)
            && dimension_to_bow == field(s, 132, 9)
            && dimension_to_stern == field(s, 141, 9)
            && dimension_to_port == field(s, 150, 6)
            && dimension_to_starboard == field(s, 156, 6),
    }
}

fn parse_message_part(cursor: &mut BitCursor) -> (r: Result<MessagePart, DecodeError>)
    requires
        old(cursor).wf(),
        old(cursor).pos() == 38,
    ensures
        final(cursor).wf(),
        final(cursor).bits() == old(cursor).bits(),
        old(cursor).bits().len() >= 40 ==> match r {
            Ok(part) => static_data_error(old(cursor).bits()) is None
                && part_matches(old(cursor).bits(), part),
            Err(e) => static_data_error(old(cursor).bits()) == Some(e),
        },
        old(cursor).bits().len() < 40 ==> r == Err::<MessagePart, DecodeError>(DecodeError::InsufficientBits),
{
    proof {
        vstd::arithmetic::power2::lemma2_to64();
    }
    let part_number = cursor.take_unsigned(2)?;
    if part_number == 0 {
        let vessel_name = decode_text(cursor, 120)?;
        // Senders occasionally skip sending the spare bits, so this is optional
        let remaining = cursor.remaining_bits();
        let spare_width: u32 = if remaining < 7 { remaining as u32 } else { 7 };
        let _spare = cursor.take_unsigned(spare_width)?;
        Ok(MessagePart::PartA { vessel_name })
    } else if part_number == 1 {
        let raw_ship_type = cursor.take_unsigned(8)?;
        let ship_type = ShipType::parse(raw_ship_type as u8)?;
        if cursor.remaining_bits() < 120 {
            return Err(DecodeError::InsufficientBits);
        }
        // vendor ID sometimes is a long string, and sometimes is a short string with attached model
        // and serial number. We'll parse both ways and present them
        let vendor_id = decode_text(cursor, 18)?;
        let model_serial = {
            let mut lookahead = BitCursor::copy_of(cursor);
            decode_text(&mut lookahead, 24)?
        };
        let unit_model_code = cursor.take_unsigned(4)?;
        let serial_number = cursor.take_unsigned(20)?;
        let callsign = decode_text(cursor, 42)?;
        let dimension_to_bow = cursor.take_unsigned(9)?;
        let dimension_to_stern = cursor.take_unsigned(9)?;
        let dimension_to_port = cursor.take_unsigned(6)?;
        let dimension_to_starboard = cursor.take_unsigned(6)?;
        let _spare = cursor.take_unsigned(6)?;
        Ok(MessagePart::PartB {
            ship_type,
            vendor_id,
            model_serial,
            unit_model_code: unit_model_code as u8,
            serial_number,
            callsign,
            dimension_to_bow: dimension_to_bow as u16,
            dimension_to_stern: dimension_to_stern as u16,
            dimension_to_port: dimension_to_port as u16,
            dimension_to_starboard: dimension_to_starboard as u16,
        })
    } else {
        Err(DecodeError::UnknownMessagePart)
    }
}

/// A Part A message decodes to the same report whether its sender sent all
/// seven spare bits after the vessel name, some of them, or none.
pub proof fn lemma_part_a_spare_tolerance(a: Seq<bool>, b: Seq<bool>)
    requires
        160 <= a.len() <= 167,
        160 <= b.len() <= 167,
        a.take(160) == b.take(160),
        field(a, 38, 2) == 0,
    ensures
        static_data_error(a) is None,
        static_data_error(b) is None,
        field(a, 0, 6) == field(b, 0, 6),
        field(a, 6, 2) == field(b, 6, 2),
        field(a, 8, 30) == field(b, 8, 30),
        field(b, 38, 2) == 0,
        text_at(a, 40, 120) == text_at(b, 40, 120),
{
    assert(a.subrange(0, 6) =~= b.subrange(0, 6)) by {
        assert(a.subrange(0, 6) =~= a.take(160).subrange(0, 6));
        assert(b.subrange(0, 6) =~= b.take(160).subrange(0, 6));
    }
    assert(a.subrange(6, 8) =~= b.subrange(6, 8)) by {
        assert(a.subrange(6, 8) =~= a.take(160).subrange(6, 8));
        assert(b.subrange(6, 8) =~= b.take(160).subrange(6, 8));
    }
    assert(a.subrange(8, 38) =~= b.subrange(8, 38)) by {
        assert(a.subrange(8, 38) =~= a.take(160).subrange(8, 38));
        assert(b.subrange(8, 38) =~= b.take(160).subrange(8, 38));
    }
    assert(a.subrange(38, 40) =~= b.subrange(38, 40)) by {
        assert(a.subrange(38, 40) =~= a.take(160).subrange(38, 40));
        assert(b.subrange(38, 40) =~= b.take(160).subrange(38, 40));
    }
    assert(a.subrange(40, 160) =~= b.subrange(40, 160)) by {
        assert(a.subrange(40, 160) =~= a.take(160).subrange(40, 160));
        assert(b.subrange(40, 160) =~= b.take(160).subrange(40, 160));
    }
}

impl StaticDataReport {
    pub fn name(&self) -> (r: &'static str)
        ensures
            r@ == "Static Data Report"@,
    {
        "Static Data Report"
    }

    pub fn parse(data: &BitBuffer) -> (r: Result<Self, DecodeError>)
        ensures
            match r {
                Ok(rep) => static_data_error(data@) is None
                    && rep.message_type == field(data@, 0, 6)
                    && rep.repeat_indicator == field(data@, 6, 2)
                    && rep.mmsi == field(data@, 8, 30)
                    && part_matches(data@, rep.message_part),
                Err(e) => static_data_error(data@) == Some(e),
            },
    {
        let mut cursor = data.cursor();
        proof {
            vstd::arithmetic::power2::lemma2_to64();
        }
        let message_type = cursor.take_unsigned(6)?;
        let repeat_indicator = cursor.take_unsigned(2)?;
        let mmsi = cursor.take_unsigned(30)?;
        let message_part = parse_message_part(&mut cursor)?;
        Ok(StaticDataReport {
            message_type: message_type as u8,
            repeat_indicator: repeat_indicator as u8,
            mmsi,
            message_part,
        })
    }
}

} // verus!
