use ais::base_station_report::BaseStationReport;
use ais::bits::{armor_char_value, unarmor};
use ais::errors::{DecodeError, Field};
use ais::navigation::{
    parse_cog, parse_heading, parse_latitude, parse_longitude, parse_speed_over_ground, Accuracy,
    Direction, RateOfTurn,
};
use ais::static_data_report::{MessagePart, StaticDataReport};
use ais::text::decode_text;
use ais::types::{EpfdType, ShipType};
use ais::AisMessageType;

/// Packs 6-bit text into armor characters.
fn armor_of(text: &str) -> Vec<u8> {
    text.bytes()
        .map(|c| {
            let n = if c >= 64 { c - 64 } else { c };
            if n < 40 {
                n + 48
            } else {
                n + 56
            }
        })
        .collect()
}

#[test]
fn armor_round_trip_strips_padding() {
    let text = "HELLO WORLD 42@@@";
    let armored = armor_of(text);
    let buffer = unarmor(&armored, 0).unwrap();
    let mut cursor = buffer.cursor();
    let decoded = decode_text(&mut cursor, 6 * text.len() as u32).unwrap();
    assert_eq!(decoded, "HELLO WORLD 42");
    assert_eq!(cursor.remaining_bits(), 0);
}

#[test]
fn armor_round_trip_full_alphabet() {
    let text = "@ABCDEFGHIJKLMNOPQRSTUVWXYZ[\\]^_ !\"#$%&'()*+,-./0123456789:;<=>?";
    let armored = armor_of(text);
    let buffer = unarmor(&armored, 0).unwrap();
    let mut cursor = buffer.cursor();
    let decoded = decode_text(&mut cursor, 6 * text.len() as u32).unwrap();
    assert_eq!(decoded, "@ABCDEFGHIJKLMNOPQRSTUVWXYZ[\\]^_ !\"#$%&'()*+,-./0123456789:;<=>?");
}

#[test]
fn armor_alphabet_edges() {
    assert_eq!(armor_char_value(b'0'), Some(0));
    assert_eq!(armor_char_value(b'W'), Some(39));
    assert_eq!(armor_char_value(b'`'), Some(40));
    assert_eq!(armor_char_value(b'w'), Some(63));
    assert_eq!(armor_char_value(b'X'), None);
    assert_eq!(armor_char_value(b'x'), None);
}

#[test]
fn unarmor_rejects_bad_character() {
    assert!(matches!(unarmor(b"40X", 0), Err(DecodeError::InvalidArmorCharacter)));
}

#[test]
fn unarmor_drops_fill_bits() {
    let buffer = unarmor(b"w0", 2).unwrap();
    assert_eq!(buffer.len(), 10);
    let mut cursor = buffer.cursor();
    assert_eq!(cursor.take_unsigned(10), Ok(0b1111_1100_00));
    assert_eq!(unarmor(b"", 5).unwrap().len(), 0);
}

#[test]
fn cursor_exhaustion() {
    let buffer = unarmor(b"w", 0).unwrap();
    let mut cursor = buffer.cursor();
    assert_eq!(cursor.take_unsigned(7), Err(DecodeError::InsufficientBits));
    assert_eq!(cursor.remaining_bits(), 6);
    assert_eq!(cursor.take_unsigned(4), Ok(15));
    assert_eq!(cursor.take_signed(3), Err(DecodeError::InsufficientBits));
    assert_eq!(cursor.take_signed(2), Ok(-1));
    assert_eq!(cursor.take_unsigned(1), Err(DecodeError::InsufficientBits));
    assert_eq!(cursor.take_unsigned(0), Ok(0));
}

#[test]
fn signed_fields_extend_the_sign() {
    let buffer = unarmor(b"h0", 0).unwrap();
    let mut cursor = buffer.cursor();
    assert_eq!(cursor.take_signed(6), Ok(-16));
    assert_eq!(cursor.take_signed(6), Ok(0));
}

#[test]
fn text_needs_enough_bits() {
    let buffer = unarmor(b"AB", 0).unwrap();
    let mut cursor = buffer.cursor();
    assert_eq!(decode_text(&mut cursor, 18), Err(DecodeError::InsufficientBits));
    assert_eq!(decode_text(&mut cursor, 12), Ok(String::from("QR")));
}

#[test]
fn longitude_ranges() {
    assert_eq!(parse_longitude(-108000000), Ok(Some(-108000000)));
    assert_eq!(parse_longitude(108000000), Ok(Some(108000000)));
    assert_eq!(parse_longitude(108600000), Ok(None));
    assert_eq!(
        parse_longitude(108000001),
        Err(DecodeError::FieldOutOfRange { field: Field::Longitude, raw: 108000001 })
    );
    assert!(parse_longitude(-108600000).is_err());
    assert_eq!(parse_longitude(-73478868).unwrap().unwrap() as f32 / 600000.0, -122.464775);
}

#[test]
fn latitude_ranges() {
    assert_eq!(parse_latitude(54000000), Ok(Some(54000000)));
    assert_eq!(parse_latitude(-54000000), Ok(Some(-54000000)));
    assert_eq!(parse_latitude(54600000), Ok(None));
    assert_eq!(
        parse_latitude(54000001),
        Err(DecodeError::FieldOutOfRange { field: Field::Latitude, raw: 54000001 })
    );
}

#[test]
fn speed_course_heading() {
    assert_eq!(parse_speed_over_ground(1022), Ok(Some(1022)));
    assert_eq!(parse_speed_over_ground(1023), Ok(None));
    assert!(matches!(
        parse_speed_over_ground(1024),
        Err(DecodeError::FieldOutOfRange { field: Field::SpeedOverGround, raw: 1024 })
    ));
    assert_eq!(parse_cog(3600), None);
    assert_eq!(parse_cog(3599), Some(3599));
    assert_eq!(parse_cog(4095), Some(4095));
    assert_eq!(parse_heading(359), Ok(Some(359)));
    assert_eq!(parse_heading(511), Ok(None));
    assert!(parse_heading(360).is_err());
    assert_eq!(Accuracy::parse(0), Ok(Accuracy::Unaugmented));
    assert_eq!(Accuracy::parse(1), Ok(Accuracy::DGPS));
    assert!(Accuracy::parse(2).is_err());
}

#[test]
fn rate_of_turn_sentinels() {
    assert!(RateOfTurn::parse(0x80).is_none());
    let fast_starboard = RateOfTurn::parse(127).unwrap();
    assert_eq!(fast_starboard.rate(), None);
    assert_eq!(fast_starboard.direction(), Some(Direction::Starboard));
    let fast_port = RateOfTurn::parse(0x81).unwrap();
    assert_eq!(fast_port.rate(), None);
    assert_eq!(fast_port.direction(), Some(Direction::Port));
    let steady = RateOfTurn::parse(0).unwrap();
    assert_eq!(steady.rate(), Some(0));
    assert_eq!(steady.direction(), None);
    let port = RateOfTurn::parse(0xF6).unwrap();
    assert_eq!(port.rate(), Some(-10));
    assert_eq!(port.direction(), Some(Direction::Port));
}

#[test]
fn delegated_enumerations() {
    assert_eq!(EpfdType::parse(0), Ok(None));
    assert_eq!(EpfdType::parse(15), Ok(None));
    assert_eq!(EpfdType::parse(1), Ok(Some(EpfdType::Gps)));
    assert_eq!(EpfdType::parse(9), Err(DecodeError::UnknownEnumValue));
    assert_eq!(ShipType::parse(0), Ok(None));
    assert_eq!(ShipType::parse(30), Ok(Some(ShipType::Fishing)));
    assert_eq!(ShipType::parse(72), Ok(Some(ShipType::Cargo(72))));
    assert_eq!(ShipType::parse(100), Err(DecodeError::UnknownEnumValue));
}

#[test]
fn part_a_spare_bits_are_optional() {
    // The same report with no spare bits (fill of 2 drops them) and with all seven.
    let without = unarmor(b"H6:lEgQL4r1<QDr0P4pN3KSKP00", 2).unwrap();
    assert_eq!(without.len(), 160);
    let mut padded: Vec<u8> = b"H6:lEgQL4r1<QDr0P4pN3KSKP00".to_vec();
    padded.push(b'0');
    let with = unarmor(&padded, 1).unwrap();
    assert_eq!(with.len(), 167);
    let a = StaticDataReport::parse(&without).unwrap();
    let b = StaticDataReport::parse(&with).unwrap();
    assert_eq!(a, b);
    assert_eq!(a.message_part, MessagePart::PartA { vessel_name: String::from("WAN SHUN HANG 6868") });
}

#[test]
fn static_data_errors() {
    let short = unarmor(b"H6:lEgQL4r1<QDr0P4pN3KSKP", 0).unwrap();
    assert_eq!(StaticDataReport::parse(&short), Err(DecodeError::InsufficientBits));
    // Part number 2 is unknown.
    let unknown = unarmor(b"H6:lEga", 0).unwrap();
    assert_eq!(StaticDataReport::parse(&unknown), Err(DecodeError::UnknownMessagePart));
    let truncated_b = unarmor(b"H3mr@L4NC=D62?P<7nmpl00@82", 0).unwrap();
    assert_eq!(StaticDataReport::parse(&truncated_b), Err(DecodeError::InsufficientBits));
}

#[test]
fn base_station_errors() {
    let short = unarmor(b"403OtVAv7=i?;o?IaHE`4Iw020", 0).unwrap();
    assert_eq!(BaseStationReport::parse(&short), Err(DecodeError::InsufficientBits));
    // Month 13.
    let bad_month = unarmor(b"403OtVAv7Mi?;o?IaHE`4Iw020S:", 0).unwrap();
    assert_eq!(
        BaseStationReport::parse(&bad_month),
        Err(DecodeError::FieldOutOfRange { field: Field::Month, raw: 13 })
    );
}

#[test]
fn decoders_share_a_capability() {
    let base = unarmor(b"403OtVAv7=i?;o?IaHE`4Iw020S:", 0).unwrap();
    let report = <BaseStationReport as AisMessageType>::parse(&base).unwrap();
    assert_eq!(AisMessageType::name(&report), "Base Station Report");
    let part = unarmor(b"H6:lEgQL4r1<QDr0P4pN3KSKP00", 0).unwrap();
    let report = <StaticDataReport as AisMessageType>::parse(&part).unwrap();
    assert_eq!(AisMessageType::name(&report), "Static Data Report");
}
