#![allow(clippy::zero_prefixed_literal)]
#![allow(clippy::unreadable_literal)]
use ais::base_station_report::BaseStationReport;
use ais::bits::unarmor;
use ais::radio_status::{RadioStatus, SubMessage, SyncState};
use ais::static_data_report::{MessagePart, StaticDataReport};
use ais::navigation::Accuracy;
use ais::types::{EpfdType, ShipType};

fn f32_equal_naive(a: f32, b: f32) {
    assert!((a - b).abs() < 0.0001, "{} != {}", a, b);
}

fn degrees(raw: Option<i32>) -> Option<f32> {
    raw.map(|v| v as f32 / 600000.0)
}

#[test]
fn test_type4() {
    let bytestream = b"403OtVAv7=i?;o?IaHE`4Iw020S:";
    let bitstream = unarmor(bytestream, 0).unwrap();
    let base = BaseStationReport::parse(&bitstream).unwrap();
    assert_eq!(base.message_type, 4);
    assert_eq!(base.repeat_indicator, 0);
    assert_eq!(base.mmsi, 003669145);
    assert_eq!(base.year, Some(2017));
    assert_eq!(base.month, Some(12));
    assert_eq!(base.day, Some(27));
    assert_eq!(base.hour, Some(17));
    assert_eq!(base.minute, Some(15));
    assert_eq!(base.second, Some(11));
    assert_eq!(base.fix_quality, Accuracy::DGPS);
    f32_equal_naive(degrees(base.longitude).unwrap(), -122.464775);
    f32_equal_naive(degrees(base.latitude).unwrap(), 37.794308);
    assert_eq!(base.epfd_type, None);
    assert_eq!(base.raim, true);
    if let RadioStatus::Sotdma(radio_status) = base.radio_status {
        assert_eq!(radio_status.sync_state, SyncState::UtcDirect);
        assert_eq!(radio_status.slot_timeout, 0);
        assert_eq!(radio_status.sub_message, SubMessage::SlotOffset(2250));
    } else {
        panic!("Expected SOTDMA message");
    }
}

#[test]
fn test_type4_2() {
    let bytestream = b"403OviQuMGCqWrRO9>E6fE700@GO";
    let bitstream = unarmor(bytestream, 0).unwrap();
    let base = BaseStationReport::parse(&bitstream).unwrap();
    assert_eq!(base.message_type, 4);
    assert_eq!(base.repeat_indicator, 0);
    assert_eq!(base.mmsi, 3669702);
    assert_eq!(base.year, Some(2007));
    assert_eq!(base.month, Some(5));
    assert_eq!(base.day, Some(14));
    assert_eq!(base.hour, Some(19));
    assert_eq!(base.minute, Some(57));
    assert_eq!(base.second, Some(39));
    assert_eq!(base.fix_quality, Accuracy::DGPS);
    assert_eq!(degrees(base.longitude), Some(-76.35236));
    assert_eq!(degrees(base.latitude), Some(36.883766));
    assert_eq!(base.epfd_type, Some(EpfdType::Surveyed));
    assert_eq!(base.raim, false);
    if let RadioStatus::Sotdma(radio_status) = base.radio_status {
        assert_eq!(radio_status.sync_state, SyncState::UtcDirect);
        assert_eq!(radio_status.slot_timeout, 4);
        assert_eq!(radio_status.sub_message, SubMessage::SlotNumber(1503));
    } else {
        panic!("Expected SOTDMA message");
    }
}

#[test]
fn test_part_a_message() {
    let bytestream = b"H6:lEgQL4r1<QDr0P4pN3KSKP00";
    let bitstream = unarmor(bytestream, 0).unwrap();
    let message = StaticDataReport::parse(&bitstream).unwrap();
    assert_eq!(message.mmsi, 413996478);
    match message.message_part {
        MessagePart::PartA { vessel_name } => {
            assert_eq!(vessel_name, "WAN SHUN HANG 6868");
        }
        _ => panic!("Expected Message Part A"),
    }
}

#[test]
fn test_part_b_main_vessel_message() {
    let bytestream = b"H3mr@L4NC=D62?P<7nmpl00@8220";
    let bitstream = unarmor(bytestream, 0).unwrap();
    let message = StaticDataReport::parse(&bitstream).unwrap();
    assert_eq!(message.mmsi, 257855600);
    match message.message_part {
        MessagePart::PartB {
            ship_type,
            vendor_id,
            model_serial,
            callsign,
            dimension_to_stern,
            ..
        } => {
            assert_eq!(ship_type, Some(ShipType::Fishing));
            assert_eq!(vendor_id, "SMT");
            assert_eq!(model_serial, "FBO");
            assert_eq!(callsign, "LG6584");
            assert_eq!(dimension_to_stern, 8);
        }
        _ => panic!("Expected Message Part B"),
    }
}

#[test]
fn test_part_b_auxiliary_vessel_message() {
    let bytestream = b"H>cfmI4UFC@0DAN00000000H3110";
    let bitstream = unarmor(bytestream, 0).unwrap();
    let message = StaticDataReport::parse(&bitstream).unwrap();
    assert_eq!(message.mmsi, 985380196);
    match message.message_part {
        MessagePart::PartB {
            ship_type,
            vendor_id,
            serial_number,
            dimension_to_bow,
            ..
        } => {
            assert_eq!(ship_type, Some(ShipType::PleasureCraft));
            assert_eq!(vendor_id, "VSP");
            assert_eq!(serial_number, 83038);
            assert_eq!(dimension_to_bow, 3);
        }
        _ => panic!("Expected Message Part B"),
    }
}
