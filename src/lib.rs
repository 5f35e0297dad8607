//! Decoding of AIS messages: armored payloads are turned into bits, read by a
//! forward-only cursor, and mapped field by field to typed reports.
use vstd::prelude::*;

pub mod base_station_report;
pub mod bits;
pub mod errors;
pub mod navigation;
pub mod radio_status;
pub mod static_data_report;
pub mod text;
pub mod types;

use crate::base_station_report::BaseStationReport;
use crate::bits::BitBuffer;
use crate::errors::DecodeError;
use crate::static_data_report::StaticDataReport;

verus! {

/// What every message decoder offers: a label and a decode from the bits of
/// one message. Choosing the decoder by message type is left to the caller.
pub trait AisMessageType: Sized {
    fn name(&self) -> &'static str;

    fn parse(data: &BitBuffer) -> Result<Self, DecodeError>;
}

impl AisMessageType for BaseStationReport {
    fn name(&self) -> &'static str {
        BaseStationReport::name(self)
    }

    fn parse(data: &BitBuffer) -> Result<Self, DecodeError> {
        BaseStationReport::parse(data)
    }
}

impl AisMessageType for StaticDataReport {
    fn name(&self) -> &'static str {
        StaticDataReport::name(self)
    }

    fn parse(data: &BitBuffer) -> Result<Self, DecodeError> {
        StaticDataReport::parse(data)
    }
}

} // verus!
