use vstd::prelude::*;

use crate::errors::DecodeError;

verus! {

/// Electronic position-fixing device.
#[derive(Debug, Clone, Copy, PartialEq, Eq, Structural)]
pub enum EpfdType {
    Gps,
    Glonass,
    CombinedGpsAndGlonass,
    LoranC,
    Chayka,
    IntegratedNavigationSystem,
    Surveyed,
    Galileo,
}

/// Codes 0 and 15 both mean "not stated".
pub open spec fn epfd_type_of(data: u8) -> Result<Option<EpfdType>, DecodeError> {
    if data == 0 || data == 15 {
        Ok(None)
    } else if data == 1 {
        Ok(Some(EpfdType::Gps))
    } else if data == 2 {
        Ok(Some(EpfdType::Glonass))
    } else if data == 3 {
        Ok(Some(EpfdType::CombinedGpsAndGlonass))
    } else if data == 4 {
        Ok(Some(EpfdType::LoranC))
    } else if data == 5 {
        Ok(Some(EpfdType::Chayka))
    } else if data == 6 {
        Ok(Some(EpfdType::IntegratedNavigationSystem))
    } else if data == 7 {
        Ok(Some(EpfdType::Surveyed))
    } else if data == 8 {
        Ok(Some(EpfdType::Galileo))
    } else {
        Err(DecodeError::UnknownEnumValue)
    }
}

impl EpfdType {
    pub fn parse(data: u8) -> (r: Result<Option<Self>, DecodeError>)
        ensures
            r == epfd_type_of(data),
    {
        match data {
            0 | 15 => Ok(None),
            1 => Ok(Some(EpfdType::Gps)),
            2 => Ok(Some(EpfdType::Glonass)),
            3 => Ok(Some(EpfdType::CombinedGpsAndGlonass)),
            4 => Ok(Some(EpfdType::LoranC)),
            5 => Ok(Some(EpfdType::Chayka)),
            6 => Ok(Some(EpfdType::IntegratedNavigationSystem)),
            7 => Ok(Some(EpfdType::Surveyed)),
            8 => Ok(Some(EpfdType::Galileo)),
            _ => Err(DecodeError::UnknownEnumValue),
        }
    }
}

/// Type of ship and cargo; the ranges that share a meaning keep their code.
#[derive(Debug, Clone, Copy, PartialEq, Eq, Structural)]
pub enum ShipType {
    Reserved(u8),
    WingInGround(u8),
    Fishing,
    Towing,
    TowingLarge,
    Dredging,
    DivingOps,
    MilitaryOps,
    Sailing,
    PleasureCraft,
    HighSpeedCraft(u8),
    PilotVessel,
    SearchAndRescueVessel,
    Tug,
    PortTender,
    AntiPollutionEquipment,
    LawEnforcement,
    SpareLocalVessel(u8),
    MedicalTransport,
    NoncombatantShip,
    Passenger(u8),
    Cargo(u8),
    Tanker(u8),
    Other(u8),
}

/// Code 0 is "not available"; codes above 99 are unassigned.
pub open spec fn ship_type_of(data: u8) -> Result<Option<ShipType>, DecodeError> {
    if data == 0 {
        Ok(None)
    } else if data <= 19 || data == 38 || data == 39 {
        Ok(Some(ShipType::Reserved(data)))
    } else if data <= 29 {
        Ok(Some(ShipType::WingInGround(data)))
    } else if data == 30 {
        Ok(Some(ShipType::Fishing))
    } else if data == 31 {
        Ok(Some(ShipType::Towing))
    } else if data == 32 {
        Ok(Some(ShipType::TowingLarge))
    } else if data == 33 {
        Ok(Some(ShipType::Dredging))
    } else if data == 34 {
        Ok(Some(ShipType::DivingOps))
    } else if data == 35 {
        Ok(Some(ShipType::MilitaryOps))
    } else if data == 36 {
        Ok(Some(ShipType::Sailing))
    } else if data == 37 {
        Ok(Some(ShipType::PleasureCraft))
    } else if data <= 49 {
        Ok(Some(ShipType::HighSpeedCraft(data)))
    } else if data == 50 {
        Ok(Some(ShipType::PilotVessel))
    } else if data == 51 {
        Ok(Some(ShipType::SearchAndRescueVessel))
    } else if data == 52 {
        Ok(Some(ShipType::Tug))
    } else if data == 53 {
        Ok(Some(ShipType::PortTender))
    } else if data == 54 {
        Ok(Some(ShipType::AntiPollutionEquipment))
    } else if data == 55 {
        Ok(Some(ShipType::LawEnforcement))
    } else if data <= 57 {
        Ok(Some(ShipType::SpareLocalVessel(data)))
    } else if data == 58 {
        Ok(Some(ShipType::MedicalTransport))
    } else if data == 59 {
        Ok(Some(ShipType::NoncombatantShip))
    } else if data <= 69 {
        Ok(Some(ShipType::Passenger(data)))
    } else if data <= 79 {
        Ok(Some(ShipType::Cargo(data)))
    } else if data <= 89 {
        Ok(Some(ShipType::Tanker(data)))
    } else if data <= 99 {
        Ok(Some(ShipType::Other(data)))
    } else {
        Err(DecodeError::UnknownEnumValue)
    }
}

impl ShipType {
    pub fn parse(data: u8) -> (r: Result<Option<Self>, DecodeError>)
        ensures
            r == ship_type_of(data),
    {
        match data {
            0 => Ok(None),
            1..=19 | 38 | 39 => Ok(Some(ShipType::Reserved(data))),
            20..=29 => Ok(Some(ShipType::WingInGround(data))),
            30 => Ok(Some(ShipType::Fishing)),
            31 => Ok(Some(ShipType::Towing)),
            32 => Ok(Some(ShipType::TowingLarge)),
            33 => Ok(Some(ShipType::Dredging)),
            34 => Ok(Some(ShipType::DivingOps)),
            35 => Ok(Some(ShipType::MilitaryOps)),
            36 => Ok(Some(ShipType::Sailing)),
            37 => Ok(Some(ShipType::PleasureCraft)),
            40..=49 => Ok(Some(ShipType::HighSpeedCraft(data))),
            50 => Ok(Some(ShipType::PilotVessel)),
            51 => Ok(Some(ShipType::SearchAndRescueVessel)),
            52 => Ok(Some(ShipType::Tug)),
            53 => Ok(Some(ShipType::PortTender)),
            54 => Ok(Some(ShipType::AntiPollutionEquipment)),
            55 => Ok(Some(ShipType::LawEnforcement)),
            56 | 57 => Ok(Some(ShipType::SpareLocalVessel(data))),
            58 => Ok(Some(ShipType::MedicalTransport)),
            59 => Ok(Some(ShipType::NoncombatantShip)),
            60..=69 => Ok(Some(ShipType::Passenger(data))),
            70..=79 => Ok(Some(ShipType::Cargo(data))),
            80..=89 => Ok(Some(ShipType::Tanker(data))),
            90..=99 => Ok(Some(ShipType::Other(data))),
            _ => Err(DecodeError::UnknownEnumValue),
        }
    }
}

} // verus!
