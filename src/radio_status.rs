use vstd::prelude::*;

use crate::bits::{field, BitCursor};
use crate::errors::DecodeError;

verus! {

#[derive(Debug, Clone, Copy, PartialEq, Eq, Structural)]
pub enum SyncState {
    UtcDirect,
    UtcIndirect,
    BaseDirect,
    BaseIndirect,
}

/// What the 14 bits after the slot timeout hold, chosen by the timeout.
#[derive(Debug, Clone, Copy, PartialEq, Eq, Structural)]
pub enum SubMessage {
    SlotOffset(u16),
    UtcHourAndMinute(u8, u8),
    SlotNumber(u16),
    ReceivedStations(u16),
}

#[derive(Debug, Clone, Copy, PartialEq, Eq, Structural)]
pub struct SotdmaMessage {
    pub sync_state: SyncState,
    pub slot_timeout: u8,
    pub sub_message: SubMessage,
}

#[derive(Debug, Clone, Copy, PartialEq, Eq, Structural)]
pub struct ItdmaMessage {
    pub sync_state: SyncState,
    pub slot_increment: u16,
    pub num_slots: u8,
    pub keep_flag: bool,
}

#[derive(Debug, Clone, Copy, PartialEq, Eq, Structural)]
pub enum RadioStatus {
    Sotdma(SotdmaMessage),
    Itdma(ItdmaMessage),
}

pub open spec fn sync_state_of(v: nat) -> SyncState {
    if v == 0 {
        SyncState::UtcDirect
    } else if v == 1 {
        SyncState::UtcIndirect
    } else if v == 2 {
        SyncState::BaseDirect
    } else {
        SyncState::BaseIndirect
    }
}

pub open spec fn sub_message_of(timeout: nat, v: nat) -> SubMessage {
    if timeout == 0 {
        SubMessage::SlotOffset(v as u16)
    } else if timeout == 1 {
        SubMessage::UtcHourAndMinute((v / 512) as u8, ((v / 4) % 128) as u8)
    } else if timeout % 2 == 0 {
        SubMessage::SlotNumber(v as u16)
    } else {
        SubMessage::ReceivedStations(v as u16)
    }
}

/// The radio status held by the 19 bits from `start`: message type 3 uses
/// the incremental form, every other type the self-organised one.
pub open spec fn radio_status_of(s: Seq<bool>, start: int, message_type: u8) -> RadioStatus {
    if message_type == 3 {
        RadioStatus::Itdma(ItdmaMessage {
            sync_state: sync_state_of(field(s, start, 2)),
            slot_increment: field(s, start + 2, 13) as u16,
            num_slots: field(s, start + 15, 3) as u8,
            keep_flag: field(s, start + 18, 1) == 1,
        })
    } else {
        RadioStatus::Sotdma(SotdmaMessage {
            sync_state: sync_state_of(field(s, start, 2)),
            slot_timeout: field(s, start + 2, 3) as u8,
            sub_message: sub_message_of(field(s, start + 2, 3), field(s, start + 5, 14)),
        })
    }
}

fn sync_state(v: u32) -> (r: SyncState)
    ensures
        r == sync_state_of(v as nat),
{
    if v == 0 {
        SyncState::UtcDirect
    } else if v == 1 {
        SyncState::UtcIndirect
    } else if v == 2 {
        SyncState::BaseDirect
    } else {
        SyncState::BaseIndirect
    }
}

/// Reads the radio status that ends a message of type `message_type`.
pub fn parse_radio(cursor: &mut BitCursor, message_type: u8) -> (r: Result<RadioStatus, DecodeError>)
    requires
        old(cursor).wf(),
    ensures
        final(cursor).wf(),
        final(cursor).bits() == old(cursor).bits(),
        match r {
            Ok(st) => old(cursor).pos() + 19 <= old(cursor).bits().len()
                && st == radio_status_of(old(cursor).bits(), old(cursor).pos() as int, message_type)
                && final(cursor).pos() == old(cursor).pos() + 19,
            Err(e) => old(cursor).pos() + 19 > old(cursor).bits().len()
                && e == DecodeError::InsufficientBits,
        },
{
    if cursor.remaining_bits() < 19 {
        return Err(DecodeError::InsufficientBits);
    }
    proof {
        vstd::arithmetic::power2::lemma2_to64();
    }
    let sync = sync_state(cursor.take_unsigned(2)?);
    if message_type == 3 {
        let slot_increment = cursor.take_unsigned(13)?;
        let num_slots = cursor.take_unsigned(3)?;
        let keep = cursor.take_unsigned(1)?;
        Ok(RadioStatus::Itdma(ItdmaMessage {
            sync_state: sync,
            slot_increment: slot_increment as u16,
            num_slots: num_slots as u8,
            keep_flag: keep == 1,
        }))
    } else {
        let slot_timeout = cursor.take_unsigned(3)?;
        let v = cursor.take_unsigned(14)?;
        let sub_message = if slot_timeout == 0 {
            SubMessage::SlotOffset(v as u16)
        } else if slot_timeout == 1 {
            SubMessage::UtcHourAndMinute((v / 512) as u8, ((v / 4) % 128) as u8)
        } else if slot_timeout % 2 == 0 {
            SubMessage::SlotNumber(v as u16)
        } else {
            SubMessage::ReceivedStations(v as u16)
        };
        Ok(RadioStatus::Sotdma(SotdmaMessage {
            sync_state: sync,
            slot_timeout: slot_timeout as u8,
            sub_message,
        }))
    }
}

} // verus!
