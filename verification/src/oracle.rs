use vstd::prelude::*;

use crate::errors::LotteryError;

verus! {

/// What the selection logic reads out of an external randomness-oracle
/// account: either the bytes do not hold a well-formed record, or they
/// hold one with the slot at which its value was revealed and the first
/// byte of its 32-byte random value (selection consumes only that byte).
#[derive(Clone, Copy, Debug, PartialEq, Eq, Structural)]
pub enum OracleRecord {
    Unreadable,
    Revealed { reveal_slot: u64, value_byte: u8 },
}

/// What parsing a randomness-oracle account's raw bytes yields. The
/// result is a function of the bytes alone; only the trusted wrapper
/// below says anything about it.
pub uninterp spec fn oracle_record_of(bytes: Seq<u8>) -> OracleRecord;

/// Relies on switchboard_on_demand::RandomnessAccountData::parse: whether
/// raw account bytes carry the discriminator and a well-formed randomness
/// record, and the record's reveal_slot and value fields, are functions
/// of the bytes alone. The bytes are copied into a word-aligned buffer
/// first, so the parser's alignment requirement is always met and the
/// outcome depends on nothing but the bytes.
#[verifier::external_body]
pub(crate) fn parse_oracle_record(data: &Vec<u8>) -> (r: OracleRecord)
    ensures
        r == oracle_record_of(data@),
{
    let mut words: Vec<u64> = vec![0u64; data.len().div_ceil(8)];
    let aligned: &mut [u8] = &mut bytemuck::cast_slice_mut(words.as_mut_slice())[..data.len()];
    aligned.copy_from_slice(data.as_slice());
    let cell = core::cell::RefCell::new(aligned);
    let record = match switchboard_on_demand::RandomnessAccountData::parse(cell.borrow()) {
        Ok(acc) => OracleRecord::Revealed { reveal_slot: acc.reveal_slot, value_byte: acc.value[0] },
        Err(_) => OracleRecord::Unreadable,
    };
    record
}

/// The tagged outcome of one oracle read at slot `clock_slot`: the oracle
/// releases its value only for the slot at which it was revealed, so a
/// well-formed record read at any other slot is not yet resolved and the
/// caller is expected to retry, while unparseable bytes are unavailable.
pub open spec fn oracle_value_at(bytes: Seq<u8>, clock_slot: u64) -> Result<u8, LotteryError> {
    match oracle_record_of(bytes) {
        OracleRecord::Unreadable => Err(LotteryError::RandomnessUnavailable),
        OracleRecord::Revealed { reveal_slot, value_byte } => if reveal_slot != clock_slot {
            Err(LotteryError::RandomnessNotResolved)
        } else {
            Ok(value_byte)
        },
    }
}

/// Reads the oracle account's random value for the current slot. A
/// record is current exactly when its reveal slot equals `clock_slot`,
/// the same currency rule the oracle crate applies when it hands a
/// value out.
pub fn read_oracle_value(data: &Vec<u8>, clock_slot: u64) -> (r: Result<u8, LotteryError>)
    ensures
        r == oracle_value_at(data@, clock_slot),
{
    match parse_oracle_record(data) {
        OracleRecord::Unreadable => Err(LotteryError::RandomnessUnavailable),
        OracleRecord::Revealed { reveal_slot, value_byte } => if reveal_slot != clock_slot {
            Err(LotteryError::RandomnessNotResolved)
        } else {
            Ok(value_byte)
        },
    }
}

} // verus!
