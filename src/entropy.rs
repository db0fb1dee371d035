use vstd::prelude::*;

use crate::errors::AppError;
use crate::automation::{le_bytes, le_bytes_of};
use crate::round::{all_bytes, all_bytes_are};

verus! {

/// The fields of the randomness oracle's variable that rounds depend on.
#[derive(Clone, Copy, Debug)]
pub struct EntropySample {
    /// The sampled slot hash.
    pub slot_hash: [u8; 32],
    /// The revealed seed.
    pub seed: [u8; 32],
    /// The finalized value.
    pub value: [u8; 32],
}

impl EntropySample {
    /// A variable is finalized once its slot hash, seed and value are all non-zero.
    pub open spec fn finalized(&self) -> bool {
        &&& !all_bytes(self.slot_hash@, 0)
        &&& !all_bytes(self.seed@, 0)
        &&& !all_bytes(self.value@, 0)
    }

    pub fn is_finalized(&self) -> (r: bool)
        ensures
            r == self.finalized(),
    {
        !all_bytes_are(&self.slot_hash, 0) && !all_bytes_are(&self.seed, 0) && !all_bytes_are(
            &self.value,
            0,
        )
    }

    /// The finalized value, or `EntropyNotFinalized`.
    pub fn finalized_value(&self) -> (r: Result<[u8; 32], AppError>)
        ensures
            self.finalized() ==> r == Ok::<[u8; 32], AppError>(self.value),
            !self.finalized() ==> r == Err::<[u8; 32], AppError>(AppError::EntropyNotFinalized),
    {
        if self.is_finalized() {
            Ok(self.value)
        } else {
            Err(AppError::EntropyNotFinalized)
        }
    }
}

/// Whether the bytes of `data` in `[start, end)` are all zero.
pub open spec fn zero_range(data: Seq<u8>, start: int, end: int) -> bool {
    forall|i: int| start <= i < end ==> data[i] == 0
}

/// Whether a stored oracle variable is finalized: it is long enough to hold its seed
/// (bytes 112 to 144), slot hash (144 to 176) and value (176 to 208), and none of the three
/// is all zero.
pub open spec fn var_data_finalized_spec(data: Seq<u8>) -> bool {
    &&& data.len() >= 208
    &&& !zero_range(data, 144, 176)
    &&& !zero_range(data, 112, 144)
    &&& !zero_range(data, 176, 208)
}

fn range_is_zero(data: &[u8], start: usize, end: usize) -> (r: bool)
    requires
        start <= end <= data@.len(),
    ensures
        r == zero_range(data@, start as int, end as int),
{
    let mut i = start;
    while i < end
        invariant
            start <= i <= end <= data@.len(),
            forall|j: int| start <= j < i ==> data@[j] == 0,
        decreases end - i,
    {
        if data[i] != 0 {
            return false;
        }
        i = i + 1;
    }
    true
}

/// Whether a stored oracle variable is finalized.
pub fn var_data_finalized(data: &[u8]) -> (r: bool)
    ensures
        r == var_data_finalized_spec(data@),
{
    if data.len() < 208 {
        return false;
    }
    !range_is_zero(data, 144, 176) && !range_is_zero(data, 112, 144) && !range_is_zero(
        data,
        176,
        208,
    )
}

/// The instruction data that asks the oracle to reuse a variable for a window ending at
/// `end_at`: the tag 2, then `end_at` in little-endian order.
pub fn next_instruction_data(end_at: u64) -> (r: Vec<u8>)
    ensures
        r@ == seq![2u8] + le_bytes_of(end_at),
{
    let mut data: Vec<u8> = Vec::new();
    data.push(2u8);
    let bytes = le_bytes(end_at);
    let mut i: usize = 0;
    while i < 8
        invariant
            i <= 8,
            bytes@ == le_bytes_of(end_at),
            data@ == seq![2u8] + bytes@.subrange(0, i as int),
        decreases 8 - i,
    {
        data.push(bytes[i]);
        assert(bytes@.subrange(0, i as int + 1) =~= bytes@.subrange(0, i as int).push(bytes@[i as int]));
        i = i + 1;
    }
    assert(bytes@.subrange(0, 8) =~= bytes@);
    data
}

/// The instruction data that opens a new oracle variable: the tag 0, the id, the commit,
/// a zero "automatic" flag, the number of samples and the end slot, integers in
/// little-endian order.
pub fn open_instruction_data(id: u64, commit: &[u8; 32], samples: u64, end_at: u64) -> (r: Vec<u8>)
    ensures
        r@ == seq![0u8] + le_bytes_of(id) + commit@ + le_bytes_of(0) + le_bytes_of(samples)
            + le_bytes_of(end_at),
{
    let mut data: Vec<u8> = Vec::new();
    data.push(0u8);
    append_bytes(&mut data, &le_bytes(id));
    append_bytes(&mut data, commit);
    append_bytes(&mut data, &le_bytes(0));
    append_bytes(&mut data, &le_bytes(samples));
    append_bytes(&mut data, &le_bytes(end_at));
    data
}

fn append_bytes(data: &mut Vec<u8>, bytes: &[u8])
    ensures
        final(data)@ == old(data)@ + bytes@,
{
    let ghost start = data@;
    let mut i: usize = 0;
    while i < bytes.len()
        invariant
            i <= bytes@.len(),
            data@ == start + bytes@.subrange(0, i as int),
        decreases bytes@.len() - i,
    {
        data.push(bytes[i]);
        assert(bytes@.subrange(0, i as int + 1) =~= bytes@.subrange(0, i as int).push(bytes@[i as int]));
        i = i + 1;
    }
    assert(bytes@.subrange(0, bytes@.len() as int) =~= bytes@);
}

} // verus!
