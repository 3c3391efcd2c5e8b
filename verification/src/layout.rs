//! The persisted form of a vault record.
//!
//! A record is stored in 112 bytes: the mint (32), the bump (1), padding (7), the underlying
//! mint (32), the pool's token account (32), the stake fee and the unstake fee (4 each,
//! little-endian).

use vstd::bytes::{
    lemma_auto_spec_u32_to_from_le_bytes, spec_u32_from_le_bytes, spec_u32_to_le_bytes,
    u32_from_le_bytes, u32_to_le_bytes,
};
use vstd::prelude::*;
use vstd::slice::slice_subrange;

use crate::accounts::Address;
use crate::state::YiToken;

verus! {

/// Number of bytes in a stored record.
pub const RECORD_LEN: usize = 112;

/// Appends `source` to `bytes`.
fn append(bytes: &mut Vec<u8>, source: &[u8])
    ensures
        final(bytes)@ == old(bytes)@ + source@,
{
    let ghost before = bytes@;
    let mut i: usize = 0;
    while i < source.len()
        invariant
            i <= source@.len(),
            bytes@ == before + source@.subrange(0, i as int),
        decreases source@.len() - i,
    {
        bytes.push(source[i]);
        assert(bytes@ =~= before + source@.subrange(0, i + 1));
        i += 1;
    }
    assert(bytes@ =~= before + source@);
}

/// The 7 bytes of `bytes` from `start` on.
fn padding_at(bytes: &[u8], start: usize) -> (padding: [u8; 7])
    requires
        start + 7 <= bytes@.len(),
    ensures
        padding@ == bytes@.subrange(start as int, start + 7),
{
    let total: usize = bytes.len();
    let mut padding: [u8; 7] = [0u8; 7];
    let mut i: usize = 0;
    while i < 7
        invariant
            i <= 7,
            start + 7 <= bytes@.len() == total,
            forall|j: int| 0 <= j < i ==> padding@[j] == bytes@[start + j],
        decreases 7 - i,
    {
        padding[i] = bytes[start + i];
        i += 1;
    }
    assert(padding@ =~= bytes@.subrange(start as int, start + 7));
    padding
}

impl Address {
    /// The address held in the 32 bytes of `bytes` from `start` on.
    pub fn read(bytes: &[u8], start: usize) -> (address: Address)
        requires
            start + 32 <= bytes@.len(),
        ensures
            address@ == bytes@.subrange(start as int, start + 32),
    {
        let total: usize = bytes.len();
        let mut read: [u8; 32] = [0u8; 32];
        let mut i: usize = 0;
        while i < 32
            invariant
                i <= 32,
                start + 32 <= bytes@.len() == total,
                forall|j: int| 0 <= j < i ==> read@[j] == bytes@[start + j],
            decreases 32 - i,
        {
            read[i] = bytes[start + i];
            i += 1;
        }
        assert(read@ =~= bytes@.subrange(start as int, start + 32));
        Address { bytes: read }
    }
}

impl YiToken {
    /// The stored form of the record.
    pub open spec fn packed(&self) -> Seq<u8> {
        self.mint@ + seq![self.bump] + self._padding@ + self.underlying_token_mint@
            + self.underlying_tokens@ + spec_u32_to_le_bytes(self.stake_fee_millibps)
            + spec_u32_to_le_bytes(self.unstake_fee_millibps)
    }

    /// Writes the record in its stored form.
    pub fn pack(&self) -> (bytes: Vec<u8>)
        ensures
            bytes@ == self.packed(),
            bytes@.len() == RECORD_LEN,
    {
        proof {
            lemma_auto_spec_u32_to_from_le_bytes();
        }
        let mut bytes: Vec<u8> = Vec::new();
        append(&mut bytes, &self.mint.bytes);
        bytes.push(self.bump);
        append(&mut bytes, &self._padding);
        append(&mut bytes, &self.underlying_token_mint.bytes);
        append(&mut bytes, &self.underlying_tokens.bytes);
        let stake_fee = u32_to_le_bytes(self.stake_fee_millibps);
        append(&mut bytes, stake_fee.as_slice());
        let unstake_fee = u32_to_le_bytes(self.unstake_fee_millibps);
        append(&mut bytes, unstake_fee.as_slice());
        assert(bytes@ =~= self.packed());
        bytes
    }

    /// Reads a record from its stored form: there is one exactly where `bytes` has
    /// [RECORD_LEN] bytes. The padding is kept as it was read.
    pub fn unpack(bytes: &[u8]) -> (record: Option<YiToken>)
        ensures
            record is Some <==> bytes@.len() == RECORD_LEN,
            record is Some ==> {
                let read = record->Some_0;
                &&& read.packed() == bytes@
                &&& read.mint@ == bytes@.subrange(0, 32)
                &&& read.bump == bytes@[32]
                &&& read._padding@ == bytes@.subrange(33, 40)
                &&& read.underlying_token_mint@ == bytes@.subrange(40, 72)
                &&& read.underlying_tokens@ == bytes@.subrange(72, 104)
                &&& read.stake_fee_millibps == spec_u32_from_le_bytes(bytes@.subrange(104, 108))
                &&& read.unstake_fee_millibps == spec_u32_from_le_bytes(bytes@.subrange(108, 112))
            },
    {
        if bytes.len() != RECORD_LEN {
            return None;
        }
        proof {
            lemma_auto_spec_u32_to_from_le_bytes();
        }
        let read = YiToken {
            mint: Address::read(bytes, 0),
            bump: bytes[32],
            _padding: padding_at(bytes, 33),
            underlying_token_mint: Address::read(bytes, 40),
            underlying_tokens: Address::read(bytes, 72),
            stake_fee_millibps: u32_from_le_bytes(slice_subrange(bytes, 104, 108)),
            unstake_fee_millibps: u32_from_le_bytes(slice_subrange(bytes, 108, 112)),
        };
        assert(read.packed() =~= bytes@);
        Some(read)
    }
}

/// Two records with the same stored form are the same record: what is read back from the
/// bytes that a record was written to is that record.
pub proof fn lemma_stored_form_is_faithful(record: YiToken, read: YiToken)
    requires
        read.packed() == record.packed(),
    ensures
        read == record,
{
    lemma_auto_spec_u32_to_from_le_bytes();
    let bytes = record.packed();
    assert(read.mint@ =~= bytes.subrange(0, 32));
    assert(record.mint@ =~= bytes.subrange(0, 32));
    assert(read.bump == bytes[32]);
    assert(record.bump == bytes[32]);
    assert(read._padding@ =~= bytes.subrange(33, 40));
    assert(record._padding@ =~= bytes.subrange(33, 40));
    assert(read.underlying_token_mint@ =~= bytes.subrange(40, 72));
    assert(record.underlying_token_mint@ =~= bytes.subrange(40, 72));
    assert(read.underlying_tokens@ =~= bytes.subrange(72, 104));
    assert(record.underlying_tokens@ =~= bytes.subrange(72, 104));
    assert(spec_u32_to_le_bytes(read.stake_fee_millibps) =~= bytes.subrange(104, 108));
    assert(spec_u32_to_le_bytes(record.stake_fee_millibps) =~= bytes.subrange(104, 108));
    assert(spec_u32_to_le_bytes(read.unstake_fee_millibps) =~= bytes.subrange(108, 112));
    assert(spec_u32_to_le_bytes(record.unstake_fee_millibps) =~= bytes.subrange(108, 112));
    assert(read.mint.bytes =~= record.mint.bytes);
    assert(read._padding =~= record._padding);
    assert(read.underlying_token_mint.bytes =~= record.underlying_token_mint.bytes);
    assert(read.underlying_tokens.bytes =~= record.underlying_tokens.bytes);
}

} // verus!
