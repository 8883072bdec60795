//! The bytes in which the faucet's record is kept: an eight-byte
//! discriminator, then the authority, the mint and the token account as 32
//! bytes each, then the bump.

use crate::pubkey::Pubkey;
use crate::state::Faucet;
use vstd::prelude::*;

verus! {

/// The bytes that mark an account as holding a faucet record.
pub const FAUCET_DISCRIMINATOR: [u8; 8] = [146, 11, 249, 142, 199, 197, 61, 0];

/// The length of the discriminator.
pub const DISCRIMINATOR_LEN: usize = 8;

/// The length of a record with its discriminator.
pub const RECORD_LEN: usize = 105;

impl Faucet {
    /// The length of a record without its discriminator.
    pub const INIT_SPACE: usize = 97;
}

/// Why bytes do not hold a faucet record.
#[derive(Clone, Copy, Debug, PartialEq, Eq, Structural)]
pub enum RecordError {
    /// There are fewer bytes than a discriminator has.
    MissingDiscriminator,
    /// The bytes start with another discriminator.
    WrongDiscriminator,
    /// The bytes end before the record does.
    Truncated,
}

/// Why `data` holds no faucet record, if it does not: the length of the
/// discriminator is looked at first, then its bytes, then the length of the
/// record.
pub open spec fn record_fault(data: Seq<u8>) -> Option<RecordError> {
    if data.len() < DISCRIMINATOR_LEN {
        Some(RecordError::MissingDiscriminator)
    } else if data.subrange(0, DISCRIMINATOR_LEN as int) != FAUCET_DISCRIMINATOR@ {
        Some(RecordError::WrongDiscriminator)
    } else if data.len() < RECORD_LEN {
        Some(RecordError::Truncated)
    } else {
        None
    }
}

/// Appends the bytes of `key` to `out`.
fn put_key(out: &mut Vec<u8>, key: &Pubkey)
    ensures
        final(out)@ == old(out)@ + key@,
{
    let mut i: usize = 0;
    while i < 32
        invariant
            i <= 32,
            out@ == old(out)@ + key@.subrange(0, i as int),
        decreases 32 - i,
    {
        out.push(key.bytes[i]);
        i += 1;
    }
    assert(key@.subrange(0, 32) == key@);
}

/// Reads the address that starts at `at`.
fn get_key(data: &[u8], at: usize) -> (key: Pubkey)
    requires
        at + 32 <= data@.len(),
    ensures
        key@ == data@.subrange(at as int, at + 32),
{
    let len: usize = data.len();
    let mut bytes: [u8; 32] = [0u8; 32];
    let mut i: usize = 0;
    while i < 32
        invariant
            i <= 32,
            len == data@.len(),
            at + 32 <= len,
            forall|j: int| 0 <= j < i ==> bytes@[j] == data@[at + j],
        decreases 32 - i,
    {
        bytes[i] = data[at + i];
        i += 1;
    }
    Pubkey { bytes }
}

impl Faucet {
    /// The bytes of the record.
    pub open spec fn layout(self) -> Seq<u8> {
        FAUCET_DISCRIMINATOR@ + self.authority@ + self.token_mint@ + self.token_account@
            + seq![self.bump]
    }

    /// Writes the record out.
    pub fn pack(&self) -> (bytes: Vec<u8>)
        ensures
            bytes@ == self.layout(),
    {
        let mut bytes: Vec<u8> = Vec::new();
        let mut i: usize = 0;
        while i < 8
            invariant
                i <= 8,
                bytes@ == FAUCET_DISCRIMINATOR@.subrange(0, i as int),
            decreases 8 - i,
        {
            bytes.push(FAUCET_DISCRIMINATOR[i]);
            i += 1;
        }
        assert(FAUCET_DISCRIMINATOR@.subrange(0, 8) == FAUCET_DISCRIMINATOR@);
        put_key(&mut bytes, &self.authority);
        put_key(&mut bytes, &self.token_mint);
        put_key(&mut bytes, &self.token_account);
        bytes.push(self.bump);
        bytes
    }

    /// Whether `outcome` is what reading `data` gives: the fault of `data` if
    /// it has one, and else the record whose bytes `data` starts with.
    pub open spec fn unpacked(data: Seq<u8>, outcome: Result<Faucet, RecordError>) -> bool {
        match outcome {
            Ok(record) => record_fault(data) is None && record.layout() == data.subrange(
                0,
                RECORD_LEN as int,
            ),
            Err(e) => record_fault(data) == Some(e),
        }
    }

    /// Reads a record from the start of `data`; bytes after the record are
    /// ignored.
    pub fn unpack(data: &[u8]) -> (outcome: Result<Faucet, RecordError>)
        ensures
            Faucet::unpacked(data@, outcome),
    {
        if data.len() < DISCRIMINATOR_LEN {
            return Err(RecordError::MissingDiscriminator);
        }
        let mut i: usize = 0;
        while i < 8
            invariant
                i <= 8,
                8 <= data@.len(),
                forall|j: int| 0 <= j < i ==> data@[j] == FAUCET_DISCRIMINATOR@[j],
            decreases 8 - i,
        {
            if data[i] != FAUCET_DISCRIMINATOR[i] {
                assert(data@.subrange(0, 8)[i as int] != FAUCET_DISCRIMINATOR@[i as int]);
                return Err(RecordError::WrongDiscriminator);
            }
            i += 1;
        }
        assert(data@.subrange(0, 8) == FAUCET_DISCRIMINATOR@);
        if data.len() < RECORD_LEN {
            return Err(RecordError::Truncated);
        }
        let record = Faucet {
            authority: get_key(data, 8),
            token_mint: get_key(data, 40),
            token_account: get_key(data, 72),
            bump: data[104],
        };
        assert(record.layout() == data@.subrange(0, 105));
        Ok(record)
    }

    /// Reading inverts writing: from bytes that start with the bytes of a
    /// record, whatever follows them, exactly that record is read.
    pub proof fn law_unpack_inverts_pack(
        record: Faucet,
        data: Seq<u8>,
        outcome: Result<Faucet, RecordError>,
    )
        requires
            data.len() >= RECORD_LEN,
            data.subrange(0, RECORD_LEN as int) == record.layout(),
            Faucet::unpacked(data, outcome),
        ensures
            outcome == Ok::<Faucet, RecordError>(record),
    {
        Faucet::law_layout_injective(record, record);
        assert(data.subrange(0, 8) == record.layout().subrange(0, 8));
        if outcome is Ok {
            Faucet::law_layout_injective(outcome->Ok_0, record);
        }
    }

    /// Every record takes `RECORD_LEN` bytes, which no check refuses, and two
    /// records with the same bytes are the same record.
    pub proof fn law_layout_injective(a: Faucet, b: Faucet)
        ensures
            a.layout().len() == RECORD_LEN,
            record_fault(a.layout()) is None,
            a.layout() == b.layout() ==> a == b,
    {
        let la = a.layout();
        let lb = b.layout();
        assert(la.subrange(0, 8) == FAUCET_DISCRIMINATOR@);
        if la == lb {
            assert(a.authority@ == la.subrange(8, 40));
            assert(b.authority@ == lb.subrange(8, 40));
            assert(a.token_mint@ == la.subrange(40, 72));
            assert(b.token_mint@ == lb.subrange(40, 72));
            assert(a.token_account@ == la.subrange(72, 104));
            assert(b.token_account@ == lb.subrange(72, 104));
            assert(a.bump == la[104]);
            assert(b.bump == lb[104]);
            Pubkey::lemma_view_injective(a.authority, b.authority);
            Pubkey::lemma_view_injective(a.token_mint, b.token_mint);
            Pubkey::lemma_view_injective(a.token_account, b.token_account);
        }
    }
}

} // verus!
