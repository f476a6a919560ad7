use vstd::prelude::*;
use vstd::bytes::{spec_u64_from_le_bytes, spec_u64_to_le_bytes, u64_from_le_bytes, u64_to_le_bytes, lemma_auto_spec_u64_to_from_le_bytes};
use crate::error::LendingError;

verus! {

/// Size in bytes of a stored position record: an initialized flag followed by
/// the deposit and borrowed balances, each 8 bytes little-endian.
pub const RECORD_LEN: usize = 17;

/// One account's position: its collateral and its outstanding debt, in base units.
#[derive(Clone, Copy, Debug, Default, PartialEq, Eq, Structural)]
pub struct UserAccount {
    pub is_initialized: bool,
    pub deposits: u64,
    pub borrowed: u64,
}

/// The stored form of a position.
pub open spec fn record_bytes(a: UserAccount) -> Seq<u8> {
    seq![if a.is_initialized { 1u8 } else { 0u8 }]
        + spec_u64_to_le_bytes(a.deposits)
        + spec_u64_to_le_bytes(a.borrowed)
}

/// The position that a record of the right size decodes to.
pub open spec fn decode_record(s: Seq<u8>) -> UserAccount {
    UserAccount {
        is_initialized: s[0] != 0,
        deposits: spec_u64_from_le_bytes(s.subrange(1, 9)),
        borrowed: spec_u64_from_le_bytes(s.subrange(9, 17)),
    }
}

impl UserAccount {
    /// An initialized position with the given balances.
    pub fn new(deposits: u64, borrowed: u64) -> (r: Self)
        ensures
            r.is_initialized,
            r.deposits == deposits,
            r.borrowed == borrowed,
    {
        UserAccount { is_initialized: true, deposits, borrowed }
    }

    /// The zero position that an account holds before its first operation.
    pub fn empty() -> (r: Self)
        ensures
            !r.is_initialized,
            r.deposits == 0,
            r.borrowed == 0,
    {
        UserAccount { is_initialized: false, deposits: 0, borrowed: 0 }
    }

    pub fn is_initialized(&self) -> (r: bool)
        ensures
            r == self.is_initialized,
    {
        self.is_initialized
    }

    /// Decodes a stored record; fails unless it is exactly `RECORD_LEN` bytes.
    pub fn unpack_from_slice(src: &[u8]) -> (r: Result<Self, LendingError>)
        ensures
            src@.len() != RECORD_LEN ==> r == Err::<Self, LendingError>(LendingError::InvalidAccountData),
            src@.len() == RECORD_LEN ==> r == Ok::<Self, LendingError>(decode_record(src@)),
    {
        if src.len() != RECORD_LEN {
            return Err(LendingError::InvalidAccountData);
        }
        let is_initialized = src[0] != 0;
        let deposits = u64_from_le_bytes(vstd::slice::slice_subrange(src, 1, 9));
        let borrowed = u64_from_le_bytes(vstd::slice::slice_subrange(src, 9, 17));
        Ok(UserAccount { is_initialized, deposits, borrowed })
    }

    /// Encodes the position into the first `RECORD_LEN` bytes of `dst`,
    /// leaving any bytes after them as they were.
    pub fn pack_into_slice(&self, dst: &mut [u8])
        requires
            old(dst)@.len() >= RECORD_LEN,
        ensures
            final(dst)@.len() == old(dst)@.len(),
            final(dst)@.subrange(0, RECORD_LEN as int) == record_bytes(*self),
            final(dst)@.subrange(RECORD_LEN as int, final(dst)@.len() as int) == old(dst)@.subrange(
                RECORD_LEN as int,
                old(dst)@.len() as int,
            ),
    {
        let ghost before = dst@;
        let d = u64_to_le_bytes(self.deposits);
        let b = u64_to_le_bytes(self.borrowed);
        dst[0] = if self.is_initialized { 1u8 } else { 0u8 };
        let mut i: usize = 0;
        while i < 8
            invariant
                0 <= i <= 8,
                d@ == spec_u64_to_le_bytes(self.deposits),
                b@ == spec_u64_to_le_bytes(self.borrowed),
                d@.len() == 8,
                b@.len() == 8,
                dst@.len() == before.len(),
                before.len() >= RECORD_LEN,
                dst@[0] == (if self.is_initialized { 1u8 } else { 0u8 }),
                forall|k: int| 0 <= k < i ==> dst@[1 + k] == d@[k] && dst@[9 + k] == b@[k],
                forall|k: int| RECORD_LEN <= k < before.len() ==> dst@[k] == before[k],
            decreases 8 - i,
        {
            dst[1 + i] = d[i];
            dst[9 + i] = b[i];
            i = i + 1;
        }
        assert(dst@.subrange(0, RECORD_LEN as int) =~= record_bytes(*self));
        assert(dst@.subrange(RECORD_LEN as int, dst@.len() as int) =~= before.subrange(
            RECORD_LEN as int,
            before.len() as int,
        ));
    }
}

impl UserAccount {
    /// The position's stored record, as a new byte vector.
    pub fn to_record(&self) -> (r: Vec<u8>)
        ensures
            r@ == record_bytes(*self),
    {
        let d = u64_to_le_bytes(self.deposits);
        let b = u64_to_le_bytes(self.borrowed);
        let mut out: Vec<u8> = Vec::new();
        out.push(if self.is_initialized { 1u8 } else { 0u8 });
        let mut i: usize = 0;
        while i < 8
            invariant
                0 <= i <= 8,
                d@ == spec_u64_to_le_bytes(self.deposits),
                d@.len() == 8,
                out@ =~= seq![if self.is_initialized { 1u8 } else { 0u8 }] + d@.subrange(0, i as int),
            decreases 8 - i,
        {
            out.push(d[i]);
            i = i + 1;
        }
        let mut j: usize = 0;
        while j < 8
            invariant
                0 <= j <= 8,
                d@ == spec_u64_to_le_bytes(self.deposits),
                b@ == spec_u64_to_le_bytes(self.borrowed),
                d@.len() == 8,
                b@.len() == 8,
                out@ =~= seq![if self.is_initialized { 1u8 } else { 0u8 }] + d@ + b@.subrange(0, j as int),
            decreases 8 - j,
        {
            out.push(b[j]);
            j = j + 1;
        }
        assert(b@.subrange(0, 8) =~= b@);
        assert(d@.subrange(0, 8) =~= d@);
        out
    }
}

/// Decoding a packed record gives back the position that was packed.
pub proof fn lemma_record_round_trip(a: UserAccount)
    ensures
        record_bytes(a).len() == RECORD_LEN,
        decode_record(record_bytes(a)) == a,
{
    lemma_auto_spec_u64_to_from_le_bytes();
    let s = record_bytes(a);
    assert(s.subrange(1, 9) =~= spec_u64_to_le_bytes(a.deposits));
    assert(s.subrange(9, 17) =~= spec_u64_to_le_bytes(a.borrowed));
}

} // verus!
