use vstd::prelude::*;

use crate::error::CustomError;
use crate::key::Pubkey;

verus! {

/// Bytes of the type tag that opens every stored record.
pub const ANCHOR_DISCRIMINATOR: usize = 8;

/// Bytes of a record's fields: the owner's key and two u64 counters.
pub const USER_ACCOUNT_INIT_SPACE: usize = 48;

/// Bytes allocated for a stored record: the type tag and the fields.
pub const USER_ACCOUNT_SPACE: usize = USER_ACCOUNT_INIT_SPACE + ANCHOR_DISCRIMINATOR;

/// The persisted per-user record.
#[derive(Clone, Copy, Debug)]
pub struct UserAccount {
    pub owner: Pubkey,
    pub balance: u64,
    pub total_bets: u64,
}

/// The type tag of a user record: the first eight bytes of the SHA-256 digest
/// of "account:UserAccount".
pub open spec fn user_account_discriminator() -> Seq<u8> {
    seq![211u8, 33u8, 136u8, 16u8, 186u8, 110u8, 242u8, 127u8]
}

/// The eight bytes of `v`, least significant first.
pub open spec fn u64_le_bytes(v: u64) -> Seq<u8> {
    seq![
        v as u8,
        (v >> 8u64) as u8,
        (v >> 16u64) as u8,
        (v >> 24u64) as u8,
        (v >> 32u64) as u8,
        (v >> 40u64) as u8,
        (v >> 48u64) as u8,
        (v >> 56u64) as u8,
    ]
}

/// The u64 whose bytes, least significant first, are `s[0..8]`.
pub open spec fn u64_from_le(s: Seq<u8>) -> u64
    recommends
        s.len() >= 8,
{
    (s[0] as u64) | ((s[1] as u64) << 8u64) | ((s[2] as u64) << 16u64) | ((s[3] as u64) << 24u64)
        | ((s[4] as u64) << 32u64) | ((s[5] as u64) << 40u64) | ((s[6] as u64) << 48u64) | ((
    s[7] as u64) << 56u64)
}

/// The stored form of a record: type tag, owner key, balance, bet count.
pub open spec fn record_bytes(r: UserAccount) -> Seq<u8> {
    user_account_discriminator() + r.owner@ + u64_le_bytes(r.balance) + u64_le_bytes(r.total_bets)
}

proof fn lemma_u64_le_round_trip(v: u64)
    ensures
        u64_from_le(u64_le_bytes(v)) == v,
{
    let b0 = v as u8;
    let b1 = (v >> 8u64) as u8;
    let b2 = (v >> 16u64) as u8;
    let b3 = (v >> 24u64) as u8;
    let b4 = (v >> 32u64) as u8;
    let b5 = (v >> 40u64) as u8;
    let b6 = (v >> 48u64) as u8;
    let b7 = (v >> 56u64) as u8;
    assert((b0 as u64) | ((b1 as u64) << 8u64) | ((b2 as u64) << 16u64) | ((b3 as u64) << 24u64)
        | ((b4 as u64) << 32u64) | ((b5 as u64) << 40u64) | ((b6 as u64) << 48u64) | ((
    b7 as u64) << 56u64) == v) by (bit_vector)
        requires
            b0 == v as u8,
            b1 == (v >> 8u64) as u8,
            b2 == (v >> 16u64) as u8,
            b3 == (v >> 24u64) as u8,
            b4 == (v >> 32u64) as u8,
            b5 == (v >> 40u64) as u8,
            b6 == (v >> 48u64) as u8,
            b7 == (v >> 56u64) as u8,
    ;
}

fn push_u64_le(out: &mut Vec<u8>, v: u64)
    ensures
        final(out)@ == old(out)@ + u64_le_bytes(v),
{
    out.push(v as u8);
    out.push((v >> 8u64) as u8);
    out.push((v >> 16u64) as u8);
    out.push((v >> 24u64) as u8);
    out.push((v >> 32u64) as u8);
    out.push((v >> 40u64) as u8);
    out.push((v >> 48u64) as u8);
    out.push((v >> 56u64) as u8);
    assert(out@ =~= old(out)@ + u64_le_bytes(v));
}

fn read_u64_le(data: &[u8], start: usize) -> (r: u64)
    requires
        start + 8 <= data@.len(),
    ensures
        r == u64_from_le(data@.subrange(start as int, start + 8)),
{
    let s = Ghost(data@.subrange(start as int, start + 8));
    assert(s@[0] == data@[start as int]);
    assert(s@[7] == data@[start + 7]);
    (data[start] as u64) | ((data[start + 1] as u64) << 8u64) | ((data[start + 2] as u64) << 16u64)
        | ((data[start + 3] as u64) << 24u64) | ((data[start + 4] as u64) << 32u64) | ((data[start
        + 5] as u64) << 40u64) | ((data[start + 6] as u64) << 48u64) | ((data[start + 7] as u64)
        << 56u64)
}

fn discriminator_bytes() -> (r: Vec<u8>)
    ensures
        r@ == user_account_discriminator(),
{
    let r: Vec<u8> = vec![211u8, 33u8, 136u8, 16u8, 186u8, 110u8, 242u8, 127u8];
    assert(r@ =~= user_account_discriminator());
    r
}

impl UserAccount {
    /// The record's stored form: type tag, owner key, then balance and bet
    /// count as little-endian u64s.
    pub fn serialize(&self) -> (r: Vec<u8>)
        ensures
            r@ == record_bytes(*self),
            r@.len() == USER_ACCOUNT_SPACE,
    {
        let mut out = discriminator_bytes();
        let mut i: usize = 0;
        while i < 32
            invariant
                0 <= i <= 32,
                self.owner@.len() == 32,
                out@ == user_account_discriminator() + self.owner@.subrange(0, i as int),
            decreases 32 - i,
        {
            out.push(self.owner.bytes[i]);
            i = i + 1;
            assert(out@ =~= user_account_discriminator() + self.owner@.subrange(0, i as int));
        }
        assert(self.owner@.subrange(0, 32) =~= self.owner@);
        push_u64_le(&mut out, self.balance);
        push_u64_le(&mut out, self.total_bets);
        out
    }

    /// Reads a record from its stored form. Bytes past the record's own are
    /// ignored.
    pub fn try_deserialize(data: &[u8]) -> (r: Result<UserAccount, CustomError>)
        ensures
            data@.len() < ANCHOR_DISCRIMINATOR ==> r == Err::<UserAccount, CustomError>(
                CustomError::AccountDiscriminatorNotFound,
            ),
            data@.len() >= ANCHOR_DISCRIMINATOR && data@.subrange(0, 8)
                != user_account_discriminator() ==> r == Err::<UserAccount, CustomError>(
                CustomError::AccountDiscriminatorMismatch,
            ),
            data@.len() >= ANCHOR_DISCRIMINATOR && data@.subrange(0, 8)
                == user_account_discriminator() && data@.len() < USER_ACCOUNT_SPACE ==> r == Err::<
                UserAccount,
                CustomError,
            >(CustomError::AccountDidNotDeserialize),
            data@.len() >= USER_ACCOUNT_SPACE && data@.subrange(0, 8)
                == user_account_discriminator() ==> r is Ok && record_bytes(r->Ok_0)
                == data@.subrange(0, USER_ACCOUNT_SPACE as int),
    {
        if data.len() < ANCHOR_DISCRIMINATOR {
            return Err(CustomError::AccountDiscriminatorNotFound);
        }
        let tag = discriminator_bytes();
        let mut i: usize = 0;
        while i < 8
            invariant
                0 <= i <= 8,
                data@.len() >= 8,
                tag@ == user_account_discriminator(),
                forall|j: int| 0 <= j < i ==> data@[j] == tag@[j],
            decreases 8 - i,
        {
            if data[i] != tag[i] {
                assert(data@.subrange(0, 8)[i as int] != user_account_discriminator()[i as int]);
                return Err(CustomError::AccountDiscriminatorMismatch);
            }
            i = i + 1;
        }
        assert(data@.subrange(0, 8) =~= user_account_discriminator());
        if data.len() < USER_ACCOUNT_SPACE {
            return Err(CustomError::AccountDidNotDeserialize);
        }
        let mut owner = [0u8; 32];
        let mut k: usize = 0;
        while k < 32
            invariant
                0 <= k <= 32,
                data@.len() >= USER_ACCOUNT_SPACE,
                owner@.len() == 32,
                forall|j: int| 0 <= j < k ==> owner@[j] == data@[8 + j],
            decreases 32 - k,
        {
            owner[k] = data[8 + k];
            k = k + 1;
        }
        let balance = read_u64_le(data, 40);
        let total_bets = read_u64_le(data, 48);
        let r = UserAccount { owner: Pubkey { bytes: owner }, balance, total_bets };
        proof {
            let s = data@.subrange(40, 48);
            let t = data@.subrange(48, 56);
            lemma_u64_le_from_bytes(s);
            lemma_u64_le_from_bytes(t);
            assert(record_bytes(r) =~= data@.subrange(0, USER_ACCOUNT_SPACE as int));
        }
        Ok(r)
    }
}

proof fn lemma_u64_le_from_bytes(s: Seq<u8>)
    requires
        s.len() == 8,
    ensures
        u64_le_bytes(u64_from_le(s)) == s,
{
    let (b0, b1, b2, b3, b4, b5, b6, b7) = (s[0], s[1], s[2], s[3], s[4], s[5], s[6], s[7]);
    let v = u64_from_le(s);
    assert(v as u8 == b0 && (v >> 8u64) as u8 == b1 && (v >> 16u64) as u8 == b2 && (v >> 24u64) as u8
        == b3 && (v >> 32u64) as u8 == b4 && (v >> 40u64) as u8 == b5 && (v >> 48u64) as u8 == b6
        && (v >> 56u64) as u8 == b7) by (bit_vector)
        requires
            v == (b0 as u64) | ((b1 as u64) << 8u64) | ((b2 as u64) << 16u64) | ((b3 as u64)
                << 24u64) | ((b4 as u64) << 32u64) | ((b5 as u64) << 40u64) | ((b6 as u64)
                << 48u64) | ((b7 as u64) << 56u64),
    ;
    assert(u64_le_bytes(v) =~= s);
}

/// Round trip of the stored form: a record's bytes fill exactly the space
/// allocated for it, open with the type tag, and name no other record, so that
/// reading them back gives the same record.
pub proof fn lemma_record_round_trip(r: UserAccount, other: UserAccount)
    ensures
        record_bytes(r).len() == USER_ACCOUNT_SPACE,
        record_bytes(r).subrange(0, 8) == user_account_discriminator(),
        record_bytes(other) == record_bytes(r) ==> other == r,
{
    let b = record_bytes(r);
    assert(b.subrange(0, 8) =~= user_account_discriminator());
    if record_bytes(other) == b {
        let c = record_bytes(other);
        assert(other.owner@ =~= c.subrange(8, 40));
        assert(r.owner@ =~= b.subrange(8, 40));
        assert(other.owner.bytes =~= r.owner.bytes);
        assert(c.subrange(40, 48) =~= u64_le_bytes(other.balance));
        assert(b.subrange(40, 48) =~= u64_le_bytes(r.balance));
        assert(c.subrange(48, 56) =~= u64_le_bytes(other.total_bets));
        assert(b.subrange(48, 56) =~= u64_le_bytes(r.total_bets));
        lemma_u64_le_round_trip(other.balance);
        lemma_u64_le_round_trip(r.balance);
        lemma_u64_le_round_trip(other.total_bets);
        lemma_u64_le_round_trip(r.total_bets);
    }
}

} // verus!
