//! The persistent record and its fixed-layout codec.
//!
//! A record occupies a 130-byte region: 1 byte `is_initialized` flag (0 or 1
//! only), 32 bytes manager identity, 96 bytes of three 32-byte entrant slots,
//! and 1 byte cursor. The codec is an exact bidirectional mapping between a
//! `Lottery` value and such a region; it knows nothing of authorization or
//! business rules.

use vstd::prelude::*;

use crate::error::LotteryError;

verus! {

/// Width in bytes of one identity.
pub const IDENTITY_LEN: usize = 32;

/// Number of entrant slots in a record.
pub const MAX_ENTRANTS: u8 = 3;

/// Width in bytes of an encoded record: 1 + 32 + 3 * 32 + 1.
pub const RECORD_LEN: usize = 130;

/// A 32-byte public identity of a participant or authority.
#[derive(Debug)]
pub struct Pubkey {
    pub bytes: Vec<u8>,
}

/// The all-zero identity, the content of an entrant slot that was never
/// filled.
pub open spec fn zero_key() -> Seq<u8> {
    Seq::new(32, |i: int| 0u8)
}

impl View for Pubkey {
    type V = Seq<u8>;

    open spec fn view(&self) -> Seq<u8> {
        self.bytes@
    }
}

impl Pubkey {
    pub open spec fn wf(&self) -> bool {
        self.bytes@.len() == 32
    }

    /// Builds an identity from its 32 raw bytes.
    pub fn from_bytes(bytes: Vec<u8>) -> (r: Pubkey)
        requires
            bytes@.len() == 32,
        ensures
            r.wf(),
            r@ == bytes@,
    {
        Pubkey { bytes }
    }

    /// The all-zero identity.
    pub fn zeroed() -> (r: Pubkey)
        ensures
            r.wf(),
            r@ == zero_key(),
    {
        let bytes: Vec<u8> = vec![0u8; 32];
        proof {
            assert(bytes@ =~= zero_key());
        }
        Pubkey { bytes }
    }
}

impl Clone for Pubkey {
    fn clone(&self) -> (r: Pubkey)
        ensures
            r@ == self@,
    {
        let bytes = self.bytes.clone();
        proof {
            assert(bytes@ =~= self.bytes@);
        }
        Pubkey { bytes }
    }
}

impl PartialEq for Pubkey {
    fn eq(&self, other: &Pubkey) -> (r: bool) {
        let r = self.bytes == other.bytes;
        proof {
            if self.bytes@.len() == other.bytes@.len()
                && (forall|i: int|
                0 <= i < self.bytes@.len() ==> self.bytes@[i] == other.bytes@[i]) {
                assert(self.bytes@ =~= other.bytes@);
            }
        }
        r
    }
}

impl vstd::std_specs::cmp::PartialEqSpecImpl for Pubkey {
    open spec fn obeys_eq_spec() -> bool {
        true
    }

    open spec fn eq_spec(&self, other: &Pubkey) -> bool {
        self@ == other@
    }
}

/// The mathematical shape of a record: what the codec and the state machine
/// reason about.
#[verifier::ext_equal]
pub ghost struct LotteryAbs {
    pub is_initialized: bool,
    pub manager: Seq<u8>,
    pub participants: Seq<Seq<u8>>,
    pub cursor: u8,
}

impl LotteryAbs {
    pub open spec fn wf(&self) -> bool {
        &&& self.manager.len() == 32
        &&& self.participants.len() == 3
        &&& forall|i: int| 0 <= i < 3 ==> self.participants[i].len() == 32
    }
}

/// A record with the given manager, three empty (all-zero) entrant slots and
/// cursor 0: what Initialize writes.
pub open spec fn fresh_record(manager: Seq<u8>) -> LotteryAbs {
    LotteryAbs {
        is_initialized: true,
        manager,
        participants: seq![zero_key(), zero_key(), zero_key()],
        cursor: 0,
    }
}

/// The all-zero uninitialized record that Draw writes back, ending the
/// record's useful life: any later Enter or Draw is rejected as
/// uninitialized.
pub open spec fn spent_record() -> LotteryAbs {
    LotteryAbs { is_initialized: false, ..fresh_record(zero_key()) }
}

/// The record left after one successful Enter by identity `p`.
pub open spec fn added(l: LotteryAbs, p: Seq<u8>) -> LotteryAbs {
    LotteryAbs {
        participants: l.participants.update(l.cursor as int, p),
        cursor: (l.cursor + 1) as u8,
        ..l
    }
}

/// The 130 bytes that encode a record.
pub open spec fn record_bytes(l: LotteryAbs) -> Seq<u8> {
    seq![flag_byte(l.is_initialized)] + l.manager + l.participants[0] + l.participants[1]
        + l.participants[2] + seq![l.cursor]
}

pub open spec fn flag_byte(b: bool) -> u8 {
    if b {
        1u8
    } else {
        0u8
    }
}

/// The record that 130 bytes decode to (meaningful when the flag byte is 0
/// or 1).
pub open spec fn record_of_bytes(b: Seq<u8>) -> LotteryAbs {
    LotteryAbs {
        is_initialized: b[0] == 1,
        manager: b.subrange(1, 33),
        participants: seq![b.subrange(33, 65), b.subrange(65, 97), b.subrange(97, 129)],
        cursor: b[129],
    }
}

/// Decoding without the initialization requirement, used only at
/// initialization time: rejects a wrong-sized region and a flag byte other
/// than 0 or 1, and nothing else.
pub open spec fn permissive_decode(b: Seq<u8>) -> Result<LotteryAbs, LotteryError> {
    if b.len() != 130 {
        Err(LotteryError::InvalidAccountData)
    } else if !(b[0] == 0 || b[0] == 1) {
        Err(LotteryError::InvalidAccountData)
    } else {
        Ok(record_of_bytes(b))
    }
}

/// Decoding as Enter and Draw use it: additionally rejects a record that is
/// not yet initialized.
pub open spec fn strict_decode(b: Seq<u8>) -> Result<LotteryAbs, LotteryError> {
    match permissive_decode(b) {
        Err(e) => Err(e),
        Ok(rec) => if !rec.is_initialized {
            Err(LotteryError::UninitializedAccount)
        } else {
            Ok(rec)
        },
    }
}

/// Encoding a well-formed record yields a valid region that decodes back to
/// the very same record.
pub proof fn lemma_codec_round_trip(l: LotteryAbs)
    requires
        l.wf(),
    ensures
        record_bytes(l).len() == 130,
        permissive_decode(record_bytes(l)) == Ok::<LotteryAbs, LotteryError>(l),
        l.is_initialized ==> strict_decode(record_bytes(l)) == Ok::<LotteryAbs, LotteryError>(l),
{
    let b = record_bytes(l);
    assert(b.subrange(1, 33) =~= l.manager);
    assert(b.subrange(33, 65) =~= l.participants[0]);
    assert(b.subrange(65, 97) =~= l.participants[1]);
    assert(b.subrange(97, 129) =~= l.participants[2]);
    assert(record_of_bytes(b).participants =~~= l.participants);
    assert(record_of_bytes(b) =~~= l);
}

/// Decoding a valid region and encoding the result reproduces the region
/// byte for byte: the codec loses nothing in either direction.
pub proof fn lemma_codec_round_trip_bytes(b: Seq<u8>)
    requires
        b.len() == 130,
        b[0] == 0 || b[0] == 1,
    ensures
        record_of_bytes(b).wf(),
        record_bytes(record_of_bytes(b)) == b,
{
    assert(record_bytes(record_of_bytes(b)) =~= b);
}

/// The persistent record: one lottery round.
#[derive(Debug)]
pub struct Lottery {
    pub is_initialized: bool,
    pub manager_pubkey: Pubkey,
    pub participants: Vec<Pubkey>,
    pub p_current_idx: u8,
}

impl View for Lottery {
    type V = LotteryAbs;

    open spec fn view(&self) -> LotteryAbs {
        LotteryAbs {
            is_initialized: self.is_initialized,
            manager: self.manager_pubkey@,
            participants: self.participants@.map_values(|p: Pubkey| p@),
            cursor: self.p_current_idx,
        }
    }
}

impl Lottery {
    pub open spec fn wf(&self) -> bool {
        &&& self.manager_pubkey.wf()
        &&& self.participants@.len() == 3
        &&& forall|i: int| 0 <= i < 3 ==> self.participants@[i].wf()
    }

    /// The record that Initialize binds to the initializing identity.
    pub fn fresh(manager_pubkey: Pubkey) -> (r: Lottery)
        requires
            manager_pubkey.wf(),
        ensures
            r.wf(),
            r@ == fresh_record(manager_pubkey@),
    {
        let mut participants: Vec<Pubkey> = Vec::new();
        participants.push(Pubkey::zeroed());
        participants.push(Pubkey::zeroed());
        participants.push(Pubkey::zeroed());
        let r = Lottery { is_initialized: true, manager_pubkey, participants, p_current_idx: 0 };
        proof {
            assert(r@ =~~= fresh_record(r.manager_pubkey@));
        }
        r
    }

    /// The all-zero uninitialized record written back by Draw.
    pub fn spent() -> (r: Lottery)
        ensures
            r.wf(),
            r@ == spent_record(),
    {
        let mut r = Lottery::fresh(Pubkey::zeroed());
        r.is_initialized = false;
        proof {
            assert(r@ =~~= spent_record());
        }
        r
    }

    pub fn is_initialized(&self) -> (r: bool)
        ensures
            r == self@.is_initialized,
    {
        self.is_initialized
    }

    pub fn set_initialized(&mut self)
        ensures
            *final(self) == (Lottery { is_initialized: true, ..*old(self) }),
    {
        self.is_initialized = true;
    }

    /// Appends one entrant at the cursor and advances it; rejects the append
    /// when all three slots are already filled, leaving the record untouched.
    pub fn add(&mut self, participant: Pubkey) -> (r: Result<(), LotteryError>)
        requires
            old(self).wf(),
            participant.wf(),
        ensures
            old(self)@.cursor < 3 ==> {
                &&& r == Ok::<(), LotteryError>(())
                &&& final(self).wf()
                &&& final(self)@ == added(old(self)@, participant@)
            },
            old(self)@.cursor >= 3 ==> {
                &&& r == Err::<(), LotteryError>(LotteryError::CapacityExceeded)
                &&& *final(self) == *old(self)
            },
    {
        if self.p_current_idx >= MAX_ENTRANTS {
            return Err(LotteryError::CapacityExceeded);
        }
        let idx = self.p_current_idx as usize;
        self.participants[idx] = participant;
        self.p_current_idx = self.p_current_idx + 1;
        proof {
            assert(self@.participants =~= added(old(self)@, self.participants@[idx as int]@).participants);
            assert(self@ =~~= added(old(self)@, self.participants@[idx as int]@));
        }
        Ok(())
    }

    /// Reads a record from a 130-byte region; fails exactly when the flag
    /// byte is neither 0 nor 1.
    pub fn unpack_from_slice(src: &[u8]) -> (r: Result<Lottery, LotteryError>)
        requires
            src@.len() == 130,
        ensures
            match r {
                Ok(l) => l.wf() && permissive_decode(src@) == Ok::<LotteryAbs, LotteryError>(l@),
                Err(e) => permissive_decode(src@) == Err::<LotteryAbs, LotteryError>(e),
            },
    {
        let flag = src[0];
        let is_initialized = match flag {
            0 => false,
            1 => true,
            _ => {
                return Err(LotteryError::InvalidAccountData);
            },
        };
        let manager_pubkey = read_key(src, 1);
        let mut participants: Vec<Pubkey> = Vec::new();
        participants.push(read_key(src, 33));
        participants.push(read_key(src, 65));
        participants.push(read_key(src, 97));
        let p_current_idx = src[129];
        let l = Lottery { is_initialized, manager_pubkey, participants, p_current_idx };
        proof {
            assert(l@ =~~= record_of_bytes(src@));
        }
        Ok(l)
    }

    /// Writes the record at the start of a 130-byte region, every field at
    /// its fixed offset; all 130 bytes are overwritten.
    pub fn pack_into_slice(&self, dst: &mut Vec<u8>)
        requires
            self.wf(),
            old(dst)@.len() == 130,
        ensures
            final(dst)@ == record_bytes(self@),
    {
        let flag: u8 = if self.is_initialized {
            1
        } else {
            0
        };
        dst[0] = flag;
        write_key(dst, 1, &self.manager_pubkey);
        write_key(dst, 33, &self.participants[0]);
        write_key(dst, 65, &self.participants[1]);
        write_key(dst, 97, &self.participants[2]);
        dst[129] = self.p_current_idx;
        proof {
            assert(dst@ =~= record_bytes(self@));
        }
    }

    /// Permissive read of a region of any size: wrong sizes and bad flag
    /// bytes are rejected, an uninitialized record is not.
    pub fn unpack_unchecked(input: &[u8]) -> (r: Result<Lottery, LotteryError>)
        ensures
            match r {
                Ok(l) => l.wf() && permissive_decode(input@) == Ok::<LotteryAbs, LotteryError>(l@),
                Err(e) => permissive_decode(input@) == Err::<LotteryAbs, LotteryError>(e),
            },
    {
        if input.len() != RECORD_LEN {
            return Err(LotteryError::InvalidAccountData);
        }
        Lottery::unpack_from_slice(input)
    }

    /// Strict read: as the permissive one, but additionally rejects a record
    /// whose initialization flag is not set.
    pub fn unpack(input: &[u8]) -> (r: Result<Lottery, LotteryError>)
        ensures
            match r {
                Ok(l) => l.wf() && strict_decode(input@) == Ok::<LotteryAbs, LotteryError>(l@),
                Err(e) => strict_decode(input@) == Err::<LotteryAbs, LotteryError>(e),
            },
    {
        match Lottery::unpack_unchecked(input) {
            Err(e) => Err(e),
            Ok(l) => {
                if !l.is_initialized() {
                    Err(LotteryError::UninitializedAccount)
                } else {
                    Ok(l)
                }
            },
        }
    }

    /// Encodes a record into a region; fails exactly when the region is not
    /// 130 bytes wide, leaving it untouched.
    pub fn pack(record: Lottery, dst: &mut Vec<u8>) -> (r: Result<(), LotteryError>)
        requires
            record.wf(),
        ensures
            old(dst)@.len() == 130 ==> r == Ok::<(), LotteryError>(()) && final(dst)@
                == record_bytes(record@),
            old(dst)@.len() != 130 ==> r == Err::<(), LotteryError>(LotteryError::InvalidAccountData)
                && final(dst)@ == old(dst)@,
    {
        if dst.len() != RECORD_LEN {
            return Err(LotteryError::InvalidAccountData);
        }
        record.pack_into_slice(dst);
        Ok(())
    }
}

impl Default for Lottery {
    /// A record with the all-zero manager, empty slots, cursor 0 and the
    /// initialization flag already set.
    fn default() -> (r: Lottery)
        ensures
            r.wf(),
            r@ == fresh_record(zero_key()),
    {
        Lottery::fresh(Pubkey::zeroed())
    }
}

/// Reads the 32-byte identity stored at `offset`.
fn read_key(src: &[u8], offset: usize) -> (r: Pubkey)
    requires
        offset + 32 <= src@.len(),
    ensures
        r.wf(),
        r@ == src@.subrange(offset as int, offset as int + 32),
{
    let n = src.len();
    let mut bytes: Vec<u8> = Vec::new();
    let mut i: usize = 0;
    while i < IDENTITY_LEN
        invariant
            offset + 32 <= src@.len(),
            src@.len() == n,
            i <= 32,
            bytes@ =~= src@.subrange(offset as int, offset as int + i as int),
        decreases 32 - i,
    {
        bytes.push(src[offset + i]);
        i = i + 1;
        proof {
            assert(bytes@ =~= src@.subrange(offset as int, offset as int + i as int));
        }
    }
    proof {
        assert(bytes@ =~= src@.subrange(offset as int, offset as int + 32));
    }
    Pubkey { bytes }
}

/// Writes the 32 bytes of `key` at `offset`, touching nothing else.
fn write_key(dst: &mut Vec<u8>, offset: usize, key: &Pubkey)
    requires
        key.wf(),
        offset + 32 <= old(dst)@.len(),
    ensures
        final(dst)@.len() == old(dst)@.len(),
        final(dst)@.subrange(offset as int, offset as int + 32) == key@,
        forall|j: int|
            0 <= j < old(dst)@.len() && !(offset <= j < offset + 32) ==> final(dst)@[j] == old(
                dst,
            )@[j],
{
    let n = dst.len();
    let mut i: usize = 0;
    while i < IDENTITY_LEN
        invariant
            key.wf(),
            offset + 32 <= dst@.len(),
            dst@.len() == n,
            dst@.len() == old(dst)@.len(),
            i <= 32,
            forall|j: int| offset <= j < offset + i ==> dst@[j] == key@[j - offset],
            forall|j: int|
                0 <= j < dst@.len() && !(offset <= j < offset + i) ==> dst@[j] == old(dst)@[j],
        decreases 32 - i,
    {
        dst[offset + i] = key.bytes[i];
        i = i + 1;
    }
    proof {
        assert(dst@.subrange(offset as int, offset as int + 32) =~= key@);
    }
}

} // verus!
