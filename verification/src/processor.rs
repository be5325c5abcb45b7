//! The state-machine processor.
//!
//! The processor is stateless: each invocation receives the caller-supplied
//! account references as plain values, validates every precondition, applies
//! the transition, and returns the ledger effects as data. The runtime
//! adapter around the library performs the actual balance transfers and
//! writes the returned bytes back into the storage region; a failed
//! invocation returns an error and carries no effects, so nothing is
//! written on failure.

use vstd::prelude::*;

use crate::error::LotteryError;
use crate::instruction::{spec_unpack, LotteryInstruction};
use crate::state::{
    added, fresh_record, permissive_decode, record_bytes, spent_record, strict_decode, Lottery,
    LotteryAbs, Pubkey, RECORD_LEN,
};

verus! {

/// The entry fee one Enter pays into the pool, in units of the ledger's
/// base currency.
pub const ENTRY_FEE_LAMPORTS: u64 = 1000000000;

/// A caller-supplied account reference, as plain values: the identity, the
/// signer verdict the runtime reports for it, its current balance, its
/// administrative owner, and its stored bytes.
#[derive(Debug)]
pub struct AccountRef {
    pub key: Pubkey,
    pub is_signer: bool,
    pub lamports: u64,
    pub owner: Pubkey,
    pub data: Vec<u8>,
}

impl AccountRef {
    pub open spec fn wf(&self) -> bool {
        &&& self.key.wf()
        &&& self.owner.wf()
    }
}

/// A balance transfer the runtime is asked to perform on the ledger.
#[derive(Debug)]
pub struct FeeTransfer {
    pub from: Pubkey,
    pub to: Pubkey,
    pub amount: u64,
}

/// The ledger effects of one successful invocation. `new_data` is always
/// the full 130 bytes to write into the storage region.
#[derive(Debug)]
pub enum Effects {
    /// Initialize: write the fresh record; no balance effects.
    Initialized { new_data: Vec<u8> },
    /// Enter: transfer the entry fee into the region, then write the record.
    Entered { fee: FeeTransfer, new_data: Vec<u8> },
    /// Draw: move the region's whole balance (`payout`) to the winner, zero
    /// the region's balance, and write the spent record.
    Drawn { winner: Pubkey, payout: u64, new_data: Vec<u8> },
}

/// Outcome of Initialize on the given accounts: either the record to write
/// or the error, with the checks in the order the processor makes them.
/// Accounts: 0 = initializing identity (signer), 1 = storage region,
/// 2 = funding-sufficiency reference, whose verdict is `rent_exempt`.
pub open spec fn init_outcome(
    accounts: Seq<AccountRef>,
    program: Seq<u8>,
    rent_exempt: bool,
) -> Result<LotteryAbs, LotteryError> {
    if accounts.len() < 1 {
        Err(LotteryError::NotEnoughAccountKeys)
    } else if !accounts[0].is_signer {
        Err(LotteryError::MissingRequiredSignature)
    } else if accounts.len() < 2 {
        Err(LotteryError::NotEnoughAccountKeys)
    } else if accounts[1].owner@ != program {
        Err(LotteryError::IncorrectProgramId)
    } else if accounts.len() < 3 {
        Err(LotteryError::NotEnoughAccountKeys)
    } else if !rent_exempt {
        Err(LotteryError::NotRentExempt)
    } else {
        match permissive_decode(accounts[1].data@) {
            Err(e) => Err(e),
            Ok(rec) => if rec.is_initialized {
                Err(LotteryError::AccountAlreadyInitialized)
            } else {
                Ok(fresh_record(accounts[0].key@))
            },
        }
    }
}

/// Outcome of Enter. Accounts: 0 = entering identity (signer), 1 = the
/// ledger-effects collaborator (plumbing only, never inspected), 2 = the
/// storage region.
pub open spec fn play_outcome(accounts: Seq<AccountRef>, program: Seq<u8>) -> Result<
    LotteryAbs,
    LotteryError,
> {
    if accounts.len() < 1 {
        Err(LotteryError::NotEnoughAccountKeys)
    } else if !accounts[0].is_signer {
        Err(LotteryError::MissingRequiredSignature)
    } else if accounts.len() < 2 {
        Err(LotteryError::NotEnoughAccountKeys)
    } else if accounts[0].lamports < ENTRY_FEE_LAMPORTS {
        Err(LotteryError::InsufficientFunds)
    } else if accounts.len() < 3 {
        Err(LotteryError::NotEnoughAccountKeys)
    } else if accounts[2].owner@ != program {
        Err(LotteryError::IncorrectProgramId)
    } else {
        match strict_decode(accounts[2].data@) {
            Err(e) => Err(e),
            Ok(rec) => if rec.cursor >= 3 {
                Err(LotteryError::CapacityExceeded)
            } else {
                Ok(added(rec, accounts[0].key@))
            },
        }
    }
}

/// Outcome of Draw. Accounts: 0 = claiming identity (signer), 1 = the
/// storage region.
pub open spec fn draw_outcome(accounts: Seq<AccountRef>, program: Seq<u8>) -> Result<
    LotteryAbs,
    LotteryError,
> {
    if accounts.len() < 1 {
        Err(LotteryError::NotEnoughAccountKeys)
    } else if !accounts[0].is_signer {
        Err(LotteryError::MissingRequiredSignature)
    } else if accounts.len() < 2 {
        Err(LotteryError::NotEnoughAccountKeys)
    } else if accounts[1].owner@ != program {
        Err(LotteryError::IncorrectProgramId)
    } else {
        match strict_decode(accounts[1].data@) {
            Err(e) => Err(e),
            Ok(rec) => if rec.cursor != 3 {
                Err(LotteryError::EntrantsIncomplete)
            } else if accounts[0].key@ != rec.manager {
                Err(LotteryError::AuthorityMismatch)
            } else {
                Ok(spent_record())
            },
        }
    }
}

/// What `process_init_lottery` returns: the error `init_outcome` gives, or
/// the write-back of the freshly bound record.
pub open spec fn init_post(
    r: Result<Effects, LotteryError>,
    accounts: Seq<AccountRef>,
    program: Seq<u8>,
    rent_exempt: bool,
) -> bool {
    match init_outcome(accounts, program, rent_exempt) {
        Ok(rec) => {
            &&& r matches Ok(ef)
            &&& ef matches Effects::Initialized { new_data }
            &&& new_data@ == record_bytes(rec)
        },
        Err(e) => r == Err::<Effects, LotteryError>(e),
    }
}

/// What `process_play` returns: the error `play_outcome` gives, or the fee
/// transfer from the entering identity into the region together with the
/// write-back of the extended record.
pub open spec fn play_post(
    r: Result<Effects, LotteryError>,
    accounts: Seq<AccountRef>,
    program: Seq<u8>,
) -> bool {
    match play_outcome(accounts, program) {
        Ok(rec) => {
            &&& r matches Ok(ef)
            &&& ef matches Effects::Entered { fee, new_data }
            &&& fee.from@ == accounts[0].key@
            &&& fee.to@ == accounts[2].key@
            &&& fee.amount == ENTRY_FEE_LAMPORTS
            &&& new_data@ == record_bytes(rec)
        },
        Err(e) => r == Err::<Effects, LotteryError>(e),
    }
}

/// What `process_draw` returns: the error `draw_outcome` gives, or the
/// payout of the region's whole balance to the claimant together with the
/// write-back of the spent record.
pub open spec fn draw_post(
    r: Result<Effects, LotteryError>,
    accounts: Seq<AccountRef>,
    program: Seq<u8>,
) -> bool {
    match draw_outcome(accounts, program) {
        Ok(rec) => {
            &&& r matches Ok(ef)
            &&& ef matches Effects::Drawn { winner, payout, new_data }
            &&& winner@ == accounts[0].key@
            &&& payout == accounts[1].lamports
            &&& new_data@ == record_bytes(rec)
        },
        Err(e) => r == Err::<Effects, LotteryError>(e),
    }
}

/// One Enter transition on a record alone: a full record is left untouched
/// (the attempt fails), otherwise the entrant is appended.
pub open spec fn enter_step(l: LotteryAbs, p: Seq<u8>) -> LotteryAbs {
    if l.cursor >= 3 {
        l
    } else {
        added(l, p)
    }
}

/// The record after a whole sequence of Enter attempts.
pub open spec fn run_enters(l: LotteryAbs, ps: Seq<Seq<u8>>) -> LotteryAbs
    decreases ps.len(),
{
    if ps.len() == 0 {
        l
    } else {
        run_enters(enter_step(l, ps[0]), ps.drop_first())
    }
}

/// Enter attempts keep the record well formed, never touch the flag or the
/// manager, and move the cursor by one per successful append, capped at 3;
/// a record that is already full stays exactly as it is.
pub proof fn lemma_run_enters_props(l: LotteryAbs, ps: Seq<Seq<u8>>)
    requires
        l.wf(),
        forall|i: int| 0 <= i < ps.len() ==> (#[trigger] ps[i]).len() == 32,
    ensures
        run_enters(l, ps).wf(),
        run_enters(l, ps).is_initialized == l.is_initialized,
        run_enters(l, ps).manager == l.manager,
        l.cursor >= 3 ==> run_enters(l, ps) == l,
        l.cursor < 3 ==> run_enters(l, ps).cursor as int == (if l.cursor + ps.len() <= 3 {
            l.cursor + ps.len()
        } else {
            3int
        }),
    decreases ps.len(),
{
    if ps.len() > 0 {
        let l1 = enter_step(l, ps[0]);
        assert(l1.wf());
        assert(forall|i: int|
            0 <= i < ps.drop_first().len() ==> (#[trigger] ps.drop_first()[i]).len() == 32);
        lemma_run_enters_props(l1, ps.drop_first());
    }
}

/// Arrival order: as long as slots remain, each Enter lands in the next
/// free slot, earlier entrants and the untouched tail stay as they were,
/// and the cursor counts the filled slots.
pub proof fn lemma_run_enters_fill(l: LotteryAbs, ps: Seq<Seq<u8>>)
    requires
        l.wf(),
        forall|i: int| 0 <= i < ps.len() ==> (#[trigger] ps[i]).len() == 32,
        l.cursor + ps.len() <= 3,
    ensures
        run_enters(l, ps).cursor == l.cursor + ps.len(),
        forall|i: int|
            0 <= i < l.cursor ==> run_enters(l, ps).participants[i] == l.participants[i],
        forall|i: int|
            l.cursor <= i < l.cursor + ps.len() ==> run_enters(l, ps).participants[i]
                == ps[i - l.cursor],
        forall|i: int|
            l.cursor + ps.len() <= i < 3 ==> run_enters(l, ps).participants[i]
                == l.participants[i],
    decreases ps.len(),
{
    if ps.len() > 0 {
        let l1 = enter_step(l, ps[0]);
        assert(l1.participants == l.participants.update(l.cursor as int, ps[0]));
        assert(forall|i: int|
            0 <= i < 3 && i != l.cursor ==> l1.participants[i] == l.participants[i]);
        assert(l1.participants[l.cursor as int] == ps[0]);
        assert(forall|i: int|
            0 <= i < ps.drop_first().len() ==> (#[trigger] ps.drop_first()[i]).len() == 32);
        lemma_run_enters_fill(l1, ps.drop_first());
        assert(forall|i: int|
            0 <= i < ps.drop_first().len() ==> #[trigger] ps.drop_first()[i] == ps[i + 1]);
    }
}

/// Capacity: a fourth Enter on a record bred from a fresh one by three (or
/// more) Enter attempts fails with CapacityExceeded — the processor emits
/// no effects, and the transition itself leaves cursor and entrants alone.
pub proof fn lemma_fourth_enter_fails(
    m: Seq<u8>,
    ps: Seq<Seq<u8>>,
    accounts: Seq<AccountRef>,
    program: Seq<u8>,
)
    requires
        m.len() == 32,
        forall|i: int| 0 <= i < ps.len() ==> (#[trigger] ps[i]).len() == 32,
        ps.len() >= 3,
        accounts.len() >= 3,
        accounts[0].is_signer,
        accounts[0].lamports >= ENTRY_FEE_LAMPORTS,
        accounts[2].owner@ == program,
        accounts[2].data@ == record_bytes(run_enters(fresh_record(m), ps)),
    ensures
        play_outcome(accounts, program) == Err::<LotteryAbs, LotteryError>(
            LotteryError::CapacityExceeded,
        ),
        enter_step(run_enters(fresh_record(m), ps), accounts[0].key@) == run_enters(
            fresh_record(m),
            ps,
        ),
{
    let l = run_enters(fresh_record(m), ps);
    lemma_run_enters_props(fresh_record(m), ps);
    assert(l.cursor == 3);
    crate::state::lemma_codec_round_trip(l);
}

/// Authorization: Draw by a claimant other than the bound authority never
/// succeeds; with the slots full and the other preconditions met it fails
/// precisely with AuthorityMismatch. (With fewer than three entrants the
/// readiness check comes first and reports EntrantsIncomplete instead.)
pub proof fn lemma_draw_requires_authority(accounts: Seq<AccountRef>, program: Seq<u8>)
    requires
        accounts.len() >= 2,
        strict_decode(accounts[1].data@) is Ok,
        accounts[0].key@ != strict_decode(accounts[1].data@)->Ok_0.manager,
    ensures
        !(draw_outcome(accounts, program) is Ok),
        accounts[0].is_signer && accounts[1].owner@ == program && strict_decode(
            accounts[1].data@,
        )->Ok_0.cursor == 3 ==> draw_outcome(accounts, program) == Err::<LotteryAbs, LotteryError>(
            LotteryError::AuthorityMismatch,
        ),
{
}

/// Readiness: Draw on a record whose three slots are not all filled never
/// succeeds, regardless of the claiming identity; with the other
/// preconditions met it fails precisely with EntrantsIncomplete.
pub proof fn lemma_draw_needs_full_slots(accounts: Seq<AccountRef>, program: Seq<u8>)
    requires
        accounts.len() >= 2,
        strict_decode(accounts[1].data@) is Ok,
        strict_decode(accounts[1].data@)->Ok_0.cursor != 3,
    ensures
        !(draw_outcome(accounts, program) is Ok),
        accounts[0].is_signer && accounts[1].owner@ == program ==> draw_outcome(accounts, program)
            == Err::<LotteryAbs, LotteryError>(LotteryError::EntrantsIncomplete),
{
}

/// Idempotent failure: Initialize on a record that is already initialized
/// never succeeds; with the other preconditions met it fails precisely with
/// AccountAlreadyInitialized. A failure carries no effects, so the stored
/// authority, entrants and cursor stay as they were.
pub proof fn lemma_init_already_initialized(
    accounts: Seq<AccountRef>,
    program: Seq<u8>,
    rent_exempt: bool,
)
    requires
        accounts.len() >= 2,
        permissive_decode(accounts[1].data@) is Ok,
        permissive_decode(accounts[1].data@)->Ok_0.is_initialized,
    ensures
        !(init_outcome(accounts, program, rent_exempt) is Ok),
        accounts.len() >= 3 && accounts[0].is_signer && accounts[1].owner@ == program && rent_exempt
            ==> init_outcome(accounts, program, rent_exempt) == Err::<LotteryAbs, LotteryError>(
            LotteryError::AccountAlreadyInitialized,
        ),
{
}

pub struct Processor;

impl Processor {
    /// Single entry point: decodes the instruction tag and dispatches. An
    /// unrecognized tag aborts before any state is touched.
    pub fn process(
        program_id: &Pubkey,
        accounts: &Vec<AccountRef>,
        rent_exempt: bool,
        instruction_data: &[u8],
    ) -> (r: Result<Effects, LotteryError>)
        requires
            program_id.wf(),
            forall|i: int| 0 <= i < accounts@.len() ==> (#[trigger] accounts@[i]).wf(),
        ensures
            spec_unpack(instruction_data@) matches Err(e) ==> r == Err::<Effects, LotteryError>(e),
            spec_unpack(instruction_data@) == Ok::<LotteryInstruction, LotteryError>(
                LotteryInstruction::InitLottery,
            ) ==> init_post(r, accounts@, program_id@, rent_exempt),
            spec_unpack(instruction_data@) == Ok::<LotteryInstruction, LotteryError>(
                LotteryInstruction::Play,
            ) ==> play_post(r, accounts@, program_id@),
            spec_unpack(instruction_data@) == Ok::<LotteryInstruction, LotteryError>(
                LotteryInstruction::Draw,
            ) ==> draw_post(r, accounts@, program_id@),
    {
        match LotteryInstruction::unpack(instruction_data) {
            Err(e) => Err(e),
            Ok(LotteryInstruction::InitLottery) => Self::process_init_lottery(
                accounts,
                program_id,
                rent_exempt,
            ),
            Ok(LotteryInstruction::Play) => Self::process_play(accounts, program_id),
            Ok(LotteryInstruction::Draw) => Self::process_draw(accounts, program_id),
        }
    }

    /// Initialize: binds the record to the initializing identity. The
    /// record is constructed from scratch — manager bound, slots zeroed,
    /// cursor 0 — rather than trusting the region to be pre-zeroed.
    pub fn process_init_lottery(
        accounts: &Vec<AccountRef>,
        program_id: &Pubkey,
        rent_exempt: bool,
    ) -> (r: Result<Effects, LotteryError>)
        requires
            program_id.wf(),
            forall|i: int| 0 <= i < accounts@.len() ==> (#[trigger] accounts@[i]).wf(),
        ensures
            init_post(r, accounts@, program_id@, rent_exempt),
    {
        if accounts.len() < 1 {
            return Err(LotteryError::NotEnoughAccountKeys);
        }
        let initializer = &accounts[0];
        if !initializer.is_signer {
            return Err(LotteryError::MissingRequiredSignature);
        }
        if accounts.len() < 2 {
            return Err(LotteryError::NotEnoughAccountKeys);
        }
        let lottery_account = &accounts[1];
        if !(lottery_account.owner == *program_id) {
            return Err(LotteryError::IncorrectProgramId);
        }
        if accounts.len() < 3 {
            return Err(LotteryError::NotEnoughAccountKeys);
        }
        if !rent_exempt {
            return Err(LotteryError::NotRentExempt);
        }
        match Lottery::unpack_unchecked(lottery_account.data.as_slice()) {
            Err(e) => Err(e),
            Ok(lottery_info) => {
                if lottery_info.is_initialized() {
                    return Err(LotteryError::AccountAlreadyInitialized);
                }
                let fresh = Lottery::fresh(initializer.key.clone());
                let mut new_data: Vec<u8> = vec![0u8; RECORD_LEN];
                fresh.pack_into_slice(&mut new_data);
                Ok(Effects::Initialized { new_data })
            },
        }
    }

    /// Enter: after the signer, fee-balance and ownership checks, asks the
    /// runtime to transfer the entry fee into the region and appends the
    /// entrant. A full record rejects the append with CapacityExceeded
    /// before anything is written.
    pub fn process_play(accounts: &Vec<AccountRef>, program_id: &Pubkey) -> (r: Result<
        Effects,
        LotteryError,
    >)
        requires
            program_id.wf(),
            forall|i: int| 0 <= i < accounts@.len() ==> (#[trigger] accounts@[i]).wf(),
        ensures
            play_post(r, accounts@, program_id@),
    {
        if accounts.len() < 1 {
            return Err(LotteryError::NotEnoughAccountKeys);
        }
        let player = &accounts[0];
        if !player.is_signer {
            return Err(LotteryError::MissingRequiredSignature);
        }
        if accounts.len() < 2 {
            return Err(LotteryError::NotEnoughAccountKeys);
        }
        if player.lamports < ENTRY_FEE_LAMPORTS {
            return Err(LotteryError::InsufficientFunds);
        }
        if accounts.len() < 3 {
            return Err(LotteryError::NotEnoughAccountKeys);
        }
        let lottery_account = &accounts[2];
        if !(lottery_account.owner == *program_id) {
            return Err(LotteryError::IncorrectProgramId);
        }
        match Lottery::unpack(lottery_account.data.as_slice()) {
            Err(e) => Err(e),
            Ok(lottery_info) => {
                let mut lottery_info = lottery_info;
                match lottery_info.add(player.key.clone()) {
                    Err(e) => Err(e),
                    Ok(_) => {
                        let mut new_data: Vec<u8> = vec![0u8; RECORD_LEN];
                        lottery_info.pack_into_slice(&mut new_data);
                        Ok(
                            Effects::Entered {
                                fee: FeeTransfer {
                                    from: player.key.clone(),
                                    to: lottery_account.key.clone(),
                                    amount: ENTRY_FEE_LAMPORTS,
                                },
                                new_data,
                            },
                        )
                    },
                }
            },
        }
    }

    /// Draw: only the bound authority, and only with all three slots
    /// filled, may claim the pooled balance. The whole region balance goes
    /// to the claimant and the record is written back as the all-zero
    /// uninitialized spent record, so any later Enter or Draw is rejected.
    pub fn process_draw(accounts: &Vec<AccountRef>, program_id: &Pubkey) -> (r: Result<
        Effects,
        LotteryError,
    >)
        requires
            program_id.wf(),
            forall|i: int| 0 <= i < accounts@.len() ==> (#[trigger] accounts@[i]).wf(),
        ensures
            draw_post(r, accounts@, program_id@),
    {
        if accounts.len() < 1 {
            return Err(LotteryError::NotEnoughAccountKeys);
        }
        let claimant = &accounts[0];
        if !claimant.is_signer {
            return Err(LotteryError::MissingRequiredSignature);
        }
        if accounts.len() < 2 {
            return Err(LotteryError::NotEnoughAccountKeys);
        }
        let lottery_account = &accounts[1];
        if !(lottery_account.owner == *program_id) {
            return Err(LotteryError::IncorrectProgramId);
        }
        match Lottery::unpack(lottery_account.data.as_slice()) {
            Err(e) => Err(e),
            Ok(lottery_info) => {
                if lottery_info.p_current_idx != 3 {
                    return Err(LotteryError::EntrantsIncomplete);
                }
                if !(claimant.key == lottery_info.manager_pubkey) {
                    return Err(LotteryError::AuthorityMismatch);
                }
                let spent = Lottery::spent();
                let mut new_data: Vec<u8> = vec![0u8; RECORD_LEN];
                spent.pack_into_slice(&mut new_data);
                Ok(
                    Effects::Drawn {
                        winner: claimant.key.clone(),
                        payout: lottery_account.lamports,
                        new_data,
                    },
                )
            },
        }
    }
}

} // verus!
