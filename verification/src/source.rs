use vstd::prelude::*;

use crate::errors::ErrorCode;

verus! {

/// The longest energy-type label a source may carry, in characters.
pub const MAX_ENERGY_TYPE_LEN: usize = 32;

/// A registered energy-producing asset.
///
/// One source exists per owner in this design; the storage layer that keys
/// records by owner is external. `capacity` is informational only and is
/// never enforced against readings. `verified` moves from `false` to `true`
/// at most once and never reverts; `total_energy_produced` never decreases.
#[derive(Clone, Debug)]
pub struct EnergySource {
    pub owner: u64,
    pub energy_type: String,
    pub capacity: u64,
    pub verified: bool,
    pub total_energy_produced: u64,
}

/// An instruction to the external credit service: mint `amount` fresh
/// credit to the balance of `to`. The ledger decides when minting is due;
/// the service itself, and its accounting, are outside this crate.
#[derive(Clone, Copy, Debug, PartialEq, Eq, Structural)]
pub struct MintCredit {
    pub to: u64,
    pub amount: u64,
}

/// A source is well formed when its free-text label is within bounds.
pub open spec fn source_wf(s: EnergySource) -> bool {
    s.energy_type@.len() <= MAX_ENERGY_TYPE_LEN
}

/// When a reading of `energy_amount` submitted by `caller` is accepted
/// against source state `s`: the caller owns the source, the source is
/// verified, the amount is positive, and the running total does not
/// overflow.
pub open spec fn reading_accepted(s: EnergySource, caller: u64, energy_amount: u64) -> bool {
    &&& caller == s.owner
    &&& s.verified
    &&& energy_amount > 0
    &&& s.total_energy_produced + energy_amount <= u64::MAX
}

/// The source state after an accepted reading of `energy_amount`: only the
/// running total moves, by exactly the reading.
pub open spec fn apply_reading(s: EnergySource, energy_amount: u64) -> EnergySource
    recommends
        s.total_energy_produced + energy_amount <= u64::MAX,
{
    EnergySource {
        total_energy_produced: (s.total_energy_produced + energy_amount) as u64,
        ..s
    }
}

/// The sum of a batch of readings.
pub open spec fn sum_of(amounts: Seq<u64>) -> int
    decreases amounts.len(),
{
    if amounts.len() == 0 {
        0
    } else {
        amounts[0] + sum_of(amounts.drop_first())
    }
}

/// The source state after a batch of readings applied in order.
pub open spec fn apply_readings(s: EnergySource, amounts: Seq<u64>) -> EnergySource
    decreases amounts.len(),
{
    if amounts.len() == 0 {
        s
    } else {
        apply_readings(apply_reading(s, amounts[0]), amounts.drop_first())
    }
}

pub proof fn lemma_sum_of_nonneg(amounts: Seq<u64>)
    ensures
        sum_of(amounts) >= 0,
    decreases amounts.len(),
{
    if amounts.len() > 0 {
        lemma_sum_of_nonneg(amounts.drop_first());
    }
}

/// Law of one-to-one issuance over a whole session: on a verified source,
/// any batch of positive readings whose sum keeps the running total in
/// range is accepted call by call, raises `total_energy_produced` by
/// exactly the sum of the batch — and so by exactly the credit minted,
/// one reading at a time — and touches no other field.
pub proof fn lemma_readings_sum(s: EnergySource, caller: u64, amounts: Seq<u64>)
    requires
        caller == s.owner,
        s.verified,
        forall|i: int| 0 <= i < amounts.len() ==> amounts[i] > 0,
        s.total_energy_produced + sum_of(amounts) <= u64::MAX,
    ensures
        apply_readings(s, amounts).total_energy_produced == s.total_energy_produced + sum_of(
            amounts,
        ),
        apply_readings(s, amounts).owner == s.owner,
        apply_readings(s, amounts).verified,
        apply_readings(s, amounts).capacity == s.capacity,
        apply_readings(s, amounts).energy_type == s.energy_type,
        forall|i: int|
            0 <= i < amounts.len() ==> reading_accepted(
                apply_readings(s, amounts.take(i)),
                caller,
                amounts[i],
            ),
    decreases amounts.len(),
{
    if amounts.len() > 0 {
        let rest = amounts.drop_first();
        lemma_sum_of_nonneg(rest);
        let s1 = apply_reading(s, amounts[0]);
        lemma_readings_sum(s1, caller, rest);
        assert forall|i: int|
            0 <= i < amounts.len() implies reading_accepted(
            apply_readings(s, amounts.take(i)),
            caller,
            amounts[i],
        ) by {
            if i == 0 {
                assert(amounts.take(0) =~= Seq::<u64>::empty());
            } else {
                assert(amounts.take(i).drop_first() =~= rest.take(i - 1));
                assert(apply_readings(s, amounts.take(i)) == apply_readings(
                    s1,
                    rest.take(i - 1),
                ));
                assert(rest[i - 1] == amounts[i]);
            }
        }
    }
}

/// Registers a new energy source for `owner`.
///
/// The record starts unverified with a zero production total; it becomes
/// useful for credit issuance only once a verifier marks it verified.
/// Keying the record by `owner` and rejecting a duplicate registration is
/// the storage layer's duty, outside this crate.
pub fn initialize_energy_source(owner: u64, energy_type: String, capacity: u64) -> (s:
    EnergySource)
    requires
        energy_type@.len() <= MAX_ENERGY_TYPE_LEN,
    ensures
        s.owner == owner,
        s.energy_type@ == energy_type@,
        s.capacity == capacity,
        !s.verified,
        s.total_energy_produced == 0,
        source_wf(s),
{
    EnergySource { owner, energy_type, capacity, verified: false, total_energy_produced: 0 }
}

/// Marks a source verified, on behalf of a caller holding the verifier
/// capability.
///
/// How that capability is represented — a designated oracle, an allowlist,
/// a multisig — is the caller's concern; the ledger consumes only the
/// judgement `caller_is_verifier`. Verifying an already-verified source is
/// a no-op, not an error, and nothing ever clears the flag.
pub fn verify_energy_source(source: &mut EnergySource, caller_is_verifier: bool) -> (r: Result<
    (),
    ErrorCode,
>)
    ensures
        caller_is_verifier ==> r is Ok && *final(source) == (EnergySource {
            verified: true,
            ..*old(source)
        }),
        !caller_is_verifier ==> r == Err::<(), ErrorCode>(ErrorCode::Unauthorized)
            && *final(source) == *old(source),
        old(source).verified ==> final(source).verified,
        final(source).total_energy_produced == old(source).total_energy_produced,
{
    if !caller_is_verifier {
        return Err(ErrorCode::Unauthorized);
    }
    source.verified = true;
    Ok(())
}

/// Accepts an energy reading from the source's owner and directs the
/// external service to mint the same quantity of credit to the owner — the
/// fixed one-to-one issuance policy.
///
/// The new running total and the mint instruction must commit together or
/// not at all: the outer shell discards the updated source if the mint
/// fails. On any rejection the source is unchanged and the code says which
/// check failed; the checks run in the order listed in the contract.
pub fn submit_energy_reading(source: &mut EnergySource, caller: u64, energy_amount: u64) -> (r:
    Result<MintCredit, ErrorCode>)
    ensures
        r is Ok <==> reading_accepted(*old(source), caller, energy_amount),
        r is Ok ==> *final(source) == apply_reading(*old(source), energy_amount) && r->Ok_0 == (
        MintCredit { to: old(source).owner, amount: energy_amount }),
        r is Err ==> *final(source) == *old(source),
        caller != old(source).owner ==> r == Err::<MintCredit, ErrorCode>(ErrorCode::Unauthorized),
        caller == old(source).owner && !old(source).verified ==> r == Err::<MintCredit, ErrorCode>(
            ErrorCode::EnergySourceNotVerified,
        ),
        caller == old(source).owner && old(source).verified && energy_amount == 0 ==> r == Err::<
            MintCredit,
            ErrorCode,
        >(ErrorCode::InvalidAmount),
        caller == old(source).owner && old(source).verified && energy_amount > 0
            && old(source).total_energy_produced + energy_amount > u64::MAX
            ==> r == Err::<MintCredit, ErrorCode>(ErrorCode::ArithmeticOverflow),
        final(source).total_energy_produced >= old(source).total_energy_produced,
        final(source).verified == old(source).verified,
        final(source).owner == old(source).owner,
        source_wf(*old(source)) ==> source_wf(*final(source)),
{
    if caller != source.owner {
        return Err(ErrorCode::Unauthorized);
    }
    if !source.verified {
        return Err(ErrorCode::EnergySourceNotVerified);
    }
    if energy_amount == 0 {
        return Err(ErrorCode::InvalidAmount);
    }
    match source.total_energy_produced.checked_add(energy_amount) {
        Some(new_total) => {
            source.total_energy_produced = new_total;
            Ok(MintCredit { to: source.owner, amount: energy_amount })
        },
        None => Err(ErrorCode::ArithmeticOverflow),
    }
}

} // verus!
