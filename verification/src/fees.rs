//! What relayers claim of the fees they collected, and refunds that users
//! claim for transfers XRPL refused.
use vstd::prelude::*;
use crate::bridge::{assert_bridge_active, BridgeState};
use crate::error::{ContractError, OverflowError, OverflowOperation};

verus! {

/// An amount of a Cosmos denom.
#[derive(Debug, Clone)]
pub struct Coin {
    pub denom: String,
    pub amount: u128,
}

impl Coin {
    /// A copy of the coin.
    pub fn copy(&self) -> (res: Coin)
        ensures
            res == *self,
    {
        Coin { denom: self.denom.clone(), amount: self.amount }
    }
}

fn copy_coins(coins: &Vec<Coin>) -> (res: Vec<Coin>)
    ensures
        res@ == coins@,
{
    let mut out: Vec<Coin> = Vec::new();
    let mut i: usize = 0;
    while i < coins.len()
        invariant
            i <= coins@.len(),
            out@ == coins@.subrange(0, i as int),
        decreases coins@.len() - i,
    {
        out.push(coins[i].copy());
        i = i + 1;
    }
    assert(out@ =~= coins@);
    out
}

/// `i` is the first place of `denom` in `fees`.
pub open spec fn is_first_denom_index(fees: Seq<Coin>, denom: Seq<char>, i: int) -> bool {
    &&& 0 <= i < fees.len()
    &&& fees[i].denom@ == denom
    &&& forall|j: int| 0 <= j < i ==> (#[trigger] fees[j]).denom@ != denom
}

/// The error for a claim that the collected fees do not cover.
pub open spec fn not_enough_fees(claim: Coin) -> ContractError {
    ContractError::NotEnoughFeesToClaim { denom: claim.denom, amount: claim.amount }
}

/// Takes one claim off the collected fees: off the first coin of its denom,
/// which must hold at least the amount claimed.
pub open spec fn subtract_claim(fees: Seq<Coin>, claim: Coin) -> Result<Seq<Coin>, ContractError> {
    if exists|i: int| is_first_denom_index(fees, claim.denom@, i) {
        let i = choose|i: int| is_first_denom_index(fees, claim.denom@, i);
        if fees[i].amount >= claim.amount {
            Ok(fees.update(i, Coin { denom: fees[i].denom, amount: (fees[i].amount - claim.amount) as u128 }))
        } else {
            Err(not_enough_fees(claim))
        }
    } else {
        Err(not_enough_fees(claim))
    }
}

/// Takes the claims off the collected fees one after the other; the first
/// claim that is not covered is the error.
pub open spec fn subtract_claims(fees: Seq<Coin>, claims: Seq<Coin>) -> Result<Seq<Coin>, ContractError>
    decreases claims.len(),
{
    if claims.len() == 0 {
        Ok(fees)
    } else {
        match subtract_claim(fees, claims[0]) {
            Err(e) => Err(e),
            Ok(rest) => subtract_claims(rest, claims.drop_first()),
        }
    }
}

/// The coins of `fees` that hold something.
pub open spec fn nonzero_coins(fees: Seq<Coin>) -> Seq<Coin> {
    fees.filter(|c: Coin| c.amount > 0)
}

/// The fees a relayer holds after a claim: the claims taken off, and the
/// coins left empty dropped.
pub open spec fn claim_fees_result(fees: Seq<Coin>, claims: Seq<Coin>) -> Result<Seq<Coin>, ContractError> {
    match subtract_claims(fees, claims) {
        Err(e) => Err(e),
        Ok(rest) => Ok(nonzero_coins(rest)),
    }
}

fn first_denom_index(fees: &Vec<Coin>, denom: &String) -> (res: Option<usize>)
    ensures
        res matches Some(i) ==> is_first_denom_index(fees@, denom@, i as int),
        res is None ==> forall|j: int| 0 <= j < fees@.len() ==> (#[trigger] fees@[j]).denom@ != denom@,
{
    let mut i: usize = 0;
    while i < fees.len()
        invariant
            i <= fees@.len(),
            forall|j: int| 0 <= j < i ==> (#[trigger] fees@[j]).denom@ != denom@,
        decreases fees@.len() - i,
    {
        if fees[i].denom == *denom {
            return Some(i);
        }
        i = i + 1;
    }
    None
}

fn subtract_one(fees: &mut Vec<Coin>, claim: &Coin) -> (res: Result<(), ContractError>)
    ensures
        match subtract_claim(old(fees)@, *claim) {
            Err(e) => res == Err::<(), ContractError>(e),
            Ok(rest) => res is Ok && final(fees)@ == rest,
        },
{
    match first_denom_index(fees, &claim.denom) {
        Some(i) => {
            assert(forall|k: int|
                is_first_denom_index(fees@, claim.denom@, k) ==> k == i as int);
            if fees[i].amount >= claim.amount {
                let amount = fees[i].amount - claim.amount;
                let denom = fees[i].denom.clone();
                fees.set(i, Coin { denom, amount });
                Ok(())
            } else {
                Err(ContractError::NotEnoughFeesToClaim { denom: claim.denom.clone(), amount: claim.amount })
            }
        },
        None => {
            assert(!exists|k: int| is_first_denom_index(fees@, claim.denom@, k));
            Err(ContractError::NotEnoughFeesToClaim { denom: claim.denom.clone(), amount: claim.amount })
        },
    }
}

fn retain_nonzero(fees: &Vec<Coin>) -> (res: Vec<Coin>)
    ensures
        res@ == nonzero_coins(fees@),
{
    let mut out: Vec<Coin> = Vec::new();
    let mut i: usize = 0;
    while i < fees.len()
        invariant
            i <= fees@.len(),
            out@ == nonzero_coins(fees@.subrange(0, i as int)),
        decreases fees@.len() - i,
    {
        proof {
            fees@.subrange(0, i as int).lemma_filter_push(fees@[i as int], |c: Coin| c.amount > 0);
            assert(fees@.subrange(0, i + 1) =~= fees@.subrange(0, i as int).push(fees@[i as int]));
        }
        if fees[i].amount > 0 {
            out.push(fees[i].copy());
        }
        i = i + 1;
    }
    assert(fees@.subrange(0, i as int) =~= fees@);
    out
}

/// A relayer claims `claims` of the fees it collected, while the bridge is
/// active: only a relayer for which fees were ever collected may claim, and
/// every claim must be covered. The fees are updated only on success; what
/// is claimed is then sent to the relayer.
pub fn claim_relayer_fees(
    bridge_state: BridgeState,
    fees_collected: &mut Option<Vec<Coin>>,
    claims: &Vec<Coin>,
) -> (res: Result<(), ContractError>)
    ensures
        bridge_state != BridgeState::Active ==> res == Err::<(), ContractError>(
            ContractError::BridgeHalted {  },
        ),
        bridge_state == BridgeState::Active ==> match *old(fees_collected) {
            None => res == Err::<(), ContractError>(ContractError::UnauthorizedSender {  }),
            Some(fees) => match claim_fees_result(fees@, claims@) {
                Err(e) => res == Err::<(), ContractError>(e),
                Ok(left) => res is Ok && (*final(fees_collected) matches Some(f) && f@ == left),
            },
        },
        res is Err ==> *final(fees_collected) == *old(fees_collected),
{
    assert_bridge_active(bridge_state)?;
    let mut fees: Vec<Coin> = match fees_collected {
        Some(f) => copy_coins(f),
        None => {
            return Err(ContractError::UnauthorizedSender {  });
        },
    };
    let ghost start = fees@;
    assert(claims@.subrange(0, claims@.len() as int) =~= claims@);
    let mut i: usize = 0;
    while i < claims.len()
        invariant
            i <= claims@.len(),
            bridge_state == BridgeState::Active,
            *fees_collected == *old(fees_collected),
            *old(fees_collected) matches Some(f) && f@ == start,
            subtract_claims(start, claims@) == subtract_claims(
                fees@,
                claims@.subrange(i as int, claims@.len() as int),
            ),
        decreases claims@.len() - i,
    {
        let ghost before = fees@;
        let ghost tail = claims@.subrange(i as int, claims@.len() as int);
        assert(tail[0] == claims@[i as int]);
        assert(tail.drop_first() =~= claims@.subrange(i + 1, claims@.len() as int));
        subtract_one(&mut fees, &claims[i])?;
        i = i + 1;
    }
    let left = retain_nonzero(&fees);
    *fees_collected = Some(left);
    Ok(())
}

/// The share of each relayer when `total` is split among `relayer_count`
/// relayers, and what is left over for the next collection.
pub open spec fn fee_split(total: int, relayer_count: int) -> (int, int) {
    (total / relayer_count, total % relayer_count)
}

/// Splits a collected fee, together with what was left over from earlier
/// collections of the same denom, evenly among the relayers; what cannot be
/// split evenly is kept for the next collection.
pub fn split_collected_fee(fee_collected: u128, previous_remainder: u128, relayer_count: u128) -> (res:
    Result<(u128, u128), ContractError>)
    requires
        relayer_count > 0,
    ensures
        fee_collected + previous_remainder > u128::MAX ==> res == Err::<(u128, u128), ContractError>(
            ContractError::OverflowError(
                OverflowError {
                    operation: OverflowOperation::Add,
                    operand1: fee_collected,
                    operand2: previous_remainder,
                },
            ),
        ),
        fee_collected + previous_remainder <= u128::MAX ==> (res matches Ok((share, rest)) && (
        share as int, rest as int) == fee_split(fee_collected + previous_remainder, relayer_count as int)),
{
    let total = match fee_collected.checked_add(previous_remainder) {
        Some(t) => t,
        None => {
            return Err(
                ContractError::OverflowError(
                    OverflowError {
                        operation: OverflowOperation::Add,
                        operand1: fee_collected,
                        operand2: previous_remainder,
                    },
                ),
            );
        },
    };
    Ok((total / relayer_count, total % relayer_count))
}

/// Splitting a collected fee loses nothing: every relayer gets the same
/// share, and what is left over is less than one coin per relayer.
pub proof fn lemma_fee_split_is_exact(total: int, relayer_count: int)
    requires
        total >= 0,
        relayer_count > 0,
    ensures
        fee_split(total, relayer_count).0 * relayer_count + fee_split(total, relayer_count).1 == total,
        0 <= fee_split(total, relayer_count).1 < relayer_count,
        fee_split(total, relayer_count).0 >= 0,
{
    vstd::arithmetic::div_mod::lemma_fundamental_div_mod(total, relayer_count);
    vstd::arithmetic::div_mod::lemma_mod_bound(total, relayer_count);
    vstd::arithmetic::div_mod::lemma_div_pos_is_pos(total, relayer_count);
    vstd::arithmetic::mul::lemma_mul_is_commutative(total / relayer_count, relayer_count);
}

/// No coin of `fees` is empty.
pub open spec fn no_empty_coins(fees: Seq<Coin>) -> bool {
    forall|i: int| 0 <= i < fees.len() ==> (#[trigger] fees[i]).amount > 0
}

/// Credits `amount` of `denom` to a relayer's fees: to the first coin of the
/// denom, or as a new coin at the end; nothing is recorded for a zero amount.
pub open spec fn add_fee_result(fees: Seq<Coin>, denom: String, amount: u128) -> Result<Seq<Coin>, ContractError> {
    if amount == 0 {
        Ok(fees)
    } else if exists|i: int| is_first_denom_index(fees, denom@, i) {
        let i = choose|i: int| is_first_denom_index(fees, denom@, i);
        if fees[i].amount + amount > u128::MAX {
            Err(
                ContractError::OverflowError(
                    OverflowError { operation: OverflowOperation::Add, operand1: fees[i].amount, operand2: amount },
                ),
            )
        } else {
            Ok(fees.update(i, Coin { denom: fees[i].denom, amount: (fees[i].amount + amount) as u128 }))
        }
    } else {
        Ok(fees.push(Coin { denom, amount }))
    }
}

/// Credits a relayer's share of a collected fee; nothing changes on an error.
pub fn add_fee(fees: &mut Vec<Coin>, denom: &String, amount: u128) -> (res: Result<(), ContractError>)
    ensures
        match add_fee_result(old(fees)@, *denom, amount) {
            Err(e) => res == Err::<(), ContractError>(e) && final(fees)@ == old(fees)@,
            Ok(f) => res is Ok && final(fees)@ == f,
        },
{
    if amount == 0 {
        return Ok(());
    }
    match first_denom_index(fees, denom) {
        Some(i) => {
            assert(forall|k: int| is_first_denom_index(fees@, denom@, k) ==> k == i as int);
            let held = fees[i].amount;
            match held.checked_add(amount) {
                Some(sum) => {
                    let d = fees[i].denom.clone();
                    fees.set(i, Coin { denom: d, amount: sum });
                    Ok(())
                },
                None => Err(
                    ContractError::OverflowError(
                        OverflowError { operation: OverflowOperation::Add, operand1: held, operand2: amount },
                    ),
                ),
            }
        },
        None => {
            assert(!exists|k: int| is_first_denom_index(fees@, denom@, k));
            fees.push(Coin { denom: denom.clone(), amount });
            Ok(())
        },
    }
}

/// A relayer's fees never hold an empty coin: crediting a share keeps it so,
/// and a claim drops the coins it empties.
pub proof fn lemma_fees_hold_no_empty_coins(fees: Seq<Coin>, denom: String, amount: u128, claims: Seq<Coin>)
    requires
        no_empty_coins(fees),
    ensures
        add_fee_result(fees, denom, amount) matches Ok(f) ==> no_empty_coins(f),
        claim_fees_result(fees, claims) matches Ok(f) ==> no_empty_coins(f),
{
    broadcast use vstd::seq_lib::group_filter_ensures;
    if let Ok(rest) = subtract_claims(fees, claims) {
        let p = |c: Coin| c.amount > 0;
        assert(forall|i: int| 0 <= i < rest.filter(p).len() ==> p(#[trigger] rest.filter(p)[i]));
    }
}

/// How much of `denom` the coins hold in all.
pub open spec fn denom_total(coins: Seq<Coin>, denom: Seq<char>) -> int
    decreases coins.len(),
{
    if coins.len() == 0 {
        0
    } else {
        (if coins[0].denom@ == denom {
            coins[0].amount as int
        } else {
            0
        }) + denom_total(coins.drop_first(), denom)
    }
}

proof fn lemma_denom_total_push(coins: Seq<Coin>, c: Coin, denom: Seq<char>)
    ensures
        denom_total(coins.push(c), denom) == denom_total(coins, denom) + (if c.denom@ == denom {
            c.amount as int
        } else {
            0
        }),
    decreases coins.len(),
{
    if coins.len() > 0 {
        assert(coins.push(c).drop_first() =~= coins.drop_first().push(c));
        lemma_denom_total_push(coins.drop_first(), c, denom);
    } else {
        assert(coins.push(c).drop_first() =~= coins);
    }
}

proof fn lemma_denom_total_update(coins: Seq<Coin>, i: int, c: Coin, denom: Seq<char>)
    requires
        0 <= i < coins.len(),
    ensures
        denom_total(coins.update(i, c), denom) == denom_total(coins, denom) - (if coins[i].denom@
            == denom {
            coins[i].amount as int
        } else {
            0
        }) + (if c.denom@ == denom {
            c.amount as int
        } else {
            0
        }),
    decreases coins.len(),
{
    if i > 0 {
        assert(coins.update(i, c).drop_first() =~= coins.drop_first().update(i - 1, c));
        lemma_denom_total_update(coins.drop_first(), i - 1, c, denom);
    } else {
        assert(coins.update(i, c).drop_first() =~= coins.drop_first());
    }
}

proof fn lemma_denom_total_nonzero(coins: Seq<Coin>, denom: Seq<char>)
    ensures
        denom_total(nonzero_coins(coins), denom) == denom_total(coins, denom),
    decreases coins.len(),
{
    let p = |c: Coin| c.amount > 0;
    if coins.len() == 0 {
        reveal(Seq::filter);
    } else {
        let init = coins.drop_last();
        let x = coins.last();
        assert(coins =~= init.push(x));
        init.lemma_filter_push(x, p);
        lemma_denom_total_nonzero(init, denom);
        lemma_denom_total_push(init, x, denom);
        if p(x) {
            lemma_denom_total_push(init.filter(p), x, denom);
        }
    }
}

proof fn lemma_subtract_claims_total(fees: Seq<Coin>, claims: Seq<Coin>, denom: Seq<char>)
    requires
        subtract_claims(fees, claims) is Ok,
    ensures
        denom_total(subtract_claims(fees, claims)->Ok_0, denom) == denom_total(fees, denom)
            - denom_total(claims, denom),
    decreases claims.len(),
{
    if claims.len() > 0 {
        let claim = claims[0];
        let i = choose|i: int| is_first_denom_index(fees, claim.denom@, i);
        let rest = subtract_claim(fees, claim)->Ok_0;
        let c = Coin { denom: fees[i].denom, amount: (fees[i].amount - claim.amount) as u128 };
        lemma_denom_total_update(fees, i, c, denom);
        lemma_subtract_claims_total(rest, claims.drop_first(), denom);
    }
}

/// A claim takes off a relayer's fees exactly what it claims: for every
/// denom, the relayer holds afterwards what it held less the sum of the
/// claims of that denom.
pub proof fn lemma_claim_takes_exactly_the_claims(fees: Seq<Coin>, claims: Seq<Coin>, denom: Seq<char>)
    requires
        claim_fees_result(fees, claims) is Ok,
    ensures
        denom_total(claim_fees_result(fees, claims)->Ok_0, denom) == denom_total(fees, denom)
            - denom_total(claims, denom),
{
    lemma_subtract_claims_total(fees, claims, denom);
    lemma_denom_total_nonzero(subtract_claims(fees, claims)->Ok_0, denom);
}

/// Crediting a relayer adds exactly the amount credited to what it holds of
/// that denom, and nothing to any other denom.
pub proof fn lemma_add_fee_credits_exactly(fees: Seq<Coin>, denom: String, amount: u128, other: Seq<char>)
    requires
        add_fee_result(fees, denom, amount) is Ok,
    ensures
        denom_total(add_fee_result(fees, denom, amount)->Ok_0, other) == denom_total(fees, other) + (
        if other == denom@ {
            amount as int
        } else {
            0
        }),
{
    if amount != 0 {
        if exists|i: int| is_first_denom_index(fees, denom@, i) {
            let i = choose|i: int| is_first_denom_index(fees, denom@, i);
            let c = Coin { denom: fees[i].denom, amount: (fees[i].amount + amount) as u128 };
            lemma_denom_total_update(fees, i, c, other);
        } else {
            lemma_denom_total_push(fees, Coin { denom, amount }, other);
        }
    }
}

/// A user claims a refund while the bridge is active: the refund recorded
/// for the user under the given id, if there is one, is sent back.
pub fn claim_pending_refund(bridge_state: BridgeState, pending_refund: Option<Coin>) -> (res: Result<
    Coin,
    ContractError,
>)
    ensures
        bridge_state != BridgeState::Active ==> res == Err::<Coin, ContractError>(
            ContractError::BridgeHalted {  },
        ),
        bridge_state == BridgeState::Active ==> match pending_refund {
            None => res == Err::<Coin, ContractError>(ContractError::PendingRefundNotFound {  }),
            Some(c) => res == Ok::<Coin, ContractError>(c),
        },
{
    assert_bridge_active(bridge_state)?;
    match pending_refund {
        Some(c) => Ok(c),
        None => Err(ContractError::PendingRefundNotFound {  }),
    }
}

} // verus!
