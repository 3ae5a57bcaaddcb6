use crate::fixed_point::{
    WrappedI80F48, fixed_from_u64, fixed_int, fixed_min, fixed_one, fixed_sub, fixed_to_u64,
    whole_part,
};
use vstd::prelude::*;

verus! {

/// The fee balances of a bank that fee collection reads and settles.
#[derive(Clone, Copy, Debug)]
pub struct BankFees {
    /// Insurance fees accrued by the bank and not yet moved to its insurance vault.
    pub collected_insurance_fees_outstanding: WrappedI80F48,
    /// Group fees accrued by the bank and not yet moved to its fee vault.
    pub collected_group_fees_outstanding: WrappedI80F48,
}

/// The two token transfers out of the bank's liquidity vault that a fee
/// collection makes, in the order in which they are made.
#[derive(Clone, Copy, Debug, PartialEq, Eq, Structural)]
pub struct FeeTransfers {
    /// Whole tokens moved from the liquidity vault to the fee vault.
    pub group_fee_transfer_amount: u64,
    /// Whole tokens moved from the liquidity vault to the insurance vault.
    pub insurance_fee_transfer_amount: u64,
}

/// Whole tokens collected for fees of `outstanding` bits when `available`
/// tokens are at hand: every whole token owed, as far as the tokens reach.
pub open spec fn tokens_collected(outstanding: int, available: int) -> int {
    if whole_part(outstanding) <= available {
        whole_part(outstanding)
    } else {
        available
    }
}

/// Tokens collected for insurance fees: they are served first.
pub open spec fn insurance_fees_collected(insurance: int, liquidity: int) -> int {
    tokens_collected(insurance, liquidity)
}

/// Tokens collected for group fees: they get what the insurance fees left.
pub open spec fn group_fees_collected(insurance: int, group: int, liquidity: int) -> int {
    tokens_collected(group, liquidity - insurance_fees_collected(insurance, liquidity))
}

/// Fee balances a bank may hold for a collection to go through.
pub open spec fn fees_collectable(fees: BankFees) -> bool {
    &&& fees.collected_insurance_fees_outstanding.value >= 0
    &&& fees.collected_group_fees_outstanding.value >= 0
}

/// Taking whole tokens off a non-negative amount, as far as `available`
/// reaches, in the fixed-point bits.
proof fn lemma_whole_min(outstanding: int, available: int)
    requires
        outstanding >= 0,
        available >= 0,
    ensures
        whole_part(
            if outstanding <= available * fixed_one() {
                outstanding
            } else {
                available * fixed_one()
            },
        ) == tokens_collected(outstanding, available),
        0 <= tokens_collected(outstanding, available) <= available,
        tokens_collected(outstanding, available) * fixed_one() <= outstanding,
        whole_part(tokens_collected(outstanding, available) * fixed_one())
            == tokens_collected(outstanding, available),
{
    let one = fixed_one();
    let w = whole_part(outstanding);
    vstd::arithmetic::div_mod::lemma_fundamental_div_mod(outstanding, one);
    vstd::arithmetic::div_mod::lemma_div_by_multiple(available, one);
    vstd::arithmetic::div_mod::lemma_div_by_multiple(w, one);
    vstd::arithmetic::div_mod::lemma_div_by_multiple(tokens_collected(outstanding, available), one);
    if outstanding <= available * one {
        vstd::arithmetic::div_mod::lemma_div_is_ordered(outstanding, available * one, one);
    } else {
        vstd::arithmetic::div_mod::lemma_div_is_ordered(available * one, outstanding, one);
    }
    vstd::arithmetic::div_mod::lemma_div_pos_is_pos(outstanding, one);
}

/// Moves the bank's outstanding fees out of its liquidity vault, which holds
/// `liquidity_vault_amount` tokens: first the insurance fees, then the group
/// fees out of what is left, each in whole tokens and as far as the vault
/// reaches. The bank keeps owing what was not moved, fractions of a token
/// included.
pub fn lending_pool_collect_fees(bank: &mut BankFees, liquidity_vault_amount: u64) -> (r:
    FeeTransfers)
    requires
        fees_collectable(*old(bank)),
    ensures
        r.insurance_fee_transfer_amount == insurance_fees_collected(
            old(bank).collected_insurance_fees_outstanding.value as int,
            liquidity_vault_amount as int,
        ),
        r.group_fee_transfer_amount == group_fees_collected(
            old(bank).collected_insurance_fees_outstanding.value as int,
            old(bank).collected_group_fees_outstanding.value as int,
            liquidity_vault_amount as int,
        ),
        final(bank).collected_insurance_fees_outstanding.value
            == old(bank).collected_insurance_fees_outstanding.value
            - r.insurance_fee_transfer_amount * fixed_one(),
        final(bank).collected_group_fees_outstanding.value
            == old(bank).collected_group_fees_outstanding.value
            - r.group_fee_transfer_amount * fixed_one(),
        // insurance fees take every whole token owed, as far as the vault reaches
        r.insurance_fee_transfer_amount == (if old(
            bank,
        ).collected_insurance_fees_outstanding.value / 0x1_0000_0000_0000
            <= liquidity_vault_amount {
            old(bank).collected_insurance_fees_outstanding.value / 0x1_0000_0000_0000
        } else {
            liquidity_vault_amount as int
        }),
        // group fees take every whole token owed, as far as what is left reaches
        r.group_fee_transfer_amount == (if old(
            bank,
        ).collected_group_fees_outstanding.value / 0x1_0000_0000_0000 <= liquidity_vault_amount
            - r.insurance_fee_transfer_amount {
            old(bank).collected_group_fees_outstanding.value / 0x1_0000_0000_0000
        } else {
            liquidity_vault_amount - r.insurance_fee_transfer_amount
        }),
        // no more is taken than is owed
        r.insurance_fee_transfer_amount * 0x1_0000_0000_0000
            <= old(bank).collected_insurance_fees_outstanding.value,
        r.group_fee_transfer_amount * 0x1_0000_0000_0000
            <= old(bank).collected_group_fees_outstanding.value,
        // a whole token is left owed only when the vault ran short
        r.insurance_fee_transfer_amount < liquidity_vault_amount
            ==> final(bank).collected_insurance_fees_outstanding.value < 0x1_0000_0000_0000,
        r.insurance_fee_transfer_amount + r.group_fee_transfer_amount < liquidity_vault_amount
            ==> final(bank).collected_group_fees_outstanding.value < 0x1_0000_0000_0000,
        // the vault never pays out more than it holds
        r.insurance_fee_transfer_amount + r.group_fee_transfer_amount <= liquidity_vault_amount,
        // no fee balance turns negative, so a later collection can go through
        fees_collectable(*final(bank)),
        // group fees are paid only once the insurance fees are settled
        r.group_fee_transfer_amount > 0
            ==> final(bank).collected_insurance_fees_outstanding.value < fixed_one(),
        // a whole token of fees stays owed only when the vault was emptied
        (final(bank).collected_insurance_fees_outstanding.value >= fixed_one()
            || final(bank).collected_group_fees_outstanding.value >= fixed_one())
            ==> r.insurance_fee_transfer_amount + r.group_fee_transfer_amount
            == liquidity_vault_amount,
{
    let ghost insurance = bank.collected_insurance_fees_outstanding.value as int;
    let ghost group = bank.collected_group_fees_outstanding.value as int;
    let ghost liquidity = liquidity_vault_amount as int;

    let mut available_liquidity = fixed_from_u64(liquidity_vault_amount);

    let (insurance_fee_transfer_amount, new_outstanding_insurance_fees) = {
        let outstanding_fees = bank.collected_insurance_fees_outstanding;
        proof {
            lemma_whole_min(insurance, liquidity);
        }
        let transfer_amount = fixed_int(fixed_min(outstanding_fees, available_liquidity));

        (fixed_int(transfer_amount), fixed_sub(outstanding_fees, transfer_amount))
    };
    let ghost t_insurance = insurance_fees_collected(insurance, liquidity);
    assert(insurance_fee_transfer_amount.value == t_insurance * fixed_one());

    bank.collected_insurance_fees_outstanding = new_outstanding_insurance_fees;

    available_liquidity = fixed_sub(available_liquidity, insurance_fee_transfer_amount);
    assert(available_liquidity.value == (liquidity - t_insurance) * fixed_one());

    let (group_fee_transfer_amount, new_outstanding_group_fees) = {
        let outstanding_fees = bank.collected_group_fees_outstanding;
        proof {
            lemma_whole_min(group, liquidity - t_insurance);
        }
        let transfer_amount = fixed_int(fixed_min(outstanding_fees, available_liquidity));

        (fixed_int(transfer_amount), fixed_sub(outstanding_fees, transfer_amount))
    };
    let ghost t_group = group_fees_collected(insurance, group, liquidity);
    assert(group_fee_transfer_amount.value == t_group * fixed_one());

    bank.collected_group_fees_outstanding = new_outstanding_group_fees;

    let group_fee_transfer_amount = fixed_to_u64(group_fee_transfer_amount);
    let insurance_fee_transfer_amount = fixed_to_u64(insurance_fee_transfer_amount);

    proof {
        vstd::arithmetic::div_mod::lemma_fundamental_div_mod(insurance, fixed_one());
        vstd::arithmetic::div_mod::lemma_fundamental_div_mod(group, fixed_one());
    }

    FeeTransfers { group_fee_transfer_amount, insurance_fee_transfer_amount }
}

/// Taking `t` whole tokens off an amount takes `t` off its whole part.
proof fn lemma_whole_part_sub_tokens(x: int, t: int)
    ensures
        whole_part(x - t * fixed_one()) == whole_part(x) - t,
{
    let one = fixed_one();
    vstd::arithmetic::div_mod::lemma_fundamental_div_mod(x, one);
    vstd::arithmetic::div_mod::lemma_fundamental_div_mod_converse(
        x - t * one,
        one,
        x / one - t,
        x % one,
    );
}

/// Collecting fees again right after a collection, with the vault holding
/// what the first collection left in it, moves no tokens at all.
pub proof fn lemma_second_collection_moves_nothing(fees: BankFees, liquidity_vault_amount: u64)
    requires
        fees_collectable(fees),
    ensures
        ({
            let insurance = fees.collected_insurance_fees_outstanding.value as int;
            let group = fees.collected_group_fees_outstanding.value as int;
            let liquidity = liquidity_vault_amount as int;
            let t_insurance = insurance_fees_collected(insurance, liquidity);
            let t_group = group_fees_collected(insurance, group, liquidity);
            let insurance_left = insurance - t_insurance * fixed_one();
            let group_left = group - t_group * fixed_one();
            let liquidity_left = liquidity - t_insurance - t_group;
            &&& insurance_fees_collected(insurance_left, liquidity_left) == 0
            &&& group_fees_collected(insurance_left, group_left, liquidity_left) == 0
        }),
{
    let insurance = fees.collected_insurance_fees_outstanding.value as int;
    let group = fees.collected_group_fees_outstanding.value as int;
    let liquidity = liquidity_vault_amount as int;
    let t_insurance = insurance_fees_collected(insurance, liquidity);
    let t_group = group_fees_collected(insurance, group, liquidity);
    lemma_whole_part_sub_tokens(insurance, t_insurance);
    lemma_whole_part_sub_tokens(group, t_group);
    vstd::arithmetic::div_mod::lemma_div_pos_is_pos(insurance, fixed_one());
    vstd::arithmetic::div_mod::lemma_div_pos_is_pos(group, fixed_one());
}

/// A fee collection takes, for each fee, every whole token owed as far as
/// the tokens at hand reach, and never more than is owed: insurance fees out
/// of the whole vault, group fees out of what the insurance fees left.
pub proof fn lemma_collection_takes_whole_tokens_owed(fees: BankFees, liquidity_vault_amount: u64)
    requires
        fees_collectable(fees),
    ensures
        ({
            let insurance = fees.collected_insurance_fees_outstanding.value as int;
            let group = fees.collected_group_fees_outstanding.value as int;
            let liquidity = liquidity_vault_amount as int;
            let t_insurance = insurance_fees_collected(insurance, liquidity);
            let t_group = group_fees_collected(insurance, group, liquidity);
            &&& 0 <= t_insurance <= liquidity
            &&& t_insurance * 0x1_0000_0000_0000 <= insurance
            &&& (t_insurance == liquidity || insurance - t_insurance * 0x1_0000_0000_0000
                < 0x1_0000_0000_0000)
            &&& 0 <= t_group <= liquidity - t_insurance
            &&& t_group * 0x1_0000_0000_0000 <= group
            &&& (t_group == liquidity - t_insurance || group - t_group * 0x1_0000_0000_0000
                < 0x1_0000_0000_0000)
        }),
{
    let insurance = fees.collected_insurance_fees_outstanding.value as int;
    let group = fees.collected_group_fees_outstanding.value as int;
    let liquidity = liquidity_vault_amount as int;
    lemma_whole_min(insurance, liquidity);
    lemma_whole_min(group, liquidity - insurance_fees_collected(insurance, liquidity));
    vstd::arithmetic::div_mod::lemma_fundamental_div_mod(insurance, fixed_one());
    vstd::arithmetic::div_mod::lemma_fundamental_div_mod(group, fixed_one());
}

} // verus!
