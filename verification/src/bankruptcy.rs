use crate::error::MarginfiError;
use crate::fixed_point::{
    WrappedI80F48, fixed_from_u64, fixed_gt, fixed_max, fixed_min, fixed_one, fixed_sub,
    fixed_to_u64, whole_part,
};
use crate::pubkey::Pubkey;
use vstd::prelude::*;

verus! {

/// A balance of a marginfi lending account, as far as bankruptcy handling
/// reads it.
#[derive(Clone, Copy, Debug)]
pub struct Balance {
    /// Whether the slot holds a live position.
    pub active: bool,
    /// The bank the position is held in.
    pub bank_pk: Pubkey,
    /// The account's liability shares in that bank.
    pub liability_shares: WrappedI80F48,
}

/// The balance is a live position in the bank `bank_pk`.
pub open spec fn is_balance_of_bank(balance: Balance, bank_pk: Pubkey) -> bool {
    balance.active && balance.bank_pk@ == bank_pk@
}

/// `i` is the position of the first live balance in the bank `bank_pk`.
pub open spec fn is_first_balance_of_bank(balances: Seq<Balance>, bank_pk: Pubkey, i: int) -> bool {
    &&& 0 <= i < balances.len()
    &&& is_balance_of_bank(balances[i], bank_pk)
    &&& forall|j: int| 0 <= j < i ==> !is_balance_of_bank(balances[j], bank_pk)
}

/// The account holds a live balance in the bank `bank_pk`.
pub open spec fn has_balance_of_bank(balances: Seq<Balance>, bank_pk: Pubkey) -> bool {
    exists|i: int| 0 <= i < balances.len() && is_balance_of_bank(balances[i], bank_pk)
}

/// The position of the first live balance in the bank `bank_pk`, where
/// there is one.
pub open spec fn first_balance_of_bank(balances: Seq<Balance>, bank_pk: Pubkey) -> int {
    choose|i: int| is_first_balance_of_bank(balances, bank_pk, i)
}

/// There is one first live balance in a bank, and `first_balance_of_bank`
/// names it.
pub proof fn lemma_first_balance_unique(balances: Seq<Balance>, bank_pk: Pubkey, i: int)
    requires
        is_first_balance_of_bank(balances, bank_pk, i),
    ensures
        first_balance_of_bank(balances, bank_pk) == i,
{
    let k = first_balance_of_bank(balances, bank_pk);
    assert(is_first_balance_of_bank(balances, bank_pk, k));
    if k < i {
        assert(!is_balance_of_bank(balances[k], bank_pk));
    } else if i < k {
        assert(!is_balance_of_bank(balances[i], bank_pk));
    }
}

/// Finds the account's live balance in the bank `bank_pk`: the first one in
/// the list, or `LendingAccountBalanceNotFound` when there is none.
pub fn find_lending_account_balance(balances: &[Balance], bank_pk: &Pubkey) -> (r: Result<
    usize,
    MarginfiError,
>)
    ensures
        match r {
            Ok(i) => {
                &&& i < balances@.len()
                &&& is_balance_of_bank(balances@[i as int], *bank_pk)
                &&& forall|j: int| 0 <= j < i ==> !is_balance_of_bank(balances@[j], *bank_pk)
            },
            Err(e) => {
                &&& e == MarginfiError::LendingAccountBalanceNotFound
                &&& forall|j: int|
                    0 <= j < balances@.len() ==> !is_balance_of_bank(balances@[j], *bank_pk)
            },
        },
{
    let mut i: usize = 0;
    while i < balances.len()
        invariant
            0 <= i <= balances@.len(),
            forall|j: int| 0 <= j < i ==> !is_balance_of_bank(balances@[j], *bank_pk),
        decreases balances@.len() - i,
    {
        if balances[i].active && balances[i].bank_pk == *bank_pk {
            return Ok(i);
        }
        i = i + 1;
    }
    Err(MarginfiError::LendingAccountBalanceNotFound)
}

/// How a bankrupt account's bad debt in a bank is settled.
#[derive(Clone, Copy, Debug, PartialEq, Eq, Structural)]
pub struct BankruptcySettlement {
    /// The debt repaid on the account, which also leaves the bank's liabilities.
    pub bad_debt: WrappedI80F48,
    /// The part of the debt the insurance fund covers.
    pub covered_by_insurance: WrappedI80F48,
    /// Whole tokens moved from the insurance vault to the liquidity vault.
    pub insurance_transfer_amount: u64,
    /// The part of the debt spread over the bank's depositors.
    pub socialized_loss: WrappedI80F48,
}

/// The part of a bad debt of `bad_debt` bits that an insurance fund holding
/// `insurance_tokens` tokens covers: all of it, as far as the fund reaches.
pub open spec fn insurance_coverage(bad_debt: int, insurance_tokens: int) -> int {
    if bad_debt <= insurance_tokens * fixed_one() {
        bad_debt
    } else {
        insurance_tokens * fixed_one()
    }
}

/// The part of the bad debt that the insurance fund leaves to the depositors.
pub open spec fn socialized_loss(bad_debt: int, insurance_tokens: int) -> int {
    bad_debt - insurance_coverage(bad_debt, insurance_tokens)
}

/// `s` is the settlement of a bad debt of `bad_debt` against an insurance
/// vault holding `insurance_vault_amount` tokens.
pub open spec fn settles(
    s: BankruptcySettlement,
    bad_debt: WrappedI80F48,
    insurance_vault_amount: u64,
) -> bool {
    &&& s.bad_debt == bad_debt
    &&& s.covered_by_insurance.value == insurance_coverage(
        bad_debt.value as int,
        insurance_vault_amount as int,
    )
    &&& s.socialized_loss.value == socialized_loss(
        bad_debt.value as int,
        insurance_vault_amount as int,
    )
    &&& s.insurance_transfer_amount == whole_part(s.covered_by_insurance.value as int)
}

/// Settles the bad debt `bad_debt` of a bankrupt account, with
/// `insurance_vault_amount` tokens in the bank's insurance vault: the
/// insurance fund covers as much of it as it holds, the depositors bear the
/// rest, and the whole debt is repaid on the account. A balance that carries
/// no debt is refused with `BalanceNotBadDebt`.
pub fn settle_bad_debt(bad_debt: WrappedI80F48, insurance_vault_amount: u64) -> (r: Result<
    BankruptcySettlement,
    MarginfiError,
>)
    ensures
        r is Err <==> bad_debt.value <= 0,
        r is Err ==> r == Err::<BankruptcySettlement, MarginfiError>(
            MarginfiError::BalanceNotBadDebt,
        ),
        match r {
            Ok(s) => {
                &&& settles(s, bad_debt, insurance_vault_amount)
                // the insurance fund covers the debt as far as the tokens it holds reach
                &&& s.covered_by_insurance.value == (if bad_debt.value <= insurance_vault_amount
                    * 0x1_0000_0000_0000 {
                    bad_debt.value as int
                } else {
                    insurance_vault_amount * 0x1_0000_0000_0000
                })
                &&& bad_debt.value > insurance_vault_amount * 0x1_0000_0000_0000 ==> {
                    &&& s.covered_by_insurance.value == insurance_vault_amount * 0x1_0000_0000_0000
                    &&& s.insurance_transfer_amount == insurance_vault_amount
                    &&& s.socialized_loss.value == bad_debt.value - insurance_vault_amount
                        * 0x1_0000_0000_0000
                }
                &&& bad_debt.value <= insurance_vault_amount * 0x1_0000_0000_0000 ==> {
                    &&& s.covered_by_insurance.value == bad_debt.value
                    &&& s.socialized_loss.value == 0
                }
                // the transfer is the covered amount in whole tokens
                &&& s.insurance_transfer_amount * 0x1_0000_0000_0000 <= s.covered_by_insurance.value
                    < (s.insurance_transfer_amount + 1) * 0x1_0000_0000_0000
                // the debt is split, nothing lost and nothing made up
                &&& s.covered_by_insurance.value + s.socialized_loss.value == bad_debt.value
                // the insurance fund pays no more than it holds
                &&& 0 <= s.covered_by_insurance.value <= insurance_vault_amount * fixed_one()
                &&& s.insurance_transfer_amount <= insurance_vault_amount
                // depositors lose something only when the insurance fund falls short
                &&& 0 <= s.socialized_loss.value
                &&& (s.socialized_loss.value > 0 <==> bad_debt.value > insurance_vault_amount
                    * fixed_one())
            },
            Err(_) => true,
        },
{
    let zero = WrappedI80F48 { value: 0 };
    if !fixed_gt(bad_debt, zero) {
        return Err(MarginfiError::BalanceNotBadDebt);
    }
    let (covered_by_insurance, socialized_loss) = {
        let available_insurance_funds = fixed_from_u64(insurance_vault_amount);

        let covered_by_insurance = fixed_min(bad_debt, available_insurance_funds);
        let socialized_loss = fixed_max(fixed_sub(bad_debt, covered_by_insurance), zero);

        (covered_by_insurance, socialized_loss)
    };
    proof {
        vstd::arithmetic::div_mod::lemma_div_is_ordered(
            covered_by_insurance.value as int,
            insurance_vault_amount * fixed_one(),
            fixed_one(),
        );
        vstd::arithmetic::div_mod::lemma_div_by_multiple(
            insurance_vault_amount as int,
            fixed_one(),
        );
        vstd::arithmetic::div_mod::lemma_div_pos_is_pos(
            covered_by_insurance.value as int,
            fixed_one(),
        );
    }
    let insurance_transfer_amount = fixed_to_u64(covered_by_insurance);
    Ok(BankruptcySettlement { bad_debt, covered_by_insurance, insurance_transfer_amount, socialized_loss })
}

/// Why handling a bankruptcy failed: a refusal of the instruction, or an
/// error of pricing the balance's liability shares, passed on as it came.
#[derive(Debug, PartialEq, Eq)]
pub enum BankruptcyError<E> {
    Marginfi(MarginfiError),
    Pricing(E),
}

/// Handles the bad debt of a bankrupt account in the bank `bank_pk`: finds
/// the account's live balance in the bank (`LendingAccountBalanceNotFound`
/// when it has none), prices the balance's liability shares with
/// `get_liability_amount` into the bad debt, and settles that debt against
/// the insurance vault's `insurance_vault_amount` tokens
/// (`BalanceNotBadDebt` when there is no debt). Returns the balance's
/// position with the settlement.
pub fn lending_pool_handle_bankruptcy<E, F: FnOnce(WrappedI80F48) -> Result<WrappedI80F48, E>>(
    balances: &[Balance],
    bank_pk: &Pubkey,
    get_liability_amount: F,
    insurance_vault_amount: u64,
) -> (r: Result<(usize, BankruptcySettlement), BankruptcyError<E>>)
    requires
        forall|shares: WrappedI80F48| get_liability_amount.requires((shares,)),
    ensures
        (r matches Err(BankruptcyError::Marginfi(MarginfiError::LendingAccountBalanceNotFound)))
            <==> !has_balance_of_bank(balances@, *bank_pk),
        r matches Ok((i, s)) ==> {
            &&& is_first_balance_of_bank(balances@, *bank_pk, i as int)
            &&& get_liability_amount.ensures(
                (balances@[i as int].liability_shares,),
                Ok::<WrappedI80F48, E>(s.bad_debt),
            )
            &&& s.bad_debt.value > 0
            &&& settles(s, s.bad_debt, insurance_vault_amount)
            // the insurance fund covers the debt as far as the tokens it holds reach
            &&& s.covered_by_insurance.value == (if s.bad_debt.value <= insurance_vault_amount
                * 0x1_0000_0000_0000 {
                s.bad_debt.value as int
            } else {
                insurance_vault_amount * 0x1_0000_0000_0000
            })
            &&& s.bad_debt.value > insurance_vault_amount * 0x1_0000_0000_0000 ==> {
                &&& s.covered_by_insurance.value == insurance_vault_amount * 0x1_0000_0000_0000
                &&& s.insurance_transfer_amount == insurance_vault_amount
                &&& s.socialized_loss.value == s.bad_debt.value - insurance_vault_amount
                    * 0x1_0000_0000_0000
            }
            &&& s.bad_debt.value <= insurance_vault_amount * 0x1_0000_0000_0000 ==> {
                &&& s.covered_by_insurance.value == s.bad_debt.value
                &&& s.socialized_loss.value == 0
            }
            // the transfer is the covered amount in whole tokens
            &&& s.insurance_transfer_amount * 0x1_0000_0000_0000 <= s.covered_by_insurance.value
                < (s.insurance_transfer_amount + 1) * 0x1_0000_0000_0000
        },
        r matches Err(BankruptcyError::Pricing(e)) ==> {
            &&& has_balance_of_bank(balances@, *bank_pk)
            &&& get_liability_amount.ensures(
                (balances@[first_balance_of_bank(balances@, *bank_pk)].liability_shares,),
                Err::<WrappedI80F48, E>(e),
            )
        },
        r matches Err(BankruptcyError::Marginfi(MarginfiError::BalanceNotBadDebt)) ==> {
            &&& has_balance_of_bank(balances@, *bank_pk)
            &&& exists|bad_debt: WrappedI80F48|
                #[trigger] get_liability_amount.ensures(
                    (balances@[first_balance_of_bank(balances@, *bank_pk)].liability_shares,),
                    Ok::<WrappedI80F48, E>(bad_debt),
                ) && bad_debt.value <= 0
        },
{
    let index = match find_lending_account_balance(balances, bank_pk) {
        Ok(i) => i,
        Err(e) => {
            return Err(BankruptcyError::Marginfi(e));
        },
    };
    assert(is_first_balance_of_bank(balances@, *bank_pk, index as int));
    proof {
        lemma_first_balance_unique(balances@, *bank_pk, index as int);
    }
    assert(has_balance_of_bank(balances@, *bank_pk)) by {
        assert(is_balance_of_bank(balances@[index as int], *bank_pk));
    }
    let shares = balances[index].liability_shares;
    let priced = get_liability_amount(shares);
    let bad_debt = match priced {
        Ok(d) => d,
        Err(e) => {
            return Err(BankruptcyError::Pricing(e));
        },
    };
    assert(get_liability_amount.ensures(
        (balances@[index as int].liability_shares,),
        Ok::<WrappedI80F48, E>(bad_debt),
    ));
    match settle_bad_debt(bad_debt, insurance_vault_amount) {
        Ok(s) => Ok((index, s)),
        Err(e) => Err(BankruptcyError::Marginfi(e)),
    }
}

/// The insurance fund pays a bad debt as far as the tokens it holds reach:
/// all of a debt it can cover, otherwise every token it holds, and the
/// depositors bear exactly the rest.
pub proof fn lemma_fund_pays_what_it_holds(bad_debt: WrappedI80F48, insurance_vault_amount: u64)
    ensures
        ({
            let covered = insurance_coverage(bad_debt.value as int, insurance_vault_amount as int);
            let loss = socialized_loss(bad_debt.value as int, insurance_vault_amount as int);
            let held = insurance_vault_amount * 0x1_0000_0000_0000;
            &&& covered <= bad_debt.value
            &&& covered <= held
            &&& (covered == bad_debt.value || covered == held)
            &&& bad_debt.value > held ==> covered == held && loss == bad_debt.value - held
            &&& bad_debt.value <= held ==> covered == bad_debt.value && loss == 0
            &&& covered + loss == bad_debt.value
        }),
{
}

/// A larger insurance fund never leaves more of a bad debt to the depositors.
pub proof fn lemma_more_insurance_less_socialized(
    bad_debt: WrappedI80F48,
    insurance_tokens: u64,
    more_insurance_tokens: u64,
)
    requires
        insurance_tokens <= more_insurance_tokens,
    ensures
        socialized_loss(bad_debt.value as int, more_insurance_tokens as int) <= socialized_loss(
            bad_debt.value as int,
            insurance_tokens as int,
        ),
{
    assert(insurance_tokens * fixed_one() <= more_insurance_tokens * fixed_one());
}

} // verus!
