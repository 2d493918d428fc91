use vstd::prelude::*;
use anchor_lang::solana_program::pubkey::Pubkey;
use crate::error::ErrorCode;

verus! {

/// Price of one credit tier, in lamports. Only the tiers 1, 2, 3, 5 and 10
/// exist; every other count has no price.
pub open spec fn tier_price(credits: u8) -> Option<u64> {
    match credits {
        1 => Some(25_000_000u64),
        2 => Some(45_000_000u64),
        3 => Some(60_000_000u64),
        5 => Some(90_000_000u64),
        10 => Some(150_000_000u64),
        _ => None,
    }
}

/// Looks up the price of a credit tier.
pub fn credit_price(credits: u8) -> (r: Option<u64>)
    ensures
        r == tier_price(credits),
{
    match credits {
        1 => Some(25_000_000),
        2 => Some(45_000_000),
        3 => Some(60_000_000),
        5 => Some(90_000_000),
        10 => Some(150_000_000),
        _ => None,
    }
}

/// An account of the ledger: its address and its balance in lamports.
#[derive(Clone, Copy, Debug, PartialEq, Eq)]
pub struct LedgerAccount {
    pub key: Pubkey,
    pub lamports: u64,
}

/// The accounts that a credit purchase touches: the user, who pays and has
/// signed the request, and the vault that collects the payments.
#[derive(Clone, Copy, Debug, PartialEq, Eq)]
pub struct PurchaseCredits {
    pub user: LedgerAccount,
    pub vault: LedgerAccount,
}

/// Record of a completed purchase, for tracking off-chain.
#[derive(Clone, Copy, Debug, PartialEq, Eq)]
pub struct CreditsPurchased {
    pub user: Pubkey,
    pub credits: u8,
    pub amount: u64,
}

impl PurchaseCredits {
    /// Lamports held by the two accounts together.
    pub open spec fn total(self) -> int {
        self.user.lamports + self.vault.lamports
    }

    /// The two balances together fit in a `u64`, as every amount of the
    /// native currency does.
    pub open spec fn wf(self) -> bool {
        self.total() <= u64::MAX
    }
}

/// The accounts after `amount` lamports have moved from the user to the vault.
pub open spec fn transferred(a: PurchaseCredits, amount: u64) -> PurchaseCredits {
    PurchaseCredits {
        user: LedgerAccount { key: a.user.key, lamports: (a.user.lamports - amount) as u64 },
        vault: LedgerAccount { key: a.vault.key, lamports: (a.vault.lamports + amount) as u64 },
    }
}

/// What a purchase of `credits` does to the accounts `a`, and what it
/// returns: the tier must exist and the user must hold its price; then the
/// price moves to the vault and the purchase is recorded.
pub open spec fn purchase_outcome(a: PurchaseCredits, credits: u8) -> (
    PurchaseCredits,
    Result<CreditsPurchased, ErrorCode>,
) {
    match tier_price(credits) {
        None => (a, Err(ErrorCode::InvalidCreditsAmount)),
        Some(price) => if a.user.lamports < price {
            (a, Err(ErrorCode::InsufficientFunds))
        } else {
            (
                transferred(a, price),
                Ok(CreditsPurchased { user: a.user.key, credits, amount: price }),
            )
        },
    }
}

/// Buys `credits` credits: checks the tier, checks the user's balance
/// against its price, moves the price from the user to the vault in one
/// step and returns the purchase record. On any error the accounts are
/// left as they were.
pub fn purchase_credits(accounts: &mut PurchaseCredits, credits: u8) -> (r: Result<
    CreditsPurchased,
    ErrorCode,
>)
    requires
        old(accounts).wf(),
    ensures
        (*final(accounts), r) == purchase_outcome(*old(accounts), credits),
        final(accounts).wf(),
        final(accounts).total() == old(accounts).total(),
        tier_price(credits) is None ==> r == Err::<CreditsPurchased, ErrorCode>(
            ErrorCode::InvalidCreditsAmount,
        ) && *final(accounts) == *old(accounts),
        r is Err ==> *final(accounts) == *old(accounts),
        r is Ok <==> (tier_price(credits) is Some && old(accounts).user.lamports
            >= tier_price(credits)->Some_0),
        r matches Ok(ev) ==> ev.amount == tier_price(credits)->Some_0 && ev.credits == credits
            && ev.user == old(accounts).user.key && final(accounts).user.lamports
            == old(accounts).user.lamports - ev.amount && final(accounts).vault.lamports
            == old(accounts).vault.lamports + ev.amount,
{
    if credits == 0 || credits > 10 {
        return Err(ErrorCode::InvalidCreditsAmount);
    }
    let price = match credit_price(credits) {
        Some(p) => p,
        None => return Err(ErrorCode::InvalidCreditsAmount),
    };
    if accounts.user.lamports < price {
        return Err(ErrorCode::InsufficientFunds);
    }
    accounts.user.lamports = accounts.user.lamports - price;
    accounts.vault.lamports = accounts.vault.lamports + price;
    Ok(CreditsPurchased { user: accounts.user.key, credits, amount: price })
}

/// A count that is not one of the tiers 1, 2, 3, 5, 10 is refused with
/// `InvalidCreditsAmount`, and the balances stay as they were.
pub proof fn lemma_invalid_tier_rejected(a: PurchaseCredits, credits: u8)
    requires
        a.wf(),
        credits != 1 && credits != 2 && credits != 3 && credits != 5 && credits != 10,
    ensures
        purchase_outcome(a, credits) == (a, Err::<CreditsPurchased, ErrorCode>(
            ErrorCode::InvalidCreditsAmount,
        )),
{
}

/// Every purchase, successful or not, keeps the sum of the two balances and
/// the ledger's invariant.
pub proof fn lemma_purchase_conserves_total(a: PurchaseCredits, credits: u8)
    requires
        a.wf(),
    ensures
        purchase_outcome(a, credits).0.total() == a.total(),
        purchase_outcome(a, credits).0.wf(),
{
}

/// Two tier-5 purchases against a user who can pay for one only: however the
/// host orders them, the first succeeds and charges 90,000,000 lamports, the
/// second fails with `InsufficientFunds` and changes nothing.
pub proof fn lemma_one_of_two_purchases_succeeds(a: PurchaseCredits)
    requires
        a.wf(),
        90_000_000 <= a.user.lamports < 180_000_000,
    ensures
        ({
            let (a1, r1) = purchase_outcome(a, 5);
            let (a2, r2) = purchase_outcome(a1, 5);
            &&& r1 is Ok
            &&& r1->Ok_0.amount == 90_000_000
            &&& a1.user.lamports == a.user.lamports - 90_000_000
            &&& r2 == Err::<CreditsPurchased, ErrorCode>(ErrorCode::InsufficientFunds)
            &&& a2 == a1
        }),
{
}

} // verus!
