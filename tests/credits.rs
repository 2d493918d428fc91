use anchor_lang::solana_program::pubkey::Pubkey;
use voidmail_nft::{credit_price, purchase_credits, ErrorCode, LedgerAccount, PurchaseCredits};

fn accounts(user_lamports: u64, vault_lamports: u64) -> PurchaseCredits {
    PurchaseCredits {
        user: LedgerAccount { key: Pubkey::new_from_array([1; 32]), lamports: user_lamports },
        vault: LedgerAccount { key: Pubkey::new_from_array([2; 32]), lamports: vault_lamports },
    }
}

#[test]
fn tier_prices() {
    assert_eq!(credit_price(1), Some(25_000_000));
    assert_eq!(credit_price(2), Some(45_000_000));
    assert_eq!(credit_price(3), Some(60_000_000));
    assert_eq!(credit_price(5), Some(90_000_000));
    assert_eq!(credit_price(10), Some(150_000_000));
    assert_eq!(credit_price(4), None);
    assert_eq!(credit_price(0), None);
}

#[test]
fn invalid_counts_are_refused_and_balances_kept() {
    for credits in 0..=255u8 {
        if [1, 2, 3, 5, 10].contains(&credits) {
            continue;
        }
        let mut a = accounts(1_000_000_000, 7);
        let before = a;
        assert_eq!(purchase_credits(&mut a, credits), Err(ErrorCode::InvalidCreditsAmount));
        assert_eq!(a, before);
    }
}

#[test]
fn three_credits_one_lamport_short() {
    let mut a = accounts(59_999_999, 0);
    assert_eq!(purchase_credits(&mut a, 3), Err(ErrorCode::InsufficientFunds));
    assert_eq!(a.user.lamports, 59_999_999);
    assert_eq!(a.vault.lamports, 0);
}

#[test]
fn three_credits_exact_balance() {
    let mut a = accounts(60_000_000, 11);
    let ev = purchase_credits(&mut a, 3).unwrap();
    assert_eq!(a.user.lamports, 0);
    assert_eq!(a.vault.lamports, 60_000_011);
    assert_eq!(ev.amount, 60_000_000);
    assert_eq!(ev.credits, 3);
    assert_eq!(ev.user, Pubkey::new_from_array([1; 32]));
}

#[test]
fn event_amount_is_the_tier_price() {
    for (credits, price) in [(1u8, 25_000_000u64), (2, 45_000_000), (3, 60_000_000), (5, 90_000_000), (10, 150_000_000)] {
        let mut a = accounts(200_000_000, 0);
        let ev = purchase_credits(&mut a, credits).unwrap();
        assert_eq!(ev.amount, price);
        assert_ne!(ev.amount, credits as u64);
        assert_eq!(a.user.lamports, 200_000_000 - price);
        assert_eq!(a.vault.lamports, price);
    }
}

#[test]
fn two_tier_five_purchases_one_succeeds() {
    let mut a = accounts(150_000_000, 0);
    assert!(purchase_credits(&mut a, 5).is_ok());
    assert_eq!(purchase_credits(&mut a, 5), Err(ErrorCode::InsufficientFunds));
    assert_eq!(a.user.lamports, 60_000_000);
    assert_eq!(a.vault.lamports, 90_000_000);
}

#[test]
fn total_is_conserved() {
    let mut a = accounts(100_000_000, 123);
    let total = a.user.lamports + a.vault.lamports;
    for credits in [1u8, 4, 2, 10, 3] {
        let _ = purchase_credits(&mut a, credits);
        assert_eq!(a.user.lamports + a.vault.lamports, total);
    }
    assert_eq!(a.user.lamports, 100_000_000 - 25_000_000 - 45_000_000);
}
