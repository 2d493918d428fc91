use vstd::prelude::*;
use vstd::string::StrSliceExecFns;
use anchor_lang::solana_program::pubkey::Pubkey;
use crate::error::ErrorCode;

verus! {

/// The accounts that minting a custom email token involves, by address: the
/// payer, whose authority signs the mint; the user who asked for the alias;
/// the token's mint; and the user's account for that token.
#[derive(Clone, Copy, Debug, PartialEq, Eq)]
pub struct CreateCustomEmail {
    pub payer: Pubkey,
    pub user: Pubkey,
    pub mint: Pubkey,
    pub user_token_account: Pubkey,
}

/// Record of a minted custom email, for tracking off-chain.
#[derive(Debug, PartialEq, Eq)]
pub struct CustomEmailCreated {
    pub user: Pubkey,
    pub prefix: String,
    pub domain: String,
}

/// A mint that the token program is to perform: `amount` tokens of `mint`
/// into `to`, under the authority of `authority`, for the alias
/// `prefix`@`domain` that `user` asked for.
#[derive(Debug, PartialEq, Eq)]
pub struct MintRequest {
    pub mint: Pubkey,
    pub to: Pubkey,
    pub authority: Pubkey,
    pub amount: u64,
    pub user: Pubkey,
    pub prefix: String,
    pub domain: String,
}

/// An email prefix holds 1 to 50 characters.
pub open spec fn valid_prefix(prefix: Seq<char>) -> bool {
    1 <= prefix.len() <= 50
}

/// An email domain holds 1 to 100 characters.
pub open spec fn valid_domain(domain: Seq<char>) -> bool {
    1 <= domain.len() <= 100
}

/// Validates the alias `prefix`@`domain` and, when it is valid, says which
/// mint to perform: exactly one token of the accounts' mint into the user's
/// token account, under the payer's authority. The prefix is checked first.
pub fn create_custom_email(accounts: &CreateCustomEmail, prefix: String, domain: String) -> (r:
    Result<MintRequest, ErrorCode>)
    ensures
        !valid_prefix(prefix@) ==> r == Err::<MintRequest, ErrorCode>(ErrorCode::InvalidPrefix),
        valid_prefix(prefix@) && !valid_domain(domain@) ==> r == Err::<MintRequest, ErrorCode>(
            ErrorCode::InvalidDomain,
        ),
        r is Ok <==> valid_prefix(prefix@) && valid_domain(domain@),
        r matches Ok(req) ==> req.mint == accounts.mint && req.to == accounts.user_token_account
            && req.authority == accounts.payer && req.amount == 1 && req.user == accounts.user
            && req.prefix@ == prefix@ && req.domain@ == domain@,
{
    let prefix_len = prefix.as_str().unicode_len();
    if prefix_len == 0 || prefix_len > 50 {
        return Err(ErrorCode::InvalidPrefix);
    }
    let domain_len = domain.as_str().unicode_len();
    if domain_len == 0 || domain_len > 100 {
        return Err(ErrorCode::InvalidDomain);
    }
    Ok(
        MintRequest {
            mint: accounts.mint,
            to: accounts.user_token_account,
            authority: accounts.payer,
            amount: 1,
            user: accounts.user,
            prefix,
            domain,
        },
    )
}

/// Finishes a custom email once the token program has answered the mint
/// `req`: on success the mint is recorded with the user, prefix and domain
/// unchanged; a failure of the mint is returned as it came, and nothing is
/// recorded.
pub fn complete_custom_email(
    req: MintRequest,
    minted: Result<(), anchor_lang::error::Error>,
) -> (r: Result<CustomEmailCreated, anchor_lang::error::Error>)
    ensures
        minted matches Err(e) ==> r == Err::<CustomEmailCreated, anchor_lang::error::Error>(e),
        minted is Ok ==> r is Ok,
        r matches Ok(ev) ==> minted is Ok && ev.user == req.user && ev.prefix@ == req.prefix@
            && ev.domain@ == req.domain@,
{
    match minted {
        Err(e) => Err(e),
        Ok(()) => Ok(CustomEmailCreated { user: req.user, prefix: req.prefix, domain: req.domain }),
    }
}

} // verus!
