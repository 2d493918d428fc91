use vstd::prelude::*;

verus! {

/// Account addresses are carried through the library as the runtime's own
/// `Pubkey`; the logic never looks inside one.
#[verifier::external_type_specification]
#[verifier::external_body]
pub struct ExPubkey(anchor_lang::solana_program::pubkey::Pubkey);

/// Errors of the runtime, as the token program's mint reports them. The
/// library passes one on unchanged and never looks inside it.
#[verifier::external_type_specification]
#[verifier::external_body]
pub struct ExAnchorError(anchor_lang::error::Error);

} // verus!
