use crate::address::Address;
use crate::state::{InvestmentData, PresaleInfo};
use vstd::prelude::*;

verus! {

/// What the presale reads of a token mint: its address and whether it has
/// been initialized.
#[derive(Clone, Copy, Debug, PartialEq, Eq)]
pub struct Mint {
    pub key: Address,
    pub is_initialized: bool,
}

/// The accounts of a call that configures the presale.
#[derive(Clone, Copy, Debug, PartialEq, Eq)]
pub struct StartPresale {
    pub presale: PresaleInfo,
    /// The caller, who becomes the authority.
    pub signer: Address,
}

/// The accounts of a call that stops the presale.
#[derive(Clone, Copy, Debug, PartialEq, Eq)]
pub struct StopPresale {
    pub presale: PresaleInfo,
    pub signer: Address,
}

/// The accounts of a call that sets the token being sold.
#[derive(Clone, Copy, Debug, PartialEq, Eq)]
pub struct SetTokenAddress {
    pub token_mint: Mint,
    pub presale: PresaleInfo,
    pub signer: Address,
}

/// The accounts of a contribution.
#[derive(Clone, Copy, Debug, PartialEq, Eq)]
pub struct Invest {
    /// The contributor's own record; `InvestmentData::default()` on first use.
    pub data: InvestmentData,
    /// The contributor.
    pub from: Address,
    pub presale: PresaleInfo,
    /// The address of the presale record, whose balance is the custody.
    pub presale_key: Address,
}

/// The accounts of a withdrawal of the raised funds.
#[derive(Clone, Copy, Debug, PartialEq, Eq)]
pub struct WithdrawSol {
    pub signer: Address,
    /// The caller's native-currency balance.
    pub signer_lamports: u64,
    pub presale: PresaleInfo,
    /// The custodial balance: the native currency held by the presale record.
    pub presale_lamports: u64,
}

/// The accounts of a claim.
#[derive(Clone, Copy, Debug, PartialEq, Eq)]
pub struct ClaimTokens {
    /// The claimant's own record.
    pub data: InvestmentData,
    pub presale: PresaleInfo,
    /// The address of the presale record, which owns the token custody.
    pub presale_key: Address,
    /// The claimant.
    pub signer: Address,
}

} // verus!
