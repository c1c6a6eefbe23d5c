use crate::address::Address;
use vstd::prelude::*;

verus! {

/// The presale record: the sale's configuration and its running total.
/// There is one per deployment.
#[derive(Clone, Copy, Debug, PartialEq, Eq)]
pub struct PresaleInfo {
    /// Target amount to raise. Informational: contributions beyond it are accepted.
    pub goal: u64,
    /// The mint of the token being sold.
    pub token_mint: Address,
    /// Native currency contributed so far.
    pub amount_raised: u64,
    /// Contributions are accepted strictly after this time (unix seconds).
    pub start_time: u64,
    /// Contributions are accepted strictly before this time, claims strictly after it.
    pub end_time: u64,
    /// Native-currency cost of one token.
    pub price_per_token: u64,
    /// Whether the presale still accepts operations.
    pub is_live: bool,
    /// The only identity allowed to administer the presale.
    pub authority: Address,
}

/// One investor's record: what they paid in and what they are owed.
#[derive(Clone, Copy, Debug, PartialEq, Eq)]
pub struct InvestmentData {
    /// Native currency this investor has contributed in total.
    pub amount: u64,
    /// Tokens owed to the investor and not yet claimed.
    pub number_of_tokens: u64,
}

impl Default for PresaleInfo {
    /// The record as it is before the presale is configured: all zero, not live.
    fn default() -> (p: PresaleInfo)
        ensures
            p.goal == 0,
            p.token_mint@ == Seq::new(32, |i: int| 0u8),
            p.amount_raised == 0,
            p.start_time == 0,
            p.end_time == 0,
            p.price_per_token == 0,
            !p.is_live,
            p.authority@ == Seq::new(32, |i: int| 0u8),
    {
        let zero = Address::new([0u8; 32]);
        assert(zero@ =~= Seq::new(32, |i: int| 0u8));
        PresaleInfo {
            goal: 0,
            token_mint: zero,
            amount_raised: 0,
            start_time: 0,
            end_time: 0,
            price_per_token: 0,
            is_live: false,
            authority: zero,
        }
    }
}

impl Default for InvestmentData {
    /// The record of an investor who has not contributed yet.
    fn default() -> (d: InvestmentData)
        ensures
            d == InvestmentData::empty(),
    {
        InvestmentData { amount: 0, number_of_tokens: 0 }
    }
}

impl InvestmentData {
    /// The record that is created when an investor first appears.
    pub open spec fn empty() -> InvestmentData {
        InvestmentData { amount: 0, number_of_tokens: 0 }
    }
}

} // verus!
