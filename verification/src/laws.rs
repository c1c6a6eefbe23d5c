use crate::accounts::{ClaimTokens, Invest, SetTokenAddress, StopPresale, WithdrawSol};
use crate::error::CustomError;
use crate::instruction::TokenTransfer;
use crate::presale::{
    claim_outcome, credited, invest_admits, invest_outcome, set_token_outcome, stop_outcome,
    tokens_for, withdraw_outcome,
};
use crate::state::{InvestmentData, PresaleInfo};
use vstd::prelude::*;

verus! {

/// A claim that succeeds leaves nothing owed, and the next claim on that
/// record is refused, whatever has become of the presale record and however
/// late it comes: with "insufficient funds" where the presale is live and
/// the window over. A refused claim hands out no transfer.
pub proof fn lemma_claim_once(ctx: ClaimTokens, now: u64, presale_later: PresaleInfo, later: u64)
    requires
        claim_outcome(ctx, now) is Ok,
    ensures
        ({
            let claimed = claim_outcome(ctx, now)->Ok_0.0;
            let again = claim_outcome(ClaimTokens { presale: presale_later, ..claimed }, later);
            &&& claimed.data.number_of_tokens == 0
            &&& again is Err
            &&& presale_later.is_live && later > presale_later.end_time ==> again == Err::<
                (ClaimTokens, TokenTransfer),
                CustomError,
            >(CustomError::InsufficientFunds)
        }),
{
}

/// How the presale record may differ after an operation that does not
/// configure it: the authority is the same, a stopped presale stays stopped,
/// and the amount raised has not gone down.
pub open spec fn follows(before: PresaleInfo, after: PresaleInfo) -> bool {
    &&& after.authority == before.authority
    &&& after.is_live ==> before.is_live
    &&& after.amount_raised >= before.amount_raised
}

/// Stopping, setting the token, contributing, claiming and withdrawing never
/// reassign the authority, never bring a stopped presale back to life and
/// never lower the amount raised. Only configuring the presale anew does.
pub proof fn lemma_record_follows(
    stop: StopPresale,
    set_token: SetTokenAddress,
    invest: Invest,
    value: u64,
    claim: ClaimTokens,
    withdraw: WithdrawSol,
    now: u64,
)
    requires
        invest_admits(invest, value, now),
    ensures
        stop_outcome(stop) matches Ok(after) ==> follows(stop.presale, after.presale),
        set_token_outcome(set_token) matches Ok(after) ==> follows(
            set_token.presale,
            after.presale,
        ),
        invest_outcome(invest, value, now) matches Ok(after) ==> follows(
            invest.presale,
            after.0.presale,
        ),
        claim_outcome(claim, now) matches Ok(after) ==> follows(claim.presale, after.0.presale),
        withdraw_outcome(withdraw) matches Ok(after) ==> follows(withdraw.presale, after.presale),
{
}

/// Each contribution is rounded down on its own: two contributions buy the
/// whole tokens of the first plus the whole tokens of the second, which is
/// never more than their sum would buy at once. What a contribution leaves
/// over is less than the price of one token.
pub proof fn lemma_remainder_is_not_carried(
    data: InvestmentData,
    first: u64,
    second: u64,
    price_per_token: u64,
)
    requires
        price_per_token > 0,
        data.number_of_tokens + tokens_for(first, price_per_token) + tokens_for(
            second,
            price_per_token,
        ) <= u64::MAX,
    ensures
        credited(
            credited(data, first, price_per_token),
            second,
            price_per_token,
        ).number_of_tokens == data.number_of_tokens + tokens_for(first, price_per_token)
            + tokens_for(second, price_per_token),
        tokens_for(first, price_per_token) + tokens_for(second, price_per_token) <= (first
            + second) / price_per_token as int,
        0 <= first - tokens_for(first, price_per_token) * price_per_token < price_per_token,
{
    let p = price_per_token as int;
    let a = first as int;
    let b = second as int;
    assert(0 <= a - (a / p) * p < p && 0 <= a / p && 0 <= b / p && a / p + b / p <= (a + b) / p)
        by (nonlinear_arith)
        requires
            p > 0,
            a >= 0,
            b >= 0,
    ;
}

} // verus!
