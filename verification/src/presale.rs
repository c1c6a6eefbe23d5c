use crate::accounts::{
    ClaimTokens, Invest, SetTokenAddress, StartPresale, StopPresale, WithdrawSol,
};
use crate::error::CustomError;
use crate::instruction::{
    build_system_transfer, system_transfer, Instruction, InstructionView, TokenTransfer,
};
use crate::state::{InvestmentData, PresaleInfo};
use vstd::prelude::*;

verus! {

/// The record after a call to configure it: the four parameters as given, the
/// caller as authority, live, nothing raised. The token is left as it was.
pub open spec fn start_outcome(
    ctx: StartPresale,
    goal: u64,
    start_time: u64,
    end_time: u64,
    price_per_token: u64,
) -> StartPresale {
    StartPresale {
        presale: PresaleInfo {
            goal,
            token_mint: ctx.presale.token_mint,
            amount_raised: 0,
            start_time,
            end_time,
            price_per_token,
            is_live: true,
            authority: ctx.signer,
        },
        signer: ctx.signer,
    }
}

/// Configures the presale, or configures it anew. Any caller may do so and
/// becomes the authority.
pub fn start_presale(
    ctx: &mut StartPresale,
    goal: u64,
    start_time: u64,
    end_time: u64,
    price_per_token: u64,
) -> (r: Result<(), CustomError>)
    ensures
        r is Ok,
        *final(ctx) == start_outcome(*old(ctx), goal, start_time, end_time, price_per_token),
{
    ctx.presale.goal = goal;
    ctx.presale.start_time = start_time;
    ctx.presale.end_time = end_time;
    ctx.presale.price_per_token = price_per_token;
    ctx.presale.is_live = true;
    ctx.presale.amount_raised = 0;
    ctx.presale.authority = ctx.signer;
    Ok(())
}

/// What stopping does: only the authority may stop, and only a live presale.
pub open spec fn stop_outcome(ctx: StopPresale) -> Result<StopPresale, CustomError> {
    if ctx.signer@ != ctx.presale.authority@ {
        Err(CustomError::Unauthorized)
    } else if !ctx.presale.is_live {
        Err(CustomError::PresaleAlreadyStopped)
    } else {
        Ok(StopPresale { presale: PresaleInfo { is_live: false, ..ctx.presale }, ..ctx })
    }
}

/// Stops the presale for good.
pub fn stop_presale(ctx: &mut StopPresale) -> (r: Result<(), CustomError>)
    ensures
        match r {
            Ok(_) => stop_outcome(*old(ctx)) == Ok::<StopPresale, CustomError>(*final(ctx)),
            Err(e) => stop_outcome(*old(ctx)) == Err::<StopPresale, CustomError>(e) && *final(ctx)
                == *old(ctx),
        },
        old(ctx).signer@ != old(ctx).presale.authority@ ==> r == Err::<(), CustomError>(
            CustomError::Unauthorized,
        ) && *final(ctx) == *old(ctx),
        r is Ok ==> !final(ctx).presale.is_live,
{
    if !(ctx.signer == ctx.presale.authority) {
        return Err(CustomError::Unauthorized);
    }
    if !ctx.presale.is_live {
        return Err(CustomError::PresaleAlreadyStopped);
    }
    ctx.presale.is_live = false;
    Ok(())
}

/// What setting the token does: only the authority may set it.
pub open spec fn set_token_outcome(ctx: SetTokenAddress) -> Result<SetTokenAddress, CustomError> {
    if ctx.signer@ != ctx.presale.authority@ {
        Err(CustomError::Unauthorized)
    } else {
        Ok(
            SetTokenAddress {
                presale: PresaleInfo { token_mint: ctx.token_mint.key, ..ctx.presale },
                ..ctx
            },
        )
    }
}

/// Sets the token that the presale sells. It may be set again later; tokens
/// already owed are not priced anew.
pub fn set_token_address(ctx: &mut SetTokenAddress) -> (r: Result<(), CustomError>)
    requires
        old(ctx).token_mint.is_initialized,
    ensures
        match r {
            Ok(_) => set_token_outcome(*old(ctx)) == Ok::<SetTokenAddress, CustomError>(
                *final(ctx),
            ),
            Err(e) => set_token_outcome(*old(ctx)) == Err::<SetTokenAddress, CustomError>(e)
                && *final(ctx) == *old(ctx),
        },
        old(ctx).signer@ != old(ctx).presale.authority@ ==> r == Err::<(), CustomError>(
            CustomError::Unauthorized,
        ) && *final(ctx) == *old(ctx),
{
    if !(ctx.signer == ctx.presale.authority) {
        return Err(CustomError::Unauthorized);
    }
    ctx.presale.token_mint = ctx.token_mint.key;
    Ok(())
}

/// Why a contribution at time `now` is refused, if it is. The presale must be
/// live and `now` strictly inside the window; the first test that fails names
/// the error.
pub open spec fn invest_refusal(presale: PresaleInfo, now: u64) -> Option<CustomError> {
    if !presale.is_live {
        Some(CustomError::PresaleNotLive)
    } else if now <= presale.start_time {
        Some(CustomError::PresaleNotStarted)
    } else if now >= presale.end_time {
        Some(CustomError::PresaleHasEnd)
    } else {
        None
    }
}

/// The tokens bought by one contribution: the whole tokens that `value` pays
/// for. What is left over of `value` buys nothing, now or later.
pub open spec fn tokens_for(value: u64, price_per_token: u64) -> int {
    value as int / price_per_token as int
}

/// The price is not zero and the three sums of a contribution of `value` fit
/// in 64 bits.
pub open spec fn invest_fits(presale: PresaleInfo, data: InvestmentData, value: u64) -> bool {
    &&& presale.price_per_token > 0
    &&& data.amount + value <= u64::MAX
    &&& data.number_of_tokens + tokens_for(value, presale.price_per_token) <= u64::MAX
    &&& presale.amount_raised + value <= u64::MAX
}

/// A contribution of `value` at time `now` is either refused or stays within
/// the machine's limits.
pub open spec fn invest_admits(ctx: Invest, value: u64, now: u64) -> bool {
    invest_refusal(ctx.presale, now) is None ==> invest_fits(ctx.presale, ctx.data, value)
}

/// An investor's record after a contribution of `value` at the given price.
pub open spec fn credited(
    data: InvestmentData,
    value: u64,
    price_per_token: u64,
) -> InvestmentData {
    InvestmentData {
        amount: (data.amount + value) as u64,
        number_of_tokens: (data.number_of_tokens + tokens_for(value, price_per_token)) as u64,
    }
}

/// The presale record after a contribution of `value`.
pub open spec fn raised(presale: PresaleInfo, value: u64) -> PresaleInfo {
    PresaleInfo { amount_raised: (presale.amount_raised + value) as u64, ..presale }
}

/// What a contribution does: the accounts after it and the native transfer
/// that has to follow, or the error.
pub open spec fn invest_outcome(ctx: Invest, value: u64, now: u64) -> Result<
    (Invest, InstructionView),
    CustomError,
> {
    match invest_refusal(ctx.presale, now) {
        Some(e) => Err(e),
        None => Ok(
            (
                Invest {
                    data: credited(ctx.data, value, ctx.presale.price_per_token),
                    presale: raised(ctx.presale, value),
                    ..ctx
                },
                system_transfer(ctx.from@, ctx.presale_key@, value),
            ),
        ),
    }
}

/// Tests whether `invest_sol` may be called with these arguments.
pub fn invest_within_limits(ctx: &Invest, value: u64, now: u64) -> (b: bool)
    ensures
        b == invest_admits(*ctx, value, now),
{
    if !ctx.presale.is_live || now <= ctx.presale.start_time || now >= ctx.presale.end_time {
        return true;
    }
    if ctx.presale.price_per_token == 0 {
        return false;
    }
    let number_of_tokens: u64 = value / ctx.presale.price_per_token;
    let amount_fits = ctx.data.amount <= u64::MAX - value;
    let tokens_fit = ctx.data.number_of_tokens <= u64::MAX - number_of_tokens;
    let raised_fits = ctx.presale.amount_raised <= u64::MAX - value;
    amount_fits && tokens_fit && raised_fits
}

/// Records a contribution of `value` made at time `now` and returns the
/// transfer of `value` from the contributor into custody, which the caller
/// has to carry out. If that transfer fails, the caller must discard the
/// changed accounts.
pub fn invest_sol(ctx: &mut Invest, value: u64, now: u64) -> (r: Result<Instruction, CustomError>)
    requires
        invest_admits(*old(ctx), value, now),
    ensures
        match r {
            Ok(ix) => invest_outcome(*old(ctx), value, now) == Ok::<
                (Invest, InstructionView),
                CustomError,
            >((*final(ctx), ix@)),
            Err(e) => invest_outcome(*old(ctx), value, now) == Err::<
                (Invest, InstructionView),
                CustomError,
            >(e) && *final(ctx) == *old(ctx),
        },
        now <= old(ctx).presale.start_time || now >= old(ctx).presale.end_time ==> r is Err,
        old(ctx).presale.is_live && old(ctx).presale.start_time < now < old(ctx).presale.end_time
            ==> r is Ok,
{
    if !ctx.presale.is_live {
        return Err(CustomError::PresaleNotLive);
    }
    if !(now > ctx.presale.start_time) {
        return Err(CustomError::PresaleNotStarted);
    }
    if !(now < ctx.presale.end_time) {
        return Err(CustomError::PresaleHasEnd);
    }
    ctx.data.amount = ctx.data.amount + value;
    let number_of_tokens: u64 = value / ctx.presale.price_per_token;
    ctx.data.number_of_tokens = ctx.data.number_of_tokens + number_of_tokens;
    ctx.presale.amount_raised = ctx.presale.amount_raised + value;
    Ok(build_system_transfer(&ctx.from, &ctx.presale_key, value))
}

/// Why a claim at time `now` is refused, if it is. The presale must be live,
/// `now` strictly after the end of the window, and something must be owed;
/// the first test that fails names the error.
pub open spec fn claim_refusal(presale: PresaleInfo, data: InvestmentData, now: u64) -> Option<
    CustomError,
> {
    if !presale.is_live {
        Some(CustomError::PresaleNotLive)
    } else if now <= presale.end_time {
        Some(CustomError::PresaleHasEnd)
    } else if data.number_of_tokens == 0 {
        Some(CustomError::InsufficientFunds)
    } else {
        None
    }
}

/// What a claim does: the accounts after it and the token transfer that has
/// to follow, or the error.
pub open spec fn claim_outcome(ctx: ClaimTokens, now: u64) -> Result<
    (ClaimTokens, TokenTransfer),
    CustomError,
> {
    match claim_refusal(ctx.presale, ctx.data, now) {
        Some(e) => Err(e),
        None => Ok(
            (
                ClaimTokens { data: InvestmentData { number_of_tokens: 0, ..ctx.data }, ..ctx },
                TokenTransfer {
                    mint: ctx.presale.token_mint,
                    authority: ctx.presale_key,
                    recipient: ctx.signer,
                    amount: ctx.data.number_of_tokens,
                },
            ),
        ),
    }
}

/// Releases all the tokens owed to the claimant: sets the record's count to
/// zero and returns the token transfer, which the caller has to carry out.
/// The count is zero before the transfer is handed out, so that the same
/// tokens are never released twice.
pub fn claim_tokens(ctx: &mut ClaimTokens, now: u64) -> (r: Result<TokenTransfer, CustomError>)
    ensures
        match r {
            Ok(transfer) => claim_outcome(*old(ctx), now) == Ok::<
                (ClaimTokens, TokenTransfer),
                CustomError,
            >((*final(ctx), transfer)),
            Err(e) => claim_outcome(*old(ctx), now) == Err::<
                (ClaimTokens, TokenTransfer),
                CustomError,
            >(e) && *final(ctx) == *old(ctx),
        },
        now <= old(ctx).presale.end_time ==> r is Err,
        old(ctx).presale.is_live && now > old(ctx).presale.end_time && old(
            ctx,
        ).data.number_of_tokens > 0 ==> r is Ok,
        r is Ok ==> final(ctx).data.number_of_tokens == 0,
{
    if !ctx.presale.is_live {
        return Err(CustomError::PresaleNotLive);
    }
    if !(now > ctx.presale.end_time) {
        return Err(CustomError::PresaleHasEnd);
    }
    let tokens_to_claim: u64 = ctx.data.number_of_tokens;
    if !(tokens_to_claim > 0) {
        return Err(CustomError::InsufficientFunds);
    }
    ctx.data.number_of_tokens = 0;
    Ok(
        TokenTransfer {
            mint: ctx.presale.token_mint,
            authority: ctx.presale_key,
            recipient: ctx.signer,
            amount: tokens_to_claim,
        },
    )
}

/// What a withdrawal does: only the authority may withdraw, and only when
/// custody holds something; then all of it moves to the authority.
pub open spec fn withdraw_outcome(ctx: WithdrawSol) -> Result<WithdrawSol, CustomError> {
    if ctx.signer@ != ctx.presale.authority@ {
        Err(CustomError::Unauthorized)
    } else if ctx.presale_lamports == 0 {
        Err(CustomError::InsufficientFunds)
    } else {
        Ok(
            WithdrawSol {
                signer_lamports: (ctx.signer_lamports + ctx.presale_lamports) as u64,
                presale_lamports: 0,
                ..ctx
            },
        )
    }
}

/// The authority's balance can take the whole custodial balance.
pub open spec fn withdraw_admits(ctx: WithdrawSol) -> bool {
    ctx.signer@ == ctx.presale.authority@ ==> ctx.signer_lamports + ctx.presale_lamports
        <= u64::MAX
}

/// Tests whether `withdraw_sol` may be called with these accounts.
pub fn withdraw_within_limits(ctx: &WithdrawSol) -> (b: bool)
    ensures
        b == withdraw_admits(*ctx),
{
    if !(ctx.signer == ctx.presale.authority) {
        return true;
    }
    ctx.signer_lamports <= u64::MAX - ctx.presale_lamports
}

/// Moves the whole custodial balance to the authority. It may be called at
/// any time, also while the presale is live.
pub fn withdraw_sol(ctx: &mut WithdrawSol) -> (r: Result<(), CustomError>)
    requires
        withdraw_admits(*old(ctx)),
    ensures
        match r {
            Ok(_) => withdraw_outcome(*old(ctx)) == Ok::<WithdrawSol, CustomError>(*final(ctx)),
            Err(e) => withdraw_outcome(*old(ctx)) == Err::<WithdrawSol, CustomError>(e)
                && *final(ctx) == *old(ctx),
        },
        old(ctx).signer@ != old(ctx).presale.authority@ ==> r == Err::<(), CustomError>(
            CustomError::Unauthorized,
        ) && *final(ctx) == *old(ctx),
        r is Ok ==> final(ctx).presale_lamports == 0 && final(ctx).signer_lamports == old(
            ctx,
        ).signer_lamports + old(ctx).presale_lamports,
{
    if !(ctx.signer == ctx.presale.authority) {
        return Err(CustomError::Unauthorized);
    }
    let presale_balance: u64 = ctx.presale_lamports;
    if !(presale_balance > 0) {
        return Err(CustomError::InsufficientFunds);
    }
    ctx.presale_lamports = ctx.presale_lamports - presale_balance;
    ctx.signer_lamports = ctx.signer_lamports + presale_balance;
    Ok(())
}

} // verus!
