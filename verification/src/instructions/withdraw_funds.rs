use crate::error::ErrorCode;
use crate::event::Event;
use crate::address::{event_scope, scope_bytes, signing_scope};
use crate::identity::{lemma_identity_by_bytes, Identity};
use crate::token::{credited, debited, transfer, TokenAccount};
use vstd::prelude::*;

verus! {

/// What a withdrawal from the treasury touches.
#[derive(Clone, Debug, PartialEq, Eq)]
pub struct WithdrawFunds {
    /// The program under which the event signs for itself.
    pub program_id: Identity,
    /// The event whose treasury is drawn on.
    pub event: Event,
    /// The authority's custody of the accepted token, where it exists already.
    pub authority_accepted_mint_ata: Option<TokenAccount>,
    /// The event's treasury vault.
    pub treasury_vault: TokenAccount,
    /// The caller.
    pub authority: Identity,
}

impl WithdrawFunds {
    /// The custody that receives the funds: the authority's, or a new, empty one where the
    /// authority has none yet.
    pub open spec fn receiving_custody(self) -> TokenAccount {
        match self.authority_accepted_mint_ata {
            Some(account) => account,
            None => TokenAccount {
                mint: self.event.accepted_mint,
                owner: self.authority,
                amount: 0,
            },
        }
    }

    /// The accounts fit together: the treasury vault holds the accepted token; where the
    /// caller has a custody of it, it is the caller's, of that token, and its amount fits in
    /// 64 bits together with the vault's.
    pub open spec fn wf(self) -> bool {
        &&& self.treasury_vault.mint == self.event.accepted_mint
        &&& self.authority_accepted_mint_ata matches Some(account) ==> {
            &&& account.mint == self.event.accepted_mint
            &&& account.owner == self.authority
            &&& account.amount + self.treasury_vault.amount <= u64::MAX
        }
    }

    /// Tells whether the accounts fit together: [`WithdrawFunds::wf`].
    pub fn is_valid(&self) -> (ok: bool)
        ensures
            ok == self.wf(),
    {
        let receiver_fits = match self.authority_accepted_mint_ata {
            Some(account) => account.mint == self.event.accepted_mint && account.owner
                == self.authority && account.amount <= u64::MAX - self.treasury_vault.amount,
            None => true,
        };
        self.treasury_vault.mint == self.event.accepted_mint && receiver_fits
    }
}

/// The outcome of a withdrawal of `amount`, where the event signs under `scope`: the caller
/// must be the event's authority, the treasury vault must hold the amount, and the event's
/// signing scope must be the vault's owner, who alone can authorize a transfer out of it.
pub open spec fn withdraw_funds_result(
    ctx: WithdrawFunds,
    amount: u64,
    scope: Option<Seq<u8>>,
) -> Result<(), ErrorCode> {
    if ctx.authority != ctx.event.authority {
        Err(ErrorCode::Unauthorized)
    } else if amount > ctx.treasury_vault.amount {
        Err(ErrorCode::InsufficientTreasuryBalance)
    } else if scope != Some(ctx.treasury_vault.owner@) {
        Err(ErrorCode::Unauthorized)
    } else {
        Ok(())
    }
}

/// The accounts after a withdrawal of `amount`: where it succeeds, the amount has moved from
/// the treasury vault to the authority's custody; where it fails, nothing has changed.
pub open spec fn withdraw_funds_after(
    ctx: WithdrawFunds,
    amount: u64,
    scope: Option<Seq<u8>>,
) -> WithdrawFunds {
    if withdraw_funds_result(ctx, amount, scope) is Ok {
        WithdrawFunds {
            treasury_vault: debited(ctx.treasury_vault, amount),
            authority_accepted_mint_ata: Some(credited(ctx.receiving_custody(), amount)),
            ..ctx
        }
    } else {
        ctx
    }
}

/// Withdraws `amount` from the treasury vault into the authority's own custody of the
/// accepted token, which is opened where the authority has none. The balance is checked
/// before the transfer, which the event authorizes under `scope`.
pub fn withdraw_funds_with_scope(
    ctx: &mut WithdrawFunds,
    amount: u64,
    scope: Option<Identity>,
) -> (result: Result<(), ErrorCode>)
    requires
        old(ctx).wf(),
    ensures
        result == withdraw_funds_result(*old(ctx), amount, scope_bytes(scope)),
        *final(ctx) == withdraw_funds_after(*old(ctx), amount, scope_bytes(scope)),
        final(ctx).wf(),
        final(ctx).event.follows(old(ctx).event),
{
    if ctx.authority != ctx.event.authority {
        return Err(ErrorCode::Unauthorized);
    }
    if amount > ctx.treasury_vault.amount {
        return Err(ErrorCode::InsufficientTreasuryBalance);
    }
    let signer = match scope {
        Some(key) => key,
        None => { return Err(ErrorCode::Unauthorized); },
    };
    let mut vault = ctx.treasury_vault;
    let mut receiver = match ctx.authority_accepted_mint_ata {
        Some(account) => account,
        None => TokenAccount::new(ctx.event.accepted_mint, ctx.authority),
    };
    proof {
        lemma_identity_by_bytes(signer, vault.owner);
    }
    match transfer(&mut vault, &mut receiver, amount, &signer) {
        Ok(()) => {},
        Err(error) => { return Err(error); },
    }
    ctx.treasury_vault = vault;
    ctx.authority_accepted_mint_ata = Some(receiver);
    Ok(())
}

/// Withdraws `amount` from the treasury vault. The event signs under the scope derived from
/// its signer seeds for the program of `ctx`; the rest is [`withdraw_funds_with_scope`].
pub fn withdraw_funds(ctx: &mut WithdrawFunds, amount: u64) -> (result: Result<(), ErrorCode>)
    requires
        old(ctx).wf(),
    ensures
        result == withdraw_funds_result(
            *old(ctx),
            amount,
            event_scope(old(ctx).program_id, old(ctx).event),
        ),
        *final(ctx) == withdraw_funds_after(
            *old(ctx),
            amount,
            event_scope(old(ctx).program_id, old(ctx).event),
        ),
        final(ctx).wf(),
        final(ctx).event.follows(old(ctx).event),
{
    let scope = signing_scope(&ctx.program_id, &ctx.event);
    withdraw_funds_with_scope(ctx, amount, scope)
}

/// A withdrawal never takes more than the treasury vault holds: one that succeeds leaves the
/// vault with what it held less the amount, which is not below zero, and the authority with
/// as much more. One of more than the vault holds, asked for by the authority, fails with
/// `InsufficientTreasuryBalance` and changes nothing.
pub proof fn lemma_withdraw_funds_within_balance(
    ctx: WithdrawFunds,
    amount: u64,
    scope: Option<Seq<u8>>,
)
    requires
        ctx.wf(),
    ensures
        withdraw_funds_result(ctx, amount, scope) is Ok ==> {
            let after = withdraw_funds_after(ctx, amount, scope);
            &&& amount <= ctx.treasury_vault.amount
            &&& after.treasury_vault.amount == ctx.treasury_vault.amount - amount
            &&& after.authority_accepted_mint_ata matches Some(account) && account.amount
                == ctx.receiving_custody().amount + amount
        },
        withdraw_funds_after(ctx, amount, scope).treasury_vault.amount
            <= ctx.treasury_vault.amount,
        ctx.authority == ctx.event.authority && amount > ctx.treasury_vault.amount ==> {
            &&& withdraw_funds_result(ctx, amount, scope) == Err::<(), ErrorCode>(
                ErrorCode::InsufficientTreasuryBalance,
            )
            &&& withdraw_funds_after(ctx, amount, scope) == ctx
        },
{
}

/// A withdrawal asked for by anyone but the event's authority fails with `Unauthorized` and
/// changes nothing.
pub proof fn lemma_withdraw_funds_unauthorized(
    ctx: WithdrawFunds,
    amount: u64,
    scope: Option<Seq<u8>>,
)
    requires
        ctx.authority != ctx.event.authority,
    ensures
        withdraw_funds_result(ctx, amount, scope) == Err::<(), ErrorCode>(
            ErrorCode::Unauthorized,
        ),
        withdraw_funds_after(ctx, amount, scope) == ctx,
{
}

} // verus!
