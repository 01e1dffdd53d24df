use crate::address::{event_scope, scope_bytes, signing_scope};
use crate::error::ErrorCode;
use crate::event::Event;
use crate::identity::{lemma_identity_by_bytes, Identity};
use crate::token::{credited, debited, issued, mint_to, transfer, Mint, TokenAccount};
use vstd::prelude::*;

verus! {

/// What a sponsorship touches.
#[derive(Clone, Debug, PartialEq, Eq)]
pub struct SponsorEvent {
    /// The program under which the event signs for itself.
    pub program_id: Identity,
    /// The event that is sponsored.
    pub event: Event,
    /// The event's token type.
    pub event_mint: Mint,
    /// The event's treasury vault.
    pub treasury_vault: TokenAccount,
    /// The custody from which the sponsor pays.
    pub payer_accepted_mint_ata: TokenAccount,
    /// The sponsor's custody of the event's token, where it exists already.
    pub payer_event_mint_ata: Option<TokenAccount>,
    /// The sponsor.
    pub authority: Identity,
}

impl SponsorEvent {
    /// The custody that receives the event's tokens: the sponsor's, or a new, empty one where
    /// the sponsor has none yet.
    pub open spec fn receiving_custody(self) -> TokenAccount {
        match self.payer_event_mint_ata {
            Some(account) => account,
            None => TokenAccount { mint: self.event_mint.key, owner: self.authority, amount: 0 },
        }
    }

    /// What the sponsor holds of the accepted token in the custody that pays.
    pub open spec fn sponsor_holding(self) -> nat {
        self.payer_accepted_mint_ata.holding(self.authority, self.event.accepted_mint)
    }

    /// The accounts fit together: the treasury vault holds the accepted token; where the
    /// sponsor has a custody of the event's token, it is the sponsor's, of that token, and
    /// holds no more than exists; and the amounts of the accepted token fit in 64 bits
    /// together.
    pub open spec fn wf(self) -> bool {
        &&& self.treasury_vault.mint == self.event.accepted_mint
        &&& self.payer_accepted_mint_ata.mint == self.event.accepted_mint
            ==> self.payer_accepted_mint_ata.amount + self.treasury_vault.amount <= u64::MAX
        &&& self.payer_event_mint_ata matches Some(account) ==> {
            &&& account.mint == self.event_mint.key
            &&& account.owner == self.authority
            &&& account.amount <= self.event_mint.supply
        }
    }

    /// The counters have room for `quantity` more: the sponsorship count and the supply of the
    /// event's token both stay within 64 bits.
    pub open spec fn has_room(self, quantity: u64) -> bool {
        &&& self.event.sponsors + quantity <= u64::MAX
        &&& self.event_mint.supply + quantity <= u64::MAX
    }

    /// Tells whether a sponsorship of `quantity` may be asked for: [`SponsorEvent::wf`] and
    /// [`SponsorEvent::has_room`].
    pub fn accepts(&self, quantity: u64) -> (ok: bool)
        ensures
            ok == (self.wf() && self.has_room(quantity)),
    {
        let fits = self.treasury_vault.mint == self.event.accepted_mint && (
        self.payer_accepted_mint_ata.mint != self.event.accepted_mint
            || self.payer_accepted_mint_ata.amount <= u64::MAX - self.treasury_vault.amount);
        let receiver_fits = match self.payer_event_mint_ata {
            Some(account) => account.mint == self.event_mint.key && account.owner
                == self.authority && account.amount <= self.event_mint.supply,
            None => true,
        };
        fits && receiver_fits && quantity <= u64::MAX - self.event.sponsors && quantity
            <= u64::MAX - self.event_mint.supply
    }
}

/// The outcome of a sponsorship of `quantity`, where the event signs under `scope`.
///
/// The sponsor must hold a positive amount of the accepted token in a custody of their own,
/// and at least `quantity` of it. The event's signing scope must be the mint authority of the
/// event's token.
pub open spec fn sponsor_event_result(
    ctx: SponsorEvent,
    quantity: u64,
    scope: Option<Seq<u8>>,
) -> Result<(), ErrorCode> {
    if ctx.sponsor_holding() == 0 || ctx.sponsor_holding() < quantity {
        Err(ErrorCode::InsufficientBalance)
    } else if scope != Some(ctx.event_mint.mint_authority@) {
        Err(ErrorCode::MintAuthorityMismatch)
    } else {
        Ok(())
    }
}

/// The accounts after a sponsorship of `quantity`, where the event signs under `scope`. Where
/// it succeeds, the sponsor has paid `quantity` into the treasury vault and received
/// `quantity` new units of the event's token, and the event counts `quantity` more; where it
/// fails, nothing has changed.
pub open spec fn sponsor_event_after(
    ctx: SponsorEvent,
    quantity: u64,
    scope: Option<Seq<u8>>,
) -> SponsorEvent {
    if sponsor_event_result(ctx, quantity, scope) is Ok {
        SponsorEvent {
            event: Event { sponsors: (ctx.event.sponsors + quantity) as u64, ..ctx.event },
            event_mint: issued(ctx.event_mint, quantity),
            treasury_vault: credited(ctx.treasury_vault, quantity),
            payer_accepted_mint_ata: debited(ctx.payer_accepted_mint_ata, quantity),
            payer_event_mint_ata: Some(credited(ctx.receiving_custody(), quantity)),
            ..ctx
        }
    } else {
        ctx
    }
}

/// Sponsors the event with `quantity`, the event signing under `scope`: pays `quantity` of
/// the accepted token from the sponsor into the treasury vault, mints `quantity` of the
/// event's token to the sponsor, and counts the sponsorship. All three happen, or none.
pub fn sponsor_event_with_scope(
    ctx: &mut SponsorEvent,
    quantity: u64,
    scope: Option<Identity>,
) -> (result: Result<(), ErrorCode>)
    requires
        old(ctx).wf(),
        old(ctx).has_room(quantity),
    ensures
        result == sponsor_event_result(*old(ctx), quantity, scope_bytes(scope)),
        *final(ctx) == sponsor_event_after(*old(ctx), quantity, scope_bytes(scope)),
        final(ctx).wf(),
        final(ctx).event.follows(old(ctx).event),
{
    let mut payer = ctx.payer_accepted_mint_ata;
    let mut treasury = ctx.treasury_vault;
    if payer.holding_of(&ctx.authority, &ctx.event.accepted_mint) == 0 {
        return Err(ErrorCode::InsufficientBalance);
    }
    match transfer(&mut payer, &mut treasury, quantity, &ctx.authority) {
        Ok(()) => {},
        Err(error) => { return Err(error); },
    }
    let signer = match scope {
        Some(key) => key,
        None => { return Err(ErrorCode::MintAuthorityMismatch); },
    };
    let mut mint = ctx.event_mint;
    let mut receiver = match ctx.payer_event_mint_ata {
        Some(account) => account,
        None => TokenAccount::new(ctx.event_mint.key, ctx.authority),
    };
    proof {
        lemma_identity_by_bytes(signer, mint.mint_authority);
    }
    match mint_to(&mut mint, &mut receiver, quantity, &signer) {
        Ok(()) => {},
        Err(error) => { return Err(error); },
    }
    ctx.payer_accepted_mint_ata = payer;
    ctx.treasury_vault = treasury;
    ctx.event_mint = mint;
    ctx.payer_event_mint_ata = Some(receiver);
    ctx.event.sponsors = ctx.event.sponsors + quantity;
    Ok(())
}

/// Sponsors the event with `quantity`. The event signs under the scope derived from its
/// signer seeds for the program of `ctx`; the rest is [`sponsor_event_with_scope`].
pub fn sponsor_event(ctx: &mut SponsorEvent, quantity: u64) -> (result: Result<(), ErrorCode>)
    requires
        old(ctx).wf(),
        old(ctx).has_room(quantity),
    ensures
        result == sponsor_event_result(*old(ctx), quantity, event_scope(old(ctx).program_id, old(ctx).event)),
        *final(ctx) == sponsor_event_after(*old(ctx), quantity, event_scope(old(ctx).program_id, old(ctx).event)),
        final(ctx).wf(),
        final(ctx).event.follows(old(ctx).event),
{
    let scope = signing_scope(&ctx.program_id, &ctx.event);
    sponsor_event_with_scope(ctx, quantity, scope)
}

/// A sponsorship that succeeds raises the sponsorship count, the treasury vault, the supply of
/// the event's token and the sponsor's holding of it by exactly the quantity, and lowers the
/// sponsor's custody of the accepted token by as much. A sponsorship that fails changes
/// nothing: where the minting is refused, the payment has not happened either.
pub proof fn lemma_sponsor_event_all_or_nothing(
    ctx: SponsorEvent,
    quantity: u64,
    scope: Option<Seq<u8>>,
)
    requires
        ctx.wf(),
        ctx.has_room(quantity),
    ensures
        sponsor_event_result(ctx, quantity, scope) is Ok ==> {
            let after = sponsor_event_after(ctx, quantity, scope);
            &&& after.event.sponsors == ctx.event.sponsors + quantity
            &&& after.treasury_vault.amount == ctx.treasury_vault.amount + quantity
            &&& after.event_mint.supply == ctx.event_mint.supply + quantity
            &&& after.payer_event_mint_ata matches Some(account) && account.amount
                == ctx.receiving_custody().amount + quantity
            &&& after.payer_accepted_mint_ata.amount == ctx.payer_accepted_mint_ata.amount
                - quantity
        },
        sponsor_event_result(ctx, quantity, scope) is Err ==> sponsor_event_after(
            ctx,
            quantity,
            scope,
        ) == ctx,
        scope != Some(ctx.event_mint.mint_authority@) ==> sponsor_event_after(
            ctx,
            quantity,
            scope,
        ).treasury_vault == ctx.treasury_vault,
{
}

} // verus!
