use crate::error::ErrorCode;
use crate::event::Event;
use crate::identity::Identity;
use crate::token::{credited, debited, transfer, TokenAccount};
use vstd::prelude::*;

verus! {

/// What a purchase of tickets touches.
#[derive(Clone, Debug, PartialEq, Eq)]
pub struct BuyTickets {
    /// The event whose tickets are bought.
    pub event: Event,
    /// The event's profits vault.
    pub profits_vault: TokenAccount,
    /// The custody from which the buyer pays.
    pub payer_accepted_mint_ata: TokenAccount,
    /// The buyer.
    pub authority: Identity,
}

/// The price of `quantity` tickets at `price` each.
pub open spec fn ticket_cost(price: u64, quantity: u64) -> int {
    price * quantity
}

/// The outcome of pricing `quantity` tickets of `event`: the amount to charge, unless the
/// event is closed or the amount does not fit in 64 bits.
pub open spec fn ticket_charge_result(event: Event, quantity: u64) -> Result<u64, ErrorCode> {
    if !event.is_active {
        Err(ErrorCode::EventClosed)
    } else if ticket_cost(event.ticket_price, quantity) > u64::MAX {
        Err(ErrorCode::PriceOverflow)
    } else {
        Ok(ticket_cost(event.ticket_price, quantity) as u64)
    }
}

/// Prices `quantity` tickets of `event`.
pub fn ticket_charge(event: &Event, quantity: u64) -> (charge: Result<u64, ErrorCode>)
    ensures
        charge == ticket_charge_result(*event, quantity),
{
    if !event.is_active {
        return Err(ErrorCode::EventClosed);
    }
    match event.ticket_price.checked_mul(quantity) {
        Some(amount) => Ok(amount),
        None => Err(ErrorCode::PriceOverflow),
    }
}

impl BuyTickets {
    /// What the buyer holds of the accepted token in the custody that pays.
    pub open spec fn buyer_holding(self) -> nat {
        self.payer_accepted_mint_ata.holding(self.authority, self.event.accepted_mint)
    }

    /// The accounts fit together: the profits vault holds the accepted token, and the amounts
    /// of the accepted token fit in 64 bits together.
    pub open spec fn wf(self) -> bool {
        &&& self.profits_vault.mint == self.event.accepted_mint
        &&& self.payer_accepted_mint_ata.mint == self.event.accepted_mint
            ==> self.payer_accepted_mint_ata.amount + self.profits_vault.amount <= u64::MAX
    }

    /// Tells whether the accounts fit together: [`BuyTickets::wf`].
    pub fn is_valid(&self) -> (ok: bool)
        ensures
            ok == self.wf(),
    {
        self.profits_vault.mint == self.event.accepted_mint && (
        self.payer_accepted_mint_ata.mint != self.event.accepted_mint
            || self.payer_accepted_mint_ata.amount <= u64::MAX - self.profits_vault.amount)
    }
}

/// The outcome of a purchase of `quantity` tickets.
///
/// The event must be active and the price must fit in 64 bits. The buyer must hold a positive
/// amount of the accepted token in a custody of their own, and at least the price.
pub open spec fn buy_tickets_result(ctx: BuyTickets, quantity: u64) -> Result<(), ErrorCode> {
    match ticket_charge_result(ctx.event, quantity) {
        Err(error) => Err(error),
        Ok(amount) => if ctx.buyer_holding() == 0 || ctx.buyer_holding() < amount {
            Err(ErrorCode::InsufficientBalance)
        } else {
            Ok(())
        },
    }
}

/// The accounts after a purchase of `quantity` tickets: where it succeeds, the price has
/// moved from the buyer's custody to the profits vault; where it fails, nothing has changed.
pub open spec fn buy_tickets_after(ctx: BuyTickets, quantity: u64) -> BuyTickets {
    if buy_tickets_result(ctx, quantity) is Ok {
        let amount = ticket_cost(ctx.event.ticket_price, quantity) as u64;
        BuyTickets {
            profits_vault: credited(ctx.profits_vault, amount),
            payer_accepted_mint_ata: debited(ctx.payer_accepted_mint_ata, amount),
            ..ctx
        }
    } else {
        ctx
    }
}

/// Buys `quantity` tickets: charges the buyer the ticket price times `quantity`, paid into
/// the profits vault. Nothing is issued to the buyer.
pub fn buy_tickets(ctx: &mut BuyTickets, quantity: u64) -> (result: Result<(), ErrorCode>)
    requires
        old(ctx).wf(),
    ensures
        result == buy_tickets_result(*old(ctx), quantity),
        *final(ctx) == buy_tickets_after(*old(ctx), quantity),
        final(ctx).wf(),
        final(ctx).event.follows(old(ctx).event),
{
    let amount = match ticket_charge(&ctx.event, quantity) {
        Ok(amount) => amount,
        Err(error) => { return Err(error); },
    };
    if ctx.payer_accepted_mint_ata.holding_of(&ctx.authority, &ctx.event.accepted_mint) == 0 {
        return Err(ErrorCode::InsufficientBalance);
    }
    let mut payer = ctx.payer_accepted_mint_ata;
    let mut vault = ctx.profits_vault;
    match transfer(&mut payer, &mut vault, amount, &ctx.authority) {
        Ok(()) => {},
        Err(error) => { return Err(error); },
    }
    ctx.payer_accepted_mint_ata = payer;
    ctx.profits_vault = vault;
    Ok(())
}

/// On an active event a purchase fails for the price exactly when the price exceeds 64 bits,
/// and a purchase that succeeds moves exactly the price: out of the buyer's custody, into the
/// profits vault, and nothing else changes.
pub proof fn lemma_buy_tickets_moves_the_price(ctx: BuyTickets, quantity: u64)
    requires
        ctx.wf(),
        ctx.event.is_active,
    ensures
        buy_tickets_result(ctx, quantity) == Err::<(), ErrorCode>(ErrorCode::PriceOverflow)
            <==> ctx.event.ticket_price * quantity > u64::MAX,
        buy_tickets_result(ctx, quantity) is Ok ==> {
            let after = buy_tickets_after(ctx, quantity);
            &&& after.payer_accepted_mint_ata.amount == ctx.payer_accepted_mint_ata.amount
                - ctx.event.ticket_price * quantity
            &&& after.profits_vault.amount == ctx.profits_vault.amount + ctx.event.ticket_price
                * quantity
            &&& after.event == ctx.event
            &&& after.authority == ctx.authority
            &&& after.payer_accepted_mint_ata.owner == ctx.payer_accepted_mint_ata.owner
            &&& after.payer_accepted_mint_ata.mint == ctx.payer_accepted_mint_ata.mint
            &&& after.profits_vault.owner == ctx.profits_vault.owner
            &&& after.profits_vault.mint == ctx.profits_vault.mint
        },
{
}

/// On a closed event every purchase fails with `EventClosed` and changes nothing.
pub proof fn lemma_buy_tickets_closed(ctx: BuyTickets, quantity: u64)
    requires
        !ctx.event.is_active,
    ensures
        buy_tickets_result(ctx, quantity) == Err::<(), ErrorCode>(ErrorCode::EventClosed),
        buy_tickets_after(ctx, quantity) == ctx,
{
}

} // verus!
