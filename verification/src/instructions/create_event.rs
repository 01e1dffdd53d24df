use crate::address::{addresses_exist, derive_event_addresses, event_scope, EventAddresses};
use crate::error::ErrorCode;
use crate::event::{name_fits, Event};
use crate::identity::Identity;
use crate::instructions::sponsor_event::{sponsor_event_result, SponsorEvent};
use crate::instructions::withdraw_funds::{withdraw_funds_result, WithdrawFunds};
use crate::token::{Mint, TokenAccount};
use vstd::prelude::*;

verus! {

/// What the creation of an event touches.
#[derive(Clone, Debug, PartialEq, Eq)]
pub struct CreateEvent {
    /// The record of the authority's event, where one exists already.
    pub event: Option<Event>,
    /// The event's token type, where it exists already.
    pub event_mint: Option<Mint>,
    /// The event's treasury vault, where it exists already.
    pub treasury_vault: Option<TokenAccount>,
    /// The event's profits vault, where it exists already.
    pub profits_vault: Option<TokenAccount>,
    /// The token type that the event accepts as payment.
    pub accepted_mint: Mint,
    /// The creator, who pays for the allocation.
    pub authority: Identity,
    /// The addresses of the event and of its resources.
    pub addresses: EventAddresses,
    /// What the creator has to pay with.
    pub payer_funds: u64,
    /// What the allocation of the event and of its resources costs.
    pub allocation_cost: u64,
}

impl CreateEvent {
    /// What the creation of the first event of `authority` under the program `program_id`
    /// touches: nothing exists yet, and the addresses are those that the ledger derives for
    /// the authority. The result is `None` exactly where the ledger has no address for the
    /// event or for one of its resources.
    pub fn new(
        program_id: &Identity,
        authority: Identity,
        accepted_mint: Mint,
        payer_funds: u64,
        allocation_cost: u64,
    ) -> (prepared: Option<CreateEvent>)
        ensures
            prepared is Some <==> addresses_exist(program_id@, authority@),
            prepared matches Some(ctx) ==> {
                &&& ctx.event is None
                &&& ctx.event_mint is None
                &&& ctx.treasury_vault is None
                &&& ctx.profits_vault is None
                &&& ctx.accepted_mint == accepted_mint
                &&& ctx.authority == authority
                &&& ctx.payer_funds == payer_funds
                &&& ctx.allocation_cost == allocation_cost
                &&& ctx.addresses.derived_for(*program_id, authority)
                &&& ctx.addresses.signs_for(*program_id, authority)
                &&& ctx.wf()
            },
    {
        match derive_event_addresses(program_id, &authority) {
            Some(addresses) => Some(
                CreateEvent {
                    event: None,
                    event_mint: None,
                    treasury_vault: None,
                    profits_vault: None,
                    accepted_mint,
                    authority,
                    addresses,
                    payer_funds,
                    allocation_cost,
                },
            ),
            None => None,
        }
    }

    /// An event and its resources exist together: without the record there is no token type
    /// and no vault.
    pub open spec fn wf(self) -> bool {
        self.event is None ==> {
            &&& self.event_mint is None
            &&& self.treasury_vault is None
            &&& self.profits_vault is None
        }
    }

    /// Tells whether the accounts fit together: [`CreateEvent::wf`].
    pub fn is_valid(&self) -> (ok: bool)
        ensures
            ok == self.wf(),
    {
        self.event.is_some() || (self.event_mint.is_none() && self.treasury_vault.is_none()
            && self.profits_vault.is_none())
    }

    /// The record of a new event.
    pub open spec fn new_event(self, name: String, ticket_price: u64) -> Event {
        Event {
            name,
            ticket_price,
            is_active: true,
            sponsors: 0,
            authority: self.authority,
            accepted_mint: self.accepted_mint.key,
            event_bump: self.addresses.event_bump,
            event_mint_bump: self.addresses.event_mint_bump,
            treasury_vault_bump: self.addresses.treasury_vault_bump,
            profits_vault_bump: self.addresses.profits_vault_bump,
        }
    }

    /// The token type of a new event: nothing of it exists yet, and the event alone may mint
    /// it.
    pub open spec fn new_event_mint(self) -> Mint {
        Mint { key: self.addresses.event_mint, mint_authority: self.addresses.event, supply: 0 }
    }

    /// A vault of a new event: an empty custody of the accepted token, owned by the event.
    pub open spec fn new_vault(self) -> TokenAccount {
        TokenAccount { mint: self.accepted_mint.key, owner: self.addresses.event, amount: 0 }
    }
}

/// The outcome of a creation: the authority must have no event yet, and the creator must be
/// able to pay for the allocation.
pub open spec fn create_event_result(ctx: CreateEvent) -> Result<(), ErrorCode> {
    if ctx.event is Some {
        Err(ErrorCode::AlreadyExists)
    } else if ctx.payer_funds < ctx.allocation_cost {
        Err(ErrorCode::InsufficientFunding)
    } else {
        Ok(())
    }
}

/// The accounts after a creation: where it succeeds, the record, the token type and the two
/// vaults exist, and the creator has paid for them; where it fails, nothing has changed.
pub open spec fn create_event_after(
    ctx: CreateEvent,
    name: String,
    ticket_price: u64,
) -> CreateEvent {
    if create_event_result(ctx) is Ok {
        CreateEvent {
            event: Some(ctx.new_event(name, ticket_price)),
            event_mint: Some(ctx.new_event_mint()),
            treasury_vault: Some(ctx.new_vault()),
            profits_vault: Some(ctx.new_vault()),
            payer_funds: (ctx.payer_funds - ctx.allocation_cost) as u64,
            ..ctx
        }
    } else {
        ctx
    }
}

/// Creates the event of the authority, active and without sponsors, together with its token
/// type and its two empty vaults, all in the custody of the event itself.
pub fn create_event(ctx: &mut CreateEvent, name: String, ticket_price: u64) -> (result: Result<
    (),
    ErrorCode,
>)
    requires
        old(ctx).wf(),
        name_fits(name@),
    ensures
        result == create_event_result(*old(ctx)),
        *final(ctx) == create_event_after(*old(ctx), name, ticket_price),
        final(ctx).wf(),
{
    if ctx.event.is_some() {
        return Err(ErrorCode::AlreadyExists);
    }
    if ctx.payer_funds < ctx.allocation_cost {
        return Err(ErrorCode::InsufficientFunding);
    }
    let event_key = ctx.addresses.event;
    let accepted = ctx.accepted_mint.key;
    ctx.event = Some(
        Event {
            name,
            ticket_price,
            is_active: true,
            sponsors: 0,
            authority: ctx.authority,
            accepted_mint: accepted,
            event_bump: ctx.addresses.event_bump,
            event_mint_bump: ctx.addresses.event_mint_bump,
            treasury_vault_bump: ctx.addresses.treasury_vault_bump,
            profits_vault_bump: ctx.addresses.profits_vault_bump,
        },
    );
    ctx.event_mint = Some(
        Mint { key: ctx.addresses.event_mint, mint_authority: event_key, supply: 0 },
    );
    ctx.treasury_vault = Some(TokenAccount::new(accepted, event_key));
    ctx.profits_vault = Some(TokenAccount::new(accepted, event_key));
    ctx.payer_funds = ctx.payer_funds - ctx.allocation_cost;
    Ok(())
}

/// An event that was created is active, has no sponsors, and has the name, the price, the
/// authority and the accepted token that it was created with; its vaults are empty and
/// nothing of its token exists.
pub proof fn lemma_created_event_is_open(ctx: CreateEvent, name: String, ticket_price: u64)
    requires
        create_event_result(ctx) is Ok,
    ensures
        ({
            let after = create_event_after(ctx, name, ticket_price);
            &&& after.event matches Some(event) && {
                &&& event.is_active
                &&& event.sponsors == 0
                &&& event.name == name
                &&& event.ticket_price == ticket_price
                &&& event.authority == ctx.authority
                &&& event.accepted_mint == ctx.accepted_mint.key
            }
            &&& after.event_mint matches Some(mint) && mint.supply == 0
            &&& after.treasury_vault matches Some(vault) && vault.amount == 0 && vault.mint
                == ctx.accepted_mint.key
            &&& after.profits_vault matches Some(vault) && vault.amount == 0 && vault.mint
                == ctx.accepted_mint.key
        }),
{
}

/// An event created at the addresses derived for its authority is the identity under which
/// it signs: whatever has happened to it since, its signing scope under the same program is
/// its own address, which is the mint authority of its token and the owner of its vaults.
pub proof fn lemma_created_event_signs_for_itself(
    ctx: CreateEvent,
    name: String,
    ticket_price: u64,
    program_id: Identity,
    event: Event,
)
    requires
        ctx.addresses.signs_for(program_id, ctx.authority),
        event.follows(ctx.new_event(name, ticket_price)),
    ensures
        event_scope(program_id, event) == Some(ctx.addresses.event@),
        event_scope(program_id, event) == Some(ctx.new_event_mint().mint_authority@),
        event_scope(program_id, event) == Some(ctx.new_vault().owner@),
{
}

/// An event created at the addresses derived for its authority can always mint its own
/// token: however often it has been sponsored or closed since, a sponsorship of it under the
/// same program is never refused with `MintAuthorityMismatch`.
pub proof fn lemma_created_event_mints_its_token(
    ctx: CreateEvent,
    name: String,
    ticket_price: u64,
    sponsorship: SponsorEvent,
    quantity: u64,
)
    requires
        ctx.addresses.signs_for(sponsorship.program_id, ctx.authority),
        sponsorship.event.follows(ctx.new_event(name, ticket_price)),
        sponsorship.event_mint.mint_authority == ctx.new_event_mint().mint_authority,
    ensures
        sponsor_event_result(
            sponsorship,
            quantity,
            event_scope(sponsorship.program_id, sponsorship.event),
        ) != Err::<(), ErrorCode>(ErrorCode::MintAuthorityMismatch),
{
    lemma_created_event_signs_for_itself(
        ctx,
        name,
        ticket_price,
        sponsorship.program_id,
        sponsorship.event,
    );
}

/// An event created at the addresses derived for its authority controls its treasury: its
/// authority can withdraw any amount that the vault holds.
pub proof fn lemma_created_event_pays_its_authority(
    ctx: CreateEvent,
    name: String,
    ticket_price: u64,
    withdrawal: WithdrawFunds,
    amount: u64,
)
    requires
        ctx.addresses.signs_for(withdrawal.program_id, ctx.authority),
        withdrawal.event.follows(ctx.new_event(name, ticket_price)),
        withdrawal.treasury_vault.owner == ctx.new_vault().owner,
        withdrawal.authority == ctx.authority,
        amount <= withdrawal.treasury_vault.amount,
    ensures
        withdraw_funds_result(
            withdrawal,
            amount,
            event_scope(withdrawal.program_id, withdrawal.event),
        ) is Ok,
{
    lemma_created_event_signs_for_itself(
        ctx,
        name,
        ticket_price,
        withdrawal.program_id,
        withdrawal.event,
    );
}

} // verus!
