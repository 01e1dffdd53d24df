use crate::identity::Identity;
use vstd::prelude::*;
use vstd::utf8::encode_utf8;

verus! {

/// The label from which the address of an event is derived, together with its authority.
pub const SEED_EVENT: &'static str = "event";

/// The label from which the address of an event's token type is derived.
pub const SEED_EVENT_MINT: &'static str = "event_mint";

/// The label from which the address of an event's treasury vault is derived.
pub const SEED_TREASURY_VAULT: &'static str = "treasury_vault";

/// The label from which the address of an event's profits vault is derived.
pub const SEED_PROFITS_VAULT: &'static str = "profits_vault";

/// The longest name of an event, in bytes of its UTF-8 encoding.
pub const MAX_NAME_LEN: usize = 40;

/// The record of one ticketed, sponsorable happening, bound to one authority.
#[derive(Clone, Debug, PartialEq, Eq)]
pub struct Event {
    /// The human label, of at most [`MAX_NAME_LEN`] bytes.
    pub name: String,
    /// The price of one ticket, in base units of the accepted token.
    pub ticket_price: u64,
    /// Whether tickets are on sale.
    pub is_active: bool,
    /// The quantity sponsored so far.
    pub sponsors: u64,
    /// The identity that created the event and alone may close it or withdraw its treasury.
    pub authority: Identity,
    /// The token type accepted as payment.
    pub accepted_mint: Identity,
    /// The bump of the event's own address.
    pub event_bump: u8,
    /// The bump of the address of the event's token type.
    pub event_mint_bump: u8,
    /// The bump of the address of the treasury vault.
    pub treasury_vault_bump: u8,
    /// The bump of the address of the profits vault.
    pub profits_vault_bump: u8,
}

/// A name is short enough for an event record.
pub open spec fn name_fits(name: Seq<char>) -> bool {
    encode_utf8(name).len() <= MAX_NAME_LEN
}

/// Tells whether `name` is short enough for an event record.
pub fn check_name(name: &str) -> (fits: bool)
    ensures
        fits == name_fits(name@),
{
    name.as_bytes().len() <= MAX_NAME_LEN
}

impl Event {
    /// What every operation keeps of an event: its price, its accepted token, its authority,
    /// its name and its bumps are those of `before`; it is not reopened, and its sponsorship
    /// count is not lowered.
    pub open spec fn follows(self, before: Event) -> bool {
        &&& self.name == before.name
        &&& self.ticket_price == before.ticket_price
        &&& self.authority == before.authority
        &&& self.accepted_mint == before.accepted_mint
        &&& self.event_bump == before.event_bump
        &&& self.event_mint_bump == before.event_mint_bump
        &&& self.treasury_vault_bump == before.treasury_vault_bump
        &&& self.profits_vault_bump == before.profits_vault_bump
        &&& (self.is_active ==> before.is_active)
        &&& self.sponsors >= before.sponsors
    }
}

} // verus!
