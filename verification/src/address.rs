use crate::event::{Event, SEED_EVENT, SEED_EVENT_MINT, SEED_PROFITS_VAULT, SEED_TREASURY_VAULT};
use crate::identity::Identity;
use anchor_lang::prelude::Pubkey;
use vstd::prelude::*;
use vstd::slice::slice_to_vec;
use vstd::string::StringSliceAdditionalSpecFns;

verus! {

/// The address that the ledger derives for a program from a list of seeds, the last of which
/// is a bump; `None` where the seeds give no address.
pub uninterp spec fn program_address(seeds: Seq<Seq<u8>>, program_id: Seq<u8>) -> Option<Seq<u8>>;

/// The address and the bump that the ledger finds for a program from a list of seeds without
/// a bump; `None` where no bump gives an address.
pub uninterp spec fn derived_address(seeds: Seq<Seq<u8>>, program_id: Seq<u8>) -> Option<
    (Seq<u8>, u8),
>;

/// The bytes of each seed of a list.
pub open spec fn seed_bytes(seeds: Seq<Vec<u8>>) -> Seq<Seq<u8>> {
    seeds.map_values(|seed: Vec<u8>| seed@)
}

/// The seeds of an event's own address: the event label and the authority.
pub open spec fn event_seeds(authority: Seq<u8>) -> Seq<Seq<u8>> {
    seq![SEED_EVENT.spec_bytes(), authority]
}

/// The seeds of the address of one of an event's resources: its label and the event's
/// address.
pub open spec fn resource_seeds(label: &str, event_key: Seq<u8>) -> Seq<Seq<u8>> {
    seq![label.spec_bytes(), event_key]
}

/// The seeds with which an event signs for itself: those of its address, then its bump.
pub open spec fn signer_seeds(authority: Seq<u8>, bump: u8) -> Seq<Seq<u8>> {
    event_seeds(authority).push(seq![bump])
}

/// The identity under which `event` signs for itself under the program `program_id`: the
/// address that the ledger derives from its signer seeds, if any.
pub open spec fn event_scope(program_id: Identity, event: Event) -> Option<Seq<u8>> {
    program_address(signer_seeds(event.authority@, event.event_bump), program_id@)
}

/// The bytes of a signing scope.
pub open spec fn scope_bytes(scope: Option<Identity>) -> Option<Seq<u8>> {
    match scope {
        Some(key) => Some(key@),
        None => None,
    }
}

/// The addresses of an event and of the three resources it owns, each with its bump.
#[derive(Clone, Copy, Debug, PartialEq, Eq)]
pub struct EventAddresses {
    /// The address of the event record.
    pub event: Identity,
    /// The address of the event's token type.
    pub event_mint: Identity,
    /// The address of the treasury vault.
    pub treasury_vault: Identity,
    /// The address of the profits vault.
    pub profits_vault: Identity,
    /// The bump of the event's address.
    pub event_bump: u8,
    /// The bump of the token type's address.
    pub event_mint_bump: u8,
    /// The bump of the treasury vault's address.
    pub treasury_vault_bump: u8,
    /// The bump of the profits vault's address.
    pub profits_vault_bump: u8,
}

impl EventAddresses {
    /// These are the addresses that the ledger derives for the event of `authority` under
    /// the program `program_id`: the event's from the event label and the authority, each
    /// resource's from its label and the event's address.
    pub open spec fn derived_for(self, program_id: Identity, authority: Identity) -> bool {
        &&& derived_address(event_seeds(authority@), program_id@) == Some(
            (self.event@, self.event_bump),
        )
        &&& derived_address(resource_seeds(SEED_EVENT_MINT, self.event@), program_id@) == Some(
            (self.event_mint@, self.event_mint_bump),
        )
        &&& derived_address(resource_seeds(SEED_TREASURY_VAULT, self.event@), program_id@)
            == Some((self.treasury_vault@, self.treasury_vault_bump))
        &&& derived_address(resource_seeds(SEED_PROFITS_VAULT, self.event@), program_id@) == Some(
            (self.profits_vault@, self.profits_vault_bump),
        )
    }

    /// Signing with the seeds and the bump of the event of `authority` gives the event's own
    /// address: the event is the identity under which it signs.
    pub open spec fn signs_for(self, program_id: Identity, authority: Identity) -> bool {
        program_address(signer_seeds(authority@, self.event_bump), program_id@) == Some(
            self.event@,
        )
    }
}

/// Whether the ledger derives an address for the event of `authority` and for each of its
/// three resources.
pub open spec fn addresses_exist(program_id: Seq<u8>, authority: Seq<u8>) -> bool {
    derived_address(event_seeds(authority), program_id) matches Some((event_key, _)) && {
        &&& derived_address(resource_seeds(SEED_EVENT_MINT, event_key), program_id) is Some
        &&& derived_address(resource_seeds(SEED_TREASURY_VAULT, event_key), program_id) is Some
        &&& derived_address(resource_seeds(SEED_PROFITS_VAULT, event_key), program_id) is Some
    }
}

/// `Pubkey::create_program_address` of solana-program, reached through anchor-lang: the
/// result is the address that the ledger derives from these seeds for this program, or
/// `None` where the call returns an error (too many seeds, a seed that is too long, or seeds
/// that give no valid address).
#[verifier::external_body]
fn create_program_address(seeds: &Vec<Vec<u8>>, program_id: &Identity) -> (address: Option<
    Identity,
>)
    ensures
        match address {
            Some(key) => program_address(seed_bytes(seeds@), program_id@) == Some(key@),
            None => program_address(seed_bytes(seeds@), program_id@) is None,
        },
{
    let parts: Vec<&[u8]> = seeds.iter().map(|seed| seed.as_slice()).collect();
    match Pubkey::create_program_address(&parts, &Pubkey::new_from_array(program_id.bytes)) {
        Ok(key) => Some(Identity { bytes: key.to_bytes() }),
        Err(_) => None,
    }
}

/// `Pubkey::try_find_program_address` of solana-program, reached through anchor-lang: the
/// result is the address and the bump that the ledger finds for these seeds and this
/// program, or `None` where it finds none. The address found is the one that
/// `Pubkey::create_program_address` gives for the same seeds followed by the bump.
#[verifier::external_body]
fn try_find_program_address(seeds: &Vec<Vec<u8>>, program_id: &Identity) -> (found: Option<
    (Identity, u8),
>)
    ensures
        match found {
            Some((key, bump)) => {
                &&& derived_address(seed_bytes(seeds@), program_id@) == Some((key@, bump))
                &&& program_address(seed_bytes(seeds@).push(seq![bump]), program_id@) == Some(
                    key@,
                )
            },
            None => derived_address(seed_bytes(seeds@), program_id@) is None,
        },
{
    let parts: Vec<&[u8]> = seeds.iter().map(|seed| seed.as_slice()).collect();
    match Pubkey::try_find_program_address(&parts, &Pubkey::new_from_array(program_id.bytes)) {
        Some((key, bump)) => Some((Identity { bytes: key.to_bytes() }, bump)),
        None => None,
    }
}

/// Builds the two seeds `label`, `key`.
fn labelled_seeds(label: &str, key: &Identity) -> (seeds: Vec<Vec<u8>>)
    ensures
        seed_bytes(seeds@) == seq![label.spec_bytes(), key@],
{
    let mut seeds: Vec<Vec<u8>> = Vec::new();
    seeds.push(slice_to_vec(label.as_bytes()));
    seeds.push(key.to_vec());
    assert(seed_bytes(seeds@) =~= seq![label.spec_bytes(), key@]);
    seeds
}

/// The seeds with which `event` signs for itself: the event label, the authority's address
/// and the event's bump.
pub fn event_signer_seeds(event: &Event) -> (seeds: Vec<Vec<u8>>)
    ensures
        seed_bytes(seeds@) == signer_seeds(event.authority@, event.event_bump),
{
    let mut seeds = labelled_seeds(SEED_EVENT, &event.authority);
    let mut bump: Vec<u8> = Vec::new();
    bump.push(event.event_bump);
    seeds.push(bump);
    assert(seed_bytes(seeds@) =~= signer_seeds(event.authority@, event.event_bump));
    seeds
}

/// The identity under which `event` signs for itself under the program `program_id`: the
/// address derived from its signer seeds, or `None` where they give no address.
pub fn signing_scope(program_id: &Identity, event: &Event) -> (scope: Option<Identity>)
    ensures
        scope_bytes(scope) == event_scope(*program_id, *event),
{
    let seeds = event_signer_seeds(event);
    create_program_address(&seeds, program_id)
}

/// Derives the addresses of the event of `authority` and of its three resources under the
/// program `program_id`. The result is `None` exactly where the ledger has no address for
/// one of them.
pub fn derive_event_addresses(program_id: &Identity, authority: &Identity) -> (found: Option<
    EventAddresses,
>)
    ensures
        found is Some <==> addresses_exist(program_id@, authority@),
        found matches Some(addresses) ==> {
            &&& addresses.derived_for(*program_id, *authority)
            &&& addresses.signs_for(*program_id, *authority)
        },
{
    let event_seeds = labelled_seeds(SEED_EVENT, authority);
    let (event, event_bump) = match try_find_program_address(&event_seeds, program_id) {
        Some(found) => found,
        None => { return None; },
    };
    let mint_seeds = labelled_seeds(SEED_EVENT_MINT, &event);
    let (event_mint, event_mint_bump) = match try_find_program_address(&mint_seeds, program_id) {
        Some(found) => found,
        None => { return None; },
    };
    let treasury_seeds = labelled_seeds(SEED_TREASURY_VAULT, &event);
    let (treasury_vault, treasury_vault_bump) = match try_find_program_address(
        &treasury_seeds,
        program_id,
    ) {
        Some(found) => found,
        None => { return None; },
    };
    let profits_seeds = labelled_seeds(SEED_PROFITS_VAULT, &event);
    let (profits_vault, profits_vault_bump) = match try_find_program_address(
        &profits_seeds,
        program_id,
    ) {
        Some(found) => found,
        None => { return None; },
    };
    Some(
        EventAddresses {
            event,
            event_mint,
            treasury_vault,
            profits_vault,
            event_bump,
            event_mint_bump,
            treasury_vault_bump,
            profits_vault_bump,
        },
    )
}

} // verus!
