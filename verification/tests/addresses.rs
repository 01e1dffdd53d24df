use anchor_lang::prelude::Pubkey;
use event_manager::address::{derive_event_addresses, event_signer_seeds, signing_scope};
use event_manager::event::{
    check_name, SEED_EVENT, SEED_EVENT_MINT, SEED_PROFITS_VAULT, SEED_TREASURY_VAULT,
};
use event_manager::{Event, Identity};

fn id(tag: u8) -> Identity {
    Identity::new([tag; 32])
}

fn key(identity: &Identity) -> Pubkey {
    Pubkey::new_from_array(identity.bytes)
}

fn event_of(authority: Identity, bump: u8) -> Event {
    Event {
        name: String::from("Conf"),
        ticket_price: 100,
        is_active: true,
        sponsors: 0,
        authority,
        accepted_mint: id(2),
        event_bump: bump,
        event_mint_bump: 0,
        treasury_vault_bump: 0,
        profits_vault_bump: 0,
    }
}

#[test]
fn seed_labels_are_the_documented_ones() {
    assert_eq!(SEED_EVENT, "event");
    assert_eq!(SEED_EVENT_MINT, "event_mint");
    assert_eq!(SEED_TREASURY_VAULT, "treasury_vault");
    assert_eq!(SEED_PROFITS_VAULT, "profits_vault");
}

#[test]
fn derived_addresses_are_those_of_the_ledger() {
    let program = id(7);
    let authority = id(1);
    let found = derive_event_addresses(&program, &authority).expect("addresses are found");

    let (event, event_bump) =
        Pubkey::find_program_address(&[b"event", &authority.bytes], &key(&program));
    assert_eq!(found.event.bytes, event.to_bytes());
    assert_eq!(found.event_bump, event_bump);
    assert_ne!(found.event, authority);
    assert_ne!(found.event, program);

    let (mint, mint_bump) =
        Pubkey::find_program_address(&[b"event_mint", event.as_ref()], &key(&program));
    assert_eq!(found.event_mint.bytes, mint.to_bytes());
    assert_eq!(found.event_mint_bump, mint_bump);

    let (treasury, treasury_bump) =
        Pubkey::find_program_address(&[b"treasury_vault", event.as_ref()], &key(&program));
    assert_eq!(found.treasury_vault.bytes, treasury.to_bytes());
    assert_eq!(found.treasury_vault_bump, treasury_bump);

    let (profits, profits_bump) =
        Pubkey::find_program_address(&[b"profits_vault", event.as_ref()], &key(&program));
    assert_eq!(found.profits_vault.bytes, profits.to_bytes());
    assert_eq!(found.profits_vault_bump, profits_bump);

    assert_ne!(found.treasury_vault, found.profits_vault);
    assert_ne!(found.event_mint, found.treasury_vault);
}

#[test]
fn derived_addresses_differ_between_authorities_and_programs() {
    let first = derive_event_addresses(&id(7), &id(1)).unwrap();
    let second = derive_event_addresses(&id(7), &id(3)).unwrap();
    let elsewhere = derive_event_addresses(&id(8), &id(1)).unwrap();
    assert_ne!(first.event, second.event);
    assert_ne!(first.treasury_vault, second.treasury_vault);
    assert_ne!(first.profits_vault, second.profits_vault);
    assert_ne!(first.event_mint, second.event_mint);
    assert_ne!(first.event, elsewhere.event);
    assert_eq!(first, derive_event_addresses(&id(7), &id(1)).unwrap());
}

#[test]
fn signer_seeds_are_label_authority_bump() {
    let seeds = event_signer_seeds(&event_of(id(1), 254));
    assert_eq!(seeds, vec![b"event".to_vec(), vec![1u8; 32], vec![254u8]]);
}

#[test]
fn signing_scope_is_the_event_address() {
    let program = id(7);
    let authority = id(1);
    let found = derive_event_addresses(&program, &authority).unwrap();
    let event = event_of(authority, found.event_bump);
    assert_eq!(signing_scope(&program, &event), Some(found.event));

    let direct = Pubkey::create_program_address(
        &[b"event", &authority.bytes, &[found.event_bump]],
        &key(&program),
    )
    .unwrap();
    assert_eq!(signing_scope(&program, &event).unwrap().bytes, direct.to_bytes());
}

#[test]
fn signing_scope_follows_the_ledger_for_every_bump() {
    let program = id(7);
    let authority = id(1);
    let found = derive_event_addresses(&program, &authority).unwrap();
    let mut some: u32 = 0;
    let mut none: u32 = 0;
    for bump in 0..=255u8 {
        let scope = signing_scope(&program, &event_of(authority, bump));
        let direct =
            Pubkey::create_program_address(&[b"event", &authority.bytes, &[bump]], &key(&program));
        match (scope, direct) {
            (Some(scope), Ok(direct)) => {
                assert_eq!(scope.bytes, direct.to_bytes());
                assert!(bump <= found.event_bump);
                if bump != found.event_bump {
                    assert_ne!(scope, found.event);
                }
                some += 1;
            }
            (None, Err(_)) => {
                none += 1;
            }
            (scope, direct) => panic!("bump {}: {:?} against {:?}", bump, scope, direct),
        }
    }
    assert_eq!(some + none, 256);
    assert!(some > 0);
}

#[test]
fn check_name_counts_bytes() {
    assert!(check_name(""));
    assert!(check_name("Conf"));
    assert!(check_name(&"a".repeat(40)));
    assert!(!check_name(&"a".repeat(41)));
    assert!(check_name(&"é".repeat(20)));
    assert!(!check_name(&"é".repeat(21)));
}
