use event_manager::token::{mint_to, transfer, Mint, TokenAccount};
use event_manager::{ErrorCode, Identity};

fn id(tag: u8) -> Identity {
    Identity::new([tag; 32])
}

#[test]
fn identity_equality_is_by_bytes() {
    let mut bytes = [5u8; 32];
    assert_eq!(Identity::new(bytes), id(5));
    bytes[31] = 6;
    assert_ne!(Identity::new(bytes), id(5));
    bytes[31] = 5;
    bytes[0] = 6;
    assert_ne!(Identity::new(bytes), id(5));
    assert_eq!(Identity::new(bytes).bytes, bytes);
}

#[test]
fn identity_to_vec_gives_the_bytes_in_order() {
    let mut bytes = [0u8; 32];
    for (i, byte) in bytes.iter_mut().enumerate() {
        *byte = i as u8;
    }
    let expected: Vec<u8> = (0..32u8).collect();
    assert_eq!(Identity::new(bytes).to_vec(), expected);
}

#[test]
fn new_account_is_empty() {
    assert_eq!(
        TokenAccount::new(id(2), id(9)),
        TokenAccount { mint: id(2), owner: id(9), amount: 0 }
    );
}

#[test]
fn holding_of_is_the_amount_in_own_custody_only() {
    let account = TokenAccount { mint: id(2), owner: id(9), amount: 70 };
    assert_eq!(account.holding_of(&id(9), &id(2)), 70);
    assert_eq!(account.holding_of(&id(8), &id(2)), 0);
    assert_eq!(account.holding_of(&id(9), &id(3)), 0);
}

#[test]
fn transfer_moves_the_amount() {
    let mut from = TokenAccount { mint: id(2), owner: id(9), amount: 70 };
    let mut to = TokenAccount { mint: id(2), owner: id(10), amount: 5 };
    assert_eq!(transfer(&mut from, &mut to, 30, &id(9)), Ok(()));
    assert_eq!(from, TokenAccount { mint: id(2), owner: id(9), amount: 40 });
    assert_eq!(to, TokenAccount { mint: id(2), owner: id(10), amount: 35 });
    assert_eq!(transfer(&mut from, &mut to, 40, &id(9)), Ok(()));
    assert_eq!(from.amount, 0);
    assert_eq!(to.amount, 75);
}

#[test]
fn transfer_beyond_balance_is_refused() {
    let mut from = TokenAccount { mint: id(2), owner: id(9), amount: 70 };
    let mut to = TokenAccount { mint: id(2), owner: id(10), amount: 5 };
    assert_eq!(transfer(&mut from, &mut to, 71, &id(9)), Err(ErrorCode::InsufficientBalance));
    assert_eq!(from.amount, 70);
    assert_eq!(to.amount, 5);
}

#[test]
fn transfer_by_a_stranger_is_refused() {
    let mut from = TokenAccount { mint: id(2), owner: id(9), amount: 70 };
    let mut to = TokenAccount { mint: id(2), owner: id(10), amount: 5 };
    assert_eq!(transfer(&mut from, &mut to, 1, &id(10)), Err(ErrorCode::Unauthorized));
    assert_eq!(transfer(&mut from, &mut to, 71, &id(10)), Err(ErrorCode::Unauthorized));
    assert_eq!(from.amount, 70);
    assert_eq!(to.amount, 5);
}

#[test]
fn mint_to_raises_supply_and_balance() {
    let mut mint = Mint { key: id(4), mint_authority: id(11), supply: 10 };
    let mut to = TokenAccount { mint: id(4), owner: id(9), amount: 3 };
    assert_eq!(mint_to(&mut mint, &mut to, 25, &id(11)), Ok(()));
    assert_eq!(mint, Mint { key: id(4), mint_authority: id(11), supply: 35 });
    assert_eq!(to, TokenAccount { mint: id(4), owner: id(9), amount: 28 });
}

#[test]
fn mint_to_by_another_than_the_authority_is_refused() {
    let mut mint = Mint { key: id(4), mint_authority: id(11), supply: 10 };
    let mut to = TokenAccount { mint: id(4), owner: id(9), amount: 3 };
    assert_eq!(mint_to(&mut mint, &mut to, 25, &id(9)), Err(ErrorCode::MintAuthorityMismatch));
    assert_eq!(mint.supply, 10);
    assert_eq!(to.amount, 3);
}

#[test]
fn error_messages() {
    assert_eq!(
        ErrorCode::EventClosed.message(),
        "You can't buy tickets, the Event is already closed"
    );
    assert_eq!(
        ErrorCode::PriceOverflow.message(),
        "Something went wrong calculating the price of the tickets, please try again later."
    );
    let all = [
        ErrorCode::AlreadyExists,
        ErrorCode::Unauthorized,
        ErrorCode::EventClosed,
        ErrorCode::PriceOverflow,
        ErrorCode::InsufficientBalance,
        ErrorCode::InsufficientTreasuryBalance,
        ErrorCode::MintAuthorityMismatch,
        ErrorCode::InsufficientFunding,
    ];
    for (i, first) in all.iter().enumerate() {
        assert!(!first.message().is_empty());
        for second in all.iter().skip(i + 1) {
            assert_ne!(first.message(), second.message());
        }
    }
}

#[test]
fn ticket_charge_prices_the_purchase() {
    let event = event_manager::Event {
        name: String::from("Conf"),
        ticket_price: 100,
        is_active: true,
        sponsors: 0,
        authority: id(1),
        accepted_mint: id(2),
        event_bump: 255,
        event_mint_bump: 255,
        treasury_vault_bump: 255,
        profits_vault_bump: 255,
    };
    let charge = event_manager::instructions::buy_tickets::ticket_charge;
    assert_eq!(charge(&event, 3), Ok(300));
    assert_eq!(charge(&event, 0), Ok(0));
    assert_eq!(charge(&event, u64::MAX / 100), Ok(u64::MAX / 100 * 100));
    assert_eq!(charge(&event, u64::MAX / 100 + 1), Err(ErrorCode::PriceOverflow));
    let closed = event_manager::Event { is_active: false, ..event };
    assert_eq!(charge(&closed, 3), Err(ErrorCode::EventClosed));
}
