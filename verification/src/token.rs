use crate::error::ErrorCode;
use crate::identity::Identity;
use vstd::prelude::*;

verus! {

/// A token type: who may mint it and how much of it exists.
#[derive(Clone, Copy, Debug, PartialEq, Eq, Hash)]
pub struct Mint {
    /// The identity of the token type.
    pub key: Identity,
    /// The only identity that may mint new units.
    pub mint_authority: Identity,
    /// The units in existence.
    pub supply: u64,
}

/// A custody account: an amount of one token type held for one owner.
#[derive(Clone, Copy, Debug, PartialEq, Eq, Hash)]
pub struct TokenAccount {
    /// The token type held.
    pub mint: Identity,
    /// The identity that authorizes spending from this account.
    pub owner: Identity,
    /// The units held.
    pub amount: u64,
}

impl TokenAccount {
    /// An empty custody account of `mint` for `owner`.
    pub fn new(mint: Identity, owner: Identity) -> (account: TokenAccount)
        ensures
            account == (TokenAccount { mint, owner, amount: 0 }),
    {
        TokenAccount { mint, owner, amount: 0 }
    }

    /// What `holder` holds of `mint` in this account: its amount where the account is the
    /// holder's own custody of that token type, and nothing otherwise.
    pub open spec fn holding(self, holder: Identity, mint: Identity) -> nat {
        if self.owner == holder && self.mint == mint {
            self.amount as nat
        } else {
            0
        }
    }

    /// Computes [`TokenAccount::holding`].
    pub fn holding_of(&self, holder: &Identity, mint: &Identity) -> (held: u64)
        ensures
            held == self.holding(*holder, *mint),
    {
        if self.owner == *holder && self.mint == *mint {
            self.amount
        } else {
            0
        }
    }
}

/// Two accounts can exchange units: they hold the same token type, so their amounts are
/// parts of one supply, which fits in 64 bits.
pub open spec fn same_token(from: TokenAccount, to: TokenAccount) -> bool {
    &&& from.mint == to.mint
    &&& from.amount + to.amount <= u64::MAX
}

/// The outcome of a transfer of `amount` out of `from`, authorized by `authorized_by`.
pub open spec fn transfer_result(
    from: TokenAccount,
    amount: u64,
    authorized_by: Identity,
) -> Result<(), ErrorCode> {
    if authorized_by != from.owner {
        Err(ErrorCode::Unauthorized)
    } else if from.amount < amount {
        Err(ErrorCode::InsufficientBalance)
    } else {
        Ok(())
    }
}

/// `account` with `amount` units taken out.
pub open spec fn debited(account: TokenAccount, amount: u64) -> TokenAccount {
    TokenAccount { amount: (account.amount - amount) as u64, ..account }
}

/// `account` with `amount` units put in.
pub open spec fn credited(account: TokenAccount, amount: u64) -> TokenAccount {
    TokenAccount { amount: (account.amount + amount) as u64, ..account }
}

/// `mint` with `amount` more units in existence.
pub open spec fn issued(mint: Mint, amount: u64) -> Mint {
    Mint { supply: (mint.supply + amount) as u64, ..mint }
}

/// Moves `amount` units from `from` to `to`. The transfer is refused, and nothing moves,
/// when `authorized_by` is not the owner of `from` or when `from` holds less than `amount`.
pub fn transfer(
    from: &mut TokenAccount,
    to: &mut TokenAccount,
    amount: u64,
    authorized_by: &Identity,
) -> (result: Result<(), ErrorCode>)
    requires
        same_token(*old(from), *old(to)),
    ensures
        result == transfer_result(*old(from), amount, *authorized_by),
        result is Ok ==> *final(from) == debited(*old(from), amount) && *final(to) == credited(
            *old(to),
            amount,
        ),
        result is Err ==> *final(from) == *old(from) && *final(to) == *old(to),
        result is Ok ==> final(from).amount + final(to).amount == old(from).amount + old(
            to,
        ).amount,
{
    if *authorized_by != from.owner {
        return Err(ErrorCode::Unauthorized);
    }
    if from.amount < amount {
        return Err(ErrorCode::InsufficientBalance);
    }
    from.amount = from.amount - amount;
    to.amount = to.amount + amount;
    Ok(())
}

/// `to` can receive `amount` newly minted units of `mint`: it holds that token type, no more
/// of it than exists, and the new supply fits in 64 bits.
pub open spec fn can_receive_minted(mint: Mint, to: TokenAccount, amount: u64) -> bool {
    &&& to.mint == mint.key
    &&& to.amount <= mint.supply
    &&& mint.supply + amount <= u64::MAX
}

/// The outcome of minting units of `mint`, authorized by `authorized_by`.
pub open spec fn mint_to_result(mint: Mint, authorized_by: Identity) -> Result<(), ErrorCode> {
    if authorized_by != mint.mint_authority {
        Err(ErrorCode::MintAuthorityMismatch)
    } else {
        Ok(())
    }
}

/// Brings `amount` new units of `mint` into existence, in the account `to`. The minting is
/// refused, and nothing changes, when `authorized_by` is not the mint authority.
pub fn mint_to(
    mint: &mut Mint,
    to: &mut TokenAccount,
    amount: u64,
    authorized_by: &Identity,
) -> (result: Result<(), ErrorCode>)
    requires
        can_receive_minted(*old(mint), *old(to), amount),
    ensures
        result == mint_to_result(*old(mint), *authorized_by),
        result is Ok ==> *final(mint) == issued(*old(mint), amount) && *final(to) == credited(
            *old(to),
            amount,
        ),
        result is Err ==> *final(mint) == *old(mint) && *final(to) == *old(to),
{
    if *authorized_by != mint.mint_authority {
        return Err(ErrorCode::MintAuthorityMismatch);
    }
    mint.supply = mint.supply + amount;
    to.amount = to.amount + amount;
    Ok(())
}

} // verus!
