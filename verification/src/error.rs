use vstd::prelude::*;

verus! {

/// Why an operation was rejected. Every rejection leaves all state as it was.
#[derive(Clone, Copy, Debug, PartialEq, Eq, Structural, Hash)]
pub enum ErrorCode {
    /// An event for this authority is already present.
    AlreadyExists,
    /// The caller is not the event's authority, or does not control the custody it spends from.
    Unauthorized,
    /// Tickets cannot be bought: the event is closed.
    EventClosed,
    /// The price of the tickets does not fit in 64 bits.
    PriceOverflow,
    /// The payer's custody does not cover the amount.
    InsufficientBalance,
    /// The treasury vault holds less than the amount to withdraw.
    InsufficientTreasuryBalance,
    /// The event's signing scope is not the mint authority of the event token.
    MintAuthorityMismatch,
    /// The caller cannot pay for the allocation of the event's records.
    InsufficientFunding,
}

impl ErrorCode {
    /// The text shown to a user for each kind of rejection.
    pub open spec fn message_text(self) -> Seq<char> {
        match self {
            ErrorCode::AlreadyExists => "An Event already exists for this authority"@,
            ErrorCode::Unauthorized => "Only the authority of the Event can do this"@,
            ErrorCode::EventClosed => "You can't buy tickets, the Event is already closed"@,
            ErrorCode::PriceOverflow => "Something went wrong calculating the price of the tickets, please try again later."@,
            ErrorCode::InsufficientBalance => "The payer doesn't hold enough of the accepted token"@,
            ErrorCode::InsufficientTreasuryBalance => "The treasury vault doesn't hold the amount to withdraw"@,
            ErrorCode::MintAuthorityMismatch => "The Event is not the authority of its token"@,
            ErrorCode::InsufficientFunding => "The payer can't fund the accounts of the Event"@,
        }
    }

    /// The message of this error.
    pub fn message(&self) -> (text: &'static str)
        ensures
            text@ == self.message_text(),
    {
        match self {
            ErrorCode::AlreadyExists => "An Event already exists for this authority",
            ErrorCode::Unauthorized => "Only the authority of the Event can do this",
            ErrorCode::EventClosed => "You can't buy tickets, the Event is already closed",
            ErrorCode::PriceOverflow => "Something went wrong calculating the price of the tickets, please try again later.",
            ErrorCode::InsufficientBalance => "The payer doesn't hold enough of the accepted token",
            ErrorCode::InsufficientTreasuryBalance => "The treasury vault doesn't hold the amount to withdraw",
            ErrorCode::MintAuthorityMismatch => "The Event is not the authority of its token",
            ErrorCode::InsufficientFunding => "The payer can't fund the accounts of the Event",
        }
    }
}

} // verus!
