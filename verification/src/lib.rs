pub mod address;
pub mod error;
pub mod event;
pub mod identity;
pub mod instructions;
pub mod token;

pub use error::ErrorCode;
pub use event::Event;
pub use identity::Identity;
pub use instructions::{
    buy_tickets, close_event, create_event, sponsor_event, withdraw_funds, BuyTickets, CloseEvent,
    CreateEvent, SponsorEvent, WithdrawFunds,
};
