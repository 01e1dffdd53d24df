pub mod buy_tickets;
pub mod close_event;
pub mod create_event;
pub mod sponsor_event;
pub mod withdraw_funds;

pub use buy_tickets::{buy_tickets, BuyTickets};
pub use close_event::{close_event, CloseEvent};
pub use create_event::{create_event, CreateEvent};
pub use sponsor_event::{sponsor_event, SponsorEvent};
pub use withdraw_funds::{withdraw_funds, WithdrawFunds};
