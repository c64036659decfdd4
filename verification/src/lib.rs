//! An in-memory ticketing ledger for live events.
//!
//! Artists and venues register, concerts are scheduled and confirmed by both
//! parties, tickets are sold, minted, or distributed under a supply cap,
//! resold under a price ceiling, consumed inside a redemption window, and
//! revenue is finally split between artist and venue.

pub mod laws;
pub mod ledger;
pub mod records;

pub use ledger::Ticketing;
pub use records::Artist;
pub use records::Concert;
pub use records::Ticket;
pub use records::Venue;
