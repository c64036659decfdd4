//! The four entity records kept by the ledger.

use vstd::prelude::*;

verus! {

/// A registered artist. `total_tickets_sold` counts paid sales across all of
/// the artist's concerts.
#[derive(Debug, Clone)]
pub struct Artist {
    pub id: u64,
    pub name: String,
    pub artist_type: String,
    pub total_tickets_sold: u32,
}

/// A registered venue. `capacity` is informational; `venue_cut_bps` is the
/// venue's share of concert revenue in basis points.
#[derive(Debug, Clone)]
pub struct Venue {
    pub id: u64,
    pub name: String,
    pub capacity: u32,
    pub venue_cut_bps: u16,
    pub next_concert_date: Option<u64>,
}

/// A scheduled concert. `tickets_issued` counts every ticket ever created for
/// it, `tickets_sold` only the paid ones. Both validation flags must be true
/// before any ticket can be issued.
#[derive(Debug, Clone, Copy)]
pub struct Concert {
    pub id: u64,
    pub artist_id: u64,
    pub venue_id: u64,
    pub date_ts: u64,
    pub ticket_price: u64,
    pub total_tickets: u32,
    pub tickets_issued: u32,
    pub validated_by_artist: bool,
    pub validated_by_venue: bool,
    pub tickets_sold: u32,
    pub revenue: u64,
    pub cashed_out: bool,
}

/// A single ticket. `owner == None` means the ticket is unclaimed and waiting
/// for its redeem code to be exchanged; `price_paid` is the ceiling for any
/// future resale.
#[derive(Debug, Clone)]
pub struct Ticket {
    pub id: u64,
    pub concert_id: u64,
    pub owner: Option<String>,
    pub used: bool,
    pub price_paid: u64,
    pub minted_by_artist: bool,
    pub redeem_code: Option<String>,
}

/// A ticket that a call to `redeem_ticket` with `code` would claim: still
/// unowned, and carrying exactly that code.
pub open spec fn redeemable(t: Ticket, code: Seq<char>) -> bool {
    &&& t.owner is None
    &&& t.redeem_code matches Some(c) && c@ == code
}

/// The ticket is currently owned by the identity `who`.
pub open spec fn owned_by(t: Ticket, who: Seq<char>) -> bool {
    t.owner matches Some(o) && o@ == who
}

} // verus!
