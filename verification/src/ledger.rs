//! The ticketing ledger: one owned aggregate holding every entity collection,
//! with all mutation funnelled through its methods.

use crate::records::owned_by;
use crate::records::redeemable;
use crate::records::Artist;
use crate::records::Concert;
use crate::records::Ticket;
use crate::records::Venue;
use std::collections::HashMap;
use vstd::prelude::*;

verus! {

broadcast use vstd::std_specs::hash::group_hash_axioms;

/// The digit characters of `n` written in base ten, most significant first.
pub open spec fn spec_decimal(n: u64) -> Seq<char>
    decreases n,
{
    if n < 10 {
        seq![spec_digit(n)]
    } else {
        spec_decimal(n / 10).push(spec_digit(n % 10))
    }
}

/// The character for a single decimal digit.
pub open spec fn spec_digit(d: u64) -> char {
    if d == 0 {
        '0'
    } else if d == 1 {
        '1'
    } else if d == 2 {
        '2'
    } else if d == 3 {
        '3'
    } else if d == 4 {
        '4'
    } else if d == 5 {
        '5'
    } else if d == 6 {
        '6'
    } else if d == 7 {
        '7'
    } else if d == 8 {
        '8'
    } else {
        '9'
    }
}

/// The synthesized owner identity that `emit_ticket` gives an artist-minted
/// ticket: the fixed prefix followed by the artist's identifier in decimal.
pub open spec fn artist_label(artist_id: u64) -> Seq<char> {
    "artist:"@ + spec_decimal(artist_id)
}

/// Relies on `format!` with `u64`'s `Display` implementation, which writes
/// the number in decimal with no padding or sign, so the result is the fixed
/// prefix followed by the decimal digits of `artist_id`.
#[verifier::external_body]
fn artist_owner_string(artist_id: u64) -> (r: String)
    ensures
        r@ == artist_label(artist_id),
{
    format!("artist:{artist_id}")
}

/// The venue's share of settled revenue: `revenue * bps / 10000`, with
/// truncating division, clamped to `u64::MAX` for out-of-range basis points
/// on extreme revenues.
pub open spec fn spec_venue_cut(revenue: u64, bps: u16) -> u64 {
    let q = (revenue * bps) / 10000;
    if q > u64::MAX {
        u64::MAX
    } else {
        q as u64
    }
}

/// The artist's share of settled revenue: whatever the venue's cut leaves,
/// clamped at zero when basis points above 10000 push the venue's cut past
/// the whole revenue.
pub open spec fn spec_artist_cut(revenue: u64, bps: u16) -> u64 {
    revenue.saturating_sub(spec_venue_cut(revenue, bps))
}

/// String equality, stated as equality of the character sequences.
fn same_str(a: &str, b: &str) -> (r: bool)
    ensures
        r == (a@ == b@),
{
    let a_owned: String = a.to_owned();
    let b_owned: String = b.to_owned();
    a_owned == b_owned
}

/// The authoritative in-memory store. Entities are kept in creation order:
/// the record with identifier `i` sits at index `i - 1` of its collection,
/// which makes identifiers monotonically increasing, unique, and never
/// reused. Balances are keyed by artist or venue identifier; an absent key
/// stands for a zero balance.
pub struct Ticketing {
    pub artists: Vec<Artist>,
    pub venues: Vec<Venue>,
    pub concerts: Vec<Concert>,
    pub tickets: Vec<Ticket>,
    pub balances_artist: HashMap<u64, u64>,
    pub balances_venue: HashMap<u64, u64>,
}

impl Ticketing {
    /// Well-formedness: identifiers match positions, every concert respects
    /// its supply cap, and every ticket points at a concert that both the
    /// artist and the venue have validated.
    pub open spec fn wf(self) -> bool {
        &&& forall|i: int|
            0 <= i < self.artists@.len() ==> (#[trigger] self.artists@[i]).id == i + 1
        &&& forall|i: int|
            0 <= i < self.venues@.len() ==> (#[trigger] self.venues@[i]).id == i + 1
        &&& forall|i: int|
            0 <= i < self.concerts@.len() ==> {
                let c = #[trigger] self.concerts@[i];
                &&& c.id == i + 1
                &&& c.tickets_issued <= c.total_tickets
                &&& c.tickets_sold <= c.tickets_issued
            }
        &&& forall|i: int|
            0 <= i < self.tickets@.len() ==> {
                let t = #[trigger] self.tickets@[i];
                &&& t.id == i + 1
                &&& 1 <= t.concert_id <= self.concerts@.len()
                &&& self.concerts@[t.concert_id - 1].validated_by_artist
                &&& self.concerts@[t.concert_id - 1].validated_by_venue
            }
    }

    pub open spec fn has_artist(self, id: u64) -> bool {
        1 <= id <= self.artists@.len()
    }

    pub open spec fn has_venue(self, id: u64) -> bool {
        1 <= id <= self.venues@.len()
    }

    pub open spec fn has_concert(self, id: u64) -> bool {
        1 <= id <= self.concerts@.len()
    }

    pub open spec fn has_ticket(self, id: u64) -> bool {
        1 <= id <= self.tickets@.len()
    }

    pub open spec fn artist_at(self, id: u64) -> Artist {
        self.artists@[id - 1]
    }

    pub open spec fn venue_at(self, id: u64) -> Venue {
        self.venues@[id - 1]
    }

    pub open spec fn concert_at(self, id: u64) -> Concert {
        self.concerts@[id - 1]
    }

    pub open spec fn ticket_at(self, id: u64) -> Ticket {
        self.tickets@[id - 1]
    }

    /// The shared supply gate of the three issuance operations: the concert
    /// exists, both parties have validated it, and the supply cap still has
    /// room.
    pub open spec fn can_issue(self, concert_id: u64) -> bool {
        &&& self.has_concert(concert_id)
        &&& self.concert_at(concert_id).validated_by_artist
        &&& self.concert_at(concert_id).validated_by_venue
        &&& self.concert_at(concert_id).tickets_issued < self.concert_at(concert_id).total_tickets
    }

    /// What `use_ticket` demands: the caller owns an unused ticket of a
    /// dual-validated concert, and `now_ts` lies in the closed window from a
    /// day before the event up to the event's start itself.
    pub open spec fn can_use(self, ticket_id: u64, who: Seq<char>, now_ts: u64) -> bool {
        &&& self.has_ticket(ticket_id)
        &&& owned_by(self.ticket_at(ticket_id), who)
        &&& !self.ticket_at(ticket_id).used
        &&& self.has_concert(self.ticket_at(ticket_id).concert_id)
        &&& {
            let c = self.concert_at(self.ticket_at(ticket_id).concert_id);
            &&& c.validated_by_artist
            &&& c.validated_by_venue
            &&& c.date_ts.saturating_sub(86400) <= now_ts <= c.date_ts
        }
    }

    /// What `cash_out` demands: the concert exists, has not been settled yet,
    /// and its date has passed.
    pub open spec fn can_settle(self, concert_id: u64, now_ts: u64) -> bool {
        &&& self.has_concert(concert_id)
        &&& !self.concert_at(concert_id).cashed_out
        &&& now_ts >= self.concert_at(concert_id).date_ts
    }

    /// The basis points that settlement of this concert uses: the recorded
    /// venue's cut, or zero when the venue reference dangles.
    pub open spec fn settlement_bps(self, concert_id: u64) -> u16 {
        if self.has_venue(self.concert_at(concert_id).venue_id) {
            self.venue_at(self.concert_at(concert_id).venue_id).venue_cut_bps
        } else {
            0
        }
    }

    /// The artist's accumulated balance; absent keys stand for zero.
    pub open spec fn spec_balance_artist(self, artist_id: u64) -> u64 {
        if self.balances_artist@.contains_key(artist_id) {
            self.balances_artist@[artist_id]
        } else {
            0
        }
    }

    /// The venue's accumulated balance; absent keys stand for zero.
    pub open spec fn spec_balance_venue(self, venue_id: u64) -> u64 {
        if self.balances_venue@.contains_key(venue_id) {
            self.balances_venue@[venue_id]
        } else {
            0
        }
    }

    /// An empty ledger with no entities and no balances.
    pub fn new() -> (t: Ticketing)
        ensures
            t.wf(),
            t.artists@ =~= Seq::<Artist>::empty(),
            t.venues@ =~= Seq::<Venue>::empty(),
            t.concerts@ =~= Seq::<Concert>::empty(),
            t.tickets@ =~= Seq::<Ticket>::empty(),
            t.balances_artist@ =~= Map::<u64, u64>::empty(),
            t.balances_venue@ =~= Map::<u64, u64>::empty(),
    {
        Ticketing {
            artists: Vec::new(),
            venues: Vec::new(),
            concerts: Vec::new(),
            tickets: Vec::new(),
            balances_artist: HashMap::new(),
            balances_venue: HashMap::new(),
        }
    }

    /// Registers a new artist and returns its identifier.
    pub fn create_artist(&mut self, name: &str, artist_type: &str) -> (id: u64)
        requires
            old(self).wf(),
            old(self).artists@.len() < u64::MAX,
        ensures
            final(self).wf(),
            id == old(self).artists@.len() + 1,
            final(self).has_artist(id),
            final(self).artists@.len() == old(self).artists@.len() + 1,
            forall|i: int|
                0 <= i < old(self).artists@.len() ==> final(self).artists@[i] == old(
                    self,
                ).artists@[i],
            final(self).artist_at(id).id == id,
            final(self).artist_at(id).name@ == name@,
            final(self).artist_at(id).artist_type@ == artist_type@,
            final(self).artist_at(id).total_tickets_sold == 0,
            final(self).venues@ == old(self).venues@,
            final(self).concerts@ == old(self).concerts@,
            final(self).tickets@ == old(self).tickets@,
            final(self).balances_artist@ == old(self).balances_artist@,
            final(self).balances_venue@ == old(self).balances_venue@,
    {
        let id: u64 = (self.artists.len() as u64) + 1;
        self.artists.push(
            Artist {
                id,
                name: name.to_owned(),
                artist_type: artist_type.to_owned(),
                total_tickets_sold: 0,
            },
        );
        id
    }

    /// Overwrites an artist's mutable fields; a no-op when the identifier is
    /// unknown.
    pub fn update_artist(&mut self, id: u64, name: &str, artist_type: &str)
        requires
            old(self).wf(),
        ensures
            final(self).wf(),
            old(self).has_artist(id) ==> {
                &&& final(self).artists@.len() == old(self).artists@.len()
                &&& forall|i: int|
                    0 <= i < old(self).artists@.len() && i != id - 1 ==> final(self).artists@[i]
                        == old(self).artists@[i]
                &&& final(self).artist_at(id).id == id
                &&& final(self).artist_at(id).name@ == name@
                &&& final(self).artist_at(id).artist_type@ == artist_type@
                &&& final(self).artist_at(id).total_tickets_sold == old(self).artist_at(
                    id,
                ).total_tickets_sold
            },
            !old(self).has_artist(id) ==> final(self).artists@ == old(self).artists@,
            final(self).venues@ == old(self).venues@,
            final(self).concerts@ == old(self).concerts@,
            final(self).tickets@ == old(self).tickets@,
            final(self).balances_artist@ == old(self).balances_artist@,
            final(self).balances_venue@ == old(self).balances_venue@,
    {
        if 1 <= id && id <= self.artists.len() as u64 {
            let idx: usize = (id - 1) as usize;
            let total_tickets_sold = self.artists[idx].total_tickets_sold;
            self.artists[idx] = Artist {
                id,
                name: name.to_owned(),
                artist_type: artist_type.to_owned(),
                total_tickets_sold,
            };
        }
    }

    /// Registers a new venue and returns its identifier. `venue_cut_bps` is
    /// stored as given; it is not range-checked here.
    pub fn create_venue(
        &mut self,
        name: &str,
        capacity: u32,
        venue_cut_bps: u16,
        next_concert_date: Option<u64>,
    ) -> (id: u64)
        requires
            old(self).wf(),
            old(self).venues@.len() < u64::MAX,
        ensures
            final(self).wf(),
            id == old(self).venues@.len() + 1,
            final(self).has_venue(id),
            final(self).venues@.len() == old(self).venues@.len() + 1,
            forall|i: int|
                0 <= i < old(self).venues@.len() ==> final(self).venues@[i] == old(
                    self,
                ).venues@[i],
            final(self).venue_at(id).id == id,
            final(self).venue_at(id).name@ == name@,
            final(self).venue_at(id).capacity == capacity,
            final(self).venue_at(id).venue_cut_bps == venue_cut_bps,
            final(self).venue_at(id).next_concert_date == next_concert_date,
            final(self).artists@ == old(self).artists@,
            final(self).concerts@ == old(self).concerts@,
            final(self).tickets@ == old(self).tickets@,
            final(self).balances_artist@ == old(self).balances_artist@,
            final(self).balances_venue@ == old(self).balances_venue@,
    {
        let id: u64 = (self.venues.len() as u64) + 1;
        self.venues.push(
            Venue { id, name: name.to_owned(), capacity, venue_cut_bps, next_concert_date },
        );
        id
    }

    /// Overwrites a venue's mutable fields; a no-op when the identifier is
    /// unknown.
    pub fn update_venue(
        &mut self,
        id: u64,
        name: &str,
        capacity: u32,
        venue_cut_bps: u16,
        next_concert_date: Option<u64>,
    )
        requires
            old(self).wf(),
        ensures
            final(self).wf(),
            old(self).has_venue(id) ==> {
                &&& final(self).venues@.len() == old(self).venues@.len()
                &&& forall|i: int|
                    0 <= i < old(self).venues@.len() && i != id - 1 ==> final(self).venues@[i]
                        == old(self).venues@[i]
                &&& final(self).venue_at(id).id == id
                &&& final(self).venue_at(id).name@ == name@
                &&& final(self).venue_at(id).capacity == capacity
                &&& final(self).venue_at(id).venue_cut_bps == venue_cut_bps
                &&& final(self).venue_at(id).next_concert_date == next_concert_date
            },
            !old(self).has_venue(id) ==> final(self).venues@ == old(self).venues@,
            final(self).artists@ == old(self).artists@,
            final(self).concerts@ == old(self).concerts@,
            final(self).tickets@ == old(self).tickets@,
            final(self).balances_artist@ == old(self).balances_artist@,
            final(self).balances_venue@ == old(self).balances_venue@,
    {
        if 1 <= id && id <= self.venues.len() as u64 {
            let idx: usize = (id - 1) as usize;
            self.venues[idx] = Venue {
                id,
                name: name.to_owned(),
                capacity,
                venue_cut_bps,
                next_concert_date,
            };
        }
    }

    /// Schedules a concert and returns its identifier. The artist and venue
    /// references are not checked for existence: a dangling concert is
    /// permitted, and integrity checking is left to whatever wraps the
    /// ledger. Counters start at zero and both validation flags start false.
    pub fn create_concert(
        &mut self,
        artist_id: u64,
        venue_id: u64,
        date_ts: u64,
        ticket_price: u64,
        total_tickets: u32,
    ) -> (id: u64)
        requires
            old(self).wf(),
            old(self).concerts@.len() < u64::MAX,
        ensures
            final(self).wf(),
            id == old(self).concerts@.len() + 1,
            final(self).has_concert(id),
            final(self).concerts@ == old(self).concerts@.push(
                (Concert {
                    id,
                    artist_id,
                    venue_id,
                    date_ts,
                    ticket_price,
                    total_tickets,
                    tickets_issued: 0,
                    validated_by_artist: false,
                    validated_by_venue: false,
                    tickets_sold: 0,
                    revenue: 0,
                    cashed_out: false,
                }),
            ),
            final(self).artists@ == old(self).artists@,
            final(self).venues@ == old(self).venues@,
            final(self).tickets@ == old(self).tickets@,
            final(self).balances_artist@ == old(self).balances_artist@,
            final(self).balances_venue@ == old(self).balances_venue@,
    {
        let id: u64 = (self.concerts.len() as u64) + 1;
        self.concerts.push(
            Concert {
                id,
                artist_id,
                venue_id,
                date_ts,
                ticket_price,
                total_tickets,
                tickets_issued: 0,
                validated_by_artist: false,
                validated_by_venue: false,
                tickets_sold: 0,
                revenue: 0,
                cashed_out: false,
            },
        );
        id
    }

    /// Sets the artist's half of the dual-validation gate, but only when the
    /// caller's identifier matches the concert's recorded artist; otherwise a
    /// no-op.
    pub fn validate_concert_by_artist(&mut self, concert_id: u64, artist_id: u64)
        requires
            old(self).wf(),
        ensures
            final(self).wf(),
            old(self).has_concert(concert_id) && old(self).concert_at(concert_id).artist_id
                == artist_id ==> final(self).concerts@ == old(self).concerts@.update(
                concert_id - 1,
                (Concert { validated_by_artist: true, ..old(self).concert_at(concert_id) }),
            ),
            !(old(self).has_concert(concert_id) && old(self).concert_at(concert_id).artist_id
                == artist_id) ==> final(self).concerts@ == old(self).concerts@,
            final(self).artists@ == old(self).artists@,
            final(self).venues@ == old(self).venues@,
            final(self).tickets@ == old(self).tickets@,
            final(self).balances_artist@ == old(self).balances_artist@,
            final(self).balances_venue@ == old(self).balances_venue@,
    {
        if 1 <= concert_id && concert_id <= self.concerts.len() as u64 {
            let idx: usize = (concert_id - 1) as usize;
            let c = self.concerts[idx];
            if c.artist_id == artist_id {
                self.concerts[idx] = Concert { validated_by_artist: true, ..c };
            }
        }
    }

    /// Sets the venue's half of the dual-validation gate, but only when the
    /// caller's identifier matches the concert's recorded venue; otherwise a
    /// no-op.
    pub fn validate_concert_by_venue(&mut self, concert_id: u64, venue_id: u64)
        requires
            old(self).wf(),
        ensures
            final(self).wf(),
            old(self).has_concert(concert_id) && old(self).concert_at(concert_id).venue_id
                == venue_id ==> final(self).concerts@ == old(self).concerts@.update(
                concert_id - 1,
                (Concert { validated_by_venue: true, ..old(self).concert_at(concert_id) }),
            ),
            !(old(self).has_concert(concert_id) && old(self).concert_at(concert_id).venue_id
                == venue_id) ==> final(self).concerts@ == old(self).concerts@,
            final(self).artists@ == old(self).artists@,
            final(self).venues@ == old(self).venues@,
            final(self).tickets@ == old(self).tickets@,
            final(self).balances_artist@ == old(self).balances_artist@,
            final(self).balances_venue@ == old(self).balances_venue@,
    {
        if 1 <= concert_id && concert_id <= self.concerts.len() as u64 {
            let idx: usize = (concert_id - 1) as usize;
            let c = self.concerts[idx];
            if c.venue_id == venue_id {
                self.concerts[idx] = Concert { validated_by_venue: true, ..c };
            }
        }
    }

    /// Artist-only free mint: creates a ticket owned by the synthesized
    /// artist identity at price zero. Succeeds exactly when the caller is the
    /// concert's artist and the supply gate is open; counts against
    /// `tickets_issued` only.
    pub fn emit_ticket(
        &mut self,
        concert_id: u64,
        artist_id: u64,
        redeem_code: Option<String>,
    ) -> (r: Option<u64>)
        requires
            old(self).wf(),
            old(self).tickets@.len() < u64::MAX,
        ensures
            final(self).wf(),
            r is Some <==> old(self).can_issue(concert_id) && old(self).concert_at(
                concert_id,
            ).artist_id == artist_id,
            r is None ==> *final(self) == *old(self),
            r is Some ==> {
                &&& r == Some((old(self).tickets@.len() + 1) as u64)
                &&& final(self).tickets@.len() == old(self).tickets@.len() + 1
                &&& forall|i: int|
                    0 <= i < old(self).tickets@.len() ==> final(self).tickets@[i] == old(
                        self,
                    ).tickets@[i]
                &&& final(self).tickets@.last().id == old(self).tickets@.len() + 1
                &&& final(self).tickets@.last().concert_id == concert_id
                &&& final(self).tickets@.last().owner matches Some(o) && o@ == artist_label(
                    artist_id,
                )
                &&& !final(self).tickets@.last().used
                &&& final(self).tickets@.last().price_paid == 0
                &&& final(self).tickets@.last().minted_by_artist
                &&& final(self).tickets@.last().redeem_code == redeem_code
                &&& final(self).concerts@ == old(self).concerts@.update(
                    concert_id - 1,
                    (Concert {
                        tickets_issued: (old(self).concert_at(concert_id).tickets_issued
                            + 1) as u32,
                        ..old(self).concert_at(concert_id)
                    }),
                )
                &&& final(self).artists@ == old(self).artists@
                &&& final(self).venues@ == old(self).venues@
                &&& final(self).balances_artist@ == old(self).balances_artist@
                &&& final(self).balances_venue@ == old(self).balances_venue@
            },
    {
        if !(1 <= concert_id && concert_id <= self.concerts.len() as u64) {
            return None;
        }
        let idx: usize = (concert_id - 1) as usize;
        let c = self.concerts[idx];
        if c.artist_id != artist_id || !c.validated_by_artist || !c.validated_by_venue {
            return None;
        }
        if c.tickets_issued >= c.total_tickets {
            return None;
        }
        let ticket_id: u64 = (self.tickets.len() as u64) + 1;
        self.tickets.push(
            Ticket {
                id: ticket_id,
                concert_id,
                owner: Some(artist_owner_string(artist_id)),
                used: false,
                price_paid: 0,
                minted_by_artist: true,
                redeem_code,
            },
        );
        self.concerts[idx] = Concert { tickets_issued: c.tickets_issued + 1, ..c };
        Some(ticket_id)
    }

    /// Paid sale: any buyer may purchase while the supply gate is open. The
    /// sale counts against `tickets_issued` and `tickets_sold`, adds the
    /// amount to the concert's revenue (saturating), and bumps the artist's
    /// sales counter when the artist exists.
    pub fn buy_ticket(&mut self, concert_id: u64, buyer: &str, amount_paid: u64) -> (r: Option<
        u64,
    >)
        requires
            old(self).wf(),
            old(self).tickets@.len() < u64::MAX,
        ensures
            final(self).wf(),
            r is Some <==> old(self).can_issue(concert_id),
            r is None ==> *final(self) == *old(self),
            r is Some ==> {
                &&& r == Some((old(self).tickets@.len() + 1) as u64)
                &&& final(self).tickets@.len() == old(self).tickets@.len() + 1
                &&& forall|i: int|
                    0 <= i < old(self).tickets@.len() ==> final(self).tickets@[i] == old(
                        self,
                    ).tickets@[i]
                &&& final(self).tickets@.last().id == old(self).tickets@.len() + 1
                &&& final(self).tickets@.last().concert_id == concert_id
                &&& final(self).tickets@.last().owner matches Some(o) && o@ == buyer@
                &&& !final(self).tickets@.last().used
                &&& final(self).tickets@.last().price_paid == amount_paid
                &&& !final(self).tickets@.last().minted_by_artist
                &&& final(self).tickets@.last().redeem_code is None
                &&& final(self).concerts@ == old(self).concerts@.update(
                    concert_id - 1,
                    (Concert {
                        tickets_issued: (old(self).concert_at(concert_id).tickets_issued
                            + 1) as u32,
                        tickets_sold: (old(self).concert_at(concert_id).tickets_sold + 1) as u32,
                        revenue: old(self).concert_at(concert_id).revenue.saturating_add(
                            amount_paid,
                        ),
                        ..old(self).concert_at(concert_id)
                    }),
                )
                &&& {
                    let aid = old(self).concert_at(concert_id).artist_id;
                    &&& old(self).has_artist(aid) ==> final(self).artists@ == old(
                        self,
                    ).artists@.update(
                        aid - 1,
                        (Artist {
                            total_tickets_sold: old(self).artist_at(
                                aid,
                            ).total_tickets_sold.saturating_add(1),
                            ..old(self).artist_at(aid)
                        }),
                    )
                    &&& !old(self).has_artist(aid) ==> final(self).artists@ == old(self).artists@
                }
                &&& final(self).venues@ == old(self).venues@
                &&& final(self).balances_artist@ == old(self).balances_artist@
                &&& final(self).balances_venue@ == old(self).balances_venue@
            },
    {
        if !(1 <= concert_id && concert_id <= self.concerts.len() as u64) {
            return None;
        }
        let idx: usize = (concert_id - 1) as usize;
        let c = self.concerts[idx];
        if !c.validated_by_artist || !c.validated_by_venue {
            return None;
        }
        if c.tickets_issued >= c.total_tickets {
            return None;
        }
        self.concerts[idx] = Concert {
            tickets_issued: c.tickets_issued + 1,
            tickets_sold: c.tickets_sold + 1,
            revenue: c.revenue.saturating_add(amount_paid),
            ..c
        };
        let ticket_id: u64 = (self.tickets.len() as u64) + 1;
        self.tickets.push(
            Ticket {
                id: ticket_id,
                concert_id,
                owner: Some(buyer.to_owned()),
                used: false,
                price_paid: amount_paid,
                minted_by_artist: false,
                redeem_code: None,
            },
        );
        if 1 <= c.artist_id && c.artist_id <= self.artists.len() as u64 {
            let aidx: usize = (c.artist_id - 1) as usize;
            let name = self.artists[aidx].name.clone();
            let artist_type = self.artists[aidx].artist_type.clone();
            let total_tickets_sold = self.artists[aidx].total_tickets_sold;
            self.artists[aidx] = Artist {
                id: c.artist_id,
                name,
                artist_type,
                total_tickets_sold: total_tickets_sold.saturating_add(1),
            };
        }
        Some(ticket_id)
    }

    /// Artist-only mint of an unowned ticket carrying a redeem code, for
    /// later claiming through `redeem_ticket`. Succeeds exactly when the
    /// caller is the concert's artist and the supply gate is open; counts
    /// against `tickets_issued` only.
    pub fn distribute_ticket(&mut self, concert_id: u64, artist_id: u64, redeem_code: &str) -> (r:
        Option<u64>)
        requires
            old(self).wf(),
            old(self).tickets@.len() < u64::MAX,
        ensures
            final(self).wf(),
            r is Some <==> old(self).can_issue(concert_id) && old(self).concert_at(
                concert_id,
            ).artist_id == artist_id,
            r is None ==> *final(self) == *old(self),
            r is Some ==> {
                &&& r == Some((old(self).tickets@.len() + 1) as u64)
                &&& final(self).tickets@.len() == old(self).tickets@.len() + 1
                &&& forall|i: int|
                    0 <= i < old(self).tickets@.len() ==> final(self).tickets@[i] == old(
                        self,
                    ).tickets@[i]
                &&& final(self).tickets@.last().id == old(self).tickets@.len() + 1
                &&& final(self).tickets@.last().concert_id == concert_id
                &&& final(self).tickets@.last().owner is None
                &&& !final(self).tickets@.last().used
                &&& final(self).tickets@.last().price_paid == 0
                &&& final(self).tickets@.last().minted_by_artist
                &&& final(self).tickets@.last().redeem_code matches Some(c) && c@ == redeem_code@
                &&& final(self).concerts@ == old(self).concerts@.update(
                    concert_id - 1,
                    (Concert {
                        tickets_issued: (old(self).concert_at(concert_id).tickets_issued
                            + 1) as u32,
                        ..old(self).concert_at(concert_id)
                    }),
                )
                &&& final(self).artists@ == old(self).artists@
                &&& final(self).venues@ == old(self).venues@
                &&& final(self).balances_artist@ == old(self).balances_artist@
                &&& final(self).balances_venue@ == old(self).balances_venue@
            },
    {
        if !(1 <= concert_id && concert_id <= self.concerts.len() as u64) {
            return None;
        }
        let idx: usize = (concert_id - 1) as usize;
        let c = self.concerts[idx];
        if c.artist_id != artist_id || !c.validated_by_artist || !c.validated_by_venue {
            return None;
        }
        if c.tickets_issued >= c.total_tickets {
            return None;
        }
        self.concerts[idx] = Concert { tickets_issued: c.tickets_issued + 1, ..c };
        let ticket_id: u64 = (self.tickets.len() as u64) + 1;
        self.tickets.push(
            Ticket {
                id: ticket_id,
                concert_id,
                owner: None,
                used: false,
                price_paid: 0,
                minted_by_artist: true,
                redeem_code: Some(redeem_code.to_owned()),
            },
        );
        Some(ticket_id)
    }

    /// Free ownership transfer: succeeds exactly when `from` owns the ticket
    /// and it has not been used. The resale ceiling is unchanged.
    pub fn transfer_ticket(&mut self, ticket_id: u64, from: &str, to: &str) -> (r: bool)
        requires
            old(self).wf(),
        ensures
            final(self).wf(),
            r <==> old(self).has_ticket(ticket_id) && owned_by(old(self).ticket_at(ticket_id), from@)
                && !old(self).ticket_at(ticket_id).used,
            !r ==> *final(self) == *old(self),
            r ==> {
                &&& final(self).tickets@.len() == old(self).tickets@.len()
                &&& forall|i: int|
                    0 <= i < old(self).tickets@.len() && i != ticket_id - 1 ==> final(self).tickets@[i] == old(self).tickets@[i]
                &&& owned_by(final(self).ticket_at(ticket_id), to@)
                &&& final(self).ticket_at(ticket_id).id == old(self).ticket_at(ticket_id).id
                &&& final(self).ticket_at(ticket_id).concert_id == old(self).ticket_at(
                    ticket_id,
                ).concert_id
                &&& final(self).ticket_at(ticket_id).used == old(self).ticket_at(ticket_id).used
                &&& final(self).ticket_at(ticket_id).price_paid == old(self).ticket_at(
                    ticket_id,
                ).price_paid
                &&& final(self).ticket_at(ticket_id).minted_by_artist == old(self).ticket_at(
                    ticket_id,
                ).minted_by_artist
                &&& final(self).ticket_at(ticket_id).redeem_code == old(self).ticket_at(
                    ticket_id,
                ).redeem_code
                &&& final(self).artists@ == old(self).artists@
                &&& final(self).venues@ == old(self).venues@
                &&& final(self).concerts@ == old(self).concerts@
                &&& final(self).balances_artist@ == old(self).balances_artist@
                &&& final(self).balances_venue@ == old(self).balances_venue@
            },
    {
        if !(1 <= ticket_id && ticket_id <= self.tickets.len() as u64) {
            return false;
        }
        let idx: usize = (ticket_id - 1) as usize;
        let owner_matches = match &self.tickets[idx].owner {
            Some(o) => same_str(o.as_str(), from),
            None => false,
        };
        if !owner_matches || self.tickets[idx].used {
            return false;
        }
        let concert_id = self.tickets[idx].concert_id;
        let used = self.tickets[idx].used;
        let price_paid = self.tickets[idx].price_paid;
        let minted_by_artist = self.tickets[idx].minted_by_artist;
        let redeem_code = match &self.tickets[idx].redeem_code {
            Some(c) => Some(c.clone()),
            None => None,
        };
        self.tickets[idx] = Ticket {
            id: ticket_id,
            concert_id,
            owner: Some(to.to_owned()),
            used,
            price_paid,
            minted_by_artist,
            redeem_code,
        };
        true
    }

    /// Paid resale under the price ceiling: succeeds exactly when `seller`
    /// owns the unused ticket and `price` does not exceed what the seller
    /// paid. On success the buyer becomes the owner and the ceiling ratchets
    /// down to `price`.
    pub fn trade_ticket(&mut self, ticket_id: u64, seller: &str, buyer: &str, price: u64) -> (r:
        bool)
        requires
            old(self).wf(),
        ensures
            final(self).wf(),
            r <==> old(self).has_ticket(ticket_id) && owned_by(
                old(self).ticket_at(ticket_id),
                seller@,
            ) && !old(self).ticket_at(ticket_id).used && price <= old(self).ticket_at(
                ticket_id,
            ).price_paid,
            !r ==> *final(self) == *old(self),
            r ==> {
                &&& final(self).tickets@.len() == old(self).tickets@.len()
                &&& forall|i: int|
                    0 <= i < old(self).tickets@.len() && i != ticket_id - 1 ==> final(self).tickets@[i] == old(self).tickets@[i]
                &&& owned_by(final(self).ticket_at(ticket_id), buyer@)
                &&& final(self).ticket_at(ticket_id).price_paid == price
                &&& final(self).ticket_at(ticket_id).id == old(self).ticket_at(ticket_id).id
                &&& final(self).ticket_at(ticket_id).concert_id == old(self).ticket_at(
                    ticket_id,
                ).concert_id
                &&& final(self).ticket_at(ticket_id).used == old(self).ticket_at(ticket_id).used
                &&& final(self).ticket_at(ticket_id).minted_by_artist == old(self).ticket_at(
                    ticket_id,
                ).minted_by_artist
                &&& final(self).ticket_at(ticket_id).redeem_code == old(self).ticket_at(
                    ticket_id,
                ).redeem_code
                &&& final(self).artists@ == old(self).artists@
                &&& final(self).venues@ == old(self).venues@
                &&& final(self).concerts@ == old(self).concerts@
                &&& final(self).balances_artist@ == old(self).balances_artist@
                &&& final(self).balances_venue@ == old(self).balances_venue@
            },
    {
        if !(1 <= ticket_id && ticket_id <= self.tickets.len() as u64) {
            return false;
        }
        let idx: usize = (ticket_id - 1) as usize;
        let owner_matches = match &self.tickets[idx].owner {
            Some(o) => same_str(o.as_str(), seller),
            None => false,
        };
        if !owner_matches || self.tickets[idx].used {
            return false;
        }
        if price > self.tickets[idx].price_paid {
            return false;
        }
        let concert_id = self.tickets[idx].concert_id;
        let used = self.tickets[idx].used;
        let minted_by_artist = self.tickets[idx].minted_by_artist;
        let redeem_code = match &self.tickets[idx].redeem_code {
            Some(c) => Some(c.clone()),
            None => None,
        };
        self.tickets[idx] = Ticket {
            id: ticket_id,
            concert_id,
            owner: Some(buyer.to_owned()),
            used,
            price_paid: price,
            minted_by_artist,
            redeem_code,
        };
        true
    }

    /// One-shot consumption inside the redemption window: succeeds exactly
    /// when `can_use` holds, and then marks the ticket used for good.
    pub fn use_ticket(&mut self, ticket_id: u64, owner: &str, now_ts: u64) -> (r: bool)
        requires
            old(self).wf(),
        ensures
            final(self).wf(),
            r == old(self).can_use(ticket_id, owner@, now_ts),
            !r ==> *final(self) == *old(self),
            r ==> {
                &&& final(self).tickets@.len() == old(self).tickets@.len()
                &&& forall|i: int|
                    0 <= i < old(self).tickets@.len() && i != ticket_id - 1 ==> final(self).tickets@[i] == old(self).tickets@[i]
                &&& final(self).ticket_at(ticket_id).used
                &&& final(self).ticket_at(ticket_id).id == old(self).ticket_at(ticket_id).id
                &&& final(self).ticket_at(ticket_id).concert_id == old(self).ticket_at(
                    ticket_id,
                ).concert_id
                &&& final(self).ticket_at(ticket_id).owner == old(self).ticket_at(ticket_id).owner
                &&& final(self).ticket_at(ticket_id).price_paid == old(self).ticket_at(
                    ticket_id,
                ).price_paid
                &&& final(self).ticket_at(ticket_id).minted_by_artist == old(self).ticket_at(
                    ticket_id,
                ).minted_by_artist
                &&& final(self).ticket_at(ticket_id).redeem_code == old(self).ticket_at(
                    ticket_id,
                ).redeem_code
                &&& final(self).artists@ == old(self).artists@
                &&& final(self).venues@ == old(self).venues@
                &&& final(self).concerts@ == old(self).concerts@
                &&& final(self).balances_artist@ == old(self).balances_artist@
                &&& final(self).balances_venue@ == old(self).balances_venue@
            },
    {
        if !(1 <= ticket_id && ticket_id <= self.tickets.len() as u64) {
            return false;
        }
        let idx: usize = (ticket_id - 1) as usize;
        let owner_matches = match &self.tickets[idx].owner {
            Some(o) => same_str(o.as_str(), owner),
            None => false,
        };
        if !owner_matches || self.tickets[idx].used {
            return false;
        }
        let concert_id = self.tickets[idx].concert_id;
        if !(1 <= concert_id && concert_id <= self.concerts.len() as u64) {
            return false;
        }
        let c = self.concerts[(concert_id - 1) as usize];
        if !(c.validated_by_artist && c.validated_by_venue) {
            return false;
        }
        let window_start = c.date_ts.saturating_sub(86400);
        if !(window_start <= now_ts && now_ts <= c.date_ts) {
            return false;
        }
        let price_paid = self.tickets[idx].price_paid;
        let minted_by_artist = self.tickets[idx].minted_by_artist;
        let owner_value = match &self.tickets[idx].owner {
            Some(o) => Some(o.clone()),
            None => None,
        };
        let redeem_code = match &self.tickets[idx].redeem_code {
            Some(rc) => Some(rc.clone()),
            None => None,
        };
        self.tickets[idx] = Ticket {
            id: ticket_id,
            concert_id,
            owner: owner_value,
            used: true,
            price_paid,
            minted_by_artist,
            redeem_code,
        };
        true
    }

    /// The index of the first unowned ticket carrying `code`, in identifier
    /// order, if any.
    fn find_redeemable(&self, code: &str) -> (r: Option<usize>)
        ensures
            r matches Some(i) ==> {
                &&& i < self.tickets@.len()
                &&& redeemable(self.tickets@[i as int], code@)
                &&& forall|j: int| 0 <= j < i ==> !redeemable(self.tickets@[j], code@)
            },
            r is None ==> forall|j: int|
                0 <= j < self.tickets@.len() ==> !redeemable(self.tickets@[j], code@),
    {
        let mut i: usize = 0;
        while i < self.tickets.len()
            invariant
                i <= self.tickets@.len(),
                forall|j: int| 0 <= j < i ==> !redeemable(self.tickets@[j], code@),
            decreases self.tickets@.len() - i,
        {
            let matches_code = match &self.tickets[i].redeem_code {
                Some(c) => same_str(c.as_str(), code),
                None => false,
            };
            if self.tickets[i].owner.is_none() && matches_code {
                return Some(i);
            }
            i = i + 1;
        }
        None
    }

    /// Exchanges a redeem code for ownership: the first unowned ticket (in
    /// identifier order) carrying `code` gets `user` as its owner. Once a
    /// ticket is owned its code can never match again, so each pending code
    /// is single-use.
    pub fn redeem_ticket(&mut self, code: &str, user: &str) -> (r: Option<u64>)
        requires
            old(self).wf(),
        ensures
            final(self).wf(),
            r is Some <==> exists|j: int|
                0 <= j < old(self).tickets@.len() && redeemable(old(self).tickets@[j], code@),
            r is None ==> *final(self) == *old(self),
            r matches Some(id) ==> {
                &&& old(self).has_ticket(id)
                &&& redeemable(old(self).ticket_at(id), code@)
                &&& forall|j: int| 0 <= j < id - 1 ==> !redeemable(old(self).tickets@[j], code@)
                &&& final(self).tickets@.len() == old(self).tickets@.len()
                &&& forall|i: int|
                    0 <= i < old(self).tickets@.len() && i != id - 1 ==> final(self).tickets@[i]
                        == old(self).tickets@[i]
                &&& owned_by(final(self).ticket_at(id), user@)
                &&& final(self).ticket_at(id).id == old(self).ticket_at(id).id
                &&& final(self).ticket_at(id).concert_id == old(self).ticket_at(id).concert_id
                &&& final(self).ticket_at(id).used == old(self).ticket_at(id).used
                &&& final(self).ticket_at(id).price_paid == old(self).ticket_at(id).price_paid
                &&& final(self).ticket_at(id).minted_by_artist == old(self).ticket_at(
                    id,
                ).minted_by_artist
                &&& final(self).ticket_at(id).redeem_code == old(self).ticket_at(id).redeem_code
                &&& final(self).artists@ == old(self).artists@
                &&& final(self).venues@ == old(self).venues@
                &&& final(self).concerts@ == old(self).concerts@
                &&& final(self).balances_artist@ == old(self).balances_artist@
                &&& final(self).balances_venue@ == old(self).balances_venue@
            },
    {
        match self.find_redeemable(code) {
            Some(idx) => {
                let ticket_id = self.tickets[idx].id;
                let concert_id = self.tickets[idx].concert_id;
                let used = self.tickets[idx].used;
                let price_paid = self.tickets[idx].price_paid;
                let minted_by_artist = self.tickets[idx].minted_by_artist;
                let redeem_code = match &self.tickets[idx].redeem_code {
                    Some(c) => Some(c.clone()),
                    None => None,
                };
                self.tickets[idx] = Ticket {
                    id: ticket_id,
                    concert_id,
                    owner: Some(user.to_owned()),
                    used,
                    price_paid,
                    minted_by_artist,
                    redeem_code,
                };
                Some(ticket_id)
            },
            None => None,
        }
    }

    /// One-shot settlement: splits the concert's accumulated revenue between
    /// the artist's and the venue's balances and marks the concert cashed
    /// out. Succeeds exactly when `can_settle` holds; a second call on the
    /// same concert always fails.
    pub fn cash_out(&mut self, concert_id: u64, now_ts: u64) -> (r: bool)
        requires
            old(self).wf(),
        ensures
            final(self).wf(),
            r == old(self).can_settle(concert_id, now_ts),
            !r ==> *final(self) == *old(self),
            r ==> {
                let c = old(self).concert_at(concert_id);
                let bps = old(self).settlement_bps(concert_id);
                &&& final(self).balances_artist@ == old(self).balances_artist@.insert(
                    c.artist_id,
                    old(self).spec_balance_artist(c.artist_id).saturating_add(
                        spec_artist_cut(c.revenue, bps),
                    ),
                )
                &&& final(self).balances_venue@ == old(self).balances_venue@.insert(
                    c.venue_id,
                    old(self).spec_balance_venue(c.venue_id).saturating_add(
                        spec_venue_cut(c.revenue, bps),
                    ),
                )
                &&& final(self).concerts@ == old(self).concerts@.update(
                    concert_id - 1,
                    (Concert { cashed_out: true, ..c }),
                )
                &&& final(self).artists@ == old(self).artists@
                &&& final(self).venues@ == old(self).venues@
                &&& final(self).tickets@ == old(self).tickets@
            },
    {
        if !(1 <= concert_id && concert_id <= self.concerts.len() as u64) {
            return false;
        }
        let idx: usize = (concert_id - 1) as usize;
        let c = self.concerts[idx];
        if c.cashed_out || now_ts < c.date_ts {
            return false;
        }
        let bps: u16 = if 1 <= c.venue_id && c.venue_id <= self.venues.len() as u64 {
            self.venues[(c.venue_id - 1) as usize].venue_cut_bps
        } else {
            0
        };
        proof {
            vstd::arithmetic::mul::lemma_mul_upper_bound(
                c.revenue as int,
                u64::MAX as int,
                bps as int,
                u16::MAX as int,
            );
        }
        let product: u128 = (c.revenue as u128) * (bps as u128);
        let quotient: u128 = product / 10000;
        let venue_cut: u64 = if quotient > (u64::MAX as u128) {
            u64::MAX
        } else {
            quotient as u64
        };
        let artist_cut: u64 = c.revenue.saturating_sub(venue_cut);
        let artist_balance: u64 = match self.balances_artist.get(&c.artist_id) {
            Some(v) => *v,
            None => 0,
        };
        self.balances_artist.insert(c.artist_id, artist_balance.saturating_add(artist_cut));
        let venue_balance: u64 = match self.balances_venue.get(&c.venue_id) {
            Some(v) => *v,
            None => 0,
        };
        self.balances_venue.insert(c.venue_id, venue_balance.saturating_add(venue_cut));
        self.concerts[idx] = Concert { cashed_out: true, ..c };
        true
    }

    /// The current owner of the ticket, or nothing for an unknown ticket or
    /// one still waiting to be redeemed.
    pub fn ticket_owner(&self, ticket_id: u64) -> (r: Option<String>)
        ensures
            r == if self.has_ticket(ticket_id) {
                self.ticket_at(ticket_id).owner
            } else {
                None::<String>
            },
    {
        if 1 <= ticket_id && ticket_id <= self.tickets.len() as u64 {
            match &self.tickets[(ticket_id - 1) as usize].owner {
                Some(o) => Some(o.clone()),
                None => None,
            }
        } else {
            None
        }
    }

    /// The artist's accumulated settlement balance; zero for unknown ids.
    pub fn balance_artist(&self, artist_id: u64) -> (r: u64)
        ensures
            r == self.spec_balance_artist(artist_id),
    {
        match self.balances_artist.get(&artist_id) {
            Some(v) => *v,
            None => 0,
        }
    }

    /// The venue's accumulated settlement balance; zero for unknown ids.
    pub fn balance_venue(&self, venue_id: u64) -> (r: u64)
        ensures
            r == self.spec_balance_venue(venue_id),
    {
        match self.balances_venue.get(&venue_id) {
            Some(v) => *v,
            None => 0,
        }
    }
}

impl Default for Ticketing {
    /// The empty ledger.
    fn default() -> (t: Ticketing)
        ensures
            t.wf(),
            t.artists@ =~= Seq::<Artist>::empty(),
            t.venues@ =~= Seq::<Venue>::empty(),
            t.concerts@ =~= Seq::<Concert>::empty(),
            t.tickets@ =~= Seq::<Ticket>::empty(),
            t.balances_artist@ =~= Map::<u64, u64>::empty(),
            t.balances_venue@ =~= Map::<u64, u64>::empty(),
    {
        Ticketing::new()
    }
}

} // verus!
