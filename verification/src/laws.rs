//! The ledger's cross-operation laws, stated and proved once against the
//! spec functions that the operations' contracts use.

use crate::ledger::spec_artist_cut;
use crate::ledger::spec_venue_cut;
use crate::ledger::Ticketing;
use crate::records::owned_by;
use crate::records::redeemable;
use vstd::prelude::*;

verus! {

/// Supply cap: in every well-formed ledger state, no concert has issued more
/// tickets than its cap allows, whatever mix of sales, mints, and
/// distributions produced the count.
pub proof fn lemma_supply_cap(t: Ticketing, concert_id: u64)
    requires
        t.wf(),
        t.has_concert(concert_id),
    ensures
        t.concert_at(concert_id).tickets_issued <= t.concert_at(concert_id).total_tickets,
{
}

/// Supply cap, saturation half: once a concert has issued its whole cap, the
/// shared gate of `emit_ticket`, `buy_ticket`, and `distribute_ticket` is
/// closed, so all three fail.
pub proof fn lemma_saturated_cap_blocks_issuance(t: Ticketing, concert_id: u64)
    requires
        t.has_concert(concert_id),
        t.concert_at(concert_id).tickets_issued == t.concert_at(concert_id).total_tickets,
    ensures
        !t.can_issue(concert_id),
{
}

/// Dual validation gate: every ticket in a well-formed ledger belongs to a
/// concert that both the artist and the venue validated. No issuance
/// operation succeeds with only one flag set, and the flags are never unset,
/// so every ticket ever issued carries both confirmations.
pub proof fn lemma_dual_validation(t: Ticketing, ticket_id: u64)
    requires
        t.wf(),
        t.has_ticket(ticket_id),
    ensures
        t.has_concert(t.ticket_at(ticket_id).concert_id),
        t.concert_at(t.ticket_at(ticket_id).concert_id).validated_by_artist,
        t.concert_at(t.ticket_at(ticket_id).concert_id).validated_by_venue,
{
}

/// Flipping a single flag is not enough: a concert missing either half of
/// the validation pair refuses all issuance.
pub proof fn lemma_single_flag_insufficient(t: Ticketing, concert_id: u64)
    requires
        t.has_concert(concert_id),
        !t.concert_at(concert_id).validated_by_artist || !t.concert_at(
            concert_id,
        ).validated_by_venue,
    ensures
        !t.can_issue(concert_id),
{
}

/// Redeem-once: when a code is carried by a single pending ticket and a
/// successful `redeem_ticket` claims it (`post` is `pre` with that ticket
/// now owned by `user`), no ticket of the new state is redeemable with the
/// code, so a second call with the same code returns no ticket.
pub proof fn lemma_redeem_once(
    pre: Ticketing,
    post: Ticketing,
    code: Seq<char>,
    user: Seq<char>,
    ticket_id: u64,
)
    requires
        pre.has_ticket(ticket_id),
        redeemable(pre.ticket_at(ticket_id), code),
        forall|j: int|
            0 <= j < pre.tickets@.len() && j != ticket_id - 1 ==> !redeemable(
                pre.tickets@[j],
                code,
            ),
        post.tickets@.len() == pre.tickets@.len(),
        forall|j: int|
            0 <= j < pre.tickets@.len() && j != ticket_id - 1 ==> post.tickets@[j]
                == pre.tickets@[j],
        owned_by(post.ticket_at(ticket_id), user),
    ensures
        forall|j: int| 0 <= j < post.tickets@.len() ==> !redeemable(post.tickets@[j], code),
{
    assert forall|j: int| 0 <= j < post.tickets@.len() implies !redeemable(
        post.tickets@[j],
        code,
    ) by {
        if j == ticket_id - 1 {
            assert(post.tickets@[j].owner is Some);
        } else {
            assert(post.tickets@[j] == pre.tickets@[j]);
        }
    }
}

/// Redemption window, one-shot half: a used ticket can never be used again,
/// whoever presents it and whatever time they present it at. The window
/// itself is the `can_use` equivalence in `use_ticket`'s contract.
pub proof fn lemma_use_once(t: Ticketing, ticket_id: u64)
    requires
        t.has_ticket(ticket_id),
        t.ticket_at(ticket_id).used,
    ensures
        forall|who: Seq<char>, now_ts: u64| !t.can_use(ticket_id, who, now_ts),
{
}

/// Price ceiling monotonicity: a successful trade sells at or below the
/// ticket's recorded ceiling and makes its price the new ceiling, so over
/// any chain of successful trades the ceiling never rises.
pub proof fn lemma_price_ceiling_ratchet(pre: Ticketing, post: Ticketing, ticket_id: u64, price: u64)
    requires
        pre.has_ticket(ticket_id),
        post.tickets@.len() == pre.tickets@.len(),
        price <= pre.ticket_at(ticket_id).price_paid,
        post.ticket_at(ticket_id).price_paid == price,
    ensures
        post.ticket_at(ticket_id).price_paid <= pre.ticket_at(ticket_id).price_paid,
{
}

/// Settlement split: for basis points within range, the venue's cut never
/// exceeds the revenue and the two cuts partition it exactly.
pub proof fn lemma_settlement_split(revenue: u64, bps: u16)
    requires
        bps <= 10000,
    ensures
        spec_venue_cut(revenue, bps) <= revenue,
        spec_venue_cut(revenue, bps) + spec_artist_cut(revenue, bps) == revenue,
{
    vstd::arithmetic::mul::lemma_mul_inequality(bps as int, 10000, revenue as int);
    vstd::arithmetic::div_mod::lemma_div_is_ordered(
        revenue as int * bps as int,
        10000 * revenue as int,
        10000,
    );
    vstd::arithmetic::div_mod::lemma_div_multiples_vanish(revenue as int, 10000);
}

/// Settlement idempotence: once a concert is marked cashed out, `can_settle`
/// is false at every later time, so a second `cash_out` always fails.
pub proof fn lemma_settle_once(t: Ticketing, concert_id: u64)
    requires
        t.has_concert(concert_id),
        t.concert_at(concert_id).cashed_out,
    ensures
        forall|now_ts: u64| !t.can_settle(concert_id, now_ts),
{
}

} // verus!
