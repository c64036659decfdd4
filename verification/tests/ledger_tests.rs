use ticketing::Ticketing;

fn setup_validated_concert(ticket_limit: u32) -> (Ticketing, u64, u64, u64) {
    let mut t = Ticketing::default();
    let artist = t.create_artist("Artist", "band");
    let venue = t.create_venue("Venue", 1_000, 1_000, None);
    let concert = t.create_concert(artist, venue, 1_000_000, 100, ticket_limit);
    t.validate_concert_by_artist(concert, artist);
    t.validate_concert_by_venue(concert, venue);
    (t, concert, artist, venue)
}

#[test]
fn enforces_supply_across_sales_and_distributions() {
    let (mut t, concert, artist, _) = setup_validated_concert(2);
    assert!(t.buy_ticket(concert, "alice", 100).is_some());
    assert!(t.distribute_ticket(concert, artist, "FREE1").is_some());
    assert!(
        t.emit_ticket(concert, artist, None).is_none(),
        "supply cap must block extra tickets"
    );
    assert!(
        t.buy_ticket(concert, "bob", 100).is_none(),
        "supply cap must block further sales"
    );
}

#[test]
fn redeem_distributed_ticket() {
    let (mut t, concert, artist, _) = setup_validated_concert(1);
    let ticket_id = t
        .distribute_ticket(concert, artist, "CODE123")
        .expect("ticket minted");
    assert_eq!(t.redeem_ticket("CODE123", "carol"), Some(ticket_id));
    assert_eq!(t.ticket_owner(ticket_id).as_deref(), Some("carol"));
    assert_eq!(
        t.redeem_ticket("CODE123", "dave"),
        None,
        "code unusable after redeem"
    );
}

#[test]
fn use_ticket_respects_window_and_validation() {
    let (mut t, concert, _, _) = setup_validated_concert(2);
    let early_ticket = t.buy_ticket(concert, "eve", 100).unwrap();
    assert!(!t.use_ticket(early_ticket, "eve", 1_000_000 - 86_401));
    assert!(t.use_ticket(early_ticket, "eve", 1_000_000 - 10));
    assert!(!t.use_ticket(early_ticket, "eve", 1_000_000 - 5), "cannot reuse");

    // After event, usage should fail
    let late_ticket = t.buy_ticket(concert, "frank", 100).unwrap();
    assert!(!t.use_ticket(late_ticket, "frank", 1_000_000 + 1));
}

#[test]
fn trade_ticket_never_above_purchase_price() {
    let (mut t, concert, artist, _) = setup_validated_concert(3);
    let paid_ticket = t.buy_ticket(concert, "gina", 100).unwrap();
    assert!(
        !t.trade_ticket(paid_ticket, "gina", "helen", 120),
        "cannot sell above paid price"
    );
    assert!(t.trade_ticket(paid_ticket, "gina", "helen", 80));

    // Free ticket cannot be resold for profit
    let free_ticket = t.emit_ticket(concert, artist, None).unwrap();
    assert!(!t.trade_ticket(free_ticket, &format!("artist:{artist}"), "ian", 10));
    assert!(t.trade_ticket(free_ticket, &format!("artist:{artist}"), "ian", 0));
}

#[test]
fn zero_capacity_concert_issues_nothing() {
    let (mut t, concert, artist, _) = setup_validated_concert(0);
    assert!(t.buy_ticket(concert, "alice", 100).is_none());
    assert!(t.emit_ticket(concert, artist, None).is_none());
    assert!(t.distribute_ticket(concert, artist, "FREE1").is_none());
}

#[test]
fn single_validation_flag_is_insufficient() {
    let mut t = Ticketing::default();
    let artist = t.create_artist("Artist", "band");
    let venue = t.create_venue("Venue", 500, 1_000, None);
    let concert = t.create_concert(artist, venue, 1_000_000, 100, 5);

    // No validation at all.
    assert!(t.buy_ticket(concert, "alice", 100).is_none());

    // Only the artist's half.
    t.validate_concert_by_artist(concert, artist);
    assert!(t.buy_ticket(concert, "alice", 100).is_none());
    assert!(t.emit_ticket(concert, artist, None).is_none());
    assert!(t.distribute_ticket(concert, artist, "C1").is_none());

    // Both halves together permit sales.
    t.validate_concert_by_venue(concert, venue);
    assert!(t.buy_ticket(concert, "alice", 100).is_some());
}

#[test]
fn validation_ignores_mismatched_identity() {
    let mut t = Ticketing::default();
    let artist = t.create_artist("Artist", "band");
    let venue = t.create_venue("Venue", 500, 1_000, None);
    let concert = t.create_concert(artist, venue, 1_000_000, 100, 5);

    // Wrong callers leave both flags untouched.
    t.validate_concert_by_artist(concert, artist + 7);
    t.validate_concert_by_venue(concert, venue + 7);
    assert!(t.buy_ticket(concert, "alice", 100).is_none());
}

#[test]
fn emit_ticket_requires_matching_artist() {
    let (mut t, concert, artist, _) = setup_validated_concert(5);
    assert!(t.emit_ticket(concert, artist + 1, None).is_none());
    assert!(t.distribute_ticket(concert, artist + 1, "C1").is_none());
    assert!(t.emit_ticket(concert, artist, None).is_some());
}

#[test]
fn emit_ticket_owner_is_synthesized_artist_identity() {
    let (mut t, concert, artist, _) = setup_validated_concert(1);
    let ticket = t.emit_ticket(concert, artist, None).unwrap();
    assert_eq!(t.ticket_owner(ticket), Some(format!("artist:{artist}")));
}

#[test]
fn redeem_with_wrong_code_returns_nothing() {
    let (mut t, concert, artist, _) = setup_validated_concert(2);
    t.distribute_ticket(concert, artist, "RIGHT").unwrap();
    assert_eq!(t.redeem_ticket("WRONG", "carol"), None);
    assert!(t.redeem_ticket("RIGHT", "carol").is_some());
}

#[test]
fn redeem_matches_codes_independently() {
    let (mut t, concert, artist, _) = setup_validated_concert(2);
    let first = t.distribute_ticket(concert, artist, "AAA").unwrap();
    let second = t.distribute_ticket(concert, artist, "BBB").unwrap();
    assert_eq!(t.redeem_ticket("BBB", "carol"), Some(second));
    assert_eq!(t.redeem_ticket("AAA", "dave"), Some(first));
    assert_eq!(t.ticket_owner(first).as_deref(), Some("dave"));
    assert_eq!(t.ticket_owner(second).as_deref(), Some("carol"));
}

#[test]
fn use_ticket_window_boundaries_are_inclusive() {
    let (mut t, concert, _, _) = setup_validated_concert(2);
    let at_start = t.buy_ticket(concert, "eve", 100).unwrap();
    assert!(t.use_ticket(at_start, "eve", 1_000_000 - 86_400));
    let at_event = t.buy_ticket(concert, "frank", 100).unwrap();
    assert!(t.use_ticket(at_event, "frank", 1_000_000));
}

#[test]
fn use_ticket_requires_the_owner() {
    let (mut t, concert, _, _) = setup_validated_concert(1);
    let ticket = t.buy_ticket(concert, "eve", 100).unwrap();
    assert!(!t.use_ticket(ticket, "mallory", 1_000_000 - 10));
    assert!(t.use_ticket(ticket, "eve", 1_000_000 - 10));
}

#[test]
fn transfer_ticket_checks_owner_and_usage() {
    let (mut t, concert, _, _) = setup_validated_concert(2);
    let ticket = t.buy_ticket(concert, "alice", 100).unwrap();
    assert!(!t.transfer_ticket(ticket, "mallory", "bob"));
    assert!(t.transfer_ticket(ticket, "alice", "bob"));
    assert_eq!(t.ticket_owner(ticket).as_deref(), Some("bob"));
    assert!(!t.transfer_ticket(ticket, "alice", "carol"), "old owner lost control");

    let used = t.buy_ticket(concert, "carol", 100).unwrap();
    assert!(t.use_ticket(used, "carol", 1_000_000));
    assert!(!t.transfer_ticket(used, "carol", "dave"), "used tickets are frozen");
}

#[test]
fn trade_ceiling_ratchets_downward() {
    let (mut t, concert, _, _) = setup_validated_concert(1);
    let ticket = t.buy_ticket(concert, "alice", 100).unwrap();
    assert!(t.trade_ticket(ticket, "alice", "bob", 80));
    assert!(!t.trade_ticket(ticket, "bob", "carol", 81), "ceiling fell to 80");
    assert!(t.trade_ticket(ticket, "bob", "carol", 80));
    assert_eq!(t.ticket_owner(ticket).as_deref(), Some("carol"));
}

#[test]
fn trade_rejection_leaves_ticket_unchanged() {
    let (mut t, concert, _, _) = setup_validated_concert(1);
    let ticket = t.buy_ticket(concert, "alice", 100).unwrap();
    assert!(!t.trade_ticket(ticket, "alice", "bob", 120));
    assert_eq!(t.ticket_owner(ticket).as_deref(), Some("alice"));
    assert!(t.trade_ticket(ticket, "alice", "bob", 100), "ceiling still 100");
}

#[test]
fn cash_out_splits_revenue_exactly() {
    let mut t = Ticketing::default();
    let artist = t.create_artist("Artist", "band");
    let venue = t.create_venue("Venue", 500, 2_500, None);
    let concert = t.create_concert(artist, venue, 1_000_000, 100, 10);
    t.validate_concert_by_artist(concert, artist);
    t.validate_concert_by_venue(concert, venue);
    t.buy_ticket(concert, "alice", 120).unwrap();
    t.buy_ticket(concert, "bob", 80).unwrap();

    assert!(!t.cash_out(concert, 999_999), "cannot settle before the event");
    assert!(t.cash_out(concert, 1_000_000));
    // revenue 200 at 2500 bps: venue 50, artist 150
    assert_eq!(t.balance_venue(venue), 50);
    assert_eq!(t.balance_artist(artist), 150);
}

#[test]
fn cash_out_happens_at_most_once() {
    let (mut t, concert, artist, venue) = setup_validated_concert(2);
    t.buy_ticket(concert, "alice", 100).unwrap();
    assert!(t.cash_out(concert, 1_000_000));
    assert!(!t.cash_out(concert, 2_000_000), "second settlement must fail");
    assert_eq!(t.balance_venue(venue), 10);
    assert_eq!(t.balance_artist(artist), 90);
}

#[test]
fn balances_accumulate_across_concerts() {
    let mut t = Ticketing::default();
    let artist = t.create_artist("Artist", "band");
    let venue = t.create_venue("Venue", 500, 1_000, None);
    for date in [1_000_000u64, 2_000_000] {
        let concert = t.create_concert(artist, venue, date, 100, 5);
        t.validate_concert_by_artist(concert, artist);
        t.validate_concert_by_venue(concert, venue);
        t.buy_ticket(concert, "alice", 100).unwrap();
        assert!(t.cash_out(concert, date));
    }
    assert_eq!(t.balance_artist(artist), 180);
    assert_eq!(t.balance_venue(venue), 20);
}

#[test]
fn cash_out_with_dangling_venue_pays_the_artist_everything() {
    let mut t = Ticketing::default();
    let artist = t.create_artist("Artist", "band");
    let venue = t.create_venue("Venue", 500, 1_000, None);
    let missing_venue = venue + 5;
    let concert = t.create_concert(artist, missing_venue, 1_000_000, 100, 5);
    t.validate_concert_by_artist(concert, artist);
    t.validate_concert_by_venue(concert, missing_venue);
    t.buy_ticket(concert, "alice", 100).unwrap();
    // An unknown venue contributes zero basis points to the split.
    assert!(t.cash_out(concert, 1_000_000));
    assert_eq!(t.balance_artist(artist), 100);
    assert_eq!(t.balance_venue(missing_venue), 0);
}

#[test]
fn cash_out_unknown_concert_fails() {
    let mut t = Ticketing::default();
    assert!(!t.cash_out(1, 1_000_000));
}

#[test]
fn queries_default_for_unknown_ids() {
    let t = Ticketing::default();
    assert_eq!(t.ticket_owner(1), None);
    assert_eq!(t.balance_artist(1), 0);
    assert_eq!(t.balance_venue(1), 0);
}

#[test]
fn buy_ticket_counts_artist_sales() {
    let (mut t, concert, _, _) = setup_validated_concert(3);
    t.buy_ticket(concert, "alice", 100).unwrap();
    t.buy_ticket(concert, "bob", 100).unwrap();
    assert_eq!(t.artists[0].total_tickets_sold, 2);
}

#[test]
fn update_operations_ignore_unknown_ids() {
    let mut t = Ticketing::default();
    t.create_artist("Artist", "band");
    t.create_venue("Venue", 500, 1_000, None);
    t.update_artist(9, "Other", "dj");
    t.update_venue(9, "Other", 10, 20, Some(5));
    assert_eq!(t.artists[0].name, "Artist");
    assert_eq!(t.venues[0].name, "Venue");
}

#[test]
fn update_operations_overwrite_known_records() {
    let mut t = Ticketing::default();
    let artist = t.create_artist("Artist", "band");
    let venue = t.create_venue("Venue", 500, 1_000, None);
    t.update_artist(artist, "Renamed", "dj");
    t.update_venue(venue, "Moved", 750, 2_000, Some(1_234));
    assert_eq!(t.artists[0].name, "Renamed");
    assert_eq!(t.artists[0].artist_type, "dj");
    assert_eq!(t.venues[0].name, "Moved");
    assert_eq!(t.venues[0].capacity, 750);
    assert_eq!(t.venues[0].venue_cut_bps, 2_000);
    assert_eq!(t.venues[0].next_concert_date, Some(1_234));
}

#[test]
fn operations_on_unknown_identifiers_fail() {
    let mut t = Ticketing::default();
    assert!(t.buy_ticket(1, "alice", 100).is_none());
    assert!(t.emit_ticket(1, 1, None).is_none());
    assert!(t.distribute_ticket(1, 1, "C").is_none());
    assert!(!t.transfer_ticket(1, "alice", "bob"));
    assert!(!t.trade_ticket(1, "alice", "bob", 0));
    assert!(!t.use_ticket(1, "alice", 0));
    assert_eq!(t.redeem_ticket("C", "alice"), None);
}

#[test]
fn redeem_claims_the_oldest_pending_ticket_first() {
    let (mut t, concert, artist, _) = setup_validated_concert(2);
    let first = t.distribute_ticket(concert, artist, "SAME").unwrap();
    let second = t.distribute_ticket(concert, artist, "SAME").unwrap();
    assert_eq!(t.redeem_ticket("SAME", "carol"), Some(first));
    assert_eq!(t.redeem_ticket("SAME", "dave"), Some(second));
}

#[test]
fn identifiers_increase_from_one_per_entity() {
    let mut t = Ticketing::default();
    assert_eq!(t.create_artist("A", "band"), 1);
    assert_eq!(t.create_artist("B", "dj"), 2);
    assert_eq!(t.create_venue("V", 10, 0, None), 1);
    assert_eq!(t.create_concert(1, 1, 1_000, 5, 3), 1);
    assert_eq!(t.create_concert(2, 1, 2_000, 5, 3), 2);
}
