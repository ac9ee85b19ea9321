use evolve_core::resource::{Cost, Resource, ResourceType, Resources, AMOUNT_LIMIT, UNIT};

#[test]
fn modify_clamps_at_cap() {
    let mut r = Resource::new(99_500, 100_000, true);
    let ok = r.modify(2_000, false, false);
    assert!(ok);
    assert_eq!(r.amount, 100_000);
    // the applied net change, not the requested one, is tracked
    assert_eq!(r.delta, 500);
}

#[test]
fn modify_fails_below_zero_and_clamps() {
    let mut r = Resource::new(500, 100_000, true);
    let ok = r.modify(-2_000, false, false);
    assert!(!ok);
    assert_eq!(r.amount, 0);
    assert_eq!(r.delta, -500);
}

#[test]
fn modify_buffer_grants_one_unit_slack() {
    let mut r = Resource::new(500, 100_000, true);
    // deficit of 500 parts, within the one-unit slack
    assert!(r.modify(-1_000, false, true));
    assert_eq!(r.amount, 0);

    let mut r2 = Resource::new(500, 100_000, true);
    // deficit of 1_500 parts, beyond the slack
    assert!(!r2.modify(-2_000, false, true));
    assert_eq!(r2.amount, 0);
}

#[test]
fn modify_no_track_leaves_delta() {
    let mut r = Resource::new(0, 100_000, true);
    r.modify(5_000, true, false);
    assert_eq!(r.amount, 5_000);
    assert_eq!(r.delta, 0);
}

#[test]
fn modify_within_range_is_exact() {
    let mut r = Resource::new(10_000, 100_000, true);
    assert!(r.modify(-4_000, false, false));
    assert_eq!(r.amount, 6_000);
    assert!(r.modify(2_500, false, false));
    assert_eq!(r.amount, 8_500);
    assert_eq!(r.delta, -1_500);
}

#[test]
fn is_full_at_and_above_cap() {
    let r = Resource::new(100_000, 100_000, true);
    assert!(r.is_full());
    let r2 = Resource::new(99_999, 100_000, true);
    assert!(!r2.is_full());
}

#[test]
fn rate_closes_interval() {
    let mut r = Resource::new(0, 100_000, true);
    r.modify(500, false, false);
    r.recompute_rate(250);
    // 500 parts over a quarter second is 2000 parts per second
    assert_eq!(r.rate, 2_000);
    assert_eq!(r.delta, 0);

    let mut r2 = Resource::new(10_000, 100_000, true);
    r2.modify(-1_000, false, false);
    r2.recompute_rate(250);
    assert_eq!(r2.rate, -4_000);
}

#[test]
fn starting_ledger() {
    let rs = Resources::new();
    assert_eq!(rs.rna.amount, 0);
    assert_eq!(rs.rna.max, 100 * UNIT);
    assert!(rs.rna.visible);
    assert_eq!(rs.dna.amount, 0);
    assert_eq!(rs.dna.max, 100 * UNIT);
    assert!(!rs.dna.visible);
}

#[test]
fn afford_checks_every_line_item() {
    let mut rs = Resources::new();
    rs.rna.amount = 5_000;
    rs.dna.amount = 1_000;
    let costs = vec![
        Cost { resource: ResourceType::RNA, amount: 5_000 },
        Cost { resource: ResourceType::DNA, amount: 1_001 },
    ];
    assert!(!rs.afford(&costs));
    let costs2 = vec![
        Cost { resource: ResourceType::RNA, amount: 5_000 },
        Cost { resource: ResourceType::DNA, amount: 1_000 },
    ];
    assert!(rs.afford(&costs2));
    assert!(rs.afford(&vec![]));
}

#[test]
fn pay_subtracts_each_line_item_exactly() {
    let mut rs = Resources::new();
    rs.rna.amount = 9_000;
    rs.dna.amount = 4_000;
    let costs = vec![
        Cost { resource: ResourceType::RNA, amount: 2_500 },
        Cost { resource: ResourceType::DNA, amount: 4_000 },
    ];
    assert!(rs.afford(&costs));
    rs.pay(&costs);
    assert_eq!(rs.rna.amount, 6_500);
    assert_eq!(rs.dna.amount, 0);
    // payment does not count toward the displayed rate
    assert_eq!(rs.rna.delta, 0);
}

#[test]
fn pay_clamps_at_zero_when_unchecked() {
    let mut rs = Resources::new();
    rs.rna.amount = 1_000;
    let costs = vec![Cost { resource: ResourceType::RNA, amount: 2_000 }];
    rs.pay(&costs);
    assert_eq!(rs.rna.amount, 0);
}

#[test]
fn amount_limit_bounds_every_cap() {
    let r = Resource::new(AMOUNT_LIMIT, AMOUNT_LIMIT, true);
    assert!(r.is_full());
}
