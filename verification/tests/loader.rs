use css_server::loader::{
    cards_to_insert,
    chunk_ranges, default_rate_index, group_by_member, ledger_reference_pattern, lookup_id, resolve_member_tool,
    LEDGER_CHUNK,
};

#[test]
fn ledger_batches_cover_everything_in_order() {
    assert_eq!(chunk_ranges(0, LEDGER_CHUNK), Vec::<(usize, usize)>::new());
    assert_eq!(chunk_ranges(5, 2), vec![(0, 2), (2, 4), (4, 5)]);
    assert_eq!(chunk_ranges(4, 2), vec![(0, 2), (2, 4)]);
    assert_eq!(chunk_ranges(4001, LEDGER_CHUNK), vec![(0, 2000), (2000, 4000), (4000, 4001)]);
}

#[test]
fn a_members_migrated_entries_are_found_by_reference() {
    assert_eq!(ledger_reference_pattern("u-17"), "toolpass:txn:u-17:%");
}

#[test]
fn the_last_default_rate_tier_of_a_tool_sets_its_rate() {
    let tiers = vec![
        ("t1".to_string(), "Default Rate".to_string()),
        ("t2".to_string(), "Default Rate".to_string()),
        ("t1".to_string(), "Members".to_string()),
        ("t1".to_string(), "Default Rate".to_string()),
    ];
    assert_eq!(default_rate_index(&tiers, &"t1".to_string()), Some(3));
    assert_eq!(default_rate_index(&tiers, &"t2".to_string()), Some(1));
    assert_eq!(default_rate_index(&tiers, &"t3".to_string()), None);
}

#[test]
fn ledger_entries_are_grouped_by_member_in_order() {
    let members: Vec<String> = ["a", "b", "a", "c", "b", "a"].iter().map(|s| s.to_string()).collect();
    let (keys, groups) = group_by_member(&members);
    assert_eq!(keys, vec!["a", "b", "c"]);
    assert_eq!(groups, vec![vec![0, 2, 5], vec![1, 4], vec![3]]);
    let (keys, groups) = group_by_member(&Vec::new());
    assert!(keys.is_empty() && groups.is_empty());
}

#[test]
fn staged_references_resolve_to_the_last_recorded_id() {
    let users = vec![("u1".to_string(), 10u128), ("u2".to_string(), 20), ("u1".to_string(), 11)];
    let tools = vec![("t1".to_string(), 100u128)];
    assert_eq!(lookup_id(&users, "u1"), Some(11));
    assert_eq!(lookup_id(&users, "u3"), None);
    assert_eq!(resolve_member_tool(&users, &tools, "u2", "t1"), Some((20, 100)));
    assert_eq!(resolve_member_tool(&users, &tools, "u2", "t9"), None);
}

#[test]
fn a_second_card_load_inserts_nothing() {
    let c = |u: u128, code: &str| (u, code.to_string());
    let existing = vec![c(1, "AA")];
    let wanted = vec![c(1, "AA"), c(2, "AA"), c(2, "BB"), c(2, "AA")];
    let first = cards_to_insert(&existing, &wanted);
    // Keyed on the pair: a code reissued to another member is its own card.
    assert_eq!(first, vec![c(2, "AA"), c(2, "BB")]);
    let mut after = existing.clone();
    after.extend(first);
    assert!(cards_to_insert(&after, &wanted).is_empty());
}
