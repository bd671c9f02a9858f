use exile_poe2::missing_stats::{flatten_newlines, is_handled, is_local_stat, is_reported_mod};

#[test]
fn report_covers_item_and_desecrated_affixes() {
    assert!(is_reported_mod("item", "prefix"));
    assert!(is_reported_mod("item", "suffix"));
    assert!(is_reported_mod("desecrated", "prefix"));
    assert!(is_reported_mod("desecrated", "suffix"));
    assert!(!is_reported_mod("item", "unique"));
    assert!(!is_reported_mod("item", "corrupted"));
    assert!(!is_reported_mod("flask", "prefix"));
    assert!(!is_reported_mod("Item", "prefix"));
    assert!(!is_reported_mod("", ""));
}

#[test]
fn local_stats_start_with_local() {
    assert!(is_local_stat("local_energy_shield"));
    assert!(is_local_stat("local_"));
    assert!(!is_local_stat("base_maximum_life"));
    assert!(!is_local_stat("local"));
    assert!(!is_local_stat("global_local_x"));
}

#[test]
fn handled_stats_are_quoted_in_a_source() {
    let finalizer = "stat_buckets! { \"base_maximum_life\" => [Life], }";
    let balancer = "match_stat_id!(id, { \"local_energy_shield\" => {} })";
    assert!(is_handled("base_maximum_life", finalizer, balancer));
    assert!(is_handled("local_energy_shield", finalizer, balancer));
    assert!(!is_handled("maximum_life", finalizer, balancer));
    assert!(!is_handled("local_energy", finalizer, balancer));
    assert!(!is_handled("base_maximum_life", "", ""));
}

#[test]
fn line_breaks_become_slashes() {
    let flat: String = flatten_newlines("+10 to Strength\n+5% to Fire").into_iter().collect();
    assert_eq!(flat, "+10 to Strength // +5% to Fire");
    let none: String = flatten_newlines("no breaks").into_iter().collect();
    assert_eq!(none, "no breaks");
    let empty: String = flatten_newlines("").into_iter().collect();
    assert_eq!(empty, "");
    let two: String = flatten_newlines("\n\n").into_iter().collect();
    assert_eq!(two, " //  // ");
}
