use symbol_diff::classify::{classify, MatchCategory, MatchPercent};

fn pct(hundredths: u32) -> Option<MatchPercent> {
    Some(MatchPercent { hundredths })
}

#[test]
fn classify_full_match_is_perfect() {
    assert_eq!(classify(pct(10000)), MatchCategory::Perfect);
}

#[test]
fn classify_just_below_full_is_good() {
    assert_eq!(classify(pct(9990)), MatchCategory::Good);
}

#[test]
fn classify_just_below_half_is_poor() {
    assert_eq!(classify(pct(4990)), MatchCategory::Poor);
}

#[test]
fn classify_absent_is_unknown() {
    assert_eq!(classify(None), MatchCategory::Unknown);
}

#[test]
fn classify_boundaries() {
    assert_eq!(classify(pct(9999)), MatchCategory::Good);
    assert_eq!(classify(pct(5000)), MatchCategory::Good);
    assert_eq!(classify(pct(4999)), MatchCategory::Poor);
    assert_eq!(classify(pct(0)), MatchCategory::Poor);
}

#[test]
fn match_percent_new_refuses_out_of_range() {
    assert!(MatchPercent::new(10000).is_some());
    assert_eq!(MatchPercent::new(10000).unwrap().hundredths, 10000);
    assert!(MatchPercent::new(10001).is_none());
}
