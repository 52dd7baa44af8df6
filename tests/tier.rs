use magnolia::tier::{classify, TrustLevel};

#[test]
fn classify_labelled_codes() {
    assert_eq!(classify(0), TrustLevel::Visitor);
    assert_eq!(classify(1), TrustLevel::Member);
    assert_eq!(classify(2), TrustLevel::Regular);
    assert_eq!(classify(3), TrustLevel::Staff);
}

#[test]
fn classify_saturates_above_top_level() {
    assert_eq!(classify(4), TrustLevel::Staff);
    assert_eq!(classify(17), TrustLevel::Staff);
    assert_eq!(classify(u64::MAX), TrustLevel::Staff);
}

#[test]
fn level_names() {
    assert_eq!(TrustLevel::Visitor.name(), "Visitor");
    assert_eq!(TrustLevel::Member.name(), "Member");
    assert_eq!(TrustLevel::Regular.name(), "Regular");
    assert_eq!(TrustLevel::Staff.name(), "Staff");
}
