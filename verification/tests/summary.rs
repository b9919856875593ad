use codex_pet_limit_rings::summary::{summary_text, LimitSource};

#[test]
fn waiting_when_nothing_known() {
    assert_eq!(summary_text(None, None, LimitSource::Live), "Waiting for Codex limit data");
}

#[test]
fn live_with_both_limits() {
    assert_eq!(summary_text(Some("88%"), Some("41.5%"), LimitSource::Live), "Live Short 88% | Weekly 41.5%");
}

#[test]
fn cached_with_one_limit() {
    assert_eq!(summary_text(Some("3%"), None, LimitSource::Cached), "Cached Short 3%");
    assert_eq!(summary_text(None, Some("70%"), LimitSource::Unknown), "Cached Weekly 70%");
}
