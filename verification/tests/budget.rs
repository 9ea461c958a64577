use file_search::budget::{HighlightBudget, MAX_FILES_WITH_HIGHLIGHTS, MAX_TOTAL_HIGHLIGHT_SEARCHES};

#[test]
fn budget_that_was_not_asked_for_is_closed() {
    let budget = HighlightBudget::new(false);
    assert!(!budget.should_search());
    assert!(!budget.should_request());
    assert_eq!(budget.attempts(), 0);
    assert_eq!(budget.files_with_highlights(), 0);
}

#[test]
fn budget_closes_after_eleven_attempts() {
    assert_eq!(MAX_TOTAL_HIGHLIGHT_SEARCHES, 11);
    let mut budget = HighlightBudget::new(true);
    for done in 0..11u32 {
        assert!(budget.should_search(), "after {} attempts", done);
        budget.record_attempt(false);
    }
    assert!(!budget.should_search());
    assert_eq!(budget.attempts(), 11);
    assert_eq!(budget.files_with_highlights(), 0);
}

#[test]
fn budget_closes_after_seven_files_with_highlights() {
    assert_eq!(MAX_FILES_WITH_HIGHLIGHTS, 7);
    let mut budget = HighlightBudget::new(true);
    for done in 0..7u32 {
        assert!(budget.should_search(), "after {} files", done);
        budget.record_attempt(true);
    }
    assert!(!budget.should_search());
    assert_eq!(budget.attempts(), 7);
    assert_eq!(budget.files_with_highlights(), 7);
}

#[test]
fn budget_counts_both_kinds_of_attempt() {
    let mut budget = HighlightBudget::new(true);
    budget.record_attempt(true);
    budget.record_attempt(false);
    budget.record_attempt(false);
    budget.record_attempt(true);
    assert!(budget.should_search());
    assert!(budget.should_request());
    assert_eq!(budget.attempts(), 4);
    assert_eq!(budget.files_with_highlights(), 2);
}
