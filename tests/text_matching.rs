use tablet_tracker::text::{equals_lowercased, same_text};

#[test]
fn lowercased_match_ignores_case_of_input() {
    assert!(equals_lowercased("GrEeN", "green"));
    assert!(equals_lowercased("green", "green"));
}

#[test]
fn lowercased_match_keeps_case_of_target() {
    assert!(!equals_lowercased("green", "GREEN"));
}

#[test]
fn lowercased_match_rejects_other_lengths() {
    assert!(!equals_lowercased("greens", "green"));
    assert!(!equals_lowercased("", "none"));
    assert!(equals_lowercased("", ""));
}

#[test]
fn lowercased_match_leaves_non_letters() {
    assert!(equals_lowercased("A-1", "a-1"));
    assert!(!equals_lowercased("\u{c9}", "\u{e9}"));
}

#[test]
fn same_text_compares_exactly() {
    assert!(same_text("+x", "+x"));
    assert!(!same_text("+x", "+X"));
    assert!(!same_text("+x", "+x "));
    assert!(same_text("", ""));
}
