use tablet_tracker::background::{background_for, Background};

#[test]
fn green_selects_green() {
    assert_eq!(background_for("green"), Some(Background::Green));
}

#[test]
fn green_in_any_case_selects_green() {
    assert_eq!(background_for("GREEN"), Some(Background::Green));
    assert_eq!(background_for("Green"), Some(Background::Green));
}

#[test]
fn none_selects_transparent() {
    assert_eq!(background_for("none"), Some(Background::Transparent));
    assert_eq!(background_for("NoNe"), Some(Background::Transparent));
}

#[test]
fn other_names_keep_background() {
    assert_eq!(background_for("blue"), None);
    assert_eq!(background_for(""), None);
    assert_eq!(background_for("greenish"), None);
    assert_eq!(background_for(" green"), None);
}
