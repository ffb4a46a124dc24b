use lang_switch_indicator::version::version4;

#[test]
fn short_versions_are_padded() {
    assert_eq!(version4("0.1.0"), "0.1.0.0");
    assert_eq!(version4("1"), "1.0.0.0");
    assert_eq!(version4("1.2"), "1.2.0.0");
}

#[test]
fn four_part_versions_unchanged() {
    assert_eq!(version4("1.2.3.4"), "1.2.3.4");
}

#[test]
fn long_versions_are_cut() {
    assert_eq!(version4("1.2.3.4.5"), "1.2.3.4");
    assert_eq!(version4("1.2.3.4.5.6.7"), "1.2.3.4");
}

#[test]
fn empty_and_odd_versions() {
    assert_eq!(version4(""), ".0.0.0");
    assert_eq!(version4("1..2"), "1..2.0");
    assert_eq!(version4("."), "..0.0");
    assert_eq!(version4("1.2-beta"), "1.2-beta.0.0");
    assert_eq!(version4("я.ю"), "я.ю.0.0");
}
