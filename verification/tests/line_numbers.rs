use minus::LineNumbers;
use minus::LineNumbers::{AlwaysOff, AlwaysOn, Disabled, Enabled};

#[test]
fn line_numbers_not() {
    assert_eq!(AlwaysOn, !AlwaysOn);
    assert_eq!(AlwaysOff, !AlwaysOff);
    assert_eq!(Enabled, !Disabled);
    assert_eq!(Disabled, !Enabled);
}

#[test]
fn line_numbers_invertible() {
    assert!(!AlwaysOn.is_invertible());
    assert!(!AlwaysOff.is_invertible());
    assert!(Enabled.is_invertible());
    assert!(Disabled.is_invertible());
}

#[test]
fn toggle_twice_gives_the_mode_back() {
    for mode in [AlwaysOn, Enabled, Disabled, AlwaysOff] {
        let back: LineNumbers = !!mode;
        assert_eq!(back, mode);
    }
}
