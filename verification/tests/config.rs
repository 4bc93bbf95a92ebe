use whycant::config::{Settings, Tristate};

#[test]
fn tristate_spellings() {
    for s in ["on", "1", "TRUE", "Yes"] {
        assert_eq!(Tristate::from_text(s).unwrap(), Tristate::On);
    }
    for s in ["off", "0", "False", "NO"] {
        assert_eq!(Tristate::from_text(s).unwrap(), Tristate::Off);
    }
    assert_eq!(Tristate::from_text("Auto").unwrap(), Tristate::Auto);
    let e = Tristate::from_text("Maybe").unwrap_err();
    assert_eq!(e.message(), "invalid interactive value: maybe");
}

#[test]
fn tristate_from_numbers_and_bools() {
    assert_eq!(Tristate::from_bool(true), Tristate::On);
    assert_eq!(Tristate::from_bool(false), Tristate::Off);
    assert_eq!(Tristate::from_int(-3), Tristate::On);
    assert_eq!(Tristate::from_int(0), Tristate::Off);
    assert_eq!(Tristate::from_uint(7), Tristate::On);
}

#[test]
fn default_settings_are_unset() {
    let s = Settings::default();
    assert!(s.color.is_none() && s.format.is_none() && s.interactive.is_none());
    assert!(s.print_fixes.is_none() && s.ascii.is_none() && s.all.is_none());
}
