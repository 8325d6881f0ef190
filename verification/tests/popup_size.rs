use herdr_core::popup_size::PopupSize;

#[test]
fn cells_and_percentages_parse() {
    assert_eq!(PopupSize::parse_cli("40"), Ok(PopupSize::Cells(40)));
    assert_eq!(PopupSize::parse_cli("65535"), Ok(PopupSize::Cells(65535)));
    assert_eq!(PopupSize::parse_cli("80%"), Ok(PopupSize::Percent(80)));
    assert_eq!(PopupSize::parse_cli("100%"), Ok(PopupSize::Percent(100)));
}

#[test]
fn other_shapes_are_refused_with_the_accepted_ones() {
    for bad in ["", "0", "65536", "0%", "101%", "%", "4x", "-3", "12 %", "99999999999999999999"] {
        let err = PopupSize::parse_cli(bad).expect_err(bad);
        assert!(err.contains("percentage"), "{bad}: {err}");
    }
}
