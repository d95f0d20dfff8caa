use cosmolith::options::normalize_options;

#[test]
fn normalize_trims_and_drops_empty_segments() {
    assert_eq!(normalize_options(" ,us, ,de,"), "us,de");
}

#[test]
fn normalize_is_idempotent_on_samples() {
    let samples = [
        " ,us, ,de,",
        "",
        ",,,",
        "   ",
        "a b , c",
        "grp:alt_shift_toggle,terminate:ctrl_alt_bksp",
        ", compose:ralt ,",
        "\tcaps:escape\t",
    ];
    for s in samples {
        let once = normalize_options(s);
        let twice = normalize_options(&once);
        assert_eq!(twice, once);
    }
}

#[test]
fn normalize_empty_input_is_empty() {
    assert_eq!(normalize_options(""), "");
    assert_eq!(normalize_options(",,,"), "");
    assert_eq!(normalize_options("  \t "), "");
}

#[test]
fn normalize_keeps_inner_whitespace() {
    assert_eq!(normalize_options(" a b ,c"), "a b,c");
}

#[test]
fn normalize_single_entry() {
    assert_eq!(normalize_options("caps:escape"), "caps:escape");
    assert_eq!(normalize_options("  caps:escape  "), "caps:escape");
}

#[test]
fn normalize_trims_the_whole_whitespace_set() {
    assert_eq!(normalize_options("\u{A0}us\u{A0},\u{2003}de"), "us,de");
    assert_eq!(normalize_options("\u{3000}\u{2028}"), "");
}
