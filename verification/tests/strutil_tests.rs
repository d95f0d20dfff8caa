use cosmolith::strutil::contains_lower;
use cosmolith::strutil::eq_lower;
use cosmolith::strutil::str_eq;
use cosmolith::strutil::to_chars;

#[test]
fn to_chars_decodes_the_characters() {
    assert_eq!(to_chars("abc"), vec!['a', 'b', 'c']);
    assert_eq!(to_chars(""), Vec::<char>::new());
}

#[test]
fn str_eq_is_exact() {
    assert!(str_eq("input_touchpad", "input_touchpad"));
    assert!(!str_eq("input_touchpad", "input_default"));
    assert!(!str_eq("a", "A"));
    assert!(str_eq("", ""));
}

#[test]
fn eq_lower_folds_ascii_case() {
    assert!(eq_lower("TTY", "tty"));
    assert!(eq_lower("WayLand", "wayland"));
    assert!(!eq_lower("ttyS0", "tty"));
}

#[test]
fn contains_lower_finds_patterns_anywhere() {
    assert!(contains_lower("ubuntu:GNOME", "gnome"));
    assert!(contains_lower("Hyprland", "hyprland"));
    assert!(contains_lower("x", ""));
    assert!(!contains_lower("weston", "sway"));
    assert!(!contains_lower("", "sway"));
}
