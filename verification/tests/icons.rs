use sketchybartender::icon_map::{get_icon, starts_with};

#[test]
fn test_exact_match() {
    assert_eq!(get_icon("Cursor"), ":cursor:");
    assert_eq!(get_icon("Safari"), ":safari:");
    assert_eq!(get_icon("Discord"), ":discord:");
}

#[test]
fn test_prefix_match() {
    assert_eq!(get_icon("Adobe Photoshop 2024"), ":photoshop:");
    assert_eq!(get_icon("MongoDB Compass Community"), ":mongodb:");
}

#[test]
fn test_default() {
    assert_eq!(get_icon("Unknown App"), ":default:");
}

#[test]
fn exact_names_do_not_match_as_prefixes() {
    assert_eq!(get_icon("Safari Technology Preview"), ":default:");
    assert_eq!(get_icon("safari"), ":default:");
    assert_eq!(get_icon(""), ":default:");
}

#[test]
fn a_prefix_matches_itself() {
    assert_eq!(get_icon("Adobe Photoshop"), ":photoshop:");
    assert_eq!(get_icon("Adobe Photosho"), ":default:");
}

#[test]
fn starts_with_compares_characters() {
    assert!(starts_with("workspace.3", "workspace."));
    assert!(starts_with("abc", ""));
    assert!(starts_with("abc", "abc"));
    assert!(!starts_with("ab", "abc"));
    assert!(!starts_with("abd", "abc"));
    assert!(starts_with("\u{f444} 1", "\u{f444}"));
}
