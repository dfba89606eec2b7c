use pet_bridge::camera::{anchor_from_name, CameraPreviewControl, CameraPreviewRequest, PreviewAnchor};
use pet_bridge::text::{append_decimal, chars_of, contains_text};
use pet_bridge::codec::same_text;

#[test]
fn containment_is_substring_search() {
    assert!(contains_text("SetLEDState GetBatteryLevel", "GetBatteryLevel"));
    assert!(contains_text("abc", ""));
    assert!(contains_text("", ""));
    assert!(!contains_text("", "a"));
    assert!(!contains_text("Vibr", "Vibrate"));
    assert!(contains_text("aaab", "aab"));
    assert!(!contains_text("GetFoodLevel", "getfoodlevel"));
}

#[test]
fn decimal_text_has_no_leading_zeros() {
    let mut s = String::from("n=");
    append_decimal(&mut s, 0);
    assert_eq!(s, "n=0");
    let mut t = String::new();
    append_decimal(&mut t, u64::MAX);
    assert_eq!(t, u64::MAX.to_string());
    let mut u = String::new();
    append_decimal(&mut u, 1005);
    assert_eq!(u, "1005");
}

#[test]
fn text_helpers_compare_by_characters() {
    assert_eq!(chars_of("héllo"), vec!['h', 'é', 'l', 'l', 'o']);
    assert!(same_text("abc", "abc"));
    assert!(!same_text("abc", "abd"));
    assert!(!same_text("abc", "ab"));
}

#[test]
fn preview_requests_set_corner_and_visibility() {
    assert_eq!(anchor_from_name("BottomLeft"), PreviewAnchor::BottomLeft);
    assert_eq!(anchor_from_name("middle"), PreviewAnchor::TopRight);
    let mut c = CameraPreviewControl::new();
    c.apply(CameraPreviewRequest::Disable);
    assert!(!c.enabled);
    c.apply(CameraPreviewRequest::Enable { scale: 750, anchor: "TopLeft".to_string() });
    assert!(c.enabled);
    assert_eq!(c.scale, 750);
    assert_eq!(c.anchor, PreviewAnchor::TopLeft);
    assert_eq!(c.margin, 12_000);
}
