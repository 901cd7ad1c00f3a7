use mpsgu::menus::{delay_label, monitors_menu_entries, rgba_layout};

#[test]
fn delay_labels_of_known_delays() {
    assert_eq!(delay_label(0), "No delay");
    assert_eq!(delay_label(3), "3 second delay");
    assert_eq!(delay_label(5), "5 second delay");
    assert_eq!(delay_label(10), "10 second delay");
}

#[test]
fn delay_label_of_other_delay() {
    assert_eq!(delay_label(2), "unknown delay");
    assert_eq!(delay_label(u64::MAX), "unknown delay");
}

#[test]
fn single_monitor_has_no_menu() {
    assert!(monitors_menu_entries(&vec![]).is_none());
    assert!(monitors_menu_entries(&vec!["eDP-1".to_string()]).is_none());
}

#[test]
fn several_monitors_are_listed_with_indices() {
    let monitors = vec!["eDP-1".to_string(), "HDMI-1".to_string(), "DP-2".to_string()];
    let entries = monitors_menu_entries(&monitors).unwrap();
    assert_eq!(
        entries,
        vec![
            ("eDP-1".to_string(), 0u32),
            ("HDMI-1".to_string(), 1u32),
            ("DP-2".to_string(), 2u32)
        ]
    );
}

#[test]
fn rgba_layout_has_four_bytes_per_pixel() {
    assert_eq!(rgba_layout(1920, 1080), (1920, 1080, 7680));
    assert_eq!(rgba_layout(0, 0), (0, 0, 0));
}
