use mpsgu::settings_manager::Settings;

#[test]
fn default_shortcut_and_download_dir() {
    let s = Settings::new(Some("/home/alice/Downloads".to_string()));
    assert_eq!(s.get_screen_shortcut(), "<Ctrl>a");
    assert_eq!(s.get_save_dir(), "/home/alice/Downloads");
}

#[test]
fn unreadable_download_dir_gives_empty_path() {
    let s = Settings::new(None);
    assert_eq!(s.get_screen_shortcut(), "<Ctrl>a");
    assert_eq!(s.get_save_dir(), "");
}

#[test]
fn shortcut_kept_by_later_calls() {
    let mut s = Settings::new(Some("/tmp".to_string()));
    s.set_screen_shortcut("<Alt>x".to_string());
    s.set_save_dir("/a".to_string());
    let _ = s.get_save_dir();
    let c = s.clone();
    s.set_save_dir("/b".to_string());
    assert_eq!(s.get_screen_shortcut(), "<Alt>x");
    assert_eq!(c.get_screen_shortcut(), "<Alt>x");
    assert_eq!(s.get_save_dir(), "/b");
}

#[test]
fn shortcut_read_after_write() {
    let mut s = Settings::new(Some("/tmp".to_string()));
    s.set_screen_shortcut("<Ctrl><Shift>s".to_string());
    assert_eq!(s.get_screen_shortcut(), "<Ctrl><Shift>s");
    assert_eq!(s.get_save_dir(), "/tmp");
}

#[test]
fn save_dir_read_after_write() {
    let mut s = Settings::new(Some("/tmp".to_string()));
    s.set_save_dir("/home/bob/Pictures".to_string());
    assert_eq!(s.get_save_dir(), "/home/bob/Pictures");
    assert_eq!(s.get_screen_shortcut(), "<Ctrl>a");
}

#[test]
fn clone_keeps_both_fields() {
    let mut s = Settings::new(Some("/a".to_string()));
    s.set_screen_shortcut("<Alt>p".to_string());
    let c = s.clone();
    assert_eq!(c.get_screen_shortcut(), "<Alt>p");
    assert_eq!(c.get_save_dir(), "/a");
}
