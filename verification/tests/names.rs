use torlite::labels::{
    browser_window_label, closed_tab_profile_dir, is_browser_window, is_profile_dir, next_browser_window_label,
    profile_dir_name, tab_label, WindowCounter,
};
use torlite::text::{has_prefix, push_decimal};

#[test]
fn counter_hands_out_increasing_numbers() {
    let mut c = WindowCounter::new();
    assert!(c.can_issue());
    assert_eq!(c.next_id(), 1);
    assert_eq!(c.next_id(), 2);
    assert_eq!(next_browser_window_label(&mut c), "browser_3");
    assert_eq!(c.next_id(), 4);
}

#[test]
fn labels_and_profile_names() {
    assert_eq!(tab_label(1), "visor_1");
    assert_eq!(tab_label(4294967295), "visor_4294967295");
    assert_eq!(browser_window_label(2), "browser_2");
    assert_eq!(profile_dir_name(17), "visor_profile_17");
    assert_eq!(profile_dir_name(0), "visor_profile_0");
}

#[test]
fn distinct_tabs_get_distinct_names() {
    for a in [0u32, 1, 10, 11, 100, 101, 4294967295] {
        for b in [0u32, 1, 10, 11, 100, 101, 4294967295] {
            if a != b {
                assert_ne!(tab_label(a), tab_label(b));
                assert_ne!(profile_dir_name(a), profile_dir_name(b));
            }
            assert_ne!(browser_window_label(a), tab_label(b));
        }
    }
}

#[test]
fn closing_a_tab_names_its_own_profile() {
    for id in [0u32, 7, 42, 65536, 4294967295] {
        assert_eq!(closed_tab_profile_dir(&tab_label(id)), profile_dir_name(id));
    }
    assert_eq!(closed_tab_profile_dir("visor_"), "visor_profile_");
    assert_eq!(closed_tab_profile_dir("abcdefé"), "visor_profile_é");
}

#[test]
fn startup_cleanup_matches_tab_profiles_only() {
    assert!(is_profile_dir(&profile_dir_name(12)));
    assert!(is_profile_dir("visor_profile_"));
    assert!(!is_profile_dir("visor_12"));
    assert!(!is_profile_dir("EBWebView"));
    assert!(!is_profile_dir("visor_profil"));
}

#[test]
fn browser_windows_are_recognised() {
    assert!(is_browser_window(&browser_window_label(5)));
    assert!(!is_browser_window("main"));
    assert!(!is_browser_window(&tab_label(5)));
}

#[test]
fn decimal_text() {
    let mut s = String::from("n=");
    push_decimal(&mut s, 0);
    assert_eq!(s, "n=0");
    let mut s = String::new();
    push_decimal(&mut s, 1234567890);
    assert_eq!(s, "1234567890");
}

#[test]
fn prefix_test() {
    assert!(has_prefix("visor_12", "visor_"));
    assert!(has_prefix("abc", ""));
    assert!(!has_prefix("vis", "visor_"));
    assert!(has_prefix("éa", "é"));
    assert!(!has_prefix("ea", "é"));
}
