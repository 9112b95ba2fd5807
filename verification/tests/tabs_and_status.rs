use torlite::labels::{next_browser_window_label, tab_label, WindowCounter};
use torlite::status::{TorStatus, TorStatusBoard};
use torlite::tabs::{plan_tab, tab_layout, ActiveTabs, PageCommand, Placement};

#[test]
fn planning_a_tab_names_it_and_its_profile() {
    let mut c = WindowCounter::new();
    c.next_id();
    let plan = plan_tab(&mut c, "https://check.torproject.org").expect("a good URL");
    assert_eq!(plan.id, 2);
    assert_eq!(plan.label, "visor_2");
    assert_eq!(plan.profile_dir, "visor_profile_2");
    assert_eq!(plan.target.as_str(), "https://check.torproject.org/");
}

#[test]
fn a_refused_url_still_uses_up_a_number() {
    let mut c = WindowCounter::new();
    assert_eq!(plan_tab(&mut c, "::nonsense").err(), Some("relative URL without a base".to_string()));
    let plan = plan_tab(&mut c, "http://example.com").expect("a good URL");
    assert_eq!(plan.label, "visor_2");
}

#[test]
fn active_tab_is_remembered_per_window() {
    let mut t = ActiveTabs::new();
    assert_eq!(t.active_for("browser_1"), None);
    t.set_active("browser_1".to_string(), "visor_2".to_string());
    t.set_active("browser_5".to_string(), "visor_6".to_string());
    assert_eq!(t.active_for("browser_1"), Some("visor_2".to_string()));
    t.set_active("browser_1".to_string(), "visor_3".to_string());
    assert_eq!(t.active_for("browser_1"), Some("visor_3".to_string()));
    assert_eq!(t.active_for("browser_5"), Some("visor_6".to_string()));
}

#[test]
fn resize_fits_active_tab_of_browser_windows_only() {
    let mut t = ActiveTabs::new();
    t.set_active("browser_1".to_string(), "visor_2".to_string());
    t.set_active("main".to_string(), "visor_9".to_string());
    assert_eq!(t.tab_to_fit_after_resize("browser_1"), Some("visor_2".to_string()));
    assert_eq!(t.tab_to_fit_after_resize("main"), None);
    assert_eq!(t.tab_to_fit_after_resize("browser_7"), None);
}

#[test]
fn layout_shows_active_and_hides_others() {
    let layout = tab_layout(&"visor_2".to_string(), &vec!["visor_3".to_string(), "visor_4".to_string()]);
    assert_eq!(
        layout,
        vec![
            ("visor_2".to_string(), Placement::Content),
            ("visor_3".to_string(), Placement::Hidden),
            ("visor_4".to_string(), Placement::Hidden),
        ]
    );
    assert_eq!(tab_layout(&"visor_1".to_string(), &vec![]), vec![("visor_1".to_string(), Placement::Content)]);
}

#[test]
fn page_command_scripts() {
    assert_eq!(PageCommand::Back.script(), "window.history.back()");
    assert_eq!(PageCommand::Forward.script(), "window.history.forward()");
    assert_eq!(PageCommand::Reload.script(), "window.location.reload()");
}

#[test]
fn tor_status_texts() {
    assert_eq!(TorStatus::initial(), TorStatus::Connecting);
    assert_eq!(TorStatus::initial().text(), "connecting");
    assert_eq!(TorStatus::after_bootstrap(true).text(), "connected");
    assert_eq!(TorStatus::after_bootstrap(false).text(), "error");
}

#[test]
fn planned_tab_opens_on_the_parsed_url() {
    let mut c = WindowCounter::new();
    let plan = plan_tab(&mut c, "HTTP://Example.COM:80/a/../b").expect("a good URL");
    assert_eq!(plan.target, torlite::navigation::parse_web_url("HTTP://Example.COM:80/a/../b").unwrap());
    assert_eq!(plan.target.as_str(), "http://example.com/b");
    assert_eq!(plan_tab(&mut c, "http://[::1").err(), Some("invalid IPv6 address".to_string()));
    assert_eq!(c.next_id(), 3);
}

#[test]
fn status_board_settles_once() {
    let mut b = TorStatusBoard::new();
    assert_eq!(b.current(), TorStatus::Connecting);
    assert_eq!(b.settle(false), TorStatus::Error);
    assert_eq!(b.settle(true), TorStatus::Error);
    assert_eq!(b.current().text(), "error");
    let mut b = TorStatusBoard::new();
    assert_eq!(b.settle(true), TorStatus::Connected);
    assert_eq!(b.settle(false), TorStatus::Connected);
}

#[test]
fn a_run_of_requests_hands_out_one_to_k() {
    let mut c = WindowCounter::new();
    let mut names = Vec::new();
    for i in 0..50u32 {
        if i % 3 == 0 {
            names.push(next_browser_window_label(&mut c));
        } else {
            let id = c.next_id();
            assert_eq!(id, i + 1);
            names.push(tab_label(id));
        }
    }
    let mut sorted = names.clone();
    sorted.sort();
    sorted.dedup();
    assert_eq!(sorted.len(), 50);
    assert_eq!(c.next_id(), 51);
}
