use x64_browser::window::{
    close_window, is_maximized, maximize_window, minimize_window, WindowRequest,
};

/// A window on a host that carries out every request and answers every
/// query.
#[derive(Debug, Clone, Copy, PartialEq)]
enum Shown {
    Normal,
    Minimized,
    Maximized,
}

fn carry_out(shown: Shown, request: WindowRequest) -> Shown {
    match request {
        WindowRequest::Minimize => Shown::Minimized,
        WindowRequest::Maximize => Shown::Maximized,
        WindowRequest::Unmaximize => Shown::Normal,
        WindowRequest::Close => shown,
    }
}

fn query(shown: Shown) -> Option<bool> {
    Some(shown == Shown::Maximized)
}

#[test]
fn minimize_asks_for_minimize() {
    assert_eq!(minimize_window(), WindowRequest::Minimize);
}

#[test]
fn close_asks_for_close() {
    assert_eq!(close_window(), WindowRequest::Close);
}

#[test]
fn maximize_restores_a_maximized_window() {
    assert_eq!(maximize_window(Some(true)), WindowRequest::Unmaximize);
}

#[test]
fn maximize_maximizes_a_normal_window() {
    assert_eq!(maximize_window(Some(false)), WindowRequest::Maximize);
}

#[test]
fn maximize_fails_open_when_the_query_fails() {
    assert_eq!(maximize_window(None), WindowRequest::Maximize);
}

#[test]
fn is_maximized_reports_the_query() {
    assert!(is_maximized(Some(true)));
    assert!(!is_maximized(Some(false)));
}

#[test]
fn is_maximized_is_false_when_the_query_fails() {
    assert!(!is_maximized(None));
}

#[test]
fn minimized_window_is_not_maximized() {
    for before in [Shown::Normal, Shown::Minimized, Shown::Maximized] {
        let after = carry_out(before, minimize_window());
        assert!(!is_maximized(query(after)));
    }
}

#[test]
fn two_toggles_return_to_not_maximized() {
    for before in [Shown::Normal, Shown::Minimized] {
        let once = carry_out(before, maximize_window(query(before)));
        assert_eq!(once, Shown::Maximized);
        let twice = carry_out(once, maximize_window(query(once)));
        assert_eq!(twice, Shown::Normal);
        assert!(!is_maximized(query(twice)));
    }
}
