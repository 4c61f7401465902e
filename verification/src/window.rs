//! The window controller: which request each command makes of the host.
//!
//! The host carries a request out and may fail to; the controller never
//! learns of it and reports nothing. A failed query of the window's state is
//! read as "not maximized".

use vstd::prelude::*;

verus! {

/// What the controller asks the host to do to the window.
#[derive(Debug, Clone, Copy, PartialEq, Eq, Structural)]
pub enum WindowRequest {
    Minimize,
    Maximize,
    Unmaximize,
    Close,
}

/// Whether the window counts as maximized, given what the host's query
/// reported (`None` when the query failed).
pub open spec fn counts_as_maximized(reported: Option<bool>) -> bool {
    reported == Some(true)
}

/// The request by which the maximize command toggles the window: a window
/// that counts as maximized is restored, any other is maximized.
pub open spec fn toggle_request(reported: Option<bool>) -> WindowRequest {
    if counts_as_maximized(reported) {
        WindowRequest::Unmaximize
    } else {
        WindowRequest::Maximize
    }
}

/// The minimize command asks for the window to be minimized.
pub fn minimize_window() -> (request: WindowRequest)
    ensures
        request == WindowRequest::Minimize,
{
    WindowRequest::Minimize
}

/// The maximize command toggles: it restores a maximized window and
/// maximizes any other. `reported` is the answer to the host's query of the
/// window's state, `None` when the query failed.
pub fn maximize_window(reported: Option<bool>) -> (request: WindowRequest)
    ensures
        request == toggle_request(reported),
{
    if is_maximized(reported) {
        WindowRequest::Unmaximize
    } else {
        WindowRequest::Maximize
    }
}

/// The close command asks for the window to be closed.
pub fn close_window() -> (request: WindowRequest)
    ensures
        request == WindowRequest::Close,
{
    WindowRequest::Close
}

/// Whether the window is maximized, as far as the host's query tells: a
/// failed query gives `false`.
pub fn is_maximized(reported: Option<bool>) -> (maximized: bool)
    ensures
        maximized == counts_as_maximized(reported),
{
    match reported {
        Some(maximized) => maximized,
        None => false,
    }
}

/// The state of a window on a host that carries out every request. A window
/// is in one placement at a time, so a minimized window is not a maximized
/// one.
pub enum Placement {
    Normal,
    Minimized,
    Maximized,
    Closed,
}

impl Placement {
    /// The placement after the host has carried out `request`. Nothing
    /// changes a closed window.
    pub open spec fn after(self, request: WindowRequest) -> Placement {
        if self is Closed {
            Placement::Closed
        } else {
            match request {
                WindowRequest::Minimize => Placement::Minimized,
                WindowRequest::Maximize => Placement::Maximized,
                WindowRequest::Unmaximize => Placement::Normal,
                WindowRequest::Close => Placement::Closed,
            }
        }
    }

    /// What a query of this window's state reports; the query of a closed
    /// window fails.
    pub open spec fn report(self) -> Option<bool> {
        if self is Closed {
            None
        } else {
            Some(self is Maximized)
        }
    }

    /// The placement after one maximize command.
    pub open spec fn toggled(self) -> Placement {
        self.after(toggle_request(self.report()))
    }
}

/// Right after the minimize command the window does not count as maximized,
/// whether the query of its state answers or fails.
pub proof fn lemma_minimized_is_not_maximized(before: Placement, reported: Option<bool>)
    requires
        reported is None || reported == before.after(WindowRequest::Minimize).report(),
    ensures
        !counts_as_maximized(reported),
{
}

/// Two maximize commands in a row bring a window that was not maximized back
/// to not maximized; the first of them maximizes it if it is open.
pub proof fn lemma_toggle_twice_restores(before: Placement)
    requires
        !(before is Maximized),
    ensures
        !(before is Closed) ==> before.toggled() is Maximized,
        !(before.toggled().toggled() is Maximized),
        !counts_as_maximized(before.toggled().toggled().report()),
{
}

/// A failed query of the window's state makes the maximize command ask for
/// maximizing.
pub proof fn lemma_failed_query_maximizes()
    ensures
        toggle_request(None) == WindowRequest::Maximize,
        !counts_as_maximized(None),
{
}

} // verus!
