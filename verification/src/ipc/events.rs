//! What the user interface is told when a tab comes or goes.

use vstd::prelude::*;

verus! {

/// The name under which a new tab is announced.
pub open spec fn tab_created_name() -> Seq<char> {
    "tab-created"@
}

/// The name under which the end of a tab is announced.
pub open spec fn tab_closed_name() -> Seq<char> {
    "tab-closed"@
}

/// The name under which a new tab is announced.
pub fn tab_created_event_name() -> (name: &'static str)
    ensures
        name@ == tab_created_name(),
{
    "tab-created"
}

/// The name under which the end of a tab is announced.
pub fn tab_closed_event_name() -> (name: &'static str)
    ensures
        name@ == tab_closed_name(),
{
    "tab-closed"
}

/// A tab was created. `tab_type` is `local` or `ssh`.
#[derive(Debug, Clone, PartialEq, Eq)]
pub struct TabCreatedPayload {
    pub tab_id: String,
    pub tab_type: String,
    pub title: String,
    pub pty_id: Option<String>,
    pub session_id: Option<String>,
}

/// A tab was closed.
#[derive(Debug, Clone, PartialEq, Eq)]
pub struct TabClosedPayload {
    pub tab_id: String,
}

} // verus!
