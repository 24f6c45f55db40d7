//! Text of the central content area: each page shows a heading and one
//! detail widget under it.

use vstd::prelude::*;
use vstd::string::StringExecFns;
use crate::state::TabPage;

verus! {

/// The heading shown for a page.
pub open spec fn heading_of(t: TabPage) -> Seq<char> {
    match t {
        TabPage::Home => "Home Dashboard"@,
        TabPage::Files => "File Manager"@,
        TabPage::Help => "Help Center"@,
    }
}

/// The text of the detail widget under a page's heading: a label on the
/// Home and Files pages, a button caption on the Help page.
pub open spec fn detail_of(t: TabPage) -> Seq<char> {
    match t {
        TabPage::Home => "Welcome to the main interface!"@,
        TabPage::Files => "Recent files list..."@,
        TabPage::Help => "Open Documentation"@,
    }
}

/// The heading shown for page `t`.
pub fn tab_heading(t: TabPage) -> (r: String)
    ensures
        r@ == heading_of(t),
{
    match t {
        TabPage::Home => String::from_str("Home Dashboard"),
        TabPage::Files => String::from_str("File Manager"),
        TabPage::Help => String::from_str("Help Center"),
    }
}

/// The text of the detail widget under page `t`'s heading.
pub fn tab_detail(t: TabPage) -> (r: String)
    ensures
        r@ == detail_of(t),
{
    match t {
        TabPage::Home => String::from_str("Welcome to the main interface!"),
        TabPage::Files => String::from_str("Recent files list..."),
        TabPage::Help => String::from_str("Open Documentation"),
    }
}

/// Whether page `t`'s detail widget is a button: only the Help page offers
/// one (it opens the documentation); the other pages show a plain label.
pub fn detail_is_button(t: TabPage) -> (r: bool)
    ensures
        r == (t == TabPage::Help),
{
    t == TabPage::Help
}

} // verus!
