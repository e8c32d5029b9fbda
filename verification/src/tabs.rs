//! The four tabs and the screen that each shows.

use vstd::prelude::*;
use crate::app::App;

verus! {

/// The number of tabs.
pub const TAB_COUNT: usize = 4;

/// What a tab shows.
#[derive(Clone, Copy, Debug, PartialEq, Eq, Structural)]
pub enum Screen {
    Status,
    Config,
    Logs,
    Template,
    Unknown,
}

/// The titles of the tabs, in order.
pub open spec fn tab_titles() -> Seq<Seq<char>> {
    seq!["Status"@, "Config"@, "Logs"@, "Templates"@]
}

/// The screen of the tab at `index`; an index past the last tab has none of
/// the four.
pub open spec fn screen_of(index: int) -> Screen {
    if index == 0 {
        Screen::Status
    } else if index == 1 {
        Screen::Config
    } else if index == 2 {
        Screen::Logs
    } else if index == 3 {
        Screen::Template
    } else {
        Screen::Unknown
    }
}

/// The screen of the tab at `index`.
pub fn screen_at(index: usize) -> (screen: Screen)
    ensures
        screen == screen_of(index as int),
{
    match index {
        0 => Screen::Status,
        1 => Screen::Config,
        2 => Screen::Logs,
        3 => Screen::Template,
        _ => Screen::Unknown,
    }
}

/// The screen of the tab that is open.
pub fn get_current_screen(app: &App) -> (screen: Screen)
    ensures
        screen == screen_of(app@.tab),
        screen != Screen::Unknown,
{
    screen_at(app.tab_index())
}

} // verus!
