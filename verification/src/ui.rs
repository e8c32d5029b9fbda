//! The frame that shows the dashboard's state: a title bar, a tab bar, and
//! the panes of the open tab.

use vstd::prelude::*;
use crate::app::{App, AppView};
use crate::gateway::texts;
use crate::logs::{access_log, error_log, log_locations_component, log_paths, LogPane};
use crate::systemctl::{command_table, SystemctlCommand};
use crate::tabs::{get_current_screen, screen_of, tab_titles, Screen};
use crate::version::NginxVersion;

verus! {

/// A pane with a title that shows one text.
#[derive(Debug)]
pub struct TextPane {
    pub title: String,
    pub text: String,
}

/// A pane with a title that shows a list, one row of it highlighted, with a
/// mark before the highlighted row if there is one.
#[derive(Debug)]
pub struct ListPane {
    pub title: String,
    pub items: Vec<String>,
    pub selected: usize,
    pub highlight_symbol: Option<String>,
}

/// The panes below the tab bar.
#[derive(Debug)]
pub enum Body {
    /// The status text on the left, the command list on the right.
    Status { status: TextPane, commands: ListPane },
    /// The log list on the left, the selected log file on the right.
    Logs { picker: ListPane, viewer: LogPane },
    /// Nothing: the tab has no panes yet.
    Empty,
}

/// All that is drawn.
#[derive(Debug)]
pub struct Frame {
    pub title: String,
    pub tabs: Vec<String>,
    pub selected_tab: usize,
    pub body: Body,
}

/// The title bar's text: the dashboard's name, then the version of nginx, or
/// a few words in its place where no version is known.
pub open spec fn title_text(version: Option<NginxVersion>) -> Seq<char> {
    match version {
        Some(v) => "lazynginx, nginx v"@ + v.text(),
        None => "lazynginx, nginx version unknown"@,
    }
}

/// The labels of the command list, by row.
pub open spec fn command_labels() -> Seq<Seq<char>> {
    Seq::new(command_table().len(), |i: int| command_table()[i].label_text())
}

/// The mark of a list's highlighted row, if it has one.
pub open spec fn symbol_text(symbol: Option<String>) -> Option<Seq<char>> {
    match symbol {
        Some(text) => Some(text@),
        None => None,
    }
}

impl ListPane {
    /// Whether the pane has this title, these rows, this row highlighted and
    /// this mark.
    pub open spec fn shows(
        self,
        title: Seq<char>,
        items: Seq<Seq<char>>,
        selected: int,
        symbol: Option<Seq<char>>,
    ) -> bool {
        &&& self.title@ == title
        &&& texts(self.items@) == items
        &&& self.selected == selected
        &&& symbol_text(self.highlight_symbol) == symbol
    }
}

impl Body {
    /// Whether these are the panes of a state's open tab: on the status tab
    /// the status text and the seven commands with the command cursor's row
    /// highlighted; on the logs tab the two log paths with the log cursor's
    /// row highlighted, and the log file of that row; on any other tab
    /// nothing.
    pub open spec fn shows(self, state: AppView) -> bool {
        match self {
            Body::Status { status, commands } => {
                &&& screen_of(state.tab) == Screen::Status
                &&& status.title@ == "Status"@
                &&& status.text@ == state.status
                &&& commands.shows(
                    "Systemctl Commands"@,
                    command_labels(),
                    state.command,
                    Some(">>"@),
                )
            },
            Body::Logs { picker, viewer } => {
                &&& screen_of(state.tab) == Screen::Logs
                &&& picker.shows("Pick Log File"@, log_paths(), state.log, None)
                &&& 0 <= state.log < log_paths().len()
                &&& viewer.path@ == log_paths()[state.log]
                &&& !viewer.trim
            },
            Body::Empty => {
                &&& screen_of(state.tab) != Screen::Status
                &&& screen_of(state.tab) != Screen::Logs
            },
        }
    }
}

impl Frame {
    /// Whether the frame is the one that shows a state.
    pub open spec fn shows(self, state: AppView) -> bool {
        &&& self.title@ == title_text(state.version)
        &&& texts(self.tabs@) == tab_titles()
        &&& self.selected_tab == state.tab
        &&& self.body.shows(state)
    }
}

/// The title bar's text.
pub fn title(version: Option<NginxVersion>) -> (title: String)
    ensures
        title@ == title_text(version),
{
    match version {
        Some(v) => {
            let mut title = String::from_str("lazynginx, nginx v");
            title.append(v.to_text().as_str());
            title
        },
        None => String::from_str("lazynginx, nginx version unknown"),
    }
}

/// A copy of each text, in order.
fn copy_texts(list: &Vec<String>) -> (copy: Vec<String>)
    ensures
        texts(copy@) == texts(list@),
{
    let mut copy: Vec<String> = Vec::new();
    let mut i: usize = 0;
    while i < list.len()
        invariant
            i <= list.len(),
            copy.len() == i,
            forall|j: int| 0 <= j < i ==> copy@[j]@ == list@[j]@,
        decreases list.len() - i,
    {
        copy.push(list[i].clone());
        i = i + 1;
    }
    assert(texts(copy@) =~= texts(list@));
    copy
}

/// The rows of the command list: the label of each command, in order.
pub fn command_rows() -> (rows: Vec<String>)
    ensures
        texts(rows@) == command_labels(),
{
    let table = SystemctlCommand::all();
    let mut rows: Vec<String> = Vec::new();
    let mut i: usize = 0;
    while i < table.len()
        invariant
            table@ == command_table(),
            i <= table.len(),
            rows.len() == i,
            forall|j: int| 0 <= j < i ==> rows@[j]@ == command_table()[j].label_text(),
        decreases table.len() - i,
    {
        rows.push(String::from_str(table[i].label()));
        i = i + 1;
    }
    assert(texts(rows@) =~= command_labels());
    rows
}

/// The frame that shows the state. The state is read and left as it is.
pub fn render(app: &App) -> (frame: Frame)
    ensures
        frame.shows(app@),
{
    let body = match get_current_screen(app) {
        Screen::Status => Body::Status {
            status: TextPane { title: String::from_str("Status"), text: app.status().clone() },
            commands: ListPane {
                title: String::from_str("Systemctl Commands"),
                items: command_rows(),
                selected: app.selected_command_index(),
                highlight_symbol: Some(String::from_str(">>")),
            },
        },
        Screen::Logs => {
            let row = app.selected_log_index();
            Body::Logs {
                picker: ListPane {
                    title: String::from_str("Pick Log File"),
                    items: log_locations_component(),
                    selected: row,
                    highlight_symbol: None,
                },
                viewer: if row == 0 {
                    access_log()
                } else {
                    error_log()
                },
            }
        },
        Screen::Config => Body::Empty,
        Screen::Template => Body::Empty,
        Screen::Unknown => Body::Empty,
    };
    Frame {
        title: title(app.nginx_version()),
        tabs: copy_texts(app.titles()),
        selected_tab: app.tab_index(),
        body,
    }
}

} // verus!
