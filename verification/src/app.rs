//! The dashboard's state and the moves that change it.

use vstd::prelude::*;
use crate::cursor::{
    advance, lemma_advance, lemma_full_cycle, lemma_next_index, lemma_next_prev_inverse,
    lemma_prev_index, next_index, prev_index, SelectableCursor,
};
use crate::gateway::texts;
use crate::logs::LOG_COUNT;
use crate::systemctl::{command_table, SystemctlCommand, COMMAND_COUNT};
use crate::tabs::{get_current_screen, screen_of, tab_titles, Screen, TAB_COUNT};
use crate::version::NginxVersion;

verus! {

/// What the dashboard's state amounts to.
pub ghost struct AppView {
    /// Whether the dashboard goes on running.
    pub running: bool,
    /// The vertical scroll position.
    pub vertical: int,
    /// The tab that is open.
    pub tab: int,
    /// The selected row of the command list.
    pub command: int,
    /// The selected row of the log list.
    pub log: int,
    /// The status text that was fetched last.
    pub status: Seq<char>,
    /// The version that was fetched at the start, if any.
    pub version: Option<NginxVersion>,
}

impl AppView {
    /// Every index is one of its list: the tab among the tabs, each cursor
    /// among its rows.
    pub open spec fn wf(self) -> bool {
        &&& 0 <= self.vertical <= u8::MAX
        &&& 0 <= self.tab < TAB_COUNT
        &&& 0 <= self.command < COMMAND_COUNT
        &&& 0 <= self.log < LOG_COUNT
    }

    /// The state at the start.
    pub open spec fn initial(status: Seq<char>, version: Option<NginxVersion>) -> AppView {
        AppView { running: true, vertical: 0, tab: 0, command: 0, log: 0, status, version }
    }

    /// The state after a request to quit.
    pub open spec fn quit(self) -> AppView {
        AppView { running: false, ..self }
    }

    /// The state after scrolling down by one, which stops at the largest position.
    pub open spec fn scroll_down(self) -> AppView {
        AppView {
            vertical: if self.vertical < u8::MAX { self.vertical + 1 } else { self.vertical },
            ..self
        }
    }

    /// The state after scrolling up by one, which stops at 0.
    pub open spec fn scroll_up(self) -> AppView {
        AppView { vertical: if self.vertical > 0 { self.vertical - 1 } else { self.vertical }, ..self }
    }

    /// The state after a move to the next tab, from the last tab to the first.
    pub open spec fn next_tab(self) -> AppView {
        AppView { tab: next_index(self.tab, TAB_COUNT as int), ..self }
    }

    /// The state after a move to the previous tab, from the first tab to the last.
    pub open spec fn prev_tab(self) -> AppView {
        AppView { tab: prev_index(self.tab, TAB_COUNT as int), ..self }
    }

    /// The state after a move to the next row of the open tab's list: the
    /// command list on the status tab, the log list on the logs tab, no list
    /// elsewhere.
    pub open spec fn next_item(self) -> AppView {
        match screen_of(self.tab) {
            Screen::Status => AppView {
                command: next_index(self.command, COMMAND_COUNT as int),
                ..self
            },
            Screen::Logs => AppView { log: next_index(self.log, LOG_COUNT as int), ..self },
            _ => self,
        }
    }

    /// The state after a move to the previous row of the open tab's list.
    pub open spec fn prev_item(self) -> AppView {
        match screen_of(self.tab) {
            Screen::Status => AppView {
                command: prev_index(self.command, COMMAND_COUNT as int),
                ..self
            },
            Screen::Logs => AppView { log: prev_index(self.log, LOG_COUNT as int), ..self },
            _ => self,
        }
    }

    /// The state after a fresh status text has come in.
    pub open spec fn with_status(self, status: Seq<char>) -> AppView {
        AppView { status, ..self }
    }

    /// The command of the selected row of the command list.
    pub open spec fn selected_command(self) -> SystemctlCommand {
        command_table()[self.command]
    }

    /// The state after `steps` moves to the next tab.
    pub open spec fn next_tab_times(self, steps: nat) -> AppView
        decreases steps,
    {
        if steps == 0 {
            self
        } else {
            self.next_tab_times((steps - 1) as nat).next_tab()
        }
    }

    /// The state after `steps` moves to the next row of the open tab's list.
    pub open spec fn next_item_times(self, steps: nat) -> AppView
        decreases steps,
    {
        if steps == 0 {
            self
        } else {
            self.next_item_times((steps - 1) as nat).next_item()
        }
    }
}

/// No move leads out of the lists: after any of them the tab is one of the
/// tabs and each cursor is on a row of its list.
pub proof fn lemma_moves_keep_indices_in_range(state: AppView)
    requires
        state.wf(),
    ensures
        state.quit().wf(),
        state.scroll_down().wf(),
        state.scroll_up().wf(),
        state.next_tab().wf(),
        state.prev_tab().wf(),
        state.next_item().wf(),
        state.prev_item().wf(),
{
    lemma_next_index(state.tab, TAB_COUNT as int);
    lemma_prev_index(state.tab, TAB_COUNT as int);
    lemma_next_index(state.command, COMMAND_COUNT as int);
    lemma_prev_index(state.command, COMMAND_COUNT as int);
    lemma_next_index(state.log, LOG_COUNT as int);
    lemma_prev_index(state.log, LOG_COUNT as int);
}

/// Any number of moves to the next tab changes the tab alone, and advances
/// it by that number modulo the number of tabs.
pub proof fn lemma_next_tab_times(state: AppView, steps: nat)
    requires
        state.wf(),
    ensures
        state.next_tab_times(steps) == (AppView {
            tab: advance(state.tab, TAB_COUNT as int, steps),
            ..state
        }),
        state.next_tab_times(steps).wf(),
    decreases steps,
{
    lemma_advance(state.tab, TAB_COUNT as int, steps);
    if steps > 0 {
        lemma_next_tab_times(state, (steps - 1) as nat);
    }
}

/// Going forward through all the tabs leads back to the tab one started from,
/// and to the very same state.
pub proof fn lemma_tab_round_trip(state: AppView)
    requires
        state.wf(),
    ensures
        state.next_tab_times(TAB_COUNT as nat) == state,
        state.next_tab().next_tab().next_tab().next_tab() == state,
        state.next_tab().prev_tab() == state,
        state.prev_tab().next_tab() == state,
{
    lemma_next_tab_times(state, TAB_COUNT as nat);
    lemma_full_cycle(state.tab, TAB_COUNT as int);
    lemma_next_prev_inverse(state.tab, TAB_COUNT as int);
    assert(state.next_tab_times(4) == state.next_tab_times(3).next_tab());
    assert(state.next_tab_times(3) == state.next_tab_times(2).next_tab());
    assert(state.next_tab_times(2) == state.next_tab_times(1).next_tab());
    assert(state.next_tab_times(1) == state.next_tab_times(0).next_tab());
}

/// On the status tab any number of moves to the next row changes the command
/// cursor alone, and advances it by that number modulo seven.
pub proof fn lemma_next_command_times(state: AppView, steps: nat)
    requires
        state.wf(),
        screen_of(state.tab) == Screen::Status,
    ensures
        state.next_item_times(steps) == (AppView {
            command: advance(state.command, COMMAND_COUNT as int, steps),
            ..state
        }),
    decreases steps,
{
    if steps > 0 {
        lemma_next_command_times(state, (steps - 1) as nat);
    }
}

/// On the status tab seven moves to the next row lead back to the row one
/// started from, and one move back from the first row leads to the last.
pub proof fn lemma_command_cursor_cycle(state: AppView)
    requires
        state.wf(),
        screen_of(state.tab) == Screen::Status,
    ensures
        state.next_item_times(COMMAND_COUNT as nat) == state,
        state.command == 0 ==> state.prev_item().command == COMMAND_COUNT - 1,
        state.command == COMMAND_COUNT - 1 ==> state.next_item().command == 0,
        state.next_item().prev_item() == state,
        state.prev_item().next_item() == state,
{
    lemma_next_command_times(state, COMMAND_COUNT as nat);
    lemma_full_cycle(state.command, COMMAND_COUNT as int);
    lemma_next_index(state.command, COMMAND_COUNT as int);
    lemma_prev_index(state.command, COMMAND_COUNT as int);
    lemma_next_prev_inverse(state.command, COMMAND_COUNT as int);
}

/// On the logs tab a move to the next row and a move to the previous row both
/// lead to the other of the two rows, and change nothing else.
pub proof fn lemma_log_cursor_toggles(state: AppView)
    requires
        state.wf(),
        screen_of(state.tab) == Screen::Logs,
    ensures
        state.next_item() == (AppView { log: 1 - state.log, ..state }),
        state.prev_item() == (AppView { log: 1 - state.log, ..state }),
        state.next_item().next_item() == state,
        state.prev_item().prev_item() == state,
{
    lemma_next_index(state.log, LOG_COUNT as int);
    lemma_prev_index(state.log, LOG_COUNT as int);
    lemma_next_index(1 - state.log, LOG_COUNT as int);
    lemma_prev_index(1 - state.log, LOG_COUNT as int);
}

/// A change of tab moves neither cursor, and a move of one tab's cursor
/// leaves the other tab's cursor and the open tab as they were.
pub proof fn lemma_tabs_are_isolated(state: AppView)
    ensures
        state.next_tab().command == state.command,
        state.next_tab().log == state.log,
        state.prev_tab().command == state.command,
        state.prev_tab().log == state.log,
        state.next_item().tab == state.tab,
        state.prev_item().tab == state.tab,
        screen_of(state.tab) != Screen::Status ==> state.next_item().command == state.command
            && state.prev_item().command == state.command,
        screen_of(state.tab) != Screen::Logs ==> state.next_item().log == state.log
            && state.prev_item().log == state.log,
{
}

/// The command of row `i` of the command list is the `i`-th of the seven, in
/// the order start, stop, restart, reload, status, enable, disable.
pub proof fn lemma_selected_command_by_row(state: AppView)
    requires
        state.wf(),
    ensures
        state.selected_command() == command_table()[state.command],
        state.command == 0 ==> state.selected_command() == SystemctlCommand::Start,
        state.command == 1 ==> state.selected_command() == SystemctlCommand::Stop,
        state.command == 2 ==> state.selected_command() == SystemctlCommand::Restart,
        state.command == 3 ==> state.selected_command() == SystemctlCommand::Reload,
        state.command == 4 ==> state.selected_command() == SystemctlCommand::Status,
        state.command == 5 ==> state.selected_command() == SystemctlCommand::Enable,
        state.command == 6 ==> state.selected_command() == SystemctlCommand::Disable,
{
}

/// The dashboard's state.
#[derive(Debug)]
pub struct App {
    running: bool,
    vertical_position: u8,
    list_state: SelectableCursor,
    log_list_state: SelectableCursor,
    status: String,
    nginx_version: Option<NginxVersion>,
    titles: Vec<String>,
    tab_index: usize,
}

impl View for App {
    type V = AppView;

    closed spec fn view(&self) -> AppView {
        AppView {
            running: self.running,
            vertical: self.vertical_position as int,
            tab: self.tab_index as int,
            command: self.list_state.position(),
            log: self.log_list_state.position(),
            status: self.status@,
            version: self.nginx_version,
        }
    }
}

impl App {
    #[verifier::type_invariant]
    spec fn inv(self) -> bool {
        &&& self.tab_index < TAB_COUNT
        &&& self.list_state.len() == COMMAND_COUNT
        &&& self.log_list_state.len() == LOG_COUNT
        &&& texts(self.titles@) == tab_titles()
    }

    /// The state at the start: running, on the first tab, both cursors on
    /// their first row, with the status and version that were fetched.
    pub fn new(status: String, nginx_version: Option<NginxVersion>) -> (app: App)
        ensures
            app@ == AppView::initial(status@, nginx_version),
            app@.wf(),
    {
        let mut titles: Vec<String> = Vec::new();
        titles.push(String::from_str("Status"));
        titles.push(String::from_str("Config"));
        titles.push(String::from_str("Logs"));
        titles.push(String::from_str("Templates"));
        assert(texts(titles@) =~= tab_titles());
        App {
            running: true,
            vertical_position: 0,
            list_state: SelectableCursor::new(COMMAND_COUNT),
            log_list_state: SelectableCursor::new(LOG_COUNT),
            status,
            nginx_version,
            titles,
            tab_index: 0,
        }
    }

    /// The passing of time, which changes nothing.
    pub fn tick(&self) {
    }

    /// Asks the dashboard to stop.
    pub fn quit(&mut self)
        ensures
            final(self)@ == old(self)@.quit(),
    {
        proof {
            use_type_invariant(&*self);
        }
        self.running = false;
    }

    /// Scrolls down by one; at the largest position nothing changes.
    pub fn increment_vertical(&mut self)
        ensures
            final(self)@ == old(self)@.scroll_down(),
    {
        proof {
            use_type_invariant(&*self);
        }
        if self.vertical_position < u8::MAX {
            self.vertical_position = self.vertical_position + 1;
        }
    }

    /// Scrolls up by one; at 0 nothing changes.
    pub fn decrement_vertical(&mut self)
        ensures
            final(self)@ == old(self)@.scroll_up(),
    {
        proof {
            use_type_invariant(&*self);
        }
        if self.vertical_position > 0 {
            self.vertical_position = self.vertical_position - 1;
        }
    }

    /// Opens the next tab, the first one after the last.
    pub fn increment_horizontal(&mut self)
        ensures
            final(self)@ == old(self)@.next_tab(),
            final(self)@.wf(),
    {
        proof {
            use_type_invariant(&*self);
            use_type_invariant(&self.list_state);
            use_type_invariant(&self.log_list_state);
            lemma_next_index(self.tab_index as int, TAB_COUNT as int);
        }
        if self.tab_index >= TAB_COUNT - 1 {
            self.tab_index = 0;
        } else {
            self.tab_index = self.tab_index + 1;
        }
    }

    /// Opens the previous tab, the last one before the first.
    pub fn decrement_horizontal(&mut self)
        ensures
            final(self)@ == old(self)@.prev_tab(),
            final(self)@.wf(),
    {
        proof {
            use_type_invariant(&*self);
            use_type_invariant(&self.list_state);
            use_type_invariant(&self.log_list_state);
            lemma_prev_index(self.tab_index as int, TAB_COUNT as int);
        }
        if self.tab_index == 0 {
            self.tab_index = TAB_COUNT - 1;
        } else {
            self.tab_index = self.tab_index - 1;
        }
    }

    /// Selects the next row of the open tab's list, the first one after the last.
    pub fn increment_selection(&mut self)
        ensures
            final(self)@ == old(self)@.next_item(),
            final(self)@.wf(),
    {
        proof {
            use_type_invariant(&*self);
            use_type_invariant(&self.list_state);
            use_type_invariant(&self.log_list_state);
            lemma_next_index(self.list_state.position(), COMMAND_COUNT as int);
            lemma_next_index(self.log_list_state.position(), LOG_COUNT as int);
        }
        match get_current_screen(self) {
            Screen::Status => {
                self.list_state.select_next();
            },
            Screen::Logs => {
                self.log_list_state.select_next();
            },
            Screen::Config => {},
            Screen::Template => {},
            Screen::Unknown => {},
        }
    }

    /// Selects the previous row of the open tab's list, the last one before the first.
    pub fn decrement_selection(&mut self)
        ensures
            final(self)@ == old(self)@.prev_item(),
            final(self)@.wf(),
    {
        proof {
            use_type_invariant(&*self);
            use_type_invariant(&self.list_state);
            use_type_invariant(&self.log_list_state);
            lemma_prev_index(self.list_state.position(), COMMAND_COUNT as int);
            lemma_prev_index(self.log_list_state.position(), LOG_COUNT as int);
        }
        match get_current_screen(self) {
            Screen::Status => {
                self.list_state.select_previous();
            },
            Screen::Logs => {
                self.log_list_state.select_previous();
            },
            Screen::Config => {},
            Screen::Template => {},
            Screen::Unknown => {},
        }
    }

    /// The command of the selected row of the command list.
    pub fn selected_command(&self) -> (command: SystemctlCommand)
        ensures
            command == self@.selected_command(),
            self@.wf(),
    {
        proof {
            use_type_invariant(self);
            use_type_invariant(&self.list_state);
            use_type_invariant(&self.log_list_state);
        }
        let table = SystemctlCommand::all();
        table[self.list_state.selected()]
    }

    /// Takes in a status text that was fetched afresh.
    pub fn set_status(&mut self, status: String)
        ensures
            final(self)@ == old(self)@.with_status(status@),
    {
        proof {
            use_type_invariant(&*self);
        }
        self.status = status;
    }

    /// Whether the dashboard goes on running.
    pub fn running(&self) -> (running: bool)
        ensures
            running == self@.running,
    {
        self.running
    }

    /// The vertical scroll position.
    pub fn vertical_position(&self) -> (position: u8)
        ensures
            position == self@.vertical,
    {
        self.vertical_position
    }

    /// The tab that is open, which is always one of the four.
    pub fn tab_index(&self) -> (index: usize)
        ensures
            index == self@.tab,
            index < TAB_COUNT,
    {
        proof {
            use_type_invariant(self);
        }
        self.tab_index
    }

    /// The tab that is open, by its place in the tab bar.
    pub fn horizontal_position(&self) -> (index: usize)
        ensures
            index == self@.tab,
            index < TAB_COUNT,
    {
        self.tab_index()
    }

    /// The selected row of the command list, which is always one of its rows.
    pub fn selected_command_index(&self) -> (index: usize)
        ensures
            index == self@.command,
            index < COMMAND_COUNT,
    {
        proof {
            use_type_invariant(self);
        }
        self.list_state.selected()
    }

    /// The selected row of the log list, which is always one of its rows.
    pub fn selected_log_index(&self) -> (index: usize)
        ensures
            index == self@.log,
            index < LOG_COUNT,
    {
        proof {
            use_type_invariant(self);
        }
        self.log_list_state.selected()
    }

    /// The status text that was fetched last.
    pub fn status(&self) -> (status: &String)
        ensures
            status@ == self@.status,
    {
        &self.status
    }

    /// The version that was fetched at the start, if any.
    pub fn nginx_version(&self) -> (version: Option<NginxVersion>)
        ensures
            version == self@.version,
    {
        self.nginx_version
    }

    /// The titles of the tabs, in order.
    pub fn titles(&self) -> (titles: &Vec<String>)
        ensures
            texts(titles@) == tab_titles(),
    {
        proof {
            use_type_invariant(self);
        }
        &self.titles
    }
}

} // verus!
