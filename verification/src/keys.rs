//! What each key press asks of the application, in each mode.

use crate::app::Mode;
use vstd::prelude::*;

verus! {

/// A key press, as far as the interface tells keys apart.
#[derive(Debug, Clone, Copy, PartialEq, Eq, Structural)]
pub enum Key {
    Char(char),
    Enter,
    Esc,
    Backspace,
    Up,
    Down,
    Tab,
    BackTab,
    /// Any other key.
    Other,
}

/// What a key press asks the application to do.
#[derive(Debug, Clone, Copy, PartialEq, Eq, Structural)]
pub enum Command {
    Quit,
    NextIssue,
    PreviousIssue,
    FirstIssue,
    LastIssue,
    EnterDetailView,
    EnterIssueFilter,
    EnterTeamSelect,
    EnterCycleSelect,
    JumpToCurrentCycle,
    ToggleBacklog,
    EnterStatusSelect,
    ToggleMyIssues,
    Refresh,
    ClearIssueFilter,
    EnterSearch,
    EnterViewSelect,
    ExitSearchResults,
    ClearError,
    ExitDetailView,
    OpenInBrowser,
    EditDescription,
    ScrollDown,
    ScrollUp,
    ScrollTop,
    ScrollBottom,
    ConfirmIssueFilter,
    CancelPicker,
    FilterBackspace,
    NextPickerItem,
    PreviousPickerItem,
    FilterInput(char),
    SelectTeam,
    SelectCycle,
    UpdateStatus,
    SelectView,
    ExecuteSearch,
    CancelSearch,
    SearchBackspace,
    SearchInput(char),
    NextSearchResult,
    PreviousSearchResult,
    ShowHelp,
    CloseHelp,
    /// The key does nothing in this mode.
    Nothing,
}

/// The keys of the issue list.
pub open spec fn normal_command(key: Key, ctrl: bool, in_search_context: bool) -> Command {
    match key {
        Key::Char('q') => Command::Quit,
        Key::Char('j') | Key::Down => Command::NextIssue,
        Key::Char('k') | Key::Up => Command::PreviousIssue,
        Key::Char('g') => Command::FirstIssue,
        Key::Char('G') => Command::LastIssue,
        Key::Enter | Key::Char('l') => Command::EnterDetailView,
        Key::Char('/') => Command::EnterIssueFilter,
        Key::Char('t') => Command::EnterTeamSelect,
        Key::Char('c') => Command::EnterCycleSelect,
        Key::Char('C') => Command::JumpToCurrentCycle,
        Key::Char('B') => Command::ToggleBacklog,
        Key::Char('s') => Command::EnterStatusSelect,
        Key::Char('m') => Command::ToggleMyIssues,
        Key::Char('r') => Command::Refresh,
        Key::Char('x') => Command::ClearIssueFilter,
        Key::Char('f') => if ctrl {
            Command::EnterSearch
        } else {
            Command::Nothing
        },
        Key::Char('v') => Command::EnterViewSelect,
        Key::Char('?') => Command::ShowHelp,
        Key::Esc => if in_search_context {
            Command::ExitSearchResults
        } else {
            Command::ClearError
        },
        _ => Command::Nothing,
    }
}

/// The keys of an issue's details.
pub open spec fn detail_command(key: Key) -> Command {
    match key {
        Key::Esc | Key::Enter | Key::Char('q') | Key::Char('h') => Command::ExitDetailView,
        Key::Char('o') => Command::OpenInBrowser,
        Key::Char('e') => Command::EditDescription,
        Key::Char('j') | Key::Down => Command::ScrollDown,
        Key::Char('k') | Key::Up => Command::ScrollUp,
        Key::Char('g') => Command::ScrollTop,
        Key::Char('G') => Command::ScrollBottom,
        _ => Command::Nothing,
    }
}

/// The keys of a picker (and of the issue filter): typing filters, the
/// arrows and tabs move, Enter does `confirm`.
pub open spec fn picker_command(key: Key, confirm: Command) -> Command {
    match key {
        Key::Enter => confirm,
        Key::Esc => Command::CancelPicker,
        Key::Backspace => Command::FilterBackspace,
        Key::Down | Key::Tab => Command::NextPickerItem,
        Key::Up | Key::BackTab => Command::PreviousPickerItem,
        Key::Char(c) => Command::FilterInput(c),
        _ => Command::Nothing,
    }
}

/// The keys of the status picker: those of a picker, except that `j` and `k`
/// move down and up.
pub open spec fn status_command(key: Key) -> Command {
    match key {
        Key::Char('j') => Command::NextPickerItem,
        Key::Char('k') => Command::PreviousPickerItem,
        _ => picker_command(key, Command::UpdateStatus),
    }
}

/// The keys of the search box.
pub open spec fn search_command(key: Key) -> Command {
    match key {
        Key::Enter => Command::ExecuteSearch,
        Key::Esc => Command::CancelSearch,
        Key::Backspace => Command::SearchBackspace,
        Key::Char(c) => Command::SearchInput(c),
        _ => Command::Nothing,
    }
}

/// The keys of the search results.
pub open spec fn results_command(key: Key) -> Command {
    match key {
        Key::Char('j') | Key::Down => Command::NextSearchResult,
        Key::Char('k') | Key::Up => Command::PreviousSearchResult,
        Key::Enter => Command::EnterDetailView,
        Key::Char('r') => Command::Refresh,
        Key::Esc => Command::ExitSearchResults,
        Key::Char('q') => Command::Quit,
        _ => Command::Nothing,
    }
}

/// What a key press asks for in `mode`; `ctrl` says whether Control was
/// held.
pub open spec fn spec_command(mode: Mode, key: Key, ctrl: bool, in_search_context: bool) -> Command {
    match mode {
        Mode::Normal => normal_command(key, ctrl, in_search_context),
        Mode::DetailView => detail_command(key),
        Mode::IssueFilter => picker_command(key, Command::ConfirmIssueFilter),
        Mode::TeamSelect => picker_command(key, Command::SelectTeam),
        Mode::CycleSelect => picker_command(key, Command::SelectCycle),
        Mode::StatusSelect => status_command(key),
        Mode::Search => search_command(key),
        Mode::SearchResults => results_command(key),
        Mode::ViewSelect => picker_command(key, Command::SelectView),
        Mode::Help => Command::CloseHelp,
    }
}

fn normal_key(key: Key, ctrl: bool, in_search_context: bool) -> (r: Command)
    ensures
        r == normal_command(key, ctrl, in_search_context),
{
    match key {
        Key::Char('q') => Command::Quit,
        Key::Char('j') | Key::Down => Command::NextIssue,
        Key::Char('k') | Key::Up => Command::PreviousIssue,
        Key::Char('g') => Command::FirstIssue,
        Key::Char('G') => Command::LastIssue,
        Key::Enter | Key::Char('l') => Command::EnterDetailView,
        Key::Char('/') => Command::EnterIssueFilter,
        Key::Char('t') => Command::EnterTeamSelect,
        Key::Char('c') => Command::EnterCycleSelect,
        Key::Char('C') => Command::JumpToCurrentCycle,
        Key::Char('B') => Command::ToggleBacklog,
        Key::Char('s') => Command::EnterStatusSelect,
        Key::Char('m') => Command::ToggleMyIssues,
        Key::Char('r') => Command::Refresh,
        Key::Char('x') => Command::ClearIssueFilter,
        Key::Char('f') => if ctrl {
            Command::EnterSearch
        } else {
            Command::Nothing
        },
        Key::Char('v') => Command::EnterViewSelect,
        Key::Char('?') => Command::ShowHelp,
        Key::Esc => if in_search_context {
            Command::ExitSearchResults
        } else {
            Command::ClearError
        },
        _ => Command::Nothing,
    }
}

fn detail_key(key: Key) -> (r: Command)
    ensures
        r == detail_command(key),
{
    match key {
        Key::Esc | Key::Enter | Key::Char('q') | Key::Char('h') => Command::ExitDetailView,
        Key::Char('o') => Command::OpenInBrowser,
        Key::Char('e') => Command::EditDescription,
        Key::Char('j') | Key::Down => Command::ScrollDown,
        Key::Char('k') | Key::Up => Command::ScrollUp,
        Key::Char('g') => Command::ScrollTop,
        Key::Char('G') => Command::ScrollBottom,
        _ => Command::Nothing,
    }
}

fn picker_key(key: Key, confirm: Command) -> (r: Command)
    ensures
        r == picker_command(key, confirm),
{
    match key {
        Key::Enter => confirm,
        Key::Esc => Command::CancelPicker,
        Key::Backspace => Command::FilterBackspace,
        Key::Down | Key::Tab => Command::NextPickerItem,
        Key::Up | Key::BackTab => Command::PreviousPickerItem,
        Key::Char(c) => Command::FilterInput(c),
        _ => Command::Nothing,
    }
}

fn status_key(key: Key) -> (r: Command)
    ensures
        r == status_command(key),
{
    match key {
        Key::Char('j') => Command::NextPickerItem,
        Key::Char('k') => Command::PreviousPickerItem,
        _ => picker_key(key, Command::UpdateStatus),
    }
}

fn search_key(key: Key) -> (r: Command)
    ensures
        r == search_command(key),
{
    match key {
        Key::Enter => Command::ExecuteSearch,
        Key::Esc => Command::CancelSearch,
        Key::Backspace => Command::SearchBackspace,
        Key::Char(c) => Command::SearchInput(c),
        _ => Command::Nothing,
    }
}

fn results_key(key: Key) -> (r: Command)
    ensures
        r == results_command(key),
{
    match key {
        Key::Char('j') | Key::Down => Command::NextSearchResult,
        Key::Char('k') | Key::Up => Command::PreviousSearchResult,
        Key::Enter => Command::EnterDetailView,
        Key::Char('r') => Command::Refresh,
        Key::Esc => Command::ExitSearchResults,
        Key::Char('q') => Command::Quit,
        _ => Command::Nothing,
    }
}

/// What a key press asks for in `mode`.
pub fn command_for(mode: Mode, key: Key, ctrl: bool, in_search_context: bool) -> (r: Command)
    ensures
        r == spec_command(mode, key, ctrl, in_search_context),
{
    match mode {
        Mode::Normal => normal_key(key, ctrl, in_search_context),
        Mode::DetailView => detail_key(key),
        Mode::IssueFilter => picker_key(key, Command::ConfirmIssueFilter),
        Mode::TeamSelect => picker_key(key, Command::SelectTeam),
        Mode::CycleSelect => picker_key(key, Command::SelectCycle),
        Mode::StatusSelect => status_key(key),
        Mode::Search => search_key(key),
        Mode::SearchResults => results_key(key),
        Mode::ViewSelect => picker_key(key, Command::SelectView),
        Mode::Help => Command::CloseHelp,
    }
}

/// What to load again once a command has changed the state.
#[derive(Debug, Clone, Copy, PartialEq, Eq, Structural)]
pub enum Reload {
    Nothing,
    /// The issues of the current team and cycle.
    Issues,
    /// The backlog of the current team.
    Backlog,
}

/// What to load again after `c`, given whether the backlog shows once `c`
/// has changed the state: refreshing and switching the backlog load what
/// now shows, switching "my issues" loads the issues.
pub open spec fn spec_reload(c: Command, backlog_mode: bool) -> Reload {
    match c {
        Command::Refresh | Command::ToggleBacklog => if backlog_mode {
            Reload::Backlog
        } else {
            Reload::Issues
        },
        Command::ToggleMyIssues => Reload::Issues,
        _ => Reload::Nothing,
    }
}

/// What to load again after `c`, given whether the backlog shows once `c`
/// has changed the state.
pub fn reload_after(c: Command, backlog_mode: bool) -> (r: Reload)
    ensures
        r == spec_reload(c, backlog_mode),
{
    match c {
        Command::Refresh | Command::ToggleBacklog => if backlog_mode {
            Reload::Backlog
        } else {
            Reload::Issues
        },
        Command::ToggleMyIssues => Reload::Issues,
        _ => Reload::Nothing,
    }
}

/// In every picker and in the issue filter, Escape cancels, Backspace
/// deletes, and a typed character goes into the filter, except `j` and `k` in
/// the status picker, which move the selection.
pub proof fn picker_keys_edit_the_filter(mode: Mode, c: char, ctrl: bool, in_search_context: bool)
    requires
        mode == Mode::IssueFilter || mode == Mode::TeamSelect || mode == Mode::CycleSelect
            || mode == Mode::StatusSelect || mode == Mode::ViewSelect,
    ensures
        mode == Mode::StatusSelect && c == 'j' ==> spec_command(mode, Key::Char(c), ctrl, in_search_context)
            == Command::NextPickerItem,
        mode == Mode::StatusSelect && c == 'k' ==> spec_command(mode, Key::Char(c), ctrl, in_search_context)
            == Command::PreviousPickerItem,
        !(mode == Mode::StatusSelect && (c == 'j' || c == 'k')) ==> spec_command(
            mode,
            Key::Char(c),
            ctrl,
            in_search_context,
        ) == Command::FilterInput(c),
        spec_command(mode, Key::Esc, ctrl, in_search_context) == Command::CancelPicker,
        spec_command(mode, Key::Backspace, ctrl, in_search_context) == Command::FilterBackspace,
{
}

/// The details open with Enter or `l` and close with Escape, Enter, `q` or
/// `h`.
pub proof fn details_open_and_close(ctrl: bool, in_search_context: bool)
    ensures
        spec_command(Mode::Normal, Key::Enter, ctrl, in_search_context) == Command::EnterDetailView,
        spec_command(Mode::Normal, Key::Char('l'), ctrl, in_search_context) == Command::EnterDetailView,
        spec_command(Mode::DetailView, Key::Char('h'), ctrl, in_search_context) == Command::ExitDetailView,
        spec_command(Mode::DetailView, Key::Esc, ctrl, in_search_context) == Command::ExitDetailView,
{
}

/// `j` and `k` act as the Down and Up arrows: in the issue list they select
/// the next and the previous issue, in the details they scroll down and up,
/// and in the search results they select the next and the previous result.
pub proof fn j_k_are_the_arrows(ctrl: bool, in_search_context: bool)
    ensures
        spec_command(Mode::Normal, Key::Char('j'), ctrl, in_search_context) == spec_command(
            Mode::Normal,
            Key::Down,
            ctrl,
            in_search_context,
        ),
        spec_command(Mode::Normal, Key::Char('k'), ctrl, in_search_context) == spec_command(
            Mode::Normal,
            Key::Up,
            ctrl,
            in_search_context,
        ),
        spec_command(Mode::Normal, Key::Char('j'), ctrl, in_search_context) == Command::NextIssue,
        spec_command(Mode::Normal, Key::Char('k'), ctrl, in_search_context) == Command::PreviousIssue,
        spec_command(Mode::DetailView, Key::Char('j'), ctrl, in_search_context) == spec_command(
            Mode::DetailView,
            Key::Down,
            ctrl,
            in_search_context,
        ),
        spec_command(Mode::DetailView, Key::Char('k'), ctrl, in_search_context) == spec_command(
            Mode::DetailView,
            Key::Up,
            ctrl,
            in_search_context,
        ),
        spec_command(Mode::DetailView, Key::Char('j'), ctrl, in_search_context) == Command::ScrollDown,
        spec_command(Mode::DetailView, Key::Char('k'), ctrl, in_search_context) == Command::ScrollUp,
        spec_command(Mode::SearchResults, Key::Char('j'), ctrl, in_search_context) == spec_command(
            Mode::SearchResults,
            Key::Down,
            ctrl,
            in_search_context,
        ),
        spec_command(Mode::SearchResults, Key::Char('k'), ctrl, in_search_context) == spec_command(
            Mode::SearchResults,
            Key::Up,
            ctrl,
            in_search_context,
        ),
        spec_command(Mode::SearchResults, Key::Char('j'), ctrl, in_search_context)
            == Command::NextSearchResult,
        spec_command(Mode::SearchResults, Key::Char('k'), ctrl, in_search_context)
            == Command::PreviousSearchResult,
        spec_command(Mode::StatusSelect, Key::Char('j'), ctrl, in_search_context) == spec_command(
            Mode::StatusSelect,
            Key::Down,
            ctrl,
            in_search_context,
        ),
        spec_command(Mode::StatusSelect, Key::Char('k'), ctrl, in_search_context) == spec_command(
            Mode::StatusSelect,
            Key::Up,
            ctrl,
            in_search_context,
        ),
{
}

} // verus!
