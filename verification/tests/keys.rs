use ortholinear::app::Mode;
use ortholinear::keys::{command_for, reload_after, Command, Key, Reload};

#[test]
fn issue_list_keys() {
    assert_eq!(command_for(Mode::Normal, Key::Char('q'), false, false), Command::Quit);
    assert_eq!(command_for(Mode::Normal, Key::Char('j'), false, false), Command::NextIssue);
    assert_eq!(command_for(Mode::Normal, Key::Down, false, false), Command::NextIssue);
    assert_eq!(command_for(Mode::Normal, Key::Up, false, false), Command::PreviousIssue);
    assert_eq!(command_for(Mode::Normal, Key::Char('G'), false, false), Command::LastIssue);
    assert_eq!(command_for(Mode::Normal, Key::Enter, false, false), Command::EnterDetailView);
    assert_eq!(command_for(Mode::Normal, Key::Char('B'), false, false), Command::ToggleBacklog);
    assert_eq!(command_for(Mode::Normal, Key::Char('f'), true, false), Command::EnterSearch);
    assert_eq!(command_for(Mode::Normal, Key::Char('f'), false, false), Command::Nothing);
    assert_eq!(command_for(Mode::Normal, Key::Esc, false, true), Command::ExitSearchResults);
    assert_eq!(command_for(Mode::Normal, Key::Esc, false, false), Command::ClearError);
    assert_eq!(command_for(Mode::Normal, Key::Char('z'), false, false), Command::Nothing);
}

#[test]
fn detail_keys() {
    for k in [Key::Esc, Key::Enter, Key::Char('q')] {
        assert_eq!(command_for(Mode::DetailView, k, false, false), Command::ExitDetailView);
    }
    assert_eq!(command_for(Mode::DetailView, Key::Char('e'), false, false), Command::EditDescription);
    assert_eq!(command_for(Mode::DetailView, Key::Char('o'), false, false), Command::OpenInBrowser);
    assert_eq!(command_for(Mode::DetailView, Key::Char('g'), false, false), Command::ScrollTop);
}

#[test]
fn picker_keys() {
    assert_eq!(command_for(Mode::TeamSelect, Key::Enter, false, false), Command::SelectTeam);
    assert_eq!(command_for(Mode::CycleSelect, Key::Enter, false, false), Command::SelectCycle);
    assert_eq!(command_for(Mode::StatusSelect, Key::Enter, false, false), Command::UpdateStatus);
    assert_eq!(command_for(Mode::IssueFilter, Key::Enter, false, false), Command::ConfirmIssueFilter);
    assert_eq!(command_for(Mode::IssueFilter, Key::Char('q'), false, false), Command::FilterInput('q'));
    assert_eq!(command_for(Mode::TeamSelect, Key::Tab, false, false), Command::NextPickerItem);
    assert_eq!(command_for(Mode::TeamSelect, Key::BackTab, false, false), Command::PreviousPickerItem);
    assert_eq!(command_for(Mode::StatusSelect, Key::Backspace, false, false), Command::FilterBackspace);
    assert_eq!(command_for(Mode::ViewSelect, Key::Esc, false, false), Command::CancelPicker);
}

#[test]
fn search_keys() {
    assert_eq!(command_for(Mode::Search, Key::Char('a'), false, false), Command::SearchInput('a'));
    assert_eq!(command_for(Mode::Search, Key::Enter, false, false), Command::ExecuteSearch);
    assert_eq!(command_for(Mode::Search, Key::Esc, false, false), Command::CancelSearch);
    assert_eq!(command_for(Mode::SearchResults, Key::Char('q'), false, true), Command::Quit);
    assert_eq!(command_for(Mode::SearchResults, Key::Esc, false, true), Command::ExitSearchResults);
    assert_eq!(command_for(Mode::SearchResults, Key::Char('j'), false, true), Command::NextSearchResult);
}

#[test]
fn l_opens_and_h_closes_the_details() {
    assert_eq!(command_for(Mode::Normal, Key::Char('l'), false, false), Command::EnterDetailView);
    assert_eq!(command_for(Mode::DetailView, Key::Char('h'), false, false), Command::ExitDetailView);
}

#[test]
fn j_k_move_in_the_status_picker() {
    assert_eq!(command_for(Mode::StatusSelect, Key::Char('j'), false, false), Command::NextPickerItem);
    assert_eq!(command_for(Mode::StatusSelect, Key::Char('k'), false, false), Command::PreviousPickerItem);
    assert_eq!(command_for(Mode::StatusSelect, Key::Char('d'), false, false), Command::FilterInput('d'));
    assert_eq!(command_for(Mode::TeamSelect, Key::Char('j'), false, false), Command::FilterInput('j'));
}

#[test]
fn question_mark_shows_help_and_any_key_closes_it() {
    assert_eq!(command_for(Mode::Normal, Key::Char('?'), false, false), Command::ShowHelp);
    assert_eq!(command_for(Mode::Help, Key::Char('q'), false, false), Command::CloseHelp);
    assert_eq!(command_for(Mode::Help, Key::Other, false, false), Command::CloseHelp);
}

#[test]
fn reloads_after_commands() {
    assert_eq!(reload_after(Command::Refresh, true), Reload::Backlog);
    assert_eq!(reload_after(Command::Refresh, false), Reload::Issues);
    assert_eq!(reload_after(Command::ToggleBacklog, true), Reload::Backlog);
    assert_eq!(reload_after(Command::ToggleBacklog, false), Reload::Issues);
    assert_eq!(reload_after(Command::ToggleMyIssues, true), Reload::Issues);
    assert_eq!(reload_after(Command::NextIssue, true), Reload::Nothing);
}
