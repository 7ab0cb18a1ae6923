use ortholinear::app::{App, Mode};
use ortholinear::config::{Config, DefaultsConfig};
use ortholinear::fuzzy::filter_items;
use ortholinear::styled::{Color, Line, Span};
use ortholinear::types::{Cycle, Issue, Team, TimelineEvent, User, WorkflowState};
use ortholinear::view::{
    build_detail_content, build_issues_title, cycle_picker_items_with, detail_frame, error_lines,
    footer_line, header_line, input_line, issue_filter_items, issue_list_lines, list_title_text,
    render_timeline_event, status_picker_items, team_picker_items, timeline_dates_sliceable,
};

fn app() -> App {
    App::new(Config { api_key: "k".to_string(), defaults: DefaultsConfig::default() })
}

fn texts(l: &Line) -> Vec<String> {
    l.spans.iter().map(|s| s.content.clone()).collect()
}

fn joined(l: &Line) -> String {
    l.spans.iter().map(|s| s.content.as_str()).collect::<Vec<_>>().join("")
}

fn state(name: &str, state_type: &str) -> WorkflowState {
    WorkflowState { id: format!("s-{}", name), name: name.to_string(), color: "#fff".to_string(), state_type: state_type.to_string() }
}

fn issue(identifier: &str, title: &str, priority: i32) -> Issue {
    Issue {
        id: format!("id-{}", identifier),
        identifier: identifier.to_string(),
        title: title.to_string(),
        description: None,
        url: String::new(),
        state: state("Todo", "unstarted"),
        assignee: None,
        priority,
        project: None,
        team: Some(Team { id: "t".to_string(), name: "Eng".to_string(), key: "ENG".to_string() }),
    }
}

#[test]
fn header_outside_search_names_team_cycle_and_filter() {
    let mut a = app();
    a.current_team = Some(Team { id: "t".to_string(), name: "Eng".to_string(), key: "ENG".to_string() });
    a.current_cycle = Some(Cycle { id: "c".to_string(), name: None, number: 4, starts_at: None, ends_at: None });
    a.issue_filter = "bug".to_string();
    let l = header_line(&a);
    assert_eq!(texts(&l), vec![" [Team: ", "Eng", "] ", "[Cycle: ", "Cycle 4", "]", " [filter: bug]"]);
    assert_eq!(l.spans[1].style.fg, Some(Color::Cyan));
    assert_eq!(l.spans[6].style.fg, Some(Color::Magenta));
}

#[test]
fn header_defaults_without_team_or_cycle() {
    let a = app();
    assert_eq!(joined(&header_line(&a)), " [Team: No team] [Cycle: No cycle]");
    let mut b = app();
    b.backlog_mode = true;
    assert_eq!(joined(&header_line(&b)), " [Team: No team] [View: Backlog]");
}

#[test]
fn header_while_searching_counts_results() {
    let mut a = app();
    a.in_search_context = true;
    a.search_query = "login".to_string();
    a.search_results = vec![issue("ENG-1", "x", 0)];
    assert_eq!(joined(&header_line(&a)), " [Search: login] 1 result");
    a.search_results.push(issue("ENG-2", "y", 0));
    assert_eq!(joined(&header_line(&a)), " [Search: login] 2 results");
    a.search_results.clear();
    assert_eq!(joined(&header_line(&a)), " [Search: login] 0 results");
}

#[test]
fn footer_of_issue_list_follows_my_issues_and_filter() {
    let mut a = app();
    let l = footer_line(&a);
    assert_eq!(
        joined(&l),
        " j/k: nav  Enter: focus  /: filter  ^f: search  s: status  t: team  c: cycle  v: view  B: backlog  C: current  m: mine  r: refresh  q: quit"
    );
    assert_eq!(l.spans[0].style.fg, Some(Color::Yellow));
    assert_eq!(l.spans[1].style.fg, Some(Color::DarkGray));
    a.filter_my_issues = true;
    a.issue_filter = "x".to_string();
    let s = joined(&footer_line(&a));
    assert!(s.contains("m: all  "));
    assert!(s.contains("x: clear  q: quit"));
}

#[test]
fn footer_of_other_modes() {
    let mut a = app();
    a.mode = Mode::DetailView;
    assert_eq!(joined(&footer_line(&a)), " j/k: scroll  g/G: top/bottom  e: edit  o: open  y: copy URL  Esc/Enter/q: back");
    a.mode = Mode::IssueFilter;
    assert_eq!(joined(&footer_line(&a)), " Type to filter  Tab/↓↑: navigate  Enter: confirm  Esc: cancel");
    a.mode = Mode::CycleSelect;
    assert_eq!(joined(&footer_line(&a)), " Type to filter  Tab/↓↑: navigate  Enter: select  Esc: cancel");
    a.mode = Mode::Search;
    assert_eq!(joined(&footer_line(&a)), " Type to search  Enter: search  Esc: cancel");
    a.mode = Mode::SearchResults;
    assert_eq!(joined(&footer_line(&a)), " j/k: navigate  Enter: view  r: refresh  Esc: exit search  q: quit");
}

#[test]
fn issue_list_marks_selection_and_shows_teams_only_in_search() {
    let mut a = app();
    a.issues = vec![issue("ENG-1", "One", 0), issue("ENG-2", "Two", 0)];
    a.filtered_issues = filter_items(&a.issues, "", |i| i.title.clone());
    a.selected_issue_index = 1;
    let lines = issue_list_lines(&a);
    assert_eq!(lines.len(), 2);
    assert_eq!(texts(&lines[0]), vec!["  ", "", "ENG-1", " ", "One"]);
    assert_eq!(texts(&lines[1]), vec!["> ", "", "ENG-2", " ", "Two"]);
    assert_eq!(lines[1].spans[0].style.fg, Some(Color::Yellow));
    assert!(lines[1].spans[4].style.add_modifier.bold);
    assert_eq!(lines[0].spans[2].style.fg, Some(Color::Blue));
    a.in_search_context = true;
    a.search_results = vec![issue("ENG-9", "Nine", 0)];
    a.selected_search_index = 0;
    let lines = issue_list_lines(&a);
    assert_eq!(texts(&lines[0]), vec!["> ", "[ENG] ", "ENG-9", " ", "Nine"]);
}

#[test]
fn issues_title_names_team_cycle_and_my_issues() {
    let mut a = app();
    a.issues = vec![issue("ENG-1", "One", 0), issue("ENG-2", "Two", 0), issue("ENG-3", "Three", 0)];
    a.filtered_issues = filter_items(&a.issues, "", |i| i.title.clone());
    a.current_team = Some(Team { id: "team-1".to_string(), name: "Engineering".to_string(), key: "ENG".to_string() });
    a.current_cycle = Some(Cycle { id: "c5".to_string(), name: None, number: 5, starts_at: None, ends_at: None });
    a.filter_my_issues = true;
    assert_eq!(build_issues_title(&a), " Issues (Engineering · Cycle 5 · My Issues) ");
    a.in_search_context = true;
    assert_eq!(list_title_text(&a), " Search Results ");
}

#[test]
fn issues_title_without_cycle_says_no_active_cycle() {
    let mut a = app();
    a.current_team = Some(Team { id: "team-1".to_string(), name: "Engineering".to_string(), key: "ENG".to_string() });
    a.filter_my_issues = true;
    assert_eq!(build_issues_title(&a), " Issues (Engineering · No active cycle · My Issues) ");
    let b = app();
    assert_eq!(build_issues_title(&b), " Issues (No active cycle) ");
}

#[test]
fn help_lists_the_keys() {
    let lines = ortholinear::view::help_lines();
    assert_eq!(lines.len(), 15);
    assert_eq!(texts(&lines[2]), vec!["Enter/l", "  open the details"]);
    assert_eq!(lines[2].spans[0].style.fg, Some(Color::Yellow));
    let mut a = app();
    a.mode = Mode::Help;
    assert_eq!(joined(&footer_line(&a)), " Press any key to close");
}

#[test]
fn detail_content_lists_fields_description_and_activity() {
    let mut a = app();
    let mut i = issue("ENG-1", "Title here", 1);
    i.state = state("Started", "started");
    i.assignee = Some(User { id: "u".to_string(), name: "Ann".to_string() });
    let lines = build_detail_content(&i, &a);
    assert_eq!(texts(&lines[0]), vec!["Title: ", "Title here"]);
    assert!(lines[0].spans[1].style.add_modifier.bold);
    assert_eq!(texts(&lines[2]), vec!["Status: ", "Started"]);
    assert_eq!(lines[2].spans[1].style.fg, Some(Color::Yellow));
    assert_eq!(texts(&lines[4]), vec!["Assignee: ", "Ann"]);
    assert_eq!(texts(&lines[6]), vec!["Priority: ", "Urgent"]);
    assert_eq!(lines[6].spans[1].style.fg, Some(Color::Red));
    assert_eq!(texts(&lines[8]), vec!["Project: ", "None"]);
    assert_eq!(texts(&lines[10]), vec!["───────────────────────────────"]);
    assert_eq!(texts(&lines[12]), vec!["Description:"]);
    assert_eq!(texts(&lines[14]), vec!["No description"]);
    assert!(lines[14].spans[0].style.add_modifier.italic);
    assert!(lines[15].spans.is_empty());
    assert_eq!(texts(&lines[18]), vec!["Activity:"]);
    assert_eq!(texts(&lines[20]), vec!["Press Enter to load activity"]);
    assert_eq!(lines.len(), 21);
    a.mode = Mode::DetailView;
    let lines = build_detail_content(&i, &a);
    assert_eq!(texts(&lines[20]), vec!["No activity"]);
    a.timeline_loading = true;
    let lines = build_detail_content(&i, &a);
    assert_eq!(texts(&lines[20]), vec!["Loading activity..."]);
}

#[test]
fn detail_priorities_and_status_colors() {
    let a = app();
    for (p, text, color) in [
        (0, "No priority", Color::DarkGray),
        (2, "High", Color::Yellow),
        (3, "Medium", Color::Blue),
        (4, "Low", Color::DarkGray),
        (-1, "Low", Color::DarkGray),
    ] {
        let lines = build_detail_content(&issue("E-1", "t", p), &a);
        assert_eq!(lines[6].spans[1].content, text);
        assert_eq!(lines[6].spans[1].style.fg, Some(color));
    }
    for (t, color) in [
        ("backlog", Color::DarkGray),
        ("unstarted", Color::Gray),
        ("completed", Color::Green),
        ("canceled", Color::Red),
        ("triage", Color::White),
    ] {
        let mut i = issue("E-1", "t", 0);
        i.state = state("S", t);
        let lines = build_detail_content(&i, &a);
        assert_eq!(lines[2].spans[1].style.fg, Some(color));
    }
}

#[test]
fn detail_description_is_markdown_and_timeline_follows() {
    let mut a = app();
    a.timeline_events = vec![TimelineEvent::StatusChange {
        actor: "Bo".to_string(),
        from: "Todo".to_string(),
        to: "Done".to_string(),
        created_at: "2024-01-15T10:30:00.000Z".to_string(),
    }];
    assert!(timeline_dates_sliceable(&a.timeline_events));
    let mut i = issue("E-1", "t", 0);
    i.description = Some("Hello **there**".to_string());
    let lines = build_detail_content(&i, &a);
    assert_eq!(joined(&lines[14]), "Hello there");
    assert_eq!(texts(&lines[20]), vec![" ", "Bo", " · ", "01-15-2024 10:30"]);
    assert_eq!(texts(&lines[21]), vec!["  ", "Todo", " → ", "Done"]);
    assert!(lines[22].spans.is_empty());
    assert_eq!(lines.len(), 23);
}

#[test]
fn timeline_event_lines() {
    let c = TimelineEvent::Comment {
        user: "Al".to_string(),
        body: "line one\n\nline two".to_string(),
        created_at: "2024-02-03".to_string(),
    };
    let lines = render_timeline_event(&c);
    assert_eq!(texts(&lines[0]), vec![" ", "Al", " · ", "02-03-2024"]);
    assert_eq!(lines[0].spans[0].style.fg, Some(Color::White));
    assert_eq!(texts(&lines[1]), vec!["  ", "line one"]);
    assert_eq!(texts(&lines[2]), vec!["  "]);
    assert_eq!(texts(&lines[3]), vec!["  ", "line two"]);
    let a = TimelineEvent::AssigneeChange {
        actor: "Cy".to_string(),
        from: None,
        to: Some("Di".to_string()),
        created_at: "someday".to_string(),
    };
    let lines = render_timeline_event(&a);
    assert_eq!(texts(&lines[0]), vec![" ", "Cy", " · ", "someday"]);
    assert_eq!(lines[0].spans[0].style.fg, Some(Color::Cyan));
    assert_eq!(texts(&lines[1]), vec!["  ", "Unassigned", " → ", "Di"]);
    assert_eq!(lines[1].spans[2].style.fg, Some(Color::Cyan));
}

#[test]
fn pickers_mark_the_selected_entry() {
    let mut a = app();
    a.issues = vec![issue("ENG-1", "One", 0), issue("ENG-2", "Two", 0)];
    a.filtered_issues = filter_items(&a.issues, "", |i| i.title.clone());
    a.selected_issue_index = 1;
    let items = issue_filter_items(&a);
    assert_eq!(items[0].content, "  ENG-1 One");
    assert_eq!(items[1].content, "> ENG-2 Two");
    assert_eq!(items[1].style.fg, Some(Color::Yellow));
    a.teams = vec![Team { id: "t".to_string(), name: "Eng".to_string(), key: "ENG".to_string() }];
    a.filtered_teams = filter_items(&a.teams, "", |t| t.name.clone());
    assert_eq!(team_picker_items(&a)[0].content, "> Eng (ENG)");
    a.workflow_states = vec![state("Todo", "unstarted"), state("Done", "completed")];
    a.filtered_states = filter_items(&a.workflow_states, "", |s| s.name.clone());
    a.selected_status_index = 1;
    let st: Vec<String> = status_picker_items(&a).iter().map(|s| s.content.clone()).collect();
    assert_eq!(st, vec!["  Todo", "> Done"]);
}

#[test]
fn cycle_picker_tags_the_running_cycle() {
    let mut a = app();
    a.cycles = vec![
        Cycle { id: "c1".to_string(), name: Some("One".to_string()), number: 1, starts_at: Some("2024-01-01".to_string()), ends_at: Some("2024-01-14T00:00:00.000Z".to_string()) },
        Cycle { id: "c2".to_string(), name: None, number: 2, starts_at: None, ends_at: None },
    ];
    a.filtered_cycles = filter_items(&a.cycles, "", |c| c.display_name());
    a.selected_cycle_index = 1;
    let items = cycle_picker_items_with(&a, &Some("c1".to_string()));
    assert_eq!(items[0].content, "  One (01-01-2024 - 01-14-2024) [current]");
    assert_eq!(items[0].style.fg, Some(Color::Green));
    assert_eq!(items[1].content, "> Cycle 2");
    assert_eq!(items[1].style.fg, Some(Color::Yellow));
    let items = cycle_picker_items_with(&a, &None);
    assert_eq!(items[0].content, "  One (01-01-2024 - 01-14-2024)");
    assert_eq!(items[0].style.fg, None);
}

#[test]
fn input_and_error_lines() {
    let l = input_line("abc");
    assert_eq!(texts(&l), vec!["> ", "abc", "█"]);
    let e = error_lines("first\nsecond");
    assert_eq!(e.len(), 3);
    assert_eq!(texts(&e[0]), vec!["first", "second"]);
    assert!(e[1].spans.is_empty());
    assert_eq!(texts(&e[2]), vec!["Press Esc to dismiss"]);
    assert_eq!(e[2].spans[0].style.fg, Some(Color::DarkGray));
}

#[test]
fn detail_frame_highlights_focus() {
    let mut a = app();
    assert_eq!(detail_frame(&a), (" Details ".to_string(), Color::DarkGray));
    a.mode = Mode::DetailView;
    assert_eq!(detail_frame(&a), (" Details (focused) ".to_string(), Color::Cyan));
}

#[test]
fn span_helpers_keep_text() {
    let s = Span::raw("x");
    assert_eq!(s.content, "x");
    assert_eq!(s.style.fg, None);
}

#[test]
fn dates_cut_inside_a_character_are_reported() {
    // 'é' takes bytes 9 and 10, so the 10-byte date part would split it.
    let bad = "2024-01-0é".to_string();
    let mut a = app();
    a.cycles = vec![Cycle { id: "c".to_string(), name: None, number: 1, starts_at: Some(bad.clone()), ends_at: None }];
    a.filtered_cycles = filter_items(&a.cycles, "", |c| c.display_name());
    // Only one date is known, so the picker shows none and can be drawn.
    assert!(ortholinear::view::picker_dates_sliceable(&a));
    assert!(!ortholinear::app::cycle_dates_sliceable(&a.cycles));
    a.cycles[0].ends_at = Some("2024-01-02".to_string());
    a.filtered_cycles = filter_items(&a.cycles, "", |c| c.display_name());
    assert!(!ortholinear::view::picker_dates_sliceable(&a));
    let events = vec![TimelineEvent::Comment { user: "u".to_string(), body: "b".to_string(), created_at: bad }];
    assert!(!timeline_dates_sliceable(&events));
    assert!(ortholinear::dates::date_sliceable("short"));
}
