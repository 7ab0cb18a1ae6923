use ortholinear::api::ApiError;
use ortholinear::app::{find_current_cycle, App, Mode};
use ortholinear::config::{AssigneeDefault, Config, CycleDefault, DefaultsConfig};
use ortholinear::fuzzy::filter_items;
use ortholinear::types::{Cycle, Issue, Team, TimelineEvent, User, WorkflowState};

fn mock_config() -> Config {
    Config {
        api_key: "test-key".to_string(),
        defaults: DefaultsConfig::default(),
    }
}

/// What the API answers in these tests.
struct Mock {
    teams: Vec<Team>,
    cycles: Vec<Cycle>,
    issues: Vec<Issue>,
    workflow_states: Vec<WorkflowState>,
    viewer: Option<User>,
}

fn state(id: &str, name: &str, color: &str, state_type: &str) -> WorkflowState {
    WorkflowState {
        id: id.to_string(),
        name: name.to_string(),
        color: color.to_string(),
        state_type: state_type.to_string(),
    }
}

fn issue(id: &str, identifier: &str, title: &str, description: Option<&str>, st: WorkflowState, priority: i32) -> Issue {
    Issue {
        id: id.to_string(),
        identifier: identifier.to_string(),
        title: title.to_string(),
        description: description.map(|d| d.to_string()),
        url: format!("https://linear.app/test/issue/{}", identifier),
        state: st,
        assignee: None,
        priority,
        project: None,
        team: None,
    }
}

fn cycle(id: &str, name: &str, number: i32, starts: Option<String>, ends: Option<String>) -> Cycle {
    Cycle { id: id.to_string(), name: Some(name.to_string()), number, starts_at: starts, ends_at: ends }
}

impl Mock {
    fn new() -> Self {
        Mock {
            teams: vec![
                Team { id: "team-1".to_string(), name: "Engineering".to_string(), key: "ENG".to_string() },
                Team { id: "team-2".to_string(), name: "Design".to_string(), key: "DES".to_string() },
            ],
            cycles: vec![
                cycle("cycle-1", "Sprint 1", 1, None, None),
                cycle("cycle-2", "Sprint 2", 2, None, None),
            ],
            issues: vec![
                issue("issue-1", "ENG-1", "Fix login bug", Some("Users can't log in"), state("state-1", "Todo", "#ccc", "unstarted"), 1),
                issue("issue-2", "ENG-2", "Add feature flag", None, state("state-2", "In Progress", "#00f", "started"), 2),
                issue("issue-3", "ENG-3", "Fix performance issue", None, state("state-1", "Todo", "#ccc", "unstarted"), 3),
            ],
            workflow_states: vec![
                state("state-1", "Todo", "#ccc", "unstarted"),
                state("state-2", "In Progress", "#00f", "started"),
                state("state-3", "Done", "#0f0", "completed"),
            ],
            viewer: Some(User { id: "user-1".to_string(), name: "Test User".to_string() }),
        }
    }
}

fn load_issues(app: &mut App, m: &Mock) {
    let _filter = app.begin_load_issues();
    app.finish_load_issues(Ok(m.issues.clone()));
}

fn load_backlog(app: &mut App, m: &Mock) {
    if app.begin_load_backlog().is_some() {
        app.finish_load_backlog(Ok(m.issues.clone()));
    }
}

fn load_team_data(app: &mut App, m: &Mock) {
    if app.begin_team_data().is_some() {
        app.apply_cycles(Ok(m.cycles.clone()));
        app.apply_workflow_states(Ok(m.workflow_states.clone()));
        load_issues(app, m);
        app.end_loading();
    }
}

fn init(app: &mut App, m: &Mock) {
    app.begin_init();
    app.set_viewer(m.viewer.clone().ok_or(ApiError::MissingData { context: "viewer".to_string() }));
    if app.apply_teams(Ok(m.teams.clone())) {
        load_team_data(app, m);
        if app.backlog_mode {
            load_backlog(app, m);
        }
    }
    app.end_init();
}

fn load_timeline(app: &mut App) {
    if let Some(id) = app.begin_load_timeline() {
        app.finish_load_timeline(id, Ok((Vec::new(), Vec::new())));
    }
}

fn enter_detail_view(app: &mut App) {
    if app.begin_detail_view() {
        load_timeline(app);
    }
}

fn create_test_app() -> App {
    App::new(mock_config())
}

fn with_issues() -> App {
    let mut app = create_test_app();
    app.issues = Mock::new().issues;
    app.filtered_issues = filter_items(&app.issues, "", |i| i.title.clone());
    app
}

fn day_offset(days: i64, fmt: &str) -> String {
    (chrono::Utc::now() + chrono::Duration::days(days)).format(fmt).to_string()
}

#[test]
fn init_loads_teams() {
    let mut app = create_test_app();
    init(&mut app, &Mock::new());

    assert_eq!(app.teams.len(), 2);
    assert_eq!(app.teams[0].name, "Engineering");
    assert_eq!(app.teams[1].name, "Design");
}

#[test]
fn init_sets_current_team() {
    let mut app = create_test_app();
    init(&mut app, &Mock::new());

    assert!(app.current_team.is_some());
    assert_eq!(app.current_team.as_ref().unwrap().name, "Engineering");
}

#[test]
fn init_loads_issues() {
    let mut app = create_test_app();
    init(&mut app, &Mock::new());

    assert_eq!(app.issues.len(), 3);
    assert_eq!(app.filtered_issues.len(), 3);
}

#[test]
fn init_loads_cycles() {
    let mut app = create_test_app();
    init(&mut app, &Mock::new());

    assert_eq!(app.cycles.len(), 2);
    assert!(app.current_cycle.is_some());
}

#[test]
fn init_loads_workflow_states() {
    let mut app = create_test_app();
    init(&mut app, &Mock::new());

    assert_eq!(app.workflow_states.len(), 3);
}

#[test]
fn next_issue_increments_index() {
    let mut app = with_issues();
    app.selected_issue_index = 0;

    app.next_issue();
    assert_eq!(app.selected_issue_index, 1);

    app.next_issue();
    assert_eq!(app.selected_issue_index, 2);
}

#[test]
fn next_issue_stops_at_last() {
    let mut app = with_issues();
    app.selected_issue_index = 2;

    app.next_issue();
    assert_eq!(app.selected_issue_index, 2);
}

#[test]
fn previous_issue_decrements_index() {
    let mut app = with_issues();
    app.selected_issue_index = 2;

    app.previous_issue();
    assert_eq!(app.selected_issue_index, 1);

    app.previous_issue();
    assert_eq!(app.selected_issue_index, 0);
}

#[test]
fn previous_issue_stops_at_first() {
    let mut app = with_issues();
    app.selected_issue_index = 0;

    app.previous_issue();
    assert_eq!(app.selected_issue_index, 0);
}

#[test]
fn first_issue_jumps_to_beginning() {
    let mut app = with_issues();
    app.selected_issue_index = 2;

    app.first_issue();
    assert_eq!(app.selected_issue_index, 0);
}

#[test]
fn last_issue_jumps_to_end() {
    let mut app = with_issues();
    app.selected_issue_index = 0;

    app.last_issue();
    assert_eq!(app.selected_issue_index, 2);
}

#[test]
fn enter_issue_filter_changes_mode() {
    let mut app = create_test_app();
    app.enter_issue_filter();

    assert_eq!(app.mode, Mode::IssueFilter);
    assert!(app.issue_filter.is_empty());
}

#[test]
fn enter_team_select_changes_mode() {
    let mut app = create_test_app();
    app.enter_team_select();

    assert_eq!(app.mode, Mode::TeamSelect);
    assert!(app.team_filter.is_empty());
}

#[test]
fn enter_cycle_select_changes_mode() {
    let mut app = create_test_app();
    app.enter_cycle_select();

    assert_eq!(app.mode, Mode::CycleSelect);
    assert!(app.cycle_filter.is_empty());
}

#[test]
fn filter_input_appends_character() {
    let mut app = create_test_app();
    app.issues = Mock::new().issues;
    app.mode = Mode::IssueFilter;

    app.filter_input('a');
    assert_eq!(app.issue_filter, "a");

    app.filter_input('b');
    assert_eq!(app.issue_filter, "ab");
}

#[test]
fn filter_backspace_removes_character() {
    let mut app = create_test_app();
    app.issues = Mock::new().issues;
    app.mode = Mode::IssueFilter;
    app.issue_filter = "abc".to_string();

    app.filter_backspace();
    assert_eq!(app.issue_filter, "ab");

    app.filter_backspace();
    assert_eq!(app.issue_filter, "a");
}

#[test]
fn filter_backspace_handles_empty() {
    let mut app = create_test_app();
    app.mode = Mode::IssueFilter;
    app.issue_filter = String::new();

    app.filter_backspace();
    assert!(app.issue_filter.is_empty());
}

#[test]
fn cancel_picker_returns_to_normal_mode() {
    let mut app = create_test_app();
    app.mode = Mode::IssueFilter;
    app.issue_filter = "test".to_string();

    app.cancel_picker();

    assert_eq!(app.mode, Mode::Normal);
    assert!(app.issue_filter.is_empty());
}

#[test]
fn confirm_issue_filter_returns_to_normal_mode() {
    let mut app = create_test_app();
    app.mode = Mode::IssueFilter;
    app.issue_filter = "test".to_string();

    app.confirm_issue_filter();

    assert_eq!(app.mode, Mode::Normal);
    assert_eq!(app.issue_filter, "test");
}

#[test]
fn clear_error_removes_error() {
    let mut app = create_test_app();
    app.error = Some("Test error".to_string());

    app.clear_error();

    assert!(app.error.is_none());
}

#[test]
fn clear_issue_filter_resets_filter() {
    let mut app = create_test_app();
    app.issues = Mock::new().issues;
    app.issue_filter = "test".to_string();
    app.selected_issue_index = 2;

    app.clear_issue_filter();

    assert!(app.issue_filter.is_empty());
    assert_eq!(app.selected_issue_index, 0);
}

#[test]
fn filtering_issues_updates_filtered_list() {
    let mut app = create_test_app();
    app.issues = Mock::new().issues;
    app.mode = Mode::IssueFilter;

    app.filter_input('f');
    app.filter_input('i');
    app.filter_input('x');

    assert_eq!(app.filtered_issues.len(), 2);
}

#[test]
fn selected_issue_returns_correct_issue() {
    let mut app = with_issues();
    app.selected_issue_index = 1;

    let issue = app.selected_issue();
    assert!(issue.is_some());
    assert_eq!(issue.unwrap().identifier, "ENG-2");
}

#[test]
fn selected_issue_returns_none_when_empty() {
    let mut app = create_test_app();
    app.filtered_issues = Vec::new();

    assert!(app.selected_issue().is_none());
}

#[test]
fn select_team_from_filter_changes_current_team() {
    let m = Mock::new();
    let mut app = create_test_app();
    init(&mut app, &m);
    app.enter_team_select();
    app.selected_team_index = 1;

    if app.choose_team_from_filter() {
        load_team_data(&mut app, &m);
    }

    assert_eq!(app.current_team.as_ref().unwrap().name, "Design");
    assert_eq!(app.mode, Mode::Normal);
}

#[test]
fn select_cycle_from_filter_changes_current_cycle() {
    let m = Mock::new();
    let mut app = create_test_app();
    init(&mut app, &m);
    app.enter_cycle_select();
    app.selected_cycle_index = 1;

    if app.choose_cycle_from_filter() {
        load_issues(&mut app, &m);
    }

    assert_eq!(app.current_cycle.as_ref().unwrap().name, Some("Sprint 2".to_string()));
    assert_eq!(app.mode, Mode::Normal);
}

#[test]
fn enter_detail_view_changes_mode() {
    let mut app = with_issues();

    enter_detail_view(&mut app);

    assert_eq!(app.mode, Mode::DetailView);
    assert_eq!(app.detail_scroll_offset, 0);
}

#[test]
fn enter_detail_view_does_nothing_when_no_issues() {
    let mut app = create_test_app();
    app.filtered_issues = Vec::new();

    enter_detail_view(&mut app);

    assert_eq!(app.mode, Mode::Normal);
}

#[test]
fn exit_detail_view_returns_to_normal() {
    let mut app = create_test_app();
    app.mode = Mode::DetailView;

    app.exit_detail_view();

    assert_eq!(app.mode, Mode::Normal);
}

#[test]
fn scroll_detail_down_increments_offset() {
    let mut app = create_test_app();
    app.detail_content_height = 100;
    app.detail_viewport_height = 20;
    app.detail_scroll_offset = 0;

    app.scroll_detail_down();

    assert_eq!(app.detail_scroll_offset, 1);
}

#[test]
fn scroll_detail_down_stops_at_max() {
    let mut app = create_test_app();
    app.detail_content_height = 25;
    app.detail_viewport_height = 20;
    app.detail_scroll_offset = 5;

    app.scroll_detail_down();

    assert_eq!(app.detail_scroll_offset, 5);
}

#[test]
fn scroll_detail_up_decrements_offset() {
    let mut app = create_test_app();
    app.detail_scroll_offset = 5;

    app.scroll_detail_up();

    assert_eq!(app.detail_scroll_offset, 4);
}

#[test]
fn scroll_detail_up_stops_at_zero() {
    let mut app = create_test_app();
    app.detail_scroll_offset = 0;

    app.scroll_detail_up();

    assert_eq!(app.detail_scroll_offset, 0);
}

#[test]
fn scroll_detail_top_jumps_to_zero() {
    let mut app = create_test_app();
    app.detail_scroll_offset = 50;

    app.scroll_detail_top();

    assert_eq!(app.detail_scroll_offset, 0);
}

#[test]
fn scroll_detail_bottom_jumps_to_max() {
    let mut app = create_test_app();
    app.detail_content_height = 100;
    app.detail_viewport_height = 20;
    app.detail_scroll_offset = 0;

    app.scroll_detail_bottom();

    assert_eq!(app.detail_scroll_offset, 80);
}

#[test]
fn changing_issue_resets_scroll_offset() {
    let mut app = with_issues();
    app.detail_scroll_offset = 10;

    app.next_issue();

    assert_eq!(app.detail_scroll_offset, 0);
}

#[test]
fn find_current_cycle_returns_matching() {
    let yesterday = day_offset(-7, "%Y-%m-%d");
    let next_week = day_offset(7, "%Y-%m-%d");

    let cycles = vec![
        Cycle {
            id: "cycle-old".to_string(),
            name: Some("Old Cycle".to_string()),
            number: 1,
            starts_at: Some("2020-01-01".to_string()),
            ends_at: Some("2020-01-14".to_string()),
        },
        Cycle {
            id: "cycle-current".to_string(),
            name: Some("Current Cycle".to_string()),
            number: 2,
            starts_at: Some(yesterday),
            ends_at: Some(next_week),
        },
    ];

    let current = find_current_cycle(&cycles);

    assert!(current.is_some());
    assert_eq!(current.unwrap().id, "cycle-current");
}

#[test]
fn find_current_cycle_returns_none_when_no_match() {
    let cycles = vec![Cycle {
        id: "cycle-old".to_string(),
        name: Some("Old Cycle".to_string()),
        number: 1,
        starts_at: Some("2020-01-01".to_string()),
        ends_at: Some("2020-01-14".to_string()),
    }];

    let current = find_current_cycle(&cycles);

    assert!(current.is_none());
}

#[test]
fn find_current_cycle_handles_iso8601_dates() {
    let yesterday = day_offset(-1, "%Y-%m-%dT00:00:00.000Z");
    let tomorrow = day_offset(1, "%Y-%m-%dT00:00:00.000Z");

    let cycles = vec![Cycle {
        id: "current-cycle".to_string(),
        name: Some("Current".to_string()),
        number: 1,
        starts_at: Some(yesterday),
        ends_at: Some(tomorrow),
    }];

    let current = find_current_cycle(&cycles);

    assert!(current.is_some());
    assert_eq!(current.unwrap().id, "current-cycle");
}

#[test]
fn init_fetches_viewer() {
    let mut app = create_test_app();

    init(&mut app, &Mock::new());

    assert!(app.viewer.is_some());
    assert_eq!(app.viewer.as_ref().unwrap().name, "Test User");
}

#[test]
fn init_applies_my_issues_default() {
    let mut config = mock_config();
    config.defaults.assignee = AssigneeDefault::Me;

    let mut app = App::new(config);
    init(&mut app, &Mock::new());

    assert!(app.filter_my_issues);
}

#[test]
fn init_no_assignee_default_means_all_issues() {
    let config = mock_config();

    let mut app = App::new(config);
    init(&mut app, &Mock::new());

    assert!(!app.filter_my_issues);
}

#[test]
fn init_applies_current_cycle_default() {
    let mut config = mock_config();
    config.defaults.cycle = CycleDefault::Current;

    let mut m = Mock::new();
    let yesterday = day_offset(-1, "%Y-%m-%d");
    let tomorrow = day_offset(1, "%Y-%m-%d");
    m.cycles = vec![
        cycle("old-cycle", "Old Cycle", 1, Some("2020-01-01".to_string()), Some("2020-01-14".to_string())),
        cycle("current-cycle", "Current", 2, Some(yesterday), Some(tomorrow)),
    ];

    let mut app = App::new(config);
    init(&mut app, &m);

    assert!(app.current_cycle.is_some());
    assert_eq!(app.current_cycle.as_ref().unwrap().id, "current-cycle");
}

#[test]
fn toggle_my_issues_flips_filter() {
    let mut app = create_test_app();
    init(&mut app, &Mock::new());

    assert!(!app.filter_my_issues);

    app.toggle_my_issues();
    assert!(app.filter_my_issues);

    app.toggle_my_issues();
    assert!(!app.filter_my_issues);
}

#[test]
fn init_applies_team_default_by_name() {
    let mut config = mock_config();
    config.defaults.team = Some("Design".to_string());

    let mut app = App::new(config);
    init(&mut app, &Mock::new());

    assert!(app.current_team.is_some());
    assert_eq!(app.current_team.as_ref().unwrap().name, "Design");
}

#[test]
fn init_applies_team_default_by_key() {
    let mut config = mock_config();
    config.defaults.team = Some("DES".to_string());

    let mut app = App::new(config);
    init(&mut app, &Mock::new());

    assert!(app.current_team.is_some());
    assert_eq!(app.current_team.as_ref().unwrap().name, "Design");
}

#[test]
fn init_applies_team_default_case_insensitive() {
    let mut config = mock_config();
    config.defaults.team = Some("design".to_string());

    let mut app = App::new(config);
    init(&mut app, &Mock::new());

    assert!(app.current_team.is_some());
    assert_eq!(app.current_team.as_ref().unwrap().name, "Design");
}

#[test]
fn init_falls_back_to_first_team_when_default_not_found() {
    let mut config = mock_config();
    config.defaults.team = Some("NonexistentTeam".to_string());

    let mut app = App::new(config);
    init(&mut app, &Mock::new());

    assert!(app.current_team.is_some());
    assert_eq!(app.current_team.as_ref().unwrap().name, "Engineering");
}

#[test]
fn test_toggle_backlog_mode() {
    let mut app = create_test_app();
    init(&mut app, &Mock::new());

    assert!(!app.backlog_mode);

    app.backlog_mode = true;
    assert!(app.backlog_mode);

    app.backlog_mode = false;
    assert!(!app.backlog_mode);
}

#[test]
fn exit_detail_view_keeps_timeline() {
    let mut app = with_issues();
    enter_detail_view(&mut app);

    app.timeline_events.push(TimelineEvent::Comment {
        user: "Test".to_string(),
        body: "Test".to_string(),
        created_at: "2024-01-01".to_string(),
    });

    app.exit_detail_view();

    assert_eq!(app.mode, Mode::Normal);
    assert!(!app.timeline_events.is_empty());
}

#[test]
fn changing_issue_clears_uncached_timeline() {
    let mut app = with_issues();

    app.timeline_events.push(TimelineEvent::Comment {
        user: "Test".to_string(),
        body: "Test".to_string(),
        created_at: "2024-01-01".to_string(),
    });

    app.next_issue();

    assert!(app.timeline_events.is_empty());
}

#[test]
fn changing_issue_loads_from_cache() {
    let mut app = with_issues();

    let second_issue_id = app.filtered_issues[1].item.id.clone();
    app.timeline_cache.insert(
        second_issue_id,
        vec![TimelineEvent::Comment {
            user: "Cached".to_string(),
            body: "Cached comment".to_string(),
            created_at: "2024-01-01".to_string(),
        }],
    );

    app.next_issue();

    assert_eq!(app.timeline_events.len(), 1);
    assert!(matches!(
        &app.timeline_events[0],
        TimelineEvent::Comment { user, .. } if user == "Cached"
    ));
}

#[test]
fn enter_search_changes_mode() {
    let mut app = create_test_app();
    app.enter_search();
    assert_eq!(app.mode, Mode::Search);
    assert!(app.search_query.is_empty());
}

#[test]
fn cancel_search_returns_to_normal() {
    let mut app = create_test_app();
    app.mode = Mode::Search;
    app.search_query = "test".to_string();
    app.cancel_search();
    assert_eq!(app.mode, Mode::Normal);
    assert!(app.search_query.is_empty());
}

#[test]
fn search_input_appends_character() {
    let mut app = create_test_app();
    app.mode = Mode::Search;
    app.search_input('a');
    app.search_input('b');
    assert_eq!(app.search_query, "ab");
}

#[test]
fn search_backspace_removes_character() {
    let mut app = create_test_app();
    app.search_query = "test".to_string();
    app.search_backspace();
    assert_eq!(app.search_query, "tes");
}

#[test]
fn search_backspace_handles_empty() {
    let mut app = create_test_app();
    app.search_backspace();
    assert!(app.search_query.is_empty());
}

#[test]
fn execute_search_enters_results_mode() {
    let mut app = create_test_app();
    app.mode = Mode::Search;
    app.search_query = "test".to_string();
    if let Some(q) = app.begin_search() {
        assert_eq!(q, "test");
        app.finish_search(Ok(Mock::new().issues));
    }
    assert_eq!(app.mode, Mode::SearchResults);
    assert!(app.in_search_context);
    assert_eq!(app.selected_search_index, 0);
}

#[test]
fn execute_search_empty_query_cancels() {
    let mut app = create_test_app();
    app.mode = Mode::Search;
    app.search_query.clear();
    assert!(app.begin_search().is_none());
    assert_eq!(app.mode, Mode::Normal);
    assert!(!app.in_search_context);
}

#[test]
fn exit_search_results_restores_normal() {
    let mut app = create_test_app();
    app.mode = Mode::SearchResults;
    app.in_search_context = true;
    app.search_results = vec![];
    app.exit_search_results();
    assert_eq!(app.mode, Mode::Normal);
    assert!(!app.in_search_context);
    assert!(app.search_results.is_empty());
    assert!(app.search_query.is_empty());
}

#[test]
fn next_search_result_increments() {
    let mut app = create_test_app();
    app.search_results = Mock::new().issues;
    app.selected_search_index = 0;
    app.next_search_result();
    assert_eq!(app.selected_search_index, 1);
}

#[test]
fn next_search_result_stops_at_end() {
    let mut app = create_test_app();
    app.search_results = Mock::new().issues;
    app.selected_search_index = app.search_results.len().saturating_sub(1);
    app.next_search_result();
    assert_eq!(app.selected_search_index, app.search_results.len().saturating_sub(1));
}

#[test]
fn previous_search_result_decrements() {
    let mut app = create_test_app();
    app.search_results = Mock::new().issues;
    app.selected_search_index = 1;
    app.previous_search_result();
    assert_eq!(app.selected_search_index, 0);
}

#[test]
fn previous_search_result_stops_at_start() {
    let mut app = create_test_app();
    app.search_results = Mock::new().issues;
    app.selected_search_index = 0;
    app.previous_search_result();
    assert_eq!(app.selected_search_index, 0);
}

#[test]
fn enter_detail_view_from_search_results() {
    let mut app = create_test_app();
    app.mode = Mode::SearchResults;
    app.in_search_context = true;
    app.search_results = Mock::new().issues;
    app.selected_search_index = 0;
    enter_detail_view(&mut app);
    assert_eq!(app.mode, Mode::DetailView);
    assert!(app.in_search_context);
}

#[test]
fn exit_detail_view_returns_to_search_results() {
    let mut app = create_test_app();
    app.mode = Mode::DetailView;
    app.in_search_context = true;
    app.exit_detail_view();
    assert_eq!(app.mode, Mode::SearchResults);
    assert!(app.in_search_context);
}

// ---------------------------------------------------------------------------
// Further cases of the loading steps
// ---------------------------------------------------------------------------

#[test]
fn failed_teams_request_shows_error_and_chooses_nothing() {
    let mut app = create_test_app();
    app.begin_init();
    let chosen = app.apply_teams(Err(ApiError::Request("offline".to_string())));
    assert!(!chosen);
    assert_eq!(
        app.error.as_deref(),
        Some("Failed to load teams: Failed to connect to Linear API: offline")
    );
    assert!(app.current_team.is_none());
}

#[test]
fn failed_viewer_request_leaves_no_viewer_and_toggle_does_nothing() {
    let mut app = create_test_app();
    app.set_viewer(Err(ApiError::UpdateFailed));
    assert!(app.viewer.is_none());
    app.toggle_my_issues();
    assert!(!app.filter_my_issues);
}

#[test]
fn backlog_view_mode_loads_backlog_on_init() {
    let mut config = mock_config();
    config.defaults.view_mode = ortholinear::config::ViewMode::Backlog;
    let mut app = App::new(config);
    init(&mut app, &Mock::new());
    assert!(app.backlog_mode);
    assert_eq!(app.issues.len(), 3);
    assert!(!app.loading);
}

#[test]
fn numbered_cycle_default_picks_that_cycle() {
    let mut config = mock_config();
    config.defaults.cycle = CycleDefault::Number(2);
    let mut app = App::new(config);
    init(&mut app, &Mock::new());
    assert_eq!(app.current_cycle.as_ref().unwrap().id, "cycle-2");
}

#[test]
fn missing_numbered_cycle_leaves_no_cycle() {
    let mut config = mock_config();
    config.defaults.cycle = CycleDefault::Number(9);
    let mut app = App::new(config);
    init(&mut app, &Mock::new());
    assert!(app.current_cycle.is_none());
}

#[test]
fn issues_request_carries_team_cycle_and_assignee() {
    let mut config = mock_config();
    config.defaults.assignee = AssigneeDefault::Me;
    let mut app = App::new(config);
    init(&mut app, &Mock::new());
    let f = app.begin_load_issues();
    assert_eq!(f.team_id.as_deref(), Some("team-1"));
    assert_eq!(f.cycle_id.as_deref(), Some("cycle-1"));
    assert_eq!(f.assignee_id.as_deref(), Some("user-1"));
    assert!(!f.backlog_only);
    assert!(app.loading);
}

#[test]
fn backlog_request_without_team_is_not_made() {
    let mut app = create_test_app();
    assert!(app.begin_load_backlog().is_none());
    assert!(!app.loading);
}

#[test]
fn backlog_request_carries_team() {
    let mut app = create_test_app();
    init(&mut app, &Mock::new());
    let f = app.begin_load_backlog().unwrap();
    assert_eq!(f.team_id.as_deref(), Some("team-1"));
    assert!(f.cycle_id.is_none());
    assert!(f.assignee_id.is_none());
    assert!(f.backlog_only);
}

#[test]
fn status_update_replaces_issue_and_closes_picker() {
    let m = Mock::new();
    let mut app = create_test_app();
    init(&mut app, &m);
    app.enter_status_select();
    assert_eq!(app.mode, Mode::StatusSelect);
    assert_eq!(app.selected_status_index, 0);
    app.selected_status_index = 2;
    let (issue_id, state_id, k) = app.begin_status_update().unwrap();
    assert_eq!(issue_id, "issue-1");
    assert_eq!(state_id, "state-3");
    assert_eq!(k, 0);
    let mut updated = m.issues[0].clone();
    updated.state = m.workflow_states[2].clone();
    app.finish_status_update(k, Ok(updated));
    assert_eq!(app.issues[0].state.name, "Done");
    assert_eq!(app.mode, Mode::Normal);
    assert!(app.status_filter.is_empty());
    assert!(!app.loading);
}

#[test]
fn failed_status_update_shows_error() {
    let mut app = with_issues();
    app.mode = Mode::StatusSelect;
    app.status_filter = "do".to_string();
    app.finish_status_update(0, Err(ApiError::UpdateFailed));
    assert_eq!(
        app.error.as_deref(),
        Some("Failed to update status: Failed to update issue status")
    );
    assert_eq!(app.mode, Mode::Normal);
    assert!(app.status_filter.is_empty());
}

#[test]
fn failed_description_update_keeps_edit_for_retry() {
    let mut app = with_issues();
    let (id, k) = app.begin_description_update().unwrap();
    assert_eq!(id, "issue-1");
    app.finish_description_update(k, "new text", Err(ApiError::Http { status: "500".to_string(), body: "oops".to_string() }));
    assert_eq!(app.pending_description_edit.as_deref(), Some("new text"));
    assert_eq!(
        app.error.as_deref(),
        Some("Failed to save description: Linear API returned 500: oops - press 'e' to retry with your changes")
    );
    assert_eq!(app.get_description_for_edit(), "new text");
}

#[test]
fn successful_description_update_clears_pending_edit() {
    let m = Mock::new();
    let mut app = with_issues();
    app.pending_description_edit = Some("old".to_string());
    app.error = Some("before".to_string());
    let mut updated = m.issues[0].clone();
    updated.description = Some("new text".to_string());
    app.finish_description_update(0, "new text", Ok(updated));
    assert!(app.pending_description_edit.is_none());
    assert!(app.error.is_none());
    assert_eq!(app.get_description_for_edit(), "new text");
}

#[test]
fn unchanged_edit_forgets_pending_edit() {
    let mut app = with_issues();
    app.pending_description_edit = Some("x".to_string());
    assert!(!app.settle_edit("same", "same"));
    assert!(app.pending_description_edit.is_none());
    assert!(app.settle_edit("a", "b"));
}

#[test]
fn loaded_timeline_is_cached_and_reused() {
    let mut app = with_issues();
    let id = app.begin_load_timeline().unwrap();
    assert!(app.timeline_loading);
    let comments = vec![ortholinear::types::Comment {
        id: "c".to_string(),
        body: "hello".to_string(),
        created_at: "2024-01-01".to_string(),
        user: None,
    }];
    app.finish_load_timeline(id, Ok((comments, Vec::new())));
    assert!(!app.timeline_loading);
    assert_eq!(app.timeline_events.len(), 1);
    assert!(app.timeline_cache.contains_key("issue-1"));
    app.timeline_events.clear();
    assert!(app.begin_load_timeline().is_none());
    assert_eq!(app.timeline_events.len(), 1);
}

#[test]
fn failed_timeline_request_shows_error() {
    let mut app = with_issues();
    let id = app.begin_load_timeline().unwrap();
    app.finish_load_timeline(id, Err(ApiError::MissingData { context: "issue".to_string() }));
    assert_eq!(
        app.error.as_deref(),
        Some("Failed to load activity: Linear API returned no data for: issue")
    );
    assert!(!app.timeline_loading);
}

#[test]
fn loading_issues_clears_timeline_cache() {
    let mut app = with_issues();
    app.timeline_cache.insert("issue-1".to_string(), vec![]);
    let _ = app.begin_load_issues();
    assert!(!app.timeline_cache.contains_key("issue-1"));
}

#[test]
fn failed_search_shows_plain_error() {
    let mut app = create_test_app();
    app.search_query = "q".to_string();
    assert_eq!(app.begin_search().as_deref(), Some("q"));
    app.finish_search(Err(ApiError::GraphQL { messages: vec!["a".to_string(), "b".to_string()] }));
    assert_eq!(app.error.as_deref(), Some("GraphQL error: a, b"));
    assert!(!app.loading);
}

#[test]
fn whitespace_query_cancels_search() {
    let mut app = create_test_app();
    app.mode = Mode::Search;
    app.search_query = " \t ".to_string();
    assert!(app.begin_search().is_none());
    assert_eq!(app.mode, Mode::Normal);
    assert!(app.search_query.is_empty());
}

#[test]
fn jump_to_current_cycle_picks_running_cycle() {
    let mut app = create_test_app();
    app.cycles = vec![
        cycle("old", "Old", 1, Some("2020-01-01".to_string()), Some("2020-01-14".to_string())),
        cycle("now", "Now", 2, Some(day_offset(-2, "%Y-%m-%d")), Some(day_offset(2, "%Y-%m-%d"))),
    ];
    app.cycle_filter = "x".to_string();
    assert!(app.choose_current_cycle());
    assert_eq!(app.current_cycle.as_ref().unwrap().id, "now");
    assert!(app.cycle_filter.is_empty());
}

#[test]
fn jump_without_running_cycle_changes_nothing() {
    let mut app = create_test_app();
    app.cycles = vec![cycle("old", "Old", 1, Some("2020-01-01".to_string()), Some("2020-01-14".to_string()))];
    assert!(!app.choose_current_cycle());
    assert!(app.current_cycle.is_none());
}

#[test]
fn team_picker_starts_on_current_team() {
    let mut app = create_test_app();
    init(&mut app, &Mock::new());
    app.current_team = Some(Mock::new().teams[1].clone());
    app.enter_team_select();
    assert_eq!(app.selected_team_index, 1);
}

#[test]
fn status_picker_starts_on_issue_state() {
    let mut app = create_test_app();
    init(&mut app, &Mock::new());
    app.selected_issue_index = 1;
    app.enter_status_select();
    assert_eq!(app.selected_status_index, 1);
}

#[test]
fn status_picker_needs_a_selected_issue() {
    let mut app = create_test_app();
    app.enter_status_select();
    assert_eq!(app.mode, Mode::Normal);
}

#[test]
fn detail_heights_bound_scrolling() {
    let mut app = create_test_app();
    app.set_detail_heights(30, 10);
    app.scroll_detail_bottom();
    assert_eq!(app.detail_scroll_offset, 20);
    app.scroll_detail_down();
    assert_eq!(app.detail_scroll_offset, 20);
}

#[test]
fn picker_navigation_stops_at_ends() {
    let mut app = create_test_app();
    init(&mut app, &Mock::new());
    app.enter_team_select();
    app.next_picker_item();
    app.next_picker_item();
    assert_eq!(app.selected_team_index, 1);
    app.previous_picker_item();
    app.previous_picker_item();
    assert_eq!(app.selected_team_index, 0);
}

#[test]
fn current_filter_follows_mode() {
    let mut app = create_test_app();
    app.team_filter = "t".to_string();
    assert_eq!(app.current_filter(), "");
    app.mode = Mode::TeamSelect;
    assert_eq!(app.current_filter(), "t");
}

#[test]
fn missing_default_team_shows_a_warning() {
    let mut config = mock_config();
    config.defaults.team = Some("NonexistentTeam".to_string());

    let mut app = App::new(config);
    init(&mut app, &Mock::new());

    assert_eq!(app.current_team.as_ref().unwrap().name, "Engineering");
    assert_eq!(app.error.as_deref(), Some("Default team not found: NonexistentTeam"));
}

#[test]
fn found_default_team_shows_no_warning() {
    let mut config = mock_config();
    config.defaults.team = Some("des".to_string());
    let mut app = App::new(config);
    init(&mut app, &Mock::new());
    assert!(app.error.is_none());
    let mut plain = create_test_app();
    init(&mut plain, &Mock::new());
    assert!(plain.error.is_none());
}

#[test]
fn teams_answer_sets_the_warning_at_once() {
    let mut config = mock_config();
    config.defaults.team = Some("Nope".to_string());
    let mut app = App::new(config);
    assert!(app.apply_teams(Ok(Mock::new().teams)));
    assert_eq!(app.error.as_deref(), Some("Default team not found: Nope"));
}

#[test]
fn help_opens_and_closes() {
    let mut app = create_test_app();
    app.show_help();
    assert_eq!(app.mode, Mode::Help);
    app.close_help();
    assert_eq!(app.mode, Mode::Normal);
}
