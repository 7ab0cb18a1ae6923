use ortholinear::timeline::merge_timeline_events;
use ortholinear::types::{Comment, IssueHistory, TimelineEvent, User, WorkflowState};

fn user(id: &str, name: &str) -> User {
    User { id: id.to_string(), name: name.to_string() }
}

fn state(id: &str, name: &str) -> WorkflowState {
    WorkflowState {
        id: id.to_string(),
        name: name.to_string(),
        color: "#ccc".to_string(),
        state_type: "unstarted".to_string(),
    }
}

fn comment(id: &str, body: &str, at: &str, who: Option<User>) -> Comment {
    Comment { id: id.to_string(), body: body.to_string(), created_at: at.to_string(), user: who }
}

#[test]
fn merge_timeline_events_sorts_by_date() {
    let comments = vec![
        Comment {
            id: "c1".to_string(),
            body: "Second comment".to_string(),
            created_at: "2024-01-02T10:00:00Z".to_string(),
            user: Some(User {
                id: "u1".to_string(),
                name: "Alice".to_string(),
            }),
        },
        Comment {
            id: "c2".to_string(),
            body: "First comment".to_string(),
            created_at: "2024-01-01T10:00:00Z".to_string(),
            user: Some(User {
                id: "u2".to_string(),
                name: "Bob".to_string(),
            }),
        },
    ];

    let history = vec![];

    let events = merge_timeline_events(comments, history);

    assert_eq!(events.len(), 2);
    assert!(matches!(&events[0], TimelineEvent::Comment { user, .. } if user == "Bob"));
    assert!(matches!(&events[1], TimelineEvent::Comment { user, .. } if user == "Alice"));
}

#[test]
fn merge_timeline_events_includes_status_changes() {
    let comments = vec![];
    let history = vec![IssueHistory {
        id: "h1".to_string(),
        created_at: "2024-01-01T10:00:00Z".to_string(),
        actor: Some(User {
            id: "u1".to_string(),
            name: "Alice".to_string(),
        }),
        from_state: Some(WorkflowState {
            id: "s1".to_string(),
            name: "Todo".to_string(),
            color: "#ccc".to_string(),
            state_type: "unstarted".to_string(),
        }),
        to_state: Some(WorkflowState {
            id: "s2".to_string(),
            name: "In Progress".to_string(),
            color: "#00f".to_string(),
            state_type: "started".to_string(),
        }),
        from_assignee: None,
        to_assignee: None,
    }];

    let events = merge_timeline_events(comments, history);

    assert_eq!(events.len(), 1);
    assert!(matches!(
        &events[0],
        TimelineEvent::StatusChange { actor, from, to, .. }
        if actor == "Alice" && from == "Todo" && to == "In Progress"
    ));
}

#[test]
fn merge_timeline_events_includes_assignee_changes() {
    let comments = vec![];
    let history = vec![IssueHistory {
        id: "h1".to_string(),
        created_at: "2024-01-01T10:00:00Z".to_string(),
        actor: Some(User {
            id: "u1".to_string(),
            name: "Alice".to_string(),
        }),
        from_state: None,
        to_state: None,
        from_assignee: None,
        to_assignee: Some(User {
            id: "u2".to_string(),
            name: "Bob".to_string(),
        }),
    }];

    let events = merge_timeline_events(comments, history);

    assert_eq!(events.len(), 1);
    assert!(matches!(
        &events[0],
        TimelineEvent::AssigneeChange { actor, from, to, .. }
        if actor == "Alice" && from.is_none() && to.as_deref() == Some("Bob")
    ));
}

#[test]
fn merge_timeline_events_handles_empty_inputs() {
    let events = merge_timeline_events(Vec::<Comment>::new(), Vec::<IssueHistory>::new());

    assert!(events.is_empty());
}

#[test]
fn history_entry_with_both_changes_gives_two_entries() {
    let history = vec![IssueHistory {
        id: "h1".to_string(),
        created_at: "2024-03-01T09:00:00Z".to_string(),
        actor: None,
        from_state: None,
        to_state: Some(state("s2", "Done")),
        from_assignee: Some(user("u1", "Ann")),
        to_assignee: None,
    }];
    let events = merge_timeline_events(vec![], history);
    assert_eq!(events.len(), 2);
    assert!(matches!(
        &events[0],
        TimelineEvent::StatusChange { actor, from, to, .. }
        if actor == "System" && from == "None" && to == "Done"
    ));
    assert!(matches!(
        &events[1],
        TimelineEvent::AssigneeChange { actor, from, to, .. }
        if actor == "System" && from.as_deref() == Some("Ann") && to.is_none()
    ));
}

#[test]
fn history_entry_without_changes_is_dropped() {
    let history = vec![IssueHistory {
        id: "h1".to_string(),
        created_at: "2024-03-01T09:00:00Z".to_string(),
        actor: Some(user("u1", "Ann")),
        from_state: None,
        to_state: None,
        from_assignee: None,
        to_assignee: None,
    }];
    assert!(merge_timeline_events(vec![], history).is_empty());
}

#[test]
fn comment_without_author_is_unknown() {
    let events = merge_timeline_events(vec![comment("c", "hi", "2024-01-01", None)], vec![]);
    assert!(matches!(&events[0], TimelineEvent::Comment { user, body, .. } if user == "Unknown" && body == "hi"));
}

#[test]
fn equal_times_keep_comments_before_history() {
    let at = "2024-05-05T05:05:05Z";
    let history = vec![IssueHistory {
        id: "h".to_string(),
        created_at: at.to_string(),
        actor: Some(user("u", "Cy")),
        from_state: Some(state("a", "A")),
        to_state: Some(state("b", "B")),
        from_assignee: None,
        to_assignee: None,
    }];
    let events = merge_timeline_events(vec![comment("c", "x", at, Some(user("u", "Di")))], history);
    assert_eq!(events.len(), 2);
    assert!(matches!(&events[0], TimelineEvent::Comment { .. }));
    assert!(matches!(&events[1], TimelineEvent::StatusChange { .. }));
    assert_eq!(events[0].created_at(), at);
}

#[test]
fn merged_entries_come_out_oldest_first() {
    let comments = vec![
        comment("1", "c", "2024-01-03", None),
        comment("2", "a", "2024-01-01", None),
        comment("3", "b", "2024-01-02", None),
    ];
    let events = merge_timeline_events(comments, vec![]);
    let times: Vec<&str> = events.iter().map(|e| e.created_at()).collect();
    assert_eq!(times, vec!["2024-01-01", "2024-01-02", "2024-01-03"]);
}
