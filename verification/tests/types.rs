use ortholinear::api::{graphql_data, issue_activity, updated_issue, ApiError};
use ortholinear::cache::TimelineCache;
use ortholinear::dates::{format_date_short, format_timeline_date, parse_date, remove_z};
use ortholinear::types::{
    Comment, Connection, Cycle, GraphQLError, GraphQLResponse, IssueActivityResponse,
    IssueUpdatePayload, IssueUpdateResponse, IssueWithActivity, TimelineEvent,
};

fn cycle(name: Option<&str>, number: i32, s: Option<&str>, e: Option<&str>) -> Cycle {
    Cycle {
        id: "c".to_string(),
        name: name.map(|n| n.to_string()),
        number,
        starts_at: s.map(|x| x.to_string()),
        ends_at: e.map(|x| x.to_string()),
    }
}

#[test]
fn cycle_names() {
    assert_eq!(cycle(Some("Sprint 3"), 3, None, None).display_name(), "Sprint 3");
    assert_eq!(cycle(None, 12, None, None).display_name(), "Cycle 12");
    assert_eq!(cycle(None, -2, None, None).display_name(), "Cycle -2");
}

#[test]
fn cycle_names_with_dates() {
    assert_eq!(
        cycle(Some("S"), 1, Some("2024-12-30T00:00:00.000Z"), Some("2025-01-12")).display_with_dates(),
        "S (12-30-2024 - 01-12-2025)"
    );
    assert_eq!(cycle(None, 7, Some("2024-12-30"), None).display_with_dates(), "Cycle 7");
    assert_eq!(cycle(Some("S"), 1, Some("soon"), Some("2025-13-40")).display_with_dates(), "S (soon - 2025-13-40)");
}

#[test]
fn date_formats() {
    assert_eq!(format_date_short("2024-02-29"), "02-29-2024");
    assert_eq!(format_date_short("2023-02-29"), "2023-02-29");
    assert_eq!(format_date_short("abc"), "abc");
    assert_eq!(format_timeline_date("2024-01-15T10:30:45.123Z"), "01-15-2024 10:30");
    assert_eq!(format_timeline_date("2024-01-15T07:05:00Z"), "01-15-2024 07:05");
    assert_eq!(format_timeline_date("2024-01-15 garbage"), "01-15-2024");
    assert_eq!(format_timeline_date("yesterday"), "yesterday");
    assert_eq!(remove_z("aZbZ"), "ab");
    assert_eq!(parse_date("2024-12-30T00:00:00.000Z"), Some((2024, 12, 30)));
    assert_eq!(parse_date("2024-12-30"), Some((2024, 12, 30)));
    assert_eq!(parse_date("2024-1"), None);
}

#[test]
fn timeline_event_time() {
    let e = TimelineEvent::AssigneeChange {
        actor: "a".to_string(),
        from: None,
        to: None,
        created_at: "2024".to_string(),
    };
    assert_eq!(e.created_at(), "2024");
}

#[test]
fn graphql_answers() {
    let ok: GraphQLResponse<u32> = GraphQLResponse { data: Some(5), errors: None };
    assert_eq!(graphql_data(ok).unwrap(), 5);
    let err: GraphQLResponse<u32> = GraphQLResponse {
        data: Some(5),
        errors: Some(vec![GraphQLError { message: "bad".to_string() }, GraphQLError { message: "worse".to_string() }]),
    };
    let e = graphql_data(err).unwrap_err();
    assert_eq!(e.message(), "GraphQL error: bad, worse");
    let none: GraphQLResponse<u32> = GraphQLResponse { data: None, errors: None };
    let e = graphql_data(none).unwrap_err();
    assert!(matches!(&e, ApiError::MissingData { context } if context == "response"));
}

#[test]
fn update_answers() {
    let failed = IssueUpdateResponse { issue_update: IssueUpdatePayload { success: false, issue: None } };
    assert!(matches!(updated_issue(failed), Err(ApiError::UpdateFailed)));
    let empty = IssueUpdateResponse { issue_update: IssueUpdatePayload { success: true, issue: None } };
    assert_eq!(updated_issue(empty).unwrap_err().message(), "Linear API returned no data for: issue");
}

#[test]
fn activity_answers() {
    let missing = IssueActivityResponse { issue: None };
    assert!(issue_activity(missing).is_err());
    let some = IssueActivityResponse {
        issue: Some(IssueWithActivity {
            comments: Connection {
                nodes: vec![Comment { id: "c".to_string(), body: "b".to_string(), created_at: "t".to_string(), user: None }],
            },
            history: Connection { nodes: vec![] },
        }),
    };
    let (c, h) = issue_activity(some).unwrap();
    assert_eq!(c.len(), 1);
    assert!(h.is_empty());
}

#[test]
fn api_error_messages() {
    assert_eq!(ApiError::Request("timeout".to_string()).message(), "Failed to connect to Linear API: timeout");
    assert_eq!(
        ApiError::Http { status: "401 Unauthorized".to_string(), body: "no".to_string() }.message(),
        "Linear API returned 401 Unauthorized: no"
    );
    assert_eq!(ApiError::UpdateFailed.message(), "Failed to update issue status");
}

#[test]
fn cache_returns_last_stored_timeline() {
    let mut c = TimelineCache::new();
    assert!(!c.contains_key("a"));
    c.insert("a".to_string(), vec![]);
    c.insert(
        "a".to_string(),
        vec![TimelineEvent::Comment { user: "u".to_string(), body: "b".to_string(), created_at: "t".to_string() }],
    );
    c.insert("b".to_string(), vec![]);
    assert_eq!(c.get("a").unwrap().len(), 1);
    assert_eq!(c.get("b").unwrap().len(), 0);
    assert!(c.get("z").is_none());
    c.clear();
    assert!(!c.contains_key("a"));
}
