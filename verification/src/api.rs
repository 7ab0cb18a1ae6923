//! The Linear API as the library sees it: its errors, how responses are
//! interpreted, and the issue filters that requests carry.

use crate::text::{join, join_strings, owned, push_str, views};
use crate::types::{
    Comment, GraphQLError, GraphQLResponse, Issue, IssueActivityResponse, IssueHistory,
    IssueUpdateResponse,
};
use vstd::prelude::*;

verus! {

/// Why a request to the Linear API failed.
#[derive(Debug)]
pub enum ApiError {
    /// The request could not be sent or its answer not read; holds the cause.
    Request(String),
    /// The server answered with an unsuccessful HTTP status.
    Http { status: String, body: String },
    /// The server reported GraphQL errors.
    GraphQL { messages: Vec<String> },
    /// The answer lacked the data asked for.
    MissingData { context: String },
    /// The server refused to update the issue.
    UpdateFailed,
}

/// The text that explains an API error.
pub open spec fn api_error_text(e: ApiError) -> Seq<char> {
    match e {
        ApiError::Request(cause) => "Failed to connect to Linear API: "@ + cause@,
        ApiError::Http { status, body } => "Linear API returned "@ + status@ + ": "@ + body@,
        ApiError::GraphQL { messages } => "GraphQL error: "@ + join(views(messages@), ", "@),
        ApiError::MissingData { context } => "Linear API returned no data for: "@ + context@,
        ApiError::UpdateFailed => "Failed to update issue status"@,
    }
}

impl ApiError {
    /// The text that explains the error.
    pub fn message(&self) -> (r: String)
        ensures
            r@ == api_error_text(*self),
    {
        match self {
            ApiError::Request(cause) => {
                let mut r = owned("Failed to connect to Linear API: ");
                push_str(&mut r, cause.as_str());
                r
            },
            ApiError::Http { status, body } => {
                let mut r = owned("Linear API returned ");
                push_str(&mut r, status.as_str());
                push_str(&mut r, ": ");
                push_str(&mut r, body.as_str());
                r
            },
            ApiError::GraphQL { messages } => {
                let mut r = owned("GraphQL error: ");
                let j = join_strings(messages, ", ");
                push_str(&mut r, j.as_str());
                r
            },
            ApiError::MissingData { context } => {
                let mut r = owned("Linear API returned no data for: ");
                push_str(&mut r, context.as_str());
                r
            },
            ApiError::UpdateFailed => owned("Failed to update issue status"),
        }
    }
}

/// The messages of GraphQL errors.
pub open spec fn error_messages(errors: Seq<GraphQLError>) -> Seq<String> {
    errors.map_values(|e: GraphQLError| e.message)
}

/// The data of a GraphQL response: reported errors fail with their messages,
/// a response without data fails as `MissingData` for `response`.
pub fn graphql_data<T>(resp: GraphQLResponse<T>) -> (r: Result<T, ApiError>)
    ensures
        match resp.errors {
            Some(errs) => r matches Err(ApiError::GraphQL { messages }) && messages@
                == error_messages(errs@),
            None => match resp.data {
                Some(d) => r == Ok::<T, ApiError>(d),
                None => r matches Err(ApiError::MissingData { context }) && context@
                    == "response"@,
            },
        },
{
    match resp.errors {
        Some(errs) => {
            let mut messages: Vec<String> = Vec::new();
            for i in 0..errs.len()
                invariant
                    messages@ == error_messages(errs@).take(i as int),
            {
                messages.push(errs[i].message.clone());
                assert(messages@ =~= error_messages(errs@).take(i + 1));
            }
            assert(error_messages(errs@).take(errs.len() as int) =~= error_messages(errs@));
            Err(ApiError::GraphQL { messages })
        },
        None => match resp.data {
            Some(d) => Ok(d),
            None => Err(ApiError::MissingData { context: owned("response") }),
        },
    }
}

/// The issue of an update's answer: an unsuccessful update fails as
/// `UpdateFailed`, one without the issue as `MissingData` for `issue`.
pub fn updated_issue(resp: IssueUpdateResponse) -> (r: Result<Issue, ApiError>)
    ensures
        !resp.issue_update.success ==> r matches Err(ApiError::UpdateFailed),
        resp.issue_update.success ==> match resp.issue_update.issue {
            Some(i) => r == Ok::<Issue, ApiError>(i),
            None => r matches Err(ApiError::MissingData { context }) && context@ == "issue"@,
        },
{
    if !resp.issue_update.success {
        return Err(ApiError::UpdateFailed);
    }
    match resp.issue_update.issue {
        Some(i) => Ok(i),
        None => Err(ApiError::MissingData { context: owned("issue") }),
    }
}

/// The comments and history of an activity answer; without the issue it
/// fails as `MissingData` for `issue`.
pub fn issue_activity(resp: IssueActivityResponse) -> (r: Result<
    (Vec<Comment>, Vec<IssueHistory>),
    ApiError,
>)
    ensures
        match resp.issue {
            Some(i) => r matches Ok((c, h)) && c == i.comments.nodes && h == i.history.nodes,
            None => r matches Err(ApiError::MissingData { context }) && context@ == "issue"@,
        },
{
    match resp.issue {
        Some(i) => Ok((i.comments.nodes, i.history.nodes)),
        None => Err(ApiError::MissingData { context: owned("issue") }),
    }
}

/// The filter of an issues query: each set field restricts the issues to
/// that team, cycle or assignee; `backlog_only` restricts them to backlog
/// states outside any cycle.
#[derive(Debug)]
pub struct IssueFilter {
    pub team_id: Option<String>,
    pub cycle_id: Option<String>,
    pub assignee_id: Option<String>,
    pub backlog_only: bool,
}

/// The filter of the issues of a team, cycle and assignee, each optional.
pub fn issues_filter(team_id: Option<String>, cycle_id: Option<String>, assignee_id: Option<
    String,
>) -> (r: IssueFilter)
    ensures
        r == (IssueFilter { team_id, cycle_id, assignee_id, backlog_only: false }),
{
    IssueFilter { team_id, cycle_id, assignee_id, backlog_only: false }
}

/// The filter of a team's backlog: its issues in backlog states and in no
/// cycle, optionally of one assignee.
pub fn backlog_filter(team_id: String, assignee_id: Option<String>) -> (r: IssueFilter)
    ensures
        r == (IssueFilter {
            team_id: Some(team_id),
            cycle_id: None,
            assignee_id,
            backlog_only: true,
        }),
{
    IssueFilter { team_id: Some(team_id), cycle_id: None, assignee_id, backlog_only: true }
}

} // verus!
