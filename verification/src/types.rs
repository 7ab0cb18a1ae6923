//! The data model of the Linear API: teams, cycles, issues, workflow states,
//! users, comments, history entries, custom views and the response envelopes
//! around them.

use crate::dates::{date_cut_ok, format_date_short, short_date};
use crate::text::{format_i64, owned, signed_decimal};
use vstd::prelude::*;

verus! {

/// A GraphQL response: the data, or the errors the server reported.
#[derive(Debug)]
pub struct GraphQLResponse<T> {
    pub data: Option<T>,
    pub errors: Option<Vec<GraphQLError>>,
}

/// One error of a GraphQL response.
#[derive(Debug)]
pub struct GraphQLError {
    pub message: String,
}

/// A page of nodes of a GraphQL connection.
#[derive(Debug)]
pub struct Connection<T> {
    pub nodes: Vec<T>,
}

#[derive(Debug)]
pub struct TeamsResponse {
    pub teams: Connection<Team>,
}

/// A team of the workspace.
#[derive(Debug)]
pub struct Team {
    pub id: String,
    pub name: String,
    pub key: String,
}

impl Clone for Team {
    fn clone(&self) -> (r: Self)
        ensures
            r == *self,
    {
        Team { id: self.id.clone(), name: self.name.clone(), key: self.key.clone() }
    }
}

#[derive(Debug)]
pub struct TeamWithCyclesResponse {
    pub team: TeamWithCycles,
}

#[derive(Debug)]
pub struct TeamWithCycles {
    pub cycles: Connection<Cycle>,
}

/// A copy of an optional string.
pub fn clone_opt_string(o: &Option<String>) -> (r: Option<String>)
    ensures
        r == *o,
{
    match o {
        Some(s) => Some(s.clone()),
        None => None,
    }
}

/// A cycle (sprint) of a team.
#[derive(Debug)]
pub struct Cycle {
    pub id: String,
    pub name: Option<String>,
    pub number: i32,
    pub starts_at: Option<String>,
    pub ends_at: Option<String>,
}

impl Clone for Cycle {
    fn clone(&self) -> (r: Self)
        ensures
            r == *self,
    {
        Cycle {
            id: self.id.clone(),
            name: clone_opt_string(&self.name),
            number: self.number,
            starts_at: clone_opt_string(&self.starts_at),
            ends_at: clone_opt_string(&self.ends_at),
        }
    }
}

/// The name a cycle is shown by: its own name, or `Cycle <number>`.
pub open spec fn cycle_display_name(c: Cycle) -> Seq<char> {
    match c.name {
        Some(n) => n@,
        None => "Cycle "@ + signed_decimal(c.number as int),
    }
}

/// Whether the dates shown with a cycle's name can be cut to their date
/// part: both, when both are known.
pub open spec fn shown_dates_ok(c: Cycle) -> bool {
    match (c.starts_at, c.ends_at) {
        (Some(s), Some(e)) => date_cut_ok(s@) && date_cut_ok(e@),
        _ => true,
    }
}

/// Whether the dates of a cycle can be cut to their date part.
pub open spec fn cycle_dates_ok(c: Cycle) -> bool {
    &&& (c.starts_at matches Some(s) ==> date_cut_ok(s@))
    &&& (c.ends_at matches Some(e) ==> date_cut_ok(e@))
}

/// A cycle's name followed by its dates, `Name (MM-DD-YYYY - MM-DD-YYYY)`,
/// when both dates are known.
pub open spec fn cycle_display_with_dates(c: Cycle) -> Seq<char> {
    match (c.starts_at, c.ends_at) {
        (Some(s), Some(e)) => cycle_display_name(c) + " ("@ + short_date(s@) + " - "@
            + short_date(e@) + ")"@,
        _ => cycle_display_name(c),
    }
}

impl Cycle {
    /// The cycle's name, or `Cycle <number>` when it has none.
    pub fn display_name(&self) -> (r: String)
        ensures
            r@ == cycle_display_name(*self),
    {
        match &self.name {
            Some(n) => n.clone(),
            None => {
                let mut r = owned("Cycle ");
                let num = format_i64(self.number as i64);
                crate::text::push_str(&mut r, num.as_str());
                r
            },
        }
    }

    /// The cycle's name with its start and end dates when both are known.
    pub fn display_with_dates(&self) -> (r: String)
        requires
            shown_dates_ok(*self),
        ensures
            r@ == cycle_display_with_dates(*self),
    {
        let name = self.display_name();
        match (&self.starts_at, &self.ends_at) {
            (Some(start), Some(end)) => {
                let s = format_date_short(start.as_str());
                let e = format_date_short(end.as_str());
                let mut r = name;
                crate::text::push_str(&mut r, " (");
                crate::text::push_str(&mut r, s.as_str());
                crate::text::push_str(&mut r, " - ");
                crate::text::push_str(&mut r, e.as_str());
                crate::text::push_str(&mut r, ")");
                r
            },
            _ => name,
        }
    }
}

#[derive(Debug)]
pub struct IssuesResponse {
    pub issues: Connection<Issue>,
}

/// An issue.
#[derive(Debug)]
pub struct Issue {
    pub id: String,
    pub identifier: String,
    pub title: String,
    pub description: Option<String>,
    pub url: String,
    pub state: WorkflowState,
    pub assignee: Option<User>,
    pub priority: i32,
    pub project: Option<Project>,
    pub team: Option<Team>,
}

impl Clone for Issue {
    fn clone(&self) -> (r: Self)
        ensures
            r == *self,
    {
        Issue {
            id: self.id.clone(),
            identifier: self.identifier.clone(),
            title: self.title.clone(),
            description: clone_opt_string(&self.description),
            url: self.url.clone(),
            state: self.state.clone(),
            assignee: match &self.assignee {
                Some(u) => Some(u.clone()),
                None => None,
            },
            priority: self.priority,
            project: match &self.project {
                Some(p) => Some(p.clone()),
                None => None,
            },
            team: match &self.team {
                Some(t) => Some(t.clone()),
                None => None,
            },
        }
    }
}

/// A workflow state of a team. `state_type` is one of Linear's categories:
/// `"backlog"`, `"unstarted"`, `"started"`, `"completed"` or `"canceled"`.
#[derive(Debug)]
pub struct WorkflowState {
    pub id: String,
    pub name: String,
    pub color: String,
    pub state_type: String,
}

impl Clone for WorkflowState {
    fn clone(&self) -> (r: Self)
        ensures
            r == *self,
    {
        WorkflowState {
            id: self.id.clone(),
            name: self.name.clone(),
            color: self.color.clone(),
            state_type: self.state_type.clone(),
        }
    }
}

/// A user of the workspace.
#[derive(Debug)]
pub struct User {
    pub id: String,
    pub name: String,
}

impl Clone for User {
    fn clone(&self) -> (r: Self)
        ensures
            r == *self,
    {
        User { id: self.id.clone(), name: self.name.clone() }
    }
}

#[derive(Debug)]
pub struct ViewerResponse {
    pub viewer: User,
}

/// A project an issue belongs to.
#[derive(Debug)]
pub struct Project {
    pub id: String,
    pub name: String,
}

impl Clone for Project {
    fn clone(&self) -> (r: Self)
        ensures
            r == *self,
    {
        Project { id: self.id.clone(), name: self.name.clone() }
    }
}

#[derive(Debug)]
pub struct WorkflowStatesResponse {
    pub workflow_states: Connection<WorkflowState>,
}

#[derive(Debug)]
pub struct IssueUpdateResponse {
    pub issue_update: IssueUpdatePayload,
}

/// The payload of an issue update: whether it succeeded, and the issue.
#[derive(Debug)]
pub struct IssueUpdatePayload {
    pub success: bool,
    pub issue: Option<Issue>,
}

/// A comment on an issue.
#[derive(Debug)]
pub struct Comment {
    pub id: String,
    pub body: String,
    pub created_at: String,
    pub user: Option<User>,
}

/// One entry of an issue's history; the fields that changed are set.
#[derive(Debug)]
pub struct IssueHistory {
    pub id: String,
    pub created_at: String,
    pub actor: Option<User>,
    pub from_state: Option<WorkflowState>,
    pub to_state: Option<WorkflowState>,
    pub from_assignee: Option<User>,
    pub to_assignee: Option<User>,
}

#[derive(Debug)]
pub struct IssueActivityResponse {
    pub issue: Option<IssueWithActivity>,
}

#[derive(Debug)]
pub struct IssueWithActivity {
    pub comments: Connection<Comment>,
    pub history: Connection<IssueHistory>,
}

/// One entry of an issue's activity timeline.
#[derive(Debug)]
pub enum TimelineEvent {
    Comment { user: String, body: String, created_at: String },
    StatusChange { actor: String, from: String, to: String, created_at: String },
    AssigneeChange {
        actor: String,
        from: Option<String>,
        to: Option<String>,
        created_at: String,
    },
}

/// The mathematical value of a timeline entry.
pub ghost enum EventView {
    Comment { user: Seq<char>, body: Seq<char>, created_at: Seq<char> },
    StatusChange { actor: Seq<char>, from: Seq<char>, to: Seq<char>, created_at: Seq<char> },
    AssigneeChange {
        actor: Seq<char>,
        from: Option<Seq<char>>,
        to: Option<Seq<char>>,
        created_at: Seq<char>,
    },
}

/// The view of an optional string.
pub open spec fn opt_view(o: Option<String>) -> Option<Seq<char>> {
    match o {
        Some(s) => Some(s@),
        None => None,
    }
}

impl View for TimelineEvent {
    type V = EventView;

    open spec fn view(&self) -> EventView {
        match self {
            TimelineEvent::Comment { user, body, created_at } => EventView::Comment {
                user: user@,
                body: body@,
                created_at: created_at@,
            },
            TimelineEvent::StatusChange { actor, from, to, created_at } => {
                EventView::StatusChange {
                    actor: actor@,
                    from: from@,
                    to: to@,
                    created_at: created_at@,
                }
            },
            TimelineEvent::AssigneeChange { actor, from, to, created_at } => {
                EventView::AssigneeChange {
                    actor: actor@,
                    from: opt_view(*from),
                    to: opt_view(*to),
                    created_at: created_at@,
                }
            },
        }
    }
}

/// When a timeline entry happened.
pub open spec fn time_of(e: EventView) -> Seq<char> {
    match e {
        EventView::Comment { created_at, .. } => created_at,
        EventView::StatusChange { created_at, .. } => created_at,
        EventView::AssigneeChange { created_at, .. } => created_at,
    }
}

/// When a timeline entry happened.
pub open spec fn event_time(e: TimelineEvent) -> Seq<char> {
    time_of(e@)
}

impl TimelineEvent {
    /// When the entry happened.
    pub fn created_at(&self) -> (r: &str)
        ensures
            r@ == event_time(*self),
    {
        match self {
            TimelineEvent::Comment { created_at, .. } => created_at.as_str(),
            TimelineEvent::StatusChange { created_at, .. } => created_at.as_str(),
            TimelineEvent::AssigneeChange { created_at, .. } => created_at.as_str(),
        }
    }
}

impl Clone for TimelineEvent {
    fn clone(&self) -> (r: Self)
        ensures
            r == *self,
    {
        match self {
            TimelineEvent::Comment { user, body, created_at } => TimelineEvent::Comment {
                user: user.clone(),
                body: body.clone(),
                created_at: created_at.clone(),
            },
            TimelineEvent::StatusChange { actor, from, to, created_at } => {
                TimelineEvent::StatusChange {
                    actor: actor.clone(),
                    from: from.clone(),
                    to: to.clone(),
                    created_at: created_at.clone(),
                }
            },
            TimelineEvent::AssigneeChange { actor, from, to, created_at } => {
                TimelineEvent::AssigneeChange {
                    actor: actor.clone(),
                    from: clone_opt_string(from),
                    to: clone_opt_string(to),
                    created_at: created_at.clone(),
                }
            },
        }
    }
}

/// A saved custom view.
#[derive(Debug)]
pub struct CustomView {
    pub id: String,
    pub name: String,
    pub icon: Option<String>,
    pub color: Option<String>,
}

impl Clone for CustomView {
    fn clone(&self) -> (r: Self)
        ensures
            r == *self,
    {
        CustomView {
            id: self.id.clone(),
            name: self.name.clone(),
            icon: clone_opt_string(&self.icon),
            color: clone_opt_string(&self.color),
        }
    }
}

#[derive(Debug)]
pub struct CustomViewsResponse {
    pub custom_views: Connection<CustomView>,
}

#[derive(Debug)]
pub struct CustomViewIssuesResponse {
    pub custom_view: CustomViewWithIssues,
}

#[derive(Debug)]
pub struct CustomViewWithIssues {
    pub issues: Connection<Issue>,
}

} // verus!
