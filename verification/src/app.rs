//! The application state and every change the user interface makes to it.
//! Requests to the API are split in two: a `begin_*` step that updates the
//! state and says what to fetch, and a `finish_*` step that takes the answer.

use crate::api::{api_error_text, backlog_filter, issues_filter, ApiError, IssueFilter};
use crate::dates::{date_le, parse_date, spec_parse_date, today_utc, ymd_le, Ymd};
use crate::cache::TimelineCache;
use crate::config::{AssigneeDefault, Config, CycleDefault, ViewMode};
use crate::fuzzy::{filter_items, filtered_pairs, pairs, FilteredItem};
use crate::text::{concat2, eq_ignore_ascii_case, owned, str_eq_ignore_ascii_case};
use crate::timeline::{event_views, merge_timeline_events};
use crate::types::{
    cycle_dates_ok, cycle_display_name, opt_view, Comment, Cycle, Issue, IssueHistory, Team, TimelineEvent, User,
    WorkflowState,
};
use vstd::prelude::*;

verus! {

/// What the interface is doing.
#[derive(Debug, Clone, Copy, PartialEq, Eq, Structural)]
pub enum Mode {
    /// Browsing the issue list.
    Normal,
    /// Reading one issue's details.
    DetailView,
    /// Typing a filter for the issue list.
    IssueFilter,
    /// Picking a team.
    TeamSelect,
    /// Picking a cycle.
    CycleSelect,
    /// Picking a status for the selected issue.
    StatusSelect,
    /// Typing a search query.
    Search,
    /// Browsing search results.
    SearchResults,
    /// Picking a custom view.
    ViewSelect,
    /// Showing the key bindings.
    Help,
}

impl Default for Mode {
    fn default() -> (r: Self)
        ensures
            r == Mode::Normal,
    {
        Mode::Normal
    }
}

/// The state of the application.
#[derive(Debug)]
pub struct App {
    pub config: Config,
    pub teams: Vec<Team>,
    pub cycles: Vec<Cycle>,
    pub issues: Vec<Issue>,
    pub workflow_states: Vec<WorkflowState>,
    pub mode: Mode,
    pub issue_filter: String,
    pub filtered_issues: Vec<FilteredItem<Issue>>,
    pub selected_issue_index: usize,
    pub team_filter: String,
    pub filtered_teams: Vec<FilteredItem<Team>>,
    pub selected_team_index: usize,
    pub cycle_filter: String,
    pub filtered_cycles: Vec<FilteredItem<Cycle>>,
    pub selected_cycle_index: usize,
    pub status_filter: String,
    pub filtered_states: Vec<FilteredItem<WorkflowState>>,
    pub selected_status_index: usize,
    pub current_team: Option<Team>,
    pub current_cycle: Option<Cycle>,
    pub backlog_mode: bool,
    pub viewer: Option<User>,
    pub filter_my_issues: bool,
    pub loading: bool,
    pub error: Option<String>,
    pub detail_scroll_offset: u16,
    pub detail_content_height: u16,
    pub detail_viewport_height: u16,
    pub pending_description_edit: Option<String>,
    pub timeline_events: Vec<TimelineEvent>,
    pub timeline_loading: bool,
    pub timeline_cache: TimelineCache,
    pub search_query: String,
    pub search_results: Vec<Issue>,
    pub in_search_context: bool,
    pub selected_search_index: usize,
}

// ---------------------------------------------------------------------------
// What the filtered lists hold
// ---------------------------------------------------------------------------

/// The text an issue is filtered by: its identifier and title.
pub open spec fn issue_text(i: Issue) -> Seq<char> {
    i.identifier@ + " "@ + i.title@
}

/// The text a team is filtered by: its name and key.
pub open spec fn team_text(t: Team) -> Seq<char> {
    t.name@ + " "@ + t.key@
}

/// The text a workflow state is filtered by: its name.
pub open spec fn state_text(s: WorkflowState) -> Seq<char> {
    s.name@
}

/// Whether each entry of `r` holds the item at the position it names.
pub open spec fn exact_items<T>(items: Seq<T>, r: Seq<FilteredItem<T>>) -> bool {
    forall|k: int|
        0 <= k < r.len() ==> #[trigger] r[k].original_index < items.len() && r[k].item
            == items[r[k].original_index as int]
}

/// Whether `r` is the fuzzy filter of `items`, whose texts are `texts`, by
/// `query`.
pub open spec fn is_filtered<T>(
    items: Seq<T>,
    texts: Seq<Seq<char>>,
    query: Seq<char>,
    r: Seq<FilteredItem<T>>,
) -> bool {
    exact_items(items, r) && pairs(r) == filtered_pairs(texts, query)
}

pub open spec fn issue_texts(s: Seq<Issue>) -> Seq<Seq<char>> {
    s.map_values(|i: Issue| issue_text(i))
}

pub open spec fn team_texts(s: Seq<Team>) -> Seq<Seq<char>> {
    s.map_values(|t: Team| team_text(t))
}

pub open spec fn cycle_texts(s: Seq<Cycle>) -> Seq<Seq<char>> {
    s.map_values(|c: Cycle| cycle_display_name(c))
}

pub open spec fn state_texts(s: Seq<WorkflowState>) -> Seq<Seq<char>> {
    s.map_values(|w: WorkflowState| state_text(w))
}

/// The issue shown at position `k` of the filtered issue list.
pub open spec fn filtered_issue_at(app: App, k: int) -> Option<Issue> {
    if 0 <= k < app.filtered_issues@.len() {
        Some(app.filtered_issues@[k].item)
    } else {
        None
    }
}

/// The selected issue of the issue list.
pub open spec fn spec_selected_issue(app: App) -> Option<Issue> {
    filtered_issue_at(app, app.selected_issue_index as int)
}

/// The selected search result.
pub open spec fn spec_selected_search_result(app: App) -> Option<Issue> {
    if app.selected_search_index < app.search_results@.len() {
        Some(app.search_results@[app.selected_search_index as int])
    } else {
        None
    }
}

/// The issue the details show: the selected search result while searching,
/// else the selected issue.
pub open spec fn spec_current_issue(app: App) -> Option<Issue> {
    if app.in_search_context {
        spec_selected_search_result(app)
    } else {
        spec_selected_issue(app)
    }
}

/// `n` plus one, but no more than `last`.
pub open spec fn step_up(n: usize, last: usize) -> usize {
    if n + 1 <= last {
        (n + 1) as usize
    } else {
        last
    }
}

/// `n` minus one, but no less than zero.
pub open spec fn step_down(n: usize) -> usize {
    if n > 0 {
        (n - 1) as usize
    } else {
        0
    }
}

/// How far the details can scroll: the part of the content below the view.
pub open spec fn max_scroll(app: App) -> u16 {
    if app.detail_content_height > app.detail_viewport_height {
        (app.detail_content_height - app.detail_viewport_height) as u16
    } else {
        0
    }
}

/// The timeline shown after moving to another issue: the cached one of the
/// issue now current, or nothing.
pub open spec fn cached_timeline_ok(app: App) -> bool {
    match spec_current_issue(app) {
        Some(i) => if app.timeline_cache@.contains_key(i.id@) {
            event_views(app.timeline_events@) == app.timeline_cache@[i.id@]
        } else {
            app.timeline_events@.len() == 0
        },
        None => app.timeline_events@.len() == 0,
    }
}

fn issue_text_of(i: &Issue) -> (r: String)
    ensures
        r@ == issue_text(*i),
{
    let mut r = concat2(i.identifier.as_str(), " ");
    crate::text::push_str(&mut r, i.title.as_str());
    r
}

fn team_text_of(t: &Team) -> (r: String)
    ensures
        r@ == team_text(*t),
{
    let mut r = concat2(t.name.as_str(), " ");
    crate::text::push_str(&mut r, t.key.as_str());
    r
}

proof fn lemma_filtered<T: Clone>(
    items: Seq<T>,
    texts: Seq<Seq<char>>,
    query: Seq<char>,
    r: Seq<FilteredItem<T>>,
    got: Seq<String>,
)
    requires
        texts.len() == items.len(),
        crate::fuzzy::items_cloned(items, r),
        forall|a: T, b: T| #[trigger] cloned::<T>(a, b) ==> a == b,
        query.len() == 0 ==> pairs(r) == Seq::new(items.len(), |i: int| (i as usize, 0u32)),
        query.len() > 0 ==> got.len() == items.len() && (forall|i: int|
            0 <= i < items.len() ==> (#[trigger] got[i])@ == texts[i]) && pairs(r)
            == crate::fuzzy::ranked(Seq::new(items.len(), |i: int| crate::fuzzy::fuzzy_score(query, got[i]@))),
    ensures
        is_filtered(items, texts, query, r),
{
    assert forall|k: int| 0 <= k < r.len() implies #[trigger] r[k].original_index < items.len()
        && r[k].item == items[r[k].original_index as int] by {
        assert(cloned::<T>(items[r[k].original_index as int], r[k].item));
    }
    if query.len() > 0 {
        assert(Seq::new(items.len(), |i: int| crate::fuzzy::fuzzy_score(query, got[i]@)) =~= Seq::new(
            texts.len(),
            |i: int| crate::fuzzy::fuzzy_score(query, texts[i]),
        ));
    }
}

} // verus!

verus! {

impl App {
    /// A fresh state for the given configuration: nothing loaded, normal mode,
    /// and "my issues" on when the configured assignee is the user.
    pub fn new(config: Config) -> (r: App)
        ensures
            r.config == config,
            r.filter_my_issues == (config.defaults.assignee == AssigneeDefault::Me),
            r.mode == Mode::Normal,
            r.teams@.len() == 0 && r.cycles@.len() == 0 && r.issues@.len() == 0,
            r.workflow_states@.len() == 0,
            r.issue_filter@.len() == 0 && r.team_filter@.len() == 0,
            r.cycle_filter@.len() == 0 && r.status_filter@.len() == 0,
            r.filtered_issues@.len() == 0 && r.filtered_teams@.len() == 0,
            r.filtered_cycles@.len() == 0 && r.filtered_states@.len() == 0,
            r.selected_issue_index == 0 && r.selected_team_index == 0,
            r.selected_cycle_index == 0 && r.selected_status_index == 0,
            r.current_team is None && r.current_cycle is None,
            !r.backlog_mode && r.viewer is None && !r.loading && r.error is None,
            r.detail_scroll_offset == 0 && r.detail_content_height == 0,
            r.detail_viewport_height == 0,
            r.pending_description_edit is None,
            r.timeline_events@.len() == 0 && !r.timeline_loading,
            r.timeline_cache@ == Map::<Seq<char>, Seq<crate::types::EventView>>::empty(),
            r.search_query@.len() == 0 && r.search_results@.len() == 0,
            !r.in_search_context && r.selected_search_index == 0,
    {
        let filter_my_issues = match config.defaults.assignee {
            AssigneeDefault::Me => true,
            _ => false,
        };
        App {
            config,
            teams: Vec::new(),
            cycles: Vec::new(),
            issues: Vec::new(),
            workflow_states: Vec::new(),
            mode: Mode::Normal,
            issue_filter: String::new(),
            filtered_issues: Vec::new(),
            selected_issue_index: 0,
            team_filter: String::new(),
            filtered_teams: Vec::new(),
            selected_team_index: 0,
            cycle_filter: String::new(),
            filtered_cycles: Vec::new(),
            selected_cycle_index: 0,
            status_filter: String::new(),
            filtered_states: Vec::new(),
            selected_status_index: 0,
            current_team: None,
            current_cycle: None,
            backlog_mode: false,
            viewer: None,
            filter_my_issues,
            loading: false,
            error: None,
            detail_scroll_offset: 0,
            detail_content_height: 0,
            detail_viewport_height: 0,
            pending_description_edit: None,
            timeline_events: Vec::new(),
            timeline_loading: false,
            timeline_cache: TimelineCache::new(),
            search_query: String::new(),
            search_results: Vec::new(),
            in_search_context: false,
            selected_search_index: 0,
        }
    }

    pub(crate) fn update_filtered_issues(&mut self)
        ensures
            *final(self) == (App { filtered_issues: final(self).filtered_issues, ..*old(self) }),
            is_filtered(
                old(self).issues@,
                issue_texts(old(self).issues@),
                old(self).issue_filter@,
                final(self).filtered_issues@,
            ),
    {
        self.filtered_issues = filter_exact(
            self.issues.as_slice(),
            self.issue_filter.as_str(),
            issue_text_of,
            Ghost(issue_texts(self.issues@)),
        );
    }

    pub(crate) fn update_filtered_teams(&mut self)
        ensures
            *final(self) == (App { filtered_teams: final(self).filtered_teams, ..*old(self) }),
            is_filtered(
                old(self).teams@,
                team_texts(old(self).teams@),
                old(self).team_filter@,
                final(self).filtered_teams@,
            ),
    {
        self.filtered_teams = filter_exact(
            self.teams.as_slice(),
            self.team_filter.as_str(),
            team_text_of,
            Ghost(team_texts(self.teams@)),
        );
    }

    pub(crate) fn update_filtered_cycles(&mut self)
        ensures
            *final(self) == (App { filtered_cycles: final(self).filtered_cycles, ..*old(self) }),
            is_filtered(
                old(self).cycles@,
                cycle_texts(old(self).cycles@),
                old(self).cycle_filter@,
                final(self).filtered_cycles@,
            ),
    {
        self.filtered_cycles = filter_exact(
            self.cycles.as_slice(),
            self.cycle_filter.as_str(),
            cycle_text_of,
            Ghost(cycle_texts(self.cycles@)),
        );
    }

    pub(crate) fn update_filtered_states(&mut self)
        ensures
            *final(self) == (App { filtered_states: final(self).filtered_states, ..*old(self) }),
            is_filtered(
                old(self).workflow_states@,
                state_texts(old(self).workflow_states@),
                old(self).status_filter@,
                final(self).filtered_states@,
            ),
    {
        self.filtered_states = filter_exact(
            self.workflow_states.as_slice(),
            self.status_filter.as_str(),
            state_text_of,
            Ghost(state_texts(self.workflow_states@)),
        );
    }
}

fn cycle_text_of(c: &Cycle) -> (r: String)
    ensures
        r@ == cycle_display_name(*c),
{
    c.display_name()
}

fn state_text_of(w: &WorkflowState) -> (r: String)
    ensures
        r@ == state_text(*w),
{
    w.name.clone()
}

fn filter_exact<T: Clone, F: Fn(&T) -> String>(
    items: &[T],
    query: &str,
    get_text: F,
    Ghost(texts): Ghost<Seq<Seq<char>>>,
) -> (r: Vec<FilteredItem<T>>)
    requires
        texts.len() == items@.len(),
        forall|i: int| 0 <= i < items@.len() ==> call_requires(get_text, (&items@[i],)),
        forall|i: int, t: String|
            0 <= i < items@.len() && call_ensures(get_text, (&items@[i],), t) ==> t@ == texts[i],
        forall|a: T, b: T| #[trigger] cloned::<T>(a, b) ==> a == b,
    ensures
        is_filtered(items@, texts, query@, r@),
{
    let r = filter_items(items, query, get_text);
    proof {
        let q = query@;
        if q.len() > 0 {
            let got = choose|got: Seq<String>|
                #![trigger got.len()]
                got.len() == items@.len() && (forall|i: int|
                    0 <= i < items@.len() ==> call_ensures(get_text, (&items@[i],), #[trigger] got[i]))
                    && pairs(r@) == crate::fuzzy::ranked(
                    Seq::new(items@.len(), |i: int| crate::fuzzy::fuzzy_score(q, got[i]@)),
                );
            lemma_filtered(items@, texts, q, r@, got);
        } else {
            lemma_filtered(items@, texts, q, r@, Seq::<String>::empty());
        }
    }
    r
}

} // verus!

verus! {

/// The view of an optional reference.
pub open spec fn deref_opt<T>(o: Option<&T>) -> Option<T> {
    match o {
        Some(x) => Some(*x),
        None => None,
    }
}

/// Index of the first id equal to `id`, or `ids.len()` when none is.
pub open spec fn first_pos(ids: Seq<Seq<char>>, id: Seq<char>) -> int
    decreases ids.len(),
{
    if ids.len() == 0 {
        0
    } else if ids[0] == id {
        0
    } else {
        1 + first_pos(ids.drop_first(), id)
    }
}

proof fn lemma_first_pos_is(ids: Seq<Seq<char>>, id: Seq<char>, k: int)
    requires
        0 <= k <= ids.len(),
        k < ids.len() ==> ids[k] == id,
        forall|j: int| 0 <= j < k ==> ids[j] != id,
    ensures
        first_pos(ids, id) == k,
    decreases ids.len(),
{
    if ids.len() > 0 && k > 0 {
        assert forall|j: int| 0 <= j < k - 1 implies ids.drop_first()[j] != id by {
            assert(ids.drop_first()[j] == ids[j + 1]);
        }
        lemma_first_pos_is(ids.drop_first(), id, k - 1);
    }
}

/// Where a picker starts: at the entry with the given id, else at the top.
pub open spec fn start_index(ids: Seq<Seq<char>>, id: Option<Seq<char>>) -> usize {
    match id {
        Some(id) => if first_pos(ids, id) < ids.len() {
            first_pos(ids, id) as usize
        } else {
            0
        },
        None => 0,
    }
}

pub open spec fn team_ids(f: Seq<FilteredItem<Team>>) -> Seq<Seq<char>> {
    f.map_values(|x: FilteredItem<Team>| x.item.id@)
}

pub open spec fn cycle_ids(f: Seq<FilteredItem<Cycle>>) -> Seq<Seq<char>> {
    f.map_values(|x: FilteredItem<Cycle>| x.item.id@)
}

pub open spec fn state_ids(f: Seq<FilteredItem<WorkflowState>>) -> Seq<Seq<char>> {
    f.map_values(|x: FilteredItem<WorkflowState>| x.item.id@)
}

fn find_id(ids: &Vec<String>, id: &String) -> (r: usize)
    ensures
        r == start_index(crate::text::views(ids@), Some(id@)),
{
    let ghost v = crate::text::views(ids@);
    let mut k: usize = 0;
    while k < ids.len()
        invariant
            v == crate::text::views(ids@),
            k <= ids.len(),
            forall|j: int| 0 <= j < k ==> v[j] != id@,
        decreases ids.len() - k,
    {
        if ids[k] == *id {
            proof {
                lemma_first_pos_is(v, id@, k as int);
            }
            return k;
        }
        k = k + 1;
    }
    proof {
        lemma_first_pos_is(v, id@, k as int);
    }
    0
}

/// The state after the filter of the open list was edited by `edit`: the
/// list is filtered anew by the edited filter and its first entry selected.
/// Without an open list nothing changes.
pub open spec fn filter_edited(a: App, b: App, edit: spec_fn(Seq<char>) -> Seq<char>) -> bool {
    match a.mode {
        Mode::IssueFilter => b.issue_filter@ == edit(a.issue_filter@) && b == (App {
            issue_filter: b.issue_filter,
            filtered_issues: b.filtered_issues,
            selected_issue_index: 0,
            ..a
        }) && is_filtered(a.issues@, issue_texts(a.issues@), b.issue_filter@, b.filtered_issues@),
        Mode::TeamSelect => b.team_filter@ == edit(a.team_filter@) && b == (App {
            team_filter: b.team_filter,
            filtered_teams: b.filtered_teams,
            selected_team_index: 0,
            ..a
        }) && is_filtered(a.teams@, team_texts(a.teams@), b.team_filter@, b.filtered_teams@),
        Mode::CycleSelect => b.cycle_filter@ == edit(a.cycle_filter@) && b == (App {
            cycle_filter: b.cycle_filter,
            filtered_cycles: b.filtered_cycles,
            selected_cycle_index: 0,
            ..a
        }) && is_filtered(a.cycles@, cycle_texts(a.cycles@), b.cycle_filter@, b.filtered_cycles@),
        Mode::StatusSelect => b.status_filter@ == edit(a.status_filter@) && b == (App {
            status_filter: b.status_filter,
            filtered_states: b.filtered_states,
            selected_status_index: 0,
            ..a
        }) && is_filtered(
            a.workflow_states@,
            state_texts(a.workflow_states@),
            b.status_filter@,
            b.filtered_states@,
        ),
        _ => b == a,
    }
}

impl App {
    /// Types a character into the filter of the open list.
    pub fn filter_input(&mut self, c: char)
        ensures
            filter_edited(*old(self), *final(self), |f: Seq<char>| f.push(c)),
    {
        match self.mode {
            Mode::IssueFilter => {
                crate::text::push_char(&mut self.issue_filter, c);
                self.update_filtered_issues();
                self.selected_issue_index = 0;
            },
            Mode::TeamSelect => {
                crate::text::push_char(&mut self.team_filter, c);
                self.update_filtered_teams();
                self.selected_team_index = 0;
            },
            Mode::CycleSelect => {
                crate::text::push_char(&mut self.cycle_filter, c);
                self.update_filtered_cycles();
                self.selected_cycle_index = 0;
            },
            Mode::StatusSelect => {
                crate::text::push_char(&mut self.status_filter, c);
                self.update_filtered_states();
                self.selected_status_index = 0;
            },
            _ => {},
        }
    }

    /// Deletes the last character of the filter of the open list.
    pub fn filter_backspace(&mut self)
        ensures
            filter_edited(*old(self), *final(self), |f: Seq<char>| drop_last_char(f)),
    {
        match self.mode {
            Mode::IssueFilter => {
                crate::text::pop_char(&mut self.issue_filter);
                self.update_filtered_issues();
                self.selected_issue_index = 0;
            },
            Mode::TeamSelect => {
                crate::text::pop_char(&mut self.team_filter);
                self.update_filtered_teams();
                self.selected_team_index = 0;
            },
            Mode::CycleSelect => {
                crate::text::pop_char(&mut self.cycle_filter);
                self.update_filtered_cycles();
                self.selected_cycle_index = 0;
            },
            Mode::StatusSelect => {
                crate::text::pop_char(&mut self.status_filter);
                self.update_filtered_states();
                self.selected_status_index = 0;
            },
            _ => {},
        }
    }

    /// The filter text of the open list; empty when no list is open.
    pub fn current_filter(&self) -> (r: &str)
        ensures
            r@ == match self.mode {
                Mode::IssueFilter => self.issue_filter@,
                Mode::TeamSelect => self.team_filter@,
                Mode::CycleSelect => self.cycle_filter@,
                Mode::StatusSelect => self.status_filter@,
                _ => ""@,
            },
    {
        match self.mode {
            Mode::IssueFilter => self.issue_filter.as_str(),
            Mode::TeamSelect => self.team_filter.as_str(),
            Mode::CycleSelect => self.cycle_filter.as_str(),
            Mode::StatusSelect => self.status_filter.as_str(),
            _ => "",
        }
    }

    /// The selected issue of the issue list.
    pub fn selected_issue(&self) -> (r: Option<&Issue>)
        ensures
            deref_opt(r) == spec_selected_issue(*self),
    {
        if self.selected_issue_index < self.filtered_issues.len() {
            Some(&self.filtered_issues[self.selected_issue_index].item)
        } else {
            None
        }
    }

    /// The selected search result.
    pub fn selected_search_result(&self) -> (r: Option<&Issue>)
        ensures
            deref_opt(r) == spec_selected_search_result(*self),
    {
        if self.selected_search_index < self.search_results.len() {
            Some(&self.search_results[self.selected_search_index])
        } else {
            None
        }
    }

    /// The issue the details show.
    pub fn current_issue(&self) -> (r: Option<&Issue>)
        ensures
            deref_opt(r) == spec_current_issue(*self),
    {
        if self.in_search_context {
            self.selected_search_result()
        } else {
            self.selected_issue()
        }
    }

    /// The text to open in the editor: an edit that failed to save, else the
    /// selected issue's description, else nothing.
    pub fn get_description_for_edit(&self) -> (r: String)
        ensures
            r@ == match self.pending_description_edit {
                Some(p) => p@,
                None => match spec_selected_issue(*self) {
                    Some(i) => match i.description {
                        Some(d) => d@,
                        None => Seq::<char>::empty(),
                    },
                    None => Seq::<char>::empty(),
                },
            },
    {
        match &self.pending_description_edit {
            Some(p) => p.clone(),
            None => match self.selected_issue() {
                Some(i) => match &i.description {
                    Some(d) => d.clone(),
                    None => String::new(),
                },
                None => String::new(),
            },
        }
    }

    /// Forgets an edit that failed to save.
    pub fn clear_pending_description_edit(&mut self)
        ensures
            *final(self) == (App { pending_description_edit: None, ..*old(self) }),
    {
        self.pending_description_edit = None;
    }

    /// Empties the shown timeline.
    pub fn clear_timeline(&mut self)
        ensures
            *final(self) == (App {
                timeline_events: final(self).timeline_events,
                timeline_loading: false,
                ..*old(self)
            }),
            final(self).timeline_events@.len() == 0,
    {
        self.timeline_events.clear();
        self.timeline_loading = false;
    }

    /// Empties the shown timeline and forgets every cached one.
    pub fn clear_timeline_cache(&mut self)
        ensures
            *final(self) == (App {
                timeline_events: final(self).timeline_events,
                timeline_loading: false,
                timeline_cache: final(self).timeline_cache,
                ..*old(self)
            }),
            final(self).timeline_events@.len() == 0,
            final(self).timeline_cache@ == Map::<Seq<char>, Seq<crate::types::EventView>>::empty(),
    {
        self.timeline_cache.clear();
        self.clear_timeline();
    }

    /// Shows the cached timeline of the current issue, or nothing when it has
    /// none.
    pub fn load_timeline_from_cache(&mut self)
        ensures
            *final(self) == (App { timeline_events: final(self).timeline_events, ..*old(self) }),
            cached_timeline_ok(*final(self)),
    {
        let id = match self.current_issue() {
            Some(i) => Some(i.id.clone()),
            None => None,
        };
        if let Some(id) = id {
            if let Some(cached) = self.timeline_cache.get(id.as_str()) {
                let events = cached.clone();
                assert(events@ =~= cached@);
                self.timeline_events = events;
                return;
            }
        }
        self.timeline_events.clear();
    }
}

/// A text without its last character; an empty text stays empty.
pub open spec fn drop_last_char(s: Seq<char>) -> Seq<char> {
    if s.len() > 0 {
        s.drop_last()
    } else {
        s
    }
}

} // verus!

verus! {

/// The state after the selection moved to another issue: the new index, the
/// details scrolled to the top, and the cached timeline of the new issue.
pub open spec fn moved_to(old: App, new: App, k: usize) -> bool {
    new == (App {
        selected_issue_index: k,
        detail_scroll_offset: 0,
        timeline_events: new.timeline_events,
        ..old
    }) && cached_timeline_ok(new)
}

impl App {
    /// Selects the next issue of the list, stopping at the last one.
    pub fn next_issue(&mut self)
        ensures
            ({
                let n = old(self).filtered_issues@.len();
                let k = if n > 0 {
                    step_up(old(self).selected_issue_index, (n - 1) as usize)
                } else {
                    old(self).selected_issue_index
                };
                if n > 0 && k != old(self).selected_issue_index {
                    moved_to(*old(self), *final(self), k)
                } else {
                    *final(self) == *old(self)
                }
            }),
    {
        if self.filtered_issues.len() > 0 {
            let last = self.filtered_issues.len() - 1;
            let k = if self.selected_issue_index >= last {
                last
            } else {
                self.selected_issue_index + 1
            };
            if k != self.selected_issue_index {
                self.selected_issue_index = k;
                self.detail_scroll_offset = 0;
                self.load_timeline_from_cache();
            }
        }
    }

    /// Selects the previous issue of the list, stopping at the first one.
    pub fn previous_issue(&mut self)
        ensures
            ({
                let k = step_down(old(self).selected_issue_index);
                if k != old(self).selected_issue_index {
                    moved_to(*old(self), *final(self), k)
                } else {
                    *final(self) == *old(self)
                }
            }),
    {
        let k = if self.selected_issue_index > 0 {
            self.selected_issue_index - 1
        } else {
            0
        };
        if k != self.selected_issue_index {
            self.selected_issue_index = k;
            self.detail_scroll_offset = 0;
            self.load_timeline_from_cache();
        }
    }

    /// Selects the first issue of the list.
    pub fn first_issue(&mut self)
        ensures
            if old(self).selected_issue_index != 0 {
                moved_to(*old(self), *final(self), 0)
            } else {
                *final(self) == *old(self)
            },
    {
        if self.selected_issue_index != 0 {
            self.selected_issue_index = 0;
            self.detail_scroll_offset = 0;
            self.load_timeline_from_cache();
        }
    }

    /// Selects the last issue of the list.
    pub fn last_issue(&mut self)
        ensures
            ({
                let n = old(self).filtered_issues@.len();
                if n > 0 && old(self).selected_issue_index != n - 1 {
                    moved_to(*old(self), *final(self), (n - 1) as usize)
                } else {
                    *final(self) == *old(self)
                }
            }),
    {
        if self.filtered_issues.len() > 0 {
            let last = self.filtered_issues.len() - 1;
            if self.selected_issue_index != last {
                self.selected_issue_index = last;
                self.detail_scroll_offset = 0;
                self.load_timeline_from_cache();
            }
        }
    }

    /// Leaves the details: back to the search results while searching, else
    /// to the issue list.
    pub fn exit_detail_view(&mut self)
        ensures
            *final(self) == (App {
                mode: if old(self).in_search_context {
                    Mode::SearchResults
                } else {
                    Mode::Normal
                },
                ..*old(self)
            }),
    {
        if self.in_search_context {
            self.mode = Mode::SearchResults;
        } else {
            self.mode = Mode::Normal;
        }
    }

    /// Scrolls the details down by one line, not past the end of the content.
    pub fn scroll_detail_down(&mut self)
        ensures
            *final(self) == (App {
                detail_scroll_offset: if old(self).detail_scroll_offset < max_scroll(*old(self)) {
                    (old(self).detail_scroll_offset + 1) as u16
                } else {
                    old(self).detail_scroll_offset
                },
                ..*old(self)
            }),
    {
        let max = if self.detail_content_height > self.detail_viewport_height {
            self.detail_content_height - self.detail_viewport_height
        } else {
            0
        };
        if self.detail_scroll_offset < max {
            self.detail_scroll_offset = self.detail_scroll_offset + 1;
        }
    }

    /// Scrolls the details up by one line, not past the top.
    pub fn scroll_detail_up(&mut self)
        ensures
            *final(self) == (App {
                detail_scroll_offset: if old(self).detail_scroll_offset > 0 {
                    (old(self).detail_scroll_offset - 1) as u16
                } else {
                    0
                },
                ..*old(self)
            }),
    {
        if self.detail_scroll_offset > 0 {
            self.detail_scroll_offset = self.detail_scroll_offset - 1;
        }
    }

    /// Scrolls the details to the top.
    pub fn scroll_detail_top(&mut self)
        ensures
            *final(self) == (App { detail_scroll_offset: 0, ..*old(self) }),
    {
        self.detail_scroll_offset = 0;
    }

    /// Scrolls the details to the bottom.
    pub fn scroll_detail_bottom(&mut self)
        ensures
            *final(self) == (App { detail_scroll_offset: max_scroll(*old(self)), ..*old(self) }),
    {
        self.detail_scroll_offset = if self.detail_content_height > self.detail_viewport_height {
            self.detail_content_height - self.detail_viewport_height
        } else {
            0
        };
    }

    /// Moves down in the open picker, stopping at its last entry; in the
    /// issue filter, selects the next issue.
    pub fn next_picker_item(&mut self)
        ensures
            match old(self).mode {
                Mode::TeamSelect => *final(self) == (App {
                    selected_team_index: if old(self).filtered_teams@.len() > 0 {
                        step_up(
                            old(self).selected_team_index,
                            (old(self).filtered_teams@.len() - 1) as usize,
                        )
                    } else {
                        old(self).selected_team_index
                    },
                    ..*old(self)
                }),
                Mode::CycleSelect => *final(self) == (App {
                    selected_cycle_index: if old(self).filtered_cycles@.len() > 0 {
                        step_up(
                            old(self).selected_cycle_index,
                            (old(self).filtered_cycles@.len() - 1) as usize,
                        )
                    } else {
                        old(self).selected_cycle_index
                    },
                    ..*old(self)
                }),
                Mode::StatusSelect => *final(self) == (App {
                    selected_status_index: if old(self).filtered_states@.len() > 0 {
                        step_up(
                            old(self).selected_status_index,
                            (old(self).filtered_states@.len() - 1) as usize,
                        )
                    } else {
                        old(self).selected_status_index
                    },
                    ..*old(self)
                }),
                Mode::IssueFilter => {
                    let n = old(self).filtered_issues@.len();
                    let k = if n > 0 {
                        step_up(old(self).selected_issue_index, (n - 1) as usize)
                    } else {
                        old(self).selected_issue_index
                    };
                    if n > 0 && k != old(self).selected_issue_index {
                        moved_to(*old(self), *final(self), k)
                    } else {
                        *final(self) == *old(self)
                    }
                },
                _ => *final(self) == *old(self),
            },
    {
        match self.mode {
            Mode::TeamSelect => {
                if self.filtered_teams.len() > 0 {
                    let last = self.filtered_teams.len() - 1;
                    self.selected_team_index = if self.selected_team_index >= last {
                        last
                    } else {
                        self.selected_team_index + 1
                    };
                }
            },
            Mode::CycleSelect => {
                if self.filtered_cycles.len() > 0 {
                    let last = self.filtered_cycles.len() - 1;
                    self.selected_cycle_index = if self.selected_cycle_index >= last {
                        last
                    } else {
                        self.selected_cycle_index + 1
                    };
                }
            },
            Mode::StatusSelect => {
                if self.filtered_states.len() > 0 {
                    let last = self.filtered_states.len() - 1;
                    self.selected_status_index = if self.selected_status_index >= last {
                        last
                    } else {
                        self.selected_status_index + 1
                    };
                }
            },
            Mode::IssueFilter => {
                self.next_issue();
            },
            _ => {},
        }
    }

    /// Moves up in the open picker, stopping at its first entry; in the
    /// issue filter, selects the previous issue.
    pub fn previous_picker_item(&mut self)
        ensures
            match old(self).mode {
                Mode::TeamSelect => *final(self) == (App {
                    selected_team_index: step_down(old(self).selected_team_index),
                    ..*old(self)
                }),
                Mode::CycleSelect => *final(self) == (App {
                    selected_cycle_index: step_down(old(self).selected_cycle_index),
                    ..*old(self)
                }),
                Mode::StatusSelect => *final(self) == (App {
                    selected_status_index: step_down(old(self).selected_status_index),
                    ..*old(self)
                }),
                Mode::IssueFilter => {
                    let k = step_down(old(self).selected_issue_index);
                    if k != old(self).selected_issue_index {
                        moved_to(*old(self), *final(self), k)
                    } else {
                        *final(self) == *old(self)
                    }
                },
                _ => *final(self) == *old(self),
            },
    {
        match self.mode {
            Mode::TeamSelect => {
                if self.selected_team_index > 0 {
                    self.selected_team_index = self.selected_team_index - 1;
                }
            },
            Mode::CycleSelect => {
                if self.selected_cycle_index > 0 {
                    self.selected_cycle_index = self.selected_cycle_index - 1;
                }
            },
            Mode::StatusSelect => {
                if self.selected_status_index > 0 {
                    self.selected_status_index = self.selected_status_index - 1;
                }
            },
            Mode::IssueFilter => {
                self.previous_issue();
            },
            _ => {},
        }
    }
}

} // verus!

verus! {

fn filtered_team_ids(f: &Vec<FilteredItem<Team>>) -> (r: Vec<String>)
    ensures
        crate::text::views(r@) == team_ids(f@),
{
    let mut r: Vec<String> = Vec::new();
    for i in 0..f.len()
        invariant
            crate::text::views(r@) == team_ids(f@).take(i as int),
    {
        let ghost before = r@;
        let id = f[i].item.id.clone();
        r.push(id);
        assert(r@ == before.push(id));
        assert(crate::text::views(r@) =~= crate::text::views(before).push(id@));
        assert(team_ids(f@).take(i + 1) =~= team_ids(f@).take(i as int).push(team_ids(f@)[i as int]));
    }
    assert(team_ids(f@).take(f.len() as int) =~= team_ids(f@));
    r
}

fn filtered_cycle_ids(f: &Vec<FilteredItem<Cycle>>) -> (r: Vec<String>)
    ensures
        crate::text::views(r@) == cycle_ids(f@),
{
    let mut r: Vec<String> = Vec::new();
    for i in 0..f.len()
        invariant
            crate::text::views(r@) == cycle_ids(f@).take(i as int),
    {
        let ghost before = r@;
        let id = f[i].item.id.clone();
        r.push(id);
        assert(r@ == before.push(id));
        assert(crate::text::views(r@) =~= crate::text::views(before).push(id@));
        assert(cycle_ids(f@).take(i + 1) =~= cycle_ids(f@).take(i as int).push(cycle_ids(f@)[i as int]));
    }
    assert(cycle_ids(f@).take(f.len() as int) =~= cycle_ids(f@));
    r
}

fn filtered_state_ids(f: &Vec<FilteredItem<WorkflowState>>) -> (r: Vec<String>)
    ensures
        crate::text::views(r@) == state_ids(f@),
{
    let mut r: Vec<String> = Vec::new();
    for i in 0..f.len()
        invariant
            crate::text::views(r@) == state_ids(f@).take(i as int),
    {
        let ghost before = r@;
        let id = f[i].item.id.clone();
        r.push(id);
        assert(r@ == before.push(id));
        assert(crate::text::views(r@) =~= crate::text::views(before).push(id@));
        assert(state_ids(f@).take(i + 1) =~= state_ids(f@).take(i as int).push(state_ids(f@)[i as int]));
    }
    assert(state_ids(f@).take(f.len() as int) =~= state_ids(f@));
    r
}

/// The id of an optional team or cycle, as a view.
pub open spec fn team_id_of(t: Option<Team>) -> Option<Seq<char>> {
    match t {
        Some(t) => Some(t.id@),
        None => None,
    }
}

pub open spec fn cycle_id_of(c: Option<Cycle>) -> Option<Seq<char>> {
    match c {
        Some(c) => Some(c.id@),
        None => None,
    }
}

impl App {
    /// Opens the issue filter with an empty filter: every issue shows and the
    /// first is selected.
    pub fn enter_issue_filter(&mut self)
        ensures
            *final(self) == (App {
                mode: Mode::IssueFilter,
                issue_filter: final(self).issue_filter,
                filtered_issues: final(self).filtered_issues,
                selected_issue_index: 0,
                ..*old(self)
            }),
            final(self).issue_filter@.len() == 0,
            is_filtered(
                old(self).issues@,
                issue_texts(old(self).issues@),
                final(self).issue_filter@,
                final(self).filtered_issues@,
            ),
    {
        self.mode = Mode::IssueFilter;
        self.issue_filter = String::new();
        self.update_filtered_issues();
        self.selected_issue_index = 0;
    }

    /// Opens the team picker with an empty filter, on the current team.
    pub fn enter_team_select(&mut self)
        ensures
            *final(self) == (App {
                mode: Mode::TeamSelect,
                team_filter: final(self).team_filter,
                filtered_teams: final(self).filtered_teams,
                selected_team_index: final(self).selected_team_index,
                ..*old(self)
            }),
            final(self).team_filter@.len() == 0,
            is_filtered(
                old(self).teams@,
                team_texts(old(self).teams@),
                final(self).team_filter@,
                final(self).filtered_teams@,
            ),
            final(self).selected_team_index == start_index(
                team_ids(final(self).filtered_teams@),
                team_id_of(old(self).current_team),
            ),
    {
        self.mode = Mode::TeamSelect;
        self.team_filter = String::new();
        self.update_filtered_teams();
        let idx = match &self.current_team {
            Some(t) => {
                let ids = filtered_team_ids(&self.filtered_teams);
                find_id(&ids, &t.id)
            },
            None => 0,
        };
        self.selected_team_index = idx;
    }

    /// Opens the cycle picker with an empty filter, on the current cycle.
    pub fn enter_cycle_select(&mut self)
        ensures
            *final(self) == (App {
                mode: Mode::CycleSelect,
                cycle_filter: final(self).cycle_filter,
                filtered_cycles: final(self).filtered_cycles,
                selected_cycle_index: final(self).selected_cycle_index,
                ..*old(self)
            }),
            final(self).cycle_filter@.len() == 0,
            is_filtered(
                old(self).cycles@,
                cycle_texts(old(self).cycles@),
                final(self).cycle_filter@,
                final(self).filtered_cycles@,
            ),
            final(self).selected_cycle_index == start_index(
                cycle_ids(final(self).filtered_cycles@),
                cycle_id_of(old(self).current_cycle),
            ),
    {
        self.mode = Mode::CycleSelect;
        self.cycle_filter = String::new();
        self.update_filtered_cycles();
        let idx = match &self.current_cycle {
            Some(c) => {
                let ids = filtered_cycle_ids(&self.filtered_cycles);
                find_id(&ids, &c.id)
            },
            None => 0,
        };
        self.selected_cycle_index = idx;
    }

    /// Opens the status picker for the selected issue, on its current state;
    /// does nothing when no issue is selected.
    pub fn enter_status_select(&mut self)
        ensures
            match spec_selected_issue(*old(self)) {
                Some(issue) => *final(self) == (App {
                    mode: Mode::StatusSelect,
                    status_filter: final(self).status_filter,
                    filtered_states: final(self).filtered_states,
                    selected_status_index: final(self).selected_status_index,
                    ..*old(self)
                }) && final(self).status_filter@.len() == 0 && is_filtered(
                    old(self).workflow_states@,
                    state_texts(old(self).workflow_states@),
                    final(self).status_filter@,
                    final(self).filtered_states@,
                ) && final(self).selected_status_index == start_index(
                    state_ids(final(self).filtered_states@),
                    Some(issue.state.id@),
                ),
                None => *final(self) == *old(self),
            },
    {
        let state_id = match self.selected_issue() {
            Some(i) => Some(i.state.id.clone()),
            None => None,
        };
        if let Some(state_id) = state_id {
            self.mode = Mode::StatusSelect;
            self.status_filter = String::new();
            self.update_filtered_states();
            let ids = filtered_state_ids(&self.filtered_states);
            self.selected_status_index = find_id(&ids, &state_id);
        }
    }

    /// Closes the issue filter, keeping the filter.
    pub fn confirm_issue_filter(&mut self)
        ensures
            *final(self) == (App { mode: Mode::Normal, ..*old(self) }),
    {
        self.mode = Mode::Normal;
    }

    /// Closes the open picker and clears its filter (the issue filter is
    /// cleared and the issue list shows every issue again).
    pub fn cancel_picker(&mut self)
        ensures
            match old(self).mode {
                Mode::IssueFilter => *final(self) == (App {
                    mode: Mode::Normal,
                    issue_filter: final(self).issue_filter,
                    filtered_issues: final(self).filtered_issues,
                    ..*old(self)
                }) && final(self).issue_filter@.len() == 0 && is_filtered(
                    old(self).issues@,
                    issue_texts(old(self).issues@),
                    final(self).issue_filter@,
                    final(self).filtered_issues@,
                ),
                Mode::TeamSelect => *final(self) == (App {
                    mode: Mode::Normal,
                    team_filter: final(self).team_filter,
                    ..*old(self)
                }) && final(self).team_filter@.len() == 0,
                Mode::CycleSelect => *final(self) == (App {
                    mode: Mode::Normal,
                    cycle_filter: final(self).cycle_filter,
                    ..*old(self)
                }) && final(self).cycle_filter@.len() == 0,
                Mode::StatusSelect => *final(self) == (App {
                    mode: Mode::Normal,
                    status_filter: final(self).status_filter,
                    ..*old(self)
                }) && final(self).status_filter@.len() == 0,
                _ => *final(self) == (App { mode: Mode::Normal, ..*old(self) }),
            },
    {
        match self.mode {
            Mode::IssueFilter => {
                self.issue_filter = String::new();
                self.update_filtered_issues();
            },
            Mode::TeamSelect => {
                self.team_filter = String::new();
            },
            Mode::CycleSelect => {
                self.cycle_filter = String::new();
            },
            Mode::StatusSelect => {
                self.status_filter = String::new();
            },
            _ => {},
        }
        self.mode = Mode::Normal;
    }

    /// Dismisses the error message.
    pub fn clear_error(&mut self)
        ensures
            *final(self) == (App { error: None, ..*old(self) }),
    {
        self.error = None;
    }

    /// Clears the issue filter: every issue shows and the first is selected.
    pub fn clear_issue_filter(&mut self)
        ensures
            *final(self) == (App {
                issue_filter: final(self).issue_filter,
                filtered_issues: final(self).filtered_issues,
                selected_issue_index: 0,
                ..*old(self)
            }),
            final(self).issue_filter@.len() == 0,
            is_filtered(
                old(self).issues@,
                issue_texts(old(self).issues@),
                final(self).issue_filter@,
                final(self).filtered_issues@,
            ),
    {
        self.issue_filter = String::new();
        self.update_filtered_issues();
        self.selected_issue_index = 0;
    }

    /// Switches between the user's issues and everybody's; only possible once
    /// the user is known.
    pub fn toggle_my_issues(&mut self)
        ensures
            *final(self) == (App {
                filter_my_issues: if old(self).viewer is Some {
                    !old(self).filter_my_issues
                } else {
                    old(self).filter_my_issues
                },
                ..*old(self)
            }),
    {
        if self.viewer.is_some() {
            self.filter_my_issues = !self.filter_my_issues;
        }
    }

    /// Shows the key bindings.
    pub fn show_help(&mut self)
        ensures
            *final(self) == (App { mode: Mode::Help, ..*old(self) }),
    {
        self.mode = Mode::Help;
    }

    /// Closes the key bindings, back to the issue list.
    pub fn close_help(&mut self)
        ensures
            *final(self) == (App { mode: Mode::Normal, ..*old(self) }),
    {
        self.mode = Mode::Normal;
    }

    /// Switches between the cycle view and the backlog.
    pub fn toggle_backlog_mode(&mut self)
        ensures
            *final(self) == (App { backlog_mode: !old(self).backlog_mode, ..*old(self) }),
    {
        self.backlog_mode = !self.backlog_mode;
    }

    /// Opens the search box with an empty query.
    pub fn enter_search(&mut self)
        ensures
            *final(self) == (App {
                mode: Mode::Search,
                search_query: final(self).search_query,
                ..*old(self)
            }),
            final(self).search_query@.len() == 0,
    {
        self.mode = Mode::Search;
        self.search_query = String::new();
    }

    /// Closes the search box and clears the query.
    pub fn cancel_search(&mut self)
        ensures
            *final(self) == (App {
                mode: Mode::Normal,
                search_query: final(self).search_query,
                ..*old(self)
            }),
            final(self).search_query@.len() == 0,
    {
        self.search_query = String::new();
        self.mode = Mode::Normal;
    }

    /// Types a character into the search query.
    pub fn search_input(&mut self, c: char)
        ensures
            *final(self) == (App { search_query: final(self).search_query, ..*old(self) }),
            final(self).search_query@ == old(self).search_query@.push(c),
    {
        crate::text::push_char(&mut self.search_query, c);
    }

    /// Deletes the last character of the search query.
    pub fn search_backspace(&mut self)
        ensures
            *final(self) == (App { search_query: final(self).search_query, ..*old(self) }),
            final(self).search_query@ == drop_last_char(old(self).search_query@),
    {
        crate::text::pop_char(&mut self.search_query);
    }

    /// Leaves the search results for the issue list, forgetting the search.
    pub fn exit_search_results(&mut self)
        ensures
            *final(self) == (App {
                mode: Mode::Normal,
                in_search_context: false,
                search_results: final(self).search_results,
                search_query: final(self).search_query,
                selected_search_index: 0,
                ..*old(self)
            }),
            final(self).search_results@.len() == 0,
            final(self).search_query@.len() == 0,
    {
        self.mode = Mode::Normal;
        self.in_search_context = false;
        self.search_results.clear();
        self.search_query = String::new();
        self.selected_search_index = 0;
    }

    /// Selects the next search result, stopping at the last one.
    pub fn next_search_result(&mut self)
        ensures
            *final(self) == (App {
                selected_search_index: if old(self).search_results@.len() > 0 {
                    step_up(
                        old(self).selected_search_index,
                        (old(self).search_results@.len() - 1) as usize,
                    )
                } else {
                    old(self).selected_search_index
                },
                ..*old(self)
            }),
    {
        if self.search_results.len() > 0 {
            let last = self.search_results.len() - 1;
            self.selected_search_index = if self.selected_search_index >= last {
                last
            } else {
                self.selected_search_index + 1
            };
        }
    }

    /// Selects the previous search result, stopping at the first one.
    pub fn previous_search_result(&mut self)
        ensures
            *final(self) == (App {
                selected_search_index: step_down(old(self).selected_search_index),
                ..*old(self)
            }),
    {
        if self.selected_search_index > 0 {
            self.selected_search_index = self.selected_search_index - 1;
        }
    }
}

} // verus!

verus! {

// ---------------------------------------------------------------------------
// Choosing the team and cycle to show
// ---------------------------------------------------------------------------

/// Whether a date lies on a calendar day (month and day in range).
pub open spec fn valid_day(d: Ymd) -> bool {
    1 <= d.1 <= 12 && 1 <= d.2 <= 31
}

/// Whether both dates of a cycle are known and the cycle runs on `today`
/// (start and end days included).
pub open spec fn cycle_contains(c: Cycle, today: Ymd) -> bool {
    match (c.starts_at, c.ends_at) {
        (Some(s), Some(e)) => match (spec_parse_date(s@), spec_parse_date(e@)) {
            (Some(start), Some(end)) => ymd_le(start, today) && ymd_le(today, end),
            _ => false,
        },
        _ => false,
    }
}

/// The first cycle at or after position `i` that runs on `today`.
pub open spec fn cycle_containing_from(cycles: Seq<Cycle>, today: Ymd, i: int) -> Option<Cycle>
    decreases cycles.len() - i,
{
    if i < 0 || i >= cycles.len() {
        None
    } else if cycle_contains(cycles[i], today) {
        Some(cycles[i])
    } else {
        cycle_containing_from(cycles, today, i + 1)
    }
}

/// The first cycle that runs on `today`.
pub open spec fn current_cycle_at(cycles: Seq<Cycle>, today: Ymd) -> Option<Cycle> {
    cycle_containing_from(cycles, today, 0)
}

/// Whether every cycle's dates can be cut to their date part.
pub open spec fn all_cycle_dates_ok(cycles: Seq<Cycle>) -> bool {
    forall|k: int| 0 <= k < cycles.len() ==> #[trigger] cycle_dates_ok(cycles[k])
}

/// The first cycle at or after position `i` with number `n`.
pub open spec fn numbered_from(cycles: Seq<Cycle>, n: i32, i: int) -> Option<Cycle>
    decreases cycles.len() - i,
{
    if i < 0 || i >= cycles.len() {
        None
    } else if cycles[i].number == n {
        Some(cycles[i])
    } else {
        numbered_from(cycles, n, i + 1)
    }
}

/// The cycle shown first after a team's cycles load: the one running today,
/// the one with the configured number, or the first.
pub open spec fn cycle_choice(cycles: Seq<Cycle>, d: CycleDefault, today: Ymd) -> Option<Cycle> {
    match d {
        CycleDefault::Current => current_cycle_at(cycles, today),
        CycleDefault::Number(n) => numbered_from(cycles, n, 0),
        CycleDefault::Unset => if cycles.len() > 0 {
            Some(cycles[0])
        } else {
            None
        },
    }
}

/// Whether `c` runs on `today`.
fn cycle_is_current(c: &Cycle, today: Ymd) -> (r: bool)
    requires
        cycle_dates_ok(*c),
    ensures
        r == cycle_contains(*c, today),
{
    match (&c.starts_at, &c.ends_at) {
        (Some(s), Some(e)) => {
            let start = parse_date(s.as_str());
            let end = parse_date(e.as_str());
            match (start, end) {
                (Some(a), Some(b)) => date_le(a, today) && date_le(today, b),
                _ => false,
            }
        },
        _ => false,
    }
}

/// Whether every cycle's dates can be cut to their date part (what
/// [`find_current_cycle`] needs).
pub fn cycle_dates_sliceable(cycles: &[Cycle]) -> (r: bool)
    ensures
        r == all_cycle_dates_ok(cycles@),
{
    let mut i: usize = 0;
    while i < cycles.len()
        invariant
            i <= cycles@.len(),
            forall|k: int| 0 <= k < i ==> #[trigger] cycle_dates_ok(cycles@[k]),
        decreases cycles.len() - i,
    {
        let c = &cycles[i];
        let s_ok = match &c.starts_at {
            Some(s) => crate::dates::date_sliceable(s.as_str()),
            None => true,
        };
        let e_ok = match &c.ends_at {
            Some(e) => crate::dates::date_sliceable(e.as_str()),
            None => true,
        };
        if !(s_ok && e_ok) {
            assert(!cycle_dates_ok(cycles@[i as int]));
            return false;
        }
        i = i + 1;
    }
    true
}

/// The first cycle that runs on `today`.
pub fn find_cycle_containing(cycles: &[Cycle], today: Ymd) -> (r: Option<&Cycle>)
    requires
        all_cycle_dates_ok(cycles@),
    ensures
        deref_opt(r) == current_cycle_at(cycles@, today),
{
    let mut i: usize = 0;
    while i < cycles.len()
        invariant
            i <= cycles@.len(),
            all_cycle_dates_ok(cycles@),
            current_cycle_at(cycles@, today) == cycle_containing_from(cycles@, today, i as int),
        decreases cycles.len() - i,
    {
        let c = &cycles[i];
        assert(cycle_dates_ok(cycles@[i as int]));
        if cycle_is_current(c, today) {
            return Some(c);
        }
        i = i + 1;
    }
    None
}

/// The first cycle that runs today (UTC). Which cycle that is depends on the
/// clock; what is stated is that it is the first to run on some calendar day.
pub fn find_current_cycle(cycles: &[Cycle]) -> (r: Option<&Cycle>)
    requires
        all_cycle_dates_ok(cycles@),
    ensures
        exists|today: Ymd| valid_day(today) && #[trigger] current_cycle_at(cycles@, today) == deref_opt(r),
{
    let today = today_utc();
    let r = find_cycle_containing(cycles, today);
    assert(valid_day(today) && current_cycle_at(cycles@, today) == deref_opt(r));
    r
}

/// The first cycle with number `n`.
pub fn find_numbered_cycle(cycles: &[Cycle], n: i32) -> (r: Option<&Cycle>)
    ensures
        deref_opt(r) == numbered_from(cycles@, n, 0),
{
    let mut i: usize = 0;
    while i < cycles.len()
        invariant
            i <= cycles@.len(),
            numbered_from(cycles@, n, 0) == numbered_from(cycles@, n, i as int),
        decreases cycles.len() - i,
    {
        if cycles[i].number == n {
            return Some(&cycles[i]);
        }
        i = i + 1;
    }
    None
}

/// Whether a team goes by `name`, by its name or its key, ignoring ASCII
/// case.
pub open spec fn team_named(t: Team, name: Seq<char>) -> bool {
    eq_ignore_ascii_case(t.name@, name) || eq_ignore_ascii_case(t.key@, name)
}

/// The first team at or after position `i` that goes by `name`.
pub open spec fn team_named_from(teams: Seq<Team>, name: Seq<char>, i: int) -> Option<Team>
    decreases teams.len() - i,
{
    if i < 0 || i >= teams.len() {
        None
    } else if team_named(teams[i], name) {
        Some(teams[i])
    } else {
        team_named_from(teams, name, i + 1)
    }
}

/// The team shown first: the first that goes by the configured name, else
/// the first team.
pub open spec fn default_team(teams: Seq<Team>, name: Option<String>) -> Option<Team> {
    let found = match name {
        Some(n) => team_named_from(teams, n@, 0),
        None => None,
    };
    match found {
        Some(t) => Some(t),
        None => if teams.len() > 0 {
            Some(teams[0])
        } else {
            None
        },
    }
}

/// Whether a team was configured and none of `teams` goes by its name.
pub open spec fn missing_default_team(teams: Seq<Team>, name: Option<String>) -> bool {
    match name {
        Some(n) => team_named_from(teams, n@, 0) is None,
        None => false,
    }
}

/// The warning shown when no team goes by the configured name.
pub open spec fn team_warning(name: Option<String>) -> Seq<char> {
    match name {
        Some(n) => "Default team not found: "@ + n@,
        None => Seq::empty(),
    }
}

/// The warning to show when a team was configured and none of `teams` goes
/// by its name.
fn missing_team_warning(teams: &Vec<Team>, name: &Option<String>) -> (r: Option<String>)
    ensures
        missing_default_team(teams@, *name) ==> (r matches Some(w) && w@ == team_warning(*name)),
        !missing_default_team(teams@, *name) ==> r is None,
{
    match name {
        Some(n) => {
            let found = find_team_named(teams, n.as_str());
            if found.is_none() {
                let mut w = owned("Default team not found: ");
                crate::text::push_str(&mut w, n.as_str());
                Some(w)
            } else {
                None
            }
        },
        None => None,
    }
}

/// The first team that goes by `name`.
fn find_team_named<'a>(teams: &'a Vec<Team>, name: &str) -> (r: Option<&'a Team>)
    ensures
        deref_opt(r) == team_named_from(teams@, name@, 0),
{
    let mut i: usize = 0;
    while i < teams.len()
        invariant
            i <= teams@.len(),
            team_named_from(teams@, name@, 0) == team_named_from(teams@, name@, i as int),
        decreases teams.len() - i,
    {
        let t = &teams[i];
        if str_eq_ignore_ascii_case(t.name.as_str(), name) || str_eq_ignore_ascii_case(
            t.key.as_str(),
            name,
        ) {
            return Some(t);
        }
        i = i + 1;
    }
    None
}

/// The team shown first among `teams`.
pub fn choose_default_team(teams: &Vec<Team>, name: &Option<String>) -> (r: Option<Team>)
    ensures
        r == default_team(teams@, *name),
{
    let found = match name {
        Some(n) => find_team_named(teams, n.as_str()),
        None => None,
    };
    match found {
        Some(t) => Some(t.clone()),
        None => if teams.len() > 0 {
            Some(teams[0].clone())
        } else {
            None
        },
    }
}

} // verus!

verus! {

// ---------------------------------------------------------------------------
// Loading from the API, in steps: each `begin_*` updates the state and says
// what to request, each `finish_*` or `apply_*` takes the answer.
// ---------------------------------------------------------------------------

/// Whether the error shown is `prefix` followed by the text of `e`.
pub open spec fn failed_with(app: App, prefix: Seq<char>, e: ApiError) -> bool {
    app.error matches Some(m) && m@ == prefix + api_error_text(e)
}

/// The user whose issues are asked for: the signed-in user when "my issues"
/// is on.
pub open spec fn assignee_for(app: App) -> Option<Seq<char>> {
    if app.filter_my_issues {
        match app.viewer {
            Some(u) => Some(u.id@),
            None => None,
        }
    } else {
        None
    }
}

/// `prefix` followed by the text of `e`.
fn failure(prefix: &str, e: &ApiError) -> (r: String)
    ensures
        r@ == prefix@ + api_error_text(*e),
{
    let mut r = owned(prefix);
    let m = e.message();
    crate::text::push_str(&mut r, m.as_str());
    r
}

/// The id of the signed-in user when "my issues" is on.
fn assignee_of(filter_my_issues: bool, viewer: &Option<User>) -> (r: Option<String>)
    ensures
        opt_view(r) == (if filter_my_issues {
            match *viewer {
                Some(u) => Some(u.id@),
                None => None,
            }
        } else {
            None
        }),
{
    if filter_my_issues {
        match viewer {
            Some(u) => Some(u.id.clone()),
            None => None,
        }
    } else {
        None
    }
}

impl App {
    /// Starts loading: shows the loading indicator and clears the error.
    pub fn begin_init(&mut self)
        ensures
            *final(self) == (App { loading: true, error: None, ..*old(self) }),
    {
        self.loading = true;
        self.error = None;
    }

    /// Ends start-up: hides the loading indicator and, when no error shows
    /// and no team goes by the configured name, shows that warning again (the
    /// loads that follow choosing a team clear the error).
    pub fn end_init(&mut self)
        ensures
            *final(self) == (App { loading: false, error: final(self).error, ..*old(self) }),
            if old(self).error is None && missing_default_team(
                old(self).teams@,
                old(self).config.defaults.team,
            ) {
                final(self).error matches Some(m) && m@ == team_warning(old(self).config.defaults.team)
            } else {
                final(self).error == old(self).error
            },
    {
        self.loading = false;
        if self.error.is_none() {
            let warning = missing_team_warning(&self.teams, &self.config.defaults.team);
            if let Some(w) = warning {
                self.error = Some(w);
            }
        }
    }

    /// Ends loading: hides the loading indicator.
    pub fn end_loading(&mut self)
        ensures
            *final(self) == (App { loading: false, ..*old(self) }),
    {
        self.loading = false;
    }

    /// Takes the answer to the request for the signed-in user (none when it
    /// failed) and the view to start in from the configuration.
    pub fn set_viewer(&mut self, r: Result<User, ApiError>)
        ensures
            *final(self) == (App {
                viewer: match r {
                    Ok(u) => Some(u),
                    Err(_) => None,
                },
                backlog_mode: old(self).config.defaults.view_mode == ViewMode::Backlog,
                ..*old(self)
            }),
    {
        self.viewer = match r {
            Ok(u) => Some(u),
            Err(_) => None,
        };
        self.backlog_mode = match self.config.defaults.view_mode {
            ViewMode::Backlog => true,
            ViewMode::Cycle => false,
        };
    }

    /// Takes the answer to the request for the teams: on success the teams
    /// and the configured team (or the first) become current, a warning shows
    /// when no team goes by the configured name, and the result says whether a
    /// team was chosen, whose data is then to load.
    pub fn apply_teams(&mut self, r: Result<Vec<Team>, ApiError>) -> (chosen: bool)
        ensures
            match r {
                Ok(ts) => {
                    &&& chosen == (default_team(ts@, old(self).config.defaults.team) is Some)
                    &&& *final(self) == (App {
                        teams: ts,
                        filtered_teams: final(self).filtered_teams,
                        current_team: if chosen {
                            default_team(ts@, old(self).config.defaults.team)
                        } else {
                            old(self).current_team
                        },
                        error: final(self).error,
                        ..*old(self)
                    })
                    &&& if missing_default_team(ts@, old(self).config.defaults.team) {
                        final(self).error matches Some(m) && m@ == team_warning(
                            old(self).config.defaults.team,
                        )
                    } else {
                        final(self).error == old(self).error
                    }
                    &&& is_filtered(
                        ts@,
                        team_texts(ts@),
                        old(self).team_filter@,
                        final(self).filtered_teams@,
                    )
                },
                Err(e) => {
                    &&& !chosen
                    &&& *final(self) == (App { error: final(self).error, ..*old(self) })
                    &&& failed_with(*final(self), "Failed to load teams: "@, e)
                },
            },
    {
        match r {
            Ok(teams) => {
                self.teams = teams;
                self.update_filtered_teams();
                let warning = missing_team_warning(&self.teams, &self.config.defaults.team);
                if let Some(w) = warning {
                    self.error = Some(w);
                }
                let team = choose_default_team(&self.teams, &self.config.defaults.team);
                match team {
                    Some(t) => {
                        self.current_team = Some(t);
                        true
                    },
                    None => false,
                }
            },
            Err(e) => {
                self.error = Some(failure("Failed to load teams: ", &e));
                false
            },
        }
    }

    /// Starts loading the current team's data; returns the team's id, or
    /// `None` (and changes nothing) without a current team.
    pub fn begin_team_data(&mut self) -> (team_id: Option<String>)
        ensures
            match old(self).current_team {
                Some(t) => team_id matches Some(id) && id@ == t.id@ && *final(self) == (App {
                    loading: true,
                    ..*old(self)
                }),
                None => team_id is None && *final(self) == *old(self),
            },
    {
        match &self.current_team {
            Some(t) => {
                let id = t.id.clone();
                self.loading = true;
                Some(id)
            },
            None => None,
        }
    }

    /// Takes the answer to the request for the team's cycles: on success the
    /// configured cycle (the one running today, the numbered one, or the
    /// first) becomes current. Only which day is today is left open.
    pub fn apply_cycles(&mut self, r: Result<Vec<Cycle>, ApiError>)
        requires
            old(self).config.defaults.cycle == CycleDefault::Current ==> (r matches Ok(cs)
                ==> all_cycle_dates_ok(cs@)),
        ensures
            match r {
                Ok(cs) => {
                    &&& *final(self) == (App {
                        cycles: cs,
                        filtered_cycles: final(self).filtered_cycles,
                        current_cycle: final(self).current_cycle,
                        selected_cycle_index: 0,
                        ..*old(self)
                    })
                    &&& is_filtered(
                        cs@,
                        cycle_texts(cs@),
                        old(self).cycle_filter@,
                        final(self).filtered_cycles@,
                    )
                    &&& exists|today: Ymd|
                        valid_day(today) && #[trigger] cycle_choice(
                            cs@,
                            old(self).config.defaults.cycle,
                            today,
                        ) == final(self).current_cycle
                },
                Err(e) => {
                    &&& *final(self) == (App { error: final(self).error, ..*old(self) })
                    &&& failed_with(*final(self), "Failed to load cycles: "@, e)
                },
            },
    {
        match r {
            Ok(cycles) => {
                self.cycles = cycles;
                self.update_filtered_cycles();
                let ghost cs = self.cycles@;
                let ghost d = self.config.defaults.cycle;
                let chosen = match self.config.defaults.cycle {
                    CycleDefault::Current => {
                        let found = find_current_cycle(self.cycles.as_slice());
                        let c = match found {
                            Some(c) => Some(c.clone()),
                            None => None,
                        };
                        proof {
                            let today = choose|today: Ymd|
                                valid_day(today) && #[trigger] current_cycle_at(cs, today)
                                    == deref_opt(found);
                            assert(valid_day(today) && cycle_choice(cs, d, today) == c);
                        }
                        c
                    },
                    CycleDefault::Number(n) => {
                        let found = find_numbered_cycle(self.cycles.as_slice(), n);
                        let c = match found {
                            Some(c) => Some(c.clone()),
                            None => None,
                        };
                        assert(valid_day((1i32, 1u32, 1u32)) && cycle_choice(
                            cs,
                            d,
                            (1i32, 1u32, 1u32),
                        ) == c);
                        c
                    },
                    CycleDefault::Unset => {
                        let c = if self.cycles.len() > 0 {
                            Some(self.cycles[0].clone())
                        } else {
                            None
                        };
                        assert(valid_day((1i32, 1u32, 1u32)) && cycle_choice(
                            cs,
                            d,
                            (1i32, 1u32, 1u32),
                        ) == c);
                        c
                    },
                };
                self.current_cycle = chosen;
                self.selected_cycle_index = 0;
            },
            Err(e) => {
                self.error = Some(failure("Failed to load cycles: ", &e));
            },
        }
    }

    /// Takes the answer to the request for the team's workflow states.
    pub fn apply_workflow_states(&mut self, r: Result<Vec<WorkflowState>, ApiError>)
        ensures
            match r {
                Ok(ws) => {
                    &&& *final(self) == (App {
                        workflow_states: ws,
                        filtered_states: final(self).filtered_states,
                        ..*old(self)
                    })
                    &&& is_filtered(
                        ws@,
                        state_texts(ws@),
                        old(self).status_filter@,
                        final(self).filtered_states@,
                    )
                },
                Err(e) => {
                    &&& *final(self) == (App { error: final(self).error, ..*old(self) })
                    &&& failed_with(*final(self), "Failed to load workflow states: "@, e)
                },
            },
    {
        match r {
            Ok(states) => {
                self.workflow_states = states;
                self.update_filtered_states();
            },
            Err(e) => {
                self.error = Some(failure("Failed to load workflow states: ", &e));
            },
        }
    }

    /// Starts loading the issues of the current team and cycle (and of the
    /// user, when "my issues" is on): clears the error and every cached
    /// timeline, and returns the filter to request.
    pub fn begin_load_issues(&mut self) -> (f: IssueFilter)
        ensures
            *final(self) == (App {
                loading: true,
                error: None,
                timeline_events: final(self).timeline_events,
                timeline_loading: false,
                timeline_cache: final(self).timeline_cache,
                ..*old(self)
            }),
            final(self).timeline_events@.len() == 0,
            final(self).timeline_cache@ == Map::<Seq<char>, Seq<crate::types::EventView>>::empty(),
            opt_view(f.team_id) == team_id_of(old(self).current_team),
            opt_view(f.cycle_id) == cycle_id_of(old(self).current_cycle),
            opt_view(f.assignee_id) == assignee_for(*old(self)),
            !f.backlog_only,
    {
        self.loading = true;
        self.error = None;
        self.clear_timeline_cache();
        let team_id = match &self.current_team {
            Some(t) => Some(t.id.clone()),
            None => None,
        };
        let cycle_id = match &self.current_cycle {
            Some(c) => Some(c.id.clone()),
            None => None,
        };
        let assignee_id = assignee_of(self.filter_my_issues, &self.viewer);
        issues_filter(team_id, cycle_id, assignee_id)
    }

    fn finish_issue_list(&mut self, r: Result<Vec<Issue>, ApiError>, prefix: &str)
        ensures
            match r {
                Ok(is) => {
                    &&& *final(self) == (App {
                        issues: is,
                        issue_filter: final(self).issue_filter,
                        filtered_issues: final(self).filtered_issues,
                        selected_issue_index: 0,
                        loading: false,
                        ..*old(self)
                    })
                    &&& final(self).issue_filter@.len() == 0
                    &&& is_filtered(
                        is@,
                        issue_texts(is@),
                        final(self).issue_filter@,
                        final(self).filtered_issues@,
                    )
                },
                Err(e) => {
                    &&& *final(self) == (App {
                        error: final(self).error,
                        loading: false,
                        ..*old(self)
                    })
                    &&& failed_with(*final(self), prefix@, e)
                },
            },
    {
        match r {
            Ok(issues) => {
                self.issues = issues;
                self.issue_filter = String::new();
                self.update_filtered_issues();
                self.selected_issue_index = 0;
            },
            Err(e) => {
                self.error = Some(failure(prefix, &e));
            },
        }
        self.loading = false;
    }

    /// Takes the answer to the request for the issues: on success they
    /// replace the list, with the issue filter cleared and the first issue
    /// selected.
    pub fn finish_load_issues(&mut self, r: Result<Vec<Issue>, ApiError>)
        ensures
            match r {
                Ok(is) => {
                    &&& *final(self) == (App {
                        issues: is,
                        issue_filter: final(self).issue_filter,
                        filtered_issues: final(self).filtered_issues,
                        selected_issue_index: 0,
                        loading: false,
                        ..*old(self)
                    })
                    &&& final(self).issue_filter@.len() == 0
                    &&& is_filtered(
                        is@,
                        issue_texts(is@),
                        final(self).issue_filter@,
                        final(self).filtered_issues@,
                    )
                },
                Err(e) => {
                    &&& *final(self) == (App {
                        error: final(self).error,
                        loading: false,
                        ..*old(self)
                    })
                    &&& failed_with(*final(self), "Failed to load issues: "@, e)
                },
            },
    {
        self.finish_issue_list(r, "Failed to load issues: ");
    }

    /// Starts loading the current team's backlog: clears the error and every
    /// cached timeline, and returns the filter to request, or `None` (loading
    /// over) without a current team.
    pub fn begin_load_backlog(&mut self) -> (f: Option<IssueFilter>)
        ensures
            final(self).timeline_events@.len() == 0,
            final(self).timeline_cache@ == Map::<Seq<char>, Seq<crate::types::EventView>>::empty(),
            *final(self) == (App {
                loading: old(self).current_team is Some,
                error: None,
                timeline_events: final(self).timeline_events,
                timeline_loading: false,
                timeline_cache: final(self).timeline_cache,
                ..*old(self)
            }),
            match old(self).current_team {
                Some(t) => f matches Some(g) && opt_view(g.team_id) == Some(t.id@)
                    && g.cycle_id is None && opt_view(g.assignee_id) == assignee_for(*old(self))
                    && g.backlog_only,
                None => f is None,
            },
    {
        self.loading = true;
        self.error = None;
        self.clear_timeline_cache();
        let team_id = match &self.current_team {
            Some(t) => t.id.clone(),
            None => {
                self.loading = false;
                return None;
            },
        };
        let assignee_id = assignee_of(self.filter_my_issues, &self.viewer);
        Some(backlog_filter(team_id, assignee_id))
    }

    /// Takes the answer to the request for the backlog, as
    /// [`App::finish_load_issues`] does.
    pub fn finish_load_backlog(&mut self, r: Result<Vec<Issue>, ApiError>)
        ensures
            match r {
                Ok(is) => {
                    &&& *final(self) == (App {
                        issues: is,
                        issue_filter: final(self).issue_filter,
                        filtered_issues: final(self).filtered_issues,
                        selected_issue_index: 0,
                        loading: false,
                        ..*old(self)
                    })
                    &&& final(self).issue_filter@.len() == 0
                    &&& is_filtered(
                        is@,
                        issue_texts(is@),
                        final(self).issue_filter@,
                        final(self).filtered_issues@,
                    )
                },
                Err(e) => {
                    &&& *final(self) == (App {
                        error: final(self).error,
                        loading: false,
                        ..*old(self)
                    })
                    &&& failed_with(*final(self), "Failed to load backlog: "@, e)
                },
            },
    {
        self.finish_issue_list(r, "Failed to load backlog: ");
    }
}

} // verus!

verus! {

/// The selected entry of the filtered issue list.
pub open spec fn spec_selected_entry(app: App) -> Option<FilteredItem<Issue>> {
    if app.selected_issue_index < app.filtered_issues@.len() {
        Some(app.filtered_issues@[app.selected_issue_index as int])
    } else {
        None
    }
}

/// The selected entry of the status picker.
pub open spec fn spec_selected_state(app: App) -> Option<WorkflowState> {
    if app.selected_status_index < app.filtered_states@.len() {
        Some(app.filtered_states@[app.selected_status_index as int].item)
    } else {
        None
    }
}

/// The selected entry of the team picker.
pub open spec fn spec_selected_team(app: App) -> Option<Team> {
    if app.selected_team_index < app.filtered_teams@.len() {
        Some(app.filtered_teams@[app.selected_team_index as int].item)
    } else {
        None
    }
}

/// The selected entry of the cycle picker.
pub open spec fn spec_selected_cycle(app: App) -> Option<Cycle> {
    if app.selected_cycle_index < app.filtered_cycles@.len() {
        Some(app.filtered_cycles@[app.selected_cycle_index as int].item)
    } else {
        None
    }
}

/// The issues after the one at `k` was replaced by `u` (none is replaced
/// when `k` is past the end).
pub open spec fn replaced(issues: Seq<Issue>, k: usize, u: Issue) -> Seq<Issue> {
    if k < issues.len() {
        issues.update(k as int, u)
    } else {
        issues
    }
}

impl App {
    fn replace_issue(&mut self, k: usize, u: Issue)
        ensures
            *final(self) == (App {
                issues: final(self).issues,
                filtered_issues: final(self).filtered_issues,
                ..*old(self)
            }),
            final(self).issues@ == replaced(old(self).issues@, k, u),
            is_filtered(
                final(self).issues@,
                issue_texts(final(self).issues@),
                old(self).issue_filter@,
                final(self).filtered_issues@,
            ),
    {
        if k < self.issues.len() {
            self.issues.set(k, u);
        }
        self.update_filtered_issues();
    }

    /// Starts moving the selected issue to the state selected in the status
    /// picker; returns the issue's id, the state's id and the issue's
    /// position, or `None` (and changes nothing) when either is missing.
    pub fn begin_status_update(&mut self) -> (req: Option<(String, String, usize)>)
        ensures
            match (spec_selected_state(*old(self)), spec_selected_entry(*old(self))) {
                (Some(s), Some(fi)) => req matches Some((iid, sid, k)) && iid@ == fi.item.id@
                    && sid@ == s.id@ && k == fi.original_index && *final(self) == (App {
                    loading: true,
                    ..*old(self)
                }),
                _ => req is None && *final(self) == *old(self),
            },
    {
        if self.selected_status_index >= self.filtered_states.len() {
            return None;
        }
        if self.selected_issue_index >= self.filtered_issues.len() {
            return None;
        }
        let state_id = self.filtered_states[self.selected_status_index].item.id.clone();
        let entry = &self.filtered_issues[self.selected_issue_index];
        let issue_id = entry.item.id.clone();
        let k = entry.original_index;
        self.loading = true;
        Some((issue_id, state_id, k))
    }

    /// Takes the answer to a status update of the issue at position `k`: on
    /// success the updated issue replaces it. Either way the status picker
    /// closes with its filter cleared.
    pub fn finish_status_update(&mut self, k: usize, r: Result<Issue, ApiError>)
        ensures
            final(self).status_filter@.len() == 0,
            match r {
                Ok(u) => {
                    &&& *final(self) == (App {
                        issues: final(self).issues,
                        filtered_issues: final(self).filtered_issues,
                        loading: false,
                        status_filter: final(self).status_filter,
                        mode: Mode::Normal,
                        ..*old(self)
                    })
                    &&& final(self).issues@ == replaced(old(self).issues@, k, u)
                    &&& is_filtered(
                        final(self).issues@,
                        issue_texts(final(self).issues@),
                        old(self).issue_filter@,
                        final(self).filtered_issues@,
                    )
                },
                Err(e) => {
                    &&& *final(self) == (App {
                        error: final(self).error,
                        loading: false,
                        status_filter: final(self).status_filter,
                        mode: Mode::Normal,
                        ..*old(self)
                    })
                    &&& failed_with(*final(self), "Failed to update status: "@, e)
                },
            },
    {
        match r {
            Ok(u) => {
                self.replace_issue(k, u);
            },
            Err(e) => {
                self.error = Some(failure("Failed to update status: ", &e));
            },
        }
        self.loading = false;
        self.status_filter = String::new();
        self.mode = Mode::Normal;
    }

    /// Whether an edit changed the description; an unchanged one forgets
    /// any edit that failed to save.
    pub fn settle_edit(&mut self, before: &str, edited: &str) -> (changed: bool)
        ensures
            changed == (edited@ != before@),
            *final(self) == if changed {
                *old(self)
            } else {
                App { pending_description_edit: None, ..*old(self) }
            },
    {
        if crate::text::str_eq(edited, before) {
            self.pending_description_edit = None;
            false
        } else {
            true
        }
    }

    /// Starts saving a new description of the selected issue; returns the
    /// issue's id and position, or `None` (and changes nothing) without a
    /// selected issue.
    pub fn begin_description_update(&mut self) -> (req: Option<(String, usize)>)
        ensures
            match spec_selected_entry(*old(self)) {
                Some(fi) => req matches Some((iid, k)) && iid@ == fi.item.id@ && k
                    == fi.original_index && *final(self) == (App { loading: true, ..*old(self) }),
                None => req is None && *final(self) == *old(self),
            },
    {
        if self.selected_issue_index >= self.filtered_issues.len() {
            return None;
        }
        let entry = &self.filtered_issues[self.selected_issue_index];
        let issue_id = entry.item.id.clone();
        let k = entry.original_index;
        self.loading = true;
        Some((issue_id, k))
    }

    /// Takes the answer to saving `description` for the issue at position
    /// `k`: on success the updated issue replaces it and the error and any
    /// failed edit are cleared; on failure the edit is kept for a retry.
    pub fn finish_description_update(
        &mut self,
        k: usize,
        description: &str,
        r: Result<Issue, ApiError>,
    )
        ensures
            match r {
                Ok(u) => {
                    &&& *final(self) == (App {
                        issues: final(self).issues,
                        filtered_issues: final(self).filtered_issues,
                        pending_description_edit: None,
                        error: None,
                        loading: false,
                        ..*old(self)
                    })
                    &&& final(self).issues@ == replaced(old(self).issues@, k, u)
                    &&& is_filtered(
                        final(self).issues@,
                        issue_texts(final(self).issues@),
                        old(self).issue_filter@,
                        final(self).filtered_issues@,
                    )
                },
                Err(e) => {
                    &&& *final(self) == (App {
                        pending_description_edit: final(self).pending_description_edit,
                        error: final(self).error,
                        loading: false,
                        ..*old(self)
                    })
                    &&& final(self).pending_description_edit matches Some(p) && p@
                        == description@
                    &&& final(self).error matches Some(m) && m@ == "Failed to save description: "@
                        + api_error_text(e) + " - press 'e' to retry with your changes"@
                },
            },
    {
        match r {
            Ok(u) => {
                self.replace_issue(k, u);
                self.pending_description_edit = None;
                self.error = None;
            },
            Err(e) => {
                self.pending_description_edit = Some(owned(description));
                let mut m = failure("Failed to save description: ", &e);
                crate::text::push_str(&mut m, " - press 'e' to retry with your changes");
                self.error = Some(m);
            },
        }
        self.loading = false;
    }

    /// Starts loading the current issue's timeline: a cached one is shown at
    /// once (and `None` returned); otherwise the timeline empties, shows as
    /// loading, and the issue's id is returned.
    pub fn begin_load_timeline(&mut self) -> (issue_id: Option<String>)
        ensures
            match spec_current_issue(*old(self)) {
                None => issue_id is None && *final(self) == *old(self),
                Some(i) => if old(self).timeline_cache@.contains_key(i.id@) {
                    &&& issue_id is None
                    &&& *final(self) == (App {
                        timeline_events: final(self).timeline_events,
                        ..*old(self)
                    })
                    &&& event_views(final(self).timeline_events@) == old(
                        self,
                    ).timeline_cache@[i.id@]
                } else {
                    &&& issue_id matches Some(id) && id@ == i.id@
                    &&& *final(self) == (App {
                        timeline_events: final(self).timeline_events,
                        timeline_loading: true,
                        ..*old(self)
                    })
                    &&& final(self).timeline_events@.len() == 0
                },
            },
    {
        let id = match self.current_issue() {
            Some(i) => i.id.clone(),
            None => return None,
        };
        if let Some(cached) = self.timeline_cache.get(id.as_str()) {
            let events = cached.clone();
            assert(events@ =~= cached@);
            self.timeline_events = events;
            return None;
        }
        self.timeline_loading = true;
        self.timeline_events.clear();
        Some(id)
    }

    /// Takes the answer to the request for an issue's activity: on success
    /// its comments and history merge into the timeline, which is shown and
    /// cached for the issue.
    pub fn finish_load_timeline(
        &mut self,
        issue_id: String,
        r: Result<(Vec<Comment>, Vec<IssueHistory>), ApiError>,
    )
        ensures
            match r {
                Ok((cs, hs)) => {
                    &&& *final(self) == (App {
                        timeline_events: final(self).timeline_events,
                        timeline_cache: final(self).timeline_cache,
                        timeline_loading: false,
                        ..*old(self)
                    })
                    &&& event_views(final(self).timeline_events@)
                        == crate::timeline::merged_timeline(cs@, hs@)
                    &&& final(self).timeline_cache@ == old(self).timeline_cache@.insert(
                        issue_id@,
                        crate::timeline::merged_timeline(cs@, hs@),
                    )
                },
                Err(e) => {
                    &&& *final(self) == (App {
                        error: final(self).error,
                        timeline_loading: false,
                        ..*old(self)
                    })
                    &&& failed_with(*final(self), "Failed to load activity: "@, e)
                },
            },
    {
        match r {
            Ok((comments, history)) => {
                let events = merge_timeline_events(comments, history);
                let copy = events.clone();
                assert(copy@ =~= events@);
                self.timeline_cache.insert(issue_id, copy);
                self.timeline_events = events;
            },
            Err(e) => {
                self.error = Some(failure("Failed to load activity: ", &e));
            },
        }
        self.timeline_loading = false;
    }

    /// Makes the team selected in the picker current (clearing the picker's
    /// filter) and closes the picker; the result says whether a team was
    /// selected, whose data is then to load.
    pub fn choose_team_from_filter(&mut self) -> (chosen: bool)
        ensures
            match spec_selected_team(*old(self)) {
                Some(t) => chosen && *final(self) == (App {
                    current_team: Some(t),
                    team_filter: final(self).team_filter,
                    mode: Mode::Normal,
                    ..*old(self)
                }) && final(self).team_filter@.len() == 0,
                None => !chosen && *final(self) == (App { mode: Mode::Normal, ..*old(self) }),
            },
    {
        let chosen = if self.selected_team_index < self.filtered_teams.len() {
            let t = self.filtered_teams[self.selected_team_index].item.clone();
            self.current_team = Some(t);
            self.team_filter = String::new();
            true
        } else {
            false
        };
        self.mode = Mode::Normal;
        chosen
    }

    /// Makes the cycle selected in the picker current (clearing the picker's
    /// filter) and closes the picker; the result says whether a cycle was
    /// selected, whose issues are then to load.
    pub fn choose_cycle_from_filter(&mut self) -> (chosen: bool)
        ensures
            match spec_selected_cycle(*old(self)) {
                Some(c) => chosen && *final(self) == (App {
                    current_cycle: Some(c),
                    cycle_filter: final(self).cycle_filter,
                    mode: Mode::Normal,
                    ..*old(self)
                }) && final(self).cycle_filter@.len() == 0,
                None => !chosen && *final(self) == (App { mode: Mode::Normal, ..*old(self) }),
            },
    {
        let chosen = if self.selected_cycle_index < self.filtered_cycles.len() {
            let c = self.filtered_cycles[self.selected_cycle_index].item.clone();
            self.current_cycle = Some(c);
            self.cycle_filter = String::new();
            true
        } else {
            false
        };
        self.mode = Mode::Normal;
        chosen
    }

    /// Makes the cycle running today current (clearing the cycle filter);
    /// the result says whether there is one, whose issues are then to load.
    pub fn choose_current_cycle(&mut self) -> (chosen: bool)
        requires
            all_cycle_dates_ok(old(self).cycles@),
        ensures
            exists|today: Ymd|
                valid_day(today) && #[trigger] current_cycle_at(old(self).cycles@, today) == (
                if chosen {
                    final(self).current_cycle
                } else {
                    None
                }),
            chosen ==> *final(self) == (App {
                current_cycle: final(self).current_cycle,
                cycle_filter: final(self).cycle_filter,
                ..*old(self)
            }) && final(self).current_cycle is Some && final(self).cycle_filter@.len() == 0,
            !chosen ==> *final(self) == *old(self),
    {
        let found = find_current_cycle(self.cycles.as_slice());
        match found {
            Some(c) => {
                let c = c.clone();
                self.current_cycle = Some(c);
                self.cycle_filter = String::new();
                true
            },
            None => false,
        }
    }

    /// Opens the details of the current issue, scrolled to the top, showing
    /// its cached timeline; the result says whether its timeline is still to
    /// load. Without a current issue nothing changes.
    pub fn begin_detail_view(&mut self) -> (load: bool)
        ensures
            match spec_current_issue(*old(self)) {
                None => !load && *final(self) == *old(self),
                Some(i) => if old(self).timeline_cache@.contains_key(i.id@) {
                    &&& !load
                    &&& *final(self) == (App {
                        mode: Mode::DetailView,
                        detail_scroll_offset: 0,
                        timeline_events: final(self).timeline_events,
                        ..*old(self)
                    })
                    &&& event_views(final(self).timeline_events@) == old(
                        self,
                    ).timeline_cache@[i.id@]
                } else {
                    &&& load
                    &&& *final(self) == (App {
                        mode: Mode::DetailView,
                        detail_scroll_offset: 0,
                        ..*old(self)
                    })
                },
            },
    {
        let id = match self.current_issue() {
            Some(i) => i.id.clone(),
            None => return false,
        };
        self.mode = Mode::DetailView;
        self.detail_scroll_offset = 0;
        if !self.timeline_cache.contains_key(id.as_str()) {
            true
        } else {
            self.load_timeline_from_cache();
            false
        }
    }

    /// Starts a search: a query of only white space closes the search box
    /// (and `None` is returned); otherwise the query to send is returned.
    pub fn begin_search(&mut self) -> (query: Option<String>)
        ensures
            if forall|i: int|
                0 <= i < old(self).search_query@.len() ==> crate::text::unicode_whitespace(
                    #[trigger] old(self).search_query@[i],
                ) {
                &&& query is None
                &&& *final(self) == (App {
                    mode: Mode::Normal,
                    search_query: final(self).search_query,
                    ..*old(self)
                })
                &&& final(self).search_query@.len() == 0
            } else {
                &&& query matches Some(q) && q@ == old(self).search_query@
                &&& *final(self) == (App { loading: true, ..*old(self) })
            },
    {
        if crate::text::trims_to_empty(self.search_query.as_str()) {
            self.cancel_search();
            return None;
        }
        self.loading = true;
        Some(self.search_query.clone())
    }

    /// Takes the answer to a search: on success the results show, the first
    /// selected; on failure the error shows.
    pub fn finish_search(&mut self, r: Result<Vec<Issue>, ApiError>)
        ensures
            match r {
                Ok(is) => *final(self) == (App {
                    loading: false,
                    search_results: is,
                    in_search_context: true,
                    selected_search_index: 0,
                    mode: Mode::SearchResults,
                    ..*old(self)
                }),
                Err(e) => {
                    &&& *final(self) == (App {
                        loading: false,
                        error: final(self).error,
                        ..*old(self)
                    })
                    &&& final(self).error matches Some(m) && m@ == api_error_text(e)
                },
            },
    {
        self.loading = false;
        match r {
            Ok(issues) => {
                self.search_results = issues;
                self.in_search_context = true;
                self.selected_search_index = 0;
                self.mode = Mode::SearchResults;
            },
            Err(e) => {
                self.error = Some(e.message());
            },
        }
    }
}

} // verus!

verus! {

impl App {
    /// Records how many lines the details have (truncated to 16 bits, as the
    /// screen's coordinates are) and how many fit on the screen, which bound
    /// scrolling.
    pub fn set_detail_heights(&mut self, content_lines: usize, viewport: u16)
        ensures
            *final(self) == (App {
                detail_content_height: content_lines as u16,
                detail_viewport_height: viewport,
                ..*old(self)
            }),
    {
        self.detail_content_height = content_lines as u16;
        self.detail_viewport_height = viewport;
    }
}

} // verus!

verus! {

// ---------------------------------------------------------------------------
// Laws of the state changes
// ---------------------------------------------------------------------------

/// A filter's result is determined by the items, their texts and the query.
pub proof fn filtered_list_is_unique<T>(
    items: Seq<T>,
    texts: Seq<Seq<char>>,
    query: Seq<char>,
    r1: Seq<FilteredItem<T>>,
    r2: Seq<FilteredItem<T>>,
)
    requires
        is_filtered(items, texts, query, r1),
        is_filtered(items, texts, query, r2),
    ensures
        r1 == r2,
{
    assert(pairs(r1).len() == r1.len() && pairs(r2).len() == r2.len());
    assert forall|k: int| 0 <= k < r1.len() implies r1[k] == r2[k] by {
        assert(pairs(r1)[k] == pairs(r2)[k]);
    }
    assert(r1 =~= r2);
}

/// Typing a character into the open list's filter and deleting it again
/// gives back the filter and the list as that filter shows it, with the
/// first entry selected. Without an open list nothing changes.
pub proof fn backspace_undoes_filter_input(a: App, b: App, c: App, ch: char)
    requires
        filter_edited(a, b, |f: Seq<char>| f.push(ch)),
        filter_edited(b, c, |f: Seq<char>| drop_last_char(f)),
    ensures
        match a.mode {
            Mode::IssueFilter => {
                &&& c.issue_filter@ == a.issue_filter@
                &&& c == (App {
                    issue_filter: c.issue_filter,
                    filtered_issues: c.filtered_issues,
                    selected_issue_index: 0,
                    ..a
                })
                &&& is_filtered(a.issues@, issue_texts(a.issues@), a.issue_filter@, a.filtered_issues@)
                    ==> c.filtered_issues@ == a.filtered_issues@
            },
            Mode::TeamSelect => {
                &&& c.team_filter@ == a.team_filter@
                &&& c == (App {
                    team_filter: c.team_filter,
                    filtered_teams: c.filtered_teams,
                    selected_team_index: 0,
                    ..a
                })
                &&& is_filtered(a.teams@, team_texts(a.teams@), a.team_filter@, a.filtered_teams@)
                    ==> c.filtered_teams@ == a.filtered_teams@
            },
            Mode::CycleSelect => {
                &&& c.cycle_filter@ == a.cycle_filter@
                &&& c == (App {
                    cycle_filter: c.cycle_filter,
                    filtered_cycles: c.filtered_cycles,
                    selected_cycle_index: 0,
                    ..a
                })
                &&& is_filtered(a.cycles@, cycle_texts(a.cycles@), a.cycle_filter@, a.filtered_cycles@)
                    ==> c.filtered_cycles@ == a.filtered_cycles@
            },
            Mode::StatusSelect => {
                &&& c.status_filter@ == a.status_filter@
                &&& c == (App {
                    status_filter: c.status_filter,
                    filtered_states: c.filtered_states,
                    selected_status_index: 0,
                    ..a
                })
                &&& is_filtered(
                    a.workflow_states@,
                    state_texts(a.workflow_states@),
                    a.status_filter@,
                    a.filtered_states@,
                ) ==> c.filtered_states@ == a.filtered_states@
            },
            _ => c == a,
        },
{
    match a.mode {
        Mode::IssueFilter => {
            assert(drop_last_char(a.issue_filter@.push(ch)) =~= a.issue_filter@);
            if is_filtered(a.issues@, issue_texts(a.issues@), a.issue_filter@, a.filtered_issues@) {
                filtered_list_is_unique(
                    a.issues@,
                    issue_texts(a.issues@),
                    a.issue_filter@,
                    a.filtered_issues@,
                    c.filtered_issues@,
                );
            }
        },
        Mode::TeamSelect => {
            assert(drop_last_char(a.team_filter@.push(ch)) =~= a.team_filter@);
            if is_filtered(a.teams@, team_texts(a.teams@), a.team_filter@, a.filtered_teams@) {
                filtered_list_is_unique(
                    a.teams@,
                    team_texts(a.teams@),
                    a.team_filter@,
                    a.filtered_teams@,
                    c.filtered_teams@,
                );
            }
        },
        Mode::CycleSelect => {
            assert(drop_last_char(a.cycle_filter@.push(ch)) =~= a.cycle_filter@);
            if is_filtered(a.cycles@, cycle_texts(a.cycles@), a.cycle_filter@, a.filtered_cycles@) {
                filtered_list_is_unique(
                    a.cycles@,
                    cycle_texts(a.cycles@),
                    a.cycle_filter@,
                    a.filtered_cycles@,
                    c.filtered_cycles@,
                );
            }
        },
        Mode::StatusSelect => {
            assert(drop_last_char(a.status_filter@.push(ch)) =~= a.status_filter@);
            if is_filtered(
                a.workflow_states@,
                state_texts(a.workflow_states@),
                a.status_filter@,
                a.filtered_states@,
            ) {
                filtered_list_is_unique(
                    a.workflow_states@,
                    state_texts(a.workflow_states@),
                    a.status_filter@,
                    a.filtered_states@,
                    c.filtered_states@,
                );
            }
        },
        _ => {},
    }
}

/// Typing a character into the search box and deleting it again gives back
/// the query.
pub proof fn backspace_undoes_search_input(query: Seq<char>, ch: char)
    ensures
        drop_last_char(query.push(ch)) == query,
{
    assert(drop_last_char(query.push(ch)) =~= query);
}

/// Switching "my issues" twice changes nothing.
pub proof fn toggle_my_issues_twice(a: App, b: App, c: App)
    requires
        b == (App {
            filter_my_issues: if a.viewer is Some {
                !a.filter_my_issues
            } else {
                a.filter_my_issues
            },
            ..a
        }),
        c == (App {
            filter_my_issues: if b.viewer is Some {
                !b.filter_my_issues
            } else {
                b.filter_my_issues
            },
            ..b
        }),
    ensures
        c == a,
{
}

/// Scrolling never takes the details past their end: a position within the
/// content stays within it after scrolling down, up, to the top or to the
/// bottom.
pub proof fn scrolling_stays_within_content(app: App)
    requires
        app.detail_scroll_offset <= max_scroll(app),
    ensures
        app.detail_scroll_offset < max_scroll(app) ==> app.detail_scroll_offset + 1 <= max_scroll(app),
        app.detail_scroll_offset > 0 ==> app.detail_scroll_offset - 1 <= max_scroll(app),
        0 <= max_scroll(app),
{
}

/// Moving through the issue list keeps the selection on an issue: from a
/// selected issue, the next, previous, first and last are issues too.
pub proof fn navigation_stays_in_list(n: usize, k: usize)
    requires
        k < n,
    ensures
        step_up(k, (n - 1) as usize) < n,
        step_down(k) < n,
        0 < n,
        ((n - 1) as usize) < n,
{
}

} // verus!

verus! {

/// Without a signed-in user "my issues" never applies: issue requests carry
/// no assignee.
pub proof fn my_issues_needs_the_user(app: App)
    requires
        app.viewer is None,
    ensures
        assignee_for(app) is None,
{
}

/// A cycle whose dates are missing or do not read as dates is never the
/// current one.
pub proof fn unreadable_dates_are_never_current(c: Cycle, today: Ymd)
    requires
        match (c.starts_at, c.ends_at) {
            (Some(s), Some(e)) => spec_parse_date(s@) is None || spec_parse_date(e@) is None,
            _ => true,
        },
    ensures
        !cycle_contains(c, today),
{
}

} // verus!

verus! {

/// The team picker matches a team by its name and its key: the text a team
/// is filtered by is its name, a space, then its key.
pub proof fn teams_are_matched_by_name_and_key(teams: Seq<Team>, i: int)
    requires
        0 <= i < teams.len(),
    ensures
        team_texts(teams)[i].len() == teams[i].name@.len() + 1 + teams[i].key@.len(),
        team_texts(teams)[i].take(teams[i].name@.len() as int) == teams[i].name@,
        team_texts(teams)[i][teams[i].name@.len() as int] == ' ',
        team_texts(teams)[i].skip(teams[i].name@.len() + 1int) == teams[i].key@,
{
    let t = team_texts(teams)[i];
    let n = teams[i].name@;
    assert(t == n + " "@ + teams[i].key@);
    assert(" "@ == seq![' ']) by {
        reveal_strlit(" ");
    }
    assert(t.take(n.len() as int) =~= n);
    assert(t.skip(n.len() + 1int) =~= teams[i].key@);
}

/// The issue filter matches an issue by its identifier and its title: the
/// text an issue is filtered by is its identifier, a space, then its title.
pub proof fn issues_are_matched_by_identifier_and_title(issues: Seq<Issue>, i: int)
    requires
        0 <= i < issues.len(),
    ensures
        issue_texts(issues)[i].len() == issues[i].identifier@.len() + 1 + issues[i].title@.len(),
        issue_texts(issues)[i].take(issues[i].identifier@.len() as int) == issues[i].identifier@,
        issue_texts(issues)[i][issues[i].identifier@.len() as int] == ' ',
        issue_texts(issues)[i].skip(issues[i].identifier@.len() + 1int) == issues[i].title@,
{
    let t = issue_texts(issues)[i];
    let n = issues[i].identifier@;
    assert(t == n + " "@ + issues[i].title@);
    assert(" "@ == seq![' ']) by {
        reveal_strlit(" ");
    }
    assert(t.take(n.len() as int) =~= n);
    assert(t.skip(n.len() + 1int) =~= issues[i].title@);
}

/// The cycle picker matches a cycle by the name it is shown by, and the
/// status picker a state by its name.
pub proof fn cycles_and_states_are_matched_by_name(
    cycles: Seq<Cycle>,
    states: Seq<WorkflowState>,
    i: int,
    j: int,
)
    requires
        0 <= i < cycles.len(),
        0 <= j < states.len(),
    ensures
        cycle_texts(cycles)[i] == match cycles[i].name {
            Some(n) => n@,
            None => "Cycle "@ + crate::text::signed_decimal(cycles[i].number as int),
        },
        state_texts(states)[j] == states[j].name@,
{
}

} // verus!
