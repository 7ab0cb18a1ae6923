//! What the screen shows, as styled text: the header, the footer's key help,
//! the issue list, an issue's details with its activity, and the pickers.
//! Drawing it into boxes on the terminal is left to the caller.

use crate::app::{App, Mode};
use crate::styled::{colored, line_views, plain, span_views, Color, Line, LineView, Span, SpanView, Style};
use crate::text::{format_u64, owned, push_str};
use vstd::prelude::*;

verus! {

// ---------------------------------------------------------------------------
// Building lines
// ---------------------------------------------------------------------------

/// Dimmed text.
pub open spec fn dim() -> Style {
    colored(Color::DarkGray)
}

/// `st` with bold added.
pub open spec fn bolded(st: Style) -> Style {
    Style { add_modifier: crate::styled::Modifier { bold: true, ..st.add_modifier }, ..st }
}

/// `st` with italic added.
pub open spec fn italicized(st: Style) -> Style {
    Style { add_modifier: crate::styled::Modifier { italic: true, ..st.add_modifier }, ..st }
}

fn dim_style() -> (r: Style)
    ensures
        r == dim(),
{
    Style::color(Color::DarkGray)
}

/// Appends a span of literal text.
fn push_lit(v: &mut Vec<Span>, s: &str, st: Style)
    ensures
        span_views(final(v)@) == span_views(old(v)@).push((s@, st)),
{
    v.push(Span::styled_str(s, st));
    assert(span_views(v@) =~= span_views(old(v)@).push((s@, st)));
}

/// Appends a span of owned text.
fn push_text(v: &mut Vec<Span>, s: String, st: Style)
    ensures
        span_views(final(v)@) == span_views(old(v)@).push((s@, st)),
{
    let ghost sv = s@;
    v.push(Span::styled(s, st));
    assert(span_views(v@) =~= span_views(old(v)@).push((sv, st)));
}

/// Appends a line made of `spans`.
fn push_line(lines: &mut Vec<Line>, spans: Vec<Span>)
    ensures
        line_views(final(lines)@) == line_views(old(lines)@).push(span_views(spans@)),
{
    let l = Line::from_spans(spans);
    lines.push(l);
    assert(line_views(lines@) =~= line_views(old(lines)@).push(span_views(spans@)));
}

/// Appends a line.
fn push_built(lines: &mut Vec<Line>, l: Line)
    ensures
        line_views(final(lines)@) == line_views(old(lines)@).push(l@),
{
    let ghost lv = l@;
    lines.push(l);
    assert(line_views(lines@) =~= line_views(old(lines)@).push(lv));
}

/// Appends an empty line.
fn push_empty(lines: &mut Vec<Line>)
    ensures
        line_views(final(lines)@) == line_views(old(lines)@).push(Seq::<SpanView>::empty()),
{
    let l = Line::empty();
    lines.push(l);
    assert(line_views(lines@) =~= line_views(old(lines)@).push(Seq::<SpanView>::empty()));
}

/// Appends a line of one literal span.
fn push_single(lines: &mut Vec<Line>, s: &str, st: Style)
    ensures
        line_views(final(lines)@) == line_views(old(lines)@).push(seq![(s@, st)]),
{
    let mut v: Vec<Span> = Vec::new();
    push_lit(&mut v, s, st);
    assert(span_views(v@) =~= seq![(s@, st)]);
    push_line(lines, v);
}

// ---------------------------------------------------------------------------
// Header
// ---------------------------------------------------------------------------

/// `"s"` after a count other than one.
pub open spec fn plural(n: nat) -> Seq<char> {
    if n == 1 {
        Seq::empty()
    } else {
        "s"@
    }
}

/// The header while searching: the query and how many issues it found.
pub open spec fn search_header(query: Seq<char>, count: nat) -> LineView {
    seq![
        (" [Search: "@, dim()),
        (query, colored(Color::Cyan)),
        ("] "@, dim()),
        (crate::text::decimal(count) + " result"@ + plural(count), colored(Color::Yellow)),
    ]
}

/// The name of the current team, or `No team`.
pub open spec fn team_label(app: App) -> Seq<char> {
    match app.current_team {
        Some(t) => t.name@,
        None => "No team"@,
    }
}

/// What the issue list shows: `Backlog`, or the current cycle's name, or
/// `No cycle`.
pub open spec fn view_label(app: App) -> Seq<char> {
    if app.backlog_mode {
        "Backlog"@
    } else {
        match app.current_cycle {
            Some(c) => crate::types::cycle_display_name(c),
            None => "No cycle"@,
        }
    }
}

/// The header outside a search: team, cycle or backlog, and the issue
/// filter when one is typed.
pub open spec fn list_header(app: App) -> LineView {
    seq![
        (" [Team: "@, dim()),
        (team_label(app), colored(Color::Cyan)),
        ("] "@, dim()),
        (if app.backlog_mode {
            "[View: "@
        } else {
            "[Cycle: "@
        }, dim()),
        (view_label(app), colored(Color::Cyan)),
        ("]"@, dim()),
        (if app.issue_filter@.len() > 0 {
            " [filter: "@ + app.issue_filter@ + "]"@
        } else {
            Seq::empty()
        }, colored(Color::Magenta)),
    ]
}

/// The header line.
pub open spec fn header_view(app: App) -> LineView {
    if app.in_search_context {
        search_header(app.search_query@, app.search_results@.len())
    } else {
        list_header(app)
    }
}

/// The header line: the search and its result count while searching, else
/// the team, the cycle (or backlog) and the issue filter.
pub fn header_line(app: &App) -> (r: Line)
    ensures
        r@ == header_view(*app),
{
    let mut v: Vec<Span> = Vec::new();
    if app.in_search_context {
        let n = app.search_results.len();
        push_lit(&mut v, " [Search: ", dim_style());
        push_text(&mut v, app.search_query.clone(), Style::color(Color::Cyan));
        push_lit(&mut v, "] ", dim_style());
        let mut count = format_u64(n as u64);
        push_str(&mut count, " result");
        if n != 1 {
            push_str(&mut count, "s");
        }
        push_text(&mut v, count, Style::color(Color::Yellow));
    } else {
        push_lit(&mut v, " [Team: ", dim_style());
        let team = match &app.current_team {
            Some(t) => t.name.clone(),
            None => owned("No team"),
        };
        push_text(&mut v, team, Style::color(Color::Cyan));
        push_lit(&mut v, "] ", dim_style());
        let label = if app.backlog_mode {
            owned("Backlog")
        } else {
            match &app.current_cycle {
                Some(c) => c.display_name(),
                None => owned("No cycle"),
            }
        };
        if app.backlog_mode {
            push_lit(&mut v, "[View: ", dim_style());
        } else {
            push_lit(&mut v, "[Cycle: ", dim_style());
        }
        push_text(&mut v, label, Style::color(Color::Cyan));
        push_lit(&mut v, "]", dim_style());
        let indicator = if !app.issue_filter.as_str().is_empty() {
            let mut s = owned(" [filter: ");
            push_str(&mut s, app.issue_filter.as_str());
            push_str(&mut s, "]");
            s
        } else {
            String::new()
        };
        push_text(&mut v, indicator, Style::color(Color::Magenta));
    }
    let r = Line::from_spans(v);
    assert(r@ =~= header_view(*app));
    r
}

// ---------------------------------------------------------------------------
// Footer
// ---------------------------------------------------------------------------

/// A key and what it does: the key in yellow, the help dimmed.
pub open spec fn key_help(k: Seq<char>, d: Seq<char>) -> Seq<SpanView> {
    seq![(k, colored(Color::Yellow)), (d, dim())]
}

/// The key help of the issue list.
pub open spec fn normal_help(filter_my_issues: bool, has_filter: bool) -> Seq<SpanView> {
    key_help(" j/k"@, ": nav  "@) + key_help("Enter"@, ": focus  "@) + key_help("/"@, ": filter  "@)
        + key_help("^f"@, ": search  "@) + key_help("s"@, ": status  "@) + key_help(
        "t"@,
        ": team  "@,
    ) + key_help("c"@, ": cycle  "@) + key_help("v"@, ": view  "@) + key_help(
        "B"@,
        ": backlog  "@,
    ) + key_help("C"@, ": current  "@) + key_help(
        "m"@,
        if filter_my_issues {
            ": all  "@
        } else {
            ": mine  "@
        },
    ) + key_help("r"@, ": refresh  "@) + (if has_filter {
        key_help("x"@, ": clear  "@)
    } else {
        Seq::empty()
    }) + key_help("q"@, ": quit"@)
}

/// The key help of a picker, whose Enter does `enter`.
pub open spec fn picker_help(enter: Seq<char>) -> Seq<SpanView> {
    seq![(" Type to filter  "@, dim())] + key_help("Tab/↓↑"@, ": navigate  "@) + key_help(
        "Enter"@,
        enter,
    ) + key_help("Esc"@, ": cancel"@)
}

/// The footer line: the keys of the current mode.
pub open spec fn footer_view(mode: Mode, filter_my_issues: bool, has_filter: bool) -> LineView {
    match mode {
        Mode::Normal => normal_help(filter_my_issues, has_filter),
        Mode::DetailView => key_help(" j/k"@, ": scroll  "@) + key_help("g/G"@, ": top/bottom  "@)
            + key_help("e"@, ": edit  "@) + key_help("o"@, ": open  "@) + key_help(
            "y"@,
            ": copy URL  "@,
        ) + key_help("Esc/Enter/q"@, ": back"@),
        Mode::IssueFilter => picker_help(": confirm  "@),
        Mode::TeamSelect | Mode::CycleSelect | Mode::StatusSelect | Mode::ViewSelect => picker_help(
            ": select  "@,
        ),
        Mode::Search => seq![(" Type to search  "@, dim())] + key_help("Enter"@, ": search  "@)
            + key_help("Esc"@, ": cancel"@),
        Mode::SearchResults => key_help(" j/k"@, ": navigate  "@) + key_help("Enter"@, ": view  "@)
            + key_help("r"@, ": refresh  "@) + key_help("Esc"@, ": exit search  "@) + key_help(
            "q"@,
            ": quit"@,
        ),
        Mode::Help => seq![(" Press any key to close"@, dim())],
    }
}

/// Appends a key and its help.
fn push_help(v: &mut Vec<Span>, k: &str, d: &str)
    ensures
        span_views(final(v)@) == span_views(old(v)@) + key_help(k@, d@),
{
    push_lit(v, k, Style::color(Color::Yellow));
    push_lit(v, d, dim_style());
    assert(span_views(v@) =~= span_views(old(v)@) + key_help(k@, d@));
}

fn normal_footer(filter_my_issues: bool, has_filter: bool) -> (r: Vec<Span>)
    ensures
        span_views(r@) == normal_help(filter_my_issues, has_filter),
{
    let mut v: Vec<Span> = Vec::new();
    assert(span_views(v@) =~= Seq::<SpanView>::empty());
    push_help(&mut v, " j/k", ": nav  ");
    assert(span_views(v@) =~= key_help(" j/k"@, ": nav  "@));
    push_help(&mut v, "Enter", ": focus  ");
    push_help(&mut v, "/", ": filter  ");
    push_help(&mut v, "^f", ": search  ");
    push_help(&mut v, "s", ": status  ");
    push_help(&mut v, "t", ": team  ");
    push_help(&mut v, "c", ": cycle  ");
    push_help(&mut v, "v", ": view  ");
    push_help(&mut v, "B", ": backlog  ");
    push_help(&mut v, "C", ": current  ");
    if filter_my_issues {
        push_help(&mut v, "m", ": all  ");
    } else {
        push_help(&mut v, "m", ": mine  ");
    }
    push_help(&mut v, "r", ": refresh  ");
    let ghost before = span_views(v@);
    if has_filter {
        push_help(&mut v, "x", ": clear  ");
    } else {
        assert(before + Seq::<SpanView>::empty() =~= before);
    }
    push_help(&mut v, "q", ": quit");
    v
}

fn picker_footer(enter: &str) -> (r: Vec<Span>)
    ensures
        span_views(r@) == picker_help(enter@),
{
    let mut v: Vec<Span> = Vec::new();
    push_lit(&mut v, " Type to filter  ", dim_style());
    assert(span_views(v@) =~= seq![(" Type to filter  "@, dim())]);
    push_help(&mut v, "Tab/↓↑", ": navigate  ");
    push_help(&mut v, "Enter", enter);
    push_help(&mut v, "Esc", ": cancel");
    v
}

/// The footer line: the keys of the current mode and what they do.
pub fn footer_line(app: &App) -> (r: Line)
    ensures
        r@ == footer_view(app.mode, app.filter_my_issues, app.issue_filter@.len() > 0),
{
    let v = match app.mode {
        Mode::Normal => normal_footer(app.filter_my_issues, !app.issue_filter.as_str().is_empty()),
        Mode::DetailView => {
            let mut v: Vec<Span> = Vec::new();
            push_help(&mut v, " j/k", ": scroll  ");
            assert(span_views(v@) =~= key_help(" j/k"@, ": scroll  "@));
            push_help(&mut v, "g/G", ": top/bottom  ");
            push_help(&mut v, "e", ": edit  ");
            push_help(&mut v, "o", ": open  ");
            push_help(&mut v, "y", ": copy URL  ");
            push_help(&mut v, "Esc/Enter/q", ": back");
            v
        },
        Mode::IssueFilter => picker_footer(": confirm  "),
        Mode::TeamSelect | Mode::CycleSelect | Mode::StatusSelect | Mode::ViewSelect => {
            picker_footer(": select  ")
        },
        Mode::Search => {
            let mut v: Vec<Span> = Vec::new();
            push_lit(&mut v, " Type to search  ", dim_style());
            assert(span_views(v@) =~= seq![(" Type to search  "@, dim())]);
            push_help(&mut v, "Enter", ": search  ");
            push_help(&mut v, "Esc", ": cancel");
            v
        },
        Mode::SearchResults => {
            let mut v: Vec<Span> = Vec::new();
            push_help(&mut v, " j/k", ": navigate  ");
            assert(span_views(v@) =~= key_help(" j/k"@, ": navigate  "@));
            push_help(&mut v, "Enter", ": view  ");
            push_help(&mut v, "r", ": refresh  ");
            push_help(&mut v, "Esc", ": exit search  ");
            push_help(&mut v, "q", ": quit");
            v
        },
        Mode::Help => {
            let mut v: Vec<Span> = Vec::new();
            push_lit(&mut v, " Press any key to close", dim_style());
            assert(span_views(v@) =~= seq![(" Press any key to close"@, dim())]);
            v
        },
    };
    Line::from_spans(v)
}

/// The lines of the help pop-up: each key of the issue list and what it
/// does.
pub open spec fn help_view() -> Seq<LineView> {
    seq![
        key_help("j/k ↓/↑"@, "  next / previous issue"@),
        key_help("g/G"@, "  first / last issue"@),
        key_help("Enter/l"@, "  open the details"@),
        key_help("h/Esc"@, "  back to the list"@),
        key_help("/"@, "  filter the issues"@),
        key_help("^f"@, "  search"@),
        key_help("s"@, "  set the status"@),
        key_help("t"@, "  pick a team"@),
        key_help("c"@, "  pick a cycle"@),
        key_help("C"@, "  jump to the current cycle"@),
        key_help("B"@, "  backlog / cycle"@),
        key_help("m"@, "  my issues / all issues"@),
        key_help("r"@, "  refresh"@),
        key_help("x"@, "  clear the filter"@),
        key_help("q"@, "  quit"@),
    ]
}

/// Appends a line of one key and its help.
fn push_help_line(lines: &mut Vec<Line>, k: &str, d: &str)
    ensures
        line_views(final(lines)@) == line_views(old(lines)@).push(key_help(k@, d@)),
{
    let mut v: Vec<Span> = Vec::new();
    push_help(&mut v, k, d);
    assert(span_views(v@) =~= key_help(k@, d@));
    push_line(lines, v);
}

/// The lines of the help pop-up.
pub fn help_lines() -> (r: Vec<Line>)
    ensures
        line_views(r@) == help_view(),
{
    let mut lines: Vec<Line> = Vec::new();
    push_help_line(&mut lines, "j/k ↓/↑", "  next / previous issue");
    push_help_line(&mut lines, "g/G", "  first / last issue");
    push_help_line(&mut lines, "Enter/l", "  open the details");
    push_help_line(&mut lines, "h/Esc", "  back to the list");
    push_help_line(&mut lines, "/", "  filter the issues");
    push_help_line(&mut lines, "^f", "  search");
    push_help_line(&mut lines, "s", "  set the status");
    push_help_line(&mut lines, "t", "  pick a team");
    push_help_line(&mut lines, "c", "  pick a cycle");
    push_help_line(&mut lines, "C", "  jump to the current cycle");
    push_help_line(&mut lines, "B", "  backlog / cycle");
    push_help_line(&mut lines, "m", "  my issues / all issues");
    push_help_line(&mut lines, "r", "  refresh");
    push_help_line(&mut lines, "x", "  clear the filter");
    push_help_line(&mut lines, "q", "  quit");
    assert(line_views(lines@) =~= help_view());
    lines
}

} // verus!

verus! {

// ---------------------------------------------------------------------------
// Issue list
// ---------------------------------------------------------------------------

/// The style of a list entry: yellow and bold when selected.
pub open spec fn selected_style(sel: bool) -> Style {
    if sel {
        bolded(colored(Color::Yellow))
    } else {
        plain()
    }
}

/// The marker before a list entry: an arrow when selected.
pub open spec fn marker(sel: bool) -> Seq<char> {
    if sel {
        "> "@
    } else {
        "  "@
    }
}

/// The team key shown before an issue, `[KEY] `, when teams are shown and
/// the issue has one.
pub open spec fn team_tag(issue: crate::types::Issue, show: bool) -> Seq<char> {
    if show {
        match issue.team {
            Some(t) => "["@ + t.key@ + "] "@,
            None => Seq::empty(),
        }
    } else {
        Seq::empty()
    }
}

/// One entry of the issue list.
pub open spec fn issue_row(issue: crate::types::Issue, sel: bool, show_team: bool) -> LineView {
    seq![
        (marker(sel), selected_style(sel)),
        (team_tag(issue, show_team), colored(Color::Magenta)),
        (issue.identifier@, colored(Color::Blue)),
        (" "@, plain()),
        (issue.title@, selected_style(sel)),
    ]
}

/// The issues the list shows: the search results while searching, else the
/// filtered issues.
pub open spec fn listed_issues(app: App) -> Seq<crate::types::Issue> {
    if app.in_search_context {
        app.search_results@
    } else {
        app.filtered_issues@.map_values(|f: crate::fuzzy::FilteredItem<crate::types::Issue>| f.item)
    }
}

/// The position selected in the list.
pub open spec fn list_selected(app: App) -> usize {
    if app.in_search_context {
        app.selected_search_index
    } else {
        app.selected_issue_index
    }
}

/// The entries of the issue list.
pub open spec fn issue_list_view(app: App) -> Seq<LineView> {
    Seq::new(
        listed_issues(app).len(),
        |i: int| issue_row(listed_issues(app)[i], i == list_selected(app), app.in_search_context),
    )
}

fn issue_row_line(issue: &crate::types::Issue, sel: bool, show_team: bool) -> (r: Line)
    ensures
        r@ == issue_row(*issue, sel, show_team),
{
    let style = if sel {
        Style::color(Color::Yellow).bold()
    } else {
        Style::new()
    };
    let mut v: Vec<Span> = Vec::new();
    if sel {
        push_lit(&mut v, "> ", style);
    } else {
        push_lit(&mut v, "  ", style);
    }
    let tag = if show_team {
        match &issue.team {
            Some(t) => {
                let mut s = owned("[");
                push_str(&mut s, t.key.as_str());
                push_str(&mut s, "] ");
                s
            },
            None => String::new(),
        }
    } else {
        String::new()
    };
    push_text(&mut v, tag, Style::color(Color::Magenta));
    push_text(&mut v, issue.identifier.clone(), Style::color(Color::Blue));
    push_lit(&mut v, " ", Style::new());
    push_text(&mut v, issue.title.clone(), style);
    let r = Line::from_spans(v);
    assert(r@ =~= issue_row(*issue, sel, show_team));
    r
}

/// The entries of the issue list: the search results while searching, else
/// the filtered issues, the selected one marked.
pub fn issue_list_lines(app: &App) -> (r: Vec<Line>)
    ensures
        line_views(r@) == issue_list_view(*app),
{
    let mut lines: Vec<Line> = Vec::new();
    let ghost listed = listed_issues(*app);
    if app.in_search_context {
        let sel = app.selected_search_index;
        for i in 0..app.search_results.len()
            invariant
                listed == listed_issues(*app),
                listed == app.search_results@,
                sel == list_selected(*app),
                app.in_search_context,
                line_views(lines@) == issue_list_view(*app).take(i as int),
        {
            let l = issue_row_line(&app.search_results[i], i == sel, true);
            push_built(&mut lines, l);
            assert(line_views(lines@) =~= issue_list_view(*app).take(i + 1));
        }
    } else {
        let sel = app.selected_issue_index;
        for i in 0..app.filtered_issues.len()
            invariant
                listed == listed_issues(*app),
                listed.len() == app.filtered_issues@.len(),
                forall|k: int| 0 <= k < listed.len() ==> #[trigger] listed[k] == app.filtered_issues@[k].item,
                sel == list_selected(*app),
                !app.in_search_context,
                line_views(lines@) == issue_list_view(*app).take(i as int),
        {
            let l = issue_row_line(&app.filtered_issues[i].item, i == sel, false);
            push_built(&mut lines, l);
            assert(line_views(lines@) =~= issue_list_view(*app).take(i + 1));
        }
    }
    assert(issue_list_view(*app).take(listed.len() as int) =~= issue_list_view(*app));
    lines
}

/// The team's name as a title part, when there is a current team.
pub open spec fn team_part(app: App) -> Seq<Seq<char>> {
    match app.current_team {
        Some(t) => seq![t.name@],
        None => Seq::empty(),
    }
}

/// The cycle's name as a title part, or `No active cycle` without a
/// current cycle.
pub open spec fn cycle_part(app: App) -> Seq<Seq<char>> {
    match app.current_cycle {
        Some(c) => seq![crate::types::cycle_display_name(c)],
        None => seq!["No active cycle"@],
    }
}

/// The parts of the list's title after `Issues`: team, cycle, and "My
/// Issues" when on.
pub open spec fn title_parts(app: App) -> Seq<Seq<char>> {
    let mine = if app.filter_my_issues {
        seq!["My Issues"@]
    } else {
        Seq::empty()
    };
    team_part(app) + cycle_part(app) + mine
}

/// The title of the issue list outside a search: `Issues` and, in
/// parentheses, its parts joined by ` · `.
pub open spec fn issues_title(app: App) -> Seq<char> {
    " Issues ("@ + crate::text::join(title_parts(app), " · "@) + ") "@
}

/// The title of the issue list.
pub open spec fn list_title(app: App) -> Seq<char> {
    if app.in_search_context {
        " Search Results "@
    } else {
        issues_title(app)
    }
}

/// The title of the issue list outside a search: `Issues`, then team,
/// cycle (or `No active cycle`) and "My Issues" joined by ` · `.
pub fn build_issues_title(app: &App) -> (r: String)
    ensures
        r@ == issues_title(*app),
{
    let mut parts: Vec<String> = Vec::new();
    if let Some(t) = &app.current_team {
        parts.push(t.name.clone());
    }
    let ghost p1 = crate::text::views(parts@);
    match &app.current_cycle {
        Some(c) => parts.push(c.display_name()),
        None => parts.push(owned("No active cycle")),
    }
    let ghost p2 = crate::text::views(parts@);
    if app.filter_my_issues {
        parts.push(owned("My Issues"));
    }
    proof {
        assert(p1 =~= team_part(*app));
        assert(p2 =~= team_part(*app) + cycle_part(*app));
        assert(crate::text::views(parts@) =~= title_parts(*app));
    }
    let mut r = owned(" Issues (");
    let joined = crate::text::join_strings(&parts, " · ");
    push_str(&mut r, joined.as_str());
    push_str(&mut r, ") ");
    r
}

/// The title of the issue list: `Search Results` while searching.
pub fn list_title_text(app: &App) -> (r: String)
    ensures
        r@ == list_title(*app),
{
    if app.in_search_context {
        owned(" Search Results ")
    } else {
        build_issues_title(app)
    }
}

} // verus!

verus! {

// ---------------------------------------------------------------------------
// Issue details and activity
// ---------------------------------------------------------------------------

/// The rule between sections of the details.
pub open spec fn separator() -> Seq<char> {
    "───────────────────────────────"@
}

/// The words for a priority.
pub open spec fn priority_text(p: i32) -> Seq<char> {
    if p == 0 {
        "No priority"@
    } else if p == 1 {
        "Urgent"@
    } else if p == 2 {
        "High"@
    } else if p == 3 {
        "Medium"@
    } else {
        "Low"@
    }
}

/// The color of a priority.
pub open spec fn priority_color(p: i32) -> Color {
    if p == 1 {
        Color::Red
    } else if p == 2 {
        Color::Yellow
    } else if p == 3 {
        Color::Blue
    } else {
        Color::DarkGray
    }
}

/// The color of a workflow state, by its type.
pub open spec fn status_color(state_type: Seq<char>) -> Color {
    if state_type == "backlog"@ {
        Color::DarkGray
    } else if state_type == "unstarted"@ {
        Color::Gray
    } else if state_type == "started"@ {
        Color::Yellow
    } else if state_type == "completed"@ {
        Color::Green
    } else if state_type == "canceled"@ {
        Color::Red
    } else {
        Color::White
    }
}

/// A name, or `Unassigned` without one.
pub open spec fn or_unassigned(o: Option<Seq<char>>) -> Seq<char> {
    match o {
        Some(n) => n,
        None => "Unassigned"@,
    }
}

/// The assignee's name, or `Unassigned`.
pub open spec fn assignee_name(issue: crate::types::Issue) -> Seq<char> {
    match issue.assignee {
        Some(a) => a.name@,
        None => "Unassigned"@,
    }
}

/// The project's name, or `None`.
pub open spec fn project_name(issue: crate::types::Issue) -> Seq<char> {
    match issue.project {
        Some(p) => p.name@,
        None => "None"@,
    }
}

/// The fields at the top of the details, up to the description's heading.
pub open spec fn detail_head(issue: crate::types::Issue) -> Seq<LineView> {
    seq![
        seq![("Title: "@, dim()), (issue.title@, bolded(plain()))],
        Seq::empty(),
        seq![("Status: "@, dim()), (issue.state.name@, colored(status_color(issue.state.state_type@)))],
        Seq::empty(),
        seq![("Assignee: "@, dim()), (assignee_name(issue), plain())],
        Seq::empty(),
        seq![("Priority: "@, dim()), (priority_text(issue.priority), colored(priority_color(issue.priority)))],
        Seq::empty(),
        seq![("Project: "@, dim()), (project_name(issue), plain())],
        Seq::empty(),
        seq![(separator(), dim())],
        Seq::empty(),
        seq![("Description:"@, dim())],
        Seq::empty(),
    ]
}

/// The description rendered from markdown, or `No description`.
pub open spec fn description_view(issue: crate::types::Issue) -> Seq<LineView> {
    match issue.description {
        Some(d) => crate::markdown::md_lines(crate::markdown::markdown_events(d@)),
        None => seq![seq![("No description"@, italicized(dim()))]],
    }
}

/// The heading of the activity section.
pub open spec fn activity_head() -> Seq<LineView> {
    seq![Seq::empty(), seq![(separator(), dim())], Seq::empty(), seq![("Activity:"@, dim())], Seq::empty()]
}

/// Lines indented by two spaces.
pub open spec fn indented(ls: Seq<LineView>) -> Seq<LineView> {
    ls.map_values(|l: LineView| seq![("  "@, plain())] + l)
}

/// The first line of an activity entry: icon, who, and when.
pub open spec fn event_head(icon: Color, who: Seq<char>, at: Seq<char>) -> LineView {
    seq![
        (" "@, colored(icon)),
        (who, bolded(plain())),
        (" · "@, dim()),
        (crate::dates::timeline_date(at), dim()),
    ]
}

/// The second line of a change: from what to what.
pub open spec fn change_line(from: Seq<char>, arrow: Color, to: Seq<char>) -> LineView {
    seq![("  "@, plain()), (from, dim()), (" → "@, colored(arrow)), (to, colored(Color::White))]
}

/// The lines of one activity entry.
pub open spec fn event_lines(e: crate::types::EventView) -> Seq<LineView> {
    match e {
        crate::types::EventView::Comment { user, body, created_at } => seq![
            event_head(Color::White, user, created_at),
        ] + indented(crate::markdown::md_lines(crate::markdown::markdown_events(body))),
        crate::types::EventView::StatusChange { actor, from, to, created_at } => seq![
            event_head(Color::Yellow, actor, created_at),
            change_line(from, Color::Yellow, to),
        ],
        crate::types::EventView::AssigneeChange { actor, from, to, created_at } => seq![
            event_head(Color::Cyan, actor, created_at),
            change_line(or_unassigned(from), Color::Cyan, or_unassigned(to)),
        ],
    }
}

/// The entries of a timeline, each followed by an empty line.
pub open spec fn timeline_view(events: Seq<crate::types::EventView>) -> Seq<LineView>
    decreases events.len(),
{
    if events.len() == 0 {
        Seq::empty()
    } else {
        timeline_view(events.drop_last()) + event_lines(events.last()) + seq![Seq::<SpanView>::empty()]
    }
}

/// The activity section's body: loading, empty (with a hint unless the
/// details are focused), or the timeline.
pub open spec fn activity_view(loading: bool, events: Seq<crate::types::EventView>, focused: bool) -> Seq<LineView> {
    if loading {
        seq![seq![("Loading activity..."@, italicized(dim()))]]
    } else if events.len() == 0 {
        seq![seq![(if focused {
            "No activity"@
        } else {
            "Press Enter to load activity"@
        }, italicized(dim()))]]
    } else {
        timeline_view(events)
    }
}

/// Everything the details of an issue show.
pub open spec fn detail_view(
    issue: crate::types::Issue,
    loading: bool,
    events: Seq<crate::types::EventView>,
    focused: bool,
) -> Seq<LineView> {
    detail_head(issue) + description_view(issue) + activity_head() + activity_view(loading, events, focused)
}

/// Whether every entry's time can be cut to its date part.
pub open spec fn events_dates_ok(events: Seq<crate::types::EventView>) -> bool {
    forall|k: int| 0 <= k < events.len() ==> #[trigger] crate::dates::date_cut_ok(crate::types::time_of(events[k]))
}

/// Whether the time of every timeline entry can be cut to its date part
/// (what [`build_detail_content`] needs).
pub fn timeline_dates_sliceable(events: &Vec<crate::types::TimelineEvent>) -> (r: bool)
    ensures
        r == events_dates_ok(crate::timeline::event_views(events@)),
{
    let ghost ev = crate::timeline::event_views(events@);
    for i in 0..events.len()
        invariant
            ev == crate::timeline::event_views(events@),
            forall|k: int| 0 <= k < i ==> #[trigger] crate::dates::date_cut_ok(crate::types::time_of(ev[k])),
    {
        let ok = crate::dates::date_sliceable(events[i].created_at());
        assert(ev[i as int] == events@[i as int]@);
        if !ok {
            assert(!crate::dates::date_cut_ok(crate::types::time_of(ev[i as int])));
            return false;
        }
    }
    true
}

/// Appends `more` lines.
fn append_lines(lines: &mut Vec<Line>, more: Vec<Line>)
    ensures
        line_views(final(lines)@) == line_views(old(lines)@) + line_views(more@),
{
    let mut more = more;
    let ghost m = more@;
    lines.append(&mut more);
    assert(line_views(lines@) =~= line_views(old(lines)@) + line_views(m));
}

/// `ls`, each line indented by two spaces.
fn indent_lines(ls: &Vec<Line>) -> (r: Vec<Line>)
    ensures
        line_views(r@) == indented(line_views(ls@)),
{
    let mut r: Vec<Line> = Vec::new();
    for i in 0..ls.len()
        invariant
            line_views(r@) == indented(line_views(ls@)).take(i as int),
    {
        let mut spans: Vec<Span> = Vec::new();
        spans.push(Span::raw("  "));
        let mut rest = ls[i].spans.clone();
        assert(rest@ =~= ls@[i as int].spans@);
        spans.append(&mut rest);
        assert(span_views(spans@) =~= seq![("  "@, plain())] + ls@[i as int]@);
        push_line(&mut r, spans);
        assert(line_views(r@) =~= indented(line_views(ls@)).take(i + 1));
    }
    assert(indented(line_views(ls@)).take(ls.len() as int) =~= indented(line_views(ls@)));
    r
}

fn event_head_line(icon: Color, who: &String, at: &str) -> (r: Line)
    requires
        crate::dates::date_cut_ok(at@),
    ensures
        r@ == event_head(icon, who@, at@),
{
    let mut v: Vec<Span> = Vec::new();
    push_lit(&mut v, " ", Style::color(icon));
    push_text(&mut v, who.clone(), Style::new().bold());
    push_lit(&mut v, " · ", dim_style());
    push_text(&mut v, crate::dates::format_timeline_date(at), dim_style());
    let r = Line::from_spans(v);
    assert(r@ =~= event_head(icon, who@, at@));
    r
}

fn change_line_of(from: String, arrow: Color, to: String) -> (r: Line)
    ensures
        r@ == change_line(from@, arrow, to@),
{
    let mut v: Vec<Span> = Vec::new();
    push_lit(&mut v, "  ", Style::new());
    push_text(&mut v, from, dim_style());
    push_lit(&mut v, " → ", Style::color(arrow));
    push_text(&mut v, to, Style::color(Color::White));
    let r = Line::from_spans(v);
    assert(r@ =~= change_line(from@, arrow, to@));
    r
}

fn name_or_unassigned(o: &Option<String>) -> (r: String)
    ensures
        r@ == or_unassigned(crate::types::opt_view(*o)),
{
    match o {
        Some(n) => n.clone(),
        None => owned("Unassigned"),
    }
}

/// The lines of one activity entry: a comment's author, time and body
/// (markdown, indented), or a change's author, time, and what changed.
pub fn render_timeline_event(e: &crate::types::TimelineEvent) -> (r: Vec<Line>)
    requires
        crate::dates::date_cut_ok(crate::types::time_of(e@)),
    ensures
        line_views(r@) == event_lines(e@),
{
    let mut lines: Vec<Line> = Vec::new();
    match e {
        crate::types::TimelineEvent::Comment { user, body, created_at } => {
            let head = event_head_line(Color::White, user, created_at.as_str());
            push_built(&mut lines, head);
            let md = crate::markdown::render_markdown(body.as_str());
            let body_lines = indent_lines(&md);
            append_lines(&mut lines, body_lines);
            assert(line_views(lines@) =~= event_lines(e@));
        },
        crate::types::TimelineEvent::StatusChange { actor, from, to, created_at } => {
            let head = event_head_line(Color::Yellow, actor, created_at.as_str());
            push_built(&mut lines, head);
            let change = change_line_of(from.clone(), Color::Yellow, to.clone());
            push_built(&mut lines, change);
            assert(line_views(lines@) =~= event_lines(e@));
        },
        crate::types::TimelineEvent::AssigneeChange { actor, from, to, created_at } => {
            let head = event_head_line(Color::Cyan, actor, created_at.as_str());
            push_built(&mut lines, head);
            let change = change_line_of(name_or_unassigned(from), Color::Cyan, name_or_unassigned(to));
            push_built(&mut lines, change);
            assert(line_views(lines@) =~= event_lines(e@));
        },
    }
    lines
}

} // verus!

verus! {

fn status_color_of(state_type: &str) -> (r: Color)
    ensures
        r == status_color(state_type@),
{
    if crate::text::str_eq(state_type, "backlog") {
        Color::DarkGray
    } else if crate::text::str_eq(state_type, "unstarted") {
        Color::Gray
    } else if crate::text::str_eq(state_type, "started") {
        Color::Yellow
    } else if crate::text::str_eq(state_type, "completed") {
        Color::Green
    } else if crate::text::str_eq(state_type, "canceled") {
        Color::Red
    } else {
        Color::White
    }
}

fn priority_text_of(p: i32) -> (r: &'static str)
    ensures
        r@ == priority_text(p),
{
    if p == 0 {
        "No priority"
    } else if p == 1 {
        "Urgent"
    } else if p == 2 {
        "High"
    } else if p == 3 {
        "Medium"
    } else {
        "Low"
    }
}

fn priority_color_of(p: i32) -> (r: Color)
    ensures
        r == priority_color(p),
{
    if p == 1 {
        Color::Red
    } else if p == 2 {
        Color::Yellow
    } else if p == 3 {
        Color::Blue
    } else {
        Color::DarkGray
    }
}

fn field_line(label: &str, value: String, st: Style) -> (r: Vec<Span>)
    ensures
        span_views(r@) == seq![(label@, dim()), (value@, st)],
{
    let mut v: Vec<Span> = Vec::new();
    push_lit(&mut v, label, dim_style());
    push_text(&mut v, value, st);
    assert(span_views(v@) =~= seq![(label@, dim()), (value@, st)]);
    v
}

fn detail_head_lines(issue: &crate::types::Issue) -> (r: Vec<Line>)
    ensures
        line_views(r@) == detail_head(*issue),
{
    let mut lines: Vec<Line> = Vec::new();
    push_line(&mut lines, field_line("Title: ", issue.title.clone(), Style::new().bold()));
    push_empty(&mut lines);
    let sc = status_color_of(issue.state.state_type.as_str());
    push_line(&mut lines, field_line("Status: ", issue.state.name.clone(), Style::color(sc)));
    push_empty(&mut lines);
    let assignee = match &issue.assignee {
        Some(a) => a.name.clone(),
        None => owned("Unassigned"),
    };
    push_line(&mut lines, field_line("Assignee: ", assignee, Style::new()));
    push_empty(&mut lines);
    let pt = owned(priority_text_of(issue.priority));
    let pc = priority_color_of(issue.priority);
    push_line(&mut lines, field_line("Priority: ", pt, Style::color(pc)));
    push_empty(&mut lines);
    let project = match &issue.project {
        Some(p) => p.name.clone(),
        None => owned("None"),
    };
    push_line(&mut lines, field_line("Project: ", project, Style::new()));
    push_empty(&mut lines);
    push_single(&mut lines, "───────────────────────────────", dim_style());
    push_empty(&mut lines);
    push_single(&mut lines, "Description:", dim_style());
    push_empty(&mut lines);
    assert(line_views(lines@) =~= detail_head(*issue));
    lines
}

proof fn lemma_timeline_step(events: Seq<crate::types::EventView>, i: int)
    requires
        0 <= i < events.len(),
    ensures
        timeline_view(events.take(i + 1)) == timeline_view(events.take(i)) + event_lines(events[i])
            + seq![Seq::<SpanView>::empty()],
{
    assert(events.take(i + 1).drop_last() =~= events.take(i));
}

/// The lines of a timeline, each entry followed by an empty line.
fn timeline_lines(events: &Vec<crate::types::TimelineEvent>) -> (r: Vec<Line>)
    requires
        events_dates_ok(crate::timeline::event_views(events@)),
    ensures
        line_views(r@) == timeline_view(crate::timeline::event_views(events@)),
{
    let ghost ev = crate::timeline::event_views(events@);
    let mut lines: Vec<Line> = Vec::new();
    assert(ev.take(0) =~= Seq::<crate::types::EventView>::empty());
    for i in 0..events.len()
        invariant
            ev == crate::timeline::event_views(events@),
            events_dates_ok(ev),
            line_views(lines@) == timeline_view(ev.take(i as int)),
    {
        assert(ev[i as int] == events@[i as int]@);
        assert(crate::dates::date_cut_ok(crate::types::time_of(ev[i as int])));
        let more = render_timeline_event(&events[i]);
        append_lines(&mut lines, more);
        push_empty(&mut lines);
        proof {
            lemma_timeline_step(ev, i as int);
        }
    }
    assert(ev.take(events.len() as int) =~= ev);
    lines
}

/// Everything the details of `issue` show: its fields, its description
/// rendered from markdown, and its activity (loading, empty, or the
/// timeline).
pub fn build_detail_content(issue: &crate::types::Issue, app: &App) -> (r: Vec<Line>)
    requires
        events_dates_ok(crate::timeline::event_views(app.timeline_events@)),
    ensures
        line_views(r@) == detail_view(
            *issue,
            app.timeline_loading,
            crate::timeline::event_views(app.timeline_events@),
            app.mode == Mode::DetailView,
        ),
{
    let mut lines = detail_head_lines(issue);
    match &issue.description {
        Some(d) => {
            let md = crate::markdown::render_markdown(d.as_str());
            append_lines(&mut lines, md);
        },
        None => {
            push_single(&mut lines, "No description", dim_style().italic());
        },
    }
    let ghost before = line_views(lines@);
    push_empty(&mut lines);
    push_single(&mut lines, "───────────────────────────────", dim_style());
    push_empty(&mut lines);
    push_single(&mut lines, "Activity:", dim_style());
    push_empty(&mut lines);
    assert(line_views(lines@) =~= before + activity_head());
    let ghost before = line_views(lines@);
    let focused = match app.mode {
        Mode::DetailView => true,
        _ => false,
    };
    if app.timeline_loading {
        push_single(&mut lines, "Loading activity...", dim_style().italic());
    } else if app.timeline_events.len() == 0 {
        if focused {
            push_single(&mut lines, "No activity", dim_style().italic());
        } else {
            push_single(&mut lines, "Press Enter to load activity", dim_style().italic());
        }
    } else {
        let tl = timeline_lines(&app.timeline_events);
        append_lines(&mut lines, tl);
    }
    assert(line_views(lines@) =~= before + activity_view(
        app.timeline_loading,
        crate::timeline::event_views(app.timeline_events@),
        app.mode == Mode::DetailView,
    ));
    lines
}

/// The title of the details box.
pub open spec fn detail_title(focused: bool) -> Seq<char> {
    if focused {
        " Details (focused) "@
    } else {
        " Details "@
    }
}

/// The title and border color of the details box: highlighted when the
/// details have the focus.
pub fn detail_frame(app: &App) -> (r: (String, Color))
    ensures
        r.0@ == detail_title(app.mode == Mode::DetailView),
        r.1 == if app.mode == Mode::DetailView {
            Color::Cyan
        } else {
            Color::DarkGray
        },
{
    match app.mode {
        Mode::DetailView => (owned(" Details (focused) "), Color::Cyan),
        _ => (owned(" Details "), Color::DarkGray),
    }
}

} // verus!

verus! {

// ---------------------------------------------------------------------------
// Pickers and pop-ups
// ---------------------------------------------------------------------------

/// The entries of a picker showing `texts`, the one at `sel` marked and
/// highlighted.
pub open spec fn picker_view(texts: Seq<Seq<char>>, sel: usize) -> Seq<SpanView> {
    Seq::new(texts.len(), |i: int| (marker(i == sel) + texts[i], selected_style(i == sel)))
}

/// What a team picker entry says: `Name (KEY)`.
pub open spec fn team_entry(t: crate::types::Team) -> Seq<char> {
    t.name@ + " ("@ + t.key@ + ")"@
}

/// The entries of the issue filter.
pub open spec fn issue_filter_view(app: App) -> Seq<SpanView> {
    picker_view(
        app.filtered_issues@.map_values(
            |f: crate::fuzzy::FilteredItem<crate::types::Issue>| crate::app::issue_text(f.item),
        ),
        app.selected_issue_index,
    )
}

/// The entries of the team picker.
pub open spec fn team_picker_view(app: App) -> Seq<SpanView> {
    picker_view(
        app.filtered_teams@.map_values(
            |f: crate::fuzzy::FilteredItem<crate::types::Team>| team_entry(f.item),
        ),
        app.selected_team_index,
    )
}

/// The entries of the status picker.
pub open spec fn status_picker_view(app: App) -> Seq<SpanView> {
    picker_view(
        app.filtered_states@.map_values(
            |f: crate::fuzzy::FilteredItem<crate::types::WorkflowState>| f.item.name@,
        ),
        app.selected_status_index,
    )
}

fn picker_entry(text: String, sel: bool) -> (r: Span)
    ensures
        r@ == (marker(sel) + text@, selected_style(sel)),
{
    let mut s = if sel {
        owned("> ")
    } else {
        owned("  ")
    };
    push_str(&mut s, text.as_str());
    let style = if sel {
        Style::color(Color::Yellow).bold()
    } else {
        Style::new()
    };
    Span::styled(s, style)
}

/// The entries of the issue filter: each filtered issue's identifier and
/// title, the selected one marked.
pub fn issue_filter_items(app: &App) -> (r: Vec<Span>)
    ensures
        span_views(r@) == issue_filter_view(*app),
{
    let mut v: Vec<Span> = Vec::new();
    let ghost texts = app.filtered_issues@.map_values(
        |f: crate::fuzzy::FilteredItem<crate::types::Issue>| crate::app::issue_text(f.item),
    );
    for i in 0..app.filtered_issues.len()
        invariant
            texts == app.filtered_issues@.map_values(
                |f: crate::fuzzy::FilteredItem<crate::types::Issue>| crate::app::issue_text(f.item),
            ),
            span_views(v@) == picker_view(texts, app.selected_issue_index).take(i as int),
    {
        let issue = &app.filtered_issues[i].item;
        let mut text = issue.identifier.clone();
        push_str(&mut text, " ");
        push_str(&mut text, issue.title.as_str());
        let e = picker_entry(text, i == app.selected_issue_index);
        push_span(&mut v, e);
        assert(span_views(v@) =~= picker_view(texts, app.selected_issue_index).take(i + 1));
    }
    assert(picker_view(texts, app.selected_issue_index).take(texts.len() as int) =~= picker_view(
        texts,
        app.selected_issue_index,
    ));
    v
}

/// The entries of the team picker: each filtered team's name and key, the
/// selected one marked.
pub fn team_picker_items(app: &App) -> (r: Vec<Span>)
    ensures
        span_views(r@) == team_picker_view(*app),
{
    let mut v: Vec<Span> = Vec::new();
    let ghost texts = app.filtered_teams@.map_values(
        |f: crate::fuzzy::FilteredItem<crate::types::Team>| team_entry(f.item),
    );
    for i in 0..app.filtered_teams.len()
        invariant
            texts == app.filtered_teams@.map_values(
                |f: crate::fuzzy::FilteredItem<crate::types::Team>| team_entry(f.item),
            ),
            span_views(v@) == picker_view(texts, app.selected_team_index).take(i as int),
    {
        let team = &app.filtered_teams[i].item;
        let mut text = team.name.clone();
        push_str(&mut text, " (");
        push_str(&mut text, team.key.as_str());
        push_str(&mut text, ")");
        let e = picker_entry(text, i == app.selected_team_index);
        push_span(&mut v, e);
        assert(span_views(v@) =~= picker_view(texts, app.selected_team_index).take(i + 1));
    }
    assert(picker_view(texts, app.selected_team_index).take(texts.len() as int) =~= picker_view(
        texts,
        app.selected_team_index,
    ));
    v
}

/// The entries of the status picker: each filtered state's name, the
/// selected one marked.
pub fn status_picker_items(app: &App) -> (r: Vec<Span>)
    ensures
        span_views(r@) == status_picker_view(*app),
{
    let mut v: Vec<Span> = Vec::new();
    let ghost texts = app.filtered_states@.map_values(
        |f: crate::fuzzy::FilteredItem<crate::types::WorkflowState>| f.item.name@,
    );
    for i in 0..app.filtered_states.len()
        invariant
            texts == app.filtered_states@.map_values(
                |f: crate::fuzzy::FilteredItem<crate::types::WorkflowState>| f.item.name@,
            ),
            span_views(v@) == picker_view(texts, app.selected_status_index).take(i as int),
    {
        let text = app.filtered_states[i].item.name.clone();
        let e = picker_entry(text, i == app.selected_status_index);
        push_span(&mut v, e);
        assert(span_views(v@) =~= picker_view(texts, app.selected_status_index).take(i + 1));
    }
    assert(picker_view(texts, app.selected_status_index).take(texts.len() as int) =~= picker_view(
        texts,
        app.selected_status_index,
    ));
    v
}

/// One entry of the cycle picker: the cycle with its dates, marked when
/// selected and tagged when it runs today; the selected one is yellow, else
/// the running one green.
pub open spec fn cycle_entry(c: crate::types::Cycle, sel: bool, current: bool) -> SpanView {
    (
        marker(sel) + crate::types::cycle_display_with_dates(c) + (if current {
            " [current]"@
        } else {
            Seq::empty()
        }),
        if sel {
            bolded(colored(Color::Yellow))
        } else if current {
            colored(Color::Green)
        } else {
            plain()
        },
    )
}

/// The entries of the cycle picker, given the id of the cycle running today.
pub open spec fn cycle_picker_view(app: App, current_id: Option<Seq<char>>) -> Seq<SpanView> {
    Seq::new(
        app.filtered_cycles@.len(),
        |i: int|
            cycle_entry(
                app.filtered_cycles@[i].item,
                i == app.selected_cycle_index,
                current_id == Some(app.filtered_cycles@[i].item.id@),
            ),
    )
}

/// Whether the dates of every cycle the picker shows can be cut to their
/// date part.
pub open spec fn picker_dates_ok(app: App) -> bool {
    forall|k: int|
        0 <= k < app.filtered_cycles@.len() ==> #[trigger] crate::types::shown_dates_ok(
            app.filtered_cycles@[k].item,
        )
}

/// Whether the dates of every cycle the picker shows can be cut to their
/// date part (what [`cycle_picker_items_with`] needs).
pub fn picker_dates_sliceable(app: &App) -> (r: bool)
    ensures
        r == picker_dates_ok(*app),
{
    for i in 0..app.filtered_cycles.len()
        invariant
            forall|k: int|
                0 <= k < i ==> #[trigger] crate::types::shown_dates_ok(app.filtered_cycles@[k].item),
    {
        let c = &app.filtered_cycles[i].item;
        let ok = match (&c.starts_at, &c.ends_at) {
            (Some(s), Some(e)) => crate::dates::date_sliceable(s.as_str())
                && crate::dates::date_sliceable(e.as_str()),
            _ => true,
        };
        if !ok {
            assert(!crate::types::shown_dates_ok(app.filtered_cycles@[i as int].item));
            return false;
        }
    }
    true
}

/// Appends a span.
fn push_span(v: &mut Vec<Span>, s: Span)
    ensures
        span_views(final(v)@) == span_views(old(v)@).push(s@),
{
    let ghost sv = s@;
    v.push(s);
    assert(span_views(v@) =~= span_views(old(v)@).push(sv));
}

/// The entries of the cycle picker, given the id of the cycle running today.
pub fn cycle_picker_items_with(app: &App, current_id: &Option<String>) -> (r: Vec<Span>)
    requires
        picker_dates_ok(*app),
    ensures
        span_views(r@) == cycle_picker_view(*app, crate::types::opt_view(*current_id)),
{
    let mut v: Vec<Span> = Vec::new();
    let ghost cur = crate::types::opt_view(*current_id);
    for i in 0..app.filtered_cycles.len()
        invariant
            picker_dates_ok(*app),
            cur == crate::types::opt_view(*current_id),
            span_views(v@) == cycle_picker_view(*app, cur).take(i as int),
    {
        let cycle = &app.filtered_cycles[i].item;
        let sel = i == app.selected_cycle_index;
        let current = match current_id {
            Some(id) => crate::text::str_eq(id.as_str(), cycle.id.as_str()),
            None => false,
        };
        assert(current == (cur == Some(cycle.id@)));
        assert(crate::types::shown_dates_ok(app.filtered_cycles@[i as int].item));
        let mut text = if sel {
            owned("> ")
        } else {
            owned("  ")
        };
        let shown = cycle.display_with_dates();
        push_str(&mut text, shown.as_str());
        if current {
            push_str(&mut text, " [current]");
        }
        let style = if sel {
            Style::color(Color::Yellow).bold()
        } else if current {
            Style::color(Color::Green)
        } else {
            Style::new()
        };
        push_span(&mut v, Span::styled(text, style));
        assert(span_views(v@) =~= cycle_picker_view(*app, cur).take(i + 1));
    }
    assert(cycle_picker_view(*app, cur).take(app.filtered_cycles@.len() as int) =~= cycle_picker_view(
        *app,
        cur,
    ));
    v
}

/// The entries of the cycle picker, the cycle running today (UTC) tagged.
/// Which cycle that is depends on the clock; what is stated is that it is
/// the one running on some calendar day.
pub fn cycle_picker_items(app: &App) -> (r: Vec<Span>)
    requires
        picker_dates_ok(*app),
        crate::app::all_cycle_dates_ok(app.cycles@),
    ensures
        exists|today: crate::dates::Ymd|
            crate::app::valid_day(today) && span_views(r@) == cycle_picker_view(
                *app,
                crate::app::cycle_id_of(#[trigger] crate::app::current_cycle_at(app.cycles@, today)),
            ),
{
    let found = crate::app::find_current_cycle(app.cycles.as_slice());
    let current_id = match found {
        Some(c) => Some(c.id.clone()),
        None => None,
    };
    let r = cycle_picker_items_with(app, &current_id);
    proof {
        let today = choose|today: crate::dates::Ymd|
            crate::app::valid_day(today) && #[trigger] crate::app::current_cycle_at(app.cycles@, today)
                == crate::app::deref_opt(found);
        assert(crate::types::opt_view(current_id) == crate::app::cycle_id_of(
            crate::app::current_cycle_at(app.cycles@, today),
        ));
    }
    r
}

/// The line of a text input: a prompt, the text typed, and a block cursor.
pub open spec fn input_view(text: Seq<char>) -> LineView {
    seq![("> "@, colored(Color::Cyan)), (text, plain()), ("█"@, colored(Color::Cyan))]
}

/// The line of a text input holding `text`.
pub fn input_line(text: &str) -> (r: Line)
    ensures
        r@ == input_view(text@),
{
    let mut v: Vec<Span> = Vec::new();
    push_lit(&mut v, "> ", Style::color(Color::Cyan));
    push_lit(&mut v, text, Style::new());
    push_lit(&mut v, "█", Style::color(Color::Cyan));
    let r = Line::from_spans(v);
    assert(r@ =~= input_view(text@));
    r
}

/// The lines of the error pop-up: the message (each of its lines a span of
/// the first line), an empty line, and how to dismiss it.
pub open spec fn error_view(message: Seq<char>) -> Seq<LineView> {
    seq![
        crate::text::text_lines(message).map_values(|l: Seq<char>| (l, plain())),
        Seq::empty(),
        seq![("Press Esc to dismiss"@, dim())],
    ]
}

/// The lines of the error pop-up for `message`.
pub fn error_lines(message: &str) -> (r: Vec<Line>)
    ensures
        line_views(r@) == error_view(message@),
{
    let parts = crate::text::split_lines(message);
    let mut v: Vec<Span> = Vec::new();
    let ghost ls = crate::text::text_lines(message@);
    for i in 0..parts.len()
        invariant
            crate::text::views(parts@) == ls,
            span_views(v@) == ls.map_values(|l: Seq<char>| (l, plain())).take(i as int),
    {
        assert(parts@[i as int]@ == ls[i as int]);
        push_lit(&mut v, parts[i].as_str(), Style::new());
        assert(span_views(v@) =~= ls.map_values(|l: Seq<char>| (l, plain())).take(i + 1));
    }
    assert(ls.map_values(|l: Seq<char>| (l, plain())).take(parts.len() as int) =~= ls.map_values(
        |l: Seq<char>| (l, plain()),
    ));
    let mut lines: Vec<Line> = Vec::new();
    push_line(&mut lines, v);
    push_empty(&mut lines);
    push_single(&mut lines, "Press Esc to dismiss", dim_style());
    assert(line_views(lines@) =~= error_view(message@));
    lines
}

} // verus!

verus! {

/// The details of an issue begin with its fields, whatever the activity
/// shows: line 0 its title (bold), line 2 its state's name, line 4 its
/// assignee's name (or `Unassigned`), line 6 its priority and line 8 its
/// project's name (or `None`), each after its label.
pub proof fn details_show_the_issue_fields(
    issue: crate::types::Issue,
    loading: bool,
    events: Seq<crate::types::EventView>,
    focused: bool,
)
    ensures
        ({
            let lines = detail_view(issue, loading, events, focused);
            &&& lines.len() > 14
            &&& lines[0] == seq![("Title: "@, dim()), (issue.title@, bolded(plain()))]
            &&& lines[2][0] == ("Status: "@, dim()) && lines[2][1].0 == issue.state.name@
            &&& lines[4] == seq![
                ("Assignee: "@, dim()),
                (match issue.assignee {
                    Some(a) => a.name@,
                    None => "Unassigned"@,
                }, plain()),
            ]
            &&& lines[6][0] == ("Priority: "@, dim()) && lines[6][1].0 == priority_text(issue.priority)
            &&& lines[8] == seq![
                ("Project: "@, dim()),
                (match issue.project {
                    Some(p) => p.name@,
                    None => "None"@,
                }, plain()),
            ]
        }),
{
    let lines = detail_view(issue, loading, events, focused);
    let head = detail_head(issue);
    assert(head.len() == 14);
    assert(lines.len() >= head.len() + activity_head().len());
    assert forall|i: int| 0 <= i < 14 implies lines[i] == head[i] by {}
}

} // verus!
