//! Rendering of markdown text into styled lines: the events of a markdown
//! parse are folded into lines, and `@mentions` in plain text are highlighted.

use crate::styled::{line_views, span_views, Color, Line, LineView, Modifier, Span, SpanView, Style};
use crate::text::{
    chars_of, decimal, is_alphanumeric, repeat, string_of_range, text_lines, unicode_alphanumeric,
};
use vstd::prelude::*;

verus! {

// ---------------------------------------------------------------------------
// Mentions
// ---------------------------------------------------------------------------

/// Characters that may continue a mention after the `@`.
pub open spec fn mention_char(c: char) -> bool {
    unicode_alphanumeric(c) || c == '.' || c == '_' || c == '-'
}

/// Index of the first `'@'` in `s`, or `s.len()` when there is none.
pub open spec fn first_at(s: Seq<char>) -> int
    decreases s.len(),
{
    if s.len() == 0 {
        0
    } else if s[0] == '@' {
        0
    } else {
        1 + first_at(s.drop_first())
    }
}

/// Length of the longest prefix of `s` made of mention characters.
pub open spec fn mention_run(s: Seq<char>) -> int
    decreases s.len(),
{
    if s.len() == 0 {
        0
    } else if !mention_char(s[0]) {
        0
    } else {
        1 + mention_run(s.drop_first())
    }
}

pub proof fn lemma_first_at(s: Seq<char>)
    ensures
        0 <= first_at(s) <= s.len(),
        first_at(s) < s.len() ==> s[first_at(s)] == '@',
        forall|j: int| 0 <= j < first_at(s) ==> s[j] != '@',
    decreases s.len(),
{
    if s.len() > 0 && s[0] != '@' {
        lemma_first_at(s.drop_first());
        assert forall|j: int| 0 <= j < first_at(s) implies s[j] != '@' by {
            if j > 0 {
                assert(s[j] == s.drop_first()[j - 1]);
            }
        }
    }
}

proof fn lemma_first_at_is(s: Seq<char>, k: int)
    requires
        0 <= k <= s.len(),
        k < s.len() ==> s[k] == '@',
        forall|j: int| 0 <= j < k ==> s[j] != '@',
    ensures
        first_at(s) == k,
    decreases s.len(),
{
    if s.len() > 0 && k > 0 {
        assert forall|j: int| 0 <= j < k - 1 implies s.drop_first()[j] != '@' by {
            assert(s.drop_first()[j] == s[j + 1]);
        }
        lemma_first_at_is(s.drop_first(), k - 1);
    }
}

pub proof fn lemma_mention_run(s: Seq<char>)
    ensures
        0 <= mention_run(s) <= s.len(),
    decreases s.len(),
{
    if s.len() > 0 && mention_char(s[0]) {
        lemma_mention_run(s.drop_first());
    }
}

proof fn lemma_mention_run_is(s: Seq<char>, k: int)
    requires
        0 <= k <= s.len(),
        k < s.len() ==> !mention_char(s[k]),
        forall|j: int| 0 <= j < k ==> mention_char(s[j]),
    ensures
        mention_run(s) == k,
    decreases s.len(),
{
    if s.len() > 0 && k > 0 {
        assert forall|j: int| 0 <= j < k - 1 implies mention_char(s.drop_first()[j]) by {
            assert(s.drop_first()[j] == s[j + 1]);
        }
        lemma_mention_run_is(s.drop_first(), k - 1);
    }
}

/// The style of a mention drawn over `base`: bold and cyan.
pub open spec fn mention_style(base: Style) -> Style {
    Style { fg: Some(Color::Cyan), add_modifier: Modifier { bold: true, ..base.add_modifier } }
}

/// The spans of a text in style `base`, where each `@` followed by at least
/// one mention character starts a mention span (bold, cyan) that runs over
/// those characters; a lone `@` stays plain text of its own.
pub open spec fn mention_spans(s: Seq<char>, base: Style) -> Seq<SpanView>
    decreases s.len(),
{
    let a = first_at(s);
    proof {
        lemma_first_at(s);
    }
    if a == s.len() {
        if s.len() == 0 {
            Seq::empty()
        } else {
            seq![(s, base)]
        }
    } else {
        let before: Seq<SpanView> = if a > 0 {
            seq![(s.take(a), base)]
        } else {
            Seq::empty()
        };
        let after = s.skip(a + 1);
        let m = mention_run(after);
        proof {
            lemma_mention_run(after);
        }
        if m > 0 {
            before + seq![(s.subrange(a, a + 1 + m), mention_style(base))] + mention_spans(
                s.skip(a + 1 + m),
                base,
            )
        } else {
            before + seq![(seq!['@'], base)] + mention_spans(after, base)
        }
    }
}

/// The concatenated text of a sequence of spans.
pub open spec fn span_text(spans: Seq<SpanView>) -> Seq<char>
    decreases spans.len(),
{
    if spans.len() == 0 {
        Seq::empty()
    } else {
        span_text(spans.drop_last()) + spans.last().0
    }
}

pub proof fn lemma_span_text_single(x: SpanView)
    ensures
        span_text(seq![x]) == x.0,
{
    let s = seq![x];
    assert(s.drop_last() =~= Seq::<SpanView>::empty());
    assert(span_text(s.drop_last()) == Seq::<char>::empty());
    assert(s.last() == x);
    assert(Seq::<char>::empty() + x.0 =~= x.0);
}

pub proof fn lemma_span_text_concat(a: Seq<SpanView>, b: Seq<SpanView>)
    ensures
        span_text(a + b) == span_text(a) + span_text(b),
    decreases b.len(),
{
    if b.len() == 0 {
        assert(a + b == a);
    } else {
        lemma_span_text_concat(a, b.drop_last());
        assert((a + b).drop_last() == a + b.drop_last());
    }
}

/// Splitting a text into mention spans keeps every character, in order: the
/// spans put together give back the text.
pub proof fn mention_spans_preserve_text(s: Seq<char>, base: Style)
    ensures
        span_text(mention_spans(s, base)) == s,
    decreases s.len(),
{
    lemma_first_at(s);
    let a = first_at(s);
    if a == s.len() {
        if s.len() > 0 {
            lemma_span_text_single((s, base));
        }
    } else {
        let before: Seq<SpanView> = if a > 0 {
            seq![(s.take(a), base)]
        } else {
            Seq::empty()
        };
        assert(span_text(before) == s.take(a)) by {
            if a > 0 {
                lemma_span_text_single((s.take(a), base));
            } else {
                assert(s.take(a) =~= Seq::<char>::empty());
            }
        }
        let after = s.skip(a + 1);
        lemma_mention_run(after);
        let m = mention_run(after);
        if m > 0 {
            let mid: Seq<SpanView> = seq![(s.subrange(a, a + 1 + m), mention_style(base))];
            let rest = mention_spans(s.skip(a + 1 + m), base);
            mention_spans_preserve_text(s.skip(a + 1 + m), base);
            lemma_span_text_concat(before + mid, rest);
            lemma_span_text_concat(before, mid);
            lemma_span_text_single((s.subrange(a, a + 1 + m), mention_style(base)));
            assert(s.take(a) + s.subrange(a, a + 1 + m) + s.skip(a + 1 + m) =~= s);
        } else {
            let mid: Seq<SpanView> = seq![(seq!['@'], base)];
            let rest = mention_spans(after, base);
            mention_spans_preserve_text(after, base);
            lemma_span_text_concat(before + mid, rest);
            lemma_span_text_concat(before, mid);
            lemma_span_text_single((seq!['@'], base));
            assert(s.take(a) + seq!['@'] + after =~= s);
        }
    }
}

fn is_mention_char(c: char) -> (r: bool)
    ensures
        r == mention_char(c),
{
    is_alphanumeric(c) || c == '.' || c == '_' || c == '-'
}

/// Splits `text` into spans in style `base`, with every `@mention` (an `@`
/// followed by letters, digits, dots, underscores or hyphens) bold and cyan.
pub fn style_with_mentions(text: &str, base: Style) -> (r: Vec<Span>)
    ensures
        span_views(r@) == mention_spans(text@, base),
{
    let cs = chars_of(text);
    let n = cs.len();
    let mut out: Vec<Span> = Vec::new();
    let mut pos: usize = 0;
    proof {
        assert(cs@.skip(0) == cs@);
        assert(span_views(out@) =~= Seq::<SpanView>::empty());
        assert(Seq::<SpanView>::empty() + mention_spans(text@, base) == mention_spans(text@, base));
    }
    while pos < n
        invariant
            cs@ == text@,
            n == cs.len(),
            pos <= n,
            span_views(out@) + mention_spans(cs@.skip(pos as int), base) == mention_spans(
                text@,
                base,
            ),
        decreases n - pos,
    {
        let ghost s = cs@.skip(pos as int);
        let ghost old_out = span_views(out@);
        let mut a = pos;
        while a < n && cs[a] != '@'
            invariant
                pos <= a <= n,
                n == cs.len(),
                forall|j: int| pos <= j < a ==> cs@[j] != '@',
            decreases n - a,
        {
            a = a + 1;
        }
        proof {
            assert forall|j: int| 0 <= j < a - pos implies s[j] != '@' by {
                assert(s[j] == cs@[pos + j]);
            }
            lemma_first_at_is(s, a - pos);
        }
        if a == n {
            let sp = Span::styled(string_of_range(&cs, pos, n), base);
            proof {
                assert(s == cs@.subrange(pos as int, n as int));
                assert(mention_spans(s, base) == seq![(s, base)]);
                assert(cs@.skip(n as int).len() == 0);
                assert(mention_spans(cs@.skip(n as int), base) =~= Seq::<SpanView>::empty());
                assert(span_views(out@.push(sp)) == old_out.push(sp@));
            }
            out.push(sp);
            pos = n;
        } else {
            let ghost before: Seq<SpanView> = if a > pos {
                seq![(s.take(a - pos), base)]
            } else {
                Seq::empty()
            };
            if a > pos {
                let sp = Span::styled(string_of_range(&cs, pos, a), base);
                proof {
                    assert(s.take(a - pos) == cs@.subrange(pos as int, a as int));
                    assert(span_views(out@.push(sp)) == old_out.push(sp@));
                }
                out.push(sp);
            }
            assert(span_views(out@) == old_out + before);
            let mut e = a + 1;
            while e < n && is_mention_char(cs[e])
                invariant
                    a + 1 <= e <= n,
                    n == cs.len(),
                    forall|j: int| a + 1 <= j < e ==> mention_char(cs@[j]),
                decreases n - e,
            {
                e = e + 1;
            }
            let ghost after = s.skip(a - pos + 1);
            proof {
                assert(after == cs@.skip(a + 1));
                assert forall|j: int| 0 <= j < e - (a + 1) implies mention_char(after[j]) by {
                    assert(after[j] == cs@[a + 1 + j]);
                }
                if e < n {
                    assert(after[e - (a + 1)] == cs@[e as int]);
                }
                lemma_mention_run_is(after, e - (a + 1));
            }
            let ghost mid_out = span_views(out@);
            if e > a + 1 {
                let sp = Span::styled(string_of_range(&cs, a, e), mention_style_of(base));
                proof {
                    assert(s.subrange(a - pos, a - pos + 1 + (e - (a + 1))) == cs@.subrange(
                        a as int,
                        e as int,
                    ));
                    assert(s.skip(a - pos + 1 + (e - (a + 1))) == cs@.skip(e as int));
                    assert(span_views(out@.push(sp)) == mid_out.push(sp@));
                    assert(mention_spans(s, base) == before + seq![sp@] + mention_spans(
                        cs@.skip(e as int),
                        base,
                    ));
                }
                out.push(sp);
                pos = e;
            } else {
                let sp = Span::styled_str("@", base);
                proof {
                    reveal_strlit("@");
                    assert("@"@ == seq!['@']);
                    assert(span_views(out@.push(sp)) == mid_out.push(sp@));
                    assert(mention_spans(s, base) == before + seq![sp@] + mention_spans(
                        cs@.skip(a + 1),
                        base,
                    ));
                }
                out.push(sp);
                pos = a + 1;
            }
        }
    }
    proof {
        assert(cs@.skip(n as int).len() == 0);
        assert(mention_spans(cs@.skip(n as int), base) =~= Seq::<SpanView>::empty());
        assert(span_views(out@) + Seq::<SpanView>::empty() == span_views(out@));
    }
    out
}

fn mention_style_of(base: Style) -> (r: Style)
    ensures
        r == mention_style(base),
{
    base.bold().fg(Color::Cyan)
}

} // verus!

verus! {

// ---------------------------------------------------------------------------
// Markdown events
// ---------------------------------------------------------------------------

/// The markdown parse events that the renderer distinguishes.
#[derive(Debug)]
pub enum MdEvent {
    /// Start of a heading of the given level (1 to 6).
    StartHeading(u8),
    StartParagraph,
    /// Start of a code block: `Some(language)` for a fenced block (the
    /// language may be empty), `None` for an indented one.
    StartCodeBlock(Option<String>),
    /// Start of a list: `Some(first number)` for an ordered list.
    StartList(Option<u64>),
    StartItem,
    StartEmphasis,
    StartStrong,
    StartStrikethrough,
    StartLink,
    StartBlockQuote,
    EndHeading,
    EndParagraph,
    EndCodeBlock,
    EndList,
    EndItem,
    EndEmphasis,
    EndStrong,
    EndStrikethrough,
    EndLink,
    EndBlockQuote,
    Text(String),
    Code(String),
    SoftBreak,
    HardBreak,
    Rule,
    /// Any other event (tables, images, HTML, footnotes, ...).
    Other,
}

/// The mathematical value of a markdown event.
pub ghost enum MdEventView {
    StartHeading(u8),
    StartParagraph,
    StartCodeBlock(Option<Seq<char>>),
    StartList(Option<u64>),
    StartItem,
    StartEmphasis,
    StartStrong,
    StartStrikethrough,
    StartLink,
    StartBlockQuote,
    EndHeading,
    EndParagraph,
    EndCodeBlock,
    EndList,
    EndItem,
    EndEmphasis,
    EndStrong,
    EndStrikethrough,
    EndLink,
    EndBlockQuote,
    Text(Seq<char>),
    Code(Seq<char>),
    SoftBreak,
    HardBreak,
    Rule,
    Other,
}

impl View for MdEvent {
    type V = MdEventView;

    open spec fn view(&self) -> MdEventView {
        match self {
            MdEvent::StartHeading(l) => MdEventView::StartHeading(*l),
            MdEvent::StartParagraph => MdEventView::StartParagraph,
            MdEvent::StartCodeBlock(k) => MdEventView::StartCodeBlock(
                match k {
                    Some(lang) => Some(lang@),
                    None => None,
                },
            ),
            MdEvent::StartList(n) => MdEventView::StartList(*n),
            MdEvent::StartItem => MdEventView::StartItem,
            MdEvent::StartEmphasis => MdEventView::StartEmphasis,
            MdEvent::StartStrong => MdEventView::StartStrong,
            MdEvent::StartStrikethrough => MdEventView::StartStrikethrough,
            MdEvent::StartLink => MdEventView::StartLink,
            MdEvent::StartBlockQuote => MdEventView::StartBlockQuote,
            MdEvent::EndHeading => MdEventView::EndHeading,
            MdEvent::EndParagraph => MdEventView::EndParagraph,
            MdEvent::EndCodeBlock => MdEventView::EndCodeBlock,
            MdEvent::EndList => MdEventView::EndList,
            MdEvent::EndItem => MdEventView::EndItem,
            MdEvent::EndEmphasis => MdEventView::EndEmphasis,
            MdEvent::EndStrong => MdEventView::EndStrong,
            MdEvent::EndStrikethrough => MdEventView::EndStrikethrough,
            MdEvent::EndLink => MdEventView::EndLink,
            MdEvent::EndBlockQuote => MdEventView::EndBlockQuote,
            MdEvent::Text(t) => MdEventView::Text(t@),
            MdEvent::Code(t) => MdEventView::Code(t@),
            MdEvent::SoftBreak => MdEventView::SoftBreak,
            MdEvent::HardBreak => MdEventView::HardBreak,
            MdEvent::Rule => MdEventView::Rule,
            MdEvent::Other => MdEventView::Other,
        }
    }
}

/// The views of a sequence of events.
pub open spec fn event_views(s: Seq<MdEvent>) -> Seq<MdEventView> {
    s.map_values(|e: MdEvent| e@)
}

// ---------------------------------------------------------------------------
// Rendering state and one step of it
// ---------------------------------------------------------------------------

/// The state of the renderer between two events.
pub ghost struct MdState {
    /// Lines finished so far.
    pub lines: Seq<LineView>,
    /// Spans of the line being built.
    pub current: Seq<SpanView>,
    /// Styles of the open inline and block elements; the last one applies.
    pub styles: Seq<Style>,
    pub in_code: bool,
    /// Nesting depth of lists.
    pub depth: nat,
    /// Next number of the innermost ordered list, if any.
    pub ordered: Option<u64>,
}

/// The state before the first event.
pub open spec fn md_init() -> MdState {
    MdState {
        lines: Seq::empty(),
        current: Seq::empty(),
        styles: seq![crate::styled::plain()],
        in_code: false,
        depth: 0,
        ordered: None,
    }
}

/// The style that applies now.
pub open spec fn top_style(styles: Seq<Style>) -> Style {
    if styles.len() == 0 {
        crate::styled::plain()
    } else {
        styles.last()
    }
}

/// Closes the style of the innermost element, if any.
pub open spec fn pop_style(styles: Seq<Style>) -> Seq<Style> {
    if styles.len() == 0 {
        styles
    } else {
        styles.drop_last()
    }
}

/// Ends the current line if it holds any span.
pub open spec fn flush(st: MdState) -> MdState {
    if st.current.len() > 0 {
        MdState { lines: st.lines.push(st.current), current: Seq::empty(), ..st }
    } else {
        st
    }
}

/// Appends a finished line.
pub open spec fn add_line(st: MdState, l: LineView) -> MdState {
    MdState { lines: st.lines.push(l), ..st }
}

/// Appends a span to the current line.
pub open spec fn add_span(st: MdState, s: SpanView) -> MdState {
    MdState { current: st.current.push(s), ..st }
}

/// Opens an element drawn in style `s`.
pub open spec fn push_style(st: MdState, s: Style) -> MdState {
    MdState { styles: st.styles.push(s), ..st }
}

/// Closes the innermost element's style.
pub open spec fn pop(st: MdState) -> MdState {
    MdState { styles: pop_style(st.styles), ..st }
}

/// Style of a heading of the given level.
pub open spec fn heading_style(level: u8) -> Style {
    let p = crate::styled::plain();
    if level == 1 {
        Style { fg: Some(Color::Cyan), add_modifier: Modifier { bold: true, ..p.add_modifier } }
    } else if level == 2 {
        Style { fg: Some(Color::Blue), add_modifier: Modifier { bold: true, ..p.add_modifier } }
    } else if level == 3 {
        Style { fg: Some(Color::Magenta), add_modifier: Modifier { bold: true, ..p.add_modifier } }
    } else {
        Style { add_modifier: Modifier { bold: true, ..p.add_modifier }, ..p }
    }
}

pub open spec fn with_italic(s: Style) -> Style {
    Style { add_modifier: Modifier { italic: true, ..s.add_modifier }, ..s }
}

pub open spec fn with_bold(s: Style) -> Style {
    Style { add_modifier: Modifier { bold: true, ..s.add_modifier }, ..s }
}

pub open spec fn with_crossed_out(s: Style) -> Style {
    Style { add_modifier: Modifier { crossed_out: true, ..s.add_modifier }, ..s }
}

/// Style of a link: blue and underlined.
pub open spec fn link_style() -> Style {
    let p = crate::styled::plain();
    Style { fg: Some(Color::Blue), add_modifier: Modifier { underlined: true, ..p.add_modifier } }
}

/// Style of block quote text: gray and italic.
pub open spec fn quote_style() -> Style {
    let p = crate::styled::plain();
    Style { fg: Some(Color::Gray), add_modifier: Modifier { italic: true, ..p.add_modifier } }
}

/// The text of a horizontal rule.
pub open spec fn rule_text() -> Seq<char> {
    "────────────────────────────────"@
}

/// The marker that starts a list item: indentation by depth, then the item's
/// number and a dot for ordered lists, a bullet otherwise.
pub open spec fn item_marker(depth: nat, ordered: Option<u64>) -> Seq<char> {
    let indent = repeat("  "@, if depth > 0 { (depth - 1) as nat } else { 0 });
    match ordered {
        Some(i) => indent + decimal(i as nat) + ". "@,
        None => indent + "• "@,
    }
}

/// The number after `i`, wrapping around at the largest `u64`.
pub open spec fn next_number(i: u64) -> u64 {
    if i == u64::MAX {
        0
    } else {
        (i + 1) as u64
    }
}

/// The lines and current spans after the lines `ls` of a code block's text:
/// each line after the first starts a new line, each gets a `"│ "` prefix.
pub open spec fn code_text(
    lines: Seq<LineView>,
    cur: Seq<SpanView>,
    ls: Seq<Seq<char>>,
    style: Style,
) -> (Seq<LineView>, Seq<SpanView>)
    decreases ls.len(),
{
    if ls.len() == 0 {
        (lines, cur)
    } else {
        let (l2, c2) = code_text(lines, cur, ls.drop_last(), style);
        let (l3, c3) = if ls.len() > 1 {
            (l2.push(c2), Seq::<SpanView>::empty())
        } else {
            (l2, c2)
        };
        (l3, c3.push(("│ "@ + ls.last(), style)))
    }
}

/// The renderer's state after one more event.
pub open spec fn md_step(st: MdState, e: MdEventView) -> MdState {
    let dark = crate::styled::colored(Color::DarkGray);
    match e {
        MdEventView::StartHeading(l) => push_style(st, heading_style(l)),
        MdEventView::StartParagraph => flush(st),
        MdEventView::StartCodeBlock(k) => {
            let s1 = flush(MdState { in_code: true, ..st });
            let s2 = match k {
                Some(lang) => if lang.len() > 0 {
                    add_line(s1, seq![("┌─ "@ + lang + " "@, dark)])
                } else {
                    add_line(s1, seq![("┌───"@, dark)])
                },
                None => s1,
            };
            push_style(s2, crate::styled::colored(Color::Green))
        },
        MdEventView::StartList(n) => {
            let s1 = flush(st);
            MdState { depth: s1.depth + 1, ordered: n, ..s1 }
        },
        MdEventView::StartItem => {
            let s1 = add_span(
                st,
                (item_marker(st.depth, st.ordered), crate::styled::colored(Color::Yellow)),
            );
            match st.ordered {
                Some(i) => MdState { ordered: Some(next_number(i)), ..s1 },
                None => s1,
            }
        },
        MdEventView::StartEmphasis => push_style(st, with_italic(top_style(st.styles))),
        MdEventView::StartStrong => push_style(st, with_bold(top_style(st.styles))),
        MdEventView::StartStrikethrough => push_style(st, with_crossed_out(top_style(st.styles))),
        MdEventView::StartLink => push_style(st, link_style()),
        MdEventView::StartBlockQuote => push_style(
            add_span(flush(st), ("│ "@, dark)),
            quote_style(),
        ),
        MdEventView::EndHeading => add_line(flush(pop(st)), Seq::empty()),
        MdEventView::EndParagraph => add_line(flush(st), Seq::empty()),
        MdEventView::EndCodeBlock => add_line(
            flush(pop(MdState { in_code: false, ..st })),
            seq![("└───"@, dark)],
        ),
        MdEventView::EndList => {
            let d: nat = if st.depth > 0 { (st.depth - 1) as nat } else { 0 };
            flush(MdState { depth: d, ordered: if d == 0 { None } else { st.ordered }, ..st })
        },
        MdEventView::EndItem => flush(st),
        MdEventView::EndEmphasis => pop(st),
        MdEventView::EndStrong => pop(st),
        MdEventView::EndStrikethrough => pop(st),
        MdEventView::EndLink => pop(st),
        MdEventView::EndBlockQuote => flush(pop(st)),
        MdEventView::Text(t) => {
            let style = top_style(st.styles);
            if st.in_code {
                let (l, c) = code_text(st.lines, st.current, text_lines(t), style);
                MdState { lines: l, current: c, ..st }
            } else {
                MdState { current: st.current + mention_spans(t, style), ..st }
            }
        },
        MdEventView::Code(c) => add_span(
            st,
            ("`"@ + c + "`"@, crate::styled::colored(Color::Green)),
        ),
        MdEventView::SoftBreak => add_span(st, (" "@, crate::styled::plain())),
        MdEventView::HardBreak => flush(st),
        MdEventView::Rule => add_line(flush(st), seq![(rule_text(), dark)]),
        MdEventView::Other => st,
    }
}

/// Whether style `b` keeps everything of style `a`: its color and each of
/// its modifiers.
pub open spec fn keeps_style(a: Style, b: Style) -> bool {
    &&& b.fg == a.fg
    &&& (a.add_modifier.bold ==> b.add_modifier.bold)
    &&& (a.add_modifier.italic ==> b.add_modifier.italic)
    &&& (a.add_modifier.underlined ==> b.add_modifier.underlined)
    &&& (a.add_modifier.crossed_out ==> b.add_modifier.crossed_out)
}

/// Emphasis, strong text and strike-through add to the style around them:
/// the text inside keeps the enclosing color and modifiers and gains italic,
/// bold or strike-through; closing the element gives back the enclosing
/// style.
pub proof fn inline_styles_accumulate(st: MdState)
    ensures
        keeps_style(top_style(st.styles), top_style(md_step(st, MdEventView::StartEmphasis).styles)),
        top_style(md_step(st, MdEventView::StartEmphasis).styles).add_modifier.italic,
        keeps_style(top_style(st.styles), top_style(md_step(st, MdEventView::StartStrong).styles)),
        top_style(md_step(st, MdEventView::StartStrong).styles).add_modifier.bold,
        keeps_style(
            top_style(st.styles),
            top_style(md_step(st, MdEventView::StartStrikethrough).styles),
        ),
        top_style(md_step(st, MdEventView::StartStrikethrough).styles).add_modifier.crossed_out,
        md_step(md_step(st, MdEventView::StartEmphasis), MdEventView::EndEmphasis).styles
            == st.styles,
        md_step(md_step(st, MdEventView::StartStrong), MdEventView::EndStrong).styles == st.styles,
        md_step(
            md_step(st, MdEventView::StartStrikethrough),
            MdEventView::EndStrikethrough,
        ).styles == st.styles,
{
    let e = md_step(st, MdEventView::StartEmphasis);
    let b = md_step(st, MdEventView::StartStrong);
    let c = md_step(st, MdEventView::StartStrikethrough);
    assert(md_step(e, MdEventView::EndEmphasis).styles =~= st.styles);
    assert(md_step(b, MdEventView::EndStrong).styles =~= st.styles);
    assert(md_step(c, MdEventView::EndStrikethrough).styles =~= st.styles);
}

/// Emphasis inside strong text is both bold and italic, whatever came
/// before.
pub proof fn emphasis_inside_strong_is_bold_and_italic(st: MdState)
    ensures
        top_style(
            md_step(md_step(st, MdEventView::StartStrong), MdEventView::StartEmphasis).styles,
        ).add_modifier.bold,
        top_style(
            md_step(md_step(st, MdEventView::StartStrong), MdEventView::StartEmphasis).styles,
        ).add_modifier.italic,
{
    inline_styles_accumulate(st);
    inline_styles_accumulate(md_step(st, MdEventView::StartStrong));
}

/// The renderer's state after a sequence of events.
pub open spec fn md_run(events: Seq<MdEventView>) -> MdState
    decreases events.len(),
{
    if events.len() == 0 {
        md_init()
    } else {
        md_step(md_run(events.drop_last()), events.last())
    }
}

/// `lines` without the empty lines at its end.
pub open spec fn strip_trailing_empty(lines: Seq<LineView>) -> Seq<LineView>
    decreases lines.len(),
{
    if lines.len() > 0 && lines.last().len() == 0 {
        strip_trailing_empty(lines.drop_last())
    } else {
        lines
    }
}

proof fn lemma_strip_trailing_empty(lines: Seq<LineView>)
    ensures
        strip_trailing_empty(lines).len() > 0 ==> strip_trailing_empty(lines).last().len() > 0,
        strip_trailing_empty(lines).len() <= lines.len(),
        forall|i: int|
            0 <= i < strip_trailing_empty(lines).len() ==> #[trigger] strip_trailing_empty(lines)[i]
                == lines[i],
    decreases lines.len(),
{
    if lines.len() > 0 && lines.last().len() == 0 {
        lemma_strip_trailing_empty(lines.drop_last());
    }
}

/// Rendered markdown never ends with an empty line: whatever the events,
/// the last line rendered (if any) shows something.
pub proof fn rendered_markdown_ends_with_content(events: Seq<MdEventView>)
    ensures
        md_lines(events).len() > 0 ==> md_lines(events).last().len() > 0,
{
    let st = md_run(events);
    let l = if st.current.len() > 0 {
        st.lines.push(st.current)
    } else {
        st.lines
    };
    lemma_strip_trailing_empty(l);
}

/// The lines rendered from a sequence of markdown events: the last line is
/// closed if it holds anything, and empty lines at the end are dropped.
pub open spec fn md_lines(events: Seq<MdEventView>) -> Seq<LineView> {
    let st = md_run(events);
    let l = if st.current.len() > 0 {
        st.lines.push(st.current)
    } else {
        st.lines
    };
    strip_trailing_empty(l)
}

} // verus!

verus! {

// ---------------------------------------------------------------------------
// The executable renderer
// ---------------------------------------------------------------------------

struct Renderer {
    lines: Vec<Line>,
    current: Vec<Span>,
    styles: Vec<Style>,
    in_code: bool,
    depth: usize,
    ordered: Option<u64>,
}

impl View for Renderer {
    type V = MdState;

    closed spec fn view(&self) -> MdState {
        MdState {
            lines: line_views(self.lines@),
            current: span_views(self.current@),
            styles: self.styles@,
            in_code: self.in_code,
            depth: self.depth as nat,
            ordered: self.ordered,
        }
    }
}

impl Renderer {
    fn new() -> (r: Renderer)
        ensures
            r@ == md_init(),
    {
        let mut styles = Vec::new();
        styles.push(Style::new());
        let r = Renderer {
            lines: Vec::new(),
            current: Vec::new(),
            styles,
            in_code: false,
            depth: 0,
            ordered: None,
        };
        assert(r@.lines =~= Seq::<LineView>::empty());
        assert(r@.current =~= Seq::<SpanView>::empty());
        assert(r@.styles =~= seq![crate::styled::plain()]);
        r
    }

    fn top(&self) -> (r: Style)
        ensures
            r == top_style(self@.styles),
    {
        if self.styles.len() == 0 {
            Style::new()
        } else {
            self.styles[self.styles.len() - 1]
        }
    }

    fn push_style(&mut self, s: Style)
        ensures
            final(self)@ == push_style(old(self)@, s),
    {
        self.styles.push(s);
    }

    fn pop_style(&mut self)
        ensures
            final(self)@ == pop(old(self)@),
    {
        if self.styles.len() > 0 {
            self.styles.pop();
        }
    }

    fn add_line(&mut self, l: Line)
        ensures
            final(self)@ == add_line(old(self)@, l@),
    {
        self.lines.push(l);
        assert(line_views(self.lines@) =~= line_views(old(self).lines@).push(l@));
    }

    fn add_span(&mut self, s: Span)
        ensures
            final(self)@ == add_span(old(self)@, s@),
    {
        self.current.push(s);
        assert(span_views(self.current@) =~= span_views(old(self).current@).push(s@));
    }

    fn take_current(&mut self) -> (r: Vec<Span>)
        ensures
            span_views(r@) == old(self)@.current,
            final(self)@ == (MdState { current: Seq::empty(), ..old(self)@ }),
    {
        let mut r: Vec<Span> = Vec::new();
        std::mem::swap(&mut r, &mut self.current);
        assert(span_views(self.current@) =~= Seq::<SpanView>::empty());
        r
    }

    fn flush(&mut self)
        ensures
            final(self)@ == flush(old(self)@),
    {
        if self.current.len() > 0 {
            let cur = self.take_current();
            self.add_line(Line::from_spans(cur));
        }
    }

    fn add_code_text(&mut self, text: &String, style: Style)
        requires
            old(self)@.in_code,
        ensures
            ({
                let (l, c) = code_text(
                    old(self)@.lines,
                    old(self)@.current,
                    text_lines(text@),
                    style,
                );
                final(self)@ == (MdState { lines: l, current: c, ..old(self)@ })
            }),
    {
        let ls = crate::text::split_lines(text.as_str());
        let ghost lv = crate::text::views(ls@);
        let ghost start = self@;
        for i in 0..ls.len()
            invariant
                lv == crate::text::views(ls@),
                lv == text_lines(text@),
                ({
                    let (l, c) = code_text(start.lines, start.current, lv.take(i as int), style);
                    self@ == (MdState { lines: l, current: c, ..start })
                }),
        {
            assert(lv.take(i + 1).drop_last() == lv.take(i as int));
            if i > 0 {
                let cur = self.take_current();
                self.add_line(Line::from_spans(cur));
            }
            let content = crate::text::concat2("│ ", ls[i].as_str());
            self.add_span(Span::styled(content, style));
        }
        assert(lv.take(ls.len() as int) == lv);
    }

    fn step(&mut self, e: &MdEvent)
        requires
            old(self)@.depth < usize::MAX,
        ensures
            final(self)@ == md_step(old(self)@, e@),
            final(self)@.depth <= old(self)@.depth + 1,
    {
        let dark = Style::color(Color::DarkGray);
        match e {
            MdEvent::StartHeading(level) => {
                let s = if *level == 1 {
                    Style::color(Color::Cyan).bold()
                } else if *level == 2 {
                    Style::color(Color::Blue).bold()
                } else if *level == 3 {
                    Style::color(Color::Magenta).bold()
                } else {
                    Style::new().bold()
                };
                self.push_style(s);
            },
            MdEvent::StartParagraph => {
                self.flush();
            },
            MdEvent::StartCodeBlock(kind) => {
                self.in_code = true;
                self.flush();
                match kind {
                    Some(lang) => {
                        if !lang.as_str().is_empty() {
                            let t = crate::text::concat3("┌─ ", lang.as_str(), " ");
                            self.add_line(Line::single(Span::styled(t, dark)));
                        } else {
                            self.add_line(Line::single(Span::styled_str("┌───", dark)));
                        }
                    },
                    None => {},
                }
                self.push_style(Style::color(Color::Green));
            },
            MdEvent::StartList(n) => {
                self.flush();
                self.depth = self.depth + 1;
                self.ordered = *n;
            },
            MdEvent::StartItem => {
                let indent = crate::text::repeat_str(
                    "  ",
                    if self.depth > 0 {
                        self.depth - 1
                    } else {
                        0
                    },
                );
                let marker = match self.ordered {
                    Some(i) => {
                        let num = crate::text::format_u64(i);
                        crate::text::concat3(indent.as_str(), num.as_str(), ". ")
                    },
                    None => crate::text::concat2(indent.as_str(), "• "),
                };
                self.add_span(Span::styled(marker, Style::color(Color::Yellow)));
                match self.ordered {
                    Some(i) => {
                        self.ordered = Some(i.wrapping_add(1));
                    },
                    None => {},
                }
            },
            MdEvent::StartEmphasis => {
                let s = self.top().italic();
                self.push_style(s);
            },
            MdEvent::StartStrong => {
                let s = self.top().bold();
                self.push_style(s);
            },
            MdEvent::StartStrikethrough => {
                let s = self.top().crossed_out();
                self.push_style(s);
            },
            MdEvent::StartLink => {
                self.push_style(Style::color(Color::Blue).underlined());
            },
            MdEvent::StartBlockQuote => {
                self.flush();
                self.add_span(Span::styled_str("│ ", dark));
                self.push_style(Style::color(Color::Gray).italic());
            },
            MdEvent::EndHeading => {
                self.pop_style();
                self.flush();
                self.add_line(Line::empty());
            },
            MdEvent::EndParagraph => {
                self.flush();
                self.add_line(Line::empty());
            },
            MdEvent::EndCodeBlock => {
                self.in_code = false;
                self.pop_style();
                self.flush();
                self.add_line(Line::single(Span::styled_str("└───", dark)));
            },
            MdEvent::EndList => {
                self.depth = if self.depth > 0 {
                    self.depth - 1
                } else {
                    0
                };
                if self.depth == 0 {
                    self.ordered = None;
                }
                self.flush();
            },
            MdEvent::EndItem => {
                self.flush();
            },
            MdEvent::EndEmphasis | MdEvent::EndStrong | MdEvent::EndStrikethrough
            | MdEvent::EndLink => {
                self.pop_style();
            },
            MdEvent::EndBlockQuote => {
                self.pop_style();
                self.flush();
            },
            MdEvent::Text(t) => {
                let style = self.top();
                if self.in_code {
                    self.add_code_text(t, style);
                } else {
                    let spans = style_with_mentions(t.as_str(), style);
                    let ghost before = self@;
                    let mut spans = spans;
                    self.current.append(&mut spans);
                    assert(span_views(self.current@) =~= before.current + mention_spans(
                        t@,
                        style,
                    ));
                }
            },
            MdEvent::Code(c) => {
                let t = crate::text::concat3("`", c.as_str(), "`");
                self.add_span(Span::styled(t, Style::color(Color::Green)));
            },
            MdEvent::SoftBreak => {
                self.add_span(Span::raw(" "));
            },
            MdEvent::HardBreak => {
                self.flush();
            },
            MdEvent::Rule => {
                self.flush();
                self.add_line(
                    Line::single(Span::styled_str("────────────────────────────────", dark)),
                );
            },
            MdEvent::Other => {},
        }
    }

    fn finish(self) -> (r: Vec<Line>)
        ensures
            line_views(r@) == strip_trailing_empty(
                if self@.current.len() > 0 {
                    self@.lines.push(self@.current)
                } else {
                    self@.lines
                },
            ),
    {
        let mut me = self;
        me.flush();
        let mut lines = me.lines;
        while lines.len() > 0 && lines[lines.len() - 1].spans.len() == 0
            invariant
                strip_trailing_empty(line_views(lines@)) == strip_trailing_empty(
                    if self@.current.len() > 0 {
                        self@.lines.push(self@.current)
                    } else {
                        self@.lines
                    },
                ),
            decreases lines.len(),
        {
            let ghost before = line_views(lines@);
            lines.pop();
            assert(line_views(lines@) =~= before.drop_last());
        }
        lines
    }
}

/// Renders a sequence of markdown events into styled lines.
pub fn render_events(events: &Vec<MdEvent>) -> (r: Vec<Line>)
    ensures
        line_views(r@) == md_lines(event_views(events@)),
{
    let mut rd = Renderer::new();
    let ghost ev = event_views(events@);
    for i in 0..events.len()
        invariant
            ev == event_views(events@),
            rd@ == md_run(ev.take(i as int)),
            rd@.depth <= i,
    {
        assert(ev.take(i + 1).drop_last() == ev.take(i as int));
        rd.step(&events[i]);
    }
    assert(ev.take(events.len() as int) == ev);
    rd.finish()
}

} // verus!

verus! {

// ---------------------------------------------------------------------------
// Parsing through pulldown-cmark
// ---------------------------------------------------------------------------

/// The events that `pulldown_cmark` yields for a text parsed with strike-through
/// enabled, as `MdEvent` values.
pub uninterp spec fn markdown_events(text: Seq<char>) -> Seq<MdEventView>;

/// Parses `text` with `pulldown_cmark::Parser::new_ext`, strike-through enabled,
/// and converts each event with `event_of`. The parse itself is not restated:
/// its result is named `markdown_events`.
#[verifier::external_body]
pub(crate) fn parse_markdown(text: &str) -> (r: Vec<MdEvent>)
    ensures
        event_views(r@) == markdown_events(text@),
{
    let mut options = pulldown_cmark::Options::empty();
    options.insert(pulldown_cmark::Options::ENABLE_STRIKETHROUGH);
    pulldown_cmark::Parser::new_ext(text, options).map(event_of).collect()
}

/// A markdown parse event of `pulldown_cmark`.
#[verifier::external_type_specification]
#[verifier::external_body]
pub struct ExEvent<'a>(pulldown_cmark::Event<'a>);

/// An element opened by a `pulldown_cmark` event.
#[verifier::external_type_specification]
#[verifier::external_body]
pub struct ExTag<'a>(pulldown_cmark::Tag<'a>);

/// An element closed by a `pulldown_cmark` event.
#[verifier::external_type_specification]
#[verifier::external_body]
pub struct ExTagEnd(pulldown_cmark::TagEnd);

/// How a `pulldown_cmark` code block is written.
#[verifier::external_type_specification]
#[verifier::external_body]
pub struct ExCodeBlockKind<'a>(pulldown_cmark::CodeBlockKind<'a>);

/// Converts one `pulldown_cmark::Event`.
#[verifier::external_body]
fn event_of(e: pulldown_cmark::Event<'_>) -> MdEvent {
    match e {
        pulldown_cmark::Event::Start(t) => start_of(t),
        pulldown_cmark::Event::End(t) => end_of(t),
        pulldown_cmark::Event::Text(s) => MdEvent::Text(s.to_string()),
        pulldown_cmark::Event::Code(s) => MdEvent::Code(s.to_string()),
        pulldown_cmark::Event::SoftBreak => MdEvent::SoftBreak,
        pulldown_cmark::Event::HardBreak => MdEvent::HardBreak,
        pulldown_cmark::Event::Rule => MdEvent::Rule,
        _ => MdEvent::Other,
    }
}

/// Converts a `pulldown_cmark::Tag` that opens an element.
#[verifier::external_body]
fn start_of(t: pulldown_cmark::Tag<'_>) -> MdEvent {
    match t {
        pulldown_cmark::Tag::Heading { level, .. } => MdEvent::StartHeading(level as u8),
        pulldown_cmark::Tag::Paragraph => MdEvent::StartParagraph,
        pulldown_cmark::Tag::CodeBlock(k) => MdEvent::StartCodeBlock(fence_of(k)),
        pulldown_cmark::Tag::List(n) => MdEvent::StartList(n),
        pulldown_cmark::Tag::Item => MdEvent::StartItem,
        pulldown_cmark::Tag::Emphasis => MdEvent::StartEmphasis,
        pulldown_cmark::Tag::Strong => MdEvent::StartStrong,
        pulldown_cmark::Tag::Strikethrough => MdEvent::StartStrikethrough,
        pulldown_cmark::Tag::Link { .. } => MdEvent::StartLink,
        pulldown_cmark::Tag::BlockQuote(_) => MdEvent::StartBlockQuote,
        _ => MdEvent::Other,
    }
}

/// Converts a `pulldown_cmark::CodeBlockKind`: the language of a fenced block.
#[verifier::external_body]
fn fence_of(k: pulldown_cmark::CodeBlockKind<'_>) -> Option<String> {
    match k {
        pulldown_cmark::CodeBlockKind::Fenced(lang) => Some(lang.to_string()),
        pulldown_cmark::CodeBlockKind::Indented => None,
    }
}

/// Converts a `pulldown_cmark::TagEnd`.
#[verifier::external_body]
fn end_of(t: pulldown_cmark::TagEnd) -> MdEvent {
    match t {
        pulldown_cmark::TagEnd::Heading(_) => MdEvent::EndHeading,
        pulldown_cmark::TagEnd::Paragraph => MdEvent::EndParagraph,
        pulldown_cmark::TagEnd::CodeBlock => MdEvent::EndCodeBlock,
        pulldown_cmark::TagEnd::List(_) => MdEvent::EndList,
        pulldown_cmark::TagEnd::Item => MdEvent::EndItem,
        pulldown_cmark::TagEnd::Emphasis => MdEvent::EndEmphasis,
        pulldown_cmark::TagEnd::Strong => MdEvent::EndStrong,
        pulldown_cmark::TagEnd::Strikethrough => MdEvent::EndStrikethrough,
        pulldown_cmark::TagEnd::Link => MdEvent::EndLink,
        pulldown_cmark::TagEnd::BlockQuote(_) => MdEvent::EndBlockQuote,
        _ => MdEvent::Other,
    }
}

/// Renders markdown text into styled lines: headings, emphasis, code, lists,
/// quotes, links and rules get their styles, `@mentions` are highlighted, and
/// no empty line is left at the end.
pub fn render_markdown(text: &str) -> (r: Vec<Line>)
    ensures
        line_views(r@) == md_lines(markdown_events(text@)),
{
    let events = parse_markdown(text);
    render_events(&events)
}

} // verus!
