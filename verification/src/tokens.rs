//! Passes over the tokens of a fragment: keeping what may stand in a line
//! of text, splitting off a leading title, unindenting paragraphs and
//! putting text in capitals.

use crate::events::{Event, EventView, Tag, TagView};
use crate::seqs::{first_index, group_views, lemma_first_index};
use crate::text::{to_uppercase, uppercase_of};
use vstd::prelude::*;

verus! {

/// What a token means to the reader of a single line of text.
pub enum InlineKind {
    /// Text and inline formatting: kept, unless inside a dropped run.
    Kept,
    /// Paragraph and block quote tags: passed over, their contents stay.
    Transparent,
    /// The start of any other run: its contents are dropped.
    OpensDropped,
    /// The end of any other run.
    ClosesDropped,
    /// Any other token: dropped.
    Dropped,
}

/// Whether a tag is inline formatting that a line of text may hold.
pub open spec fn is_inline_tag(t: TagView) -> bool {
    t is Emphasis || t is Strong || t is SmallCaps || t is Subscript || t is Superscript
        || t is Link
}

/// Whether a tag wraps blocks whose contents a line of text keeps.
pub open spec fn is_transparent_tag(t: TagView) -> bool {
    t is Paragraph || t is UnindentedParagraph || t is BlockQuote
}

/// The kind of a token for the reader of a line of text.
pub open spec fn inline_kind(e: EventView) -> InlineKind {
    match e {
        EventView::Text(_) => InlineKind::Kept,
        EventView::Start(t) => if is_inline_tag(t) {
            InlineKind::Kept
        } else if is_transparent_tag(t) {
            InlineKind::Transparent
        } else {
            InlineKind::OpensDropped
        },
        EventView::End(t) => if is_inline_tag(t) {
            InlineKind::Kept
        } else if is_transparent_tag(t) {
            InlineKind::Transparent
        } else {
            InlineKind::ClosesDropped
        },
        _ => InlineKind::Dropped,
    }
}

/// Whether the reader is inside a dropped run after these tokens.
pub open spec fn dropping_after(tokens: Seq<EventView>) -> bool
    decreases tokens.len(),
{
    if tokens.len() == 0 {
        false
    } else {
        match inline_kind(tokens.last()) {
            InlineKind::OpensDropped => true,
            InlineKind::ClosesDropped => false,
            _ => dropping_after(tokens.drop_last()),
        }
    }
}

/// The tokens that a line of text keeps: text and inline formatting outside
/// dropped runs.
pub open spec fn inline_only(tokens: Seq<EventView>) -> Seq<EventView>
    decreases tokens.len(),
{
    if tokens.len() == 0 {
        Seq::empty()
    } else if inline_kind(tokens.last()) is Kept && !dropping_after(tokens.drop_last()) {
        inline_only(tokens.drop_last()).push(tokens.last())
    } else {
        inline_only(tokens.drop_last())
    }
}

fn kind_of(e: &Event) -> (r: InlineKind)
    ensures
        r == inline_kind(e.deep_view()),
{
    match e {
        Event::Text(_) => InlineKind::Kept,
        Event::Start(t) => match t {
            Tag::Emphasis
            | Tag::Strong
            | Tag::SmallCaps
            | Tag::Subscript
            | Tag::Superscript
            | Tag::Link(_, _, _) => InlineKind::Kept,
            Tag::Paragraph | Tag::UnindentedParagraph | Tag::BlockQuote => InlineKind::Transparent,
            _ => InlineKind::OpensDropped,
        },
        Event::End(t) => match t {
            Tag::Emphasis
            | Tag::Strong
            | Tag::SmallCaps
            | Tag::Subscript
            | Tag::Superscript
            | Tag::Link(_, _, _) => InlineKind::Kept,
            Tag::Paragraph | Tag::UnindentedParagraph | Tag::BlockQuote => InlineKind::Transparent,
            _ => InlineKind::ClosesDropped,
        },
        _ => InlineKind::Dropped,
    }
}

/// Keeps of a fragment what may stand in a single line of text.
pub fn parse_inline_plain(tokens: Vec<Event>) -> (r: Vec<Event>)
    ensures
        r.deep_view() == inline_only(tokens.deep_view()),
{
    let ghost ev = tokens.deep_view();
    let mut out: Vec<Event> = Vec::new();
    let mut in_dropped_tag = false;
    let mut i: usize = 0;
    proof {
        broadcast use group_views;

    }
    while i < tokens.len()
        invariant
            i <= tokens.len(),
            ev == tokens.deep_view(),
            in_dropped_tag == dropping_after(ev.take(i as int)),
            out.deep_view() == inline_only(ev.take(i as int)),
        decreases tokens.len() - i,
    {
        proof {
            broadcast use group_views;

            assert(ev.take(i + 1).drop_last() =~= ev.take(i as int));
            assert(ev.take(i + 1).last() == tokens[i as int].deep_view());
        }
        match kind_of(&tokens[i]) {
            InlineKind::Kept => {
                if !in_dropped_tag {
                    out.push(tokens[i].clone());
                }
            },
            InlineKind::Transparent => {},
            InlineKind::OpensDropped => {
                in_dropped_tag = true;
            },
            InlineKind::ClosesDropped => {
                in_dropped_tag = false;
            },
            InlineKind::Dropped => {},
        }
        i += 1;
    }
    assert(ev.take(tokens.len() as int) =~= ev);
    out
}

/// A token with a paragraph tag turned into its unindented form.
pub open spec fn unindented(e: EventView) -> EventView {
    match e {
        EventView::Start(TagView::Paragraph) => EventView::Start(TagView::UnindentedParagraph),
        EventView::End(TagView::Paragraph) => EventView::End(TagView::UnindentedParagraph),
        _ => e,
    }
}

/// Makes every paragraph of a fragment unindented.
pub fn make_paragraphs_unindented(tokens: &mut Vec<Event>)
    ensures
        final(tokens).deep_view() == old(tokens).deep_view().map_values(
            |e: EventView| unindented(e),
        ),
{
    let ghost before = tokens.deep_view();
    let n = tokens.len();
    let mut i: usize = 0;
    while i < n
        invariant
            i <= n,
            n == tokens.len(),
            before.len() == n,
            forall|j: int| 0 <= j < i ==> tokens.deep_view()[j] == unindented(before[j]),
            forall|j: int| i <= j < n ==> tokens.deep_view()[j] == before[j],
        decreases n - i,
    {
        let ghost now = tokens.deep_view();
        assert(now[i as int] == tokens[i as int].deep_view());
        let replacement = match &tokens[i] {
            Event::Start(Tag::Paragraph) => Some(Event::Start(Tag::UnindentedParagraph)),
            Event::End(Tag::Paragraph) => Some(Event::End(Tag::UnindentedParagraph)),
            _ => None,
        };
        match replacement {
            Some(r) => {
                tokens.set(i, r);
            },
            None => {},
        }
        proof {
            assert forall|j: int| 0 <= j < i + 1 implies tokens.deep_view()[j] == unindented(
                before[j],
            ) by {
                if j < i {
                    assert(now[j] == unindented(before[j]));
                }
            }
            assert forall|j: int| i + 1 <= j < n implies tokens.deep_view()[j] == before[j] by {
                assert(now[j] == before[j]);
            }
        }
        i += 1;
    }
    assert(tokens.deep_view() =~= before.map_values(|e: EventView| unindented(e)));
}

/// Whether a fragment begins with a top-level heading.
pub open spec fn has_initial_title(tokens: Seq<EventView>) -> bool {
    tokens.len() > 0 && tokens[0] == EventView::Start(TagView::Heading(1))
}

/// The index at which the first top-level heading of a fragment ends, or the
/// length of the fragment when none ends.
pub open spec fn title_end(tokens: Seq<EventView>) -> int {
    first_index(tokens, |e: EventView| ends_title(e))
}

/// Whether a token is the end of a top-level heading.
pub open spec fn ends_title(e: EventView) -> bool {
    e == EventView::End(TagView::Heading(1))
}

/// A fragment whose leading title, if it has one, is closed.
pub open spec fn title_closed(tokens: Seq<EventView>) -> bool {
    has_initial_title(tokens) ==> title_end(tokens) < tokens.len()
}

/// The tokens of the leading title of a fragment, without the heading tags.
pub open spec fn initial_title(tokens: Seq<EventView>) -> Option<Seq<EventView>> {
    if has_initial_title(tokens) {
        Some(tokens.subrange(1, title_end(tokens)))
    } else {
        None
    }
}

/// What follows the leading title of a fragment; the whole fragment when it
/// has no leading title.
pub open spec fn after_initial_title(tokens: Seq<EventView>) -> Seq<EventView> {
    if has_initial_title(tokens) {
        tokens.skip(title_end(tokens) + 1)
    } else {
        tokens
    }
}

fn closes_title(e: &Event) -> (r: bool)
    ensures
        r == ends_title(e.deep_view()),
{
    match e {
        Event::End(Tag::Heading(h)) => *h == 1,
        _ => false,
    }
}

/// Splits a leading top-level heading off a fragment: returns the tokens of
/// the title and leaves what follows it.
pub fn remove_initial_title(tokens: &mut Vec<Event>) -> (r: Option<Vec<Event>>)
    requires
        title_closed(old(tokens).deep_view()),
    ensures
        r.deep_view() == initial_title(old(tokens).deep_view()),
        final(tokens).deep_view() == after_initial_title(old(tokens).deep_view()),
{
    let ghost ev = tokens.deep_view();
    let ghost closes = |e: EventView| ends_title(e);
    let n = tokens.len();
    let begins = n > 0 && match &tokens[0] {
        Event::Start(Tag::Heading(h)) => *h == 1,
        _ => false,
    };
    proof {
        if n > 0 {
            assert(ev[0] == tokens[0].deep_view());
        }
        lemma_first_index(ev, closes);
    }
    if !begins {
        return None;
    }
    let mut end: usize = 0;
    while end < n && !closes_title(&tokens[end])
        invariant
            end <= n,
            n == tokens.len(),
            ev == tokens.deep_view(),
            forall|j: int| 0 <= j < end ==> !ends_title(#[trigger] ev[j]),
        decreases n - end,
    {
        assert(ev[end as int] == tokens[end as int].deep_view());
        end += 1;
    }
    proof {
        if end < n {
            assert(ev[end as int] == tokens[end as int].deep_view());
        }
        crate::seqs::lemma_first_index_is(ev, closes, end as int);
    }
    let mut title: Vec<Event> = Vec::new();
    let mut rest: Vec<Event> = Vec::new();
    let mut i: usize = 1;
    proof {
        broadcast use group_views;

        assert(ev.subrange(1, 1) =~= Seq::empty());
    }
    while i < end
        invariant
            1 <= i <= end < n,
            n == tokens.len(),
            ev == tokens.deep_view(),
            title.deep_view() == ev.subrange(1, i as int),
        decreases end - i,
    {
        title.push(tokens[i].clone());
        proof {
            broadcast use group_views;

            assert(ev.subrange(1, i + 1) =~= ev.subrange(1, i as int).push(
                tokens[i as int].deep_view(),
            ));
        }
        i += 1;
    }
    let mut k: usize = end + 1;
    proof {
        broadcast use group_views;

        assert(ev.subrange(end + 1, end + 1) =~= Seq::empty());
    }
    while k < n
        invariant
            end + 1 <= k <= n,
            n == tokens.len(),
            ev == tokens.deep_view(),
            rest.deep_view() == ev.subrange(end + 1, k as int),
        decreases n - k,
    {
        rest.push(tokens[k].clone());
        proof {
            broadcast use group_views;

            assert(ev.subrange(end + 1, k + 1) =~= ev.subrange(end + 1, k as int).push(
                tokens[k as int].deep_view(),
            ));
        }
        k += 1;
    }
    assert(ev.subrange(end + 1, n as int) =~= ev.skip(end + 1));
    *tokens = rest;
    Some(title)
}

/// Whether the text inside a run with this tag keeps its case.
pub open spec fn keeps_case(t: TagView) -> bool {
    t is CodeBlock || t is List || t is FootnoteDefinition || t is Link || t is Image
        || t is SmallCaps || t is Subscript || t is Superscript || t is FlattenedFootnote
}

/// How many case-keeping runs are open after these tokens, counting a closing
/// tag without an opening one as minus one.
pub open spec fn case_depth(tokens: Seq<EventView>) -> int
    decreases tokens.len(),
{
    if tokens.len() == 0 {
        0
    } else {
        case_depth(tokens.drop_last()) + match tokens.last() {
            EventView::Start(t) => if keeps_case(t) {
                1int
            } else {
                0int
            },
            EventView::End(t) => if keeps_case(t) {
                -1int
            } else {
                0int
            },
            _ => 0int,
        }
    }
}

/// The fragment with its text in capitals, but for the text inside code,
/// lists, footnotes, links, images, small caps, subscript and superscript.
pub open spec fn in_capitals(tokens: Seq<EventView>) -> Seq<EventView> {
    Seq::new(
        tokens.len(),
        |i: int|
            match tokens[i] {
                EventView::Text(t) => if case_depth(tokens.take(i)) == 0 {
                    EventView::Text(uppercase_of(t))
                } else {
                    tokens[i]
                },
                e => e,
            },
    )
}

fn tag_keeps_case(t: &Tag) -> (r: bool)
    ensures
        r == keeps_case(t.deep_view()),
{
    match t {
        Tag::CodeBlock(_) => true,
        Tag::List(_) => true,
        Tag::FootnoteDefinition(_) => true,
        Tag::Link(_, _, _) => true,
        Tag::Image(_, _, _) => true,
        Tag::SmallCaps => true,
        Tag::Subscript => true,
        Tag::Superscript => true,
        Tag::FlattenedFootnote => true,
        _ => false,
    }
}

/// Puts the text of a fragment in capitals, where its case is not kept.
pub fn make_uppercase(tokens: &mut Vec<Event>)
    ensures
        final(tokens).deep_view() == in_capitals(old(tokens).deep_view()),
{
    let ghost before = tokens.deep_view();
    let n = tokens.len();
    let mut opened: usize = 0;
    let mut closed: usize = 0;
    let mut i: usize = 0;
    while i < n
        invariant
            i <= n,
            n == tokens.len(),
            before.len() == n,
            opened <= i,
            closed <= i,
            opened - closed == case_depth(before.take(i as int)),
            forall|j: int| 0 <= j < i ==> tokens.deep_view()[j] == in_capitals(before)[j],
            forall|j: int| i <= j < n ==> tokens.deep_view()[j] == before[j],
        decreases n - i,
    {
        let ghost now = tokens.deep_view();
        proof {
            assert(now[i as int] == tokens[i as int].deep_view());
            assert(before.take(i + 1).drop_last() =~= before.take(i as int));
            assert(before.take(i + 1).last() == before[i as int]);
        }
        let mut replacement: Option<Event> = None;
        match &tokens[i] {
            Event::Text(t) => {
                if opened == closed {
                    replacement = Some(Event::Text(to_uppercase(t.as_str())));
                }
            },
            Event::Start(t) => {
                if tag_keeps_case(t) {
                    opened += 1;
                }
            },
            Event::End(t) => {
                if tag_keeps_case(t) {
                    closed += 1;
                }
            },
            _ => {},
        }
        proof {
            assert(match replacement {
                Some(r) => r.deep_view() == in_capitals(before)[i as int],
                None => before[i as int] == in_capitals(before)[i as int],
            });
        }
        match replacement {
            Some(r) => {
                tokens.set(i, r);
            },
            None => {},
        }
        proof {
            assert forall|j: int| 0 <= j < i + 1 implies tokens.deep_view()[j] == in_capitals(
                before,
            )[j] by {
                if j < i {
                    assert(now[j] == in_capitals(before)[j]);
                }
            }
            assert forall|j: int| i + 1 <= j < n implies tokens.deep_view()[j] == before[j] by {
                assert(now[j] == before[j]);
            }
        }
        i += 1;
    }
    assert(tokens.deep_view() =~= in_capitals(before));
}

/// Whether the leading title of a fragment, if it has one, is closed.
pub fn is_title_closed(tokens: &Vec<Event>) -> (r: bool)
    ensures
        r == title_closed(tokens.deep_view()),
{
    let ghost ev = tokens.deep_view();
    let ghost closes = |e: EventView| ends_title(e);
    let n = tokens.len();
    let begins = n > 0 && match &tokens[0] {
        Event::Start(Tag::Heading(h)) => *h == 1,
        _ => false,
    };
    proof {
        if n > 0 {
            assert(ev[0] == tokens[0].deep_view());
        }
    }
    if !begins {
        return true;
    }
    let mut end: usize = 0;
    while end < n && !closes_title(&tokens[end])
        invariant
            end <= n,
            n == tokens.len(),
            ev == tokens.deep_view(),
            forall|j: int| 0 <= j < end ==> !ends_title(#[trigger] ev[j]),
        decreases n - end,
    {
        assert(ev[end as int] == tokens[end as int].deep_view());
        end += 1;
    }
    proof {
        if end < n {
            assert(ev[end as int] == tokens[end as int].deep_view());
        }
        crate::seqs::lemma_first_index_is(ev, closes, end as int);
    }
    end < n
}

} // verus!
