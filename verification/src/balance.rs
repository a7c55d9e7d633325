//! Why every division that the accumulator makes is a balanced region that
//! closes itself and nothing else, and what that gives the builder.

use crate::assembler::{titlepage, titlepage_subtitle};
use crate::book_event::{
    balanced, count_of, lemma_balanced_on_any_stack, lemma_count_of_concat,
    lemma_stack_after_concat, lifted, stack_after, BookEventView, Region,
};
use crate::sections::{
    chapter_close, chapter_level, divide_fold, divide_step, divided, step_level_of, DivState,
    StepLevel,
};
use crate::builder::{
    ancillary, authors_marker, body_of, colophon_division, copyright_division,
    dedication_division, epigraph, epigraph_source, epigraph_text, halftitle_division,
    headed_division, label_marker, title_of, tokens_or_none,
};
use crate::events::{EventView, TagView};
use crate::roles::{NumberFormat, SemanticRole, TitlePageContributorRole};
use crate::tokens::{in_capitals, inline_only};
use vstd::prelude::*;

verus! {

/// Whether no event of a stream marks the start of a matter.
pub open spec fn no_matter(stream: Seq<BookEventView>) -> bool {
    forall|i: int| 0 <= i < stream.len() ==> !(#[trigger] stream[i]).is_matter()
}

/// How many divisions of `role` end in a stream.
pub open spec fn closings(stream: Seq<BookEventView>, role: SemanticRole) -> nat {
    count_of(stream, BookEventView::EndSemantic(role))
}

/// Whether a stream leaves every stack of open regions as it found it.
pub open spec fn keeps_stack(stream: Seq<BookEventView>) -> bool {
    forall|t: Seq<Region>| #[trigger] stack_after(stream, t) == Some(t)
}

/// A calm stream leaves the open regions alone and holds no matter marker:
/// it can stand anywhere in a book without disturbing what is around it.
pub open spec fn calm(stream: Seq<BookEventView>) -> bool {
    keeps_stack(stream) && no_matter(stream)
}

/// One or none, as a number.
pub open spec fn one_if(b: bool) -> nat {
    if b {
        1
    } else {
        0
    }
}

/// Whether an event opens and closes nothing and marks no matter.
pub open spec fn neutral(e: BookEventView) -> bool {
    e.opens() is None && e.closes() is None && !e.is_matter()
}

/// The empty stream is calm and closes nothing.
pub proof fn lemma_calm_empty(role: SemanticRole)
    ensures
        calm(Seq::<BookEventView>::empty()),
        closings(Seq::<BookEventView>::empty(), role) == 0,
{
    assert forall|t: Seq<Region>| #[trigger]
        stack_after(Seq::<BookEventView>::empty(), t) == Some(t) by {}
}

/// Two calm streams in a row are calm, and close what each closes.
pub proof fn lemma_calm_joined(a: Seq<BookEventView>, b: Seq<BookEventView>, role: SemanticRole)
    requires
        calm(a),
        calm(b),
    ensures
        calm(a + b),
        closings(a + b, role) == closings(a, role) + closings(b, role),
{
    assert forall|t: Seq<Region>| #[trigger] stack_after(a + b, t) == Some(t) by {
        assert(stack_after(a, t) == Some(t));
        assert(stack_after(b, t) == Some(t));
        lemma_stack_after_concat(a, b, t);
    }
    lemma_count_of_concat(a, b, BookEventView::EndSemantic(role));
}

/// A stream of neutral events is calm and closes nothing.
pub proof fn lemma_calm_neutral(a: Seq<BookEventView>, role: SemanticRole)
    requires
        forall|i: int| 0 <= i < a.len() ==> neutral(#[trigger] a[i]),
    ensures
        calm(a),
        closings(a, role) == 0,
    decreases a.len(),
{
    if a.len() == 0 {
        assert(a =~= Seq::empty());
        lemma_calm_empty(role);
    } else {
        let rest = a.drop_last();
        assert forall|i: int| 0 <= i < rest.len() implies neutral(#[trigger] rest[i]) by {
            assert(rest[i] == a[i]);
        }
        lemma_calm_neutral(rest, role);
        let e = a.last();
        assert(neutral(a[a.len() - 1]));
        assert(a =~= rest + seq![e]);
        assert forall|t: Seq<Region>| #[trigger] stack_after(seq![e], t) == Some(t) by {
            reveal_with_fuel(stack_after, 2);
            assert(seq![e].drop_first().len() == 0);
        }
        assert(no_matter(seq![e]));
        lemma_count_of_one(e, BookEventView::EndSemantic(role));
        lemma_calm_joined(rest, seq![e], role);
    }
}

/// Pass-through tokens are calm and close nothing.
pub proof fn lemma_calm_lifted(tokens: Seq<EventView>, role: SemanticRole)
    ensures
        calm(lifted(tokens)),
        closings(lifted(tokens), role) == 0,
{
    lemma_calm_neutral(lifted(tokens), role);
}

/// The count of an event in a stream of one event.
pub proof fn lemma_count_of_one(e: BookEventView, x: BookEventView)
    ensures
        count_of(seq![e], x) == one_if(e == x),
{
    reveal_with_fuel(count_of, 2);
    assert(seq![e].drop_last().len() == 0);
}

/// A region around a calm stream is calm; it closes what the stream closes,
/// and the division that its own end marker closes.
pub proof fn lemma_calm_region(
    open: BookEventView,
    inside: Seq<BookEventView>,
    close: BookEventView,
    role: SemanticRole,
)
    requires
        open.opens() is Some,
        close.closes() == open.opens(),
        calm(inside),
    ensures
        calm(seq![open] + inside + seq![close]),
        closings(seq![open] + inside + seq![close], role) == closings(inside, role) + one_if(
            close == BookEventView::EndSemantic(role),
        ),
{
    let r = open.opens()->0;
    let whole = seq![open] + inside + seq![close];
    assert forall|t: Seq<Region>| #[trigger] stack_after(whole, t) == Some(t) by {
        assert(stack_after(seq![open], t) == Some(t.push(r))) by {
            reveal_with_fuel(stack_after, 2);
            assert(seq![open].drop_first().len() == 0);
        }
        assert(stack_after(inside, t.push(r)) == Some(t.push(r)));
        lemma_stack_after_concat(seq![open], inside, t);
        assert(stack_after(seq![close], t.push(r)) == Some(t)) by {
            reveal_with_fuel(stack_after, 2);
            assert(seq![close].drop_first().len() == 0);
            assert(t.push(r).drop_last() =~= t);
        }
        lemma_stack_after_concat(seq![open] + inside, seq![close], t);
    }
    let x = BookEventView::EndSemantic(role);
    lemma_count_of_one(open, x);
    lemma_count_of_one(close, x);
    lemma_count_of_concat(seq![open], inside, x);
    lemma_count_of_concat(seq![open] + inside, seq![close], x);
    assert(no_matter(whole));
}

/// A headed division is calm, and closes one division: its own.
pub proof fn lemma_headed_division(
    role: SemanticRole,
    title: Option<Seq<EventView>>,
    label: Seq<BookEventView>,
    authors: Seq<Seq<char>>,
    text: Seq<EventView>,
    other: SemanticRole,
)
    requires
        forall|i: int| 0 <= i < label.len() ==> (#[trigger] label[i]) is DivisionHeaderLabel,
    ensures
        calm(headed_division(role, title, label, authors, text)),
        closings(headed_division(role, title, label, authors, text), other) == one_if(
            role == other,
        ),
{
    let d = headed_division(role, title, label, authors, text);
    let in_header = lifted(tokens_or_none(title)) + label + authors_marker(authors);
    let header = seq![BookEventView::BeginDivisionHeader(false)] + in_header + seq![
        BookEventView::EndDivisionHeader(false),
    ];
    let inside = header + lifted(text);
    assert(d =~= seq![BookEventView::BeginSemantic(role)] + inside + seq![
        BookEventView::EndSemantic(role),
    ]);
    lemma_calm_neutral(in_header, other);
    lemma_calm_region(
        BookEventView::BeginDivisionHeader(false),
        in_header,
        BookEventView::EndDivisionHeader(false),
        other,
    );
    lemma_calm_lifted(text, other);
    lemma_calm_joined(header, lifted(text), other);
    lemma_calm_region(
        BookEventView::BeginSemantic(role),
        inside,
        BookEventView::EndSemantic(role),
        other,
    );
}

/// A division that the accumulator makes of a fragment is calm, and closes
/// one division: its own.
pub proof fn lemma_ancillary(
    role: SemanticRole,
    text: Seq<EventView>,
    title: Option<Seq<EventView>>,
    number: Option<u8>,
    number_format: NumberFormat,
    authors: Seq<Seq<char>>,
    other: SemanticRole,
)
    ensures
        calm(ancillary(role, text, title, number, number_format, authors)),
        closings(ancillary(role, text, title, number, number_format, authors), other) == one_if(
            role == other,
        ),
{
    lemma_headed_division(
        role,
        title_of(text, title),
        label_marker(role, number, number_format),
        authors,
        body_of(text, title),
        other,
    );
}

/// An epigraph is calm, and closes one division: an epigraph.
pub proof fn lemma_epigraph(
    text: Seq<EventView>,
    source: Option<Seq<EventView>>,
    other: SemanticRole,
)
    ensures
        calm(epigraph(text, source)),
        closings(epigraph(text, source), other) == one_if(SemanticRole::Epigraph == other),
{
    let d = epigraph(text, source);
    let body = seq![BookEventView::BeginEpigraphText] + lifted(epigraph_text(text)) + seq![
        BookEventView::EndEpigraphText,
    ];
    let inside = body + epigraph_source(source);
    assert(d =~= seq![BookEventView::BeginSemantic(SemanticRole::Epigraph)] + inside + seq![
        BookEventView::EndSemantic(SemanticRole::Epigraph),
    ]);
    lemma_calm_lifted(epigraph_text(text), other);
    lemma_calm_region(
        BookEventView::BeginEpigraphText,
        lifted(epigraph_text(text)),
        BookEventView::EndEpigraphText,
        other,
    );
    match source {
        Some(s) => {
            lemma_calm_lifted(inline_only(s), other);
            lemma_calm_region(
                BookEventView::BeginEpigraphSource,
                lifted(inline_only(s)),
                BookEventView::EndEpigraphSource,
                other,
            );
        },
        None => {
            lemma_calm_empty(other);
        },
    }
    lemma_calm_joined(body, epigraph_source(source), other);
    lemma_calm_region(
        BookEventView::BeginSemantic(SemanticRole::Epigraph),
        inside,
        BookEventView::EndSemantic(SemanticRole::Epigraph),
        other,
    );
}

/// A copyright page is calm, and closes one division: a copyright page.
pub proof fn lemma_copyright_division(
    text: Seq<EventView>,
    title: Option<Seq<EventView>>,
    other: SemanticRole,
)
    ensures
        calm(copyright_division(text, title)),
        closings(copyright_division(text, title), other) == one_if(
            SemanticRole::Copyrightpage == other,
        ),
{
    let d = copyright_division(text, title);
    let inside = d.subrange(1, d.len() - 1);
    assert(d =~= seq![BookEventView::BeginSemantic(SemanticRole::Copyrightpage)] + inside + seq![
        BookEventView::EndSemantic(SemanticRole::Copyrightpage),
    ]);
    lemma_calm_neutral(inside, other);
    lemma_calm_region(
        BookEventView::BeginSemantic(SemanticRole::Copyrightpage),
        inside,
        BookEventView::EndSemantic(SemanticRole::Copyrightpage),
        other,
    );
}

/// A halftitle is calm, and closes one division: a halftitle.
pub proof fn lemma_halftitle_division(title: Seq<EventView>, other: SemanticRole)
    ensures
        calm(halftitle_division(title)),
        closings(halftitle_division(title), other) == one_if(SemanticRole::Halftitle == other),
{
    let d = halftitle_division(title);
    let line = lifted(in_capitals(inline_only(title)));
    let header = seq![BookEventView::BeginDivisionHeader(false)] + line + seq![
        BookEventView::EndDivisionHeader(false),
    ];
    assert(d =~= seq![BookEventView::BeginSemantic(SemanticRole::Halftitle)] + header + seq![
        BookEventView::EndSemantic(SemanticRole::Halftitle),
    ]);
    lemma_calm_lifted(in_capitals(inline_only(title)), other);
    lemma_calm_region(
        BookEventView::BeginDivisionHeader(false),
        line,
        BookEventView::EndDivisionHeader(false),
        other,
    );
    lemma_calm_region(
        BookEventView::BeginSemantic(SemanticRole::Halftitle),
        header,
        BookEventView::EndSemantic(SemanticRole::Halftitle),
        other,
    );
}

/// A dedication is calm, and closes one division: a dedication.
pub proof fn lemma_dedication_division(text: Seq<EventView>, other: SemanticRole)
    ensures
        calm(dedication_division(text)),
        closings(dedication_division(text), other) == one_if(SemanticRole::Dedication == other),
{
    lemma_calm_lifted(inline_only(text), other);
    lemma_calm_region(
        BookEventView::BeginSemantic(SemanticRole::Dedication),
        lifted(inline_only(text)),
        BookEventView::EndSemantic(SemanticRole::Dedication),
        other,
    );
}

/// A colophon is calm, and closes one division: a colophon.
pub proof fn lemma_colophon_division(text: Seq<EventView>, other: SemanticRole)
    ensures
        calm(colophon_division(text)),
        closings(colophon_division(text), other) == one_if(SemanticRole::Colophon == other),
{
    let d = colophon_division(text);
    let header = seq![BookEventView::BeginDivisionHeader(false)] + Seq::empty() + seq![
        BookEventView::EndDivisionHeader(false),
    ];
    let paragraph = d.subrange(3, d.len() - 1);
    let inside = header + paragraph;
    assert(d =~= seq![BookEventView::BeginSemantic(SemanticRole::Colophon)] + inside + seq![
        BookEventView::EndSemantic(SemanticRole::Colophon),
    ]);
    lemma_calm_empty(other);
    lemma_calm_region(
        BookEventView::BeginDivisionHeader(false),
        Seq::empty(),
        BookEventView::EndDivisionHeader(false),
        other,
    );
    lemma_calm_neutral(paragraph, other);
    lemma_calm_joined(header, paragraph, other);
    lemma_calm_region(
        BookEventView::BeginSemantic(SemanticRole::Colophon),
        inside,
        BookEventView::EndSemantic(SemanticRole::Colophon),
        other,
    );
}

/// A titlepage is calm, and closes no division.
pub proof fn lemma_titlepage(
    title: Seq<EventView>,
    subtitle: Option<Seq<EventView>>,
    contributors: Seq<(TitlePageContributorRole, Seq<Seq<char>>)>,
    other: SemanticRole,
)
    ensures
        calm(titlepage(title, subtitle, contributors)),
        closings(titlepage(title, subtitle, contributors), other) == 0,
{
    let d = titlepage(title, subtitle, contributors);
    let title_region = seq![BookEventView::BeginTitlePageTitle] + lifted(inline_only(title))
        + seq![BookEventView::EndTitlePageTitle];
    let table = seq![BookEventView::TitlePageContributors(contributors)];
    let inside = title_region + titlepage_subtitle(subtitle) + table;
    assert(d =~= seq![BookEventView::BeginTitlePage] + inside + seq![BookEventView::EndTitlePage]);
    lemma_calm_lifted(inline_only(title), other);
    lemma_calm_region(
        BookEventView::BeginTitlePageTitle,
        lifted(inline_only(title)),
        BookEventView::EndTitlePageTitle,
        other,
    );
    match subtitle {
        Some(s) => {
            lemma_calm_lifted(inline_only(s), other);
            lemma_calm_region(
                BookEventView::BeginTitlePageSubTitle,
                lifted(inline_only(s)),
                BookEventView::EndTitlePageSubTitle,
                other,
            );
        },
        None => {
            lemma_calm_empty(other);
        },
    }
    lemma_calm_neutral(table, other);
    lemma_calm_joined(title_region, titlepage_subtitle(subtitle), other);
    lemma_calm_joined(title_region + titlepage_subtitle(subtitle), table, other);
    lemma_calm_region(BookEventView::BeginTitlePage, inside, BookEventView::EndTitlePage, other);
}

/// Whether a heading of this level opens a division.
pub open spec fn opens_division(level: StepLevel, h: u32) -> bool {
    h == chapter_level(level) || h == 1
}

/// Which division heading is open after these tokens, if the headings that
/// open divisions have so far come in pairs: a start, then the end of the
/// same level, and no other start in between. `None` where they have not.
pub open spec fn open_heading(level: StepLevel, events: Seq<EventView>) -> Option<Option<u32>>
    decreases events.len(),
{
    if events.len() == 0 {
        Some(None)
    } else {
        match open_heading(level, events.drop_last()) {
            None => None,
            Some(open) => match events.last() {
                EventView::Start(TagView::Heading(h)) => if opens_division(level, h) {
                    if open is None {
                        Some(Some(h))
                    } else {
                        None
                    }
                } else {
                    Some(open)
                },
                EventView::End(TagView::Heading(h)) => if opens_division(level, h) {
                    if open == Some(h) {
                        Some(None)
                    } else {
                        None
                    }
                } else {
                    Some(open)
                },
                _ => Some(open),
            },
        }
    }
}

/// Whether the headings that open divisions come in pairs, as the headings
/// of a manuscript do: every start is followed by its end before the next
/// start, and none is left open.
pub open spec fn headings_paired(events: Seq<EventView>) -> bool {
    open_heading(step_level_of(events), events) == Some(None::<u32>)
}

/// The regions that are open in the divided mainmatter, by what the
/// classifier remembers and which heading is open.
pub open spec fn open_regions(in_chapter: bool, open: Option<u32>, level: StepLevel) -> Seq<Region> {
    match open {
        None => if in_chapter {
            seq![Region::Semantic(SemanticRole::Chapter)]
        } else {
            Seq::empty()
        },
        Some(h) => if h == chapter_level(level) {
            seq![Region::Semantic(SemanticRole::Chapter), Region::DivisionHeader]
        } else {
            seq![Region::Semantic(SemanticRole::Part), Region::DivisionHeader]
        },
    }
}

/// While the headings come in pairs, the classifier's output has exactly the
/// regions open that its memory says, holds no matter marker, and closes
/// chapters and parts only.
pub proof fn lemma_divide_fold_regions(level: StepLevel, events: Seq<EventView>, role: SemanticRole)
    requires
        open_heading(level, events) is Some,
        role != SemanticRole::Chapter,
        role != SemanticRole::Part,
    ensures
        stack_after(divide_fold(level, events).1, Seq::empty()) == Some(
            open_regions(
                divide_fold(level, events).0.in_chapter,
                open_heading(level, events)->0,
                level,
            ),
        ),
        open_heading(level, events)->0 matches Some(h) ==> opens_division(level, h) && (divide_fold(
            level,
            events,
        ).0.in_chapter <==> h == chapter_level(level)),
        no_matter(divide_fold(level, events).1),
        closings(divide_fold(level, events).1, role) == 0,
    decreases events.len(),
{
    if events.len() == 0 {
        assert(stack_after(Seq::<BookEventView>::empty(), Seq::empty()) == Some(
            Seq::<Region>::empty(),
        ));
    } else {
        let rest = events.drop_last();
        lemma_divide_fold_regions(level, rest, role);
        let (st, out) = divide_fold(level, rest);
        let (st2, more) = divide_step(level, st, events.last());
        let open = open_heading(level, rest)->0;
        let before = open_regions(st.in_chapter, open, level);
        let after = open_regions(st2.in_chapter, open_heading(level, events)->0, level);
        lemma_stack_after_concat(out, more, Seq::empty());
        assert(stack_after(more, before) == Some(after)) by {
            lemma_step_regions(level, st, events.last(), open);
        }
        lemma_count_of_concat(out, more, BookEventView::EndSemantic(role));
        assert(closings(more, role) == 0) by {
            lemma_count_of_none(more, BookEventView::EndSemantic(role));
        }
        assert(no_matter(out + more));
    }
}

/// What one token does to the open regions.
proof fn lemma_step_regions(level: StepLevel, st: DivState, e: EventView, open: Option<u32>)
    requires
        open matches Some(h) ==> opens_division(level, h) && (st.in_chapter <==> h
            == chapter_level(level)),
        match e {
            EventView::Start(TagView::Heading(h)) => opens_division(level, h) ==> open is None,
            EventView::End(TagView::Heading(h)) => opens_division(level, h) ==> open == Some(h),
            _ => true,
        },
    ensures
        stack_after(divide_step(level, st, e).1, open_regions(st.in_chapter, open, level)) == Some(
            open_regions(
                divide_step(level, st, e).0.in_chapter,
                match e {
                    EventView::Start(TagView::Heading(h)) => if opens_division(level, h) {
                        Some(h)
                    } else {
                        open
                    },
                    EventView::End(TagView::Heading(h)) => if opens_division(level, h) {
                        None
                    } else {
                        open
                    },
                    _ => open,
                },
                level,
            ),
        ),
{
    let more = divide_step(level, st, e).1;
    let before = open_regions(st.in_chapter, open, level);
    let chapter = Region::Semantic(SemanticRole::Chapter);
    let part = Region::Semantic(SemanticRole::Part);
    match e {
        EventView::Start(TagView::Heading(h)) => {
            if opens_division(level, h) {
                let closing = chapter_close(st.in_chapter);
                let opening = more.skip(closing.len() as int);
                assert(more =~= closing + opening);
                assert(stack_after(closing, before) == Some(Seq::<Region>::empty())) by {
                    reveal_with_fuel(stack_after, 2);
                    if st.in_chapter {
                        assert(closing.drop_first().len() == 0);
                        assert(before.drop_last() =~= Seq::<Region>::empty());
                    }
                }
                lemma_stack_after_concat(closing, opening, before);
                assert(stack_after(opening, Seq::empty()) == Some(
                    if h == chapter_level(level) {
                        seq![chapter, Region::DivisionHeader]
                    } else {
                        seq![part, Region::DivisionHeader]
                    },
                )) by {
                    lemma_read_three(opening, Seq::empty());
                }
            } else {
                lemma_read_one(more, before);
            }
        },
        EventView::End(TagView::Heading(h)) => {
            if opens_division(level, h) {
                if h == chapter_level(level) {
                    lemma_read_one(more, before);
                    assert(before.drop_last() =~= seq![chapter]);
                } else {
                    lemma_read_two(more, before);
                    assert(before.drop_last() =~= seq![part]);
                    lemma_read_one(seq![more[1]], seq![part]);
                    assert(seq![part].drop_last() =~= Seq::<Region>::empty());
                }
            } else {
                lemma_read_one(more, before);
            }
        },
        _ => {
            lemma_read_one(more, before);
        },
    }
}

/// Reading a stream of one event.
proof fn lemma_read_one(a: Seq<BookEventView>, s: Seq<Region>)
    requires
        a.len() == 1,
    ensures
        stack_after(a, s) == if a[0].opens() is Some {
            Some(s.push(a[0].opens()->0))
        } else if a[0].closes() is Some {
            if s.len() > 0 && s.last() == a[0].closes()->0 {
                Some(s.drop_last())
            } else {
                None
            }
        } else {
            Some(s)
        },
{
    reveal_with_fuel(stack_after, 2);
    assert(a.drop_first().len() == 0);
}

/// Reading a stream of two events, the first of which closes the top of
/// the stack.
proof fn lemma_read_two(a: Seq<BookEventView>, s: Seq<Region>)
    requires
        a.len() == 2,
        a[0].opens() is None,
        a[0].closes() is Some,
        s.len() > 0 && s.last() == a[0].closes()->0,
    ensures
        stack_after(a, s) == stack_after(seq![a[1]], s.drop_last()),
{
    assert(a.drop_first() =~= seq![a[1]]);
}

/// Reading a stream of three events of which the first two open regions and
/// the third is neutral.
proof fn lemma_read_three(a: Seq<BookEventView>, s: Seq<Region>)
    requires
        a.len() == 3,
        a[0].opens() is Some,
        a[1].opens() is Some,
        neutral(a[2]),
    ensures
        stack_after(a, s) == Some(s.push(a[0].opens()->0).push(a[1].opens()->0)),
{
    reveal_with_fuel(stack_after, 4);
    assert(a.drop_first().len() == 2);
    assert(a.drop_first()[0] == a[1]);
    assert(a.drop_first().drop_first().len() == 1);
    assert(a.drop_first().drop_first()[0] == a[2]);
    assert(a.drop_first().drop_first().drop_first().len() == 0);
}

/// A stream in which an event does not occur counts none of it.
pub proof fn lemma_count_of_none(a: Seq<BookEventView>, x: BookEventView)
    requires
        forall|i: int| 0 <= i < a.len() ==> #[trigger] a[i] != x,
    ensures
        count_of(a, x) == 0,
    decreases a.len(),
{
    if a.len() > 0 {
        assert(a.last() == a[a.len() - 1]);
        assert forall|i: int| 0 <= i < a.drop_last().len() implies #[trigger] a.drop_last()[i]
            != x by {
            assert(a.drop_last()[i] == a[i]);
        }
        lemma_count_of_none(a.drop_last(), x);
    }
}

/// The mainmatter in divisions is calm where its headings come in pairs,
/// and closes chapters and parts only.
pub proof fn lemma_divided_is_calm(events: Seq<EventView>, role: SemanticRole)
    requires
        headings_paired(events),
        role != SemanticRole::Chapter,
        role != SemanticRole::Part,
    ensures
        calm(divided(events)),
        closings(divided(events), role) == 0,
{
    let level = step_level_of(events);
    lemma_divide_fold_regions(level, events, role);
    let (st, out) = divide_fold(level, events);
    let closing = chapter_close(st.in_chapter);
    lemma_stack_after_concat(out, closing, Seq::empty());
    assert(stack_after(closing, open_regions(st.in_chapter, None, level)) == Some(
        Seq::<Region>::empty(),
    )) by {
        reveal_with_fuel(stack_after, 2);
        if st.in_chapter {
            assert(closing.drop_first().len() == 0);
            assert(open_regions(st.in_chapter, None, level).drop_last() =~= Seq::<Region>::empty());
        }
    }
    assert(balanced(divided(events)));
    assert forall|t: Seq<Region>| #[trigger] stack_after(divided(events), t) == Some(t) by {
        lemma_balanced_on_any_stack(divided(events), t);
    }
    lemma_count_of_concat(out, closing, BookEventView::EndSemantic(role));
    lemma_count_of_none(closing, BookEventView::EndSemantic(role));
    assert(no_matter(divided(events)));
}

} // verus!
