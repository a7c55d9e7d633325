//! The division classifier: decides from the headings of the mainmatter
//! whether top-level headings are parts or chapters, and rewrites the tokens
//! into numbered, region-marked divisions.

use crate::book_event::{BookEvent, BookEventView};
use crate::events::{Event, EventView, Tag, TagView};
use crate::roles::{NumberFormat, SemanticRole};
use crate::seqs::group_views;
use vstd::prelude::*;
use vstd::string::*;

verus! {

/// What a top-level heading of the mainmatter stands for.
#[derive(Debug, PartialEq, Eq, Structural, Clone, Copy)]
pub enum StepLevel {
    /// Level 1 headings open parts, level 2 headings open chapters.
    TopToParts,
    /// Level 1 headings open chapters.
    TopToChapter,
}

/// How many headings of `level` start in `events`.
pub open spec fn heading_count(events: Seq<EventView>, level: u32) -> nat
    decreases events.len(),
{
    if events.len() == 0 {
        0
    } else {
        heading_count(events.drop_last(), level) + if events.last() == EventView::Start(
            TagView::Heading(level),
        ) {
            1nat
        } else {
            0nat
        }
    }
}

/// The decision: parts exist exactly when level 2 headings occur.
pub open spec fn step_level_of(events: Seq<EventView>) -> StepLevel {
    if heading_count(events, 2) > 0 {
        StepLevel::TopToParts
    } else {
        StepLevel::TopToChapter
    }
}

/// The heading level that opens a chapter.
pub open spec fn chapter_level(level: StepLevel) -> u32 {
    match level {
        StepLevel::TopToParts => 2,
        StepLevel::TopToChapter => 1,
    }
}

/// How far other headings move down.
pub open spec fn heading_shift(level: StepLevel) -> u32 {
    match level {
        StepLevel::TopToParts => 2,
        StepLevel::TopToChapter => 1,
    }
}

/// How many chapters the mainmatter has.
pub open spec fn chapter_headings(events: Seq<EventView>) -> nat {
    heading_count(events, chapter_level(step_level_of(events)))
}

/// How many parts the mainmatter has.
pub open spec fn part_headings(events: Seq<EventView>) -> nat {
    match step_level_of(events) {
        StepLevel::TopToParts => heading_count(events, 1),
        StepLevel::TopToChapter => 0,
    }
}

/// The level of a heading token.
pub open spec fn heading_level(e: EventView) -> Option<u32> {
    match e {
        EventView::Start(TagView::Heading(h)) => Some(h),
        EventView::End(TagView::Heading(h)) => Some(h),
        _ => None,
    }
}

/// Whether every heading can move down by two levels.
pub open spec fn levels_bounded(events: Seq<EventView>) -> bool {
    forall|i: int|
        0 <= i < events.len() ==> (#[trigger] heading_level(events[i]) matches Some(h) ==> h
            <= u32::MAX - 2)
}

/// The mainmatter that can be divided: heading levels leave room to move
/// down, and chapter and part numbers fit in a label.
pub open spec fn dividable(events: Seq<EventView>) -> bool {
    &&& levels_bounded(events)
    &&& chapter_headings(events) <= 255
    &&& part_headings(events) <= 255
}

/// The classifier's memory between tokens.
pub struct DivState {
    /// Whether a chapter is open.
    pub in_chapter: bool,
    /// How many parts were opened.
    pub parts: nat,
    /// How many chapters were opened, over the whole book.
    pub chapters: nat,
}

/// The label of the chapter with this number.
pub open spec fn chapter_label(number: nat) -> BookEventView {
    BookEventView::DivisionHeaderLabel {
        text: Some("Chapter"@),
        number: Some(number as u8),
        number_format: NumberFormat::Arabic,
    }
}

/// The label of the part with this number.
pub open spec fn part_label(number: nat) -> BookEventView {
    BookEventView::DivisionHeaderLabel {
        text: Some("Part"@),
        number: Some(number as u8),
        number_format: NumberFormat::Roman,
    }
}

/// The events that close an open chapter, if one is open.
pub open spec fn chapter_close(in_chapter: bool) -> Seq<BookEventView> {
    if in_chapter {
        seq![BookEventView::EndSemantic(SemanticRole::Chapter)]
    } else {
        Seq::empty()
    }
}

/// What one token does to the classifier's memory, and the events it becomes.
pub open spec fn divide_step(level: StepLevel, st: DivState, e: EventView) -> (
    DivState,
    Seq<BookEventView>,
) {
    match e {
        EventView::Start(TagView::Heading(h)) => {
            if h == chapter_level(level) {
                (
                    DivState { in_chapter: true, parts: st.parts, chapters: st.chapters + 1 },
                    chapter_close(st.in_chapter) + seq![
                        BookEventView::BeginSemantic(SemanticRole::Chapter),
                        BookEventView::BeginDivisionHeader(false),
                        chapter_label(st.chapters + 1),
                    ],
                )
            } else if h == 1 {
                (
                    DivState { in_chapter: false, parts: st.parts + 1, chapters: st.chapters },
                    chapter_close(st.in_chapter) + seq![
                        BookEventView::BeginSemantic(SemanticRole::Part),
                        BookEventView::BeginDivisionHeader(false),
                        part_label(st.parts + 1),
                    ],
                )
            } else {
                (
                    st,
                    seq![
                        BookEventView::Event(
                            EventView::Start(TagView::Heading((h + heading_shift(level)) as u32)),
                        ),
                    ],
                )
            }
        },
        EventView::End(TagView::Heading(h)) => {
            if h == chapter_level(level) {
                (st, seq![BookEventView::EndDivisionHeader(false)])
            } else if h == 1 {
                (
                    st,
                    seq![
                        BookEventView::EndDivisionHeader(false),
                        BookEventView::EndSemantic(SemanticRole::Part),
                    ],
                )
            } else {
                (
                    st,
                    seq![
                        BookEventView::Event(
                            EventView::End(TagView::Heading((h + heading_shift(level)) as u32)),
                        ),
                    ],
                )
            }
        },
        other => (st, seq![BookEventView::Event(other)]),
    }
}

/// The classifier's memory and output after all of `events`.
pub open spec fn divide_fold(level: StepLevel, events: Seq<EventView>) -> (
    DivState,
    Seq<BookEventView>,
)
    decreases events.len(),
{
    if events.len() == 0 {
        (DivState { in_chapter: false, parts: 0, chapters: 0 }, Seq::empty())
    } else {
        let (st, out) = divide_fold(level, events.drop_last());
        let (st2, more) = divide_step(level, st, events.last());
        (st2, out + more)
    }
}

/// The mainmatter as divisions: every token rewritten in turn, and the last
/// chapter closed.
pub open spec fn divided(events: Seq<EventView>) -> Seq<BookEventView> {
    let (st, out) = divide_fold(step_level_of(events), events);
    out + chapter_close(st.in_chapter)
}

/// The counters of the classifier are the heading counts of what it read.
pub proof fn lemma_fold_counts(level: StepLevel, events: Seq<EventView>)
    ensures
        divide_fold(level, events).0.chapters == heading_count(events, chapter_level(level)),
        divide_fold(level, events).0.parts == match level {
            StepLevel::TopToParts => heading_count(events, 1),
            StepLevel::TopToChapter => 0,
        },
    decreases events.len(),
{
    if events.len() > 0 {
        lemma_fold_counts(level, events.drop_last());
    }
}

/// A prefix has no more headings of a level than the whole.
pub proof fn lemma_heading_count_prefix(events: Seq<EventView>, level: u32, i: int)
    requires
        0 <= i <= events.len(),
    ensures
        heading_count(events.take(i), level) <= heading_count(events, level),
    decreases events.len() - i,
{
    if i < events.len() {
        lemma_heading_count_prefix(events, level, i + 1);
        assert(events.take(i + 1).drop_last() =~= events.take(i));
    } else {
        assert(events.take(i) =~= events);
    }
}

/// A copy of a run of tokens.
pub fn copy_events(events: &Vec<Event>) -> (r: Vec<Event>)
    ensures
        r.deep_view() == events.deep_view(),
{
    let mut out: Vec<Event> = Vec::new();
    let mut i: usize = 0;
    while i < events.len()
        invariant
            i <= events.len(),
            out.deep_view() == events.deep_view().take(i as int),
        decreases events.len() - i,
    {
        out.push(events[i].clone());
        proof {
            broadcast use group_views;

            assert(events.deep_view().take(i + 1) =~= events.deep_view().take(i as int).push(
                events[i as int].deep_view(),
            ));
        }
        i += 1;
    }
    assert(events.deep_view().take(events.len() as int) =~= events.deep_view());
    out
}

impl StepLevel {
    /// Decides what top-level headings stand for in these tokens.
    pub fn get(events: &Vec<Event>) -> (r: StepLevel)
        ensures
            r == step_level_of(events.deep_view()),
    {
        let mut has_l2 = false;
        let mut i: usize = 0;
        while i < events.len()
            invariant
                i <= events.len(),
                has_l2 == (heading_count(events.deep_view().take(i as int), 2) > 0),
            decreases events.len() - i,
        {
            proof {
                assert(events.deep_view().take(i + 1).drop_last() =~= events.deep_view().take(
                    i as int,
                ));
            }
            match &events[i] {
                Event::Start(Tag::Heading(h)) => {
                    if *h == 2 {
                        has_l2 = true;
                    }
                },
                _ => {},
            }
            i += 1;
        }
        assert(events.deep_view().take(events.len() as int) =~= events.deep_view());
        if has_l2 {
            StepLevel::TopToParts
        } else {
            StepLevel::TopToChapter
        }
    }
}

/// Divides the mainmatter into parts and chapters. Chapters are numbered by
/// one counter over the whole book, which a new part does not reset.
pub fn divide_into_sections(events: Vec<Event>) -> (r: Vec<BookEvent>)
    requires
        dividable(events.deep_view()),
    ensures
        r.deep_view() == divided(events.deep_view()),
{
    let level = StepLevel::get(&events);
    let parts_mode = match level {
        StepLevel::TopToParts => true,
        StepLevel::TopToChapter => false,
    };
    let chapter_at: u32 = if parts_mode {
        2
    } else {
        1
    };
    let mut collated: Vec<BookEvent> = Vec::new();
    let mut in_chapter = false;
    let mut part_count: u8 = 0;
    let mut chapter_count: u8 = 0;
    let ghost ev = events.deep_view();
    let mut i: usize = 0;
    proof {
        broadcast use group_views;

    }
    while i < events.len()
        invariant
            i <= events.len(),
            ev == events.deep_view(),
            dividable(ev),
            level == step_level_of(ev),
            parts_mode == (level == StepLevel::TopToParts),
            chapter_at == chapter_level(level),
            divide_fold(level, ev.take(i as int)) == (
                DivState {
                    in_chapter,
                    parts: part_count as nat,
                    chapters: chapter_count as nat,
                },
                collated.deep_view(),
            ),
        decreases events.len() - i,
    {
        let ghost before = collated.deep_view();
        let ghost st = DivState {
            in_chapter,
            parts: part_count as nat,
            chapters: chapter_count as nat,
        };
        proof {
            broadcast use group_views;

            assert(ev.take(i + 1).drop_last() =~= ev.take(i as int));
            assert(ev.take(i + 1).last() == ev[i as int]);
            lemma_fold_counts(level, ev.take(i + 1));
            lemma_fold_counts(level, ev);
            lemma_heading_count_prefix(ev, chapter_level(level), i + 1);
            lemma_heading_count_prefix(ev, 1, i + 1);
            assert(heading_level(ev[i as int]) matches Some(h) ==> h <= u32::MAX - 2);
        }
        match &events[i] {
            Event::Start(Tag::Heading(h)) => {
                if *h == chapter_at {
                    if in_chapter {
                        collated.push(BookEvent::EndSemantic(SemanticRole::Chapter));
                    }
                    collated.push(BookEvent::BeginSemantic(SemanticRole::Chapter));
                    in_chapter = true;
                    collated.push(BookEvent::BeginDivisionHeader(false));
                    chapter_count += 1;
                    collated.push(
                        BookEvent::DivisionHeaderLabel {
                            text: Some(String::from_str("Chapter")),
                            number: Some(chapter_count),
                            number_format: NumberFormat::Arabic,
                        },
                    );
                } else if *h == 1 {
                    if in_chapter {
                        collated.push(BookEvent::EndSemantic(SemanticRole::Chapter));
                        in_chapter = false;
                    }
                    collated.push(BookEvent::BeginSemantic(SemanticRole::Part));
                    collated.push(BookEvent::BeginDivisionHeader(false));
                    part_count += 1;
                    collated.push(
                        BookEvent::DivisionHeaderLabel {
                            text: Some(String::from_str("Part")),
                            number: Some(part_count),
                            number_format: NumberFormat::Roman,
                        },
                    );
                } else {
                    let shifted: u32 = if parts_mode {
                        *h + 2
                    } else {
                        *h + 1
                    };
                    collated.push(BookEvent::Event(Event::Start(Tag::Heading(shifted))));
                }
            },
            Event::End(Tag::Heading(h)) => {
                if *h == chapter_at {
                    collated.push(BookEvent::EndDivisionHeader(false));
                } else if *h == 1 {
                    collated.push(BookEvent::EndDivisionHeader(false));
                    collated.push(BookEvent::EndSemantic(SemanticRole::Part));
                } else {
                    let shifted: u32 = if parts_mode {
                        *h + 2
                    } else {
                        *h + 1
                    };
                    collated.push(BookEvent::Event(Event::End(Tag::Heading(shifted))));
                }
            },
            other => {
                collated.push(BookEvent::Event(other.clone()));
            },
        }
        proof {
            broadcast use group_views;

            let (st2, more) = divide_step(level, st, ev[i as int]);
            assert(collated.deep_view() =~= before + more);
        }
        i += 1;
    }
    proof {
        assert(ev.take(events.len() as int) =~= ev);
    }
    let ghost body = collated.deep_view();
    if in_chapter {
        collated.push(BookEvent::EndSemantic(SemanticRole::Chapter));
    }
    proof {
        broadcast use group_views;

        assert(collated.deep_view() =~= body + chapter_close(in_chapter));
    }
    collated
}

/// Whether the mainmatter can be divided: its heading levels leave room to
/// move down, and its chapters and parts are no more than a label can
/// number.
pub fn is_dividable(events: &Vec<Event>) -> (r: bool)
    ensures
        r == dividable(events.deep_view()),
{
    let ghost ev = events.deep_view();
    let n = events.len();
    let mut ones: usize = 0;
    let mut twos: usize = 0;
    let mut bounded = true;
    let mut i: usize = 0;
    while i < n
        invariant
            i <= n,
            n == events.len(),
            ev == events.deep_view(),
            ones <= i,
            twos <= i,
            ones == heading_count(ev.take(i as int), 1),
            twos == heading_count(ev.take(i as int), 2),
            bounded == levels_bounded(ev.take(i as int)),
        decreases n - i,
    {
        proof {
            assert(ev.take(i + 1).drop_last() =~= ev.take(i as int));
            assert(ev.take(i + 1).last() == events[i as int].deep_view());
            let a = ev.take(i as int);
            let b = ev.take(i + 1);
            if levels_bounded(b) {
                assert forall|j: int| 0 <= j < a.len() implies (#[trigger] heading_level(
                    a[j],
                ) matches Some(h) ==> h <= u32::MAX - 2) by {
                    assert(a[j] == b[j]);
                    assert(heading_level(b[j]) matches Some(h) ==> h <= u32::MAX - 2);
                }
                assert(heading_level(b[i as int]) matches Some(h) ==> h <= u32::MAX - 2);
            }
            if levels_bounded(a) && (heading_level(ev[i as int]) matches Some(h) ==> h <= u32::MAX
                - 2) {
                assert forall|j: int| 0 <= j < b.len() implies (#[trigger] heading_level(
                    b[j],
                ) matches Some(h) ==> h <= u32::MAX - 2) by {
                    if j < i {
                        assert(a[j] == b[j]);
                        assert(heading_level(a[j]) matches Some(h) ==> h <= u32::MAX - 2);
                    }
                }
            }
        }
        match &events[i] {
            Event::Start(Tag::Heading(h)) => {
                if *h == 1 {
                    ones += 1;
                }
                if *h == 2 {
                    twos += 1;
                }
                if *h > u32::MAX - 2 {
                    bounded = false;
                }
            },
            Event::End(Tag::Heading(h)) => {
                if *h > u32::MAX - 2 {
                    bounded = false;
                }
            },
            _ => {},
        }
        i += 1;
    }
    assert(ev.take(n as int) =~= ev);
    let chapters = if twos > 0 {
        twos
    } else {
        ones
    };
    let parts = if twos > 0 {
        ones
    } else {
        0
    };
    bounded && chapters <= 255 && parts <= 255
}

} // verus!
