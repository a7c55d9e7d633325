//! The book event: the atomic unit of the flat stream that both renderers
//! walk, and the nesting discipline of its region markers.

use crate::events::{Event, EventView};
use crate::roles::{NumberFormat, SemanticRole, TitlePageContributorRole};
use crate::seqs::group_views;
use vstd::prelude::*;

verus! {

impl DeepView for TitlePageContributorRole {
    type V = TitlePageContributorRole;

    open spec fn deep_view(&self) -> TitlePageContributorRole {
        *self
    }
}

/// One event of a book.
#[derive(Debug, PartialEq, Eq)]
pub enum BookEvent {
    BeginSemantic(SemanticRole),
    EndSemantic(SemanticRole),
    /// A token of the manuscript, passed through.
    Event(Event),
    /// The start of a header; `true` when the header is starred.
    BeginDivisionHeader(bool),
    EndDivisionHeader(bool),
    DivisionHeaderLabel {
        /// The text of the label.
        text: Option<String>,
        /// The ordinal of the division.
        number: Option<u8>,
        /// How the ordinal is displayed.
        number_format: NumberFormat,
    },
    DivisionAuthors(Vec<String>),
    BeginTitlePage,
    BeginTitlePageTitle,
    EndTitlePageTitle,
    BeginTitlePageSubTitle,
    EndTitlePageSubTitle,
    TitlePageContributors(Vec<(TitlePageContributorRole, Vec<String>)>),
    EndTitlePage,
    BeginMainmatter,
    BeginFrontmatter,
    BeginBackmatter,
    BeginEpigraphText,
    EndEpigraphText,
    BeginEpigraphSource,
    EndEpigraphSource,
    /// A placeholder that stands where content was erased.
    Null,
}

/// What a `BookEvent` holds, as mathematics.
pub enum BookEventView {
    BeginSemantic(SemanticRole),
    EndSemantic(SemanticRole),
    Event(EventView),
    BeginDivisionHeader(bool),
    EndDivisionHeader(bool),
    DivisionHeaderLabel { text: Option<Seq<char>>, number: Option<u8>, number_format: NumberFormat },
    DivisionAuthors(Seq<Seq<char>>),
    BeginTitlePage,
    BeginTitlePageTitle,
    EndTitlePageTitle,
    BeginTitlePageSubTitle,
    EndTitlePageSubTitle,
    TitlePageContributors(Seq<(TitlePageContributorRole, Seq<Seq<char>>)>),
    EndTitlePage,
    BeginMainmatter,
    BeginFrontmatter,
    BeginBackmatter,
    BeginEpigraphText,
    EndEpigraphText,
    BeginEpigraphSource,
    EndEpigraphSource,
    Null,
}

impl DeepView for BookEvent {
    type V = BookEventView;

    open spec fn deep_view(&self) -> BookEventView {
        match self {
            BookEvent::BeginSemantic(r) => BookEventView::BeginSemantic(*r),
            BookEvent::EndSemantic(r) => BookEventView::EndSemantic(*r),
            BookEvent::Event(e) => BookEventView::Event(e.deep_view()),
            BookEvent::BeginDivisionHeader(s) => BookEventView::BeginDivisionHeader(*s),
            BookEvent::EndDivisionHeader(s) => BookEventView::EndDivisionHeader(*s),
            BookEvent::DivisionHeaderLabel { text, number, number_format } => {
                BookEventView::DivisionHeaderLabel {
                    text: text.deep_view(),
                    number: *number,
                    number_format: *number_format,
                }
            },
            BookEvent::DivisionAuthors(a) => BookEventView::DivisionAuthors(a.deep_view()),
            BookEvent::BeginTitlePage => BookEventView::BeginTitlePage,
            BookEvent::BeginTitlePageTitle => BookEventView::BeginTitlePageTitle,
            BookEvent::EndTitlePageTitle => BookEventView::EndTitlePageTitle,
            BookEvent::BeginTitlePageSubTitle => BookEventView::BeginTitlePageSubTitle,
            BookEvent::EndTitlePageSubTitle => BookEventView::EndTitlePageSubTitle,
            BookEvent::TitlePageContributors(c) => BookEventView::TitlePageContributors(
                c.deep_view(),
            ),
            BookEvent::EndTitlePage => BookEventView::EndTitlePage,
            BookEvent::BeginMainmatter => BookEventView::BeginMainmatter,
            BookEvent::BeginFrontmatter => BookEventView::BeginFrontmatter,
            BookEvent::BeginBackmatter => BookEventView::BeginBackmatter,
            BookEvent::BeginEpigraphText => BookEventView::BeginEpigraphText,
            BookEvent::EndEpigraphText => BookEventView::EndEpigraphText,
            BookEvent::BeginEpigraphSource => BookEventView::BeginEpigraphSource,
            BookEvent::EndEpigraphSource => BookEventView::EndEpigraphSource,
            BookEvent::Null => BookEventView::Null,
        }
    }
}

/// A copy of a list of names.
pub fn copy_names(names: &Vec<String>) -> (r: Vec<String>)
    ensures
        r.deep_view() == names.deep_view(),
{
    let mut out: Vec<String> = Vec::new();
    let mut i: usize = 0;
    while i < names.len()
        invariant
            i <= names.len(),
            out.deep_view() == names.deep_view().take(i as int),
        decreases names.len() - i,
    {
        out.push(names[i].clone());
        proof {
            broadcast use group_views;

            assert(names.deep_view().take(i + 1) =~= names.deep_view().take(i as int).push(
                names[i as int]@,
            ));
        }
        i += 1;
    }
    assert(names.deep_view().take(names.len() as int) =~= names.deep_view());
    out
}

/// A copy of a table of contributors by role.
pub fn copy_contributors(table: &Vec<(TitlePageContributorRole, Vec<String>)>) -> (r: Vec<
    (TitlePageContributorRole, Vec<String>),
>)
    ensures
        r.deep_view() == table.deep_view(),
{
    let mut out: Vec<(TitlePageContributorRole, Vec<String>)> = Vec::new();
    let mut i: usize = 0;
    while i < table.len()
        invariant
            i <= table.len(),
            out.deep_view() == table.deep_view().take(i as int),
        decreases table.len() - i,
    {
        let names = copy_names(&table[i].1);
        out.push((table[i].0, names));
        proof {
            broadcast use group_views;

            assert(table.deep_view().take(i + 1) =~= table.deep_view().take(i as int).push(
                table[i as int].deep_view(),
            ));
        }
        i += 1;
    }
    assert(table.deep_view().take(table.len() as int) =~= table.deep_view());
    out
}

impl Clone for BookEvent {
    fn clone(&self) -> (r: Self)
        ensures
            r.deep_view() == self.deep_view(),
    {
        match self {
            BookEvent::BeginSemantic(r) => BookEvent::BeginSemantic(*r),
            BookEvent::EndSemantic(r) => BookEvent::EndSemantic(*r),
            BookEvent::Event(e) => BookEvent::Event(e.clone()),
            BookEvent::BeginDivisionHeader(s) => BookEvent::BeginDivisionHeader(*s),
            BookEvent::EndDivisionHeader(s) => BookEvent::EndDivisionHeader(*s),
            BookEvent::DivisionHeaderLabel { text, number, number_format } => {
                let text = match text {
                    Some(t) => Some(t.clone()),
                    None => None,
                };
                BookEvent::DivisionHeaderLabel {
                    text,
                    number: *number,
                    number_format: *number_format,
                }
            },
            BookEvent::DivisionAuthors(a) => BookEvent::DivisionAuthors(copy_names(a)),
            BookEvent::BeginTitlePage => BookEvent::BeginTitlePage,
            BookEvent::BeginTitlePageTitle => BookEvent::BeginTitlePageTitle,
            BookEvent::EndTitlePageTitle => BookEvent::EndTitlePageTitle,
            BookEvent::BeginTitlePageSubTitle => BookEvent::BeginTitlePageSubTitle,
            BookEvent::EndTitlePageSubTitle => BookEvent::EndTitlePageSubTitle,
            BookEvent::TitlePageContributors(c) => BookEvent::TitlePageContributors(
                copy_contributors(c),
            ),
            BookEvent::EndTitlePage => BookEvent::EndTitlePage,
            BookEvent::BeginMainmatter => BookEvent::BeginMainmatter,
            BookEvent::BeginFrontmatter => BookEvent::BeginFrontmatter,
            BookEvent::BeginBackmatter => BookEvent::BeginBackmatter,
            BookEvent::BeginEpigraphText => BookEvent::BeginEpigraphText,
            BookEvent::EndEpigraphText => BookEvent::EndEpigraphText,
            BookEvent::BeginEpigraphSource => BookEvent::BeginEpigraphSource,
            BookEvent::EndEpigraphSource => BookEvent::EndEpigraphSource,
            BookEvent::Null => BookEvent::Null,
        }
    }
}

/// The tokens of a fragment, each as a pass-through book event.
pub open spec fn lifted(tokens: Seq<EventView>) -> Seq<BookEventView> {
    Seq::new(tokens.len(), |i: int| BookEventView::Event(tokens[i]))
}

/// Wraps a token as a book event.
pub fn from_event(e: Event) -> (r: BookEvent)
    ensures
        r.deep_view() == BookEventView::Event(e.deep_view()),
{
    BookEvent::Event(e)
}

/// The token inside a pass-through book event; nothing for any other event.
pub fn try_into_event(e: BookEvent) -> (r: Result<Event, ()>)
    ensures
        match e.deep_view() {
            BookEventView::Event(t) => r is Ok && r->Ok_0.deep_view() == t,
            _ => r is Err,
        },
{
    match e {
        BookEvent::Event(t) => Ok(t),
        _ => Err(()),
    }
}

/// Appends a copy of each token of `tokens` to `out`, as pass-through events.
pub fn append_lifted(out: &mut Vec<BookEvent>, tokens: &Vec<Event>)
    ensures
        final(out).deep_view() == old(out).deep_view() + lifted(tokens.deep_view()),
{
    let mut i: usize = 0;
    while i < tokens.len()
        invariant
            i <= tokens.len(),
            out.deep_view() == old(out).deep_view() + lifted(tokens.deep_view().take(i as int)),
        decreases tokens.len() - i,
    {
        out.push(BookEvent::Event(tokens[i].clone()));
        proof {
            broadcast use group_views;

            assert(lifted(tokens.deep_view().take(i + 1)) =~= lifted(
                tokens.deep_view().take(i as int),
            ).push(BookEventView::Event(tokens[i as int].deep_view())));
            assert(out.deep_view() =~= old(out).deep_view() + lifted(
                tokens.deep_view().take(i + 1),
            ));
        }
        i += 1;
    }
    assert(tokens.deep_view().take(tokens.len() as int) =~= tokens.deep_view());
}

/// A region of the stream that a `Begin` marker opens and an `End` marker
/// closes.
pub enum Region {
    Semantic(SemanticRole),
    DivisionHeader,
    TitlePage,
    TitlePageTitle,
    TitlePageSubTitle,
    EpigraphText,
    EpigraphSource,
}

impl BookEventView {
    /// The region that this event opens, if it is a `Begin` marker with an
    /// `End`.
    pub open spec fn opens(self) -> Option<Region> {
        match self {
            BookEventView::BeginSemantic(r) => Some(Region::Semantic(r)),
            BookEventView::BeginDivisionHeader(_) => Some(Region::DivisionHeader),
            BookEventView::BeginTitlePage => Some(Region::TitlePage),
            BookEventView::BeginTitlePageTitle => Some(Region::TitlePageTitle),
            BookEventView::BeginTitlePageSubTitle => Some(Region::TitlePageSubTitle),
            BookEventView::BeginEpigraphText => Some(Region::EpigraphText),
            BookEventView::BeginEpigraphSource => Some(Region::EpigraphSource),
            _ => None,
        }
    }

    /// The region that this event closes, if it is an `End` marker.
    pub open spec fn closes(self) -> Option<Region> {
        match self {
            BookEventView::EndSemantic(r) => Some(Region::Semantic(r)),
            BookEventView::EndDivisionHeader(_) => Some(Region::DivisionHeader),
            BookEventView::EndTitlePage => Some(Region::TitlePage),
            BookEventView::EndTitlePageTitle => Some(Region::TitlePageTitle),
            BookEventView::EndTitlePageSubTitle => Some(Region::TitlePageSubTitle),
            BookEventView::EndEpigraphText => Some(Region::EpigraphText),
            BookEventView::EndEpigraphSource => Some(Region::EpigraphSource),
            _ => None,
        }
    }

    /// Whether this event marks the start of one of the three matters.
    pub open spec fn is_matter(self) -> bool {
        self is BeginFrontmatter || self is BeginMainmatter || self is BeginBackmatter
    }
}

/// The stack of open regions after a validator has read `stream`, having
/// started with `stack`: it pushes on every `Begin` and pops on the matching
/// `End`. `None` when an `End` finds the stack empty or another region on top.
pub open spec fn stack_after(stream: Seq<BookEventView>, stack: Seq<Region>) -> Option<
    Seq<Region>,
>
    decreases stream.len(),
{
    if stream.len() == 0 {
        Some(stack)
    } else {
        let e = stream[0];
        if e.opens() is Some {
            stack_after(stream.drop_first(), stack.push(e.opens()->0))
        } else if e.closes() is Some {
            if stack.len() > 0 && stack.last() == e.closes()->0 {
                stack_after(stream.drop_first(), stack.drop_last())
            } else {
                None
            }
        } else {
            stack_after(stream.drop_first(), stack)
        }
    }
}

/// A stream is balanced when the validator never underflows or meets a
/// crossing region, and ends with nothing open.
pub open spec fn balanced(stream: Seq<BookEventView>) -> bool {
    stack_after(stream, Seq::empty()) == Some(Seq::<Region>::empty())
}

/// Reading two streams in a row is reading the second from where the first
/// left the stack.
pub proof fn lemma_stack_after_concat(
    a: Seq<BookEventView>,
    b: Seq<BookEventView>,
    stack: Seq<Region>,
)
    ensures
        stack_after(a + b, stack) == match stack_after(a, stack) {
            Some(s) => stack_after(b, s),
            None => None,
        },
    decreases a.len(),
{
    if a.len() == 0 {
        assert(a + b =~= b);
    } else {
        let e = a[0];
        assert((a + b)[0] == e);
        assert((a + b).drop_first() =~= a.drop_first() + b);
        if e.opens() is Some {
            lemma_stack_after_concat(a.drop_first(), b, stack.push(e.opens()->0));
        } else if e.closes() is Some {
            if stack.len() > 0 && stack.last() == e.closes()->0 {
                lemma_stack_after_concat(a.drop_first(), b, stack.drop_last());
            }
        } else {
            lemma_stack_after_concat(a.drop_first(), b, stack);
        }
    }
}

/// A stream that ends where it started on the empty stack does so on any
/// stack.
pub proof fn lemma_balanced_on_any_stack(a: Seq<BookEventView>, stack: Seq<Region>)
    requires
        balanced(a),
    ensures
        stack_after(a, stack) == Some(stack),
{
    lemma_stack_after_frame(a, Seq::empty(), stack);
    assert(stack + Seq::<Region>::empty() =~= stack);
}

/// What lies under the stack at the start is still there at the end.
pub proof fn lemma_stack_after_frame(a: Seq<BookEventView>, top: Seq<Region>, under: Seq<Region>)
    requires
        stack_after(a, top) is Some,
    ensures
        stack_after(a, under + top) == Some(under + stack_after(a, top)->0),
    decreases a.len(),
{
    if a.len() == 0 {
    } else {
        let e = a[0];
        if e.opens() is Some {
            lemma_stack_after_frame(a.drop_first(), top.push(e.opens()->0), under);
            assert((under + top).push(e.opens()->0) =~= under + top.push(e.opens()->0));
        } else if e.closes() is Some {
            lemma_stack_after_frame(a.drop_first(), top.drop_last(), under);
            assert((under + top).drop_last() =~= under + top.drop_last());
        } else {
            lemma_stack_after_frame(a.drop_first(), top, under);
        }
    }
}

/// Pass-through tokens open and close nothing.
pub proof fn lemma_lifted_keeps_stack(tokens: Seq<EventView>, stack: Seq<Region>)
    ensures
        stack_after(lifted(tokens), stack) == Some(stack),
    decreases tokens.len(),
{
    if tokens.len() > 0 {
        assert(lifted(tokens).drop_first() =~= lifted(tokens.drop_first()));
        lemma_lifted_keeps_stack(tokens.drop_first(), stack);
    }
}

/// How many events of `stream` satisfy nothing but being this very event.
pub open spec fn count_of(stream: Seq<BookEventView>, e: BookEventView) -> nat
    decreases stream.len(),
{
    if stream.len() == 0 {
        0
    } else {
        count_of(stream.drop_last(), e) + if stream.last() == e {
            1nat
        } else {
            0nat
        }
    }
}

pub proof fn lemma_count_of_concat(a: Seq<BookEventView>, b: Seq<BookEventView>, e: BookEventView)
    ensures
        count_of(a + b, e) == count_of(a, e) + count_of(b, e),
    decreases b.len(),
{
    if b.len() == 0 {
        assert(a + b =~= a);
    } else {
        assert((a + b).drop_last() =~= a + b.drop_last());
        lemma_count_of_concat(a, b.drop_last(), e);
    }
}

pub proof fn lemma_count_of_lifted(tokens: Seq<EventView>, e: BookEventView)
    requires
        !(e is Event),
    ensures
        count_of(lifted(tokens), e) == 0,
    decreases tokens.len(),
{
    if tokens.len() > 0 {
        assert(lifted(tokens).drop_last() =~= lifted(tokens.drop_last()));
        lemma_count_of_lifted(tokens.drop_last(), e);
    }
}

} // verus!
