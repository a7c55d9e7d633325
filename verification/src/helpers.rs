//! The collation combinators: forward scans that start just behind the
//! start marker of a region, read up to its end marker, and hand back what
//! the region holds, with the position behind it. Both renderers use them.

use crate::book_event::{copy_names, BookEvent, BookEventView};
use crate::escape::{escape_to_html, escape_to_latex, html_escaped, latex_escaped};
use crate::events::{Event, EventView, Tag, TagView};
use crate::headers::copy_text;
use crate::numbers::{
    decimal, number_to_decimal, number_to_letter, number_to_roman, number_to_words, roman, words,
};
use crate::roles::{NumberFormat, SemanticRole, TitlePageContributorRole};
use crate::seqs::{first_index, group_views, lemma_first_index_is};
use crate::text::{
    join_first, joined, lowercase_of, push_char, starts_with, to_lowercase,
};
use crate::tokens::{in_capitals, make_uppercase};
use core::marker::PhantomData;
use vstd::prelude::*;
use vstd::string::*;

verus! {

/// Where the region that begins at `pos` ends: at the first event from
/// `pos` on that satisfies `ends`, or at the end of the stream.
pub open spec fn region_end(
    stream: Seq<BookEventView>,
    pos: int,
    ends: spec_fn(BookEventView) -> bool,
) -> int {
    pos + first_index(stream.skip(pos), ends)
}

/// The events of the region that begins at `pos`, without its end marker.
pub open spec fn region(
    stream: Seq<BookEventView>,
    pos: int,
    ends: spec_fn(BookEventView) -> bool,
) -> Seq<BookEventView> {
    stream.subrange(pos, region_end(stream, pos, ends))
}

/// The position behind the end marker of the region that begins at `pos`;
/// the end of the stream where the region has no end marker.
pub open spec fn after_region(
    stream: Seq<BookEventView>,
    pos: int,
    ends: spec_fn(BookEventView) -> bool,
) -> int {
    if region_end(stream, pos, ends) < stream.len() {
        region_end(stream, pos, ends) + 1
    } else {
        stream.len() as int
    }
}

/// The region ends where the scan stopped, if it passed no end marker.
pub proof fn lemma_region_end_is(
    stream: Seq<BookEventView>,
    pos: int,
    ends: spec_fn(BookEventView) -> bool,
    at: int,
)
    requires
        0 <= pos <= at <= stream.len(),
        forall|j: int| pos <= j < at ==> !ends(#[trigger] stream[j]),
        at < stream.len() ==> ends(stream[at]),
    ensures
        region_end(stream, pos, ends) == at,
{
    let rest = stream.skip(pos);
    assert forall|j: int| 0 <= j < at - pos implies !ends(#[trigger] rest[j]) by {
        assert(rest[j] == stream[pos + j]);
    }
    if at < stream.len() {
        assert(rest[at - pos] == stream[at]);
    }
    lemma_first_index_is(rest, ends, at - pos);
}

/// The tokens that pass through a run of events, in order.
pub open spec fn passed_tokens(events: Seq<BookEventView>) -> Seq<EventView>
    decreases events.len(),
{
    if events.len() == 0 {
        Seq::empty()
    } else {
        match events.last() {
            BookEventView::Event(e) => passed_tokens(events.drop_last()).push(e),
            _ => passed_tokens(events.drop_last()),
        }
    }
}

/// A run of tokens, or nothing where the run is empty.
pub open spec fn if_any(tokens: Seq<EventView>) -> Option<Seq<EventView>> {
    if tokens.len() == 0 {
        None
    } else {
        Some(tokens)
    }
}

fn some_if_any(tokens: Vec<Event>) -> (r: Option<Vec<Event>>)
    ensures
        r.deep_view() == if_any(tokens.deep_view()),
{
    assert(tokens.deep_view().len() == tokens.len());
    if tokens.len() == 0 {
        None
    } else {
        Some(tokens)
    }
}

/// What an epigraph holds.
#[derive(Debug)]
pub struct CollatedEpigraph {
    /// The tokens of the text of the epigraph.
    pub text: Vec<Event>,
    /// The tokens of the source of the epigraph.
    pub source: Vec<Event>,
}

/// What the scan of an epigraph has seen.
pub struct EpigraphScan {
    pub in_text: bool,
    pub in_source: bool,
    pub text: Seq<EventView>,
    pub source: Seq<EventView>,
}

/// The scan of the events of an epigraph: tokens between the text markers
/// are its text, tokens between the source markers are its source.
pub open spec fn epigraph_scan(events: Seq<BookEventView>) -> EpigraphScan
    decreases events.len(),
{
    if events.len() == 0 {
        EpigraphScan { in_text: false, in_source: false, text: Seq::empty(), source: Seq::empty() }
    } else {
        let s = epigraph_scan(events.drop_last());
        match events.last() {
            BookEventView::BeginEpigraphText => EpigraphScan { in_text: true, ..s },
            BookEventView::EndEpigraphText => EpigraphScan { in_text: false, ..s },
            BookEventView::BeginEpigraphSource => EpigraphScan { in_source: true, ..s },
            BookEventView::EndEpigraphSource => EpigraphScan { in_source: false, ..s },
            BookEventView::Event(e) => if s.in_text {
                EpigraphScan { text: s.text.push(e), ..s }
            } else if s.in_source {
                EpigraphScan { source: s.source.push(e), ..s }
            } else {
                s
            },
            _ => s,
        }
    }
}

/// Whether an event ends an epigraph.
pub open spec fn ends_epigraph(e: BookEventView) -> bool {
    e == BookEventView::EndSemantic(SemanticRole::Epigraph)
}

fn is_epigraph_end(e: &BookEvent) -> (r: bool)
    ensures
        r == ends_epigraph(e.deep_view()),
{
    match e {
        BookEvent::EndSemantic(SemanticRole::Epigraph) => true,
        _ => false,
    }
}

/// Reads an epigraph from behind its start marker to its end marker.
pub fn collate_epigraph(events: &Vec<BookEvent>, pos: usize) -> (r: (CollatedEpigraph, usize))
    requires
        pos <= events.len(),
    ensures
        r.0.text.deep_view() == epigraph_scan(
            region(events.deep_view(), pos as int, |e: BookEventView| ends_epigraph(e)),
        ).text,
        r.0.source.deep_view() == epigraph_scan(
            region(events.deep_view(), pos as int, |e: BookEventView| ends_epigraph(e)),
        ).source,
        r.1 == after_region(events.deep_view(), pos as int, |e: BookEventView| ends_epigraph(e)),
{
    let ghost stream = events.deep_view();
    let n = events.len();
    let mut text: Vec<Event> = Vec::new();
    let mut source: Vec<Event> = Vec::new();
    let mut in_text = false;
    let mut in_source = false;
    let mut i: usize = pos;
    proof {
        broadcast use group_views;

        assert(stream.subrange(pos as int, pos as int) =~= Seq::empty());
    }
    while i < n && !is_epigraph_end(&events[i])
        invariant
            pos <= i <= n,
            n == events.len(),
            stream == events.deep_view(),
            forall|j: int| pos <= j < i ==> !ends_epigraph(#[trigger] stream[j]),
            epigraph_scan(stream.subrange(pos as int, i as int)) == (EpigraphScan {
                in_text,
                in_source,
                text: text.deep_view(),
                source: source.deep_view(),
            }),
        decreases n - i,
    {
        proof {
            broadcast use group_views;

            assert(stream[i as int] == events[i as int].deep_view());
            assert(stream.subrange(pos as int, i + 1).drop_last() =~= stream.subrange(
                pos as int,
                i as int,
            ));
        }
        match &events[i] {
            BookEvent::BeginEpigraphText => {
                in_text = true;
            },
            BookEvent::EndEpigraphText => {
                in_text = false;
            },
            BookEvent::BeginEpigraphSource => {
                in_source = true;
            },
            BookEvent::EndEpigraphSource => {
                in_source = false;
            },
            BookEvent::Event(e) => {
                if in_text {
                    text.push(e.clone());
                } else if in_source {
                    source.push(e.clone());
                }
            },
            _ => {},
        }
        i += 1;
    }
    proof {
        if i < n {
            assert(stream[i as int] == events[i as int].deep_view());
        }
        lemma_region_end_is(stream, pos as int, |e: BookEventView| ends_epigraph(e), i as int);
    }
    let next = if i < n {
        i + 1
    } else {
        n
    };
    (CollatedEpigraph { text, source }, next)
}

/// The parts of a label marker.
pub struct LabelView {
    pub text: Option<Seq<char>>,
    pub number: Option<u8>,
    pub number_format: NumberFormat,
}

/// The last label marker of a run of events, if it has one.
pub open spec fn last_label(events: Seq<BookEventView>) -> Option<LabelView>
    decreases events.len(),
{
    if events.len() == 0 {
        None
    } else {
        match events.last() {
            BookEventView::DivisionHeaderLabel { text, number, number_format } => Some(
                LabelView { text, number, number_format },
            ),
            _ => last_label(events.drop_last()),
        }
    }
}

/// The names of the last authors marker of a run of events that names
/// anybody, if there is one.
pub open spec fn last_authors(events: Seq<BookEventView>) -> Option<Seq<Seq<char>>>
    decreases events.len(),
{
    if events.len() == 0 {
        None
    } else {
        match events.last() {
            BookEventView::DivisionAuthors(a) => if a.len() > 0 {
                Some(a)
            } else {
                last_authors(events.drop_last())
            },
            _ => last_authors(events.drop_last()),
        }
    }
}

/// Whether an event ends a division header.
pub open spec fn ends_header(e: BookEventView) -> bool {
    e is EndDivisionHeader
}

fn is_header_end(e: &BookEvent) -> (r: bool)
    ensures
        r == ends_header(e.deep_view()),
{
    match e {
        BookEvent::EndDivisionHeader(_) => true,
        _ => false,
    }
}

/// Marks the EPUB as the output format.
#[derive(Debug)]
pub struct EpubMarker;

/// Marks LaTeX as the output format.
#[derive(Debug)]
pub struct LatexMarker;

/// Whether a tag may stand in the title of a header.
pub open spec fn is_title_tag(t: TagView) -> bool {
    t is Emphasis || t is Strong || t is Subscript || t is Superscript
}

/// Whether a token may stand in the title of a header.
pub open spec fn is_title_event(e: EventView) -> bool {
    match e {
        EventView::Text(_) => true,
        EventView::Start(t) => is_title_tag(t),
        EventView::End(t) => is_title_tag(t),
        _ => false,
    }
}

/// How an output format writes text and the formatting of a title.
pub trait MarkerHelper: Sized {
    /// A text escaped for the output format.
    spec fn escaped(text: Seq<char>) -> Seq<char>;

    /// The markup that opens a run of title formatting.
    spec fn opening(t: TagView) -> Seq<char>;

    /// The markup that closes a run of title formatting.
    spec fn closing(t: TagView) -> Seq<char>;

    /// Escapes a text for the output format.
    fn escape(text: &str) -> (r: String)
        ensures
            r@ == Self::escaped(text@),
    ;

    /// The markup that opens a run of title formatting.
    fn open_tag(t: &Tag) -> (r: &'static str)
        requires
            is_title_tag(t.deep_view()),
        ensures
            r@ == Self::opening(t.deep_view()),
    ;

    /// The markup that closes a run of title formatting.
    fn close_tag(t: &Tag) -> (r: &'static str)
        requires
            is_title_tag(t.deep_view()),
        ensures
            r@ == Self::closing(t.deep_view()),
    ;
}

impl MarkerHelper for EpubMarker {
    open spec fn escaped(text: Seq<char>) -> Seq<char> {
        html_escaped(text)
    }

    open spec fn opening(t: TagView) -> Seq<char> {
        match t {
            TagView::Emphasis => "<em>"@,
            TagView::Strong => "<strong>"@,
            TagView::Subscript => "<sub>"@,
            _ => "<sup>"@,
        }
    }

    open spec fn closing(t: TagView) -> Seq<char> {
        match t {
            TagView::Emphasis => "</em>"@,
            TagView::Strong => "</strong>"@,
            TagView::Subscript => "</sub>"@,
            _ => "</sup>"@,
        }
    }

    fn escape(text: &str) -> (r: String) {
        escape_to_html(text)
    }

    fn open_tag(t: &Tag) -> (r: &'static str) {
        match t {
            Tag::Emphasis => "<em>",
            Tag::Strong => "<strong>",
            Tag::Subscript => "<sub>",
            _ => "<sup>",
        }
    }

    fn close_tag(t: &Tag) -> (r: &'static str) {
        match t {
            Tag::Emphasis => "</em>",
            Tag::Strong => "</strong>",
            Tag::Subscript => "</sub>",
            _ => "</sup>",
        }
    }
}

impl MarkerHelper for LatexMarker {
    open spec fn escaped(text: Seq<char>) -> Seq<char> {
        latex_escaped(text)
    }

    open spec fn opening(t: TagView) -> Seq<char> {
        match t {
            TagView::Emphasis => "\\emph{"@,
            TagView::Strong => "\\textbf{"@,
            TagView::Subscript => "\\textsubscript{"@,
            _ => "\\textsuperscript{"@,
        }
    }

    open spec fn closing(t: TagView) -> Seq<char> {
        "}"@
    }

    fn escape(text: &str) -> (r: String) {
        escape_to_latex(text)
    }

    fn open_tag(t: &Tag) -> (r: &'static str) {
        match t {
            Tag::Emphasis => "\\emph{",
            Tag::Strong => "\\textbf{",
            Tag::Subscript => "\\textsubscript{",
            _ => "\\textsuperscript{",
        }
    }

    fn close_tag(t: &Tag) -> (r: &'static str) {
        "}"
    }
}

/// What a token of a title becomes in the output format; nothing for a
/// token that may not stand in a title.
pub open spec fn title_piece<M: MarkerHelper>(e: EventView) -> Seq<char> {
    match e {
        EventView::Text(t) => M::escaped(t),
        EventView::Start(t) => if is_title_tag(t) {
            M::opening(t)
        } else {
            Seq::empty()
        },
        EventView::End(t) => if is_title_tag(t) {
            M::closing(t)
        } else {
            Seq::empty()
        },
        _ => Seq::empty(),
    }
}

/// The markup of the tokens of a title, one after the other.
pub open spec fn title_markup<M: MarkerHelper>(events: Seq<EventView>) -> Seq<char>
    decreases events.len(),
{
    if events.len() == 0 {
        Seq::empty()
    } else {
        title_markup::<M>(events.drop_last()) + title_piece::<M>(events.last())
    }
}

/// Whether a run of tokens holds any text.
pub open spec fn has_text(events: Seq<EventView>) -> bool
    decreases events.len(),
{
    if events.len() == 0 {
        false
    } else {
        events.last() is Text || has_text(events.drop_last())
    }
}

/// The title of a header in the output format: its text and inline
/// formatting; nothing at all where it holds no text.
pub open spec fn title_text<M: MarkerHelper>(events: Seq<EventView>) -> Seq<char> {
    if has_text(events) {
        title_markup::<M>(events)
    } else {
        Seq::empty()
    }
}

/// The tokens of a run that may stand in a title.
pub open spec fn title_events(events: Seq<EventView>) -> Seq<EventView>
    decreases events.len(),
{
    if events.len() == 0 {
        Seq::empty()
    } else if is_title_event(events.last()) {
        title_events(events.drop_last()).push(events.last())
    } else {
        title_events(events.drop_last())
    }
}

fn may_stand_in_title(t: &Tag) -> (r: bool)
    ensures
        r == is_title_tag(t.deep_view()),
{
    match t {
        Tag::Emphasis => true,
        Tag::Strong => true,
        Tag::Subscript => true,
        Tag::Superscript => true,
        _ => false,
    }
}

/// Keeps of a run of tokens what may stand in a title: text, emphasis,
/// strong, subscript and superscript.
pub fn filter_title_events(events: &Vec<Event>) -> (r: Vec<Event>)
    ensures
        r.deep_view() == title_events(events.deep_view()),
{
    let ghost ev = events.deep_view();
    let mut out: Vec<Event> = Vec::new();
    let mut i: usize = 0;
    proof {
        broadcast use group_views;

    }
    while i < events.len()
        invariant
            i <= events.len(),
            ev == events.deep_view(),
            out.deep_view() == title_events(ev.take(i as int)),
        decreases events.len() - i,
    {
        proof {
            broadcast use group_views;

            assert(ev.take(i + 1).drop_last() =~= ev.take(i as int));
            assert(ev.take(i + 1).last() == events[i as int].deep_view());
        }
        let keep = match &events[i] {
            Event::Text(_) => true,
            Event::Start(t) => may_stand_in_title(t),
            Event::End(t) => may_stand_in_title(t),
            _ => false,
        };
        if keep {
            out.push(events[i].clone());
        }
        i += 1;
    }
    assert(ev.take(events.len() as int) =~= ev);
    out
}

/// Writes the title of a header in the output format.
pub fn write_title_text<M: MarkerHelper>(events: &Vec<Event>) -> (r: String)
    ensures
        r@ == title_text::<M>(events.deep_view()),
{
    let ghost ev = events.deep_view();
    let mut out = String::new();
    let mut some_text = false;
    let mut i: usize = 0;
    while i < events.len()
        invariant
            i <= events.len(),
            ev == events.deep_view(),
            out@ == title_markup::<M>(ev.take(i as int)),
            some_text == has_text(ev.take(i as int)),
        decreases events.len() - i,
    {
        proof {
            assert(ev.take(i + 1).drop_last() =~= ev.take(i as int));
            assert(ev.take(i + 1).last() == events[i as int].deep_view());
        }
        let ghost before = out@;
        match &events[i] {
            Event::Text(t) => {
                let escaped = M::escape(t.as_str());
                out.append(escaped.as_str());
                some_text = true;
            },
            Event::Start(t) => {
                if may_stand_in_title(t) {
                    out.append(M::open_tag(t));
                }
            },
            Event::End(t) => {
                if may_stand_in_title(t) {
                    out.append(M::close_tag(t));
                }
            },
            _ => {},
        }
        assert(out@ =~= before + title_piece::<M>(ev[i as int]));
        i += 1;
    }
    assert(ev.take(events.len() as int) =~= ev);
    if some_text {
        out
    } else {
        String::new()
    }
}

/// What a division header holds.
#[derive(Debug)]
pub struct CollatedHeader<T> {
    pub phantom: PhantomData<T>,
    /// The text of the label: `Chapter`.
    pub label_text: Option<String>,
    /// The number of the label: 1 for the first chapter.
    pub label_number: Option<u8>,
    /// How the number is shown.
    pub label_number_format: Option<NumberFormat>,
    /// The tokens of the title.
    pub text: Option<Vec<Event>>,
    /// The names of the authors.
    pub authors: Option<Vec<String>>,
    /// Whether the header is starred.
    pub is_starred: bool,
}

/// What a `CollatedHeader` holds, as mathematics.
pub struct CollatedHeaderView {
    pub label_text: Option<Seq<char>>,
    pub label_number: Option<u8>,
    pub label_number_format: Option<NumberFormat>,
    pub text: Option<Seq<EventView>>,
    pub authors: Option<Seq<Seq<char>>>,
    pub is_starred: bool,
}

impl<T> DeepView for CollatedHeader<T> {
    type V = CollatedHeaderView;

    open spec fn deep_view(&self) -> CollatedHeaderView {
        CollatedHeaderView {
            label_text: self.label_text.deep_view(),
            label_number: self.label_number,
            label_number_format: self.label_number_format,
            text: self.text.deep_view(),
            authors: self.authors.deep_view(),
            is_starred: self.is_starred,
        }
    }
}

/// What the header holds whose events are `events`: the parts of its last
/// label, its tokens, and the authors that its last authors marker names.
pub open spec fn header_of(events: Seq<BookEventView>, is_starred: bool) -> CollatedHeaderView {
    CollatedHeaderView {
        label_text: match last_label(events) {
            Some(l) => l.text,
            None => None,
        },
        label_number: match last_label(events) {
            Some(l) => l.number,
            None => None,
        },
        label_number_format: match last_label(events) {
            Some(l) => Some(l.number_format),
            None => None,
        },
        text: if_any(passed_tokens(events)),
        authors: last_authors(events),
        is_starred,
    }
}

/// Reads a division header from behind its start marker to its end marker.
pub fn collate_division_header<T>(events: &Vec<BookEvent>, pos: usize, is_starred: bool) -> (r: (
    CollatedHeader<T>,
    usize,
))
    requires
        pos <= events.len(),
    ensures
        r.0.deep_view() == header_of(
            region(events.deep_view(), pos as int, |e: BookEventView| ends_header(e)),
            is_starred,
        ),
        r.1 == after_region(events.deep_view(), pos as int, |e: BookEventView| ends_header(e)),
{
    let ghost stream = events.deep_view();
    let n = events.len();
    let mut text: Vec<Event> = Vec::new();
    let mut label_text: Option<String> = None;
    let mut label_number: Option<u8> = None;
    let mut label_number_format: Option<NumberFormat> = None;
    let mut authors: Option<Vec<String>> = None;
    let mut i: usize = pos;
    proof {
        broadcast use group_views;

        assert(stream.subrange(pos as int, pos as int) =~= Seq::empty());
    }
    while i < n && !is_header_end(&events[i])
        invariant
            pos <= i <= n,
            n == events.len(),
            stream == events.deep_view(),
            forall|j: int| pos <= j < i ==> !ends_header(#[trigger] stream[j]),
            text.deep_view() == passed_tokens(stream.subrange(pos as int, i as int)),
            authors.deep_view() == last_authors(stream.subrange(pos as int, i as int)),
            match last_label(stream.subrange(pos as int, i as int)) {
                Some(l) => label_text.deep_view() == l.text && label_number == l.number
                    && label_number_format == Some(l.number_format),
                None => label_text is None && label_number is None && label_number_format is None,
            },
        decreases n - i,
    {
        proof {
            broadcast use group_views;

            assert(stream[i as int] == events[i as int].deep_view());
            assert(stream.subrange(pos as int, i + 1).drop_last() =~= stream.subrange(
                pos as int,
                i as int,
            ));
        }
        match &events[i] {
            BookEvent::DivisionHeaderLabel { text, number, number_format } => {
                label_text = copy_text(text);
                label_number = *number;
                label_number_format = Some(*number_format);
            },
            BookEvent::DivisionAuthors(a) => {
                assert(a.deep_view().len() == a.len());
                if a.len() > 0 {
                    authors = Some(copy_names(a));
                }
            },
            BookEvent::Event(e) => {
                text.push(e.clone());
            },
            _ => {},
        }
        i += 1;
    }
    proof {
        if i < n {
            assert(stream[i as int] == events[i as int].deep_view());
        }
        lemma_region_end_is(stream, pos as int, |e: BookEventView| ends_header(e), i as int);
    }
    let next = if i < n {
        i + 1
    } else {
        n
    };
    let text = some_if_any(text);
    (
        CollatedHeader {
            phantom: PhantomData,
            text,
            label_text,
            label_number,
            label_number_format,
            authors,
            is_starred,
        },
        next,
    )
}

/// Every name of a list escaped for the output format.
pub open spec fn all_escaped<M: MarkerHelper>(names: Seq<Seq<char>>) -> Seq<Seq<char>> {
    Seq::new(names.len(), |i: int| M::escaped(names[i]))
}

/// Escapes every name of a list for the output format.
pub fn escape_names<M: MarkerHelper>(names: &Vec<String>) -> (r: Vec<String>)
    ensures
        r.deep_view() == all_escaped::<M>(names.deep_view()),
{
    let ghost target = all_escaped::<M>(names.deep_view());
    let n = names.len();
    let mut out: Vec<String> = Vec::new();
    let mut i: usize = 0;
    while i < n
        invariant
            i <= n,
            n == names.len(),
            target == all_escaped::<M>(names.deep_view()),
            out.deep_view() == target.take(i as int),
        decreases n - i,
    {
        out.push(M::escape(names[i].as_str()));
        proof {
            broadcast use group_views;

            assert(target.take(i + 1) =~= target.take(i as int).push(
                M::escaped(names[i as int]@),
            ));
        }
        i += 1;
    }
    assert(target.take(n as int) =~= target);
    out
}

impl CollatedHeaderView {
    /// The text of the label, escaped.
    pub open spec fn escaped_label_text<M: MarkerHelper>(self) -> Option<Seq<char>> {
        match self.label_text {
            Some(t) => Some(M::escaped(t)),
            None => None,
        }
    }

    /// The number of the label in its format: arabic where no format is
    /// given, and where a letter is asked of a number that has none.
    pub open spec fn number_text(self) -> Option<Seq<char>> {
        match self.label_number {
            None => None,
            Some(n) => Some(
                match self.label_number_format {
                    Some(NumberFormat::Roman) => roman(n as nat),
                    Some(NumberFormat::Words) => words(n as nat),
                    Some(NumberFormat::Letter) => if n <= 25 {
                        seq![(65 + n) as char]
                    } else {
                        decimal(n as nat)
                    },
                    _ => decimal(n as nat),
                },
            ),
        }
    }

    /// Label and number in one: `Chapter 1`. A starred header has no
    /// joined label.
    pub open spec fn joined_label<M: MarkerHelper>(self) -> Option<Seq<char>> {
        if self.is_starred {
            None
        } else {
            match (self.escaped_label_text::<M>(), self.number_text()) {
                (Some(l), Some(n)) => Some(l + " "@ + n),
                (Some(l), None) => Some(l),
                (None, Some(n)) => Some(n),
                (None, None) => None,
            }
        }
    }

    /// The title in the output format, if it holds any text.
    pub open spec fn title<M: MarkerHelper>(self) -> Option<Seq<char>> {
        match self.text {
            Some(t) => if title_text::<M>(t).len() > 0 {
                Some(title_text::<M>(t))
            } else {
                None
            },
            None => None,
        }
    }

    /// Label and title as they are shown together: a label alone is shown
    /// as the title; a label that the title already begins with, whatever
    /// the case of the letters, is dropped.
    pub open spec fn reconciled<M: MarkerHelper>(self) -> Option<
        (Option<Seq<char>>, Option<Seq<char>>),
    > {
        match (self.joined_label::<M>(), self.title::<M>()) {
            (None, None) => None,
            (Some(l), None) => Some((None, Some(l))),
            (Some(l), Some(t)) => if lowercase_of(l).is_prefix_of(lowercase_of(t)) {
                Some((None, Some(t)))
            } else {
                Some((Some(l), Some(t)))
            },
            (None, Some(t)) => Some((None, Some(t))),
        }
    }

    /// The authors as a byline: one name alone; two names, one and the
    /// other; more names, all but the last joined by commas, and the last.
    pub open spec fn byline<M: MarkerHelper>(self) -> Option<(Seq<char>, Option<Seq<char>>)> {
        match self.authors {
            None => None,
            Some(a) => {
                let names = all_escaped::<M>(a);
                if names.len() == 0 {
                    None
                } else if names.len() == 1 {
                    Some((names[0], None))
                } else {
                    Some((joined(names.drop_last(), ", "@), Some(names.last())))
                }
            },
        }
    }
}

impl<T: MarkerHelper> CollatedHeader<T> {
    /// Label and title as they are shown together. Where the title in lower
    /// case begins with the label in lower case, the label is dropped, so
    /// that the same words are not shown twice.
    pub fn reconcile_joined_label_and_title(&self) -> (r: Option<(Option<String>, Option<String>)>)
        ensures
            r.deep_view() == self.deep_view().reconciled::<T>(),
    {
        match (self.get_joined_label(), self.get_title_text()) {
            (None, None) => None,
            (Some(label), None) => Some((None, Some(label))),
            (Some(label), Some(title)) => {
                let t = to_lowercase(title.as_str());
                let l = to_lowercase(label.as_str());
                if starts_with(t.as_str(), l.as_str()) {
                    Some((None, Some(title)))
                } else {
                    Some((Some(label), Some(title)))
                }
            },
            (None, Some(title)) => Some((None, Some(title))),
        }
    }

    /// The text of the label, escaped.
    pub fn get_label_text(&self) -> (r: Option<String>)
        ensures
            r.deep_view() == self.deep_view().escaped_label_text::<T>(),
    {
        match &self.label_text {
            Some(t) => Some(T::escape(t.as_str())),
            None => None,
        }
    }

    /// The number of the label in its format.
    pub fn get_label_number(&self) -> (r: Option<String>)
        ensures
            r.deep_view() == self.deep_view().number_text(),
    {
        match self.label_number {
            None => None,
            Some(n) => {
                let text = match self.label_number_format {
                    Some(NumberFormat::Roman) => number_to_roman(n),
                    Some(NumberFormat::Words) => number_to_words(n),
                    Some(NumberFormat::Letter) => match number_to_letter(n) {
                        Ok(c) => {
                            let mut s = String::new();
                            push_char(&mut s, c);
                            assert(s@ =~= seq![c]);
                            s
                        },
                        Err(_) => number_to_decimal(n as u128),
                    },
                    _ => number_to_decimal(n as u128),
                };
                Some(text)
            },
        }
    }

    /// The title in the output format, if it holds any text.
    pub fn get_title_text(&self) -> (r: Option<String>)
        ensures
            r.deep_view() == self.deep_view().title::<T>(),
    {
        match &self.text {
            Some(text) => {
                let written = write_title_text::<T>(text);
                if !written.as_str().is_empty() {
                    Some(written)
                } else {
                    None
                }
            },
            None => None,
        }
    }

    /// Label and number in one; nothing for a starred header.
    pub fn get_joined_label(&self) -> (r: Option<String>)
        ensures
            r.deep_view() == self.deep_view().joined_label::<T>(),
    {
        if self.is_starred {
            return None;
        }
        match (self.get_label_text(), self.get_label_number()) {
            (Some(label), Some(number)) => {
                let mut out = label;
                out.append(" ");
                out.append(number.as_str());
                Some(out)
            },
            (Some(label), None) => Some(label),
            (None, Some(number)) => Some(number),
            (None, None) => None,
        }
    }

    /// The authors as a byline, every name escaped.
    pub fn get_authors(&self) -> (r: Option<(String, Option<String>)>)
        ensures
            r.deep_view() == self.deep_view().byline::<T>(),
    {
        match &self.authors {
            None => None,
            Some(authors) => {
                let names = escape_names::<T>(authors);
                let n = names.len();
                assert(names.deep_view().len() == n);
                if n == 0 {
                    None
                } else if n == 1 {
                    Some((names[0].clone(), None))
                } else {
                    let first = join_first(&names, n - 1, ", ");
                    assert(names.deep_view().take(n - 1) =~= names.deep_view().drop_last());
                    Some((first, Some(names[n - 1].clone())))
                }
            },
        }
    }
}

/// What a titlepage holds.
#[derive(Debug)]
pub struct CollatedTitlePage {
    /// The tokens of the title, in capitals.
    pub title: Vec<Event>,
    /// The tokens of the subtitle, in capitals.
    pub subtitle: Option<Vec<Event>>,
    /// The contributors by the line that introduces their role.
    pub contributors: Option<Vec<(Option<&'static str>, Vec<String>)>>,
}

/// What the scan of a titlepage has seen.
pub struct TitlePageScan {
    pub in_title: bool,
    pub in_subtitle: bool,
    pub title: Seq<EventView>,
    pub subtitle: Seq<EventView>,
    pub contributors: Option<Seq<(TitlePageContributorRole, Seq<Seq<char>>)>>,
}

/// The scan of the events of a titlepage: tokens between the title markers
/// are its title, tokens between the subtitle markers its subtitle, and the
/// last table of contributors is its contributors.
pub open spec fn titlepage_scan(events: Seq<BookEventView>) -> TitlePageScan
    decreases events.len(),
{
    if events.len() == 0 {
        TitlePageScan {
            in_title: false,
            in_subtitle: false,
            title: Seq::empty(),
            subtitle: Seq::empty(),
            contributors: None,
        }
    } else {
        let s = titlepage_scan(events.drop_last());
        match events.last() {
            BookEventView::BeginTitlePageTitle => TitlePageScan { in_title: true, ..s },
            BookEventView::EndTitlePageTitle => TitlePageScan { in_title: false, ..s },
            BookEventView::BeginTitlePageSubTitle => TitlePageScan { in_subtitle: true, ..s },
            BookEventView::EndTitlePageSubTitle => TitlePageScan { in_subtitle: false, ..s },
            BookEventView::TitlePageContributors(c) => TitlePageScan { contributors: Some(c), ..s },
            BookEventView::Event(e) => if s.in_title {
                TitlePageScan { title: s.title.push(e), ..s }
            } else if s.in_subtitle {
                TitlePageScan { subtitle: s.subtitle.push(e), ..s }
            } else {
                s
            },
            _ => s,
        }
    }
}

/// A table of contributors with the line that introduces each role in the
/// place of the role.
pub open spec fn introduced_contributors(
    table: Seq<(TitlePageContributorRole, Seq<Seq<char>>)>,
) -> Seq<(Option<Seq<char>>, Seq<Seq<char>>)> {
    Seq::new(table.len(), |i: int| (table[i].0.label(), table[i].1))
}

/// Whether an event ends a titlepage.
pub open spec fn ends_titlepage(e: BookEventView) -> bool {
    e is EndTitlePage
}

fn is_titlepage_end(e: &BookEvent) -> (r: bool)
    ensures
        r == ends_titlepage(e.deep_view()),
{
    match e {
        BookEvent::EndTitlePage => true,
        _ => false,
    }
}

fn introduce_contributors(table: &Vec<(TitlePageContributorRole, Vec<String>)>) -> (r: Vec<
    (Option<&'static str>, Vec<String>),
>)
    ensures
        r.deep_view() == introduced_contributors(table.deep_view()),
{
    let ghost target = introduced_contributors(table.deep_view());
    let n = table.len();
    let mut out: Vec<(Option<&'static str>, Vec<String>)> = Vec::new();
    let mut i: usize = 0;
    while i < n
        invariant
            i <= n,
            n == table.len(),
            target == introduced_contributors(table.deep_view()),
            out.deep_view() == target.take(i as int),
        decreases n - i,
    {
        let label = table[i].0.get_label();
        let names = copy_names(&table[i].1);
        out.push((label, names));
        proof {
            broadcast use group_views;

            assert(table.deep_view()[i as int] == table[i as int].deep_view());
            assert(target.take(i + 1) =~= target.take(i as int).push(
                (table[i as int].0.label(), table[i as int].1.deep_view()),
            ));
        }
        i += 1;
    }
    assert(target.take(n as int) =~= target);
    out
}

/// Reads a titlepage from behind its start marker to its end marker. Title
/// and subtitle are put in capitals.
pub fn collate_titlepage(events: &Vec<BookEvent>, pos: usize) -> (r: (CollatedTitlePage, usize))
    requires
        pos <= events.len(),
    ensures
        ({
            let scan = titlepage_scan(
                region(events.deep_view(), pos as int, |e: BookEventView| ends_titlepage(e)),
            );
            &&& r.0.title.deep_view() == in_capitals(scan.title)
            &&& r.0.subtitle.deep_view() == if_any(in_capitals(scan.subtitle))
            &&& r.0.contributors.deep_view() == match scan.contributors {
                Some(c) => Some(introduced_contributors(c)),
                None => None,
            }
        }),
        r.1 == after_region(events.deep_view(), pos as int, |e: BookEventView| ends_titlepage(e)),
{
    let ghost stream = events.deep_view();
    let n = events.len();
    let mut title: Vec<Event> = Vec::new();
    let mut subtitle_events: Vec<Event> = Vec::new();
    let mut contributors: Option<Vec<(Option<&'static str>, Vec<String>)>> = None;
    let mut in_title = false;
    let mut in_subtitle = false;
    let mut i: usize = pos;
    proof {
        broadcast use group_views;

        assert(stream.subrange(pos as int, pos as int) =~= Seq::empty());
    }
    while i < n && !is_titlepage_end(&events[i])
        invariant
            pos <= i <= n,
            n == events.len(),
            stream == events.deep_view(),
            forall|j: int| pos <= j < i ==> !ends_titlepage(#[trigger] stream[j]),
            ({
                let scan = titlepage_scan(stream.subrange(pos as int, i as int));
                &&& scan.in_title == in_title
                &&& scan.in_subtitle == in_subtitle
                &&& scan.title == title.deep_view()
                &&& scan.subtitle == subtitle_events.deep_view()
                &&& contributors.deep_view() == match scan.contributors {
                    Some(c) => Some(introduced_contributors(c)),
                    None => None,
                }
            }),
        decreases n - i,
    {
        proof {
            broadcast use group_views;

            assert(stream[i as int] == events[i as int].deep_view());
            assert(stream.subrange(pos as int, i + 1).drop_last() =~= stream.subrange(
                pos as int,
                i as int,
            ));
        }
        match &events[i] {
            BookEvent::BeginTitlePageTitle => {
                in_title = true;
            },
            BookEvent::EndTitlePageTitle => {
                in_title = false;
            },
            BookEvent::BeginTitlePageSubTitle => {
                in_subtitle = true;
            },
            BookEvent::EndTitlePageSubTitle => {
                in_subtitle = false;
            },
            BookEvent::TitlePageContributors(v) => {
                contributors = Some(introduce_contributors(v));
            },
            BookEvent::Event(e) => {
                if in_title {
                    title.push(e.clone());
                } else if in_subtitle {
                    subtitle_events.push(e.clone());
                }
            },
            _ => {},
        }
        i += 1;
    }
    proof {
        if i < n {
            assert(stream[i as int] == events[i as int].deep_view());
        }
        lemma_region_end_is(stream, pos as int, |e: BookEventView| ends_titlepage(e), i as int);
    }
    let next = if i < n {
        i + 1
    } else {
        n
    };
    make_uppercase(&mut title);
    make_uppercase(&mut subtitle_events);
    let subtitle = some_if_any(subtitle_events);
    (CollatedTitlePage { title, subtitle, contributors }, next)
}

/// Whether an event ends a flattened footnote.
pub open spec fn ends_footnote(e: BookEventView) -> bool {
    e == BookEventView::Event(EventView::End(TagView::FlattenedFootnote))
}

fn is_footnote_end(e: &BookEvent) -> (r: bool)
    ensures
        r == ends_footnote(e.deep_view()),
{
    match e {
        BookEvent::Event(Event::End(Tag::FlattenedFootnote)) => true,
        _ => false,
    }
}

/// Whether an event ends an image.
pub open spec fn ends_image(e: BookEventView) -> bool {
    e matches BookEventView::Event(EventView::End(TagView::Image(_, _, _)))
}

fn is_image_end(e: &BookEvent) -> (r: bool)
    ensures
        r == ends_image(e.deep_view()),
{
    match e {
        BookEvent::Event(Event::End(Tag::Image(_, _, _))) => true,
        _ => false,
    }
}

/// Reads the tokens of a flattened footnote from behind its start marker to
/// its end marker.
pub fn collect_plain_until_end_of_footnote(events: &Vec<BookEvent>, pos: usize) -> (r: (
    Vec<Event>,
    usize,
))
    requires
        pos <= events.len(),
    ensures
        r.0.deep_view() == passed_tokens(
            region(events.deep_view(), pos as int, |e: BookEventView| ends_footnote(e)),
        ),
        r.1 == after_region(events.deep_view(), pos as int, |e: BookEventView| ends_footnote(e)),
{
    let ghost stream = events.deep_view();
    let n = events.len();
    let mut out: Vec<Event> = Vec::new();
    let mut i: usize = pos;
    proof {
        broadcast use group_views;

        assert(stream.subrange(pos as int, pos as int) =~= Seq::empty());
    }
    while i < n && !is_footnote_end(&events[i])
        invariant
            pos <= i <= n,
            n == events.len(),
            stream == events.deep_view(),
            forall|j: int| pos <= j < i ==> !ends_footnote(#[trigger] stream[j]),
            out.deep_view() == passed_tokens(stream.subrange(pos as int, i as int)),
        decreases n - i,
    {
        proof {
            broadcast use group_views;

            assert(stream[i as int] == events[i as int].deep_view());
            assert(stream.subrange(pos as int, i + 1).drop_last() =~= stream.subrange(
                pos as int,
                i as int,
            ));
        }
        match &events[i] {
            BookEvent::Event(e) => {
                out.push(e.clone());
            },
            _ => {},
        }
        i += 1;
    }
    proof {
        if i < n {
            assert(stream[i as int] == events[i as int].deep_view());
        }
        lemma_region_end_is(stream, pos as int, |e: BookEventView| ends_footnote(e), i as int);
    }
    let next = if i < n {
        i + 1
    } else {
        n
    };
    (out, next)
}

/// What an image holds.
#[derive(Debug)]
pub struct CollatedImage {
    /// The tokens of the caption.
    pub caption: Option<Vec<Event>>,
    /// The path of the image.
    pub dest: String,
    /// The alternative text of the image.
    pub alt: Option<String>,
}

/// A text, or nothing where the text is empty.
pub open spec fn text_if_any(s: Seq<char>) -> Option<Seq<char>> {
    if s.len() == 0 {
        None
    } else {
        Some(s)
    }
}

/// Reads an image from behind its start marker to its end marker: the
/// tokens in between are its caption.
pub fn collate_image(events: &Vec<BookEvent>, pos: usize, dest: String, alt: String) -> (r: (
    CollatedImage,
    usize,
))
    requires
        pos <= events.len(),
    ensures
        r.0.caption.deep_view() == if_any(
            passed_tokens(region(events.deep_view(), pos as int, |e: BookEventView| ends_image(e))),
        ),
        r.0.dest@ == dest@,
        r.0.alt.deep_view() == text_if_any(alt@),
        r.1 == after_region(events.deep_view(), pos as int, |e: BookEventView| ends_image(e)),
{
    let ghost stream = events.deep_view();
    let n = events.len();
    let mut caption: Vec<Event> = Vec::new();
    let mut i: usize = pos;
    proof {
        broadcast use group_views;

        assert(stream.subrange(pos as int, pos as int) =~= Seq::empty());
    }
    while i < n && !is_image_end(&events[i])
        invariant
            pos <= i <= n,
            n == events.len(),
            stream == events.deep_view(),
            forall|j: int| pos <= j < i ==> !ends_image(#[trigger] stream[j]),
            caption.deep_view() == passed_tokens(stream.subrange(pos as int, i as int)),
        decreases n - i,
    {
        proof {
            broadcast use group_views;

            assert(stream[i as int] == events[i as int].deep_view());
            assert(stream.subrange(pos as int, i + 1).drop_last() =~= stream.subrange(
                pos as int,
                i as int,
            ));
        }
        match &events[i] {
            BookEvent::Event(e) => {
                caption.push(e.clone());
            },
            _ => {},
        }
        i += 1;
    }
    proof {
        if i < n {
            assert(stream[i as int] == events[i as int].deep_view());
        }
        lemma_region_end_is(stream, pos as int, |e: BookEventView| ends_image(e), i as int);
    }
    let next = if i < n {
        i + 1
    } else {
        n
    };
    let caption = some_if_any(caption);
    let alt = if alt.as_str().is_empty() {
        None
    } else {
        Some(alt)
    };
    (CollatedImage { dest, alt, caption }, next)
}

/// Every combinator moves forward: the position that it hands back lies
/// behind the position at which it began, unless that was the end of the
/// stream.
pub proof fn law_collation_moves_forward(
    stream: Seq<BookEventView>,
    pos: int,
    ends: spec_fn(BookEventView) -> bool,
)
    requires
        0 <= pos <= stream.len(),
    ensures
        pos <= after_region(stream, pos, ends) <= stream.len(),
        pos < stream.len() ==> pos < after_region(stream, pos, ends),
        region(stream, pos, ends).len() == region_end(stream, pos, ends) - pos,
        forall|j: int|
            0 <= j < region(stream, pos, ends).len() ==> !ends(
                #[trigger] region(stream, pos, ends)[j],
            ),
{
    crate::seqs::lemma_first_index(stream.skip(pos), ends);
    let k = first_index(stream.skip(pos), ends);
    assert forall|j: int| 0 <= j < region(stream, pos, ends).len() implies !ends(
        #[trigger] region(stream, pos, ends)[j],
    ) by {
        assert(region(stream, pos, ends)[j] == stream.skip(pos)[j]);
    }
}

/// Label and title reconciliation: a header whose title, in lower case,
/// begins with its label in lower case shows the title alone, so that the
/// same words do not stand twice.
pub proof fn law_label_in_title_is_dropped<M: MarkerHelper>(header: CollatedHeaderView)
    requires
        header.joined_label::<M>() is Some,
        header.title::<M>() is Some,
        lowercase_of(header.joined_label::<M>()->0).is_prefix_of(
            lowercase_of(header.title::<M>()->0),
        ),
    ensures
        header.reconciled::<M>() == Some((None::<Seq<char>>, header.title::<M>())),
{
}

} // verus!
