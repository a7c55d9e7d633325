//! From the stream of a book to the pages of an EPUB: footnotes are taken
//! out of the text and set behind the division that refers to them, images
//! are given the form that an EPUB can show, and every division becomes a
//! document.

use crate::assembler::{BookSrc, BookSrcView};
use crate::book_event::{BookEvent, BookEventView};
use crate::epub::{
    all_pushable, blank_page, empty_page, pushable, EpubPage, EpubPageView, XhtmlState,
    XhtmlWriter,
};
use crate::epub_options::{relabelled, Options, OptionsView};
use crate::events::{Event, EventView, Tag, TagView};
use crate::headers::reformatted;
use crate::helpers::{
    after_region, collate_division_header, collate_epigraph, collate_titlepage, ends_epigraph,
    ends_header, ends_titlepage, epigraph_scan, header_of, law_collation_moves_forward, region,
    EpubMarker,
};

use crate::roles::SemanticRole;
use crate::seqs::group_views;
use vstd::prelude::*;
use vstd::string::*;

verus! {

/// What can go wrong while a book is rendered.
#[derive(Debug, PartialEq, Eq)]
pub enum RenderingError {
    /// An image was missing.
    MissingImage(String),
    /// An image is of a type that an EPUB cannot show and that cannot be
    /// converted.
    UnsupportedImage(String),
    /// An image could not be converted.
    ImageConversionError(String),
    /// The titlepage could not be generated.
    TitlepageGeneration,
    /// The stylesheet could not be found.
    MissingCss(String),
    /// A file could not be written.
    FileWriteError(String),
    /// Something else went wrong.
    Unspecified(&'static str),
    /// A resource could not be built.
    ResourceError(String),
    /// The EPUB could not be bundled.
    BundlingError(String),
}

/// What is done with an image of the manuscript.
#[derive(Debug, PartialEq, Eq)]
pub enum ImagePlan {
    /// An EPUB can show the image as it is.
    Keep,
    /// The image was converted, and the file at this path takes its place.
    Replace(String),
    /// The image could be converted, but no converted file was supplied.
    Unconverted,
    /// An EPUB cannot show the image, and it cannot be converted.
    Unsupported,
}

/// What an `ImagePlan` holds, as mathematics.
pub enum ImagePlanView {
    Keep,
    Replace(Seq<char>),
    Unconverted,
    Unsupported,
}

impl DeepView for ImagePlan {
    type V = ImagePlanView;

    open spec fn deep_view(&self) -> ImagePlanView {
        match self {
            ImagePlan::Keep => ImagePlanView::Keep,
            ImagePlan::Replace(p) => ImagePlanView::Replace(p@),
            ImagePlan::Unconverted => ImagePlanView::Unconverted,
            ImagePlan::Unsupported => ImagePlanView::Unsupported,
        }
    }
}

impl Clone for ImagePlan {
    fn clone(&self) -> (r: Self)
        ensures
            r.deep_view() == self.deep_view(),
    {
        match self {
            ImagePlan::Keep => ImagePlan::Keep,
            ImagePlan::Replace(p) => ImagePlan::Replace(p.clone()),
            ImagePlan::Unconverted => ImagePlan::Unconverted,
            ImagePlan::Unsupported => ImagePlan::Unsupported,
        }
    }
}

/// The plan for the image at `dest`: the plan of the first entry for it; an
/// image without an entry is kept as it is.
pub open spec fn plan_for(plans: Seq<(Seq<char>, ImagePlanView)>, dest: Seq<char>) -> ImagePlanView
    decreases plans.len(),
{
    if plans.len() == 0 {
        ImagePlanView::Keep
    } else if plans[0].0 == dest {
        plans[0].1
    } else {
        plan_for(plans.drop_first(), dest)
    }
}

/// Looks up the plan for an image.
pub fn find_plan(plans: &Vec<(String, ImagePlan)>, dest: &str) -> (r: ImagePlan)
    ensures
        r.deep_view() == plan_for(plans.deep_view(), dest@),
{
    let ghost all = plans.deep_view();
    let mut i: usize = 0;
    assert(all.skip(0) =~= all);
    while i < plans.len()
        invariant
            i <= plans.len(),
            all == plans.deep_view(),
            plan_for(all, dest@) == plan_for(all.skip(i as int), dest@),
        decreases plans.len() - i,
    {
        proof {
            assert(all.skip(i as int)[0] == plans[i as int].deep_view());
            assert(all.skip(i as int).drop_first() =~= all.skip(i + 1));
        }
        if crate::text::str_eq(plans[i].0.as_str(), dest) {
            return plans[i].1.clone();
        }
        i += 1;
    }
    assert(all.skip(plans.len() as int).len() == 0);
    ImagePlan::Keep
}

/// What the preparation of a stream carries along.
pub struct Prepared {
    /// The events of the prepared stream so far.
    pub events: Seq<BookEventView>,
    /// The definitions of the footnotes of the division that is open.
    pub footnotes: Seq<BookEventView>,
    /// The events of the footnote that is open.
    pub current_footnote: Seq<BookEventView>,
    pub in_footnote: bool,
    /// Whether the book has parts.
    pub has_parts: bool,
    /// How many footnotes were met, and markers used.
    pub used: nat,
    /// The image that failed the preparation, if one did.
    pub failed: Option<RenderingErrorView>,
}

/// What a `RenderingError` holds, as mathematics.
pub enum RenderingErrorView {
    MissingImage(Seq<char>),
    UnsupportedImage(Seq<char>),
    ImageConversionError(Seq<char>),
    TitlepageGeneration,
    MissingCss(Seq<char>),
    FileWriteError(Seq<char>),
    Unspecified(Seq<char>),
    ResourceError(Seq<char>),
    BundlingError(Seq<char>),
}

impl DeepView for RenderingError {
    type V = RenderingErrorView;

    open spec fn deep_view(&self) -> RenderingErrorView {
        match self {
            RenderingError::MissingImage(p) => RenderingErrorView::MissingImage(p@),
            RenderingError::UnsupportedImage(p) => RenderingErrorView::UnsupportedImage(p@),
            RenderingError::ImageConversionError(p) => RenderingErrorView::ImageConversionError(
                p@,
            ),
            RenderingError::TitlepageGeneration => RenderingErrorView::TitlepageGeneration,
            RenderingError::MissingCss(p) => RenderingErrorView::MissingCss(p@),
            RenderingError::FileWriteError(p) => RenderingErrorView::FileWriteError(p@),
            RenderingError::Unspecified(s) => RenderingErrorView::Unspecified(s@),
            RenderingError::ResourceError(s) => RenderingErrorView::ResourceError(s@),
            RenderingError::BundlingError(s) => RenderingErrorView::BundlingError(s@),
        }
    }
}

/// The preparation before the first event.
pub open spec fn unprepared() -> Prepared {
    Prepared {
        events: Seq::empty(),
        footnotes: Seq::empty(),
        current_footnote: Seq::empty(),
        in_footnote: false,
        has_parts: false,
        used: 0,
        failed: None,
    }
}

/// The marker of the footnote that is met as number `k`, or an empty one
/// where the markers have run out.
pub open spec fn marker_at(markers: Seq<Seq<char>>, k: nat) -> Seq<char> {
    if k < markers.len() {
        markers[k as int]
    } else {
        Seq::empty()
    }
}

/// What one event does to the preparation. A flattened footnote becomes a
/// reference where it stood and a definition that waits for the end of the
/// division; an image that an EPUB cannot show takes the converted file or
/// fails the preparation; once it has failed, nothing more is done.
pub open spec fn prepare_step(
    p: Prepared,
    e: BookEventView,
    markers: Seq<Seq<char>>,
    plans: Seq<(Seq<char>, ImagePlanView)>,
) -> Prepared {
    if p.failed is Some {
        p
    } else {
        match e {
            BookEventView::BeginSemantic(SemanticRole::Part) => Prepared {
                has_parts: true,
                events: p.events.push(e),
                ..p
            },
            BookEventView::EndSemantic(_) => Prepared {
                events: (p.events + p.footnotes).push(e),
                footnotes: Seq::empty(),
                ..p
            },
            BookEventView::Event(EventView::Start(TagView::FlattenedFootnote)) => Prepared {
                in_footnote: true,
                ..p
            },
            BookEventView::Event(EventView::End(TagView::FlattenedFootnote)) => {
                let marker = marker_at(markers, p.used);
                Prepared {
                    footnotes: (p.footnotes.push(
                        BookEventView::Event(
                            EventView::Start(TagView::FootnoteDefinition(marker)),
                        ),
                    ) + p.current_footnote).push(
                        BookEventView::Event(EventView::End(TagView::FootnoteDefinition(marker))),
                    ),
                    current_footnote: Seq::empty(),
                    in_footnote: false,
                    events: p.events.push(
                        BookEventView::Event(EventView::FootnoteReference(marker)),
                    ),
                    used: p.used + 1,
                    ..p
                }
            },
            BookEventView::Event(EventView::End(TagView::Image(t, dest, alt))) => match plan_for(
                plans,
                dest,
            ) {
                ImagePlanView::Replace(path) => Prepared {
                    events: p.events.push(
                        BookEventView::Event(EventView::End(TagView::Image(t, path, alt))),
                    ),
                    ..p
                },
                _ => Prepared { events: p.events.push(e), ..p },
            },
            BookEventView::Event(EventView::Start(TagView::Image(t, dest, alt))) => match plan_for(
                plans,
                dest,
            ) {
                ImagePlanView::Keep => Prepared { events: p.events.push(e), ..p },
                ImagePlanView::Replace(path) => Prepared {
                    events: p.events.push(
                        BookEventView::Event(EventView::Start(TagView::Image(t, path, alt))),
                    ),
                    ..p
                },
                ImagePlanView::Unconverted => Prepared {
                    failed: Some(RenderingErrorView::ImageConversionError(dest)),
                    ..p
                },
                ImagePlanView::Unsupported => Prepared {
                    failed: Some(RenderingErrorView::UnsupportedImage(dest)),
                    ..p
                },
            },
            other => if p.in_footnote {
                Prepared { current_footnote: p.current_footnote.push(other), ..p }
            } else {
                Prepared { events: p.events.push(other), ..p }
            },
        }
    }
}

/// The preparation after all of `src`.
pub open spec fn prepared(
    src: Seq<BookEventView>,
    markers: Seq<Seq<char>>,
    plans: Seq<(Seq<char>, ImagePlanView)>,
) -> Prepared
    decreases src.len(),
{
    if src.len() == 0 {
        unprepared()
    } else {
        prepare_step(prepared(src.drop_last(), markers, plans), src.last(), markers, plans)
    }
}

/// How many flattened footnotes end in a stream.
pub open spec fn footnotes_in(src: Seq<BookEventView>) -> nat {
    crate::book_event::count_of(
        src,
        BookEventView::Event(EventView::End(TagView::FlattenedFootnote)),
    )
}

/// The preparation uses no more markers than footnotes end in the stream.
pub proof fn lemma_prepared_uses(
    src: Seq<BookEventView>,
    markers: Seq<Seq<char>>,
    plans: Seq<(Seq<char>, ImagePlanView)>,
)
    ensures
        prepared(src, markers, plans).used <= footnotes_in(src),
    decreases src.len(),
{
    if src.len() > 0 {
        lemma_prepared_uses(src.drop_last(), markers, plans);
    }
}

/// A prefix of a stream ends no more footnotes than the stream.
pub proof fn lemma_footnotes_in_prefix(src: Seq<BookEventView>, i: int)
    requires
        0 <= i <= src.len(),
    ensures
        footnotes_in(src.take(i)) <= footnotes_in(src),
    decreases src.len() - i,
{
    if i < src.len() {
        lemma_footnotes_in_prefix(src, i + 1);
        assert(src.take(i + 1).drop_last() =~= src.take(i));
    } else {
        assert(src.take(i) =~= src);
    }
}

/// Whether an event is a token that a page can take, or no token at all.
pub open spec fn page_event(e: BookEventView) -> bool {
    e matches BookEventView::Event(t) ==> pushable(t)
}

/// Whether every token of a stream can be written on a page.
pub open spec fn page_ready(stream: Seq<BookEventView>) -> bool {
    forall|i: int| 0 <= i < stream.len() ==> page_event(#[trigger] stream[i])
}

/// The prepared stream, and what waits to be set into it, hold no flattened
/// footnote.
pub proof fn lemma_prepared_is_page_ready(
    src: Seq<BookEventView>,
    markers: Seq<Seq<char>>,
    plans: Seq<(Seq<char>, ImagePlanView)>,
)
    ensures
        page_ready(prepared(src, markers, plans).events),
        page_ready(prepared(src, markers, plans).footnotes),
        page_ready(prepared(src, markers, plans).current_footnote),
    decreases src.len(),
{
    if src.len() > 0 {
        lemma_prepared_is_page_ready(src.drop_last(), markers, plans);
        let p = prepared(src.drop_last(), markers, plans);
        let q = prepared(src, markers, plans);
        assert(q == prepare_step(p, src.last(), markers, plans));
        assert forall|i: int| 0 <= i < q.events.len() implies page_event(
            #[trigger] q.events[i],
        ) by {
            if i < p.events.len() {
                assert(page_event(p.events[i]));
            } else if i < p.events.len() + p.footnotes.len() {
                assert(page_event(p.footnotes[i - p.events.len()]));
            }
        }
        assert forall|i: int| 0 <= i < q.footnotes.len() implies page_event(
            #[trigger] q.footnotes[i],
        ) by {
            if i < p.footnotes.len() {
                assert(page_event(p.footnotes[i]));
            } else if 0 <= i - p.footnotes.len() - 1 < p.current_footnote.len() {
                assert(page_event(p.current_footnote[i - p.footnotes.len() - 1]));
            }
        }
        assert forall|i: int| 0 <= i < q.current_footnote.len() implies page_event(
            #[trigger] q.current_footnote[i],
        ) by {
            if i < p.current_footnote.len() {
                assert(page_event(p.current_footnote[i]));
            }
        }
    }
}

fn push_event(events: &mut Vec<BookEvent>, e: BookEvent)
    ensures
        final(events).deep_view() == old(events).deep_view().push(e.deep_view()),
{
    proof {
        broadcast use group_views;

    }
    events.push(e);
}

fn move_events(events: &mut Vec<BookEvent>, more: &mut Vec<BookEvent>)
    ensures
        final(events).deep_view() == old(events).deep_view() + old(more).deep_view(),
        final(more).deep_view() == Seq::<BookEventView>::empty(),
{
    proof {
        broadcast use group_views;

    }
    events.append(more);
    assert(more.deep_view() =~= Seq::empty());
}

/// Prepares a stream for its pages: finds out whether the book has parts,
/// turns every flattened footnote into a reference with a marker of its
/// own and a definition behind the division, and carries out the plan for
/// every image. An image that cannot be shown fails the preparation.
pub fn preprocess_with(
    src: &Vec<BookEvent>,
    markers: &Vec<String>,
    plans: &Vec<(String, ImagePlan)>,
) -> (r: Result<(bool, Vec<BookEvent>), RenderingError>)
    requires
        footnotes_in(src.deep_view()) <= markers.len(),
    ensures
        match prepared(src.deep_view(), markers.deep_view(), plans.deep_view()).failed {
            Some(e) => r is Err && r->Err_0.deep_view() == e,
            None => r is Ok && r->Ok_0.0 == prepared(
                src.deep_view(),
                markers.deep_view(),
                plans.deep_view(),
            ).has_parts && r->Ok_0.1.deep_view() == prepared(
                src.deep_view(),
                markers.deep_view(),
                plans.deep_view(),
            ).events,
        },
{
    let ghost stream = src.deep_view();
    let ghost ms = markers.deep_view();
    let ghost ps = plans.deep_view();
    let mut events: Vec<BookEvent> = Vec::new();
    let mut footnotes: Vec<BookEvent> = Vec::new();
    let mut current_footnote: Vec<BookEvent> = Vec::new();
    let mut in_footnote = false;
    let mut has_parts = false;
    let mut used: usize = 0;
    let n = src.len();
    let mut i: usize = 0;
    proof {
        assert(events.deep_view() =~= Seq::empty());
        assert(footnotes.deep_view() =~= Seq::empty());
        assert(current_footnote.deep_view() =~= Seq::empty());
    }
    while i < n
        invariant
            i <= n,
            n == src.len(),
            stream == src.deep_view(),
            ms == markers.deep_view(),
            ps == plans.deep_view(),
            footnotes_in(stream) <= markers.len(),
            prepared(stream.take(i as int), ms, ps) == (Prepared {
                events: events.deep_view(),
                footnotes: footnotes.deep_view(),
                current_footnote: current_footnote.deep_view(),
                in_footnote,
                has_parts,
                used: used as nat,
                failed: None,
            }),
        decreases n - i,
    {
        proof {
            assert(stream.take(i + 1).drop_last() =~= stream.take(i as int));
            assert(stream.take(i + 1).last() == src[i as int].deep_view());
            lemma_prepared_uses(stream.take(i + 1), ms, ps);
            lemma_footnotes_in_prefix(stream, i + 1);
            assert(ms.len() == markers.len());
        }
        let ghost before = prepared(stream.take(i as int), ms, ps);
        match &src[i] {
            BookEvent::BeginSemantic(SemanticRole::Part) => {
                has_parts = true;
                push_event(&mut events, src[i].clone());
            },
            BookEvent::EndSemantic(_) => {
                move_events(&mut events, &mut footnotes);
                push_event(&mut events, src[i].clone());
            },
            BookEvent::Event(Event::Start(Tag::FlattenedFootnote)) => {
                in_footnote = true;
            },
            BookEvent::Event(Event::End(Tag::FlattenedFootnote)) => {
                assert(ms[used as int] == markers[used as int]@);
                let marker = markers[used].clone();
                push_event(
                    &mut footnotes,
                    BookEvent::Event(Event::Start(Tag::FootnoteDefinition(marker.clone()))),
                );
                move_events(&mut footnotes, &mut current_footnote);
                push_event(
                    &mut footnotes,
                    BookEvent::Event(Event::End(Tag::FootnoteDefinition(marker.clone()))),
                );
                in_footnote = false;
                push_event(&mut events, BookEvent::Event(Event::FootnoteReference(marker)));
                used += 1;
            },
            BookEvent::Event(Event::End(Tag::Image(t, dest, alt))) => {
                match find_plan(plans, dest.as_str()) {
                    ImagePlan::Replace(path) => {
                        push_event(
                            &mut events,
                            BookEvent::Event(Event::End(Tag::Image(*t, path, alt.clone()))),
                        );
                    },
                    _ => {
                        push_event(&mut events, src[i].clone());
                    },
                }
            },
            BookEvent::Event(Event::Start(Tag::Image(t, dest, alt))) => {
                match find_plan(plans, dest.as_str()) {
                    ImagePlan::Keep => {
                        push_event(&mut events, src[i].clone());
                    },
                    ImagePlan::Replace(path) => {
                        push_event(
                            &mut events,
                            BookEvent::Event(Event::Start(Tag::Image(*t, path, alt.clone()))),
                        );
                    },
                    ImagePlan::Unconverted => {
                        proof {
                            lemma_failed_stays(stream, ms, ps, i + 1);
                        }
                        return Err(RenderingError::ImageConversionError(dest.clone()));
                    },
                    ImagePlan::Unsupported => {
                        proof {
                            lemma_failed_stays(stream, ms, ps, i + 1);
                        }
                        return Err(RenderingError::UnsupportedImage(dest.clone()));
                    },
                }
            },
            other => {
                if in_footnote {
                    push_event(&mut current_footnote, other.clone());
                } else {
                    push_event(&mut events, other.clone());
                }
            },
        }
        i += 1;
    }
    assert(stream.take(n as int) =~= stream);
    Ok((has_parts, events))
}

/// Once the preparation has failed, it stays failed with the same error.
pub proof fn lemma_failed_stays(
    src: Seq<BookEventView>,
    markers: Seq<Seq<char>>,
    plans: Seq<(Seq<char>, ImagePlanView)>,
    i: int,
)
    requires
        0 <= i <= src.len(),
        prepared(src.take(i), markers, plans).failed is Some,
    ensures
        prepared(src, markers, plans).failed == prepared(src.take(i), markers, plans).failed,
    decreases src.len() - i,
{
    if i < src.len() {
        assert(src.take(i + 1).drop_last() =~= src.take(i));
        lemma_failed_stays(src, markers, plans, i + 1);
    } else {
        assert(src.take(i) =~= src);
    }
}

/// What the pages of a book are made with: the stylesheet, the file names
/// of the images, and the image of the titlepage.
#[derive(Debug)]
pub struct PageSettings {
    /// The stylesheet: its path, and its file name in the EPUB.
    pub css: Option<(String, String)>,
    /// For each image of the book, its destination in the manuscript and
    /// its file name in the EPUB.
    pub image_names: Vec<(String, String)>,
    /// The image of the titlepage: its file name in the EPUB, and its path.
    pub titlepage: (String, String),
}

/// What a `PageSettings` holds, as mathematics.
pub struct PageSettingsView {
    pub css: Option<(Seq<char>, Seq<char>)>,
    pub image_names: Seq<(Seq<char>, Seq<char>)>,
    pub titlepage: (Seq<char>, Seq<char>),
}

impl DeepView for PageSettings {
    type V = PageSettingsView;

    open spec fn deep_view(&self) -> PageSettingsView {
        PageSettingsView {
            css: self.css.deep_view(),
            image_names: self.image_names.deep_view(),
            titlepage: self.titlepage.deep_view(),
        }
    }
}

/// The pages that are finished, and the page that is being written.
pub struct PagesState {
    pub pages: Seq<EpubPageView>,
    pub current: Option<XhtmlState>,
}

/// A page of a role with nothing written, with the stylesheet and the
/// image names of the book.
pub open spec fn page_for(role: SemanticRole, settings: PageSettingsView) -> XhtmlState {
    XhtmlState { css: settings.css, image_names: settings.image_names, ..blank_page(role) }
}

/// The markup that shows the image of the titlepage.
pub open spec fn titlepage_markup(filename: Seq<char>) -> Seq<char> {
    "<img alt=\"The titlepage\" src=\""@ + filename
        + "\" style=\"display: block; width: 100%; margin: auto; page-break-after: always;\"/>"@
}

/// The page of the titlepage: its image, which is a resource of the page.
pub open spec fn titlepage_page(settings: PageSettingsView) -> EpubPageView {
    let written = blank_page(SemanticRole::Titlepage).pushed(
        EventView::Html(titlepage_markup(settings.titlepage.0)),
    );
    (XhtmlState {
        associated_resources: written.associated_resources.push(settings.titlepage.1),
        ..written
    }).finished()
}

impl PagesState {
    /// The page that is being written, or a chapter page where none is.
    pub open spec fn page(self, settings: PageSettingsView) -> XhtmlState {
        match self.current {
            Some(p) => p,
            None => page_for(SemanticRole::Chapter, settings),
        }
    }

    /// The finished pages, with the page that is being written finished too.
    pub open spec fn closed(self) -> Seq<EpubPageView> {
        match self.current {
            Some(p) => self.pages.push(p.finished()),
            None => self.pages,
        }
    }
}

/// What the event at `pos` does to the pages, and the position at which the
/// walk goes on. A division begins a page and its end finishes it; an
/// epigraph and the titlepage are pages of their own; every matter has an
/// empty page that stands for it in the table of contents, but for the
/// mainmatter of a book with parts.
pub open spec fn pages_step(
    st: PagesState,
    stream: Seq<BookEventView>,
    pos: int,
    has_parts: bool,
    settings: PageSettingsView,
) -> (PagesState, int) {
    let behind = pos + 1;
    match stream[pos] {
        BookEventView::Event(e) => (
            PagesState { current: Some(st.page(settings).pushed(e)), ..st },
            behind,
        ),
        BookEventView::BeginTitlePage => (
            PagesState { pages: st.pages.push(titlepage_page(settings)), ..st },
            after_region(stream, behind, |e: BookEventView| ends_titlepage(e)),
        ),
        BookEventView::BeginDivisionHeader(is_starred) => (
            PagesState {
                current: Some(
                    st.page(settings).header_written(
                        header_of(
                            region(stream, behind, |e: BookEventView| ends_header(e)),
                            is_starred,
                        ),
                    ),
                ),
                ..st
            },
            after_region(stream, behind, |e: BookEventView| ends_header(e)),
        ),
        BookEventView::BeginSemantic(SemanticRole::Epigraph) => {
            let scan = epigraph_scan(region(stream, behind, |e: BookEventView| ends_epigraph(e)));
            (
                PagesState {
                    pages: st.closed().push(
                        page_for(SemanticRole::Epigraph, settings).epigraph_written(
                            scan.text,
                            scan.source,
                        ).finished(),
                    ),
                    current: None,
                },
                after_region(stream, behind, |e: BookEventView| ends_epigraph(e)),
            )
        },
        BookEventView::BeginSemantic(role) => (
            PagesState { current: Some(page_for(role, settings)), ..st },
            behind,
        ),
        BookEventView::EndSemantic(_) => (PagesState { pages: st.closed(), current: None }, behind),
        BookEventView::BeginMainmatter => (
            if has_parts {
                st
            } else {
                PagesState { pages: st.pages.push(empty_page("Mainmatter"@)), ..st }
            },
            behind,
        ),
        BookEventView::BeginFrontmatter => (
            PagesState { pages: st.pages.push(empty_page("Frontmatter"@)), ..st },
            behind,
        ),
        BookEventView::BeginBackmatter => (
            PagesState { pages: st.pages.push(empty_page("Backmatter"@)), ..st },
            behind,
        ),
        _ => (st, behind),
    }
}

/// The pages after the walk from `pos` to the end of the stream.
pub open spec fn pages_from(
    st: PagesState,
    stream: Seq<BookEventView>,
    pos: int,
    has_parts: bool,
    settings: PageSettingsView,
) -> PagesState
    decreases stream.len() - pos,
{
    if pos < 0 || pos >= stream.len() {
        st
    } else {
        let (next_state, next) = pages_step(st, stream, pos, has_parts, settings);
        if next > pos {
            pages_from(next_state, stream, next, has_parts, settings)
        } else {
            next_state
        }
    }
}

/// The pages of a prepared stream.
pub open spec fn pages_of_stream(
    stream: Seq<BookEventView>,
    has_parts: bool,
    settings: PageSettingsView,
) -> Seq<EpubPageView> {
    pages_from(
        PagesState { pages: Seq::empty(), current: None },
        stream,
        0,
        has_parts,
        settings,
    ).closed()
}

/// The text and the source of an epigraph of a stream that is ready for
/// its pages can be written on a page.
pub proof fn lemma_epigraph_pushable(events: Seq<BookEventView>)
    requires
        page_ready(events),
    ensures
        all_pushable(epigraph_scan(events).text),
        all_pushable(epigraph_scan(events).source),
    decreases events.len(),
{
    if events.len() > 0 {
        assert(page_ready(events.drop_last())) by {
            assert forall|i: int| 0 <= i < events.drop_last().len() implies page_event(
                #[trigger] events.drop_last()[i],
            ) by {
                assert(events.drop_last()[i] == events[i]);
            }
        }
        lemma_epigraph_pushable(events.drop_last());
        assert(page_event(events[events.len() - 1]));
    }
}

/// A region of a stream that is ready for its pages is ready for them.
pub proof fn lemma_region_page_ready(
    stream: Seq<BookEventView>,
    pos: int,
    ends: spec_fn(BookEventView) -> bool,
)
    requires
        page_ready(stream),
        0 <= pos <= stream.len(),
    ensures
        page_ready(region(stream, pos, ends)),
{
    crate::seqs::lemma_first_index(stream.skip(pos), ends);
    let r = region(stream, pos, ends);
    assert forall|i: int| 0 <= i < r.len() implies page_event(#[trigger] r[i]) by {
        assert(r[i] == stream[pos + i]);
    }
}

fn copy_pairs(pairs: &Vec<(String, String)>) -> (r: Vec<(String, String)>)
    ensures
        r.deep_view() == pairs.deep_view(),
{
    let mut out: Vec<(String, String)> = Vec::new();
    let mut i: usize = 0;
    while i < pairs.len()
        invariant
            i <= pairs.len(),
            out.deep_view() == pairs.deep_view().take(i as int),
        decreases pairs.len() - i,
    {
        out.push((pairs[i].0.clone(), pairs[i].1.clone()));
        proof {
            broadcast use group_views;

            assert(pairs.deep_view().take(i + 1) =~= pairs.deep_view().take(i as int).push(
                pairs[i as int].deep_view(),
            ));
        }
        i += 1;
    }
    assert(pairs.deep_view().take(pairs.len() as int) =~= pairs.deep_view());
    out
}

fn new_page(role: SemanticRole, settings: &PageSettings) -> (r: XhtmlWriter)
    ensures
        r.deep_view() == page_for(role, settings.deep_view()),
{
    let mut writer = XhtmlWriter::new(role);
    writer.css = match &settings.css {
        Some((path, filename)) => Some((path.clone(), filename.clone())),
        None => None,
    };
    writer.image_names = copy_pairs(&settings.image_names);
    writer
}

fn make_titlepage_page(settings: &PageSettings) -> (r: EpubPage)
    ensures
        r.deep_view() == titlepage_page(settings.deep_view()),
{
    let mut writer = XhtmlWriter::new(SemanticRole::Titlepage);
    let mut image = String::from_str("<img alt=\"The titlepage\" src=\"");
    image.append(settings.titlepage.0.as_str());
    image.append(
        "\" style=\"display: block; width: 100%; margin: auto; page-break-after: always;\"/>",
    );
    writer.push(&Event::Html(image));
    proof {
        broadcast use group_views;

    }
    writer.associated_resources.push(settings.titlepage.1.clone());
    writer.finish()
}

fn close_page(pages: &mut Vec<EpubPage>, current: Option<XhtmlWriter>)
    ensures
        final(pages).deep_view() == (PagesState {
            pages: old(pages).deep_view(),
            current: current.deep_view(),
        }).closed(),
{
    proof {
        broadcast use group_views;

    }
    match current {
        Some(cp) => {
            pages.push(cp.finish());
        },
        None => {},
    }
}

fn push_page(pages: &mut Vec<EpubPage>, page: EpubPage)
    ensures
        final(pages).deep_view() == old(pages).deep_view().push(page.deep_view()),
{
    proof {
        broadcast use group_views;

    }
    pages.push(page);
}

fn page_or_new(current: Option<XhtmlWriter>, settings: &PageSettings) -> (r: XhtmlWriter)
    ensures
        r.deep_view() == (PagesState { pages: Seq::empty(), current: current.deep_view() }).page(
            settings.deep_view(),
        ),
{
    match current {
        Some(cp) => cp,
        None => new_page(SemanticRole::Chapter, settings),
    }
}

/// Handles the event at `pos` and hands back the position at which the
/// walk goes on.
#[verifier::rlimit(50)]
pub fn pages_at(
    pages: &mut Vec<EpubPage>,
    current: Option<XhtmlWriter>,
    events: &Vec<BookEvent>,
    pos: usize,
    has_parts: bool,
    settings: &PageSettings,
) -> (r: (Option<XhtmlWriter>, usize))
    requires
        pos < events.len(),
        page_ready(events.deep_view()),
    ensures
        (PagesState { pages: final(pages).deep_view(), current: r.0.deep_view() }, r.1 as int)
            == pages_step(
            PagesState { pages: old(pages).deep_view(), current: current.deep_view() },
            events.deep_view(),
            pos as int,
            has_parts,
            settings.deep_view(),
        ),
        pos < r.1 <= events.len(),
{
    let ghost stream = events.deep_view();
    proof {
        assert(stream[pos as int] == events[pos as int].deep_view());
        assert(page_event(stream[pos as int]));
        law_collation_moves_forward(stream, pos + 1, |e: BookEventView| ends_titlepage(e));
        law_collation_moves_forward(stream, pos + 1, |e: BookEventView| ends_header(e));
        law_collation_moves_forward(stream, pos + 1, |e: BookEventView| ends_epigraph(e));
    }
    match &events[pos] {
        BookEvent::Event(e) => {
            let mut cp = page_or_new(current, settings);
            cp.push(e);
            (Some(cp), pos + 1)
        },
        BookEvent::BeginTitlePage => {
            let (_, next) = collate_titlepage(events, pos + 1);
            push_page(pages, make_titlepage_page(settings));
            (current, next)
        },
        BookEvent::BeginDivisionHeader(is_starred) => {
            let (header, next) = collate_division_header::<EpubMarker>(
                events,
                pos + 1,
                *is_starred,
            );
            let mut cp = page_or_new(current, settings);
            cp.write_division_header(&header);
            (Some(cp), next)
        },
        BookEvent::BeginSemantic(SemanticRole::Epigraph) => {
            close_page(pages, current);
            let mut writer = new_page(SemanticRole::Epigraph, settings);
            let (epigraph, next) = collate_epigraph(events, pos + 1);
            proof {
                let ends = |e: BookEventView| ends_epigraph(e);
                lemma_region_page_ready(stream, pos + 1, ends);
                lemma_epigraph_pushable(region(stream, pos + 1, ends));
            }
            writer.write_epigraph(&epigraph.text, &epigraph.source);
            push_page(pages, writer.finish());
            (None, next)
        },
        BookEvent::BeginSemantic(role) => (Some(new_page(*role, settings)), pos + 1),
        BookEvent::EndSemantic(_) => {
            close_page(pages, current);
            (None, pos + 1)
        },
        BookEvent::BeginMainmatter => {
            if !has_parts {
                push_page(pages, EpubPage::new_empty("Mainmatter"));
            }
            (current, pos + 1)
        },
        BookEvent::BeginFrontmatter => {
            push_page(pages, EpubPage::new_empty("Frontmatter"));
            (current, pos + 1)
        },
        BookEvent::BeginBackmatter => {
            push_page(pages, EpubPage::new_empty("Backmatter"));
            (current, pos + 1)
        },
        _ => (current, pos + 1),
    }
}

/// Walks a prepared stream once and makes its pages.
pub fn pages_of(events: &Vec<BookEvent>, has_parts: bool, settings: &PageSettings) -> (r: Vec<
    EpubPage,
>)
    requires
        page_ready(events.deep_view()),
    ensures
        r.deep_view() == pages_of_stream(events.deep_view(), has_parts, settings.deep_view()),
{
    let ghost stream = events.deep_view();
    let ghost s = settings.deep_view();
    let mut pages: Vec<EpubPage> = Vec::new();
    let mut current: Option<XhtmlWriter> = None;
    let n = events.len();
    let mut i: usize = 0;
    proof {
        assert(pages.deep_view() =~= Seq::empty());
    }
    while i < n
        invariant
            i <= n,
            n == events.len(),
            stream == events.deep_view(),
            s == settings.deep_view(),
            page_ready(stream),
            pages_from(
                PagesState { pages: pages.deep_view(), current: current.deep_view() },
                stream,
                i as int,
                has_parts,
                s,
            ) == pages_from(
                PagesState { pages: Seq::empty(), current: None },
                stream,
                0,
                has_parts,
                s,
            ),
        decreases n - i,
    {
        let (page, next) = pages_at(&mut pages, current, events, i, has_parts, settings);
        current = page;
        i = next;
    }
    close_page(&mut pages, current);
    pages
}

/// The stream of a book as the options show it: headers in the chosen
/// format, chapters under the chosen label.
pub open spec fn shown_stream(contents: Seq<BookEventView>, options: OptionsView) -> Seq<
    BookEventView,
> {
    reformatted(contents, options.header_options).map_values(
        |e: BookEventView| relabelled(options.chapter_label, e),
    )
}

/// The pages of a book, or the error that its preparation met.
pub open spec fn epub_pages(
    contents: Seq<BookEventView>,
    options: OptionsView,
    settings: PageSettingsView,
    markers: Seq<Seq<char>>,
    plans: Seq<(Seq<char>, ImagePlanView)>,
) -> Result<Seq<EpubPageView>, RenderingErrorView> {
    let p = prepared(shown_stream(contents, options), markers, plans);
    match p.failed {
        Some(e) => Err(e),
        None => Ok(pages_of_stream(p.events, p.has_parts, settings)),
    }
}

/// Whether an event ends a flattened footnote.
pub open spec fn is_footnote_end(e: BookEventView) -> bool {
    e == BookEventView::Event(EventView::End(TagView::FlattenedFootnote))
}

/// Two streams that end footnotes at the same places end as many.
pub proof fn lemma_same_footnotes(a: Seq<BookEventView>, b: Seq<BookEventView>)
    requires
        a.len() == b.len(),
        forall|i: int| 0 <= i < a.len() ==> is_footnote_end(#[trigger] a[i]) == is_footnote_end(b[i]),
    ensures
        footnotes_in(a) == footnotes_in(b),
    decreases a.len(),
{
    if a.len() > 0 {
        assert forall|i: int| 0 <= i < a.drop_last().len() implies is_footnote_end(
            #[trigger] a.drop_last()[i],
        ) == is_footnote_end(b.drop_last()[i]) by {
            assert(a.drop_last()[i] == a[i]);
            assert(b.drop_last()[i] == b[i]);
            assert(is_footnote_end(a[i]) == is_footnote_end(b[i]));
        }
        lemma_same_footnotes(a.drop_last(), b.drop_last());
        assert(is_footnote_end(a[a.len() - 1]) == is_footnote_end(b[a.len() - 1]));
    }
}

/// The stream as the options show it ends as many footnotes as the stream.
pub proof fn lemma_shown_footnotes(contents: Seq<BookEventView>, options: OptionsView)
    ensures
        footnotes_in(shown_stream(contents, options)) == footnotes_in(contents),
{
    let shown = shown_stream(contents, options);
    assert forall|i: int| 0 <= i < shown.len() implies is_footnote_end(#[trigger] shown[i])
        == is_footnote_end(contents[i]) by {
        let r = reformatted(contents, options.header_options);
        assert(shown[i] == relabelled(options.chapter_label, r[i]));
    }
    lemma_same_footnotes(shown, contents);
}

/// Counts the flattened footnotes of a stream.
pub fn count_footnotes(events: &Vec<BookEvent>) -> (r: usize)
    ensures
        r == footnotes_in(events.deep_view()),
{
    let ghost stream = events.deep_view();
    let mut count: usize = 0;
    let mut i: usize = 0;
    while i < events.len()
        invariant
            i <= events.len(),
            stream == events.deep_view(),
            count <= i,
            count == footnotes_in(stream.take(i as int)),
        decreases events.len() - i,
    {
        proof {
            assert(stream.take(i + 1).drop_last() =~= stream.take(i as int));
            assert(stream.take(i + 1).last() == events[i as int].deep_view());
        }
        match &events[i] {
            BookEvent::Event(Event::End(Tag::FlattenedFootnote)) => {
                count += 1;
            },
            _ => {},
        }
        i += 1;
    }
    assert(stream.take(events.len() as int) =~= stream);
    count
}

fn take_events(events: &mut Vec<BookEvent>) -> (r: Vec<BookEvent>)
    ensures
        r.deep_view() == old(events).deep_view(),
        final(events).deep_view() == Seq::<BookEventView>::empty(),
{
    let mut out: Vec<BookEvent> = Vec::new();
    proof {
        assert(out.deep_view() =~= Seq::empty());
    }
    move_events(&mut out, events);
    assert(out.deep_view() =~= old(events).deep_view());
    out
}

impl BookSrc {
    /// Turns the stream of this book into the pages of an EPUB. The stream
    /// is used up. `markers` names the footnotes, one marker for each;
    /// `plans` says what is done with each image.
    pub fn get_pages_with(
        &mut self,
        options: &Options,
        settings: &PageSettings,
        markers: &Vec<String>,
        plans: &Vec<(String, ImagePlan)>,
    ) -> (r: Result<Vec<EpubPage>, RenderingError>)
        requires
            footnotes_in(old(self).deep_view().contents) <= markers.len(),
        ensures
            match epub_pages(
                old(self).deep_view().contents,
                options.deep_view(),
                settings.deep_view(),
                markers.deep_view(),
                plans.deep_view(),
            ) {
                Ok(pages) => r is Ok && r->Ok_0.deep_view() == pages,
                Err(e) => r is Err && r->Err_0.deep_view() == e,
            },
            final(self).deep_view() == (BookSrcView {
                contents: Seq::empty(),
                ..old(self).deep_view()
            }),
    {
        let ghost contents = self.deep_view().contents;
        let ghost shown = shown_stream(contents, options.deep_view());
        proof {
            lemma_shown_footnotes(contents, options.deep_view());
        }
        self.change_headers(options.header_options);
        options.modify_events(&mut self.contents);
        let events = take_events(&mut self.contents);
        match preprocess_with(&events, markers, plans) {
            Err(e) => Err(e),
            Ok((has_parts, prepared_events)) => {
                proof {
                    lemma_prepared_is_page_ready(shown, markers.deep_view(), plans.deep_view());
                }
                Ok(pages_of(&prepared_events, has_parts, settings))
            },
        }
    }
}

} // verus!
