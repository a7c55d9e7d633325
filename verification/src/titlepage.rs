//! What the generator of a titlepage image is given: the words of title
//! and subtitle, marked where they are emphasised, and the contributors.

use crate::escape::{escape_to_html, html_escaped};
use crate::events::{Event, EventView, Tag, TagView};
use crate::helpers::CollatedTitlePage;
use crate::seqs::group_views;
use vstd::prelude::*;
use vstd::string::*;

verus! {

/// A run of text of a title.
#[derive(Debug, PartialEq, Eq)]
pub enum TitleEvent {
    /// Text as it is.
    Text(String),
    /// Text that is emphasised.
    Emphasised(String),
}

/// What a `TitleEvent` holds, as mathematics.
pub enum TitleEventView {
    Text(Seq<char>),
    Emphasised(Seq<char>),
}

impl DeepView for TitleEvent {
    type V = TitleEventView;

    open spec fn deep_view(&self) -> TitleEventView {
        match self {
            TitleEvent::Text(t) => TitleEventView::Text(t@),
            TitleEvent::Emphasised(t) => TitleEventView::Emphasised(t@),
        }
    }
}

/// How deep in emphasis the reader is after these tokens, counting an end
/// without a start as minus one.
pub open spec fn emphasis_depth(tokens: Seq<EventView>) -> int
    decreases tokens.len(),
{
    if tokens.len() == 0 {
        0
    } else {
        emphasis_depth(tokens.drop_last()) + match tokens.last() {
            EventView::Start(TagView::Emphasis) => 1int,
            EventView::End(TagView::Emphasis) => -1int,
            _ => 0int,
        }
    }
}

/// The runs of text of a title: every text escaped, and marked as
/// emphasised where it stands inside emphasis.
pub open spec fn title_runs(tokens: Seq<EventView>) -> Seq<TitleEventView>
    decreases tokens.len(),
{
    if tokens.len() == 0 {
        Seq::empty()
    } else {
        match tokens.last() {
            EventView::Text(t) => title_runs(tokens.drop_last()).push(
                if emphasis_depth(tokens.drop_last()) > 0 {
                    TitleEventView::Emphasised(html_escaped(t))
                } else {
                    TitleEventView::Text(html_escaped(t))
                },
            ),
            _ => title_runs(tokens.drop_last()),
        }
    }
}

/// Turns the tokens of a title into runs of text.
pub fn map_events(events: &Vec<Event>) -> (r: Vec<TitleEvent>)
    ensures
        r.deep_view() == title_runs(events.deep_view()),
{
    let ghost ev = events.deep_view();
    let mut out: Vec<TitleEvent> = Vec::new();
    let mut opened: usize = 0;
    let mut closed: usize = 0;
    let mut i: usize = 0;
    proof {
        broadcast use group_views;

    }
    while i < events.len()
        invariant
            i <= events.len(),
            ev == events.deep_view(),
            opened <= i,
            closed <= i,
            opened - closed == emphasis_depth(ev.take(i as int)),
            out.deep_view() == title_runs(ev.take(i as int)),
        decreases events.len() - i,
    {
        proof {
            broadcast use group_views;

            assert(ev.take(i + 1).drop_last() =~= ev.take(i as int));
            assert(ev.take(i + 1).last() == events[i as int].deep_view());
        }
        match &events[i] {
            Event::Text(t) => {
                let text = escape_to_html(t.as_str());
                if opened > closed {
                    out.push(TitleEvent::Emphasised(text));
                } else {
                    out.push(TitleEvent::Text(text));
                }
            },
            Event::Start(Tag::Emphasis) => {
                opened += 1;
            },
            Event::End(Tag::Emphasis) => {
                closed += 1;
            },
            _ => {},
        }
        i += 1;
    }
    assert(ev.take(events.len() as int) =~= ev);
    out
}

/// What a titlepage image is generated from.
#[derive(Debug)]
pub struct TitlePageSource {
    pub title_events: Vec<TitleEvent>,
    pub subtitle_events: Option<Vec<TitleEvent>>,
    pub contributors: Option<Vec<(Option<&'static str>, Vec<String>)>>,
    pub logo: Option<String>,
    pub typeface: Option<String>,
}

impl TitlePageSource {
    /// The source of the image of a titlepage.
    pub fn new(page: CollatedTitlePage, logo: Option<String>, typeface: Option<String>) -> (r: Self)
        ensures
            r.title_events.deep_view() == title_runs(page.title.deep_view()),
            r.subtitle_events.deep_view() == match page.subtitle.deep_view() {
                Some(s) => Some(title_runs(s)),
                None => None,
            },
            r.contributors.deep_view() == page.contributors.deep_view(),
            r.logo.deep_view() == logo.deep_view(),
            r.typeface.deep_view() == typeface.deep_view(),
    {
        let title_events = map_events(&page.title);
        let subtitle_events = match &page.subtitle {
            Some(s) => Some(map_events(s)),
            None => None,
        };
        TitlePageSource {
            title_events,
            subtitle_events,
            contributors: page.contributors,
            logo,
            typeface,
        }
    }
}

} // verus!
