//! The images of a book: where the manuscript says they are, and where
//! they were found.

use crate::book_event::{BookEvent, BookEventView};
use crate::events::{Event, EventView, Tag, TagView};
use crate::latex::{find_image_path, image_path};
use crate::seqs::group_views;
use vstd::prelude::*;
use vstd::string::*;

verus! {

/// The destinations of the images that start in a stream, in the order of
/// the stream.
pub open spec fn image_dests(stream: Seq<BookEventView>) -> Seq<Seq<char>>
    decreases stream.len(),
{
    if stream.len() == 0 {
        Seq::empty()
    } else {
        match stream.last() {
            BookEventView::Event(EventView::Start(TagView::Image(_, dest, _))) => image_dests(
                stream.drop_last(),
            ).push(dest),
            _ => image_dests(stream.drop_last()),
        }
    }
}

/// Lists the destinations of the images of a stream.
pub fn image_destinations(events: &Vec<BookEvent>) -> (r: Vec<String>)
    ensures
        r.deep_view() == image_dests(events.deep_view()),
{
    let ghost stream = events.deep_view();
    let mut out: Vec<String> = Vec::new();
    let mut i: usize = 0;
    proof {
        broadcast use group_views;

    }
    while i < events.len()
        invariant
            i <= events.len(),
            stream == events.deep_view(),
            out.deep_view() == image_dests(stream.take(i as int)),
        decreases events.len() - i,
    {
        proof {
            broadcast use group_views;

            assert(stream.take(i + 1).drop_last() =~= stream.take(i as int));
            assert(stream.take(i + 1).last() == events[i as int].deep_view());
        }
        match &events[i] {
            BookEvent::Event(Event::Start(Tag::Image(_, dest, _))) => {
                out.push(dest.clone());
            },
            _ => {},
        }
        i += 1;
    }
    assert(stream.take(events.len() as int) =~= stream);
    out
}

/// An event with the destination of its image replaced, where a
/// replacement was found for it.
pub open spec fn with_found_image(
    found: Seq<(Seq<char>, Seq<char>)>,
    e: BookEventView,
) -> BookEventView {
    match e {
        BookEventView::Event(EventView::Start(TagView::Image(t, dest, title))) => match image_path(
            found,
            dest,
        ) {
            Some(p) => BookEventView::Event(EventView::Start(TagView::Image(t, p, title))),
            None => e,
        },
        BookEventView::Event(EventView::End(TagView::Image(t, dest, title))) => match image_path(
            found,
            dest,
        ) {
            Some(p) => BookEventView::Event(EventView::End(TagView::Image(t, p, title))),
            None => e,
        },
        _ => e,
    }
}

/// Gives every image of a stream the path under which it was found. An
/// image for which nothing was found keeps its destination.
pub fn replace_image_paths(events: &mut Vec<BookEvent>, found: &Vec<(String, String)>)
    ensures
        final(events).deep_view() == old(events).deep_view().map_values(
            |e: BookEventView| with_found_image(found.deep_view(), e),
        ),
{
    let ghost before = events.deep_view();
    let ghost f = found.deep_view();
    let n = events.len();
    let mut i: usize = 0;
    while i < n
        invariant
            i <= n,
            n == events.len(),
            before.len() == n,
            f == found.deep_view(),
            forall|j: int| 0 <= j < i ==> events.deep_view()[j] == with_found_image(f, before[j]),
            forall|j: int| i <= j < n ==> events.deep_view()[j] == before[j],
        decreases n - i,
    {
        let ghost now = events.deep_view();
        assert(now[i as int] == events[i as int].deep_view());
        let replacement = match &events[i] {
            BookEvent::Event(Event::Start(Tag::Image(t, dest, title))) => match find_image_path(
                found,
                dest.as_str(),
            ) {
                Some(p) => Some(
                    BookEvent::Event(
                        Event::Start(Tag::Image(*t, String::from_str(p), title.clone())),
                    ),
                ),
                None => None,
            },
            BookEvent::Event(Event::End(Tag::Image(t, dest, title))) => match find_image_path(
                found,
                dest.as_str(),
            ) {
                Some(p) => Some(
                    BookEvent::Event(Event::End(Tag::Image(*t, String::from_str(p), title.clone()))),
                ),
                None => None,
            },
            _ => None,
        };
        proof {
            assert(match replacement {
                Some(r) => r.deep_view() == with_found_image(f, before[i as int]),
                None => before[i as int] == with_found_image(f, before[i as int]),
            });
        }
        match replacement {
            Some(r) => {
                events.set(i, r);
            },
            None => {},
        }
        proof {
            assert forall|j: int| 0 <= j < i + 1 implies events.deep_view()[j] == with_found_image(
                f,
                before[j],
            ) by {
                if j < i {
                    assert(now[j] == with_found_image(f, before[j]));
                }
            }
            assert forall|j: int| i + 1 <= j < n implies events.deep_view()[j] == before[j] by {
                assert(now[j] == before[j]);
            }
        }
        i += 1;
    }
    assert(events.deep_view() =~= before.map_values(|e: BookEventView| with_found_image(f, e)));
}

/// The destinations for which nothing was found, in the order of the
/// stream.
pub open spec fn missing_of(dests: Seq<Seq<char>>, found: Seq<(Seq<char>, Seq<char>)>) -> Seq<
    Seq<char>,
>
    decreases dests.len(),
{
    if dests.len() == 0 {
        Seq::empty()
    } else if image_path(found, dests.last()) is None {
        missing_of(dests.drop_last(), found).push(dests.last())
    } else {
        missing_of(dests.drop_last(), found)
    }
}

/// Gives every image that was looked for the path under which it was
/// found, and reports the images that were looked for in vain: these keep
/// their destinations, and the book is rendered without them being found.
pub fn replace_missing_image_paths(
    events: &mut Vec<BookEvent>,
    looked_for: &Vec<String>,
    found: &Vec<(String, String)>,
) -> (r: Result<(), Vec<String>>)
    ensures
        final(events).deep_view() == old(events).deep_view().map_values(
            |e: BookEventView| with_found_image(found.deep_view(), e),
        ),
        missing_of(looked_for.deep_view(), found.deep_view()).len() == 0 ==> r is Ok,
        missing_of(looked_for.deep_view(), found.deep_view()).len() > 0 ==> r is Err
            && r->Err_0.deep_view() == missing_of(looked_for.deep_view(), found.deep_view()),
{
    replace_image_paths(events, found);
    let ghost dests = looked_for.deep_view();
    let ghost f = found.deep_view();
    let mut missing: Vec<String> = Vec::new();
    let mut i: usize = 0;
    proof {
        broadcast use group_views;

    }
    while i < looked_for.len()
        invariant
            i <= looked_for.len(),
            dests == looked_for.deep_view(),
            f == found.deep_view(),
            missing.deep_view() == missing_of(dests.take(i as int), f),
        decreases looked_for.len() - i,
    {
        proof {
            broadcast use group_views;

            assert(dests.take(i + 1).drop_last() =~= dests.take(i as int));
            assert(dests.take(i + 1).last() == looked_for[i as int]@);
        }
        if find_image_path(found, looked_for[i].as_str()).is_none() {
            missing.push(looked_for[i].clone());
        }
        i += 1;
    }
    assert(dests.take(looked_for.len() as int) =~= dests);
    assert(missing.deep_view().len() == missing.len());
    if missing.len() == 0 {
        Ok(())
    } else {
        Err(missing)
    }
}

} // verus!
