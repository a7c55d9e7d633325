//! Flattening footnotes: a reference to a footnote and the definition of
//! the footnote, which stand apart in a manuscript, become one run of
//! tokens at the point of the reference.

use crate::events::{Event, EventView, Tag, TagView};
use crate::sections::copy_events;
use crate::seqs::{first_index, group_views, lemma_first_index_is};
use vstd::prelude::*;
use vstd::string::*;

verus! {

/// The definitions of footnotes by name, in the order in which their names
/// were first met.
pub type Definitions = Seq<(Seq<char>, Seq<EventView>)>;

/// The place of the definition of a name, or the number of definitions
/// where the name has none.
pub open spec fn place_of(defs: Definitions, name: Seq<char>) -> int {
    first_index(defs, |d: (Seq<char>, Seq<EventView>)| d.0 == name)
}

/// The definitions with this one: it takes the place of an earlier
/// definition of the same name.
pub open spec fn defined(defs: Definitions, name: Seq<char>, tokens: Seq<EventView>) -> Definitions {
    if place_of(defs, name) < defs.len() {
        defs.update(place_of(defs, name), (name, tokens))
    } else {
        defs.push((name, tokens))
    }
}

/// The definitions without the one of this name.
pub open spec fn undefined(defs: Definitions, name: Seq<char>) -> Definitions {
    if place_of(defs, name) < defs.len() {
        defs.remove(place_of(defs, name))
    } else {
        defs
    }
}

/// The tokens of a definition without the paragraph around them, where
/// they begin and end with one.
pub open spec fn without_paragraph(tokens: Seq<EventView>) -> Seq<EventView> {
    if tokens.len() >= 2 && tokens.first() == EventView::Start(TagView::Paragraph)
        && tokens.last() == EventView::End(TagView::Paragraph) {
        tokens.subrange(1, tokens.len() - 1)
    } else {
        tokens
    }
}

/// What the first pass over a fragment has gathered.
pub struct Gathered {
    /// The tokens outside the definitions of footnotes.
    pub text: Seq<EventView>,
    /// The definitions that are complete.
    pub defs: Definitions,
    /// The tokens of the definition that is open.
    pub open: Seq<EventView>,
    pub in_footnote: bool,
}

/// What one token does to the first pass.
pub open spec fn gather_step(g: Gathered, e: EventView) -> Gathered {
    match e {
        EventView::Start(TagView::FootnoteDefinition(_)) => Gathered { in_footnote: true, ..g },
        EventView::End(TagView::FootnoteDefinition(name)) => Gathered {
            in_footnote: false,
            defs: defined(g.defs, name, without_paragraph(g.open)),
            open: Seq::empty(),
            ..g
        },
        other => if g.in_footnote {
            Gathered { open: g.open.push(other), ..g }
        } else {
            Gathered { text: g.text.push(other), ..g }
        },
    }
}

/// The first pass over a fragment: the definitions of footnotes are taken
/// out of the text.
pub open spec fn gathered(events: Seq<EventView>) -> Gathered
    decreases events.len(),
{
    if events.len() == 0 {
        Gathered { text: Seq::empty(), defs: Seq::empty(), open: Seq::empty(), in_footnote: false }
    } else {
        gather_step(gathered(events.drop_last()), events.last())
    }
}

/// A flattened footnote with these tokens.
pub open spec fn flattened_footnote(tokens: Seq<EventView>) -> Seq<EventView> {
    seq![EventView::Start(TagView::FlattenedFootnote)] + tokens + seq![
        EventView::End(TagView::FlattenedFootnote),
    ]
}

/// The second pass over a text: every reference takes the definition of
/// its name and becomes a flattened footnote. A definition is used once: a
/// reference without one, or a second reference to the same footnote,
/// becomes an empty footnote.
pub open spec fn references_flattened(text: Seq<EventView>, defs: Definitions) -> (
    Seq<EventView>,
    Definitions,
)
    decreases text.len(),
{
    if text.len() == 0 {
        (Seq::empty(), defs)
    } else {
        let (out, left) = references_flattened(text.drop_last(), defs);
        match text.last() {
            EventView::FootnoteReference(name) => if place_of(left, name) < left.len() {
                (
                    out + flattened_footnote(left[place_of(left, name)].1),
                    undefined(left, name),
                )
            } else {
                (out + flattened_footnote(seq![EventView::Text(Seq::empty())]), left)
            },
            other => (out.push(other), left),
        }
    }
}

/// A fragment with its footnotes flattened.
pub open spec fn flattened(events: Seq<EventView>) -> Seq<EventView> {
    references_flattened(gathered(events).text, gathered(events).defs).0
}

fn find_definition(defs: &Vec<(String, Vec<Event>)>, name: &str) -> (r: usize)
    ensures
        r == place_of(defs.deep_view(), name@),
        r <= defs.len(),
{
    let ghost all = defs.deep_view();
    let ghost named = |d: (Seq<char>, Seq<EventView>)| d.0 == name@;
    let n = defs.len();
    let mut i: usize = 0;
    while i < n && !crate::text::str_eq(defs[i].0.as_str(), name)
        invariant
            i <= n,
            n == defs.len(),
            all == defs.deep_view(),
            forall|j: int| 0 <= j < i ==> (#[trigger] all[j]).0 != name@,
        decreases n - i,
    {
        assert(all[i as int] == defs[i as int].deep_view());
        i += 1;
    }
    proof {
        assert forall|j: int| 0 <= j < i implies !named(#[trigger] all[j]) by {}
        if i < n {
            assert(all[i as int] == defs[i as int].deep_view());
        }
        lemma_first_index_is(all, named, i as int);
    }
    i
}

fn strip_paragraph(tokens: Vec<Event>) -> (r: Vec<Event>)
    ensures
        r.deep_view() == without_paragraph(tokens.deep_view()),
{
    let ghost ev = tokens.deep_view();
    let n = tokens.len();
    if n < 2 {
        return tokens;
    }
    proof {
        assert(ev[0] == tokens[0].deep_view());
        assert(ev[n - 1] == tokens[n - 1].deep_view());
    }
    let wrapped = match (&tokens[0], &tokens[n - 1]) {
        (Event::Start(Tag::Paragraph), Event::End(Tag::Paragraph)) => true,
        _ => false,
    };
    if !wrapped {
        return tokens;
    }
    let mut out: Vec<Event> = Vec::new();
    let mut i: usize = 1;
    proof {
        broadcast use group_views;

        assert(ev.subrange(1, 1) =~= Seq::empty());
    }
    while i < n - 1
        invariant
            1 <= i <= n - 1,
            n == tokens.len(),
            ev == tokens.deep_view(),
            out.deep_view() == ev.subrange(1, i as int),
        decreases n - i,
    {
        out.push(tokens[i].clone());
        proof {
            broadcast use group_views;

            assert(ev.subrange(1, i + 1) =~= ev.subrange(1, i as int).push(
                tokens[i as int].deep_view(),
            ));
        }
        i += 1;
    }
    out
}

fn define(defs: &mut Vec<(String, Vec<Event>)>, name: &str, tokens: Vec<Event>)
    ensures
        final(defs).deep_view() == defined(old(defs).deep_view(), name@, tokens.deep_view()),
{
    let at = find_definition(defs, name);
    proof {
        broadcast use group_views;

    }
    if at < defs.len() {
        defs.set(at, (String::from_str(name), tokens));
        assert(defs.deep_view() =~= old(defs).deep_view().update(
            at as int,
            (name@, tokens.deep_view()),
        ));
    } else {
        defs.push((String::from_str(name), tokens));
    }
}

fn take_tokens(tokens: &mut Vec<Event>) -> (r: Vec<Event>)
    ensures
        r.deep_view() == old(tokens).deep_view(),
        final(tokens).deep_view() == Seq::<EventView>::empty(),
{
    proof {
        broadcast use group_views;

    }
    let mut out: Vec<Event> = Vec::new();
    out.append(tokens);
    assert(out.deep_view() =~= old(tokens).deep_view());
    assert(tokens.deep_view() =~= Seq::empty());
    out
}

fn push_token(tokens: &mut Vec<Event>, e: Event)
    ensures
        final(tokens).deep_view() == old(tokens).deep_view().push(e.deep_view()),
{
    proof {
        broadcast use group_views;

    }
    tokens.push(e);
}

fn push_footnote(out: &mut Vec<Event>, tokens: &Vec<Event>)
    ensures
        final(out).deep_view() == old(out).deep_view() + flattened_footnote(tokens.deep_view()),
{
    proof {
        broadcast use group_views;

    }
    out.push(Event::Start(Tag::FlattenedFootnote));
    let mut copy = copy_events(tokens);
    out.append(&mut copy);
    out.push(Event::End(Tag::FlattenedFootnote));
    assert(out.deep_view() =~= old(out).deep_view() + flattened_footnote(tokens.deep_view()));
}

/// Puts every footnote where it is referred to: a reference and the
/// definition of its name become a run of tokens between the tags of a
/// flattened footnote, and the definitions leave the text. A reference
/// without a definition becomes an empty footnote.
pub fn flatten_footnotes(src: Vec<Event>) -> (r: Vec<Event>)
    ensures
        r.deep_view() == flattened(src.deep_view()),
{
    let ghost ev = src.deep_view();
    let mut text: Vec<Event> = Vec::new();
    let mut defs: Vec<(String, Vec<Event>)> = Vec::new();
    let mut open: Vec<Event> = Vec::new();
    let mut in_footnote = false;
    let mut i: usize = 0;
    proof {
        assert(text.deep_view() =~= Seq::empty());
        assert(defs.deep_view() =~= Seq::empty());
        assert(open.deep_view() =~= Seq::empty());
    }
    while i < src.len()
        invariant
            i <= src.len(),
            ev == src.deep_view(),
            gathered(ev.take(i as int)) == (Gathered {
                text: text.deep_view(),
                defs: defs.deep_view(),
                open: open.deep_view(),
                in_footnote,
            }),
        decreases src.len() - i,
    {
        proof {
            assert(ev.take(i + 1).drop_last() =~= ev.take(i as int));
            assert(ev.take(i + 1).last() == src[i as int].deep_view());
        }
        match &src[i] {
            Event::Start(Tag::FootnoteDefinition(_)) => {
                in_footnote = true;
            },
            Event::End(Tag::FootnoteDefinition(name)) => {
                in_footnote = false;
                let definition = strip_paragraph(take_tokens(&mut open));
                define(&mut defs, name.as_str(), definition);
            },
            other => {
                if in_footnote {
                    push_token(&mut open, other.clone());
                } else {
                    push_token(&mut text, other.clone());
                }
            },
        }
        i += 1;
    }
    assert(ev.take(src.len() as int) =~= ev);
    let ghost t = text.deep_view();
    let ghost d = defs.deep_view();
    let mut out: Vec<Event> = Vec::new();
    let mut k: usize = 0;
    proof {
        assert(out.deep_view() =~= Seq::empty());
    }
    while k < text.len()
        invariant
            k <= text.len(),
            t == text.deep_view(),
            references_flattened(t.take(k as int), d) == (out.deep_view(), defs.deep_view()),
        decreases text.len() - k,
    {
        proof {
            assert(t.take(k + 1).drop_last() =~= t.take(k as int));
            assert(t.take(k + 1).last() == text[k as int].deep_view());
        }
        let ghost left = defs.deep_view();
        match &text[k] {
            Event::FootnoteReference(name) => {
                let at = find_definition(&defs, name.as_str());
                if at < defs.len() {
                    assert(left[at as int] == defs[at as int].deep_view());
                    push_footnote(&mut out, &defs[at].1);
                    proof {
                        broadcast use group_views;

                    }
                    let _ = defs.remove(at);
                    assert(defs.deep_view() =~= left.remove(at as int));
                } else {
                    let mut empty: Vec<Event> = Vec::new();
                    empty.push(Event::Text(String::new()));
                    proof {
                        broadcast use group_views;

                        assert(empty.deep_view() =~= seq![EventView::Text(Seq::empty())]);
                    }
                    push_footnote(&mut out, &empty);
                }
            },
            other => {
                push_token(&mut out, other.clone());
            },
        }
        k += 1;
    }
    assert(t.take(text.len() as int) =~= t);
    out
}

/// Whether a fragment refers to a footnote.
pub open spec fn has_reference(events: Seq<EventView>) -> bool {
    exists|i: int| 0 <= i < events.len() && (#[trigger] events[i]) is FootnoteReference
}

/// The tokens of a fragment as the book takes them: with its footnotes
/// flattened where it refers to any.
pub fn parse_plain(tokens: Vec<Event>) -> (r: Vec<Event>)
    ensures
        r.deep_view() == if has_reference(tokens.deep_view()) {
            flattened(tokens.deep_view())
        } else {
            tokens.deep_view()
        },
{
    let ghost ev = tokens.deep_view();
    let mut has_footnotes = false;
    let mut i: usize = 0;
    while i < tokens.len()
        invariant
            i <= tokens.len(),
            ev == tokens.deep_view(),
            has_footnotes == has_reference(ev.take(i as int)),
        decreases tokens.len() - i,
    {
        proof {
            let a = ev.take(i as int);
            let b = ev.take(i + 1);
            assert(b[i as int] == tokens[i as int].deep_view());
            if has_reference(a) {
                let j = choose|j: int| 0 <= j < a.len() && (#[trigger] a[j]) is FootnoteReference;
                assert(b[j] == a[j]);
            }
            if has_reference(b) && !(b[i as int] is FootnoteReference) {
                let j = choose|j: int| 0 <= j < b.len() && (#[trigger] b[j]) is FootnoteReference;
                assert(a[j] == b[j]);
            }
        }
        match &tokens[i] {
            Event::FootnoteReference(_) => {
                has_footnotes = true;
            },
            _ => {},
        }
        i += 1;
    }
    assert(ev.take(tokens.len() as int) =~= ev);
    if has_footnotes {
        flatten_footnotes(tokens)
    } else {
        tokens
    }
}

} // verus!
