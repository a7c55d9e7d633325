//! From the tokens of plain markdown to the tokens of a book: a block
//! quote of several paragraphs becomes a long quotation, a span of raw
//! markup that says how its text is set becomes a tag, and the text
//! between two breaks is smartened as one.

use crate::events::{Event, EventView, Tag, TagView};
use crate::quotes::{convert_quotes_in_text_segment, converted};
use crate::scripts::CurrentSpan;
use crate::seqs::group_views;
use crate::text::{chars_of, owned};
use vstd::prelude::*;

verus! {

broadcast use group_views;

/// Whether a pattern stands in a text at a place.
pub open spec fn found_at(s: Seq<char>, pattern: Seq<char>, i: int) -> bool {
    0 <= i && i + pattern.len() <= s.len() && s.subrange(i, i + pattern.len()) == pattern
}

/// The first place from `i` on at which a pattern stands in a text.
pub open spec fn find_from(s: Seq<char>, pattern: Seq<char>, i: int) -> Option<int>
    decreases s.len() - i + 1,
{
    if i < 0 || i + pattern.len() > s.len() {
        None
    } else if found_at(s, pattern, i) {
        Some(i)
    } else {
        find_from(s, pattern, i + 1)
    }
}

/// Whether a pattern stands somewhere in a text.
pub open spec fn holds(s: Seq<char>, pattern: Seq<char>) -> bool {
    find_from(s, pattern, 0) is Some
}

/// Whether a text begins with a pattern.
pub open spec fn begins_with(s: Seq<char>, pattern: Seq<char>) -> bool {
    found_at(s, pattern, 0)
}

fn stands_at(s: &Vec<char>, pattern: &Vec<char>, i: usize) -> (r: bool)
    ensures
        r == found_at(s@, pattern@, i as int),
{
    if pattern.len() > s.len() || i > s.len() - pattern.len() {
        return false;
    }
    let mut k: usize = 0;
    while k < pattern.len()
        invariant
            k <= pattern.len(),
            i + pattern.len() <= s.len(),
            forall|j: int| 0 <= j < k ==> s@[i + j] == pattern@[j],
        decreases pattern.len() - k,
    {
        if s[i + k] != pattern[k] {
            assert(s@.subrange(i as int, i + pattern.len())[k as int] != pattern@[k as int]);
            return false;
        }
        k += 1;
    }
    assert(s@.subrange(i as int, i + pattern.len()) =~= pattern@);
    true
}

fn find(s: &Vec<char>, pattern: &Vec<char>, from: usize) -> (r: Option<usize>)
    ensures
        r is Some <==> find_from(s@, pattern@, from as int) is Some,
        r is Some ==> find_from(s@, pattern@, from as int) == Some(r->0 as int) && from <= r->0
            && r->0 + pattern@.len() <= s@.len(),
{
    if pattern.len() > s.len() || from > s.len() - pattern.len() {
        return None;
    }
    let last = s.len() - pattern.len();
    let mut i: usize = from;
    while i < last
        invariant
            from <= i <= last,
            last + pattern.len() == s.len(),
            find_from(s@, pattern@, from as int) == find_from(s@, pattern@, i as int),
        decreases last - i,
    {
        if stands_at(s, pattern, i) {
            return Some(i);
        }
        i += 1;
    }
    if stands_at(s, pattern, i) {
        Some(i)
    } else {
        assert(find_from(s@, pattern@, i + 1) is None);
        None
    }
}

/// The characters of a text that may not be there.
pub open spec fn text_of(chars: Option<Vec<char>>) -> Option<Seq<char>> {
    match chars {
        Some(c) => Some(c@),
        None => None,
    }
}

fn tail(s: &Vec<char>, from: usize) -> (r: Vec<char>)
    requires
        from <= s.len(),
    ensures
        r@ == s@.skip(from as int),
{
    let mut out: Vec<char> = Vec::new();
    let mut i: usize = from;
    while i < s.len()
        invariant
            from <= i <= s.len(),
            out@ == s@.subrange(from as int, i as int),
        decreases s.len() - i,
    {
        out.push(s[i]);
        assert(out@ =~= s@.subrange(from as int, i + 1));
        i += 1;
    }
    assert(out@ =~= s@.skip(from as int));
    out
}

fn head(s: &Vec<char>, until: usize) -> (r: Vec<char>)
    requires
        until <= s.len(),
    ensures
        r@ == s@.take(until as int),
{
    let mut out: Vec<char> = Vec::new();
    let mut i: usize = 0;
    while i < until
        invariant
            i <= until <= s.len(),
            out@ == s@.take(i as int),
        decreases until - i,
    {
        out.push(s[i]);
        assert(out@ =~= s@.take(i + 1));
        i += 1;
    }
    out
}

/// The value that an attribute has in a piece of markup: what stands
/// between the quotation mark behind the name of the attribute and the
/// next one, or the end of the markup.
pub open spec fn value_of(html: Seq<char>, key: Seq<char>) -> Option<Seq<char>> {
    let k = key + "=\""@;
    match find_from(html, k, 0) {
        Some(i) => {
            let rest = html.skip(i + k.len());
            match find_from(rest, seq!['"'], 0) {
                Some(x) => Some(rest.take(x)),
                None => Some(rest),
            }
        },
        None => None,
    }
}

fn find_val(html: &Vec<char>, key: &str) -> (r: Option<Vec<char>>)
    ensures
        text_of(r) == value_of(html@, key@),
{
    let mut k = chars_of(key);
    k.push('=');
    k.push('"');
    proof {
        reveal_strlit("=\"");
        assert(k@ =~= key@ + "=\""@);
    }
    match find(html, &k, 0) {
        Some(i) => {
            let length = html.len();
            assert(i + k@.len() <= length);
            let rest = tail(html, i + k.len());
            let mut mark: Vec<char> = Vec::new();
            mark.push('"');
            assert(mark@ =~= seq!['"']);
            match find(&rest, &mark, 0) {
                Some(x) => Some(head(&rest, x)),
                None => Some(rest),
            }
        },
        None => None,
    }
}

/// What a span stands for, by its style or, where it has no style, by its
/// class.
pub open spec fn span_kind(style: Option<Seq<char>>, class: Option<Seq<char>>) -> CurrentSpan {
    match style {
        Some(style) => {
            if holds(style, "font-family: \"sans\""@) || holds(style, "font-family:\"sans\""@) {
                CurrentSpan::Sans
            } else if holds(style, "font-variant: \"small-caps\""@) || holds(
                style,
                "font-variant:\"small-caps\""@,
            ) {
                CurrentSpan::SmallCaps
            } else if holds(style, "text-align: center"@) || holds(style, "text-align:center"@) {
                CurrentSpan::Centred
            } else if holds(style, "text-align: right"@) || holds(style, "text-align:right"@) {
                CurrentSpan::RightAligned
            } else {
                CurrentSpan::Generic
            }
        },
        None => match class {
            Some(class) => {
                if holds(class, "sans"@) {
                    CurrentSpan::Sans
                } else if holds(class, "smallcaps"@) {
                    CurrentSpan::SmallCaps
                } else if holds(class, "centred"@) {
                    CurrentSpan::Centred
                } else if holds(class, "right-aligned"@) {
                    CurrentSpan::RightAligned
                } else if holds(class, "superscript"@) {
                    CurrentSpan::Superscript
                } else if holds(class, "subscript"@) {
                    CurrentSpan::Subscript
                } else {
                    CurrentSpan::Generic
                }
            },
            None => CurrentSpan::Generic,
        },
    }
}

fn contains(s: &Vec<char>, pattern: &str) -> (r: bool)
    ensures
        r == holds(s@, pattern@),
{
    let p = chars_of(pattern);
    find(s, &p, 0).is_some()
}

fn starts_with(s: &Vec<char>, pattern: &str) -> (r: bool)
    ensures
        r == begins_with(s@, pattern@),
{
    let p = chars_of(pattern);
    stands_at(s, &p, 0)
}

/// What a span stands for, by its style or, where it has no style, by its
/// class.
pub fn find_current_span(style: &Option<Vec<char>>, class: &Option<Vec<char>>) -> (r: CurrentSpan)
    ensures
        r == span_kind(text_of(*style), text_of(*class)),
{
    if let Some(style) = style {
        if contains(style, "font-family: \"sans\"") || contains(style, "font-family:\"sans\"") {
            return CurrentSpan::Sans;
        } else if contains(style, "font-variant: \"small-caps\"") || contains(
            style,
            "font-variant:\"small-caps\"",
        ) {
            return CurrentSpan::SmallCaps;
        } else if contains(style, "text-align: center") || contains(style, "text-align:center") {
            return CurrentSpan::Centred;
        } else if contains(style, "text-align: right") || contains(style, "text-align:right") {
            return CurrentSpan::RightAligned;
        }
    } else if let Some(class) = class {
        if contains(class, "sans") {
            return CurrentSpan::Sans;
        } else if contains(class, "smallcaps") {
            return CurrentSpan::SmallCaps;
        } else if contains(class, "centred") {
            return CurrentSpan::Centred;
        } else if contains(class, "right-aligned") {
            return CurrentSpan::RightAligned;
        } else if contains(class, "superscript") {
            return CurrentSpan::Superscript;
        } else if contains(class, "subscript") {
            return CurrentSpan::Subscript;
        }
    }
    CurrentSpan::Generic
}

/// What the span that a piece of markup opens stands for.
pub open spec fn span_opened(html: Seq<char>) -> CurrentSpan {
    span_kind(value_of(html, "style"@), value_of(html, "class"@))
}

impl CurrentSpan {
    /// The tag of a span, where it has one.
    pub open spec fn tag(self) -> Option<TagView> {
        match self {
            CurrentSpan::Generic => None,
            CurrentSpan::Sans => Some(TagView::Sans),
            CurrentSpan::SmallCaps => Some(TagView::SmallCaps),
            CurrentSpan::Centred => Some(TagView::Centred),
            CurrentSpan::RightAligned => Some(TagView::RightAligned),
            CurrentSpan::Superscript => Some(TagView::Superscript),
            CurrentSpan::Subscript => Some(TagView::Subscript),
        }
    }

    /// The tag of a span, where it has one.
    pub fn as_tag(self) -> (r: Option<Tag>)
        ensures
            r.deep_view() == self.tag(),
    {
        match self {
            CurrentSpan::Generic => None,
            CurrentSpan::Sans => Some(Tag::Sans),
            CurrentSpan::SmallCaps => Some(Tag::SmallCaps),
            CurrentSpan::Centred => Some(Tag::Centred),
            CurrentSpan::RightAligned => Some(Tag::RightAligned),
            CurrentSpan::Superscript => Some(Tag::Superscript),
            CurrentSpan::Subscript => Some(Tag::Subscript),
        }
    }
}

/// What a piece of raw markup becomes among the spans that are open, and
/// the spans that are open behind it. Markup that opens a span opens it;
/// markup that closes a span closes the last that was opened. A span that
/// says how its text is set becomes a tag; any other markup stays.
pub open spec fn span_step(open: Seq<CurrentSpan>, html: Seq<char>) -> (Seq<CurrentSpan>, EventView) {
    if begins_with(html, "<span"@) {
        let span = span_opened(html);
        (
            open.push(span),
            match span.tag() {
                Some(t) => EventView::Start(t),
                None => EventView::Html(html),
            },
        )
    } else if begins_with(html, "</span"@) {
        if open.len() == 0 {
            (open, EventView::Html(html))
        } else {
            (
                open.drop_last(),
                match open.last().tag() {
                    Some(t) => EventView::End(t),
                    None => EventView::Html(html),
                },
            )
        }
    } else {
        (open, EventView::Html(html))
    }
}

/// Reads a piece of raw markup among the spans that are open.
pub fn read_span(current_spans: &mut Vec<CurrentSpan>, html: String) -> (r: Event)
    ensures
        (final(current_spans)@, r.deep_view()) == span_step(old(current_spans)@, html@),
{
    let chars = chars_of(html.as_str());
    if starts_with(&chars, "<span") {
        let style = find_val(&chars, "style");
        let class = find_val(&chars, "class");
        let current_span = find_current_span(&style, &class);
        current_spans.push(current_span);
        match current_span.as_tag() {
            Some(t) => Event::Start(t),
            None => Event::Html(html),
        }
    } else if starts_with(&chars, "</span") {
        match current_spans.pop() {
            Some(span) => {
                assert(current_spans@ =~= old(current_spans)@.drop_last());
                match span.as_tag() {
                    Some(t) => Event::End(t),
                    None => Event::Html(html),
                }
            },
            None => Event::Html(html),
        }
    } else {
        Event::Html(html)
    }
}

/// Whether a token ends whatever quotation is open: a rule does, and so
/// does the start or the end of anything but emphasis, strong emphasis, a
/// link or an image.
pub open spec fn breaks_quotes(e: EventView) -> bool {
    match e {
        EventView::Rule => true,
        EventView::Start(t) | EventView::End(t) => !(t is Emphasis || t is Strong || t is Link
            || t is Image),
        _ => false,
    }
}

/// Whether a token ends whatever quotation is open.
pub fn resets_quotes(e: &Event) -> (r: bool)
    ensures
        r == breaks_quotes(e.deep_view()),
{
    match e {
        Event::Rule => true,
        Event::Start(Tag::Emphasis) => false,
        Event::Start(Tag::Strong) => false,
        Event::Start(Tag::Link(_, _, _)) => false,
        Event::Start(Tag::Image(_, _, _)) => false,
        Event::End(Tag::Emphasis) => false,
        Event::End(Tag::Strong) => false,
        Event::End(Tag::Link(_, _, _)) => false,
        Event::End(Tag::Image(_, _, _)) => false,
        Event::Start(_) => true,
        Event::End(_) => true,
        _ => false,
    }
}

/// What is known of the block quotes of a buffer while it is read: the
/// block quote that is open, with where it began and how many paragraphs
/// it has so far, and the places that are marked as the bounds of a long
/// quotation.
pub struct QuoteState {
    pub open: Option<(usize, nat)>,
    pub marks: Seq<usize>,
}

/// The marks with the bounds of a block quote, where it has more than one
/// paragraph.
pub open spec fn with_bounds(marks: Seq<usize>, open: Option<(usize, nat)>, end: usize) -> Seq<
    usize,
> {
    match open {
        Some((start, count)) => if count > 1 {
            marks.push(start).push(end)
        } else {
            marks
        },
        None => marks,
    }
}

/// What is known of the block quotes behind one more token. A block
/// quote that begins within another ends the reading of both, and the
/// outer one is bounded by the start of the buffer.
pub open spec fn quote_step(st: QuoteState, idx: usize, e: EventView) -> QuoteState {
    match e {
        EventView::Start(TagView::BlockQuote) => match st.open {
            None => QuoteState { open: Some((idx, 0)), ..st },
            Some(_) => QuoteState { open: None, marks: with_bounds(st.marks, st.open, 0) },
        },
        EventView::End(TagView::BlockQuote) => QuoteState {
            open: None,
            marks: with_bounds(st.marks, st.open, idx),
        },
        EventView::Start(TagView::Paragraph) => match st.open {
            Some((start, count)) => QuoteState { open: Some((start, count + 1)), ..st },
            None => st,
        },
        _ => st,
    }
}

/// What is known of the block quotes behind the first `n` tokens.
pub open spec fn quote_fold(events: Seq<EventView>, n: int) -> QuoteState
    decreases n,
{
    if n <= 0 {
        QuoteState { open: None, marks: Seq::empty() }
    } else {
        quote_step(quote_fold(events, n - 1), (n - 1) as usize, events[n - 1])
    }
}

/// The places of a buffer that bound a long quotation: the start and the
/// end of every block quote with more than one paragraph. A block quote
/// that does not end in the buffer is bounded by its start.
pub open spec fn quotation_marks(events: Seq<EventView>) -> Seq<usize> {
    let st = quote_fold(events, events.len() as int);
    with_bounds(st.marks, st.open, 0)
}

fn add_bounds(marks: &mut Vec<usize>, open: Option<(usize, usize)>, end: usize)
    ensures
        final(marks)@ == with_bounds(
            old(marks)@,
            match open {
                Some((s, c)) => Some((s, c as nat)),
                None => None,
            },
            end,
        ),
{
    if let Some((start, count)) = open {
        if count > 1 {
            marks.push(start);
            marks.push(end);
        }
    }
}

/// The open block quote with its count as a number.
pub open spec fn counted(open: Option<(usize, usize)>) -> Option<(usize, nat)> {
    match open {
        Some((s, c)) => Some((s, c as nat)),
        None => None,
    }
}

/// How many paragraphs the open block quote has so far.
pub open spec fn paragraphs(open: Option<(usize, usize)>) -> nat {
    match open {
        Some((_, c)) => c as nat,
        None => 0,
    }
}

/// Finds the places of a buffer that bound a long quotation.
pub fn mark_quotations(events: &Vec<Event>) -> (r: Vec<usize>)
    ensures
        r@ == quotation_marks(events.deep_view()),
{
    let ghost all = events.deep_view();
    let mut open: Option<(usize, usize)> = None;
    let mut marks: Vec<usize> = Vec::new();
    let mut idx: usize = 0;
    while idx < events.len()
        invariant
            idx <= events.len(),
            all == events.deep_view(),
            quote_fold(all, idx as int) == (QuoteState { open: counted(open), marks: marks@ }),
            paragraphs(open) <= idx,
        decreases events.len() - idx,
    {
        match &events[idx] {
            Event::Start(Tag::BlockQuote) => {
                if open.is_none() {
                    open = Some((idx, 0));
                } else {
                    add_bounds(&mut marks, open, 0);
                    open = None;
                }
            },
            Event::End(Tag::BlockQuote) => {
                add_bounds(&mut marks, open, idx);
                open = None;
            },
            Event::Start(Tag::Paragraph) => {
                if let Some((start, count)) = open {
                    open = Some((start, count + 1));
                }
            },
            _ => {},
        }
        idx += 1;
    }
    add_bounds(&mut marks, open, 0);
    marks
}

/// Whether a place is among the marks.
pub fn is_marked(marks: &Vec<usize>, idx: usize) -> (r: bool)
    ensures
        r == marks@.contains(idx),
{
    let mut i: usize = 0;
    while i < marks.len()
        invariant
            i <= marks.len(),
            forall|j: int| 0 <= j < i ==> marks@[j] != idx,
        decreases marks.len() - i,
    {
        if marks[i] == idx {
            return true;
        }
        i += 1;
    }
    false
}

/// What is known of the texts of a buffer while it is read: the buffer
/// with the texts that were taken out of it or put back smartened, the
/// texts that wait to be smartened as one with the places they were
/// taken from, and whether the reading is within code.
pub struct TextState {
    pub buffer: Seq<EventView>,
    pub texts: Seq<(usize, Seq<char>)>,
    pub in_verbatim: bool,
}

/// The texts that wait, without their places.
pub open spec fn waiting(texts: Seq<(usize, Seq<char>)>) -> Seq<Seq<char>> {
    Seq::new(texts.len(), |k: int| texts[k].1)
}

/// A buffer with the first `k` of the smartened texts put in the places
/// from which the texts were taken.
pub open spec fn with_replacements(
    buffer: Seq<EventView>,
    texts: Seq<(usize, Seq<char>)>,
    smartened: Seq<Seq<char>>,
    k: int,
) -> Seq<EventView>
    decreases k,
{
    if k <= 0 {
        buffer
    } else {
        let before = with_replacements(buffer, texts, smartened, k - 1);
        if k - 1 < texts.len() && k - 1 < smartened.len() && texts[k - 1].0 < before.len() {
            before.update(texts[k - 1].0 as int, EventView::Text(smartened[k - 1]))
        } else {
            before
        }
    }
}

/// How many of the texts have a smartened text to take their place.
pub open spec fn replaceable(texts: Seq<(usize, Seq<char>)>, smartened: Seq<Seq<char>>) -> int {
    if texts.len() <= smartened.len() {
        texts.len() as int
    } else {
        smartened.len() as int
    }
}

/// A buffer with the texts that wait smartened as one and put back.
pub open spec fn flushed_buffer(buffer: Seq<EventView>, texts: Seq<(usize, Seq<char>)>) -> Seq<
    EventView,
> {
    if texts.len() == 0 {
        buffer
    } else {
        with_replacements(
            buffer,
            texts,
            converted(waiting(texts)),
            replaceable(texts, converted(waiting(texts))),
        )
    }
}

/// The state with the texts that wait smartened and put back.
pub open spec fn flushed(st: TextState) -> TextState {
    TextState { buffer: flushed_buffer(st.buffer, st.texts), texts: Seq::empty(), ..st }
}

/// What is known of the texts behind the token at `idx`. A text outside
/// code is taken out to wait; what breaks quotations has the texts that
/// wait smartened and put back, but a block quote and the start of a
/// paragraph let them wait on; code ends the smartening, and at its end
/// the texts that wait are dropped.
pub open spec fn text_step(st: TextState, idx: usize, smarten: bool) -> TextState {
    let e = st.buffer[idx as int];
    match e {
        EventView::Start(TagView::BlockQuote) => st,
        EventView::End(TagView::BlockQuote) => st,
        EventView::Start(TagView::Paragraph) => st,
        EventView::Text(t) => if !st.in_verbatim && smarten {
            TextState {
                buffer: st.buffer.update(idx as int, EventView::Text(Seq::empty())),
                texts: st.texts.push((idx, t)),
                ..st
            }
        } else {
            st
        },
        EventView::Start(TagView::CodeBlock(_)) => TextState { in_verbatim: true, ..flushed(st) },
        EventView::End(TagView::CodeBlock(_)) => TextState {
            in_verbatim: true,
            texts: Seq::empty(),
            ..st
        },
        _ => if breaks_quotes(e) {
            flushed(st)
        } else {
            st
        },
    }
}

/// What is known of the texts behind the first `n` tokens.
pub open spec fn text_fold(events: Seq<EventView>, smarten: bool, n: int) -> TextState
    decreases n,
{
    if n <= 0 {
        TextState { buffer: events, texts: Seq::empty(), in_verbatim: false }
    } else {
        let st = text_fold(events, smarten, n - 1);
        if n - 1 < st.buffer.len() {
            text_step(st, (n - 1) as usize, smarten)
        } else {
            st
        }
    }
}

/// A buffer with its texts smartened, run by run.
pub open spec fn smartened_buffer(events: Seq<EventView>, smarten: bool) -> Seq<EventView> {
    text_fold(events, smarten, events.len() as int).buffer
}

/// The texts that wait, as values.
pub open spec fn text_views(texts: Seq<(usize, String)>) -> Seq<(usize, Seq<char>)> {
    Seq::new(texts.len(), |k: int| (texts[k].0, texts[k].1@))
}

/// Putting texts back keeps the length of the buffer.
pub proof fn lemma_replacements_len(
    buffer: Seq<EventView>,
    texts: Seq<(usize, Seq<char>)>,
    smartened: Seq<Seq<char>>,
    k: int,
)
    ensures
        with_replacements(buffer, texts, smartened, k).len() == buffer.len(),
    decreases k,
{
    if k > 0 {
        lemma_replacements_len(buffer, texts, smartened, k - 1);
    }
}

fn strings_of(texts: &Vec<(usize, String)>) -> (r: Vec<String>)
    ensures
        r.deep_view() == waiting(text_views(texts@)),
{
    let mut out: Vec<String> = Vec::new();
    let mut k: usize = 0;
    while k < texts.len()
        invariant
            k <= texts.len(),
            out.deep_view() == waiting(text_views(texts@)).take(k as int),
        decreases texts.len() - k,
    {
        out.push(owned(texts[k].1.as_str()));
        assert(out.deep_view() =~= waiting(text_views(texts@)).take(k + 1));
        k += 1;
    }
    assert(waiting(text_views(texts@)).take(texts.len() as int) =~= waiting(text_views(texts@)));
    out
}

fn flush(buffer: &mut Vec<Event>, texts: &mut Vec<(usize, String)>)
    ensures
        final(buffer).deep_view() == flushed_buffer(
            old(buffer).deep_view(),
            text_views(old(texts)@),
        ),
        final(buffer).len() == old(buffer).len(),
        final(texts)@.len() == 0,
{
    if texts.len() == 0 {
        return;
    }
    let ghost before = buffer.deep_view();
    let ghost waits = text_views(texts@);
    let smartened = convert_quotes_in_text_segment(strings_of(texts));
    let ghost conv = smartened.deep_view();
    let mut k: usize = 0;
    while k < texts.len() && k < smartened.len()
        invariant
            k <= texts.len(),
            k <= smartened.len(),
            waits == text_views(texts@),
            conv == smartened.deep_view(),
            buffer.len() == before.len(),
            buffer.deep_view() == with_replacements(before, waits, conv, k as int),
        decreases texts.len() - k,
    {
        let at = texts[k].0;
        if at < buffer.len() {
            let ghost earlier = buffer.deep_view();
            buffer.set(at, Event::Text(owned(smartened[k].as_str())));
            assert(buffer.deep_view() =~= earlier.update(
                at as int,
                EventView::Text(conv[k as int]),
            ));
        }
        k += 1;
    }
    *texts = Vec::new();
    assert(text_views(texts@) =~= Seq::empty());
}

/// What a token is to the smartening of texts.
#[derive(Debug, PartialEq, Eq, Structural, Clone, Copy)]
pub enum Smartening {
    /// The token lets the texts that wait wait on.
    Passes,
    /// The token is a text.
    Text,
    /// The token begins code.
    BeginsCode,
    /// The token ends code.
    EndsCode,
    /// The token breaks quotations.
    Breaks,
}

/// What a token is to the smartening of texts.
pub open spec fn smartening_of(e: EventView) -> Smartening {
    match e {
        EventView::Start(TagView::BlockQuote) => Smartening::Passes,
        EventView::End(TagView::BlockQuote) => Smartening::Passes,
        EventView::Start(TagView::Paragraph) => Smartening::Passes,
        EventView::Text(_) => Smartening::Text,
        EventView::Start(TagView::CodeBlock(_)) => Smartening::BeginsCode,
        EventView::End(TagView::CodeBlock(_)) => Smartening::EndsCode,
        _ => if breaks_quotes(e) {
            Smartening::Breaks
        } else {
            Smartening::Passes
        },
    }
}

fn classify(e: &Event) -> (r: Smartening)
    ensures
        r == smartening_of(e.deep_view()),
{
    match e {
        Event::Start(Tag::BlockQuote) => Smartening::Passes,
        Event::End(Tag::BlockQuote) => Smartening::Passes,
        Event::Start(Tag::Paragraph) => Smartening::Passes,
        Event::Text(_) => Smartening::Text,
        Event::Start(Tag::CodeBlock(_)) => Smartening::BeginsCode,
        Event::End(Tag::CodeBlock(_)) => Smartening::EndsCode,
        _ => if resets_quotes(e) {
            Smartening::Breaks
        } else {
            Smartening::Passes
        },
    }
}

fn text_in(e: &Event) -> (r: String)
    ensures
        e is Text ==> r@ == e->Text_0@,
{
    match e {
        Event::Text(t) => owned(t.as_str()),
        _ => String::new(),
    }
}

/// Smartens the texts of a buffer, run by run.
pub fn smarten_texts(buffering: Vec<Event>, smarten: bool) -> (r: Vec<Event>)
    ensures
        r.deep_view() == smartened_buffer(buffering.deep_view(), smarten),
{
    let ghost all = buffering.deep_view();
    let mut buffer = buffering;
    let mut texts: Vec<(usize, String)> = Vec::new();
    let mut in_verbatim = false;
    let mut idx: usize = 0;
    assert(text_views(texts@) =~= Seq::empty());
    while idx < buffer.len()
        invariant
            idx <= buffer.len(),
            buffer.len() == all.len(),
            text_fold(all, smarten, idx as int) == (TextState {
                buffer: buffer.deep_view(),
                texts: text_views(texts@),
                in_verbatim,
            }),
        decreases buffer.len() - idx,
    {
        let ghost st = text_fold(all, smarten, idx as int);
        match classify(&buffer[idx]) {
            Smartening::Text => {
                if !in_verbatim && smarten {
                    let t = text_in(&buffer[idx]);
                    let ghost waits = text_views(texts@);
                    let ghost earlier = buffer.deep_view();
                    buffer.set(idx, Event::Text(String::new()));
                    texts.push((idx, t));
                    assert(text_views(texts@) =~= waits.push((idx, t@)));
                    assert(buffer.deep_view() =~= earlier.update(
                        idx as int,
                        EventView::Text(Seq::empty()),
                    ));
                }
            },
            Smartening::BeginsCode => {
                in_verbatim = true;
                flush(&mut buffer, &mut texts);
                assert(text_views(texts@) =~= Seq::empty());
            },
            Smartening::EndsCode => {
                in_verbatim = true;
                texts = Vec::new();
                assert(text_views(texts@) =~= Seq::empty());
            },
            Smartening::Breaks => {
                flush(&mut buffer, &mut texts);
                assert(text_views(texts@) =~= Seq::empty());
            },
            Smartening::Passes => {},
        }
        idx += 1;
    }
    buffer
}

/// What the token at `idx` of a buffer becomes among the spans that are
/// open, and the spans that are open behind it: the bounds of a long
/// quotation become its start and its end, raw markup is read as a span,
/// and any other token stays.
pub open spec fn drain_step(
    open: Seq<CurrentSpan>,
    marks: Seq<usize>,
    idx: usize,
    e: EventView,
) -> (Seq<CurrentSpan>, EventView) {
    match e {
        EventView::Start(TagView::BlockQuote) => if marks.contains(idx) {
            (open, EventView::Start(TagView::BlockQuotation))
        } else {
            (open, e)
        },
        EventView::End(TagView::BlockQuote) => if marks.contains(idx) {
            (open, EventView::End(TagView::BlockQuotation))
        } else {
            (open, e)
        },
        EventView::Html(html) => span_step(open, html),
        _ => (open, e),
    }
}

/// The first `n` tokens of a buffer as tokens of a book, and the spans
/// that are open behind them.
pub open spec fn drained(
    open: Seq<CurrentSpan>,
    marks: Seq<usize>,
    buffer: Seq<EventView>,
    n: int,
) -> (Seq<CurrentSpan>, Seq<EventView>)
    decreases n,
{
    if n <= 0 {
        (open, Seq::empty())
    } else {
        let before = drained(open, marks, buffer, n - 1);
        let next = drain_step(before.0, marks, (n - 1) as usize, buffer[n - 1]);
        (next.0, before.1.push(next.1))
    }
}

/// A buffer of plain tokens as tokens of a book, and the spans that are
/// open behind it: the block quotes with more than one paragraph are
/// long quotations, the texts are smartened run by run where that is
/// asked for, and the spans that say how their text is set are tags.
pub open spec fn finished(
    buffering: Seq<EventView>,
    smarten: bool,
    open: Seq<CurrentSpan>,
) -> (Seq<CurrentSpan>, Seq<EventView>) {
    drained(
        open,
        quotation_marks(buffering),
        smartened_buffer(buffering, smarten),
        buffering.len() as int,
    )
}

fn drain_one(current_spans: &mut Vec<CurrentSpan>, marks: &Vec<usize>, idx: usize, e: Event) -> (r:
    Event)
    ensures
        (final(current_spans)@, r.deep_view()) == drain_step(
            old(current_spans)@,
            marks@,
            idx,
            e.deep_view(),
        ),
{
    match e {
        Event::Start(Tag::BlockQuote) => {
            if is_marked(marks, idx) {
                Event::Start(Tag::BlockQuotation)
            } else {
                Event::Start(Tag::BlockQuote)
            }
        },
        Event::End(Tag::BlockQuote) => {
            if is_marked(marks, idx) {
                Event::End(Tag::BlockQuotation)
            } else {
                Event::End(Tag::BlockQuote)
            }
        },
        Event::Html(html) => read_span(current_spans, html),
        other => other,
    }
}

/// The smartening of a buffer keeps its length.
pub proof fn lemma_text_fold_len(events: Seq<EventView>, smarten: bool, n: int)
    ensures
        text_fold(events, smarten, n).buffer.len() == events.len(),
    decreases n,
{
    if n > 0 {
        lemma_text_fold_len(events, smarten, n - 1);
        let st = text_fold(events, smarten, n - 1);
        if st.texts.len() > 0 {
            lemma_replacements_len(
                st.buffer,
                st.texts,
                converted(waiting(st.texts)),
                replaceable(st.texts, converted(waiting(st.texts))),
            );
        }
    }
}

/// Makes tokens of a book of a buffer of plain tokens, among the spans
/// that are open.
pub fn finish_buffer(
    buffering: Vec<Event>,
    smarten: bool,
    current_spans: &mut Vec<CurrentSpan>,
) -> (r: Vec<Event>)
    ensures
        (final(current_spans)@, r.deep_view()) == finished(
            buffering.deep_view(),
            smarten,
            old(current_spans)@,
        ),
{
    let ghost all = buffering.deep_view();
    let marks = mark_quotations(&buffering);
    let buffer = smarten_texts(buffering, smarten);
    proof {
        lemma_text_fold_len(all, smarten, all.len() as int);
    }
    let ghost smartened = buffer.deep_view();
    let mut buffered: Vec<Event> = Vec::new();
    let n = buffer.len();
    let mut idx: usize = 0;
    while idx < n
        invariant
            idx <= n,
            n == buffer.len(),
            smartened == buffer.deep_view(),
            (current_spans@, buffered.deep_view()) == drained(
                old(current_spans)@,
                marks@,
                smartened,
                idx as int,
            ),
        decreases n - idx,
    {
        let event = buffer[idx].clone();
        buffered.push(drain_one(current_spans, &marks, idx, event));
        idx += 1;
    }
    buffered
}

/// The first `n` tokens of a buffer come to `n` tokens of a book.
pub proof fn lemma_drained_len(
    open: Seq<CurrentSpan>,
    marks: Seq<usize>,
    buffer: Seq<EventView>,
    n: int,
)
    requires
        0 <= n,
    ensures
        drained(open, marks, buffer, n).1.len() == n,
    decreases n,
{
    if n > 0 {
        lemma_drained_len(open, marks, buffer, n - 1);
    }
}

/// A buffer comes to as many tokens of a book as it has plain tokens:
/// tokens are changed in their places, and none is added or dropped.
pub proof fn law_finishing_keeps_the_places(
    buffering: Seq<EventView>,
    smarten: bool,
    open: Seq<CurrentSpan>,
)
    ensures
        finished(buffering, smarten, open).1.len() == buffering.len(),
{
    lemma_drained_len(
        open,
        quotation_marks(buffering),
        smartened_buffer(buffering, smarten),
        buffering.len() as int,
    );
}

} // verus!
