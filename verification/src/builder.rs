//! The content accumulator: a builder that takes the parts of a book in
//! whatever order the caller has them, wraps each in the region markers of
//! its role, and keeps it for assembly.

use crate::balance::{
    calm, closings, lemma_ancillary, lemma_calm_empty, lemma_calm_joined,
    lemma_colophon_division, lemma_copyright_division, lemma_dedication_division, lemma_epigraph,
    lemma_halftitle_division, one_if,
};
use crate::book_event::{append_lifted, lifted, BookEvent, BookEventView};
use crate::events::{Event, EventView, Tag, TagView};
use crate::metadata::{ContributorSource, Metadata, MetadataView, titled};
use crate::roles::{NumberFormat, SemanticRole};
use crate::seqs::{first_index, group_views, lemma_first_index, lemma_first_index_is};
use crate::tokens::{
    after_initial_title, in_capitals, initial_title, inline_only, make_paragraphs_unindented,
    make_uppercase, parse_inline_plain, remove_initial_title, title_closed, unindented,
};
use vstd::prelude::*;
use vstd::string::*;

verus! {

/// The builder of a book: one buffer of events for each role, the tokens of
/// the mainmatter, the metadata, and what the caller chose to suppress.
#[derive(Debug)]
pub struct BookSrcBuilder {
    pub halftitle: Vec<BookEvent>,
    pub copyright_page: Vec<BookEvent>,
    pub dedication: Vec<BookEvent>,
    pub forewords: Vec<BookEvent>,
    pub epigraphs: Vec<BookEvent>,
    pub introductions: Vec<BookEvent>,
    pub prefaces: Vec<BookEvent>,
    pub mainmatter: Vec<Event>,
    pub appendices: Vec<BookEvent>,
    pub afterwords: Vec<BookEvent>,
    pub colophon: Vec<BookEvent>,
    pub acknowledgements: Vec<BookEvent>,
    pub metadata: Metadata,
    /// The directories in which images named by the manuscript are looked for.
    pub image_dirs: Vec<String>,
    /// How many appendices were added.
    pub appendices_count: u8,
    /// How many epigraphs were added.
    pub epigraph_count: usize,
    pub no_titlepage: bool,
    pub no_copyrightpage: bool,
    pub no_halftitle: bool,
}

/// What a `BookSrcBuilder` holds, as mathematics.
pub struct BuilderView {
    pub halftitle: Seq<BookEventView>,
    pub copyright_page: Seq<BookEventView>,
    pub dedication: Seq<BookEventView>,
    pub forewords: Seq<BookEventView>,
    pub epigraphs: Seq<BookEventView>,
    pub introductions: Seq<BookEventView>,
    pub prefaces: Seq<BookEventView>,
    pub mainmatter: Seq<EventView>,
    pub appendices: Seq<BookEventView>,
    pub afterwords: Seq<BookEventView>,
    pub colophon: Seq<BookEventView>,
    pub acknowledgements: Seq<BookEventView>,
    pub metadata: MetadataView,
    pub image_dirs: Seq<Seq<char>>,
    pub appendices_count: u8,
    pub epigraph_count: usize,
    pub no_titlepage: bool,
    pub no_copyrightpage: bool,
    pub no_halftitle: bool,
}

impl DeepView for BookSrcBuilder {
    type V = BuilderView;

    open spec fn deep_view(&self) -> BuilderView {
        BuilderView {
            halftitle: self.halftitle.deep_view(),
            copyright_page: self.copyright_page.deep_view(),
            dedication: self.dedication.deep_view(),
            forewords: self.forewords.deep_view(),
            epigraphs: self.epigraphs.deep_view(),
            introductions: self.introductions.deep_view(),
            prefaces: self.prefaces.deep_view(),
            mainmatter: self.mainmatter.deep_view(),
            appendices: self.appendices.deep_view(),
            afterwords: self.afterwords.deep_view(),
            colophon: self.colophon.deep_view(),
            acknowledgements: self.acknowledgements.deep_view(),
            metadata: self.metadata.deep_view(),
            image_dirs: self.image_dirs.deep_view(),
            appendices_count: self.appendices_count,
            epigraph_count: self.epigraph_count,
            no_titlepage: self.no_titlepage,
            no_copyrightpage: self.no_copyrightpage,
            no_halftitle: self.no_halftitle,
        }
    }
}

/// The builder of a book of which only the title is known.
pub open spec fn fresh(title: Seq<char>) -> BuilderView {
    BuilderView {
        halftitle: Seq::empty(),
        copyright_page: Seq::empty(),
        dedication: Seq::empty(),
        forewords: Seq::empty(),
        epigraphs: Seq::empty(),
        introductions: Seq::empty(),
        prefaces: Seq::empty(),
        mainmatter: Seq::empty(),
        appendices: Seq::empty(),
        afterwords: Seq::empty(),
        colophon: Seq::empty(),
        acknowledgements: Seq::empty(),
        metadata: titled(title),
        image_dirs: Seq::empty(),
        appendices_count: 0,
        epigraph_count: 0,
        no_titlepage: false,
        no_copyrightpage: false,
        no_halftitle: false,
    }
}

/// The label marker of a role, if the role has a label.
pub open spec fn label_marker(
    role: SemanticRole,
    number: Option<u8>,
    number_format: NumberFormat,
) -> Seq<BookEventView> {
    match role.label() {
        Some(l) => seq![
            BookEventView::DivisionHeaderLabel { text: Some(l), number, number_format },
        ],
        None => Seq::empty(),
    }
}

/// The marker that names the authors of a division, if it has any.
pub open spec fn authors_marker(authors: Seq<Seq<char>>) -> Seq<BookEventView> {
    if authors.len() == 0 {
        Seq::empty()
    } else {
        seq![BookEventView::DivisionAuthors(authors)]
    }
}

/// The tokens of an optional run, or none.
pub open spec fn tokens_or_none(t: Option<Seq<EventView>>) -> Seq<EventView> {
    match t {
        Some(s) => s,
        None => Seq::empty(),
    }
}

/// A division with a header: the region of its role, a header region with
/// title, label and authors, and the text.
pub open spec fn headed_division(
    role: SemanticRole,
    title: Option<Seq<EventView>>,
    label: Seq<BookEventView>,
    authors: Seq<Seq<char>>,
    text: Seq<EventView>,
) -> Seq<BookEventView> {
    seq![BookEventView::BeginSemantic(role), BookEventView::BeginDivisionHeader(false)] + lifted(
        tokens_or_none(title),
    ) + label + authors_marker(authors) + seq![BookEventView::EndDivisionHeader(false)] + lifted(
        text,
    ) + seq![BookEventView::EndSemantic(role)]
}

/// The title of a fragment: the one supplied, kept to a line of text, or the
/// leading top-level heading of the fragment.
pub open spec fn title_of(text: Seq<EventView>, title: Option<Seq<EventView>>) -> Option<
    Seq<EventView>,
> {
    match title {
        Some(t) => Some(inline_only(t)),
        None => initial_title(text),
    }
}

/// The body of a fragment: the fragment itself where a title was supplied,
/// else what follows its leading heading.
pub open spec fn body_of(text: Seq<EventView>, title: Option<Seq<EventView>>) -> Seq<EventView> {
    match title {
        Some(_) => text,
        None => after_initial_title(text),
    }
}

/// A fragment as a division of `role`, with the role's default label.
pub open spec fn ancillary(
    role: SemanticRole,
    text: Seq<EventView>,
    title: Option<Seq<EventView>>,
    number: Option<u8>,
    number_format: NumberFormat,
    authors: Seq<Seq<char>>,
) -> Seq<BookEventView> {
    headed_division(
        role,
        title_of(text, title),
        label_marker(role, number, number_format),
        authors,
        body_of(text, title),
    )
}

/// Whether a fragment can be added without a title of its own: a leading
/// heading, if it has one, is closed.
pub open spec fn can_take_title(text: Seq<EventView>, title: Option<Seq<EventView>>) -> bool {
    title is None ==> title_closed(text)
}

fn push_label(out: &mut Vec<BookEvent>, role: SemanticRole, number: Option<u8>, nf: NumberFormat)
    ensures
        final(out).deep_view() == old(out).deep_view() + label_marker(role, number, nf),
{
    proof {
        broadcast use group_views;

    }
    match role.get_label() {
        Some(l) => {
            out.push(
                BookEvent::DivisionHeaderLabel {
                    text: Some(String::from_str(l)),
                    number,
                    number_format: nf,
                },
            );
            assert(out.deep_view() =~= old(out).deep_view() + label_marker(role, number, nf));
        },
        None => {
            assert(out.deep_view() =~= old(out).deep_view() + label_marker(role, number, nf));
        },
    }
}

/// Wraps a fragment as a division of `role` with a header.
pub fn make_ancillary(
    role: SemanticRole,
    text: Vec<Event>,
    title: Option<Vec<Event>>,
    number: Option<u8>,
    number_format: NumberFormat,
    authors: Vec<String>,
) -> (r: Vec<BookEvent>)
    requires
        can_take_title(text.deep_view(), title.deep_view()),
    ensures
        r.deep_view() == ancillary(
            role,
            text.deep_view(),
            title.deep_view(),
            number,
            number_format,
            authors.deep_view(),
        ),
{
    let ghost text0 = text.deep_view();
    let ghost title0 = title.deep_view();
    let mut text = text;
    let title = match title {
        Some(t) => Some(parse_inline_plain(t)),
        None => remove_initial_title(&mut text),
    };
    assert(title.deep_view() == title_of(text0, title0));
    assert(text.deep_view() == body_of(text0, title0));
    let mut events: Vec<BookEvent> = Vec::new();
    proof {
        broadcast use group_views;

    }
    events.push(BookEvent::BeginSemantic(role));
    events.push(BookEvent::BeginDivisionHeader(false));
    let ghost s1 = events.deep_view();
    assert(s1 =~= seq![
        BookEventView::BeginSemantic(role),
        BookEventView::BeginDivisionHeader(false),
    ]);
    match &title {
        Some(t) => {
            append_lifted(&mut events, t);
        },
        None => {
            assert(lifted(Seq::<EventView>::empty()) =~= Seq::<BookEventView>::empty());
            assert(events.deep_view() =~= s1 + lifted(Seq::<EventView>::empty()));
        },
    }
    let ghost s2 = events.deep_view();
    assert(s2 == s1 + lifted(tokens_or_none(title_of(text0, title0))));
    push_label(&mut events, role, number, number_format);
    let ghost s3 = events.deep_view();
    assert(authors.deep_view().len() == authors.len());
    if authors.len() > 0 {
        events.push(BookEvent::DivisionAuthors(authors));
        assert(events.deep_view() =~= s3 + authors_marker(authors.deep_view()));
    } else {
        assert(events.deep_view() =~= s3 + authors_marker(authors.deep_view()));
    }
    events.push(BookEvent::EndDivisionHeader(false));
    let ghost s4 = events.deep_view();
    append_lifted(&mut events, &text);
    events.push(BookEvent::EndSemantic(role));
    assert(events.deep_view() =~= ancillary(
        role,
        text0,
        title0,
        number,
        number_format,
        authors.deep_view(),
    ));
    events
}

/// Whether a token is the end of a paragraph.
pub open spec fn ends_paragraph(e: EventView) -> bool {
    e == EventView::End(TagView::Paragraph)
}

/// Whether a fragment begins with a paragraph.
pub open spec fn opens_paragraph(tokens: Seq<EventView>) -> bool {
    tokens.len() > 0 && tokens[0] == EventView::Start(TagView::Paragraph)
}

/// The index at which the first paragraph of a fragment ends, or the length
/// of the fragment when none ends.
pub open spec fn paragraph_end(tokens: Seq<EventView>) -> int {
    first_index(tokens, |e: EventView| ends_paragraph(e))
}

/// A fragment whose leading paragraph, if it begins with one, is closed.
pub open spec fn paragraph_closed(tokens: Seq<EventView>) -> bool {
    opens_paragraph(tokens) ==> paragraph_end(tokens) < tokens.len()
}

/// The text of an epigraph: its leading paragraph is unindented.
pub open spec fn epigraph_text(tokens: Seq<EventView>) -> Seq<EventView> {
    Seq::new(
        tokens.len(),
        |i: int|
            if opens_paragraph(tokens) && i == 0 {
                EventView::Start(TagView::UnindentedParagraph)
            } else if opens_paragraph(tokens) && i == paragraph_end(tokens) {
                EventView::End(TagView::UnindentedParagraph)
            } else {
                tokens[i]
            },
    )
}

/// The source of an epigraph between its markers, or nothing.
pub open spec fn epigraph_source(source: Option<Seq<EventView>>) -> Seq<BookEventView> {
    match source {
        Some(s) => seq![BookEventView::BeginEpigraphSource] + lifted(inline_only(s)) + seq![
            BookEventView::EndEpigraphSource,
        ],
        None => Seq::empty(),
    }
}

/// An epigraph as a division: its text, then its source if it has one.
pub open spec fn epigraph(text: Seq<EventView>, source: Option<Seq<EventView>>) -> Seq<
    BookEventView,
> {
    seq![
        BookEventView::BeginSemantic(SemanticRole::Epigraph),
        BookEventView::BeginEpigraphText,
    ] + lifted(epigraph_text(text)) + seq![BookEventView::EndEpigraphText] + epigraph_source(
        source,
    ) + seq![BookEventView::EndSemantic(SemanticRole::Epigraph)]
}

/// The title of the source of an epigraph, in single quotes or in italics.
pub open spec fn source_title_text(title_of_source: Option<Seq<char>>, quote_title: bool) -> Seq<
    char,
> {
    match title_of_source {
        Some(t) => if quote_title {
            "‘"@ + t + "’"@
        } else {
            "*"@ + t + "*"@
        },
        None => Seq::empty(),
    }
}

/// The author of the source of an epigraph, in small caps.
pub open spec fn source_author_text(author: Option<Seq<char>>) -> Seq<char> {
    match author {
        Some(a) => "<span class=\"smallcaps\">"@ + a + "</span>"@,
        None => Seq::empty(),
    }
}

/// The source line of an epigraph as a manuscript fragment: the author, then
/// the title of the source, with a comma between them where both are given.
pub open spec fn epigraph_source_text(
    author: Option<Seq<char>>,
    title_of_source: Option<Seq<char>>,
    quote_title: bool,
) -> Option<Seq<char>> {
    let between = if title_of_source is Some && author is Some {
        ", "@
    } else {
        Seq::empty()
    };
    let source = source_author_text(author) + between + source_title_text(
        title_of_source,
        quote_title,
    );
    if source.len() == 0 {
        None
    } else {
        Some(source)
    }
}

/// A copyright page as a division: an optional title in capitals, strong and
/// sans, in a paragraph of its own, then the text with unindented paragraphs.
pub open spec fn copyright_division(text: Seq<EventView>, title: Option<Seq<EventView>>) -> Seq<
    BookEventView,
> {
    let body = lifted(text.map_values(|e: EventView| unindented(e)));
    match title {
        Some(t) => seq![
            BookEventView::BeginSemantic(SemanticRole::Copyrightpage),
            BookEventView::Event(EventView::Start(TagView::UnindentedParagraph)),
            BookEventView::Event(EventView::Start(TagView::Sans)),
            BookEventView::Event(EventView::Start(TagView::Strong)),
        ] + lifted(in_capitals(inline_only(t))) + seq![
            BookEventView::Event(EventView::End(TagView::Strong)),
            BookEventView::Event(EventView::End(TagView::Sans)),
            BookEventView::Event(EventView::End(TagView::UnindentedParagraph)),
        ] + body + seq![BookEventView::EndSemantic(SemanticRole::Copyrightpage)],
        None => seq![BookEventView::BeginSemantic(SemanticRole::Copyrightpage)] + body + seq![
            BookEventView::EndSemantic(SemanticRole::Copyrightpage),
        ],
    }
}

/// A halftitle as a division: the title in capitals, as a header.
pub open spec fn halftitle_division(title: Seq<EventView>) -> Seq<BookEventView> {
    seq![
        BookEventView::BeginSemantic(SemanticRole::Halftitle),
        BookEventView::BeginDivisionHeader(false),
    ] + lifted(in_capitals(inline_only(title))) + seq![
        BookEventView::EndDivisionHeader(false),
        BookEventView::EndSemantic(SemanticRole::Halftitle),
    ]
}

/// A dedication as a division: a line of text.
pub open spec fn dedication_division(text: Seq<EventView>) -> Seq<BookEventView> {
    seq![BookEventView::BeginSemantic(SemanticRole::Dedication)] + lifted(inline_only(text))
        + seq![BookEventView::EndSemantic(SemanticRole::Dedication)]
}

/// A colophon as a division: an empty header and one unindented paragraph.
pub open spec fn colophon_division(text: Seq<EventView>) -> Seq<BookEventView> {
    seq![
        BookEventView::BeginSemantic(SemanticRole::Colophon),
        BookEventView::BeginDivisionHeader(false),
        BookEventView::EndDivisionHeader(false),
        BookEventView::Event(EventView::Start(TagView::UnindentedParagraph)),
    ] + lifted(inline_only(text)) + seq![
        BookEventView::Event(EventView::End(TagView::UnindentedParagraph)),
        BookEventView::EndSemantic(SemanticRole::Colophon),
    ]
}

fn closes_paragraph(e: &Event) -> (r: bool)
    ensures
        r == ends_paragraph(e.deep_view()),
{
    match e {
        Event::End(Tag::Paragraph) => true,
        _ => false,
    }
}

fn begins_with_paragraph(tokens: &Vec<Event>) -> (r: bool)
    ensures
        r == opens_paragraph(tokens.deep_view()),
{
    if tokens.len() == 0 {
        false
    } else {
        assert(tokens.deep_view()[0] == tokens[0].deep_view());
        match &tokens[0] {
            Event::Start(Tag::Paragraph) => true,
            _ => false,
        }
    }
}

/// Unindents the leading paragraph of the text of an epigraph.
pub fn make_epigraph_text(tokens: &Vec<Event>) -> (r: Vec<Event>)
    requires
        paragraph_closed(tokens.deep_view()),
    ensures
        r.deep_view() == epigraph_text(tokens.deep_view()),
{
    let ghost ev = tokens.deep_view();
    let opens = begins_with_paragraph(tokens);
    let n = tokens.len();
    let mut out: Vec<Event> = Vec::new();
    let mut found = false;
    let mut i: usize = 0;
    proof {
        broadcast use group_views;

        lemma_first_index(ev, |e: EventView| ends_paragraph(e));
    }
    while i < n
        invariant
            i <= n,
            n == tokens.len(),
            ev == tokens.deep_view(),
            opens == opens_paragraph(ev),
            0 <= paragraph_end(ev) <= n,
            paragraph_end(ev) < n ==> ends_paragraph(ev[paragraph_end(ev)]),
            forall|j: int| 0 <= j < paragraph_end(ev) ==> !ends_paragraph(#[trigger] ev[j]),
            opens ==> found == (paragraph_end(ev) < i),
            out.deep_view() == epigraph_text(ev).take(i as int),
        decreases n - i,
    {
        assert(ev[i as int] == tokens[i as int].deep_view());
        let e = if opens && i == 0 {
            Event::Start(Tag::UnindentedParagraph)
        } else if opens && !found && closes_paragraph(&tokens[i]) {
            found = true;
            Event::End(Tag::UnindentedParagraph)
        } else {
            tokens[i].clone()
        };
        out.push(e);
        proof {
            broadcast use group_views;

            assert(epigraph_text(ev).take(i + 1) =~= epigraph_text(ev).take(i as int).push(
                epigraph_text(ev)[i as int],
            ));
        }
        i += 1;
    }
    assert(epigraph_text(ev).take(n as int) =~= epigraph_text(ev));
    out
}

/// The source line of an epigraph as a manuscript fragment.
pub fn make_epigraph_source_text(
    author: Option<&str>,
    title_of_source: Option<&str>,
    quote_title: bool,
) -> (r: Option<String>)
    ensures
        r.deep_view() == epigraph_source_text(
            author.deep_view(),
            title_of_source.deep_view(),
            quote_title,
        ),
{
    let mut source = String::new();
    match author {
        Some(a) => {
            source.append("<span class=\"smallcaps\">");
            source.append(a);
            source.append("</span>");
        },
        None => {},
    }
    assert(source@ =~= source_author_text(author.deep_view()));
    if title_of_source.is_some() && author.is_some() {
        source.append(", ");
    }
    let ghost s1 = source@;
    match title_of_source {
        Some(t) => {
            if quote_title {
                source.append("‘");
                source.append(t);
                source.append("’");
            } else {
                source.append("*");
                source.append(t);
                source.append("*");
            }
        },
        None => {},
    }
    assert(source@ =~= s1 + source_title_text(title_of_source.deep_view(), quote_title));
    if source.as_str().is_empty() {
        None
    } else {
        Some(source)
    }
}

/// An epigraph as a division.
pub fn make_epigraph(text: Vec<Event>, source: Option<Vec<Event>>) -> (r: Vec<BookEvent>)
    requires
        paragraph_closed(text.deep_view()),
    ensures
        r.deep_view() == epigraph(text.deep_view(), source.deep_view()),
{
    proof {
        broadcast use group_views;

    }
    let mut out: Vec<BookEvent> = Vec::new();
    out.push(BookEvent::BeginSemantic(SemanticRole::Epigraph));
    out.push(BookEvent::BeginEpigraphText);
    let unindented_text = make_epigraph_text(&text);
    append_lifted(&mut out, &unindented_text);
    out.push(BookEvent::EndEpigraphText);
    let ghost s1 = out.deep_view();
    match source {
        Some(s) => {
            out.push(BookEvent::BeginEpigraphSource);
            let line = parse_inline_plain(s);
            append_lifted(&mut out, &line);
            out.push(BookEvent::EndEpigraphSource);
            assert(out.deep_view() =~= s1 + epigraph_source(source.deep_view()));
        },
        None => {
            assert(out.deep_view() =~= s1 + epigraph_source(source.deep_view()));
        },
    }
    out.push(BookEvent::EndSemantic(SemanticRole::Epigraph));
    assert(out.deep_view() =~= epigraph(text.deep_view(), source.deep_view()));
    out
}

/// A copyright page as a division.
pub fn make_copyright_division(text: Vec<Event>, title: Option<Vec<Event>>) -> (r: Vec<BookEvent>)
    ensures
        r.deep_view() == copyright_division(text.deep_view(), title.deep_view()),
{
    proof {
        broadcast use group_views;

    }
    let mut events = text;
    make_paragraphs_unindented(&mut events);
    let mut out: Vec<BookEvent> = Vec::new();
    out.push(BookEvent::BeginSemantic(SemanticRole::Copyrightpage));
    match title {
        Some(t) => {
            let mut line = parse_inline_plain(t);
            make_uppercase(&mut line);
            out.push(BookEvent::Event(Event::Start(Tag::UnindentedParagraph)));
            out.push(BookEvent::Event(Event::Start(Tag::Sans)));
            out.push(BookEvent::Event(Event::Start(Tag::Strong)));
            append_lifted(&mut out, &line);
            out.push(BookEvent::Event(Event::End(Tag::Strong)));
            out.push(BookEvent::Event(Event::End(Tag::Sans)));
            out.push(BookEvent::Event(Event::End(Tag::UnindentedParagraph)));
        },
        None => {},
    }
    append_lifted(&mut out, &events);
    out.push(BookEvent::EndSemantic(SemanticRole::Copyrightpage));
    assert(out.deep_view() =~= copyright_division(text.deep_view(), title.deep_view()));
    out
}

/// A halftitle as a division.
pub fn make_halftitle(title: Vec<Event>) -> (r: Vec<BookEvent>)
    ensures
        r.deep_view() == halftitle_division(title.deep_view()),
{
    proof {
        broadcast use group_views;

    }
    let mut line = parse_inline_plain(title);
    make_uppercase(&mut line);
    let mut out: Vec<BookEvent> = Vec::new();
    out.push(BookEvent::BeginSemantic(SemanticRole::Halftitle));
    out.push(BookEvent::BeginDivisionHeader(false));
    append_lifted(&mut out, &line);
    out.push(BookEvent::EndDivisionHeader(false));
    out.push(BookEvent::EndSemantic(SemanticRole::Halftitle));
    assert(out.deep_view() =~= halftitle_division(title.deep_view()));
    out
}

/// A dedication as a division.
pub fn make_dedication(text: Vec<Event>) -> (r: Vec<BookEvent>)
    ensures
        r.deep_view() == dedication_division(text.deep_view()),
{
    proof {
        broadcast use group_views;

    }
    let line = parse_inline_plain(text);
    let mut out: Vec<BookEvent> = Vec::new();
    out.push(BookEvent::BeginSemantic(SemanticRole::Dedication));
    append_lifted(&mut out, &line);
    out.push(BookEvent::EndSemantic(SemanticRole::Dedication));
    assert(out.deep_view() =~= dedication_division(text.deep_view()));
    out
}

/// A colophon as a division.
pub fn make_colophon(text: Vec<Event>) -> (r: Vec<BookEvent>)
    ensures
        r.deep_view() == colophon_division(text.deep_view()),
{
    proof {
        broadcast use group_views;

    }
    let line = parse_inline_plain(text);
    let mut out: Vec<BookEvent> = Vec::new();
    out.push(BookEvent::BeginSemantic(SemanticRole::Colophon));
    out.push(BookEvent::BeginDivisionHeader(false));
    out.push(BookEvent::EndDivisionHeader(false));
    out.push(BookEvent::Event(Event::Start(Tag::UnindentedParagraph)));
    append_lifted(&mut out, &line);
    out.push(BookEvent::Event(Event::End(Tag::UnindentedParagraph)));
    out.push(BookEvent::EndSemantic(SemanticRole::Colophon));
    assert(out.deep_view() =~= colophon_division(text.deep_view()));
    out
}

/// A calm stream in which this many epigraphs and this many appendices end.
pub open spec fn tallied(stream: Seq<BookEventView>, epigraphs: nat, appendices: nat) -> bool {
    &&& calm(stream)
    &&& closings(stream, SemanticRole::Epigraph) == epigraphs
    &&& closings(stream, SemanticRole::Appendix) == appendices
}

/// Two tallied streams in a row are tallied by the sums.
pub proof fn lemma_tallied_joined(
    a: Seq<BookEventView>,
    b: Seq<BookEventView>,
    epigraphs_a: nat,
    appendices_a: nat,
    epigraphs_b: nat,
    appendices_b: nat,
)
    requires
        tallied(a, epigraphs_a, appendices_a),
        tallied(b, epigraphs_b, appendices_b),
    ensures
        tallied(a + b, epigraphs_a + epigraphs_b, appendices_a + appendices_b),
{
    lemma_calm_joined(a, b, SemanticRole::Epigraph);
    lemma_calm_joined(a, b, SemanticRole::Appendix);
}

/// The empty stream is tallied by zero.
pub proof fn lemma_tallied_empty()
    ensures
        tallied(Seq::<BookEventView>::empty(), 0, 0),
{
    lemma_calm_empty(SemanticRole::Epigraph);
    lemma_calm_empty(SemanticRole::Appendix);
}

/// A division of a fragment is tallied by its role.
pub proof fn lemma_tallied_ancillary(
    role: SemanticRole,
    text: Seq<EventView>,
    title: Option<Seq<EventView>>,
    number: Option<u8>,
    number_format: NumberFormat,
    authors: Seq<Seq<char>>,
)
    ensures
        tallied(
            ancillary(role, text, title, number, number_format, authors),
            one_if(role == SemanticRole::Epigraph),
            one_if(role == SemanticRole::Appendix),
        ),
{
    lemma_ancillary(role, text, title, number, number_format, authors, SemanticRole::Epigraph);
    lemma_ancillary(role, text, title, number, number_format, authors, SemanticRole::Appendix);
}

impl BuilderView {
    /// The invariant of the accumulator: every buffer is calm, epigraphs end
    /// in the epigraph buffer only and as many as were added, and appendices
    /// end in the appendix buffer only and as many as were added.
    pub open spec fn wf(self) -> bool {
        &&& tallied(self.halftitle, 0, 0)
        &&& tallied(self.copyright_page, 0, 0)
        &&& tallied(self.dedication, 0, 0)
        &&& tallied(self.forewords, 0, 0)
        &&& tallied(self.epigraphs, self.epigraph_count as nat, 0)
        &&& tallied(self.introductions, 0, 0)
        &&& tallied(self.prefaces, 0, 0)
        &&& tallied(self.appendices, 0, self.appendices_count as nat)
        &&& tallied(self.afterwords, 0, 0)
        &&& tallied(self.colophon, 0, 0)
        &&& tallied(self.acknowledgements, 0, 0)
    }
}

/// A builder that was just begun meets the invariant.
pub proof fn lemma_fresh_wf(title: Seq<char>)
    ensures
        fresh(title).wf(),
{
    lemma_tallied_empty();
}

impl BookSrcBuilder {
    /// Begins a book with this title.
    pub fn new(title: &str) -> (r: BookSrcBuilder)
        ensures
            r.deep_view() == fresh(title@),
            r.deep_view().wf(),
    {
        proof {
            lemma_fresh_wf(title@);
        }
        let r = BookSrcBuilder {
            halftitle: Vec::new(),
            copyright_page: Vec::new(),
            dedication: Vec::new(),
            forewords: Vec::new(),
            epigraphs: Vec::new(),
            introductions: Vec::new(),
            prefaces: Vec::new(),
            mainmatter: Vec::new(),
            appendices: Vec::new(),
            afterwords: Vec::new(),
            colophon: Vec::new(),
            acknowledgements: Vec::new(),
            metadata: Metadata::new(title),
            image_dirs: Vec::new(),
            appendices_count: 0,
            epigraph_count: 0,
            no_titlepage: false,
            no_copyrightpage: false,
            no_halftitle: false,
        };
        proof {
            broadcast use group_views;

            assert(r.halftitle.deep_view() =~= Seq::empty());
            assert(r.copyright_page.deep_view() =~= Seq::empty());
            assert(r.dedication.deep_view() =~= Seq::empty());
            assert(r.forewords.deep_view() =~= Seq::empty());
            assert(r.epigraphs.deep_view() =~= Seq::empty());
            assert(r.introductions.deep_view() =~= Seq::empty());
            assert(r.prefaces.deep_view() =~= Seq::empty());
            assert(r.mainmatter.deep_view() =~= Seq::empty());
            assert(r.appendices.deep_view() =~= Seq::empty());
            assert(r.afterwords.deep_view() =~= Seq::empty());
            assert(r.colophon.deep_view() =~= Seq::empty());
            assert(r.acknowledgements.deep_view() =~= Seq::empty());
            assert(r.image_dirs.deep_view() =~= Seq::empty());
        }
        r
    }

    /// Leaves the halftitle out of the book.
    pub fn do_not_generate_halftitle(&mut self)
        ensures
            final(self).deep_view() == (BuilderView { no_halftitle: true, ..old(self).deep_view() }),
            old(self).deep_view().wf() ==> final(self).deep_view().wf(),
    {
        self.no_halftitle = true;
    }

    /// Leaves the titlepage out of the book.
    pub fn do_not_generate_titlepage(&mut self)
        ensures
            final(self).deep_view() == (BuilderView { no_titlepage: true, ..old(self).deep_view() }),
            old(self).deep_view().wf() ==> final(self).deep_view().wf(),
    {
        self.no_titlepage = true;
    }

    /// Leaves the copyright page out of the book.
    pub fn do_not_generate_copyrightpage(&mut self)
        ensures
            final(self).deep_view() == (BuilderView {
                no_copyrightpage: true,
                ..old(self).deep_view()
            }),
            old(self).deep_view().wf() ==> final(self).deep_view().wf(),
    {
        self.no_copyrightpage = true;
    }

    /// Records a directory in which images of the manuscript are looked for.
    pub fn add_image_dir(&mut self, dir: &str)
        ensures
            final(self).deep_view() == (BuilderView {
                image_dirs: old(self).deep_view().image_dirs.push(dir@),
                ..old(self).deep_view()
            }),
            old(self).deep_view().wf() ==> final(self).deep_view().wf(),
    {
        proof {
            broadcast use group_views;

        }
        self.image_dirs.push(String::from_str(dir));
    }

    /// Adds an author or authors.
    pub fn author<A: ContributorSource>(&mut self, val: A)
        ensures
            final(self).deep_view() == (BuilderView {
                metadata: (MetadataView {
                    authors: old(self).deep_view().metadata.authors + val.names(),
                    ..old(self).deep_view().metadata
                }),
                ..old(self).deep_view()
            }),
            old(self).deep_view().wf() ==> final(self).deep_view().wf(),
    {
        self.metadata.author(val);
    }

    /// Adds a translator or translators.
    pub fn translator<A: ContributorSource>(&mut self, val: A)
        ensures
            final(self).deep_view() == (BuilderView {
                metadata: (MetadataView {
                    translators: old(self).deep_view().metadata.translators + val.names(),
                    ..old(self).deep_view().metadata
                }),
                ..old(self).deep_view()
            }),
            old(self).deep_view().wf() ==> final(self).deep_view().wf(),
    {
        self.metadata.translator(val);
    }

    /// Adds an editor or editors.
    pub fn editor<A: ContributorSource>(&mut self, val: A)
        ensures
            final(self).deep_view() == (BuilderView {
                metadata: (MetadataView {
                    editors: old(self).deep_view().metadata.editors + val.names(),
                    ..old(self).deep_view().metadata
                }),
                ..old(self).deep_view()
            }),
            old(self).deep_view().wf() ==> final(self).deep_view().wf(),
    {
        self.metadata.editor(val);
    }

    /// Names the cover designer.
    pub fn cover_designer(&mut self, val: &str)
        ensures
            final(self).deep_view() == (BuilderView {
                metadata: (MetadataView {
                    cover_designer: Some(val@),
                    ..old(self).deep_view().metadata
                }),
                ..old(self).deep_view()
            }),
            old(self).deep_view().wf() ==> final(self).deep_view().wf(),
    {
        self.metadata.cover_designer(val);
    }

    /// Sets the short title, used where the full title would be too long.
    pub fn shorttitle(&mut self, val: &str)
        ensures
            final(self).deep_view() == (BuilderView {
                metadata: (MetadataView {
                    shorttitle: Some(val@),
                    ..old(self).deep_view().metadata
                }),
                ..old(self).deep_view()
            }),
            old(self).deep_view().wf() ==> final(self).deep_view().wf(),
    {
        self.metadata.shorttitle(val);
    }

    /// Sets the subtitle.
    pub fn subtitle(&mut self, val: &str)
        ensures
            final(self).deep_view() == (BuilderView {
                metadata: (MetadataView {
                    subtitle: Some(val@),
                    ..old(self).deep_view().metadata
                }),
                ..old(self).deep_view()
            }),
            old(self).deep_view().wf() ==> final(self).deep_view().wf(),
    {
        self.metadata.subtitle(val);
    }

    /// Names the copyright holder of the author photograph.
    pub fn author_photo_copyright_holder(&mut self, val: &str)
        ensures
            final(self).deep_view() == (BuilderView {
                metadata: (MetadataView {
                    author_photo_copyright_holder: Some(val@),
                    ..old(self).deep_view().metadata
                }),
                ..old(self).deep_view()
            }),
            old(self).deep_view().wf() ==> final(self).deep_view().wf(),
    {
        self.metadata.author_photo_copyright_holder(val);
    }

    /// Sets the ISBN of the paperback edition.
    pub fn paperback_isbn(&mut self, val: &str)
        ensures
            final(self).deep_view() == (BuilderView {
                metadata: (MetadataView {
                    paperback_isbn: Some(val@),
                    ..old(self).deep_view().metadata
                }),
                ..old(self).deep_view()
            }),
            old(self).deep_view().wf() ==> final(self).deep_view().wf(),
    {
        self.metadata.paperback_isbn(val);
    }

    /// Sets the ISBN of the hardback edition.
    pub fn hardback_isbn(&mut self, val: &str)
        ensures
            final(self).deep_view() == (BuilderView {
                metadata: (MetadataView {
                    hardback_isbn: Some(val@),
                    ..old(self).deep_view().metadata
                }),
                ..old(self).deep_view()
            }),
            old(self).deep_view().wf() ==> final(self).deep_view().wf(),
    {
        self.metadata.hardback_isbn(val);
    }

    /// Sets the ISBN of the epub edition.
    pub fn epub_isbn(&mut self, val: &str)
        ensures
            final(self).deep_view() == (BuilderView {
                metadata: (MetadataView {
                    epub_isbn: Some(val@),
                    ..old(self).deep_view().metadata
                }),
                ..old(self).deep_view()
            }),
            old(self).deep_view().wf() ==> final(self).deep_view().wf(),
    {
        self.metadata.epub_isbn(val);
    }

    /// Names the publisher.
    pub fn publisher(&mut self, val: &str)
        ensures
            final(self).deep_view() == (BuilderView {
                metadata: (MetadataView {
                    publisher_name: Some(val@),
                    ..old(self).deep_view().metadata
                }),
                ..old(self).deep_view()
            }),
            old(self).deep_view().wf() ==> final(self).deep_view().wf(),
    {
        self.metadata.publisher(val);
    }

    /// Sets the address of the publisher.
    pub fn publisher_address(&mut self, val: &str)
        ensures
            final(self).deep_view() == (BuilderView {
                metadata: (MetadataView {
                    publisher_address: Some(val@),
                    ..old(self).deep_view().metadata
                }),
                ..old(self).deep_view()
            }),
            old(self).deep_view().wf() ==> final(self).deep_view().wf(),
    {
        self.metadata.publisher_address(val);
    }

    /// Sets the url of the publisher.
    pub fn publisher_url(&mut self, val: &str)
        ensures
            final(self).deep_view() == (BuilderView {
                metadata: (MetadataView {
                    publisher_url: Some(val@),
                    ..old(self).deep_view().metadata
                }),
                ..old(self).deep_view()
            }),
            old(self).deep_view().wf() ==> final(self).deep_view().wf(),
    {
        self.metadata.publisher_url(val);
    }

    /// States where the work is printed.
    pub fn print_location(&mut self, val: &str)
        ensures
            final(self).deep_view() == (BuilderView {
                metadata: (MetadataView {
                    print_loc: Some(val@),
                    ..old(self).deep_view().metadata
                }),
                ..old(self).deep_view()
            }),
            old(self).deep_view().wf() ==> final(self).deep_view().wf(),
    {
        self.metadata.print_location(val);
    }

    /// Sets a copyright statement in place of the generated one.
    pub fn copyright_statement(&mut self, val: &str)
        ensures
            final(self).deep_view() == (BuilderView {
                metadata: (MetadataView {
                    copyright_statement: Some(val@),
                    ..old(self).deep_view().metadata
                }),
                ..old(self).deep_view()
            }),
            old(self).deep_view().wf() ==> final(self).deep_view().wf(),
    {
        self.metadata.copyright_statement(val);
    }

    /// Leaves the assertion of moral rights off the copyright page.
    pub fn do_not_assert_moral_rights(&mut self)
        ensures
            final(self).deep_view() == (BuilderView {
                metadata: (MetadataView {
                    do_not_assert_moral_rights: true,
                    ..old(self).deep_view().metadata
                }),
                ..old(self).deep_view()
            }),
            old(self).deep_view().wf() ==> final(self).deep_view().wf(),
    {
        self.metadata.do_not_assert_moral_rights();
    }

    /// Marks this as a later edition.
    pub fn is_not_first_publication(&mut self)
        ensures
            final(self).deep_view() == (BuilderView {
                metadata: (MetadataView {
                    is_not_first_publication: true,
                    ..old(self).deep_view().metadata
                }),
                ..old(self).deep_view()
            }),
            old(self).deep_view().wf() ==> final(self).deep_view().wf(),
    {
        self.metadata.is_not_first_publication();
    }
}

impl BookSrcBuilder {
    /// Adds a foreword, with its authors. Without a title of its own, a leading
    /// top-level heading of the text is its title.
    pub fn add_foreword<A: ContributorSource>(
        &mut self,
        text: Vec<Event>,
        title: Option<Vec<Event>>,
        authors: A,
    )
        requires
            can_take_title(text.deep_view(), title.deep_view()),
        ensures
            final(self).deep_view() == (BuilderView {
                forewords: old(self).deep_view().forewords + ancillary(
                    SemanticRole::Foreword,
                    text.deep_view(),
                    title.deep_view(),
                    None,
                    NumberFormat::Arabic,
                    authors.names(),
                ),
                metadata: (MetadataView {
                    foreword_authors: old(self).deep_view().metadata.foreword_authors + authors.names(),
                    ..old(self).deep_view().metadata
                }),
                ..old(self).deep_view()
            }),
            old(self).deep_view().wf() ==> final(self).deep_view().wf(),
    {
        proof {
            broadcast use group_views;

        }
        let authors = authors.to_vec();
        self.metadata.add_foreword_authors(crate::book_event::copy_names(&authors));
        let ghost division = ancillary(
            SemanticRole::Foreword,
            text.deep_view(),
            title.deep_view(),
            None,
            NumberFormat::Arabic,
            authors.deep_view(),
        );
        let mut events = make_ancillary(
            SemanticRole::Foreword,
            text,
            title,
            None,
            NumberFormat::Arabic,
            authors,
        );
        self.forewords.append(&mut events);
        proof {
            lemma_tallied_ancillary(
                SemanticRole::Foreword,
                text.deep_view(),
                title.deep_view(),
                None,
                NumberFormat::Arabic,
                authors.deep_view(),
            );
            if old(self).deep_view().wf() {
                lemma_tallied_joined(old(self).deep_view().forewords, division, 0, 0, 0, 0);
            }
        }
    }

    /// Adds an afterword, with its authors. Without a title of its own, a leading
    /// top-level heading of the text is its title.
    pub fn add_afterword<A: ContributorSource>(
        &mut self,
        text: Vec<Event>,
        title: Option<Vec<Event>>,
        authors: A,
    )
        requires
            can_take_title(text.deep_view(), title.deep_view()),
        ensures
            final(self).deep_view() == (BuilderView {
                afterwords: old(self).deep_view().afterwords + ancillary(
                    SemanticRole::Afterword,
                    text.deep_view(),
                    title.deep_view(),
                    None,
                    NumberFormat::Arabic,
                    authors.names(),
                ),
                metadata: (MetadataView {
                    afterword_authors: old(self).deep_view().metadata.afterword_authors + authors.names(),
                    ..old(self).deep_view().metadata
                }),
                ..old(self).deep_view()
            }),
            old(self).deep_view().wf() ==> final(self).deep_view().wf(),
    {
        proof {
            broadcast use group_views;

        }
        let authors = authors.to_vec();
        self.metadata.add_afterword_authors(crate::book_event::copy_names(&authors));
        let ghost division = ancillary(
            SemanticRole::Afterword,
            text.deep_view(),
            title.deep_view(),
            None,
            NumberFormat::Arabic,
            authors.deep_view(),
        );
        let mut events = make_ancillary(
            SemanticRole::Afterword,
            text,
            title,
            None,
            NumberFormat::Arabic,
            authors,
        );
        self.afterwords.append(&mut events);
        proof {
            lemma_tallied_ancillary(
                SemanticRole::Afterword,
                text.deep_view(),
                title.deep_view(),
                None,
                NumberFormat::Arabic,
                authors.deep_view(),
            );
            if old(self).deep_view().wf() {
                lemma_tallied_joined(old(self).deep_view().afterwords, division, 0, 0, 0, 0);
            }
        }
    }

    /// Adds an introduction, with its authors. Without a title of its own, a leading
    /// top-level heading of the text is its title.
    pub fn add_introduction<A: ContributorSource>(
        &mut self,
        text: Vec<Event>,
        title: Option<Vec<Event>>,
        authors: A,
    )
        requires
            can_take_title(text.deep_view(), title.deep_view()),
        ensures
            final(self).deep_view() == (BuilderView {
                introductions: old(self).deep_view().introductions + ancillary(
                    SemanticRole::Introduction,
                    text.deep_view(),
                    title.deep_view(),
                    None,
                    NumberFormat::Arabic,
                    authors.names(),
                ),
                metadata: (MetadataView {
                    introduction_authors: old(self).deep_view().metadata.introduction_authors + authors.names(),
                    ..old(self).deep_view().metadata
                }),
                ..old(self).deep_view()
            }),
            old(self).deep_view().wf() ==> final(self).deep_view().wf(),
    {
        proof {
            broadcast use group_views;

        }
        let authors = authors.to_vec();
        self.metadata.add_introduction_authors(crate::book_event::copy_names(&authors));
        let ghost division = ancillary(
            SemanticRole::Introduction,
            text.deep_view(),
            title.deep_view(),
            None,
            NumberFormat::Arabic,
            authors.deep_view(),
        );
        let mut events = make_ancillary(
            SemanticRole::Introduction,
            text,
            title,
            None,
            NumberFormat::Arabic,
            authors,
        );
        self.introductions.append(&mut events);
        proof {
            lemma_tallied_ancillary(
                SemanticRole::Introduction,
                text.deep_view(),
                title.deep_view(),
                None,
                NumberFormat::Arabic,
                authors.deep_view(),
            );
            if old(self).deep_view().wf() {
                lemma_tallied_joined(old(self).deep_view().introductions, division, 0, 0, 0, 0);
            }
        }
    }

    /// Adds a preface. Without a title of its own, a leading top-level heading
    /// of the text is its title.
    pub fn add_preface(&mut self, text: Vec<Event>, title: Option<Vec<Event>>)
        requires
            can_take_title(text.deep_view(), title.deep_view()),
        ensures
            final(self).deep_view() == (BuilderView {
                prefaces: old(self).deep_view().prefaces + ancillary(
                    SemanticRole::Preface,
                    text.deep_view(),
                    title.deep_view(),
                    None,
                    NumberFormat::Arabic,
                    Seq::empty(),
                ),
                ..old(self).deep_view()
            }),
            old(self).deep_view().wf() ==> final(self).deep_view().wf(),
    {
        proof {
            broadcast use group_views;

        }
        let authors: Vec<String> = Vec::new();
        let ghost division = ancillary(
            SemanticRole::Preface,
            text.deep_view(),
            title.deep_view(),
            None,
            NumberFormat::Arabic,
            Seq::empty(),
        );
        let mut events = make_ancillary(
            SemanticRole::Preface,
            text,
            title,
            None,
            NumberFormat::Arabic,
            authors,
        );
        self.prefaces.append(&mut events);
        proof {
            lemma_tallied_ancillary(
                SemanticRole::Preface,
                text.deep_view(),
                title.deep_view(),
                None,
                NumberFormat::Arabic,
                Seq::empty(),
            );
            if old(self).deep_view().wf() {
                lemma_tallied_joined(old(self).deep_view().prefaces, division, 0, 0, 0, 0);
            }
        }
    }

    /// Adds acknowledgements or an author's note. Without a title of its own, a leading top-level heading
    /// of the text is its title.
    pub fn add_acknowledgements(&mut self, text: Vec<Event>, title: Option<Vec<Event>>)
        requires
            can_take_title(text.deep_view(), title.deep_view()),
        ensures
            final(self).deep_view() == (BuilderView {
                acknowledgements: old(self).deep_view().acknowledgements + ancillary(
                    SemanticRole::Acknowledgements,
                    text.deep_view(),
                    title.deep_view(),
                    None,
                    NumberFormat::Arabic,
                    Seq::empty(),
                ),
                ..old(self).deep_view()
            }),
            old(self).deep_view().wf() ==> final(self).deep_view().wf(),
    {
        proof {
            broadcast use group_views;

        }
        let authors: Vec<String> = Vec::new();
        let ghost division = ancillary(
            SemanticRole::Acknowledgements,
            text.deep_view(),
            title.deep_view(),
            None,
            NumberFormat::Arabic,
            Seq::empty(),
        );
        let mut events = make_ancillary(
            SemanticRole::Acknowledgements,
            text,
            title,
            None,
            NumberFormat::Arabic,
            authors,
        );
        self.acknowledgements.append(&mut events);
        proof {
            lemma_tallied_ancillary(
                SemanticRole::Acknowledgements,
                text.deep_view(),
                title.deep_view(),
                None,
                NumberFormat::Arabic,
                Seq::empty(),
            );
            if old(self).deep_view().wf() {
                lemma_tallied_joined(old(self).deep_view().acknowledgements, division, 0, 0, 0, 0);
            }
        }
    }

    /// Adds an appendix. Appendices are lettered in the order in which they
    /// are added, from zero.
    pub fn add_appendix(&mut self, text: Vec<Event>, title: Option<Vec<Event>>)
        requires
            can_take_title(text.deep_view(), title.deep_view()),
            old(self).appendices_count < u8::MAX,
        ensures
            final(self).deep_view() == (BuilderView {
                appendices: old(self).deep_view().appendices + ancillary(
                    SemanticRole::Appendix,
                    text.deep_view(),
                    title.deep_view(),
                    Some(old(self).appendices_count),
                    NumberFormat::Letter,
                    Seq::empty(),
                ),
                appendices_count: (old(self).appendices_count + 1) as u8,
                ..old(self).deep_view()
            }),
            old(self).deep_view().wf() ==> final(self).deep_view().wf(),
    {
        proof {
            broadcast use group_views;

        }
        let authors: Vec<String> = Vec::new();
        let mut events = make_ancillary(
            SemanticRole::Appendix,
            text,
            title,
            Some(self.appendices_count),
            NumberFormat::Letter,
            authors,
        );
        self.appendices.append(&mut events);
        self.appendices_count += 1;
        proof {
            let division = ancillary(
                SemanticRole::Appendix,
                text.deep_view(),
                title.deep_view(),
                Some(old(self).appendices_count),
                NumberFormat::Letter,
                Seq::empty(),
            );
            lemma_tallied_ancillary(
                SemanticRole::Appendix,
                text.deep_view(),
                title.deep_view(),
                Some(old(self).appendices_count),
                NumberFormat::Letter,
                Seq::empty(),
            );
            if old(self).deep_view().wf() {
                lemma_tallied_joined(
                    old(self).deep_view().appendices,
                    division,
                    0,
                    old(self).appendices_count as nat,
                    0,
                    1,
                );
            }
        }
    }

    /// Adds a fragment of mainmatter.
    pub fn add_mainmatter(&mut self, text: Vec<Event>)
        ensures
            final(self).deep_view() == (BuilderView {
                mainmatter: old(self).deep_view().mainmatter + text.deep_view(),
                ..old(self).deep_view()
            }),
            old(self).deep_view().wf() ==> final(self).deep_view().wf(),
    {
        proof {
            broadcast use group_views;

        }
        let mut text = text;
        self.mainmatter.append(&mut text);
    }

    /// Adds an epigraph, with the line that names its source if there is one.
    pub fn add_epigraph(&mut self, text: Vec<Event>, source: Option<Vec<Event>>)
        requires
            paragraph_closed(text.deep_view()),
            old(self).epigraph_count < usize::MAX,
        ensures
            final(self).deep_view() == (BuilderView {
                epigraphs: old(self).deep_view().epigraphs + epigraph(
                    text.deep_view(),
                    source.deep_view(),
                ),
                epigraph_count: (old(self).epigraph_count + 1) as usize,
                ..old(self).deep_view()
            }),
            old(self).deep_view().wf() ==> final(self).deep_view().wf(),
    {
        proof {
            broadcast use group_views;

        }
        let mut events = make_epigraph(text, source);
        self.epigraphs.append(&mut events);
        self.epigraph_count += 1;
        proof {
            lemma_epigraph(text.deep_view(), source.deep_view(), SemanticRole::Epigraph);
            lemma_epigraph(text.deep_view(), source.deep_view(), SemanticRole::Appendix);
            if old(self).deep_view().wf() {
                lemma_tallied_joined(
                    old(self).deep_view().epigraphs,
                    epigraph(text.deep_view(), source.deep_view()),
                    old(self).epigraph_count as nat,
                    0,
                    1,
                    0,
                );
            }
        }
    }

    /// Sets the copyright page; one that is not set is generated from the
    /// metadata on assembly, unless that was declined.
    pub fn add_copyright_page(&mut self, src: Vec<Event>, title: Option<Vec<Event>>)
        ensures
            final(self).deep_view() == (BuilderView {
                copyright_page: copyright_division(src.deep_view(), title.deep_view()),
                ..old(self).deep_view()
            }),
            old(self).deep_view().wf() ==> final(self).deep_view().wf(),
    {
        self.copyright_page = make_copyright_division(src, title);
        proof {
            lemma_copyright_division(src.deep_view(), title.deep_view(), SemanticRole::Epigraph);
            lemma_copyright_division(src.deep_view(), title.deep_view(), SemanticRole::Appendix);
        }
    }

    /// Sets the halftitle; one that is not set is generated from the
    /// metadata on assembly, unless that was declined.
    pub fn set_halftitle(&mut self, halftitle: Vec<Event>)
        ensures
            final(self).deep_view() == (BuilderView {
                halftitle: halftitle_division(halftitle.deep_view()),
                ..old(self).deep_view()
            }),
            old(self).deep_view().wf() ==> final(self).deep_view().wf(),
    {
        self.halftitle = make_halftitle(halftitle);
        proof {
            lemma_halftitle_division(halftitle.deep_view(), SemanticRole::Epigraph);
            lemma_halftitle_division(halftitle.deep_view(), SemanticRole::Appendix);
        }
    }

    /// Sets the dedication, a brief inscription.
    pub fn set_dedication(&mut self, dedication: Vec<Event>)
        ensures
            final(self).deep_view() == (BuilderView {
                dedication: dedication_division(dedication.deep_view()),
                ..old(self).deep_view()
            }),
            old(self).deep_view().wf() ==> final(self).deep_view().wf(),
    {
        self.dedication = make_dedication(dedication);
        proof {
            lemma_dedication_division(dedication.deep_view(), SemanticRole::Epigraph);
            lemma_dedication_division(dedication.deep_view(), SemanticRole::Appendix);
        }
    }

    /// Sets the colophon, a line on the making of the book.
    pub fn set_colophon(&mut self, colophon: Vec<Event>)
        ensures
            final(self).deep_view() == (BuilderView {
                colophon: colophon_division(colophon.deep_view()),
                ..old(self).deep_view()
            }),
            old(self).deep_view().wf() ==> final(self).deep_view().wf(),
    {
        self.colophon = make_colophon(colophon);
        proof {
            lemma_colophon_division(colophon.deep_view(), SemanticRole::Epigraph);
            lemma_colophon_division(colophon.deep_view(), SemanticRole::Appendix);
        }
    }
}

/// Whether the leading paragraph of a fragment, if it begins with one, is
/// closed.
pub fn is_paragraph_closed(tokens: &Vec<Event>) -> (r: bool)
    ensures
        r == paragraph_closed(tokens.deep_view()),
{
    let ghost ev = tokens.deep_view();
    let ghost closes = |e: EventView| ends_paragraph(e);
    if !begins_with_paragraph(tokens) {
        return true;
    }
    let n = tokens.len();
    let mut end: usize = 0;
    while end < n && !closes_paragraph(&tokens[end])
        invariant
            end <= n,
            n == tokens.len(),
            ev == tokens.deep_view(),
            forall|j: int| 0 <= j < end ==> !ends_paragraph(#[trigger] ev[j]),
        decreases n - end,
    {
        assert(ev[end as int] == tokens[end as int].deep_view());
        end += 1;
    }
    proof {
        if end < n {
            assert(ev[end as int] == tokens[end as int].deep_view());
        }
        lemma_first_index_is(ev, closes, end as int);
    }
    end < n
}

/// Whether a fragment can be added with this title, or with none.
pub fn fits_title(text: &Vec<Event>, title: &Option<Vec<Event>>) -> (r: bool)
    ensures
        r == can_take_title(text.deep_view(), title.deep_view()),
{
    match title {
        Some(_) => true,
        None => crate::tokens::is_title_closed(text),
    }
}

/// Whether `tokens` is what the token source made of the source line of an
/// epigraph; no tokens where the epigraph names no source.
pub open spec fn source_tokenized<F: Fn(&str) -> Vec<Event>>(
    tokenize: F,
    line: Option<Seq<char>>,
    tokens: Option<Vec<Event>>,
) -> bool {
    match line {
        Some(l) => tokens is Some && exists|s: &str|
            s@ == l && call_ensures(tokenize, (s,), tokens->0),
        None => tokens is None,
    }
}

impl BookSrcBuilder {
    /// Adds an epigraph whose source line is made of the author, in small
    /// caps, and the title of the source, in single quotes or in italics.
    /// The token source reads the line.
    pub fn add_explicit_epigraph<F: Fn(&str) -> Vec<Event>>(
        &mut self,
        text: Vec<Event>,
        author: Option<&str>,
        title_of_source: Option<&str>,
        quote_title: bool,
        tokenize: F,
    )
        requires
            paragraph_closed(text.deep_view()),
            old(self).epigraph_count < usize::MAX,
            forall|s: &str| call_requires(tokenize, (s,)),
        ensures
            exists|source: Option<Vec<Event>>| #[trigger]
                source_tokenized(
                    tokenize,
                    epigraph_source_text(
                        author.deep_view(),
                        title_of_source.deep_view(),
                        quote_title,
                    ),
                    source,
                ) && final(self).deep_view() == (BuilderView {
                    epigraphs: old(self).deep_view().epigraphs + epigraph(
                        text.deep_view(),
                        source.deep_view(),
                    ),
                    epigraph_count: (old(self).epigraph_count + 1) as usize,
                    ..old(self).deep_view()
                }),
            old(self).deep_view().wf() ==> final(self).deep_view().wf(),
    {
        let line = make_epigraph_source_text(author, title_of_source, quote_title);
        let source = match &line {
            Some(l) => Some(tokenize(l.as_str())),
            None => None,
        };
        let ghost witness = source;
        self.add_epigraph(text, source);
        proof {
            assert(source_tokenized(
                tokenize,
                epigraph_source_text(author.deep_view(), title_of_source.deep_view(), quote_title),
                witness,
            ));
        }
    }
}

} // verus!
