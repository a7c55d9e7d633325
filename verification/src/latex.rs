//! The LaTeX renderer: a walk over the stream of a book that writes one
//! continuous document.

use crate::book_event::{BookEvent, BookEventView};
use crate::escape::{escape_to_latex, latex_escaped};
use crate::events::{Event, EventView, Tag, TagView};
use crate::helpers::{
    after_region, all_escaped, collate_division_header, collate_epigraph, collate_image,
    collate_titlepage, collect_plain_until_end_of_footnote, epigraph_scan, header_of, if_any,
    introduced_contributors, passed_tokens, region, titlepage_scan, CollatedHeader,
    CollatedHeaderView, LatexMarker,
};
use crate::assembler::{BookSrc, BookSrcView};
use crate::epub_pages::{RenderingError, RenderingErrorView};
use crate::headers::reformatted;
use crate::images::{image_destinations, image_dests};
use crate::latex_options::{footer_authors, OptionsWithRenderedPreamble, RenderedOptionsView};
use crate::roles::{SemanticRole, TextHeaderOptions};
use crate::text::{joined, trim, trimmed_of};
use crate::tokens::in_capitals;
use crate::numbers::{signed_decimal, signed_to_decimal};
use crate::text::{contains_char, ends_with, push_char};
use vstd::prelude::*;
use vstd::string::*;

verus! {

/// A text that ends with a line end: the text itself where it does, else
/// the text with a line end behind it.
pub open spec fn on_new_line(s: Seq<char>) -> Seq<char> {
    if "\n"@.is_suffix_of(s) {
        s
    } else {
        s + "\n"@
    }
}

/// A text with the start of an environment behind it, on a line of its own.
pub open spec fn env_begun(s: Seq<char>, env: Seq<char>) -> Seq<char> {
    on_new_line(s) + "\\begin{"@ + env + "}\n"@
}

/// A text with the end of an environment behind it, on a line of its own.
pub open spec fn env_ended(s: Seq<char>, env: Seq<char>) -> Seq<char> {
    on_new_line(s) + "\\end{"@ + env + "}\n"@
}

/// A text with the setting of a counter behind it, on a line of its own;
/// an empty text gets no line end before it.
pub open spec fn counter_set(s: Seq<char>, counter: Seq<char>, value: int) -> Seq<char> {
    (if s.len() == 0 {
        s
    } else {
        on_new_line(s)
    }) + "\\setcounter{"@ + counter + "}{"@ + signed_decimal(value) + "}\n"@
}

/// A text with the stepping of a counter behind it, on a line of its own.
pub open spec fn counter_stepped(s: Seq<char>, counter: Seq<char>) -> Seq<char> {
    on_new_line(s) + "\\stepcounter{"@ + counter + "}\n"@
}

fn to_new_line(out: &mut String)
    ensures
        final(out)@ == on_new_line(old(out)@),
{
    if !ends_with(out.as_str(), "\n") {
        out.append("\n");
    }
}

/// Begins an environment on a line of its own.
pub fn begin_environment(out: &mut String, env_name: &str)
    ensures
        final(out)@ == env_begun(old(out)@, env_name@),
{
    to_new_line(out);
    out.append("\\begin{");
    out.append(env_name);
    out.append("}\n");
}

/// Ends an environment on a line of its own.
pub fn end_environment(out: &mut String, env_name: &str)
    ensures
        final(out)@ == env_ended(old(out)@, env_name@),
{
    to_new_line(out);
    out.append("\\end{");
    out.append(env_name);
    out.append("}\n");
}

/// Sets a counter on a line of its own.
pub fn set_counter(out: &mut String, counter: &str, value: isize)
    ensures
        final(out)@ == counter_set(old(out)@, counter@, value as int),
{
    if !out.as_str().is_empty() {
        to_new_line(out);
    }
    out.append("\\setcounter{");
    out.append(counter);
    out.append("}{");
    let digits = signed_to_decimal(value as i64);
    out.append(digits.as_str());
    out.append("}\n");
}

/// Steps a counter on a line of its own.
pub fn step_counter(out: &mut String, counter: &str)
    ensures
        final(out)@ == counter_stepped(old(out)@, counter@),
{
    to_new_line(out);
    out.append("\\stepcounter{");
    out.append(counter);
    out.append("}\n");
}

/// The characters that may delimit inline code, in the order in which they
/// are tried.
pub open spec fn delimiters() -> Seq<char> {
    seq!['❡', '|', '!', '®', '©', '℗', '™', '℠']
}

/// The index of the first delimiter that does not occur in the code, or
/// the number of delimiters when all occur.
pub open spec fn delimiter_index(code: Seq<char>, from: int) -> int
    decreases delimiters().len() - from,
{
    if from < 0 || from >= delimiters().len() {
        delimiters().len() as int
    } else if !code.contains(delimiters()[from]) {
        from
    } else {
        delimiter_index(code, from + 1)
    }
}

/// Whether inline code can be written: some delimiter does not occur in it.
pub open spec fn can_delimit(code: Seq<char>) -> bool {
    delimiter_index(code, 0) < delimiters().len()
}

/// The delimiter of inline code: the first that does not occur in it.
pub open spec fn delimiter_of(code: Seq<char>) -> char {
    delimiters()[delimiter_index(code, 0)]
}

/// Finds a delimiter for inline code: a character that does not occur in
/// it. There is none where the code holds every candidate.
pub fn find_delimiter(code: &str) -> (r: Option<char>)
    ensures
        can_delimit(code@) ==> r == Some(delimiter_of(code@)),
        !can_delimit(code@) ==> r is None,
{
    let candidates: [char; 8] = ['❡', '|', '!', '®', '©', '℗', '™', '℠'];
    assert(candidates@ =~= delimiters());
    let mut i: usize = 0;
    while i < 8
        invariant
            i <= 8,
            candidates@ == delimiters(),
            delimiter_index(code@, 0) == delimiter_index(code@, i as int),
        decreases 8 - i,
    {
        if !contains_char(code, candidates[i]) {
            return Some(candidates[i]);
        }
        i += 1;
    }
    None
}

/// Whether a token can be written: inline code needs a delimiter.
pub open spec fn writable(e: EventView) -> bool {
    match e {
        EventView::Code(c) => can_delimit(c),
        _ => true,
    }
}

/// Whether every token of a run can be written.
pub open spec fn all_writable(events: Seq<EventView>) -> bool {
    forall|i: int| 0 <= i < events.len() ==> writable(#[trigger] events[i])
}

/// Whether a token can be written.
pub fn is_writable(e: &Event) -> (r: bool)
    ensures
        r == writable(e.deep_view()),
{
    match e {
        Event::Code(c) => find_delimiter(c.as_str()).is_some(),
        _ => true,
    }
}

/// The path under which LaTeX can read the image at `dest`, if the caller
/// has found one: the path of the first entry for `dest`.
pub open spec fn image_path(images: Seq<(Seq<char>, Seq<char>)>, dest: Seq<char>) -> Option<
    Seq<char>,
>
    decreases images.len(),
{
    if images.len() == 0 {
        None
    } else if images[0].0 == dest {
        Some(images[0].1)
    } else {
        image_path(images.drop_first(), dest)
    }
}

/// Looks up the path under which LaTeX can read an image.
pub fn find_image_path<'a>(images: &'a Vec<(String, String)>, dest: &str) -> (r: Option<&'a str>)
    ensures
        r.deep_view() == image_path(images.deep_view(), dest@),
{
    let ghost all = images.deep_view();
    let mut i: usize = 0;
    assert(all.skip(0) =~= all);
    while i < images.len()
        invariant
            i <= images.len(),
            all == images.deep_view(),
            image_path(all, dest@) == image_path(all.skip(i as int), dest@),
        decreases images.len() - i,
    {
        proof {
            assert(all.skip(i as int)[0] == images[i as int].deep_view());
            assert(all.skip(i as int).drop_first() =~= all.skip(i + 1));
        }
        if crate::text::str_eq(images[i].0.as_str(), dest) {
            return Some(images[i].1.as_str());
        }
        i += 1;
    }
    assert(all.skip(images.len() as int).len() == 0);
    None
}

/// A figure with an image and, where there is one, a caption that is
/// already written.
pub open spec fn figure_written(s: Seq<char>, path: Seq<char>, caption: Option<Seq<char>>) -> Seq<
    char,
> {
    let begun = env_begun(s, "figure"@) + "\\centering\n"@
        + "\\includegraphics[width=\\textwidth]{"@ + path + "}\n"@;
    let captioned = match caption {
        Some(c) => begun + "\\caption{"@ + c + "}\n"@,
        None => begun,
    };
    env_ended(captioned, "figure"@)
}

/// What the writer of plain tokens carries along: the text written so far,
/// and whether it is inside a code block, where text is not escaped.
pub struct PlainState {
    pub output: Seq<char>,
    pub in_code: bool,
}

/// The markup that opens a heading of a level.
pub open spec fn heading_opening(level: u32) -> Seq<char> {
    if level <= 1 {
        "\n\\section{"@
    } else if level == 2 {
        "\n\\subsection{"@
    } else if level == 3 {
        "\n\\subsubsection{"@
    } else if level == 4 {
        "\n\\paragraph{"@
    } else {
        "\n\\subparagraph{"@
    }
}

/// What the start of a tagged run adds to the text.
pub open spec fn start_written(
    st: PlainState,
    t: TagView,
    images: Seq<(Seq<char>, Seq<char>)>,
) -> PlainState {
    let s = st.output;
    match t {
        TagView::Paragraph => PlainState { output: s + "\n"@, ..st },
        TagView::UnindentedParagraph => PlainState { output: s + "\n\\noindent "@, ..st },
        TagView::Heading(l) => PlainState { output: s + heading_opening(l), ..st },
        TagView::BlockQuote => PlainState { output: env_begun(s, "quote"@), ..st },
        TagView::BlockQuotation => PlainState { output: env_begun(s, "quotation"@), ..st },
        TagView::CodeBlock(_) => PlainState { output: env_begun(s, "verbatim"@), in_code: true },
        TagView::List(None) => PlainState { output: env_begun(s, "itemize"@), ..st },
        TagView::List(Some(_)) => PlainState { output: env_begun(s, "enumerate"@), ..st },
        TagView::Item => PlainState { output: s + "\\item "@, ..st },
        TagView::Sans => PlainState { output: s + "\\textsf{"@, ..st },
        TagView::Emphasis => PlainState { output: s + "\\emph{"@, ..st },
        TagView::Strong => PlainState { output: s + "\\textbf{"@, ..st },
        TagView::Link(_, url, _) => PlainState { output: s + "\\href{"@ + url + "}{"@, ..st },
        TagView::Image(_, dest, _) => match image_path(images, dest) {
            Some(p) => PlainState { output: figure_written(s, p, None), ..st },
            None => st,
        },
        TagView::Strikethrough => PlainState { output: s + "\\sout{"@, ..st },
        TagView::SmallCaps => PlainState { output: s + "\\textsc{"@, ..st },
        TagView::RightAligned => PlainState { output: env_begun(s, "flushright"@), ..st },
        TagView::Superscript => PlainState { output: s + "\\textsuperscript{"@, ..st },
        TagView::Subscript => PlainState { output: s + "\\textsubscript{"@, ..st },
        TagView::Centred => PlainState { output: env_begun(s, "center"@), ..st },
        _ => st,
    }
}

/// What the end of a tagged run adds to the text.
pub open spec fn end_written(st: PlainState, t: TagView) -> PlainState {
    let s = st.output;
    match t {
        TagView::Paragraph | TagView::UnindentedParagraph => PlainState {
            output: if "\n\n"@.is_suffix_of(s) {
                s
            } else {
                s + "\n"@
            },
            ..st
        },
        TagView::Heading(_) => PlainState { output: s + "}\n"@, ..st },
        TagView::BlockQuote => PlainState { output: env_ended(s, "quote"@), ..st },
        TagView::BlockQuotation => PlainState { output: env_ended(s, "quotation"@), ..st },
        TagView::CodeBlock(_) => PlainState { output: env_ended(s, "verbatim"@), in_code: false },
        TagView::List(None) => PlainState { output: env_ended(s, "itemize"@), ..st },
        TagView::List(Some(_)) => PlainState { output: env_ended(s, "enumerate"@), ..st },
        TagView::Item => PlainState { output: s + "\n"@, ..st },
        TagView::RightAligned => PlainState { output: env_ended(s, "flushright"@), ..st },
        TagView::Centred => PlainState { output: env_ended(s, "center"@), ..st },
        TagView::Sans
        | TagView::Emphasis
        | TagView::Strong
        | TagView::Link(_, _, _)
        | TagView::Strikethrough
        | TagView::SmallCaps
        | TagView::Superscript
        | TagView::Subscript => PlainState { output: s + "}"@, ..st },
        _ => st,
    }
}

/// What a plain token adds to the text. Text is escaped outside code
/// blocks; inline code goes between two delimiters that do not occur in
/// it; tables, raw markup, footnote markers and task markers add nothing.
pub open spec fn plain_written(
    st: PlainState,
    e: EventView,
    images: Seq<(Seq<char>, Seq<char>)>,
) -> PlainState {
    let s = st.output;
    match e {
        EventView::HardBreak => PlainState { output: s + "\\\\\n"@, ..st },
        EventView::SoftBreak => PlainState { output: s + "\n"@, ..st },
        EventView::Rule => PlainState { output: s + "\n\\pfbreak{}\n"@, ..st },
        EventView::Text(t) => PlainState {
            output: if st.in_code {
                s + t
            } else {
                s + latex_escaped(t)
            },
            ..st
        },
        EventView::Code(c) => PlainState {
            output: (s + "\\verb"@).push(delimiter_of(c)) + c + seq![delimiter_of(c)],
            ..st
        },
        EventView::Start(t) => start_written(st, t, images),
        EventView::End(t) => end_written(st, t),
        _ => st,
    }
}

/// What a run of plain tokens adds to the text, token by token.
pub open spec fn all_plain_written(
    st: PlainState,
    events: Seq<EventView>,
    images: Seq<(Seq<char>, Seq<char>)>,
) -> PlainState
    decreases events.len(),
{
    if events.len() == 0 {
        st
    } else {
        plain_written(all_plain_written(st, events.drop_last(), images), events.last(), images)
    }
}

fn write_figure(out: &mut String, path: &str, caption: Option<&str>)
    ensures
        final(out)@ == figure_written(old(out)@, path@, caption.deep_view()),
{
    begin_environment(out, "figure");
    out.append("\\centering\n");
    out.append("\\includegraphics[width=\\textwidth]{");
    out.append(path);
    out.append("}\n");
    match caption {
        Some(c) => {
            out.append("\\caption{");
            out.append(c);
            out.append("}\n");
        },
        None => {},
    }
    end_environment(out, "figure");
}

fn write_start(out: &mut String, in_code: &mut bool, images: &Vec<(String, String)>, t: &Tag)
    ensures
        (PlainState { output: final(out)@, in_code: *final(in_code) }) == start_written(
            PlainState { output: old(out)@, in_code: *old(in_code) },
            t.deep_view(),
            images.deep_view(),
        ),
{
    match t {
        Tag::Paragraph => out.append("\n"),
        Tag::UnindentedParagraph => out.append("\n\\noindent "),
        Tag::Heading(l) => {
            if *l <= 1 {
                out.append("\n\\section{");
            } else if *l == 2 {
                out.append("\n\\subsection{");
            } else if *l == 3 {
                out.append("\n\\subsubsection{");
            } else if *l == 4 {
                out.append("\n\\paragraph{");
            } else {
                out.append("\n\\subparagraph{");
            }
        },
        Tag::BlockQuote => begin_environment(out, "quote"),
        Tag::BlockQuotation => begin_environment(out, "quotation"),
        Tag::CodeBlock(_) => {
            begin_environment(out, "verbatim");
            *in_code = true;
        },
        Tag::List(None) => begin_environment(out, "itemize"),
        Tag::List(Some(_)) => begin_environment(out, "enumerate"),
        Tag::Item => out.append("\\item "),
        Tag::Sans => out.append("\\textsf{"),
        Tag::Emphasis => out.append("\\emph{"),
        Tag::Strong => out.append("\\textbf{"),
        Tag::Link(_, url, _) => {
            out.append("\\href{");
            out.append(url.as_str());
            out.append("}{");
        },
        Tag::Image(_, dest, _) => {
            match find_image_path(images, dest.as_str()) {
                Some(p) => write_figure(out, p, None),
                None => {},
            }
        },
        Tag::Strikethrough => out.append("\\sout{"),
        Tag::SmallCaps => out.append("\\textsc{"),
        Tag::RightAligned => begin_environment(out, "flushright"),
        Tag::Superscript => out.append("\\textsuperscript{"),
        Tag::Subscript => out.append("\\textsubscript{"),
        Tag::Centred => begin_environment(out, "center"),
        _ => {},
    }
}

fn write_end(out: &mut String, in_code: &mut bool, t: &Tag)
    ensures
        (PlainState { output: final(out)@, in_code: *final(in_code) }) == end_written(
            PlainState { output: old(out)@, in_code: *old(in_code) },
            t.deep_view(),
        ),
{
    match t {
        Tag::Paragraph | Tag::UnindentedParagraph => {
            if !ends_with(out.as_str(), "\n\n") {
                out.append("\n");
            }
        },
        Tag::Heading(_) => out.append("}\n"),
        Tag::BlockQuote => end_environment(out, "quote"),
        Tag::BlockQuotation => end_environment(out, "quotation"),
        Tag::CodeBlock(_) => {
            end_environment(out, "verbatim");
            *in_code = false;
        },
        Tag::List(None) => end_environment(out, "itemize"),
        Tag::List(Some(_)) => end_environment(out, "enumerate"),
        Tag::Item => out.append("\n"),
        Tag::RightAligned => end_environment(out, "flushright"),
        Tag::Centred => end_environment(out, "center"),
        Tag::Sans
        | Tag::Emphasis
        | Tag::Strong
        | Tag::Link(_, _, _)
        | Tag::Strikethrough
        | Tag::SmallCaps
        | Tag::Superscript
        | Tag::Subscript => out.append("}"),
        _ => {},
    }
}

/// Writes a plain token.
pub fn write_plain(
    out: &mut String,
    in_code: &mut bool,
    images: &Vec<(String, String)>,
    event: &Event,
)
    requires
        writable(event.deep_view()),
    ensures
        (PlainState { output: final(out)@, in_code: *final(in_code) }) == plain_written(
            PlainState { output: old(out)@, in_code: *old(in_code) },
            event.deep_view(),
            images.deep_view(),
        ),
{
    match event {
        Event::HardBreak => out.append("\\\\\n"),
        Event::SoftBreak => out.append("\n"),
        Event::Rule => out.append("\n\\pfbreak{}\n"),
        Event::Text(s) => {
            if !*in_code {
                let escaped = escape_to_latex(s.as_str());
                out.append(escaped.as_str());
            } else {
                out.append(s.as_str());
            }
        },
        Event::Code(c) => {
            match find_delimiter(c.as_str()) {
                Some(delimiter) => {
                    out.append("\\verb");
                    push_char(out, delimiter);
                    out.append(c.as_str());
                    push_char(out, delimiter);
                    assert(out@ =~= (old(out)@ + "\\verb"@).push(delimiter_of(c@)) + c@ + seq![
                        delimiter_of(c@),
                    ]);
                },
                None => {},
            }
        },
        Event::Start(t) => write_start(out, in_code, images, t),
        Event::End(t) => write_end(out, in_code, t),
        _ => {},
    }
}

/// Writes a run of plain tokens.
pub fn write_all_plain(
    out: &mut String,
    in_code: &mut bool,
    images: &Vec<(String, String)>,
    events: &Vec<Event>,
)
    requires
        all_writable(events.deep_view()),
    ensures
        (PlainState { output: final(out)@, in_code: *final(in_code) }) == all_plain_written(
            PlainState { output: old(out)@, in_code: *old(in_code) },
            events.deep_view(),
            images.deep_view(),
        ),
{
    let ghost ev = events.deep_view();
    let ghost st0 = PlainState { output: out@, in_code: *in_code };
    let mut i: usize = 0;
    while i < events.len()
        invariant
            i <= events.len(),
            ev == events.deep_view(),
            all_writable(ev),
            (PlainState { output: out@, in_code: *in_code }) == all_plain_written(
                st0,
                ev.take(i as int),
                images.deep_view(),
            ),
        decreases events.len() - i,
    {
        proof {
            assert(ev.take(i + 1).drop_last() =~= ev.take(i as int));
            assert(ev.take(i + 1).last() == events[i as int].deep_view());
            assert(writable(ev[i as int]));
        }
        write_plain(out, in_code, images, &events[i]);
        i += 1;
    }
    assert(ev.take(events.len() as int) =~= ev);
}

/// One of the three matters of a book.
#[derive(Debug, PartialEq, Eq, Structural, Clone, Copy)]
pub enum Matter {
    Main,
    Front,
    Back,
}

/// The writer of a LaTeX document: the text written so far, where in the
/// book the walk is, and what it was told to expect.
#[derive(Debug)]
pub struct LatexWriter {
    pub output: String,
    pub current_matter: Option<Matter>,
    pub current_division: Option<SemanticRole>,
    pub expected_epigraphs_count: usize,
    pub seen_epigraphs: usize,
    pub expected_appendices_count: usize,
    pub seen_appendices: usize,
    pub in_code: bool,
    pub mainmatter_toggled: bool,
    pub publisher_imprint_logo: Option<String>,
    pub include_toc: bool,
    /// For each image of the book that LaTeX can read, its destination in
    /// the manuscript and the path under which LaTeX finds it.
    pub image_paths: Vec<(String, String)>,
}

/// What a `LatexWriter` holds, as mathematics.
pub struct LatexState {
    pub output: Seq<char>,
    pub current_matter: Option<Matter>,
    pub current_division: Option<SemanticRole>,
    pub expected_epigraphs_count: usize,
    pub seen_epigraphs: usize,
    pub expected_appendices_count: usize,
    pub seen_appendices: usize,
    pub in_code: bool,
    pub mainmatter_toggled: bool,
    pub publisher_imprint_logo: Option<Seq<char>>,
    pub include_toc: bool,
    pub image_paths: Seq<(Seq<char>, Seq<char>)>,
}

impl DeepView for LatexWriter {
    type V = LatexState;

    open spec fn deep_view(&self) -> LatexState {
        LatexState {
            output: self.output@,
            current_matter: self.current_matter,
            current_division: self.current_division,
            expected_epigraphs_count: self.expected_epigraphs_count,
            seen_epigraphs: self.seen_epigraphs,
            expected_appendices_count: self.expected_appendices_count,
            seen_appendices: self.seen_appendices,
            in_code: self.in_code,
            mainmatter_toggled: self.mainmatter_toggled,
            publisher_imprint_logo: self.publisher_imprint_logo.deep_view(),
            include_toc: self.include_toc,
            image_paths: self.image_paths.deep_view(),
        }
    }
}

/// The names of a group of contributors on the titlepage, every name
/// escaped: one name alone, or all but the last joined by commas, and the
/// last.
pub open spec fn contributor_names(names: Seq<Seq<char>>) -> Seq<char> {
    let escaped = all_escaped::<LatexMarker>(names);
    if escaped.len() == 0 {
        Seq::empty()
    } else if escaped.len() == 1 {
        "\n\\ctbname{"@ + escaped[0] + "}"@
    } else {
        "\n\\ctbname{"@ + joined(escaped.drop_last(), ", "@) + "}"@ + " \\ctband "@
            + "\\ctbname{"@ + escaped.last() + "}"@
    }
}

/// A group of contributors on the titlepage, behind the line that
/// introduces their role if there is one.
pub open spec fn contributor_group(s: Seq<char>, group: (Option<Seq<char>>, Seq<Seq<char>>)) -> Seq<
    char,
> {
    let begun = env_begun(s, "contributorgroup"@);
    let introduced = match group.0 {
        Some(role) => begun + "\n\\contributorintro{"@ + role + "}"@,
        None => begun,
    };
    env_ended(introduced + contributor_names(group.1), "contributorgroup"@)
}

/// The groups of contributors on the titlepage, one after the other.
pub open spec fn contributor_groups(
    s: Seq<char>,
    groups: Seq<(Option<Seq<char>>, Seq<Seq<char>>)>,
) -> Seq<char>
    decreases groups.len(),
{
    if groups.len() == 0 {
        s
    } else {
        contributor_group(contributor_groups(s, groups.drop_last()), groups.last())
    }
}

/// The authors of a header in one text: one name, or names and the last
/// name with `and` between them.
pub open spec fn header_authors(byline: Option<(Seq<char>, Option<Seq<char>>)>) -> Option<
    Seq<char>,
> {
    match byline {
        None => None,
        Some((first, None)) => Some(first),
        Some((first, Some(second))) => Some(first + " and "@ + second),
    }
}

/// An unnumbered chapter with an entry in the table of contents, as a text
/// of its own.
pub open spec fn unnumbered_chapter(title: Seq<char>) -> Seq<char> {
    counter_stepped(Seq::empty(), "chapter"@) + "\\chapter*{"@ + title + "}\n"@
        + "\\addcontentsline{toc}{chapter}{"@ + title + "}\n"@
}

/// What the writing of a footnote carries along.
pub struct FootnoteState {
    pub plain: PlainState,
    /// Whether the writer is passing over a footnote inside the footnote.
    pub skipping: bool,
}

/// What a token of a footnote adds: paragraphs are not begun and end in a
/// paragraph break, a footnote inside the footnote is passed over, and
/// anything else is written as it is elsewhere.
pub open spec fn footnote_step(
    st: FootnoteState,
    e: EventView,
    images: Seq<(Seq<char>, Seq<char>)>,
) -> FootnoteState {
    if st.skipping {
        FootnoteState { skipping: e != EventView::End(TagView::FlattenedFootnote), ..st }
    } else {
        match e {
            EventView::Start(TagView::Paragraph) => st,
            EventView::End(TagView::Paragraph) => FootnoteState {
                plain: PlainState { output: st.plain.output + "\\par{}"@, ..st.plain },
                ..st
            },
            EventView::Start(TagView::FlattenedFootnote) => FootnoteState { skipping: true, ..st },
            _ => FootnoteState { plain: plain_written(st.plain, e, images), ..st },
        }
    }
}

/// What the tokens of a footnote add, token by token.
pub open spec fn footnote_tokens_written(
    st: FootnoteState,
    events: Seq<EventView>,
    images: Seq<(Seq<char>, Seq<char>)>,
) -> FootnoteState
    decreases events.len(),
{
    if events.len() == 0 {
        st
    } else {
        footnote_step(footnote_tokens_written(st, events.drop_last(), images), events.last(), images)
    }
}

impl LatexState {
    /// This state with another text and code flag.
    pub open spec fn with_plain(self, p: PlainState) -> LatexState {
        LatexState { output: p.output, in_code: p.in_code, ..self }
    }

    /// The text and the code flag of this state.
    pub open spec fn plain(self) -> PlainState {
        PlainState { output: self.output, in_code: self.in_code }
    }

    /// This state with more text.
    pub open spec fn adding(self, s: Seq<char>) -> LatexState {
        LatexState { output: self.output + s, ..self }
    }

    /// This state with another text.
    pub open spec fn with_output(self, s: Seq<char>) -> LatexState {
        LatexState { output: s, ..self }
    }

    /// A plain token written.
    pub open spec fn token_written(self, e: EventView) -> LatexState {
        self.with_plain(plain_written(self.plain(), e, self.image_paths))
    }

    /// A run of plain tokens written.
    pub open spec fn tokens_written(self, events: Seq<EventView>) -> LatexState {
        self.with_plain(all_plain_written(self.plain(), events, self.image_paths))
    }

    /// An epigraph written. The first epigraph opens the environment that
    /// holds them all, and the last one that is expected closes it.
    pub open spec fn epigraph_written(self, text: Seq<EventView>, source: Seq<EventView>) -> LatexState {
        let opened = if self.seen_epigraphs == 0 {
            self.with_output(env_begun(self.output, "epigraphs"@))
        } else {
            self
        };
        let counted = LatexState {
            seen_epigraphs: (self.seen_epigraphs + 1) as usize,
            current_division: Some(SemanticRole::Epigraph),
            ..opened
        };
        let with_text = counted.tokens_written(text);
        let with_source = if source.len() > 0 {
            with_text.adding("\\par\n\\vspace{1em}\\noindent\\epigraphsource{"@).tokens_written(
                source,
            ).adding("}\n"@)
        } else {
            with_text
        };
        let closed = if with_source.seen_epigraphs == with_source.expected_epigraphs_count {
            with_source.with_output(env_ended(with_source.output, "epigraphs"@))
        } else {
            with_source.adding("\\bigskip\n"@)
        };
        LatexState { current_division: None, ..closed }
    }

    /// The header of a part or chapter of the mainmatter.
    pub open spec fn mainmatter_header(
        self,
        label: Option<Seq<char>>,
        title: Option<Seq<char>>,
        is_starred: bool,
    ) -> Seq<char> {
        let s = self.output;
        match self.current_division {
            Some(SemanticRole::Part) => match title {
                Some(t) => if is_starred {
                    s + "\n\\part*{"@ + t + "}"@
                } else {
                    s + "\n\\part{"@ + t + "}"@
                },
                None => s,
            },
            Some(SemanticRole::Chapter) => match (label, title) {
                (Some(_), Some(t)) => s + "\n\\chapter{"@ + t + "}"@,
                (Some(_), None) => s + "\n\\chapter[\\chaptername{} \\thechapter]{}"@,
                (None, Some(t)) => counter_stepped(s, "chapter"@)
                    + "\n\\addcontentsline{toc}{chapter}{\\numberline{\\thechapter} "@ + t + "}"@
                    + "\n\\chapter*{"@ + t + "}"@,
                (None, None) => counter_stepped(s, "chapter"@)
                    + "\n\\addcontentsline{toc}{chapter}{\\numberline{\\thechapter}  \\chaptername{} \\thechapter}"@
                    + "\n\\chapter*{}"@,
            },
            _ => s,
        }
    }

    /// The header of an appendix. The first appendix switches the numbering
    /// of chapters to letters.
    pub open spec fn appendix_header(
        self,
        label: Option<Seq<char>>,
        title: Option<Seq<char>>,
        number: Option<Seq<char>>,
    ) -> Seq<char> {
        let s = if self.seen_appendices == 1 {
            counter_set(self.output + "\\addcontentsline{toc}{part}{Appendices}\n"@, "chapter"@, 0)
                + "\\renewcommand{\\thechapter}{\\Alph{chapter}}\n"@
        } else {
            self.output
        };
        let header = match (label, title) {
            (Some(l), Some(t)) => "\\setchapterlabel{"@ + l + "}\n"@ + "\\chapter{"@ + t + "}\n"@
                + "\\unsetchapterlabel\n"@,
            (None, Some(t)) => counter_stepped(Seq::empty(), "chapter"@) + "\\chapter*{"@ + t
                + "}\n"@ + "\\addcontentsline{toc}{chapter}{\\numberline{"@ + (match number {
                Some(n) => n,
                None => Seq::empty(),
            }) + "} "@ + t + "}"@,
            _ => Seq::empty(),
        };
        s + "\n"@ + header + "\n"@
    }

    /// The header of a division outside the mainmatter.
    pub open spec fn ancillary_header(
        self,
        label: Option<Seq<char>>,
        title: Option<Seq<char>>,
        number: Option<Seq<char>>,
        authors: Option<Seq<char>>,
    ) -> Seq<char> {
        let s = self.output;
        match self.current_division {
            Some(SemanticRole::Appendix) => self.appendix_header(label, title, number),
            Some(SemanticRole::Halftitle) => match title {
                Some(t) => s + t,
                None => s,
            },
            Some(SemanticRole::Acknowledgements) => match title {
                Some(t) => counter_stepped(s, "chapter"@) + "\\chapter*{"@ + t + "}\n"@
                    + "\\addcontentsline{toc}{chapter}{"@ + t + "}"@ + "\n"@,
                None => s,
            },
            _ => match (label, title, authors) {
                (Some(l), Some(t), Some(a)) => s + "\n\\ancillaryheader{"@ + l + "}{"@ + t + "}{"@
                    + a + "}\n"@,
                (Some(l), Some(t), None) => s + "\n\\labelledchapter{"@ + l + "}{"@ + t + "}\n"@,
                (None, Some(t), Some(a)) => s + "\n\\unlabelledancillaryheader{"@ + t + "}{"@ + a
                    + "}\n"@,
                (None, Some(t), None) => s + unnumbered_chapter(t),
                _ => s,
            },
        }
    }

    /// A division header written: nothing where the header has neither
    /// label nor title; else what its matter and its division ask for.
    pub open spec fn header_written(self, header: CollatedHeaderView, is_starred: bool) -> LatexState {
        match header.reconciled::<LatexMarker>() {
            None => self,
            Some((label, title)) => match self.current_matter {
                Some(Matter::Main) => self.with_output(
                    self.mainmatter_header(label, title, is_starred),
                ),
                _ => self.with_output(
                    self.ancillary_header(
                        label,
                        title,
                        header.number_text(),
                        header_authors(header.byline::<LatexMarker>()),
                    ),
                ),
            },
        }
    }

    /// The title block of a titlepage written: title and subtitle.
    pub open spec fn title_block_written(
        self,
        title: Seq<EventView>,
        subtitle: Option<Seq<EventView>>,
    ) -> LatexState {
        let begun = self.with_output(
            env_begun(env_begun(self.output, "titlepage"@), "titlepagetitleblock"@)
                + "\\titlepagetitle{"@,
        );
        let titled = begun.tokens_written(title).adding("}\n"@);
        let subtitled = match subtitle {
            Some(s) => titled.adding("\\titlepagesubtitle{"@).tokens_written(s).adding("}\n"@),
            None => titled,
        };
        subtitled.with_output(env_ended(subtitled.output, "titlepagetitleblock"@))
    }

    /// The contributors of a titlepage written, by role.
    pub open spec fn contributors_written(
        self,
        contributors: Option<Seq<(Option<Seq<char>>, Seq<Seq<char>>)>>,
    ) -> LatexState {
        match contributors {
            Some(c) => self.with_output(
                env_ended(
                    contributor_groups(env_begun(self.output, "titlepagecontributors"@), c),
                    "titlepagecontributors"@,
                ),
            ),
            None => self,
        }
    }

    /// The logo of the publisher written, where there is one, and the
    /// titlepage closed.
    pub open spec fn titlepage_closed(self) -> LatexState {
        let with_logo = match self.publisher_imprint_logo {
            Some(l) => self.adding("\\publisherlogo{"@ + l + "}\n"@),
            None => self,
        };
        with_logo.with_output(env_ended(with_logo.output, "titlepage"@))
    }

    /// A titlepage written: title and subtitle in a block, the contributors
    /// by role, and the logo of the publisher.
    pub open spec fn titlepage_written(
        self,
        title: Seq<EventView>,
        subtitle: Option<Seq<EventView>>,
        contributors: Option<Seq<(Option<Seq<char>>, Seq<Seq<char>>)>>,
    ) -> LatexState {
        self.title_block_written(title, subtitle).contributors_written(
            contributors,
        ).titlepage_closed()
    }

    /// A flattened footnote written at the point that refers to it.
    pub open spec fn footnote_written(self, events: Seq<EventView>) -> LatexState {
        let begun = self.adding("\\footnote{"@);
        let written = footnote_tokens_written(
            FootnoteState { plain: begun.plain(), skipping: false },
            events,
            self.image_paths,
        );
        begun.with_plain(written.plain).adding("}"@)
    }

    /// An image written as a figure with its caption; nothing where LaTeX
    /// has no path to the image.
    pub open spec fn image_written(self, dest: Seq<char>, caption: Option<Seq<EventView>>) -> LatexState {
        match image_path(self.image_paths, dest) {
            Some(p) => {
                let begun = self.with_output(
                    env_begun(self.output, "figure"@) + "\\centering\n"@
                        + "\\includegraphics[width=\\textwidth]{"@ + p + "}\n"@,
                );
                let captioned = match caption {
                    Some(c) => begun.adding("\\caption{"@).tokens_written(c).adding("}\n"@),
                    None => begun,
                };
                captioned.with_output(env_ended(captioned.output, "figure"@))
            },
            None => self,
        }
    }

    /// The start of a matter written.
    pub open spec fn matter_begun(self, matter: Matter) -> LatexState {
        let s = self.output;
        let output = match matter {
            Matter::Front => s + "\n\\frontmatter\n"@ + "\n\\suppresschapternumbersintoc\n"@,
            Matter::Main => {
                let counted = counter_set(s + "\n\\clearpage"@, "chapter"@, 0)
                    + "\n\\pagenumbering{arabic}"@ + "\n\\restorechapternumbersintoc{}\n"@;
                if self.mainmatter_toggled {
                    counted
                } else {
                    counted + "\n\\mainmatter\n"@
                }
            },
            Matter::Back => (if self.expected_appendices_count == 0 {
                s + "\n\\suppresschapternumbersintoc\n"@
            } else {
                s
            }) + "\n"@,
        };
        LatexState { output, current_matter: Some(matter), ..self }
    }

    /// The start of a division written.
    pub open spec fn division_begun(self, role: SemanticRole) -> LatexState {
        let s = self.output;
        let entered = LatexState { current_division: Some(role), ..self };
        match role {
            SemanticRole::Titlepage => entered.with_output(env_begun(s, "titlepage"@)),
            SemanticRole::Copyrightpage => entered.with_output(env_begun(s, "copyrightpage"@)),
            SemanticRole::Halftitle => entered.with_output(env_begun(s, "halftitle"@)),
            SemanticRole::Dedication => entered.with_output(env_begun(s, "dedication"@)),
            SemanticRole::Colophon => entered.with_output(env_begun(s, "colophon"@)),
            SemanticRole::Introduction | SemanticRole::Foreword | SemanticRole::Preface => {
                LatexState {
                    output: if self.mainmatter_toggled {
                        s
                    } else {
                        counter_set(s + "\n\\mainmatter\n"@, "secnumdepth"@, 0)
                            + "\n\\suppresschapternumbersintoc{}\n\\pagenumbering{roman}"@
                    },
                    mainmatter_toggled: true,
                    ..entered
                }
            },
            SemanticRole::Appendix => LatexState {
                seen_appendices: (self.seen_appendices + 1) as usize,
                ..entered
            },
            _ => entered,
        }
    }

    /// The end of a division written.
    pub open spec fn division_ended(self, role: SemanticRole) -> LatexState {
        let s = self.output;
        let left = LatexState { current_division: None, ..self };
        match role {
            SemanticRole::Titlepage => left.with_output(env_ended(s, "titlepage"@)),
            SemanticRole::Copyrightpage => left.with_output(
                if self.include_toc {
                    env_ended(s, "copyrightpage"@) + "\n\\tableofcontents\n"@
                } else {
                    env_ended(s, "copyrightpage"@)
                },
            ),
            SemanticRole::Halftitle => left.with_output(env_ended(s, "halftitle"@)),
            SemanticRole::Dedication => left.with_output(env_ended(s, "dedication"@)),
            SemanticRole::Colophon => left.with_output(env_ended(s, "colophon"@)),
            SemanticRole::Appendix => if self.seen_appendices == self.expected_appendices_count {
                left.adding("\n\\suppresschapternumbersintoc\n"@)
            } else {
                left
            },
            _ => left,
        }
    }
}

fn authors_of(header: &CollatedHeader<LatexMarker>) -> (r: Option<String>)
    ensures
        r.deep_view() == header_authors(header.deep_view().byline::<LatexMarker>()),
{
    match header.get_authors() {
        None => None,
        Some((first, None)) => Some(first),
        Some((first, Some(second))) => {
            let mut out = first;
            out.append(" and ");
            out.append(second.as_str());
            Some(out)
        },
    }
}

fn write_unnumbered_chapter(out: &mut String, title: &str)
    ensures
        final(out)@ == old(out)@ + unnumbered_chapter(title@),
{
    let mut header = String::new();
    step_counter(&mut header, "chapter");
    header.append("\\chapter*{");
    header.append(title);
    header.append("}\n");
    header.append("\\addcontentsline{toc}{chapter}{");
    header.append(title);
    header.append("}\n");
    assert(header@ =~= unnumbered_chapter(title@));
    out.append(header.as_str());
}

fn write_contributor_names(out: &mut String, names: &Vec<String>)
    ensures
        final(out)@ == old(out)@ + contributor_names(names.deep_view()),
{
    let escaped = crate::helpers::escape_names::<LatexMarker>(names);
    let n = escaped.len();
    assert(escaped.deep_view().len() == n);
    if n == 0 {
        assert(out@ =~= old(out)@ + contributor_names(names.deep_view()));
    } else if n == 1 {
        out.append("\n\\ctbname{");
        out.append(escaped[0].as_str());
        out.append("}");
        assert(out@ =~= old(out)@ + contributor_names(names.deep_view()));
    } else {
        let pre = crate::text::join_first(&escaped, n - 1, ", ");
        assert(escaped.deep_view().take(n - 1) =~= escaped.deep_view().drop_last());
        out.append("\n\\ctbname{");
        out.append(pre.as_str());
        out.append("}");
        out.append(" \\ctband ");
        out.append("\\ctbname{");
        out.append(escaped[n - 1].as_str());
        out.append("}");
        assert(out@ =~= old(out)@ + contributor_names(names.deep_view()));
    }
}

fn write_contributor_group(out: &mut String, group: &(Option<&'static str>, Vec<String>))
    ensures
        final(out)@ == contributor_group(old(out)@, group.deep_view()),
{
    begin_environment(out, "contributorgroup");
    match group.0 {
        Some(role) => {
            out.append("\n\\contributorintro{");
            out.append(role);
            out.append("}");
        },
        None => {},
    }
    write_contributor_names(out, &group.1);
    end_environment(out, "contributorgroup");
}

fn write_contributor_groups(out: &mut String, groups: &Vec<(Option<&'static str>, Vec<String>)>)
    ensures
        final(out)@ == contributor_groups(old(out)@, groups.deep_view()),
{
    let ghost all = groups.deep_view();
    let mut i: usize = 0;
    while i < groups.len()
        invariant
            i <= groups.len(),
            all == groups.deep_view(),
            out@ == contributor_groups(old(out)@, all.take(i as int)),
        decreases groups.len() - i,
    {
        proof {
            assert(all.take(i + 1).drop_last() =~= all.take(i as int));
            assert(all.take(i + 1).last() == groups[i as int].deep_view());
        }
        write_contributor_group(out, &groups[i]);
        i += 1;
    }
    assert(all.take(groups.len() as int) =~= all);
}

impl LatexWriter {
    /// A writer at the start of a document.
    pub fn new(
        expected_epigraphs_count: usize,
        expected_appendices_count: usize,
        publisher_imprint_logo: Option<String>,
        include_toc: bool,
        image_paths: Vec<(String, String)>,
    ) -> (r: LatexWriter)
        ensures
            r.deep_view() == (LatexState {
                output: Seq::empty(),
                current_matter: None,
                current_division: None,
                expected_epigraphs_count,
                seen_epigraphs: 0,
                expected_appendices_count,
                seen_appendices: 0,
                in_code: false,
                mainmatter_toggled: false,
                publisher_imprint_logo: publisher_imprint_logo.deep_view(),
                include_toc,
                image_paths: image_paths.deep_view(),
            }),
    {
        LatexWriter {
            output: String::new(),
            current_matter: None,
            current_division: None,
            expected_epigraphs_count,
            seen_epigraphs: 0,
            expected_appendices_count,
            seen_appendices: 0,
            in_code: false,
            mainmatter_toggled: false,
            publisher_imprint_logo,
            include_toc,
            image_paths,
        }
    }

    fn push_str(&mut self, s: &str)
        ensures
            final(self).deep_view() == old(self).deep_view().adding(s@),
    {
        self.output.append(s);
    }

    /// Writes a plain token.
    pub fn write_token(&mut self, event: &Event)
        requires
            writable(event.deep_view()),
        ensures
            final(self).deep_view() == old(self).deep_view().token_written(event.deep_view()),
    {
        write_plain(&mut self.output, &mut self.in_code, &self.image_paths, event);
    }

    /// Writes a run of plain tokens.
    pub fn write_tokens(&mut self, events: &Vec<Event>)
        requires
            all_writable(events.deep_view()),
        ensures
            final(self).deep_view() == old(self).deep_view().tokens_written(events.deep_view()),
    {
        write_all_plain(&mut self.output, &mut self.in_code, &self.image_paths, events);
    }

    /// Writes an epigraph.
    pub fn write_epigraph(&mut self, text: &Vec<Event>, source: &Vec<Event>)
        requires
            all_writable(text.deep_view()),
            all_writable(source.deep_view()),
            old(self).seen_epigraphs < usize::MAX,
        ensures
            final(self).deep_view() == old(self).deep_view().epigraph_written(
                text.deep_view(),
                source.deep_view(),
            ),
    {
        self.current_division = Some(SemanticRole::Epigraph);
        if self.seen_epigraphs == 0 {
            begin_environment(&mut self.output, "epigraphs");
        }
        self.seen_epigraphs += 1;
        self.write_tokens(text);
        assert(source.deep_view().len() == source.len());
        if source.len() > 0 {
            self.push_str("\\par\n\\vspace{1em}\\noindent\\epigraphsource{");
            self.write_tokens(source);
            self.push_str("}\n");
        }
        if self.seen_epigraphs == self.expected_epigraphs_count {
            end_environment(&mut self.output, "epigraphs");
        } else {
            self.push_str("\\bigskip\n");
        }
        self.current_division = None;
    }

    fn write_mainmatter_header(
        &mut self,
        label: &Option<String>,
        title: &Option<String>,
        is_starred: bool,
    )
        ensures
            final(self).deep_view() == old(self).deep_view().with_output(
                old(self).deep_view().mainmatter_header(
                    label.deep_view(),
                    title.deep_view(),
                    is_starred,
                ),
            ),
    {
        match self.current_division {
            Some(SemanticRole::Part) => match title {
                Some(t) => {
                    if is_starred {
                        self.output.append("\n\\part*{");
                    } else {
                        self.output.append("\n\\part{");
                    }
                    self.output.append(t.as_str());
                    self.output.append("}");
                },
                None => {},
            },
            Some(SemanticRole::Chapter) => match (label, title) {
                (Some(_), Some(t)) => {
                    self.output.append("\n\\chapter{");
                    self.output.append(t.as_str());
                    self.output.append("}");
                },
                (Some(_), None) => {
                    self.output.append("\n\\chapter[\\chaptername{} \\thechapter]{}");
                },
                (None, Some(t)) => {
                    step_counter(&mut self.output, "chapter");
                    self.output.append(
                        "\n\\addcontentsline{toc}{chapter}{\\numberline{\\thechapter} ",
                    );
                    self.output.append(t.as_str());
                    self.output.append("}");
                    self.output.append("\n\\chapter*{");
                    self.output.append(t.as_str());
                    self.output.append("}");
                },
                (None, None) => {
                    step_counter(&mut self.output, "chapter");
                    self.output.append(
                        "\n\\addcontentsline{toc}{chapter}{\\numberline{\\thechapter}  \\chaptername{} \\thechapter}",
                    );
                    self.output.append("\n\\chapter*{}");
                },
            },
            _ => {},
        }
        assert(self.output@ =~= old(self).deep_view().mainmatter_header(
            label.deep_view(),
            title.deep_view(),
            is_starred,
        ));
    }

    fn write_appendix_header(
        &mut self,
        label: &Option<String>,
        title: &Option<String>,
        number: &Option<String>,
    )
        ensures
            final(self).deep_view() == old(self).deep_view().with_output(
                old(self).deep_view().appendix_header(
                    label.deep_view(),
                    title.deep_view(),
                    number.deep_view(),
                ),
            ),
    {
        if self.seen_appendices == 1 {
            self.output.append("\\addcontentsline{toc}{part}{Appendices}\n");
            set_counter(&mut self.output, "chapter", 0);
            self.output.append("\\renewcommand{\\thechapter}{\\Alph{chapter}}\n");
        }
        let mut header = String::new();
        match (label, title) {
            (Some(l), Some(t)) => {
                header.append("\\setchapterlabel{");
                header.append(l.as_str());
                header.append("}\n");
                header.append("\\chapter{");
                header.append(t.as_str());
                header.append("}\n");
                header.append("\\unsetchapterlabel\n");
            },
            (None, Some(t)) => {
                step_counter(&mut header, "chapter");
                header.append("\\chapter*{");
                header.append(t.as_str());
                header.append("}\n");
                header.append("\\addcontentsline{toc}{chapter}{\\numberline{");
                match number {
                    Some(n) => header.append(n.as_str()),
                    None => {},
                }
                header.append("} ");
                header.append(t.as_str());
                header.append("}");
            },
            _ => {},
        }
        self.output.append("\n");
        self.output.append(header.as_str());
        self.output.append("\n");
        assert(self.output@ =~= old(self).deep_view().appendix_header(
            label.deep_view(),
            title.deep_view(),
            number.deep_view(),
        ));
    }

    fn write_ancillary_header(
        &mut self,
        label: &Option<String>,
        title: &Option<String>,
        number: &Option<String>,
        authors: &Option<String>,
    )
        ensures
            final(self).deep_view() == old(self).deep_view().with_output(
                old(self).deep_view().ancillary_header(
                    label.deep_view(),
                    title.deep_view(),
                    number.deep_view(),
                    authors.deep_view(),
                ),
            ),
    {
        match self.current_division {
            Some(SemanticRole::Appendix) => {
                self.write_appendix_header(label, title, number);
            },
            Some(SemanticRole::Halftitle) => {
                match title {
                    Some(t) => self.output.append(t.as_str()),
                    None => {},
                }
            },
            Some(SemanticRole::Acknowledgements) => {
                match title {
                    Some(t) => {
                        step_counter(&mut self.output, "chapter");
                        self.output.append("\\chapter*{");
                        self.output.append(t.as_str());
                        self.output.append("}\n");
                        self.output.append("\\addcontentsline{toc}{chapter}{");
                        self.output.append(t.as_str());
                        self.output.append("}");
                        self.output.append("\n");
                    },
                    None => {},
                }
            },
            _ => {
                match (label, title, authors) {
                    (Some(l), Some(t), Some(a)) => {
                        self.output.append("\n\\ancillaryheader{");
                        self.output.append(l.as_str());
                        self.output.append("}{");
                        self.output.append(t.as_str());
                        self.output.append("}{");
                        self.output.append(a.as_str());
                        self.output.append("}\n");
                    },
                    (Some(l), Some(t), None) => {
                        self.output.append("\n\\labelledchapter{");
                        self.output.append(l.as_str());
                        self.output.append("}{");
                        self.output.append(t.as_str());
                        self.output.append("}\n");
                    },
                    (None, Some(t), Some(a)) => {
                        self.output.append("\n\\unlabelledancillaryheader{");
                        self.output.append(t.as_str());
                        self.output.append("}{");
                        self.output.append(a.as_str());
                        self.output.append("}\n");
                    },
                    (None, Some(t), None) => {
                        write_unnumbered_chapter(&mut self.output, t.as_str());
                    },
                    _ => {},
                }
            },
        }
        assert(self.output@ =~= old(self).deep_view().ancillary_header(
            label.deep_view(),
            title.deep_view(),
            number.deep_view(),
            authors.deep_view(),
        ));
    }

    /// Writes a division header.
    pub fn write_header(&mut self, header: &CollatedHeader<LatexMarker>, is_starred: bool)
        ensures
            final(self).deep_view() == old(self).deep_view().header_written(
                header.deep_view(),
                is_starred,
            ),
    {
        match header.reconcile_joined_label_and_title() {
            None => {},
            Some((label, title)) => {
                match self.current_matter {
                    Some(Matter::Main) => {
                        self.write_mainmatter_header(&label, &title, is_starred);
                    },
                    _ => {
                        let number = header.get_label_number();
                        let authors = authors_of(header);
                        self.write_ancillary_header(&label, &title, &number, &authors);
                    },
                }
            },
        }
    }

    fn write_title_block(&mut self, title: &Vec<Event>, subtitle: &Option<Vec<Event>>)
        requires
            all_writable(title.deep_view()),
            subtitle.deep_view() matches Some(s) ==> all_writable(s),
        ensures
            final(self).deep_view() == old(self).deep_view().title_block_written(
                title.deep_view(),
                subtitle.deep_view(),
            ),
    {
        begin_environment(&mut self.output, "titlepage");
        begin_environment(&mut self.output, "titlepagetitleblock");
        self.output.append("\\titlepagetitle{");
        self.write_tokens(title);
        self.push_str("}\n");
        match subtitle {
            Some(s) => {
                self.push_str("\\titlepagesubtitle{");
                self.write_tokens(s);
                self.push_str("}\n");
            },
            None => {},
        }
        end_environment(&mut self.output, "titlepagetitleblock");
    }

    fn write_contributors(
        &mut self,
        contributors: &Option<Vec<(Option<&'static str>, Vec<String>)>>,
    )
        ensures
            final(self).deep_view() == old(self).deep_view().contributors_written(
                contributors.deep_view(),
            ),
    {
        match contributors {
            Some(c) => {
                begin_environment(&mut self.output, "titlepagecontributors");
                write_contributor_groups(&mut self.output, c);
                end_environment(&mut self.output, "titlepagecontributors");
            },
            None => {},
        }
    }

    fn close_titlepage(&mut self)
        ensures
            final(self).deep_view() == old(self).deep_view().titlepage_closed(),
    {
        match &self.publisher_imprint_logo {
            Some(l) => {
                self.output.append("\\publisherlogo{");
                self.output.append(l.as_str());
                self.output.append("}\n");
                assert(self.output@ =~= old(self).output@ + ("\\publisherlogo{"@ + l@ + "}\n"@));
            },
            None => {},
        }
        end_environment(&mut self.output, "titlepage");
    }

    /// Writes a titlepage.
    pub fn write_titlepage(
        &mut self,
        title: &Vec<Event>,
        subtitle: &Option<Vec<Event>>,
        contributors: &Option<Vec<(Option<&'static str>, Vec<String>)>>,
    )
        requires
            all_writable(title.deep_view()),
            subtitle.deep_view() matches Some(s) ==> all_writable(s),
        ensures
            final(self).deep_view() == old(self).deep_view().titlepage_written(
                title.deep_view(),
                subtitle.deep_view(),
                contributors.deep_view(),
            ),
    {
        self.write_title_block(title, subtitle);
        self.write_contributors(contributors);
        self.close_titlepage();
    }

    /// Writes a flattened footnote.
    pub fn write_footnote(&mut self, events: &Vec<Event>)
        requires
            all_writable(events.deep_view()),
        ensures
            final(self).deep_view() == old(self).deep_view().footnote_written(events.deep_view()),
    {
        let ghost ev = events.deep_view();
        let ghost images = self.image_paths.deep_view();
        self.push_str("\\footnote{");
        let ghost begun = self.deep_view();
        let mut skipping = false;
        let mut i: usize = 0;
        while i < events.len()
            invariant
                i <= events.len(),
                ev == events.deep_view(),
                all_writable(ev),
                images == self.image_paths.deep_view(),
                self.deep_view() == begun.with_plain(self.deep_view().plain()),
                (FootnoteState { plain: self.deep_view().plain(), skipping })
                    == footnote_tokens_written(
                    FootnoteState { plain: begun.plain(), skipping: false },
                    ev.take(i as int),
                    images,
                ),
            decreases events.len() - i,
        {
            proof {
                assert(ev.take(i + 1).drop_last() =~= ev.take(i as int));
                assert(ev.take(i + 1).last() == events[i as int].deep_view());
                assert(writable(ev[i as int]));
            }
            if skipping {
                match &events[i] {
                    Event::End(Tag::FlattenedFootnote) => {
                        skipping = false;
                    },
                    _ => {},
                }
            } else {
                match &events[i] {
                    Event::Start(Tag::Paragraph) => {},
                    Event::End(Tag::Paragraph) => {
                        self.output.append("\\par{}");
                    },
                    Event::Start(Tag::FlattenedFootnote) => {
                        skipping = true;
                    },
                    e => {
                        self.write_token(e);
                    },
                }
            }
            i += 1;
        }
        assert(ev.take(events.len() as int) =~= ev);
        self.push_str("}");
    }

    /// Writes an image as a figure.
    pub fn write_image(&mut self, dest: &str, caption: &Option<Vec<Event>>)
        requires
            caption.deep_view() matches Some(c) ==> all_writable(c),
        ensures
            final(self).deep_view() == old(self).deep_view().image_written(
                dest@,
                caption.deep_view(),
            ),
    {
        let path = match find_image_path(&self.image_paths, dest) {
            Some(p) => Some(String::from_str(p)),
            None => None,
        };
        match path {
            Some(p) => {
                begin_environment(&mut self.output, "figure");
                self.output.append("\\centering\n");
                self.output.append("\\includegraphics[width=\\textwidth]{");
                self.output.append(p.as_str());
                self.output.append("}\n");
                match caption {
                    Some(c) => {
                        self.push_str("\\caption{");
                        self.write_tokens(c);
                        self.push_str("}\n");
                    },
                    None => {},
                }
                end_environment(&mut self.output, "figure");
            },
            None => {},
        }
    }

    /// Writes the start of a matter.
    pub fn begin_matter(&mut self, matter: Matter)
        ensures
            final(self).deep_view() == old(self).deep_view().matter_begun(matter),
    {
        self.current_matter = Some(matter);
        match matter {
            Matter::Front => {
                self.output.append("\n\\frontmatter\n");
                self.output.append("\n\\suppresschapternumbersintoc\n");
            },
            Matter::Main => {
                self.output.append("\n\\clearpage");
                set_counter(&mut self.output, "chapter", 0);
                self.output.append("\n\\pagenumbering{arabic}");
                self.output.append("\n\\restorechapternumbersintoc{}\n");
                if !self.mainmatter_toggled {
                    self.output.append("\n\\mainmatter\n");
                }
            },
            Matter::Back => {
                if self.expected_appendices_count == 0 {
                    self.output.append("\n\\suppresschapternumbersintoc\n");
                }
                self.output.append("\n");
            },
        }
    }

    /// Writes the start of a division.
    pub fn begin_division(&mut self, role: SemanticRole)
        requires
            old(self).seen_appendices < usize::MAX,
        ensures
            final(self).deep_view() == old(self).deep_view().division_begun(role),
    {
        self.current_division = Some(role);
        match role {
            SemanticRole::Titlepage => begin_environment(&mut self.output, "titlepage"),
            SemanticRole::Copyrightpage => begin_environment(&mut self.output, "copyrightpage"),
            SemanticRole::Halftitle => begin_environment(&mut self.output, "halftitle"),
            SemanticRole::Dedication => begin_environment(&mut self.output, "dedication"),
            SemanticRole::Colophon => begin_environment(&mut self.output, "colophon"),
            SemanticRole::Introduction | SemanticRole::Foreword | SemanticRole::Preface => {
                if !self.mainmatter_toggled {
                    self.output.append("\n\\mainmatter\n");
                    set_counter(&mut self.output, "secnumdepth", 0);
                    self.output.append(
                        "\n\\suppresschapternumbersintoc{}\n\\pagenumbering{roman}",
                    );
                }
                self.mainmatter_toggled = true;
            },
            SemanticRole::Appendix => {
                self.seen_appendices += 1;
            },
            _ => {},
        }
    }

    /// Writes the end of a division.
    pub fn end_division(&mut self, role: SemanticRole)
        ensures
            final(self).deep_view() == old(self).deep_view().division_ended(role),
    {
        self.current_division = None;
        match role {
            SemanticRole::Titlepage => end_environment(&mut self.output, "titlepage"),
            SemanticRole::Copyrightpage => {
                end_environment(&mut self.output, "copyrightpage");
                if self.include_toc {
                    self.output.append("\n\\tableofcontents\n");
                }
            },
            SemanticRole::Halftitle => end_environment(&mut self.output, "halftitle"),
            SemanticRole::Dedication => end_environment(&mut self.output, "dedication"),
            SemanticRole::Colophon => end_environment(&mut self.output, "colophon"),
            SemanticRole::Appendix => {
                if self.seen_appendices == self.expected_appendices_count {
                    self.output.append("\n\\suppresschapternumbersintoc\n");
                }
            },
            _ => {},
        }
    }
}

/// Whether every token of a stream can be written.
pub open spec fn renderable(stream: Seq<BookEventView>) -> bool {
    forall|i: int|
        0 <= i < stream.len() ==> (#[trigger] stream[i] matches BookEventView::Event(e)
            ==> writable(e))
}

/// Whether every token of a stream can be written.
pub fn is_renderable(events: &Vec<BookEvent>) -> (r: bool)
    ensures
        r == renderable(events.deep_view()),
{
    let ghost stream = events.deep_view();
    let mut i: usize = 0;
    while i < events.len()
        invariant
            i <= events.len(),
            stream == events.deep_view(),
            forall|j: int|
                0 <= j < i ==> (#[trigger] stream[j] matches BookEventView::Event(e) ==> writable(
                    e,
                )),
        decreases events.len() - i,
    {
        assert(stream[i as int] == events[i as int].deep_view());
        let ok = match &events[i] {
            BookEvent::Event(e) => is_writable(e),
            _ => true,
        };
        if !ok {
            return false;
        }
        i += 1;
    }
    true
}

/// The tokens that pass through a renderable run can be written.
pub proof fn lemma_passed_tokens_writable(events: Seq<BookEventView>)
    requires
        renderable(events),
    ensures
        all_writable(passed_tokens(events)),
    decreases events.len(),
{
    if events.len() > 0 {
        assert(renderable(events.drop_last())) by {
            assert forall|i: int| 0 <= i < events.drop_last().len() implies (
            #[trigger] events.drop_last()[i] matches BookEventView::Event(e) ==> writable(e)) by {
                assert(events.drop_last()[i] == events[i]);
            }
        }
        lemma_passed_tokens_writable(events.drop_last());
        assert(events.last() == events[events.len() - 1]);
    }
}

/// The text and the source of a renderable epigraph can be written.
pub proof fn lemma_epigraph_writable(events: Seq<BookEventView>)
    requires
        renderable(events),
    ensures
        all_writable(epigraph_scan(events).text),
        all_writable(epigraph_scan(events).source),
    decreases events.len(),
{
    if events.len() > 0 {
        assert(renderable(events.drop_last())) by {
            assert forall|i: int| 0 <= i < events.drop_last().len() implies (
            #[trigger] events.drop_last()[i] matches BookEventView::Event(e) ==> writable(e)) by {
                assert(events.drop_last()[i] == events[i]);
            }
        }
        lemma_epigraph_writable(events.drop_last());
        assert(events.last() == events[events.len() - 1]);
    }
}

/// The title and the subtitle of a renderable titlepage can be written.
pub proof fn lemma_titlepage_writable(events: Seq<BookEventView>)
    requires
        renderable(events),
    ensures
        all_writable(titlepage_scan(events).title),
        all_writable(titlepage_scan(events).subtitle),
    decreases events.len(),
{
    if events.len() > 0 {
        assert(renderable(events.drop_last())) by {
            assert forall|i: int| 0 <= i < events.drop_last().len() implies (
            #[trigger] events.drop_last()[i] matches BookEventView::Event(e) ==> writable(e)) by {
                assert(events.drop_last()[i] == events[i]);
            }
        }
        lemma_titlepage_writable(events.drop_last());
        assert(events.last() == events[events.len() - 1]);
    }
}

/// What can be written can be written in capitals.
pub proof fn lemma_capitals_writable(tokens: Seq<EventView>)
    requires
        all_writable(tokens),
    ensures
        all_writable(in_capitals(tokens)),
{
    assert forall|i: int| 0 <= i < in_capitals(tokens).len() implies writable(
        #[trigger] in_capitals(tokens)[i],
    ) by {
        assert(writable(tokens[i]));
    }
}

/// A region of a renderable stream is renderable.
pub proof fn lemma_region_renderable(
    stream: Seq<BookEventView>,
    pos: int,
    ends: spec_fn(BookEventView) -> bool,
)
    requires
        renderable(stream),
        0 <= pos <= stream.len(),
    ensures
        renderable(region(stream, pos, ends)),
{
    crate::seqs::lemma_first_index(stream.skip(pos), ends);
    let r = region(stream, pos, ends);
    assert forall|i: int| 0 <= i < r.len() implies (#[trigger] r[i] matches BookEventView::Event(
        e,
    ) ==> writable(e)) by {
        assert(r[i] == stream[pos + i]);
    }
}

/// Whether an event ends a table.
pub open spec fn ends_table(e: BookEventView) -> bool {
    e matches BookEventView::Event(EventView::End(TagView::Table(_)))
}

/// Whether an event ends the definition of a footnote.
pub open spec fn ends_definition(e: BookEventView) -> bool {
    e matches BookEventView::Event(EventView::End(TagView::FootnoteDefinition(_)))
}

fn is_table_end(e: &BookEvent) -> (r: bool)
    ensures
        r == ends_table(e.deep_view()),
{
    match e {
        BookEvent::Event(Event::End(Tag::Table(_))) => true,
        _ => false,
    }
}

fn is_definition_end(e: &BookEvent) -> (r: bool)
    ensures
        r == ends_definition(e.deep_view()),
{
    match e {
        BookEvent::Event(Event::End(Tag::FootnoteDefinition(_))) => true,
        _ => false,
    }
}

/// Passes over a table from behind its start to behind its end.
pub fn skip_table(events: &Vec<BookEvent>, pos: usize) -> (r: usize)
    requires
        pos <= events.len(),
    ensures
        r == after_region(events.deep_view(), pos as int, |e: BookEventView| ends_table(e)),
{
    let ghost stream = events.deep_view();
    let n = events.len();
    let mut i: usize = pos;
    while i < n && !is_table_end(&events[i])
        invariant
            pos <= i <= n,
            n == events.len(),
            stream == events.deep_view(),
            forall|j: int| pos <= j < i ==> !ends_table(#[trigger] stream[j]),
        decreases n - i,
    {
        assert(stream[i as int] == events[i as int].deep_view());
        i += 1;
    }
    proof {
        if i < n {
            assert(stream[i as int] == events[i as int].deep_view());
        }
        crate::helpers::lemma_region_end_is(
            stream,
            pos as int,
            |e: BookEventView| ends_table(e),
            i as int,
        );
    }
    if i < n {
        i + 1
    } else {
        n
    }
}

/// Passes over the definition of a footnote from behind its start to
/// behind its end.
pub fn skip_definition(events: &Vec<BookEvent>, pos: usize) -> (r: usize)
    requires
        pos <= events.len(),
    ensures
        r == after_region(events.deep_view(), pos as int, |e: BookEventView| ends_definition(e)),
{
    let ghost stream = events.deep_view();
    let n = events.len();
    let mut i: usize = pos;
    while i < n && !is_definition_end(&events[i])
        invariant
            pos <= i <= n,
            n == events.len(),
            stream == events.deep_view(),
            forall|j: int| pos <= j < i ==> !ends_definition(#[trigger] stream[j]),
        decreases n - i,
    {
        assert(stream[i as int] == events[i as int].deep_view());
        i += 1;
    }
    proof {
        if i < n {
            assert(stream[i as int] == events[i as int].deep_view());
        }
        crate::helpers::lemma_region_end_is(
            stream,
            pos as int,
            |e: BookEventView| ends_definition(e),
            i as int,
        );
    }
    if i < n {
        i + 1
    } else {
        n
    }
}

/// What the event at `pos` does to the writer, and the position at which
/// the walk goes on: a start marker has the whole of its region read and
/// written; tables and footnote definitions are passed over.
pub open spec fn latex_step(st: LatexState, stream: Seq<BookEventView>, pos: int) -> (
    LatexState,
    int,
) {
    let behind = pos + 1;
    match stream[pos] {
        BookEventView::BeginSemantic(SemanticRole::Epigraph) => {
            let scan = epigraph_scan(
                region(stream, behind, |e: BookEventView| crate::helpers::ends_epigraph(e)),
            );
            (
                st.epigraph_written(scan.text, scan.source),
                after_region(stream, behind, |e: BookEventView| crate::helpers::ends_epigraph(e)),
            )
        },
        BookEventView::BeginDivisionHeader(is_starred) => (
            st.header_written(
                header_of(
                    region(stream, behind, |e: BookEventView| crate::helpers::ends_header(e)),
                    is_starred,
                ),
                is_starred,
            ),
            after_region(stream, behind, |e: BookEventView| crate::helpers::ends_header(e)),
        ),
        BookEventView::BeginTitlePage => {
            let scan = titlepage_scan(
                region(stream, behind, |e: BookEventView| crate::helpers::ends_titlepage(e)),
            );
            (
                st.titlepage_written(
                    in_capitals(scan.title),
                    if_any(in_capitals(scan.subtitle)),
                    match scan.contributors {
                        Some(c) => Some(introduced_contributors(c)),
                        None => None,
                    },
                ),
                after_region(stream, behind, |e: BookEventView| crate::helpers::ends_titlepage(e)),
            )
        },
        BookEventView::Event(EventView::Start(TagView::FlattenedFootnote)) => (
            st.footnote_written(
                passed_tokens(
                    region(stream, behind, |e: BookEventView| crate::helpers::ends_footnote(e)),
                ),
            ),
            after_region(stream, behind, |e: BookEventView| crate::helpers::ends_footnote(e)),
        ),
        BookEventView::Event(EventView::Start(TagView::Image(_, dest, _))) => (
            st.image_written(
                dest,
                if_any(
                    passed_tokens(
                        region(stream, behind, |e: BookEventView| crate::helpers::ends_image(e)),
                    ),
                ),
            ),
            after_region(stream, behind, |e: BookEventView| crate::helpers::ends_image(e)),
        ),
        BookEventView::BeginFrontmatter => (st.matter_begun(Matter::Front), behind),
        BookEventView::BeginMainmatter => (st.matter_begun(Matter::Main), behind),
        BookEventView::BeginBackmatter => (st.matter_begun(Matter::Back), behind),
        BookEventView::Event(EventView::Start(TagView::Table(_))) => (
            st,
            after_region(stream, behind, |e: BookEventView| ends_table(e)),
        ),
        BookEventView::Event(EventView::Start(TagView::FootnoteDefinition(_))) => (
            st,
            after_region(stream, behind, |e: BookEventView| ends_definition(e)),
        ),
        BookEventView::BeginSemantic(role) => (st.division_begun(role), behind),
        BookEventView::EndSemantic(role) => (st.division_ended(role), behind),
        BookEventView::Event(e) => (st.token_written(e), behind),
        _ => (st, behind),
    }
}

/// The writer after the walk from `pos` to the end of the stream.
pub open spec fn written_from(st: LatexState, stream: Seq<BookEventView>, pos: int) -> LatexState
    decreases stream.len() - pos,
{
    if pos < 0 || pos >= stream.len() {
        st
    } else {
        let (next_state, next) = latex_step(st, stream, pos);
        if next > pos {
            written_from(next_state, stream, next)
        } else {
            next_state
        }
    }
}

/// A step of the walk moves forward, stays within the stream, and sees at
/// most one more epigraph and one more appendix.
pub proof fn lemma_latex_step(st: LatexState, stream: Seq<BookEventView>, pos: int)
    requires
        0 <= pos < stream.len(),
    ensures
        pos < latex_step(st, stream, pos).1 <= stream.len(),
        latex_step(st, stream, pos).0.image_paths == st.image_paths,
{
    let behind = pos + 1;
    crate::helpers::law_collation_moves_forward(
        stream,
        behind,
        |e: BookEventView| crate::helpers::ends_epigraph(e),
    );
    crate::helpers::law_collation_moves_forward(
        stream,
        behind,
        |e: BookEventView| crate::helpers::ends_header(e),
    );
    crate::helpers::law_collation_moves_forward(
        stream,
        behind,
        |e: BookEventView| crate::helpers::ends_titlepage(e),
    );
    crate::helpers::law_collation_moves_forward(
        stream,
        behind,
        |e: BookEventView| crate::helpers::ends_footnote(e),
    );
    crate::helpers::law_collation_moves_forward(
        stream,
        behind,
        |e: BookEventView| crate::helpers::ends_image(e),
    );
    crate::helpers::law_collation_moves_forward(stream, behind, |e: BookEventView| ends_table(e));
    crate::helpers::law_collation_moves_forward(
        stream,
        behind,
        |e: BookEventView| ends_definition(e),
    );
}

impl LatexWriter {
    /// Handles the event at `pos` and hands back the position at which the
    /// walk goes on.
    pub fn write_at(&mut self, events: &Vec<BookEvent>, pos: usize) -> (next: usize)
        requires
            pos < events.len(),
            renderable(events.deep_view()),
            old(self).seen_epigraphs < usize::MAX,
            old(self).seen_appendices < usize::MAX,
        ensures
            (final(self).deep_view(), next as int) == latex_step(
                old(self).deep_view(),
                events.deep_view(),
                pos as int,
            ),
            pos < next <= events.len(),
            final(self).seen_epigraphs <= old(self).seen_epigraphs + 1,
            final(self).seen_appendices <= old(self).seen_appendices + 1,
    {
        let ghost stream = events.deep_view();
        let ghost st = self.deep_view();
        proof {
            lemma_latex_step(st, stream, pos as int);
            assert(stream[pos as int] == events[pos as int].deep_view());
        }
        match &events[pos] {
            BookEvent::BeginSemantic(SemanticRole::Epigraph) => {
                let (epigraph, next) = collate_epigraph(events, pos + 1);
                proof {
                    let ends = |e: BookEventView| crate::helpers::ends_epigraph(e);
                    lemma_region_renderable(stream, pos + 1, ends);
                    lemma_epigraph_writable(region(stream, pos + 1, ends));
                }
                self.write_epigraph(&epigraph.text, &epigraph.source);
                next
            },
            BookEvent::BeginDivisionHeader(is_starred) => {
                let (header, next) = collate_division_header::<LatexMarker>(
                    events,
                    pos + 1,
                    *is_starred,
                );
                self.write_header(&header, *is_starred);
                next
            },
            BookEvent::BeginTitlePage => {
                let (page, next) = collate_titlepage(events, pos + 1);
                proof {
                    let ends = |e: BookEventView| crate::helpers::ends_titlepage(e);
                    lemma_region_renderable(stream, pos + 1, ends);
                    lemma_titlepage_writable(region(stream, pos + 1, ends));
                    lemma_capitals_writable(titlepage_scan(region(stream, pos + 1, ends)).title);
                    lemma_capitals_writable(titlepage_scan(region(stream, pos + 1, ends)).subtitle);
                }
                self.write_titlepage(&page.title, &page.subtitle, &page.contributors);
                next
            },
            BookEvent::Event(Event::Start(Tag::FlattenedFootnote)) => {
                let (footnote, next) = collect_plain_until_end_of_footnote(events, pos + 1);
                proof {
                    let ends = |e: BookEventView| crate::helpers::ends_footnote(e);
                    lemma_region_renderable(stream, pos + 1, ends);
                    lemma_passed_tokens_writable(region(stream, pos + 1, ends));
                }
                self.write_footnote(&footnote);
                next
            },
            BookEvent::Event(Event::Start(Tag::Image(_, dest, alt))) => {
                let (image, next) = collate_image(events, pos + 1, dest.clone(), alt.clone());
                proof {
                    let ends = |e: BookEventView| crate::helpers::ends_image(e);
                    lemma_region_renderable(stream, pos + 1, ends);
                    lemma_passed_tokens_writable(region(stream, pos + 1, ends));
                }
                self.write_image(image.dest.as_str(), &image.caption);
                next
            },
            BookEvent::BeginFrontmatter => {
                self.begin_matter(Matter::Front);
                pos + 1
            },
            BookEvent::BeginMainmatter => {
                self.begin_matter(Matter::Main);
                pos + 1
            },
            BookEvent::BeginBackmatter => {
                self.begin_matter(Matter::Back);
                pos + 1
            },
            BookEvent::Event(Event::Start(Tag::Table(_))) => skip_table(events, pos + 1),
            BookEvent::Event(Event::Start(Tag::FootnoteDefinition(_))) => skip_definition(
                events,
                pos + 1,
            ),
            BookEvent::BeginSemantic(role) => {
                self.begin_division(*role);
                pos + 1
            },
            BookEvent::EndSemantic(role) => {
                self.end_division(*role);
                pos + 1
            },
            BookEvent::Event(e) => {
                self.write_token(e);
                pos + 1
            },
            _ => pos + 1,
        }
    }

    /// Walks the stream of a book once, from its first event to its last,
    /// and writes the document.
    pub fn write(&mut self, events: &Vec<BookEvent>)
        requires
            renderable(events.deep_view()),
            old(self).seen_epigraphs + events.len() <= usize::MAX,
            old(self).seen_appendices + events.len() <= usize::MAX,
        ensures
            final(self).deep_view() == written_from(old(self).deep_view(), events.deep_view(), 0),
    {
        let ghost stream = events.deep_view();
        let ghost st0 = self.deep_view();
        let n = events.len();
        let mut i: usize = 0;
        while i < n
            invariant
                i <= n,
                n == events.len(),
                stream == events.deep_view(),
                renderable(stream),
                self.seen_epigraphs <= old(self).seen_epigraphs + i,
                self.seen_appendices <= old(self).seen_appendices + i,
                old(self).seen_epigraphs + n <= usize::MAX,
                old(self).seen_appendices + n <= usize::MAX,
                written_from(self.deep_view(), stream, i as int) == written_from(st0, stream, 0),
            decreases n - i,
        {
            let next = self.write_at(events, i);
            i = next;
        }
    }
}

/// The writer at the start of a document.
pub open spec fn at_start(
    expected_epigraphs_count: usize,
    expected_appendices_count: usize,
    logo: Option<Seq<char>>,
    include_toc: bool,
    images: Seq<(Seq<char>, Seq<char>)>,
) -> LatexState {
    LatexState {
        output: Seq::empty(),
        current_matter: None,
        current_division: None,
        expected_epigraphs_count,
        seen_epigraphs: 0,
        expected_appendices_count,
        seen_appendices: 0,
        in_code: false,
        mainmatter_toggled: false,
        publisher_imprint_logo: logo,
        include_toc,
        image_paths: images,
    }
}

/// The body of the document of a book, without preamble.
pub open spec fn tex_body(
    book: BookSrcView,
    logo: Option<Seq<char>>,
    include_toc: bool,
    images: Seq<(Seq<char>, Seq<char>)>,
) -> Seq<char> {
    written_from(
        at_start(
            book.expected_epigraph_count,
            book.expected_appendices_count,
            logo,
            include_toc,
            images,
        ),
        book.contents,
        0,
    ).output
}

/// A command that gives a running footer its text, without the whitespace
/// around the text; nothing where there is no text.
pub open spec fn footer_command(command: Seq<char>, text: Option<Seq<char>>) -> Seq<char> {
    match text {
        Some(t) => command + trimmed_of(t) + "}"@,
        None => Seq::empty(),
    }
}

/// The whole document of a book: the preamble, the start of the document,
/// the depth of numbering, the running footers, the body with its headers
/// shown as the options ask, and the end of the document.
pub open spec fn tex_document(
    book: BookSrcView,
    options: RenderedOptionsView,
    images: Seq<(Seq<char>, Seq<char>)>,
) -> Seq<char> {
    let formatted = BookSrcView {
        contents: reformatted(book.contents, options.header_format),
        ..book
    };
    let body = tex_body(formatted, options.publisher_imprint_logo, options.include_toc, images);
    let start = counter_set(
        env_begun(options.preamble, "document"@),
        "secnumdepth"@,
        options.latex_secnumdepth.counter(),
    );
    env_ended(
        start + footer_command(
            "\n\\renewcommand{\\pageidentifier}{"@,
            Some(book.metadata.short_title()),
        ) + footer_command(
            "\n\\renewcommand{\\currentcontributor}{"@,
            footer_authors(book.metadata),
        ) + body,
        "document"@,
    )
}

/// Showing headers in another way leaves a stream renderable.
pub proof fn lemma_reformatted_renderable(stream: Seq<BookEventView>, format: TextHeaderOptions)
    requires
        renderable(stream),
    ensures
        renderable(reformatted(stream, format)),
{
    let r = reformatted(stream, format);
    assert forall|i: int| 0 <= i < r.len() implies (#[trigger] r[i] matches BookEventView::Event(
        e,
    ) ==> writable(e)) by {
        assert(stream[i] matches BookEventView::Event(e) ==> writable(e));
    }
}

/// Whether a book can be rendered: its tokens can be written, and it is
/// not so long that the count of its divisions would overflow.
pub open spec fn can_render(book: BookSrcView) -> bool {
    renderable(book.contents) && book.contents.len() < usize::MAX
}

fn write_footer_command(out: &mut String, command: &str, text: &Option<String>)
    ensures
        final(out)@ == old(out)@ + footer_command(command@, text.deep_view()),
{
    match text {
        Some(t) => {
            out.append(command);
            out.append(trim(t.as_str()));
            out.append("}");
            assert(out@ =~= old(out)@ + footer_command(command@, text.deep_view()));
        },
        None => {
            assert(out@ =~= old(out)@ + footer_command(command@, text.deep_view()));
        },
    }
}

impl BookSrc {
    /// Whether this book can be rendered.
    pub fn is_renderable(&self) -> (r: bool)
        ensures
            r == can_render(self.deep_view()),
    {
        assert(self.contents.deep_view().len() == self.contents.len());
        is_renderable(&self.contents) && self.contents.len() < usize::MAX
    }

    fn write_standalone(
        self,
        logo: Option<String>,
        include_toc: bool,
        image_paths: Vec<(String, String)>,
    ) -> (r: String)
        requires
            can_render(self.deep_view()),
        ensures
            r@ == tex_body(
                self.deep_view(),
                logo.deep_view(),
                include_toc,
                image_paths.deep_view(),
            ),
    {
        assert(self.contents.deep_view().len() == self.contents.len());
        let mut writer = LatexWriter::new(
            self.expected_epigraph_count,
            self.expected_appendices_count,
            logo,
            include_toc,
            image_paths,
        );
        writer.write(&self.contents);
        writer.output
    }

    fn write_with_preamble(
        self,
        options: OptionsWithRenderedPreamble,
        image_paths: Vec<(String, String)>,
    ) -> (r: String)
        requires
            can_render(self.deep_view()),
        ensures
            r@ == tex_document(self.deep_view(), options.deep_view(), image_paths.deep_view()),
    {
        let ghost book = self.deep_view();
        let ghost opts = options.deep_view();
        let mut this = self;
        let mut options = options;
        proof {
            lemma_reformatted_renderable(book.contents, opts.header_format);
        }
        this.change_headers(options.header_format);
        options.set_running_footers_from_metadata(&this.metadata);
        let secnumdepth = options.latex_secnumdepth;
        let OptionsWithRenderedPreamble {
            publisher_imprint_logo,
            header_format: _,
            preamble,
            page_identifier,
            contributor_identifier,
            latex_secnumdepth: _,
            include_toc,
        } = options;
        let text = this.write_standalone(publisher_imprint_logo, include_toc, image_paths);
        let mut start = preamble;
        begin_environment(&mut start, "document");
        set_counter(&mut start, "secnumdepth", secnumdepth.as_counter());
        write_footer_command(&mut start, "\n\\renewcommand{\\pageidentifier}{", &page_identifier);
        write_footer_command(
            &mut start,
            "\n\\renewcommand{\\currentcontributor}{",
            &contributor_identifier,
        );
        start.append(text.as_str());
        end_environment(&mut start, "document");
        start
    }
}

/// The first of the images for which LaTeX has no path.
pub open spec fn unresolved_image(
    dests: Seq<Seq<char>>,
    image_paths: Seq<(Seq<char>, Seq<char>)>,
) -> Option<Seq<char>>
    decreases dests.len(),
{
    if dests.len() == 0 {
        None
    } else if image_path(image_paths, dests[0]) is None {
        Some(dests[0])
    } else {
        unresolved_image(dests.drop_first(), image_paths)
    }
}

/// Finds the first of the images for which LaTeX has no path.
pub fn find_unresolved_image(dests: &Vec<String>, image_paths: &Vec<(String, String)>) -> (r:
    Option<String>)
    ensures
        r.deep_view() == unresolved_image(dests.deep_view(), image_paths.deep_view()),
{
    let ghost all = dests.deep_view();
    let ghost paths = image_paths.deep_view();
    let mut i: usize = 0;
    assert(all.skip(0) =~= all);
    while i < dests.len()
        invariant
            i <= dests.len(),
            all == dests.deep_view(),
            paths == image_paths.deep_view(),
            unresolved_image(all, paths) == unresolved_image(all.skip(i as int), paths),
        decreases dests.len() - i,
    {
        assert(all.skip(i as int)[0] == dests[i as int]@);
        assert(all.skip(i as int).drop_first() =~= all.skip(i + 1));
        if find_image_path(image_paths, dests[i].as_str()).is_none() {
            return Some(dests[i].clone());
        }
        i += 1;
    }
    None
}

/// What the rendering of a book as LaTeX comes to: the error of the first
/// image for which LaTeX has no path, or else the text.
pub open spec fn rendered_or_refused(
    book: BookSrcView,
    image_paths: Seq<(Seq<char>, Seq<char>)>,
    text: Seq<char>,
) -> Result<Seq<char>, RenderingErrorView> {
    match unresolved_image(image_dests(book.contents), image_paths) {
        Some(dest) => Err(RenderingErrorView::UnsupportedImage(dest)),
        None => Ok(text),
    }
}

/// A result as a value.
pub open spec fn result_view(r: Result<String, RenderingError>) -> Result<
    Seq<char>,
    RenderingErrorView,
> {
    match r {
        Ok(t) => Ok(t@),
        Err(e) => Err(e.deep_view()),
    }
}

impl BookSrc {
    /// Renders the body of the document, without preamble and without the
    /// start and end of the document. `image_paths` gives, for each image
    /// that LaTeX can read, its destination in the manuscript and its
    /// path; an image without a path ends the rendering.
    pub fn render_to_tex_standalone(
        self,
        logo: Option<String>,
        include_toc: bool,
        image_paths: Vec<(String, String)>,
    ) -> (r: Result<String, RenderingError>)
        requires
            can_render(self.deep_view()),
        ensures
            result_view(r) == rendered_or_refused(
                self.deep_view(),
                image_paths.deep_view(),
                tex_body(self.deep_view(), logo.deep_view(), include_toc, image_paths.deep_view()),
            ),
    {
        let dests = image_destinations(&self.contents);
        match find_unresolved_image(&dests, &image_paths) {
            Some(dest) => Err(RenderingError::UnsupportedImage(dest)),
            None => Ok(self.write_standalone(logo, include_toc, image_paths)),
        }
    }

    /// Renders the whole document around a preamble that is already
    /// written; an image without a path ends the rendering.
    pub fn render_to_tex_with_preamble(
        self,
        options: OptionsWithRenderedPreamble,
        image_paths: Vec<(String, String)>,
    ) -> (r: Result<String, RenderingError>)
        requires
            can_render(self.deep_view()),
        ensures
            result_view(r) == rendered_or_refused(
                self.deep_view(),
                image_paths.deep_view(),
                tex_document(self.deep_view(), options.deep_view(), image_paths.deep_view()),
            ),
    {
        let dests = image_destinations(&self.contents);
        match find_unresolved_image(&dests, &image_paths) {
            Some(dest) => Err(RenderingError::UnsupportedImage(dest)),
            None => Ok(self.write_with_preamble(options, image_paths)),
        }
    }
}

} // verus!
