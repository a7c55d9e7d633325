//! The EPUB renderer: a walk over the stream of a book that writes one
//! document for each division, with its place in the table of contents and
//! the resources that it refers to.

use crate::epub_roles::{
    additional_head, default_toc_format, default_toc_level, epub_type, get_additional_head,
    get_default_toc_format, get_default_toc_level, get_epub_type, get_header_classes,
    get_header_level, get_include_stylesheet, get_matter, get_section_classes,
    get_section_wrapper_div_classes, header_classes, header_level, include_stylesheet, matter_of,
    section_classes, section_wrapper_div_classes, TocFormat, TocFormatView,
};
use crate::escape::{escape_to_html, html_escaped};
use crate::helpers::{CollatedHeader, CollatedHeaderView, EpubMarker};
use crate::events::{CodeBlockKind, Event, EventView, Tag, TagView};
use crate::latex::{image_path, on_new_line};
use crate::numbers::{decimal, number_to_decimal};
use crate::roles::SemanticRole;
use crate::seqs::{first_index, group_views, lemma_first_index_is};
use crate::text::{
    drop_last_chars, ends_with, strip_suffix, to_uppercase, trimmed_of, uppercase_of,
    without_last, without_suffix,
};
use vstd::prelude::*;
use vstd::string::*;

verus! {

/// The writer of one page of an EPUB.
#[derive(Debug)]
pub struct XhtmlWriter {
    /// The markup written so far.
    pub target: String,
    /// The names of the footnotes met so far, in the order in which they
    /// were met: a footnote has the number of its place in this list.
    pub numbers: Vec<String>,
    pub current_division: SemanticRole,
    pub in_inline_image: bool,
    pub inline_image_alt_buffer: String,
    /// Any label seen for this page.
    pub observed_label: Option<String>,
    /// Any title seen for this page.
    pub observed_title: Option<String>,
    pub associated_resources: Vec<String>,
    /// Whether the heading of the notes has been written.
    pub in_footnote_definitions: bool,
    /// Whether the next paragraph follows something, like a rule, behind
    /// which a paragraph is not indented.
    pub do_not_indent_next_para: bool,
    /// The stylesheet of the page: its path, and its file name in the EPUB.
    pub css: Option<(String, String)>,
    pub in_heading: bool,
    pub in_para: bool,
    /// For each image of the book, its destination in the manuscript and
    /// its file name in the EPUB.
    pub image_names: Vec<(String, String)>,
}

/// What an `XhtmlWriter` holds, as mathematics.
pub struct XhtmlState {
    pub target: Seq<char>,
    pub numbers: Seq<Seq<char>>,
    pub current_division: SemanticRole,
    pub in_inline_image: bool,
    pub inline_image_alt_buffer: Seq<char>,
    pub observed_label: Option<Seq<char>>,
    pub observed_title: Option<Seq<char>>,
    pub associated_resources: Seq<Seq<char>>,
    pub in_footnote_definitions: bool,
    pub do_not_indent_next_para: bool,
    pub css: Option<(Seq<char>, Seq<char>)>,
    pub in_heading: bool,
    pub in_para: bool,
    pub image_names: Seq<(Seq<char>, Seq<char>)>,
}

impl DeepView for XhtmlWriter {
    type V = XhtmlState;

    open spec fn deep_view(&self) -> XhtmlState {
        XhtmlState {
            target: self.target@,
            numbers: self.numbers.deep_view(),
            current_division: self.current_division,
            in_inline_image: self.in_inline_image,
            inline_image_alt_buffer: self.inline_image_alt_buffer@,
            observed_label: self.observed_label.deep_view(),
            observed_title: self.observed_title.deep_view(),
            associated_resources: self.associated_resources.deep_view(),
            in_footnote_definitions: self.in_footnote_definitions,
            do_not_indent_next_para: self.do_not_indent_next_para,
            css: self.css.deep_view(),
            in_heading: self.in_heading,
            in_para: self.in_para,
            image_names: self.image_names.deep_view(),
        }
    }
}

/// The number of a footnote: its place in the list of the names met so
/// far, or the place behind the last where it is met for the first time.
pub open spec fn note_number(names: Seq<Seq<char>>, name: Seq<char>) -> nat {
    (first_index(names, |n: Seq<char>| n == name) + 1) as nat
}

/// The names met so far, with this one.
pub open spec fn names_with(names: Seq<Seq<char>>, name: Seq<char>) -> Seq<Seq<char>> {
    if first_index(names, |n: Seq<char>| n == name) < names.len() {
        names
    } else {
        names.push(name)
    }
}

/// Finds the number of a footnote, and notes its name where it is met for
/// the first time.
pub fn number_footnote(names: &mut Vec<String>, name: &str) -> (r: String)
    ensures
        r@ == decimal(note_number(old(names).deep_view(), name@)),
        final(names).deep_view() == names_with(old(names).deep_view(), name@),
{
    let ghost all = names.deep_view();
    let ghost is_name = |n: Seq<char>| n == name@;
    let n = names.len();
    let mut i: usize = 0;
    while i < n && !crate::text::str_eq(names[i].as_str(), name)
        invariant
            i <= n,
            n == names.len(),
            all == names.deep_view(),
            forall|j: int| 0 <= j < i ==> #[trigger] all[j] != name@,
        decreases n - i,
    {
        i += 1;
    }
    proof {
        assert forall|j: int| 0 <= j < i implies !is_name(#[trigger] all[j]) by {}
        if i < n {
            assert(all[i as int] == names[i as int]@);
        }
        lemma_first_index_is(all, is_name, i as int);
    }
    if i == n {
        proof {
            broadcast use group_views;

        }
        names.push(String::from_str(name));
    }
    number_to_decimal(i as u128 + 1)
}

/// The file name of an image in the EPUB: the one that was found for its
/// destination, or the destination itself.
pub open spec fn image_name(images: Seq<(Seq<char>, Seq<char>)>, dest: Seq<char>) -> Seq<char> {
    match image_path(images, dest) {
        Some(n) => n,
        None => dest,
    }
}

/// The language of a fenced code block: what the fence says up to the
/// first comma or space.
pub open spec fn fence_language(info: Seq<char>) -> Seq<char> {
    info.take(first_index(info, |c: char| c == ',' || c == ' '))
}

/// Finds the language of a fenced code block.
pub fn get_fence_language(info: &str) -> (r: String)
    ensures
        r@ == fence_language(info@),
{
    let ghost stops = |c: char| c == ',' || c == ' ';
    let n = info.unicode_len();
    let mut i: usize = 0;
    while i < n && !(info.get_char(i) == ',' || info.get_char(i) == ' ')
        invariant
            i <= n,
            n == info@.len(),
            forall|j: int| 0 <= j < i ==> !(#[trigger] info@[j] == ',' || info@[j] == ' '),
        decreases n - i,
    {
        i += 1;
    }
    proof {
        assert forall|j: int| 0 <= j < i implies !stops(#[trigger] info@[j]) by {}
        lemma_first_index_is(info@, stops, i as int);
    }
    let lang = info.substring_char(0, i);
    assert(lang@ =~= info@.take(i as int));
    String::from_str(lang)
}

/// The markup that opens a subheading of a level.
pub open spec fn subheading_opening(level: u32) -> Seq<char> {
    if level < 2 {
        "<h2 class=\"generic_subheading\">"@
    } else if level == 2 {
        "<h3 class=\"generic_subheading\">"@
    } else if level == 3 {
        "<h4 class=\"generic_subheading\">"@
    } else if level == 4 {
        "<h5 class=\"generic_subheading\">"@
    } else {
        "<h6 class=\"generic_subheading\">"@
    }
}

/// The markup that closes a subheading of a level.
pub open spec fn subheading_closing(level: u32) -> Seq<char> {
    if level == 1 {
        "</h2>\n"@
    } else if level == 2 {
        "</h3>\n"@
    } else if level == 3 {
        "</h4>\n"@
    } else if level == 4 {
        "</h5>\n"@
    } else {
        "</h6>\n"@
    }
}

/// A text without the paragraph that was just opened at its end, if one
/// was; and whether one was.
pub open spec fn without_open_paragraph(t: Seq<char>) -> (Seq<char>, bool) {
    if "<p>"@.is_suffix_of(t) {
        (without_suffix(t, "<p>"@), true)
    } else if "<p class=\"noindent\">"@.is_suffix_of(t) {
        (without_suffix(t, "<p class=\"noindent\">"@), true)
    } else {
        (t, false)
    }
}

/// The title attribute of an image or a link target, where it has a title.
pub open spec fn title_attribute(title: Seq<char>) -> Seq<char> {
    if title.len() == 0 {
        Seq::empty()
    } else {
        " title=\""@ + html_escaped(title) + "\""@
    }
}

/// The markup of an image element that is left open for its alternative
/// text.
pub open spec fn image_element(filename: Seq<char>, title: Seq<char>) -> Seq<char> {
    "<img src=\""@ + filename + "\""@ + title_attribute(title) + ">"@
}

/// The markup that opens a figure around an image.
pub open spec fn figure_opening(filename: Seq<char>, title: Seq<char>) -> Seq<char> {
    "\n<figure>\n"@ + "  <img src=\""@ + filename + "\""@ + title_attribute(title) + ">"@
        + "</img>\n"@ + "  <figcaption>"@
}

/// Whether a tag can be written on a page: flattened footnotes are taken
/// out of the stream before it is written.
pub open spec fn is_page_tag(t: TagView) -> bool {
    !(t is FlattenedFootnote)
}

/// Whether a token can be written on a page.
pub open spec fn pushable(e: EventView) -> bool {
    match e {
        EventView::Start(t) => is_page_tag(t),
        EventView::End(t) => is_page_tag(t),
        _ => true,
    }
}

/// Whether every token of a run can be written on a page.
pub open spec fn all_pushable(events: Seq<EventView>) -> bool {
    forall|i: int| 0 <= i < events.len() ==> pushable(#[trigger] events[i])
}

impl XhtmlState {
    /// This state with more markup.
    pub open spec fn adding(self, s: Seq<char>) -> XhtmlState {
        XhtmlState { target: self.target + s, ..self }
    }

    /// This state with more markup, on a new line.
    pub open spec fn adding_on_new_line(self, s: Seq<char>) -> XhtmlState {
        XhtmlState { target: on_new_line(self.target) + s, ..self }
    }

    /// The start of an image pushed: a figure where the image stands alone
    /// in a paragraph that was just opened, else an image in the line,
    /// whose text up to its end is its alternative text.
    pub open spec fn image_started(self, dest: Seq<char>, title: Seq<char>) -> XhtmlState {
        let (t, is_figure) = without_open_paragraph(self.target);
        let filename = image_name(self.image_names, dest);
        let resources = self.associated_resources.push(dest);
        if is_figure {
            XhtmlState {
                target: t + figure_opening(filename, title),
                associated_resources: resources,
                ..self
            }
        } else {
            XhtmlState {
                target: t + image_element(filename, title),
                in_inline_image: true,
                associated_resources: resources,
                ..self
            }
        }
    }

    /// The start of centred text pushed: inside a paragraph, the paragraph
    /// becomes a centred one.
    pub open spec fn centred_started(self) -> XhtmlState {
        if self.in_para {
            let (t, was_open) = without_open_paragraph(self.target);
            let closed = if was_open {
                t
            } else {
                t + "</p>\n"@
            };
            XhtmlState { target: closed + "<p class=\"noindent align-center\">"@, ..self }
        } else {
            self.adding("<br/><span class=\"float-center\">"@)
        }
    }

    /// The start of the definition of a footnote pushed: the first one
    /// comes behind the heading of the notes.
    pub open spec fn definition_started(self, name: Seq<char>) -> XhtmlState {
        let headed = if self.in_footnote_definitions {
            self.target
        } else {
            self.target + "\n<h6 class=\"notes_heading\">Notes</h6>\n"@
        };
        let id = html_escaped(name);
        XhtmlState {
            target: headed + "\n<p id=\""@ + id
                + "\" epub:type=\"footnote\" class=\"footnote\"><a href=\"#fn_ref_"@ + id + "\">"@
                + decimal(note_number(self.numbers, name)) + ".</a> "@,
            numbers: names_with(self.numbers, name),
            in_footnote_definitions: true,
            ..self
        }
    }

    /// The start of a tagged run pushed.
    pub open spec fn start_pushed(self, tag: TagView) -> XhtmlState {
        match tag {
            TagView::UnindentedParagraph => XhtmlState {
                in_para: true,
                ..self.adding_on_new_line("<p class=\"noindent\">"@)
            },
            TagView::Paragraph => if self.do_not_indent_next_para {
                XhtmlState {
                    in_para: true,
                    do_not_indent_next_para: false,
                    ..self.adding_on_new_line("<p class=\"noindent\">"@)
                }
            } else {
                XhtmlState { in_para: true, ..self.adding_on_new_line("<p>"@) }
            },
            TagView::Heading(l) => XhtmlState {
                in_heading: true,
                ..self.adding(subheading_opening(l))
            },
            TagView::BlockQuote => XhtmlState {
                do_not_indent_next_para: true,
                ..self.adding_on_new_line("<blockquote>\n"@)
            },
            TagView::BlockQuotation => self.adding_on_new_line("<blockquote>\n"@),
            TagView::CodeBlock(crate::events::CodeBlockKindView::Fenced(l)) => if fence_language(
                l,
            ).len() > 0 {
                self.adding("<pre><code class=\"language-"@ + fence_language(l) + "\">"@)
            } else {
                self.adding("<pre><code>"@)
            },
            TagView::CodeBlock(crate::events::CodeBlockKindView::Indented) => self.adding_on_new_line(
                "<pre><code>"@,
            ),
            TagView::List(Some(start)) => if start == 1 {
                self.adding_on_new_line("<ol>\n"@)
            } else {
                self.adding_on_new_line("<ol start=\""@ + decimal(start as nat) + "\">\n"@)
            },
            TagView::List(None) => self.adding_on_new_line("<ul>\n"@),
            TagView::Item => self.adding_on_new_line("<li>"@),
            TagView::FootnoteDefinition(name) => self.definition_started(name),
            TagView::Emphasis => self.adding("<em>"@),
            TagView::Strong => self.adding("<strong>"@),
            TagView::Strikethrough => self.adding("<del>"@),
            TagView::Link(_, dest, title) => self.adding(
                "<a href=\""@ + dest + (if title.len() == 0 {
                    Seq::empty()
                } else {
                    "\" title=\""@ + html_escaped(title)
                }) + "\">"@,
            ),
            TagView::Image(_, dest, title) => self.image_started(dest, title),
            TagView::Sans => self.adding("<span class=\"sans\">"@),
            TagView::SmallCaps => self.adding("<span class=\"caps-to-small-caps\">"@),
            TagView::Centred => self.centred_started(),
            TagView::RightAligned => self.adding("<span class=\"align-right float-right\">"@),
            TagView::Superscript => self.adding("<sup>"@),
            TagView::Subscript => self.adding("<sub>"@),
            _ => self,
        }
    }

    /// The end of a tagged run pushed.
    pub open spec fn end_pushed(self, tag: TagView) -> XhtmlState {
        match tag {
            TagView::UnindentedParagraph | TagView::Paragraph => XhtmlState {
                in_para: false,
                ..(if "</figure>"@.is_suffix_of(self.target) {
                    self
                } else {
                    self.adding("</p>\n"@)
                })
            },
            TagView::Heading(l) => XhtmlState {
                in_heading: false,
                ..self.adding(subheading_closing(l))
            },
            TagView::BlockQuote | TagView::BlockQuotation => XhtmlState {
                do_not_indent_next_para: true,
                ..self.adding("</blockquote>\n"@)
            },
            TagView::CodeBlock(_) => self.adding("</code></pre>\n"@),
            TagView::List(Some(_)) => self.adding("</ol>\n"@),
            TagView::List(None) => self.adding("</ul>\n"@),
            TagView::Item => self.adding("</li>\n"@),
            TagView::FootnoteDefinition(_) => self.adding("</p>"@),
            TagView::Emphasis => self.adding("</em>"@),
            TagView::Strong => self.adding("</strong>"@),
            TagView::Strikethrough => self.adding("</del>"@),
            TagView::Link(_, _, _) => self.adding("</a>"@),
            TagView::Image(_, _, _) => if "  <figcaption>"@.is_suffix_of(self.target) {
                XhtmlState { target: without_last(self.target, 40) + "</figure>"@, ..self }
            } else {
                self.adding("</figcaption>\n"@ + "</figure>"@)
            },
            TagView::Sans | TagView::SmallCaps | TagView::RightAligned => self.adding("</span>"@),
            TagView::Centred => if self.in_para {
                self
            } else {
                self.adding("</span>"@)
            },
            TagView::Superscript => self.adding("</sup>"@),
            TagView::Subscript => self.adding("</sub>"@),
            _ => self,
        }
    }

    /// A token pushed while an image in the line is open: text is its
    /// alternative text, and the end of the image closes it.
    pub open spec fn pushed_in_inline_image(self, e: EventView) -> XhtmlState {
        match e {
            EventView::Text(t) => XhtmlState {
                inline_image_alt_buffer: self.inline_image_alt_buffer + html_escaped(t),
                ..self
            },
            EventView::End(TagView::Image(_, _, _)) => if self.inline_image_alt_buffer.len() == 0 {
                XhtmlState { in_inline_image: false, ..self.adding("</img>"@) }
            } else {
                XhtmlState {
                    target: without_last(self.target, 1) + " alt=\""@
                        + self.inline_image_alt_buffer + "></img>"@,
                    in_inline_image: false,
                    inline_image_alt_buffer: Seq::empty(),
                    ..self
                }
            },
            _ => self,
        }
    }

    /// A reference to a footnote pushed.
    pub open spec fn reference_pushed(self, name: Seq<char>) -> XhtmlState {
        let id = html_escaped(name);
        XhtmlState {
            target: self.target + "<a href=\"#"@ + id + "\" id=\"fn_ref_"@ + id
                + "\" epub:type=\"noteref\">"@ + "<sup>"@ + decimal(
                note_number(self.numbers, name),
            ) + "</sup></a>"@,
            numbers: names_with(self.numbers, name),
            ..self
        }
    }

    /// A token pushed.
    pub open spec fn pushed(self, e: EventView) -> XhtmlState {
        if self.in_inline_image {
            self.pushed_in_inline_image(e)
        } else {
            match e {
                EventView::Start(t) => self.start_pushed(t),
                EventView::End(t) => self.end_pushed(t),
                EventView::Text(t) => if self.in_heading {
                    self.adding(html_escaped(uppercase_of(t)))
                } else {
                    self.adding(html_escaped(t))
                },
                EventView::Code(t) => self.adding("<code>"@ + html_escaped(t) + "</code>"@),
                EventView::Html(h) => self.adding(h),
                EventView::SoftBreak => self.adding("\n"@),
                EventView::HardBreak => self.adding("<br/> \n"@),
                EventView::Rule => XhtmlState {
                    do_not_indent_next_para: true,
                    ..self.adding_on_new_line("<hr/>\n"@)
                },
                EventView::FootnoteReference(name) => self.reference_pushed(name),
                EventView::TaskListMarker(_) => self,
            }
        }
    }

    /// A run of tokens pushed, token by token.
    pub open spec fn all_pushed(self, events: Seq<EventView>) -> XhtmlState
        decreases events.len(),
    {
        if events.len() == 0 {
            self
        } else {
            self.all_pushed(events.drop_last()).pushed(events.last())
        }
    }
}

/// The writer of a page of a role, with nothing written.
pub open spec fn blank_page(role: SemanticRole) -> XhtmlState {
    XhtmlState {
        target: Seq::empty(),
        numbers: Seq::empty(),
        current_division: role,
        in_inline_image: false,
        inline_image_alt_buffer: Seq::empty(),
        observed_label: None,
        observed_title: None,
        associated_resources: Seq::empty(),
        in_footnote_definitions: false,
        do_not_indent_next_para: false,
        css: None,
        in_heading: false,
        in_para: false,
        image_names: Seq::empty(),
    }
}

fn strip_open_paragraph(target: String) -> (r: (String, bool))
    ensures
        (r.0@, r.1) == without_open_paragraph(target@),
{
    if ends_with(target.as_str(), "<p>") {
        (strip_suffix(target, "<p>"), true)
    } else if ends_with(target.as_str(), "<p class=\"noindent\">") {
        (strip_suffix(target, "<p class=\"noindent\">"), true)
    } else {
        (target, false)
    }
}

fn push_title_attribute(out: &mut String, title: &str)
    ensures
        final(out)@ == old(out)@ + title_attribute(title@),
{
    if !title.is_empty() {
        let escaped = escape_to_html(title);
        out.append(" title=\"");
        out.append(escaped.as_str());
        out.append("\"");
        assert(out@ =~= old(out)@ + title_attribute(title@));
    } else {
        assert(out@ =~= old(out)@ + title_attribute(title@));
    }
}

fn take_text(text: &mut String) -> (r: String)
    ensures
        r@ == old(text)@,
        final(text)@ == Seq::<char>::empty(),
{
    let mut out = String::new();
    core::mem::swap(&mut out, text);
    out
}

impl XhtmlWriter {
    /// A writer for a page of a role, with nothing written.
    pub fn new(role: SemanticRole) -> (r: XhtmlWriter)
        ensures
            r.deep_view() == blank_page(role),
    {
        let r = XhtmlWriter {
            target: String::new(),
            numbers: Vec::new(),
            current_division: role,
            in_inline_image: false,
            inline_image_alt_buffer: String::new(),
            observed_label: None,
            observed_title: None,
            associated_resources: Vec::new(),
            in_footnote_definitions: false,
            do_not_indent_next_para: false,
            css: None,
            in_heading: false,
            in_para: false,
            image_names: Vec::new(),
        };
        proof {
            assert(r.numbers.deep_view() =~= Seq::empty());
            assert(r.associated_resources.deep_view() =~= Seq::empty());
            assert(r.image_names.deep_view() =~= Seq::empty());
        }
        r
    }

    fn add(&mut self, s: &str)
        ensures
            final(self).deep_view() == old(self).deep_view().adding(s@),
    {
        self.target.append(s);
    }

    fn add_on_new_line(&mut self, s: &str)
        ensures
            final(self).deep_view() == old(self).deep_view().adding_on_new_line(s@),
    {
        if !ends_with(self.target.as_str(), "\n") {
            self.target.append("\n");
        }
        self.target.append(s);
    }

    fn start_image(&mut self, dest: &str, title: &str)
        ensures
            final(self).deep_view() == old(self).deep_view().image_started(dest@, title@),
    {
        let target = take_text(&mut self.target);
        let (mut target, is_figure) = strip_open_paragraph(target);
        let ghost stripped = target@;
        let filename = match crate::latex::find_image_path(&self.image_names, dest) {
            Some(n) => String::from_str(n),
            None => String::from_str(dest),
        };
        if is_figure {
            target.append("\n<figure>\n");
            target.append("  <img src=\"");
            target.append(filename.as_str());
            target.append("\"");
            push_title_attribute(&mut target, title);
            target.append(">");
            target.append("</img>\n");
            target.append("  <figcaption>");
            assert(target@ =~= stripped + figure_opening(filename@, title@));
        } else {
            self.in_inline_image = true;
            target.append("<img src=\"");
            target.append(filename.as_str());
            target.append("\"");
            push_title_attribute(&mut target, title);
            target.append(">");
            assert(target@ =~= stripped + image_element(filename@, title@));
        }
        self.target = target;
        proof {
            broadcast use group_views;

        }
        self.associated_resources.push(String::from_str(dest));
    }

    fn start_centred(&mut self)
        ensures
            final(self).deep_view() == old(self).deep_view().centred_started(),
    {
        if self.in_para {
            let target = take_text(&mut self.target);
            let (mut target, was_open) = strip_open_paragraph(target);
            if !was_open {
                target.append("</p>\n");
            }
            target.append("<p class=\"noindent align-center\">");
            self.target = target;
        } else {
            self.target.append("<br/><span class=\"float-center\">");
        }
    }

    fn start_definition(&mut self, name: &str)
        ensures
            final(self).deep_view() == old(self).deep_view().definition_started(name@),
    {
        if !self.in_footnote_definitions {
            self.target.append("\n<h6 class=\"notes_heading\">Notes</h6>\n");
            self.in_footnote_definitions = true;
        }
        let ghost headed = self.target@;
        let id = escape_to_html(name);
        let number = number_footnote(&mut self.numbers, name);
        self.target.append("\n<p id=\"");
        self.target.append(id.as_str());
        self.target.append("\" epub:type=\"footnote\" class=\"footnote\"><a href=\"#fn_ref_");
        self.target.append(id.as_str());
        self.target.append("\">");
        self.target.append(number.as_str());
        self.target.append(".</a> ");
        assert(self.target@ =~= headed + "\n<p id=\""@ + id@
            + "\" epub:type=\"footnote\" class=\"footnote\"><a href=\"#fn_ref_"@ + id@ + "\">"@
            + number@ + ".</a> "@);
    }

    fn start_link(&mut self, dest: &str, title: &str)
        ensures
            final(self).deep_view() == old(self).deep_view().start_pushed(
                TagView::Link(crate::events::LinkType::Inline, dest@, title@),
            ),
    {
        let mut markup = String::from_str("<a href=\"");
        markup.append(dest);
        if !title.is_empty() {
            markup.append("\" title=\"");
            let escaped = escape_to_html(title);
            markup.append(escaped.as_str());
        }
        markup.append("\">");
        assert(markup@ =~= "<a href=\""@ + dest@ + (if title@.len() == 0 {
            Seq::empty()
        } else {
            "\" title=\""@ + html_escaped(title@)
        }) + "\">"@);
        self.add(markup.as_str());
    }

    fn start_list(&mut self, start: Option<u64>)
        ensures
            final(self).deep_view() == old(self).deep_view().start_pushed(TagView::List(start)),
    {
        match start {
            Some(n) => {
                if n == 1 {
                    self.add_on_new_line("<ol>\n");
                } else {
                    let mut markup = String::from_str("<ol start=\"");
                    let digits = number_to_decimal(n as u128);
                    markup.append(digits.as_str());
                    markup.append("\">\n");
                    self.add_on_new_line(markup.as_str());
                }
            },
            None => self.add_on_new_line("<ul>\n"),
        }
    }

    fn start_code_block(&mut self, kind: &CodeBlockKind)
        ensures
            final(self).deep_view() == old(self).deep_view().start_pushed(
                TagView::CodeBlock(kind.deep_view()),
            ),
    {
        match kind {
            CodeBlockKind::Fenced(l) => {
                let lang = get_fence_language(l.as_str());
                if !lang.as_str().is_empty() {
                    let mut markup = String::from_str("<pre><code class=\"language-");
                    markup.append(lang.as_str());
                    markup.append("\">");
                    self.add(markup.as_str());
                } else {
                    self.add("<pre><code>");
                }
            },
            CodeBlockKind::Indented => self.add_on_new_line("<pre><code>"),
        }
    }

    fn start_paragraph(&mut self, indented: bool)
        ensures
            final(self).deep_view() == old(self).deep_view().start_pushed(
                if indented {
                    TagView::Paragraph
                } else {
                    TagView::UnindentedParagraph
                },
            ),
    {
        if indented {
            self.in_para = true;
            if self.do_not_indent_next_para {
                self.add_on_new_line("<p class=\"noindent\">");
                self.do_not_indent_next_para = false;
            } else {
                self.add_on_new_line("<p>");
            }
        } else {
            self.add_on_new_line("<p class=\"noindent\">");
            self.in_para = true;
        }
    }

    fn start_heading(&mut self, l: u32)
        ensures
            final(self).deep_view() == old(self).deep_view().start_pushed(TagView::Heading(l)),
    {
        self.in_heading = true;
        if l < 2 {
            self.add("<h2 class=\"generic_subheading\">");
        } else if l == 2 {
            self.add("<h3 class=\"generic_subheading\">");
        } else if l == 3 {
            self.add("<h4 class=\"generic_subheading\">");
        } else if l == 4 {
            self.add("<h5 class=\"generic_subheading\">");
        } else {
            self.add("<h6 class=\"generic_subheading\">");
        }
    }

    fn start_quote(&mut self, long: bool)
        ensures
            final(self).deep_view() == old(self).deep_view().start_pushed(
                if long {
                    TagView::BlockQuotation
                } else {
                    TagView::BlockQuote
                },
            ),
    {
        self.add_on_new_line("<blockquote>\n");
        if !long {
            self.do_not_indent_next_para = true;
        }
    }

    /// Writes the start of a tagged run.
    pub fn push_start_tag(&mut self, tag: &Tag)
        requires
            is_page_tag(tag.deep_view()),
        ensures
            final(self).deep_view() == old(self).deep_view().start_pushed(tag.deep_view()),
    {
        match tag {
            Tag::UnindentedParagraph => self.start_paragraph(false),
            Tag::Paragraph => self.start_paragraph(true),
            Tag::Heading(l) => self.start_heading(*l),
            Tag::BlockQuote => self.start_quote(false),
            Tag::BlockQuotation => self.start_quote(true),
            Tag::CodeBlock(kind) => self.start_code_block(kind),
            Tag::List(start) => self.start_list(*start),
            Tag::Item => self.add_on_new_line("<li>"),
            Tag::FootnoteDefinition(name) => self.start_definition(name.as_str()),
            Tag::Emphasis => self.add("<em>"),
            Tag::Strong => self.add("<strong>"),
            Tag::Strikethrough => self.add("<del>"),
            Tag::Link(_, dest, title) => self.start_link(dest.as_str(), title.as_str()),
            Tag::Image(_, dest, title) => self.start_image(dest.as_str(), title.as_str()),
            Tag::Table(_) | Tag::TableHead | Tag::TableRow | Tag::TableCell => {},
            Tag::Sans => self.add("<span class=\"sans\">"),
            Tag::SmallCaps => self.add("<span class=\"caps-to-small-caps\">"),
            Tag::Centred => self.start_centred(),
            Tag::RightAligned => self.add("<span class=\"align-right float-right\">"),
            Tag::FlattenedFootnote => {},
            Tag::Superscript => self.add("<sup>"),
            Tag::Subscript => self.add("<sub>"),
        }
    }

    fn end_image(&mut self)
        ensures
            final(self).deep_view() == old(self).deep_view().end_pushed(
                TagView::Image(crate::events::LinkType::Inline, Seq::empty(), Seq::empty()),
            ),
    {
        if ends_with(self.target.as_str(), "  <figcaption>") {
            let target = take_text(&mut self.target);
            let mut target = drop_last_chars(target, 40);
            target.append("</figure>");
            self.target = target;
        } else {
            self.target.append("</figcaption>\n");
            self.target.append("</figure>");
            assert(self.target@ =~= old(self).target@ + ("</figcaption>\n"@ + "</figure>"@));
        }
    }

    /// Writes the end of a tagged run.
    pub fn push_end_tag(&mut self, tag: &Tag)
        requires
            is_page_tag(tag.deep_view()),
        ensures
            final(self).deep_view() == old(self).deep_view().end_pushed(tag.deep_view()),
    {
        match tag {
            Tag::UnindentedParagraph | Tag::Paragraph => {
                self.in_para = false;
                if !ends_with(self.target.as_str(), "</figure>") {
                    self.add("</p>\n");
                }
            },
            Tag::Heading(l) => {
                self.in_heading = false;
                if *l == 1 {
                    self.add("</h2>\n");
                } else if *l == 2 {
                    self.add("</h3>\n");
                } else if *l == 3 {
                    self.add("</h4>\n");
                } else if *l == 4 {
                    self.add("</h5>\n");
                } else {
                    self.add("</h6>\n");
                }
            },
            Tag::BlockQuote | Tag::BlockQuotation => {
                self.add("</blockquote>\n");
                self.do_not_indent_next_para = true;
            },
            Tag::CodeBlock(_) => self.add("</code></pre>\n"),
            Tag::List(Some(_)) => self.add("</ol>\n"),
            Tag::List(None) => self.add("</ul>\n"),
            Tag::Item => self.add("</li>\n"),
            Tag::FootnoteDefinition(_) => self.add("</p>"),
            Tag::Emphasis => self.add("</em>"),
            Tag::Strong => self.add("</strong>"),
            Tag::Strikethrough => self.add("</del>"),
            Tag::Link(_, _, _) => self.add("</a>"),
            Tag::Image(_, _, _) => self.end_image(),
            Tag::Sans | Tag::SmallCaps | Tag::RightAligned => self.add("</span>"),
            Tag::Centred => {
                if !self.in_para {
                    self.add("</span>");
                }
            },
            Tag::Superscript => self.add("</sup>"),
            Tag::Subscript => self.add("</sub>"),
            Tag::Table(_) | Tag::TableHead | Tag::TableRow | Tag::TableCell => {},
            Tag::FlattenedFootnote => {},
        }
    }

    /// Writes a token while an image in the line is open.
    pub fn push_in_inline_image(&mut self, item: &Event)
        ensures
            final(self).deep_view() == old(self).deep_view().pushed_in_inline_image(
                item.deep_view(),
            ),
    {
        match item {
            Event::Text(text) => {
                let escaped = escape_to_html(text.as_str());
                self.inline_image_alt_buffer.append(escaped.as_str());
            },
            Event::End(Tag::Image(_, _, _)) => {
                self.in_inline_image = false;
                if self.inline_image_alt_buffer.as_str().is_empty() {
                    self.target.append("</img>");
                } else {
                    let target = take_text(&mut self.target);
                    let mut target = drop_last_chars(target, 1);
                    target.append(" alt=\"");
                    let alt = take_text(&mut self.inline_image_alt_buffer);
                    target.append(alt.as_str());
                    target.append("></img>");
                    self.target = target;
                }
            },
            _ => {},
        }
    }

    fn push_reference(&mut self, name: &str)
        ensures
            final(self).deep_view() == old(self).deep_view().reference_pushed(name@),
    {
        let id = escape_to_html(name);
        self.target.append("<a href=\"#");
        self.target.append(id.as_str());
        self.target.append("\" id=\"fn_ref_");
        self.target.append(id.as_str());
        self.target.append("\" epub:type=\"noteref\">");
        let number = number_footnote(&mut self.numbers, name);
        self.target.append("<sup>");
        self.target.append(number.as_str());
        self.target.append("</sup></a>");
        assert(self.target@ =~= old(self).target@ + "<a href=\"#"@ + id@ + "\" id=\"fn_ref_"@ + id@
            + "\" epub:type=\"noteref\">"@ + "<sup>"@ + number@ + "</sup></a>"@);
    }

    /// Writes a token.
    pub fn push(&mut self, item: &Event)
        requires
            pushable(item.deep_view()),
        ensures
            final(self).deep_view() == old(self).deep_view().pushed(item.deep_view()),
    {
        if self.in_inline_image {
            self.push_in_inline_image(item);
        } else {
            match item {
                Event::Start(t) => self.push_start_tag(t),
                Event::End(t) => self.push_end_tag(t),
                Event::Text(text) => {
                    if self.in_heading {
                        let upper = to_uppercase(text.as_str());
                        let escaped = escape_to_html(upper.as_str());
                        self.add(escaped.as_str());
                    } else {
                        let escaped = escape_to_html(text.as_str());
                        self.add(escaped.as_str());
                    }
                },
                Event::Code(text) => {
                    let mut markup = String::from_str("<code>");
                    let escaped = escape_to_html(text.as_str());
                    markup.append(escaped.as_str());
                    markup.append("</code>");
                    self.add(markup.as_str());
                },
                Event::Html(html) => self.add(html.as_str()),
                Event::SoftBreak => self.add("\n"),
                Event::HardBreak => self.add("<br/> \n"),
                Event::Rule => {
                    self.add_on_new_line("<hr/>\n");
                    self.do_not_indent_next_para = true;
                },
                Event::FootnoteReference(name) => self.push_reference(name.as_str()),
                Event::TaskListMarker(_) => {},
            }
        }
    }

    /// Writes a run of tokens.
    pub fn push_all(&mut self, events: &Vec<Event>)
        requires
            all_pushable(events.deep_view()),
        ensures
            final(self).deep_view() == old(self).deep_view().all_pushed(events.deep_view()),
    {
        let ghost ev = events.deep_view();
        let ghost st0 = self.deep_view();
        let mut i: usize = 0;
        while i < events.len()
            invariant
                i <= events.len(),
                ev == events.deep_view(),
                all_pushable(ev),
                self.deep_view() == st0.all_pushed(ev.take(i as int)),
            decreases events.len() - i,
        {
            proof {
                assert(ev.take(i + 1).drop_last() =~= ev.take(i as int));
                assert(ev.take(i + 1).last() == events[i as int].deep_view());
                assert(pushable(ev[i as int]));
            }
            self.push(&events[i]);
            i += 1;
        }
        assert(ev.take(events.len() as int) =~= ev);
    }
}

/// One document of an EPUB.
#[derive(Debug, PartialEq, Eq)]
pub struct EpubPage {
    /// The markup of the document.
    pub xhtml: String,
    /// The paths of the files that the document refers to.
    pub associated_resources: Vec<String>,
    /// The level of the entry of the document in the table of contents.
    pub toc_level: Option<usize>,
    /// The text of that entry.
    pub toc_title: Option<String>,
}

/// What an `EpubPage` holds, as mathematics.
pub struct EpubPageView {
    pub xhtml: Seq<char>,
    pub associated_resources: Seq<Seq<char>>,
    pub toc_level: Option<usize>,
    pub toc_title: Option<Seq<char>>,
}

impl DeepView for EpubPage {
    type V = EpubPageView;

    open spec fn deep_view(&self) -> EpubPageView {
        EpubPageView {
            xhtml: self.xhtml@,
            associated_resources: self.associated_resources.deep_view(),
            toc_level: self.toc_level,
            toc_title: self.toc_title.deep_view(),
        }
    }
}

/// The declaration and the root element at the head of every document.
pub open spec fn document_opening() -> Seq<char> {
    "<?xml version=\"1.0\" encoding=\"UTF-8\" standalone=\"no\"?>"@ + "\n"@
        + "<html xmlns=\"http://www.w3.org/1999/xhtml\" xmlns:epub=\"http://www.idpf.org/2007/ops\">"@
}

/// A document without content, which stands for a matter in the table of
/// contents.
pub open spec fn empty_page(title: Seq<char>) -> EpubPageView {
    EpubPageView {
        xhtml: document_opening() + "\n<head><title>"@ + title
            + "</title></head><body></body></html>"@,
        associated_resources: Seq::empty(),
        toc_level: Some(0),
        toc_title: Some(title),
    }
}

impl EpubPage {
    /// A document without content, which stands for a matter in the table
    /// of contents at the top level.
    pub fn new_empty(title: &str) -> (r: EpubPage)
        ensures
            r.deep_view() == empty_page(title@),
    {
        let mut xhtml = String::from_str(
            "<?xml version=\"1.0\" encoding=\"UTF-8\" standalone=\"no\"?>",
        );
        xhtml.append("\n");
        xhtml.append(
            "<html xmlns=\"http://www.w3.org/1999/xhtml\" xmlns:epub=\"http://www.idpf.org/2007/ops\">",
        );
        xhtml.append("\n<head><title>");
        xhtml.append(title);
        xhtml.append("</title></head><body></body></html>");
        let associated_resources: Vec<String> = Vec::new();
        assert(associated_resources.deep_view() =~= Seq::empty());
        EpubPage {
            xhtml,
            associated_resources,
            toc_title: Some(String::from_str(title)),
            toc_level: Some(0),
        }
    }
}

/// The heading element of a level.
pub open spec fn heading_element(level: Option<usize>) -> Seq<char> {
    match level {
        None => "h1"@,
        Some(l) => if l <= 1 {
            "h1"@
        } else if l == 2 {
            "h2"@
        } else if l == 3 {
            "h3"@
        } else if l == 4 {
            "h4"@
        } else if l == 5 {
            "h5"@
        } else {
            "h6"@
        },
    }
}

/// The markup that opens the heading of a division: a generic header that
/// names authors has a class of its own.
pub open spec fn heading_opening(
    element: Seq<char>,
    classes: Option<Seq<char>>,
    has_authors: bool,
) -> Seq<char> {
    match classes {
        Some(c) => if c == "generic_header"@ && has_authors {
            "<"@ + element + " class=\"generic_header_with_authors\">"@
        } else {
            "<"@ + element + " class=\""@ + c + "\">"@
        },
        None => "<"@ + element + ">"@,
    }
}

/// The label of a division as a paragraph, in capitals.
pub open spec fn label_paragraph(label: Option<Seq<char>>) -> Seq<char> {
    match label {
        Some(l) => "<p class=\"division_label\">"@ + uppercase_of(l) + "</p>\n"@,
        None => Seq::empty(),
    }
}

/// The title of a division as a heading.
pub open spec fn title_heading(
    role: SemanticRole,
    title: Option<Seq<char>>,
    has_authors: bool,
) -> Seq<char> {
    match title {
        Some(t) => {
            let element = heading_element(header_level(role));
            heading_opening(element, header_classes(role), has_authors) + t + "</"@ + element
                + ">\n"@
        },
        None => Seq::empty(),
    }
}

/// The authors of a division as a paragraph, in capitals, with `and`
/// before the last name.
pub open spec fn authors_paragraph(byline: Option<(Seq<char>, Option<Seq<char>>)>) -> Seq<char> {
    match byline {
        None => Seq::empty(),
        Some((name, None)) => "\n<p class=\"division_authors\">"@ + uppercase_of(name)
            + "</p>\n"@,
        Some((names, Some(last))) => "\n<p class=\"division_authors\">"@ + uppercase_of(names)
            + " and "@ + uppercase_of(last) + "</p>\n"@,
    }
}

impl XhtmlState {
    /// An epigraph written: its text in a block, then its source.
    pub open spec fn epigraph_written(self, text: Seq<EventView>, source: Seq<EventView>) -> XhtmlState {
        let with_text = self.adding("\n<div class=\"epigraph_content\">\n"@).all_pushed(
            text,
        ).adding("</div>"@);
        if source.len() > 0 {
            with_text.adding("<p class=\"epigraph_source\">"@).all_pushed(source).adding("</p>"@)
        } else {
            with_text
        }
    }

    /// A division header written: label, title and authors; the paragraph
    /// behind it is not indented. Nothing where the header has neither
    /// label nor title.
    pub open spec fn header_written(self, header: CollatedHeaderView) -> XhtmlState {
        match header.reconciled::<EpubMarker>() {
            None => self,
            Some((label, title)) => {
                let byline = header.byline::<EpubMarker>();
                XhtmlState {
                    target: self.target + label_paragraph(label) + title_heading(
                        self.current_division,
                        title,
                        byline is Some,
                    ) + authors_paragraph(byline),
                    do_not_indent_next_para: true,
                    ..self
                }
            },
        }
    }

    /// The body of the document of this page.
    pub open spec fn body(self) -> Seq<char> {
        let role = self.current_division;
        "<body epub:type=\""@ + matter_of(role) + "\">\n\t"@ + "<section epub:type=\""@
            + epub_type(role) + "\""@ + (match section_classes(role) {
            Some(c) => " class=\""@ + c + "\""@,
            None => Seq::empty(),
        }) + ">\n"@ + (match section_wrapper_div_classes(role) {
            Some(c) => "<div class=\""@ + c + "\">\n"@,
            None => Seq::empty(),
        }) + self.target + (if section_wrapper_div_classes(role) is Some {
            "</div>"@
        } else {
            Seq::empty()
        }) + "\n</section>"@ + "\n</body>"@
    }

    /// The title of the document of this page: the title that was seen, or
    /// the label, or the structural type of the role.
    pub open spec fn document_title(self) -> Seq<char> {
        match self.observed_title {
            Some(t) => t,
            None => match self.observed_label {
                Some(l) => l,
                None => epub_type(self.current_division),
            },
        }
    }

    /// The path of the stylesheet of this page.
    pub open spec fn css_path(self) -> Seq<char> {
        match self.css {
            Some((path, _)) => path,
            None => Seq::empty(),
        }
    }

    /// The file name of the stylesheet of this page in the EPUB.
    pub open spec fn css_filename(self) -> Seq<char> {
        match self.css {
            Some((_, filename)) => filename,
            None => Seq::empty(),
        }
    }

    /// Whether the document of this page links a stylesheet.
    pub open spec fn links_stylesheet(self) -> bool {
        include_stylesheet(self.current_division) && self.css is Some
    }

    /// The head of the document of this page.
    pub open spec fn head(self) -> Seq<char> {
        "<head>\n"@ + "\t<title>"@ + self.document_title() + "</title>\n"@ + (if self.links_stylesheet() {
            "\t"@ + "<link rel=\"stylesheet\" type=\"text/css\" href=\""@ + self.css_filename()
                + "\"></link>\n"@
        } else {
            Seq::empty()
        }) + (match additional_head(self.current_division) {
            Some(h) => "\n\t"@ + trimmed_of(h) + "\n"@,
            None => Seq::empty(),
        }) + "</head>"@
    }

    /// This state after its head was written: the stylesheet that the head
    /// links is a resource of the page.
    pub open spec fn with_head_written(self) -> XhtmlState {
        if self.links_stylesheet() {
            XhtmlState {
                css: None,
                associated_resources: self.associated_resources.push(self.css_path()),
                ..self
            }
        } else {
            self
        }
    }

    /// The entry of this page in the table of contents.
    pub open spec fn toc_title(self) -> Option<Seq<char>> {
        match default_toc_format(self.current_division) {
            TocFormatView::NoTocEntry => None,
            TocFormatView::Provided(s) => Some(s),
            TocFormatView::TitleOnly => match self.observed_title {
                Some(t) => Some(t),
                None => self.observed_label,
            },
            TocFormatView::TitleAndLabel => match (self.observed_label, self.observed_title) {
                (Some(l), Some(t)) => Some(l + ": "@ + t),
                (Some(l), None) => Some(l),
                (None, Some(t)) => Some(t),
                (None, None) => None,
            },
        }
    }

    /// The finished page.
    pub open spec fn finished(self) -> EpubPageView {
        EpubPageView {
            xhtml: document_opening() + self.head() + self.body() + "\n</html>"@,
            associated_resources: self.with_head_written().associated_resources,
            toc_title: self.toc_title(),
            toc_level: default_toc_level(self.current_division),
        }
    }
}

fn heading_element_of(level: Option<usize>) -> (r: &'static str)
    ensures
        r@ == heading_element(level),
{
    match level {
        None => "h1",
        Some(l) => if l <= 1 {
            "h1"
        } else if l == 2 {
            "h2"
        } else if l == 3 {
            "h3"
        } else if l == 4 {
            "h4"
        } else if l == 5 {
            "h5"
        } else {
            "h6"
        },
    }
}

fn write_label_paragraph(out: &mut String, label: &Option<String>)
    ensures
        final(out)@ == old(out)@ + label_paragraph(label.deep_view()),
{
    match label {
        Some(l) => {
            let upper = to_uppercase(l.as_str());
            out.append("<p class=\"division_label\">");
            out.append(upper.as_str());
            out.append("</p>\n");
            assert(out@ =~= old(out)@ + label_paragraph(label.deep_view()));
        },
        None => {
            assert(out@ =~= old(out)@ + label_paragraph(label.deep_view()));
        },
    }
}

fn write_title_heading(
    out: &mut String,
    role: SemanticRole,
    title: &Option<String>,
    has_authors: bool,
)
    ensures
        final(out)@ == old(out)@ + title_heading(role, title.deep_view(), has_authors),
{
    match title {
        Some(t) => {
            let element = heading_element_of(get_header_level(role));
            let mut markup = String::from_str("<");
            markup.append(element);
            match get_header_classes(role) {
                Some(c) => {
                    if crate::text::str_eq(c, "generic_header") && has_authors {
                        markup.append(" class=\"generic_header_with_authors\">");
                    } else {
                        markup.append(" class=\"");
                        markup.append(c);
                        markup.append("\">");
                    }
                },
                None => {
                    markup.append(">");
                },
            }
            assert(markup@ =~= heading_opening(element@, header_classes(role), has_authors));
            markup.append(t.as_str());
            markup.append("</");
            markup.append(element);
            markup.append(">\n");
            assert(markup@ =~= title_heading(role, title.deep_view(), has_authors));
            out.append(markup.as_str());
        },
        None => {
            assert(out@ =~= old(out)@ + title_heading(role, title.deep_view(), has_authors));
        },
    }
}

fn write_authors_paragraph(out: &mut String, byline: &Option<(String, Option<String>)>)
    ensures
        final(out)@ == old(out)@ + authors_paragraph(byline.deep_view()),
{
    match byline {
        None => {
            assert(out@ =~= old(out)@ + authors_paragraph(byline.deep_view()));
        },
        Some((name, None)) => {
            let upper = to_uppercase(name.as_str());
            out.append("\n<p class=\"division_authors\">");
            out.append(upper.as_str());
            out.append("</p>\n");
            assert(out@ =~= old(out)@ + authors_paragraph(byline.deep_view()));
        },
        Some((names, Some(last))) => {
            let upper = to_uppercase(names.as_str());
            let upper_last = to_uppercase(last.as_str());
            out.append("\n<p class=\"division_authors\">");
            out.append(upper.as_str());
            out.append(" and ");
            out.append(upper_last.as_str());
            out.append("</p>\n");
            assert(out@ =~= old(out)@ + authors_paragraph(byline.deep_view()));
        },
    }
}

impl XhtmlWriter {
    /// Writes an epigraph.
    pub fn write_epigraph(&mut self, text: &Vec<Event>, source: &Vec<Event>)
        requires
            all_pushable(text.deep_view()),
            all_pushable(source.deep_view()),
        ensures
            final(self).deep_view() == old(self).deep_view().epigraph_written(
                text.deep_view(),
                source.deep_view(),
            ),
    {
        self.add("\n<div class=\"epigraph_content\">\n");
        self.push_all(text);
        self.add("</div>");
        assert(source.deep_view().len() == source.len());
        if source.len() > 0 {
            self.add("<p class=\"epigraph_source\">");
            self.push_all(source);
            self.add("</p>");
        }
    }

    /// Writes a division header.
    pub fn write_division_header(&mut self, header: &CollatedHeader<EpubMarker>)
        ensures
            final(self).deep_view() == old(self).deep_view().header_written(header.deep_view()),
    {
        match header.reconcile_joined_label_and_title() {
            None => {},
            Some((label, title)) => {
                let authors = header.get_authors();
                write_label_paragraph(&mut self.target, &label);
                write_title_heading(
                    &mut self.target,
                    self.current_division,
                    &title,
                    authors.is_some(),
                );
                write_authors_paragraph(&mut self.target, &authors);
                self.do_not_indent_next_para = true;
            },
        }
    }

    /// The body of the document of this page.
    pub fn get_body(&self) -> (r: String)
        ensures
            r@ == self.deep_view().body(),
    {
        let role = self.current_division;
        let mut body = String::from_str("<body epub:type=\"");
        body.append(get_matter(role));
        body.append("\">\n\t");
        body.append("<section epub:type=\"");
        body.append(get_epub_type(role));
        body.append("\"");
        let ghost s1 = body@;
        match get_section_classes(role) {
            Some(c) => {
                body.append(" class=\"");
                body.append(c);
                body.append("\"");
            },
            None => {},
        }
        assert(body@ =~= s1 + (match section_classes(role) {
            Some(c) => " class=\""@ + c + "\""@,
            None => Seq::empty(),
        }));
        body.append(">\n");
        let ghost s2 = body@;
        let mut has_wrapper_div = false;
        match get_section_wrapper_div_classes(role) {
            Some(c) => {
                body.append("<div class=\"");
                body.append(c);
                body.append("\">\n");
                has_wrapper_div = true;
            },
            None => {},
        }
        assert(body@ =~= s2 + (match section_wrapper_div_classes(role) {
            Some(c) => "<div class=\""@ + c + "\">\n"@,
            None => Seq::empty(),
        }));
        body.append(self.target.as_str());
        let ghost s3 = body@;
        if has_wrapper_div {
            body.append("</div>");
        }
        assert(body@ =~= s3 + (if section_wrapper_div_classes(role) is Some {
            "</div>"@
        } else {
            Seq::empty()
        }));
        body.append("\n</section>");
        body.append("\n</body>");
        body
    }

    /// The head of the document of this page. The stylesheet that it links
    /// becomes a resource of the page.
    pub fn get_head(&mut self) -> (r: String)
        ensures
            r@ == old(self).deep_view().head(),
            final(self).deep_view() == old(self).deep_view().with_head_written(),
    {
        let ghost st = self.deep_view();
        let mut head = String::from_str("<head>\n");
        head.append("\t<title>");
        match (&self.observed_title, &self.observed_label) {
            (Some(t), _) => head.append(t.as_str()),
            (None, Some(l)) => head.append(l.as_str()),
            (None, None) => head.append(get_epub_type(self.current_division)),
        }
        head.append("</title>\n");
        assert(head@ =~= "<head>\n"@ + "\t<title>"@ + st.document_title() + "</title>\n"@);
        let ghost s1 = head@;
        if get_include_stylesheet(self.current_division) {
            let mut css: Option<(String, String)> = None;
            core::mem::swap(&mut css, &mut self.css);
            match css {
                Some((path, filename)) => {
                    head.append("\t");
                    head.append("<link rel=\"stylesheet\" type=\"text/css\" href=\"");
                    head.append(filename.as_str());
                    head.append("\"></link>\n");
                    proof {
                        broadcast use group_views;

                    }
                    self.associated_resources.push(path);
                },
                None => {},
            }
        }
        assert(head@ =~= s1 + (if st.links_stylesheet() {
            "\t"@ + "<link rel=\"stylesheet\" type=\"text/css\" href=\""@ + st.css_filename()
                + "\"></link>\n"@
        } else {
            Seq::empty()
        }));
        let ghost s2 = head@;
        match get_additional_head(self.current_division) {
            Some(h) => {
                head.append("\n\t");
                head.append(crate::text::trim(h));
                head.append("\n");
            },
            None => {},
        }
        assert(head@ =~= s2 + (match additional_head(st.current_division) {
            Some(h) => "\n\t"@ + trimmed_of(h) + "\n"@,
            None => Seq::empty(),
        }));
        head.append("</head>");
        head
    }

    /// The entry of this page in the table of contents.
    pub fn get_toc_title(&self) -> (r: Option<String>)
        ensures
            r.deep_view() == self.deep_view().toc_title(),
    {
        match get_default_toc_format(self.current_division) {
            TocFormat::NoTocEntry => None,
            TocFormat::Provided(s) => Some(String::from_str(s)),
            TocFormat::TitleOnly => match &self.observed_title {
                Some(t) => Some(t.clone()),
                None => crate::headers::copy_text(&self.observed_label),
            },
            TocFormat::TitleAndLabel => match (&self.observed_label, &self.observed_title) {
                (Some(label), Some(title)) => {
                    let mut out = label.clone();
                    out.append(": ");
                    out.append(title.as_str());
                    Some(out)
                },
                (Some(label), None) => Some(label.clone()),
                (None, Some(title)) => Some(title.clone()),
                (None, None) => None,
            },
        }
    }

    /// Finishes the page: declaration, head, body.
    pub fn finish(self) -> (r: EpubPage)
        ensures
            r.deep_view() == self.deep_view().finished(),
    {
        let mut this = self;
        let toc_title = this.get_toc_title();
        let body = this.get_body();
        let mut xhtml = String::from_str(
            "<?xml version=\"1.0\" encoding=\"UTF-8\" standalone=\"no\"?>",
        );
        xhtml.append("\n");
        xhtml.append(
            "<html xmlns=\"http://www.w3.org/1999/xhtml\" xmlns:epub=\"http://www.idpf.org/2007/ops\">",
        );
        let head = this.get_head();
        xhtml.append(head.as_str());
        xhtml.append(body.as_str());
        xhtml.append("\n</html>");
        EpubPage {
            xhtml,
            associated_resources: this.associated_resources,
            toc_title,
            toc_level: get_default_toc_level(this.current_division),
        }
    }
}

} // verus!
