//! The tokens that a manuscript fragment is made of: paragraphs, headings,
//! emphasis, images, footnote spans and text.

use vstd::prelude::*;

verus! {

/// How a link or image was written in the manuscript.
#[derive(Debug, PartialEq, Eq, Structural, Clone, Copy)]
pub enum LinkType {
    Inline,
    Reference,
    ReferenceUnknown,
    Collapsed,
    CollapsedUnknown,
    Shortcut,
    ShortcutUnknown,
    Autolink,
    Email,
}

/// The alignment of a table column.
#[derive(Debug, PartialEq, Eq, Structural, Clone, Copy)]
pub enum Alignment {
    Unaligned,
    Left,
    Center,
    Right,
}

/// Whether a code block was indented or fenced; a fence may name a language.
#[derive(Debug, PartialEq, Eq)]
pub enum CodeBlockKind {
    Indented,
    Fenced(String),
}

/// What a `CodeBlockKind` holds, as mathematics.
pub enum CodeBlockKindView {
    Indented,
    Fenced(Seq<char>),
}

impl DeepView for CodeBlockKind {
    type V = CodeBlockKindView;

    open spec fn deep_view(&self) -> CodeBlockKindView {
        match self {
            CodeBlockKind::Indented => CodeBlockKindView::Indented,
            CodeBlockKind::Fenced(l) => CodeBlockKindView::Fenced(l@),
        }
    }
}

impl Clone for CodeBlockKind {
    fn clone(&self) -> (r: Self)
        ensures
            r.deep_view() == self.deep_view(),
    {
        match self {
            CodeBlockKind::Indented => CodeBlockKind::Indented,
            CodeBlockKind::Fenced(l) => CodeBlockKind::Fenced(l.clone()),
        }
    }
}

/// A tag that opens or closes a run of tokens.
#[derive(Debug, PartialEq, Eq)]
pub enum Tag {
    /// A paragraph.
    Paragraph,
    /// A heading and its level.
    Heading(u32),
    /// A block quote, short form.
    BlockQuote,
    /// A block quote, long form.
    BlockQuotation,
    /// A code block.
    CodeBlock(CodeBlockKind),
    /// A list; an ordered list gives the number of its first item.
    List(Option<u64>),
    /// A list item.
    Item,
    /// The definition of the footnote of this name.
    FootnoteDefinition(String),
    /// A table and the alignment of its columns.
    Table(Vec<Alignment>),
    TableHead,
    TableRow,
    TableCell,
    Emphasis,
    Strong,
    /// A link: how it was written, its destination, its title.
    Link(LinkType, String, String),
    /// An image: how it was written, its destination, its title.
    Image(LinkType, String, String),
    Strikethrough,
    Sans,
    Centred,
    SmallCaps,
    RightAligned,
    Superscript,
    Subscript,
    /// A footnote merged into the text at the point that refers to it.
    FlattenedFootnote,
    /// A paragraph without an initial indent.
    UnindentedParagraph,
}

/// What a `Tag` holds, as mathematics.
pub enum TagView {
    Paragraph,
    Heading(u32),
    BlockQuote,
    BlockQuotation,
    CodeBlock(CodeBlockKindView),
    List(Option<u64>),
    Item,
    FootnoteDefinition(Seq<char>),
    Table(Seq<Alignment>),
    TableHead,
    TableRow,
    TableCell,
    Emphasis,
    Strong,
    Link(LinkType, Seq<char>, Seq<char>),
    Image(LinkType, Seq<char>, Seq<char>),
    Strikethrough,
    Sans,
    Centred,
    SmallCaps,
    RightAligned,
    Superscript,
    Subscript,
    FlattenedFootnote,
    UnindentedParagraph,
}

impl DeepView for Tag {
    type V = TagView;

    open spec fn deep_view(&self) -> TagView {
        match self {
            Tag::Paragraph => TagView::Paragraph,
            Tag::Heading(l) => TagView::Heading(*l),
            Tag::BlockQuote => TagView::BlockQuote,
            Tag::BlockQuotation => TagView::BlockQuotation,
            Tag::CodeBlock(k) => TagView::CodeBlock(k.deep_view()),
            Tag::List(n) => TagView::List(*n),
            Tag::Item => TagView::Item,
            Tag::FootnoteDefinition(n) => TagView::FootnoteDefinition(n@),
            Tag::Table(a) => TagView::Table(a@),
            Tag::TableHead => TagView::TableHead,
            Tag::TableRow => TagView::TableRow,
            Tag::TableCell => TagView::TableCell,
            Tag::Emphasis => TagView::Emphasis,
            Tag::Strong => TagView::Strong,
            Tag::Link(t, d, n) => TagView::Link(*t, d@, n@),
            Tag::Image(t, d, n) => TagView::Image(*t, d@, n@),
            Tag::Strikethrough => TagView::Strikethrough,
            Tag::Sans => TagView::Sans,
            Tag::Centred => TagView::Centred,
            Tag::SmallCaps => TagView::SmallCaps,
            Tag::RightAligned => TagView::RightAligned,
            Tag::Superscript => TagView::Superscript,
            Tag::Subscript => TagView::Subscript,
            Tag::FlattenedFootnote => TagView::FlattenedFootnote,
            Tag::UnindentedParagraph => TagView::UnindentedParagraph,
        }
    }
}

/// A copy of a column alignment list.
pub fn copy_alignments(a: &Vec<Alignment>) -> (r: Vec<Alignment>)
    ensures
        r@ == a@,
{
    let mut out: Vec<Alignment> = Vec::new();
    let mut i: usize = 0;
    while i < a.len()
        invariant
            i <= a.len(),
            out@ == a@.take(i as int),
        decreases a.len() - i,
    {
        out.push(a[i]);
        assert(out@ =~= a@.take(i + 1));
        i += 1;
    }
    assert(a@.take(a.len() as int) =~= a@);
    out
}

impl Clone for Tag {
    fn clone(&self) -> (r: Self)
        ensures
            r.deep_view() == self.deep_view(),
    {
        match self {
            Tag::Paragraph => Tag::Paragraph,
            Tag::Heading(l) => Tag::Heading(*l),
            Tag::BlockQuote => Tag::BlockQuote,
            Tag::BlockQuotation => Tag::BlockQuotation,
            Tag::CodeBlock(k) => Tag::CodeBlock(k.clone()),
            Tag::List(n) => Tag::List(*n),
            Tag::Item => Tag::Item,
            Tag::FootnoteDefinition(n) => Tag::FootnoteDefinition(n.clone()),
            Tag::Table(a) => Tag::Table(copy_alignments(a)),
            Tag::TableHead => Tag::TableHead,
            Tag::TableRow => Tag::TableRow,
            Tag::TableCell => Tag::TableCell,
            Tag::Emphasis => Tag::Emphasis,
            Tag::Strong => Tag::Strong,
            Tag::Link(t, d, n) => Tag::Link(*t, d.clone(), n.clone()),
            Tag::Image(t, d, n) => Tag::Image(*t, d.clone(), n.clone()),
            Tag::Strikethrough => Tag::Strikethrough,
            Tag::Sans => Tag::Sans,
            Tag::Centred => Tag::Centred,
            Tag::SmallCaps => Tag::SmallCaps,
            Tag::RightAligned => Tag::RightAligned,
            Tag::Superscript => Tag::Superscript,
            Tag::Subscript => Tag::Subscript,
            Tag::FlattenedFootnote => Tag::FlattenedFootnote,
            Tag::UnindentedParagraph => Tag::UnindentedParagraph,
        }
    }
}

/// One token of a manuscript fragment.
#[derive(Debug, PartialEq, Eq)]
pub enum Event {
    /// The start of a tagged run; the matching `End` closes it.
    Start(Tag),
    /// The end of a tagged run.
    End(Tag),
    /// Text.
    Text(String),
    /// Inline code.
    Code(String),
    /// A reference to the footnote of this name.
    FootnoteReference(String),
    /// A soft line break.
    SoftBreak,
    /// A hard line break.
    HardBreak,
    /// A horizontal rule.
    Rule,
    /// Raw markup.
    Html(String),
    /// A task list marker; `true` when checked.
    TaskListMarker(bool),
}

/// What an `Event` holds, as mathematics.
pub enum EventView {
    Start(TagView),
    End(TagView),
    Text(Seq<char>),
    Code(Seq<char>),
    FootnoteReference(Seq<char>),
    SoftBreak,
    HardBreak,
    Rule,
    Html(Seq<char>),
    TaskListMarker(bool),
}

impl DeepView for Event {
    type V = EventView;

    open spec fn deep_view(&self) -> EventView {
        match self {
            Event::Start(t) => EventView::Start(t.deep_view()),
            Event::End(t) => EventView::End(t.deep_view()),
            Event::Text(s) => EventView::Text(s@),
            Event::Code(s) => EventView::Code(s@),
            Event::FootnoteReference(s) => EventView::FootnoteReference(s@),
            Event::SoftBreak => EventView::SoftBreak,
            Event::HardBreak => EventView::HardBreak,
            Event::Rule => EventView::Rule,
            Event::Html(s) => EventView::Html(s@),
            Event::TaskListMarker(b) => EventView::TaskListMarker(*b),
        }
    }
}

impl Clone for Event {
    fn clone(&self) -> (r: Self)
        ensures
            r.deep_view() == self.deep_view(),
    {
        match self {
            Event::Start(t) => Event::Start(t.clone()),
            Event::End(t) => Event::End(t.clone()),
            Event::Text(s) => Event::Text(s.clone()),
            Event::Code(s) => Event::Code(s.clone()),
            Event::FootnoteReference(s) => Event::FootnoteReference(s.clone()),
            Event::SoftBreak => Event::SoftBreak,
            Event::HardBreak => Event::HardBreak,
            Event::Rule => Event::Rule,
            Event::Html(s) => Event::Html(s.clone()),
            Event::TaskListMarker(b) => Event::TaskListMarker(*b),
        }
    }
}

} // verus!
