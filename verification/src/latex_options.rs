//! The choices that a caller makes for a LaTeX document: the preamble, how
//! chapter headers are shown, and what the running footers say.

use crate::metadata::{Metadata, MetadataView};
use crate::roles::{HeaderFormat, TextHeaderOptions};
use crate::text::{all_uppercase, join_first, joined, pieces_between, split, uppercase_all};
use vstd::prelude::*;
use vstd::string::*;

verus! {

/// The depth down to which section headings are numbered.
#[derive(Debug, PartialEq, Eq, Structural, Clone, Copy)]
pub enum LatexSecNumDepth {
    /// Number only parts.
    Part,
    /// Number chapters and higher.
    Chapter,
    /// Number sections and higher.
    Section,
    /// Number subsections and higher.
    Subsection,
    /// Number subsubsections and higher.
    Subsubsection,
    /// Number paragraphs and higher.
    Paragraph,
    /// Number all section headings.
    Subparagraph,
}

impl LatexSecNumDepth {
    /// The value of the counter that stands for this depth.
    pub open spec fn counter(self) -> int {
        match self {
            LatexSecNumDepth::Part => -1,
            LatexSecNumDepth::Chapter => 0,
            LatexSecNumDepth::Section => 1,
            LatexSecNumDepth::Subsection => 2,
            LatexSecNumDepth::Subsubsection => 3,
            LatexSecNumDepth::Paragraph => 4,
            LatexSecNumDepth::Subparagraph => 5,
        }
    }

    /// The depth that a counter value stands for: what is below the range is
    /// the shallowest depth, what is above it the deepest.
    pub open spec fn of_counter(i: int) -> LatexSecNumDepth {
        if i < 0 {
            LatexSecNumDepth::Part
        } else if i == 0 {
            LatexSecNumDepth::Chapter
        } else if i == 1 {
            LatexSecNumDepth::Section
        } else if i == 2 {
            LatexSecNumDepth::Subsection
        } else if i == 3 {
            LatexSecNumDepth::Subsubsection
        } else if i == 4 {
            LatexSecNumDepth::Paragraph
        } else {
            LatexSecNumDepth::Subparagraph
        }
    }

    /// The value of the counter that stands for this depth.
    pub fn as_counter(&self) -> (r: isize)
        ensures
            r == self.counter(),
    {
        match self {
            LatexSecNumDepth::Part => -1,
            LatexSecNumDepth::Chapter => 0,
            LatexSecNumDepth::Section => 1,
            LatexSecNumDepth::Subsection => 2,
            LatexSecNumDepth::Subsubsection => 3,
            LatexSecNumDepth::Paragraph => 4,
            LatexSecNumDepth::Subparagraph => 5,
        }
    }

    /// The depth that a counter value stands for.
    pub fn from_counter(i: i32) -> (r: LatexSecNumDepth)
        ensures
            r == LatexSecNumDepth::of_counter(i as int),
    {
        if i < 0 {
            LatexSecNumDepth::Part
        } else if i == 0 {
            LatexSecNumDepth::Chapter
        } else if i == 1 {
            LatexSecNumDepth::Section
        } else if i == 2 {
            LatexSecNumDepth::Subsection
        } else if i == 3 {
            LatexSecNumDepth::Subsubsection
        } else if i == 4 {
            LatexSecNumDepth::Paragraph
        } else {
            LatexSecNumDepth::Subparagraph
        }
    }
}

/// Every depth is the depth of its own counter.
pub proof fn law_depth_round_trip(d: LatexSecNumDepth)
    ensures
        LatexSecNumDepth::of_counter(d.counter()) == d,
{
}

impl Default for LatexSecNumDepth {
    fn default() -> (r: Self)
        ensures
            r == LatexSecNumDepth::Chapter,
    {
        LatexSecNumDepth::Chapter
    }
}

/// Options for rendering a book as LaTeX, with the preamble already written.
#[derive(Debug)]
pub struct OptionsWithRenderedPreamble {
    pub publisher_imprint_logo: Option<String>,
    pub header_format: TextHeaderOptions,
    pub preamble: String,
    pub page_identifier: Option<String>,
    pub contributor_identifier: Option<String>,
    pub latex_secnumdepth: LatexSecNumDepth,
    pub include_toc: bool,
}

/// What an `OptionsWithRenderedPreamble` holds, as mathematics.
pub struct RenderedOptionsView {
    pub publisher_imprint_logo: Option<Seq<char>>,
    pub header_format: TextHeaderOptions,
    pub preamble: Seq<char>,
    pub page_identifier: Option<Seq<char>>,
    pub contributor_identifier: Option<Seq<char>>,
    pub latex_secnumdepth: LatexSecNumDepth,
    pub include_toc: bool,
}

impl DeepView for OptionsWithRenderedPreamble {
    type V = RenderedOptionsView;

    open spec fn deep_view(&self) -> RenderedOptionsView {
        RenderedOptionsView {
            publisher_imprint_logo: self.publisher_imprint_logo.deep_view(),
            header_format: self.header_format,
            preamble: self.preamble@,
            page_identifier: self.page_identifier.deep_view(),
            contributor_identifier: self.contributor_identifier.deep_view(),
            latex_secnumdepth: self.latex_secnumdepth,
            include_toc: self.include_toc,
        }
    }
}

/// The options in force when nothing was chosen, around a preamble.
pub open spec fn plain_rendered_options(preamble: Seq<char>) -> RenderedOptionsView {
    RenderedOptionsView {
        publisher_imprint_logo: None,
        header_format: TextHeaderOptions::standard(),
        preamble,
        page_identifier: None,
        contributor_identifier: None,
        latex_secnumdepth: LatexSecNumDepth::Chapter,
        include_toc: false,
    }
}

impl OptionsWithRenderedPreamble {
    /// Options around a preamble, with nothing else chosen.
    pub fn new(preamble: String) -> (r: Self)
        ensures
            r.deep_view() == plain_rendered_options(preamble@),
    {
        OptionsWithRenderedPreamble {
            publisher_imprint_logo: None,
            header_format: TextHeaderOptions::default(),
            preamble,
            page_identifier: None,
            contributor_identifier: None,
            latex_secnumdepth: LatexSecNumDepth::Chapter,
            include_toc: false,
        }
    }

    /// Sets the publisher logo of the titlepage. The caller has seen to it
    /// that the file is there and that both backends can show it.
    pub fn set_publisher_logo(&mut self, path: &str)
        ensures
            final(self).deep_view() == (RenderedOptionsView {
                publisher_imprint_logo: Some(path@),
                ..old(self).deep_view()
            }),
    {
        self.publisher_imprint_logo = Some(String::from_str(path));
    }

    /// Shows chapter labels without their titles.
    pub fn suppress_chapter_titles(&mut self)
        ensures
            final(self).deep_view() == (RenderedOptionsView {
                header_format: (TextHeaderOptions {
                    chapter_header_format: HeaderFormat::LabelAlone,
                    ..old(self).header_format
                }),
                ..old(self).deep_view()
            }),
    {
        self.header_format.suppress_chapter_titles();
    }

    /// Shows chapter titles without their labels.
    pub fn suppress_chapter_label(&mut self)
        ensures
            final(self).deep_view() == (RenderedOptionsView {
                header_format: (TextHeaderOptions {
                    chapter_header_format: HeaderFormat::TitleAlone,
                    ..old(self).header_format
                }),
                ..old(self).deep_view()
            }),
    {
        self.header_format.suppress_chapter_labels();
    }

    /// Shows only the number of a chapter.
    pub fn only_number_chapters(&mut self)
        ensures
            final(self).deep_view() == (RenderedOptionsView {
                header_format: (TextHeaderOptions {
                    chapter_header_format: HeaderFormat::NumberAlone,
                    ..old(self).header_format
                }),
                ..old(self).deep_view()
            }),
    {
        self.header_format.only_number_chapters();
    }

    /// Includes a table of contents.
    pub fn include_toc(&mut self)
        ensures
            final(self).deep_view() == (RenderedOptionsView {
                include_toc: true,
                ..old(self).deep_view()
            }),
    {
        self.include_toc = true;
    }

    /// Sets the depth down to which section headings are numbered.
    pub fn set_secnumdepth(&mut self, secnumdepth: LatexSecNumDepth)
        ensures
            final(self).deep_view() == (RenderedOptionsView {
                latex_secnumdepth: secnumdepth,
                ..old(self).deep_view()
            }),
    {
        self.latex_secnumdepth = secnumdepth;
    }

    /// Takes the running footers from the metadata: the short title, and the
    /// authors in capitals.
    pub fn set_running_footers_from_metadata(&mut self, metadata: &Metadata)
        ensures
            final(self).deep_view() == (RenderedOptionsView {
                page_identifier: Some(metadata.deep_view().short_title()),
                contributor_identifier: footer_authors(metadata.deep_view()),
                ..old(self).deep_view()
            }),
    {
        let page_identifier = String::from_str(metadata.get_short_title());
        let authors = match metadata.get_authors() {
            Some(a) => {
                let names = uppercase_all(&split(a.as_str(), " and "));
                let n = names.len();
                assert(names.deep_view().take(n as int) =~= names.deep_view());
                Some(join_first(&names, n, " and "))
            },
            None => None,
        };
        self.page_identifier = Some(page_identifier);
        self.contributor_identifier = authors;
    }
}

/// The authors of a book as the running footer names them: in capitals,
/// but for the word `and` between names.
pub open spec fn footer_authors(m: MetadataView) -> Option<Seq<char>> {
    match m.authors_text() {
        Some(a) => Some(joined(all_uppercase(pieces_between(a, " and "@)), " and "@)),
        None => None,
    }
}

} // verus!
