//! Options that are given once for both output formats, and what they come
//! to for each: every format takes what applies to it.

use crate::epub_options::{Options, OptionsView};
use crate::latex_options::{
    plain_rendered_options, LatexSecNumDepth, OptionsWithRenderedPreamble, RenderedOptionsView,
};
use crate::preamble::{
    empty_style, fancy_style, plain_style, LatexFont, LatexFontSize, LatexFontView,
    LatexFontsView, LatexPageStyle, LatexPageStyleView, PaperSize,
};
use crate::preamble_options::{
    default_part_format, default_titlesec_options, margins_of, PreambleOptions,
};
use crate::seqs::group_views;
use crate::text::str_eq;
use crate::roles::{HeaderFormat, NumberFormat, TextHeaderOptions};
use vstd::prelude::*;
use vstd::string::*;

verus! {

broadcast use group_views;

/// Options for both output formats. Some flags contradict each other: of
/// the header flags the last that is applied holds, and of the sizes the
/// smallest that is chosen.
#[derive(Debug)]
pub struct UnifiedOptions {
    pub css: Option<String>,
    pub cover_image: Option<String>,
    pub titlepage: Option<String>,
    pub publisher_imprint_logo: Option<String>,
    pub titlepage_typeface: Option<String>,
    pub use_words_for_chapter_labels: bool,
    pub use_roman_numerals_for_chapter_labels: bool,
    pub suppress_chapter_labels: bool,
    pub suppress_chapter_titles: bool,
    pub only_number_chapters: bool,
    pub open_any: bool,
    pub secnumdepth: Option<i32>,
    pub sans_typeface: Option<String>,
    pub serif_typeface: Option<String>,
    pub mono_typeface: Option<String>,
    pub headers_and_footers_typeface: Option<String>,
    pub heading_typeface: Option<String>,
    pub include_toc: bool,
    pub suppress_footers: bool,
    pub page_number_only_in_footers: bool,
    pub do_not_suppress_figure_labels: bool,
    pub ten_pt: bool,
    pub eleven_pt: bool,
    pub twelve_pt: bool,
    pub five_by_eight_inches: bool,
    pub five_twenty_five_by_eight_inches: bool,
    pub five_five_by_eight_five_inches: bool,
    pub six_by_nine_inches: bool,
    pub a4paper: bool,
    pub usletter: bool,
    pub uslegal: bool,
    pub chapter_label: Option<String>,
    /// The spread of the lines, as the number is written.
    pub linespread: Option<String>,
}

/// The typeface of a place: the one that is chosen by name, where it is
/// installed; else the one that was there.
pub open spec fn chosen_typeface(
    name: Option<String>,
    before: Option<LatexFontView>,
    installed: Seq<Seq<char>>,
) -> Option<LatexFontView> {
    match name {
        Some(n) => if installed.contains(n@) {
            Some(LatexFontView::Named(n@))
        } else {
            before
        },
        None => before,
    }
}

/// No typeface in any place.
pub open spec fn no_typefaces() -> LatexFontsView {
    LatexFontsView {
        sans: None,
        serif: None,
        mono: None,
        titlepage: None,
        running: None,
        heading: None,
    }
}

/// Whether a typeface of this name is among those installed.
pub fn is_installed(installed_fonts: &Vec<String>, name: &str) -> (r: bool)
    ensures
        r == installed_fonts.deep_view().contains(name@),
{
    let mut i: usize = 0;
    while i < installed_fonts.len()
        invariant
            i <= installed_fonts.len(),
            forall|j: int| 0 <= j < i ==> installed_fonts.deep_view()[j] != name@,
        decreases installed_fonts.len() - i,
    {
        if str_eq(installed_fonts[i].as_str(), name) {
            assert(installed_fonts.deep_view()[i as int] == name@);
            return true;
        }
        i += 1;
    }
    false
}

/// A text chosen first, or failing that a second one.
pub open spec fn or_else(first: Option<Seq<char>>, second: Option<Seq<char>>) -> Option<Seq<char>> {
    match first {
        Some(t) => Some(t),
        None => second,
    }
}

impl UnifiedOptions {
    /// How chapter headers are shown: the flags are applied in the order
    /// titles, words, roman numerals, labels, numbers only, and each
    /// overrides what an earlier one set of the same choice.
    pub open spec fn header_options(&self) -> TextHeaderOptions {
        let format = if self.only_number_chapters {
            HeaderFormat::NumberAlone
        } else if self.suppress_chapter_labels {
            HeaderFormat::TitleAlone
        } else if self.suppress_chapter_titles {
            HeaderFormat::LabelAlone
        } else {
            HeaderFormat::LabelAndNumberAndTitle
        };
        let numbers = if self.use_roman_numerals_for_chapter_labels {
            NumberFormat::Roman
        } else if self.use_words_for_chapter_labels {
            NumberFormat::Words
        } else {
            NumberFormat::Arabic
        };
        TextHeaderOptions {
            chapter_header_format: format,
            chapter_number_format: numbers,
            ..TextHeaderOptions::standard()
        }
    }

    /// What these options come to for an EPUB. The titlepage is set in the
    /// sans typeface where it has none of its own.
    pub open spec fn for_epub(&self) -> OptionsView {
        OptionsView {
            css: self.css.deep_view(),
            cover_image: self.cover_image.deep_view(),
            titlepage: self.titlepage.deep_view(),
            publisher_imprint_logo: self.publisher_imprint_logo.deep_view(),
            titlepage_typeface: or_else(
                self.titlepage_typeface.deep_view(),
                self.sans_typeface.deep_view(),
            ),
            header_options: self.header_options(),
            chapter_label: self.chapter_label.deep_view(),
        }
    }

    /// What these options come to for LaTeX, around a preamble.
    pub open spec fn for_latex(&self, preamble: Seq<char>) -> RenderedOptionsView {
        RenderedOptionsView {
            publisher_imprint_logo: self.publisher_imprint_logo.deep_view(),
            header_format: self.header_options(),
            include_toc: self.include_toc,
            latex_secnumdepth: match self.secnumdepth {
                Some(n) => LatexSecNumDepth::of_counter(n as int),
                None => LatexSecNumDepth::Chapter,
            },
            ..plain_rendered_options(preamble)
        }
    }

    /// The size of the paper: the first that is chosen, from the smallest
    /// on; six by nine inches where none is.
    pub open spec fn chosen_paper(&self) -> PaperSize {
        if self.five_by_eight_inches {
            PaperSize::Inches5x8
        } else if self.five_twenty_five_by_eight_inches {
            PaperSize::Inches5_25x8
        } else if self.five_five_by_eight_five_inches {
            PaperSize::Inches5_5x8_5
        } else if self.six_by_nine_inches {
            PaperSize::Inches6x9
        } else if self.a4paper {
            PaperSize::A4Paper
        } else if self.usletter {
            PaperSize::USLetter
        } else if self.uslegal {
            PaperSize::USLegal
        } else {
            PaperSize::Inches6x9
        }
    }

    /// The size of the type: the smallest that is chosen; twelve points
    /// where none is.
    pub open spec fn chosen_font_size(&self) -> LatexFontSize {
        if self.ten_pt {
            LatexFontSize::TenPt
        } else if self.eleven_pt {
            LatexFontSize::ElevenPt
        } else {
            LatexFontSize::TwelvePt
        }
    }

    /// Whether a size of paper is chosen.
    pub open spec fn picks_paper(&self) -> bool {
        self.five_by_eight_inches || self.five_twenty_five_by_eight_inches
            || self.five_five_by_eight_five_inches || self.six_by_nine_inches || self.a4paper
            || self.usletter || self.uslegal
    }

    /// A page style with the footers that are chosen: none where they are
    /// suppressed, the page number alone where that is asked for, else
    /// those of the style.
    pub open spec fn footers(&self, style: LatexPageStyleView) -> LatexPageStyleView {
        if self.suppress_footers {
            empty_style()
        } else if self.page_number_only_in_footers {
            plain_style()
        } else {
            style
        }
    }

    /// The typefaces that are chosen by name and installed, each in its
    /// place, over those that were there.
    pub open spec fn chosen_typefaces(
        &self,
        before: LatexFontsView,
        installed: Seq<Seq<char>>,
    ) -> LatexFontsView {
        LatexFontsView {
            titlepage: chosen_typeface(self.titlepage_typeface, before.titlepage, installed),
            sans: chosen_typeface(self.sans_typeface, before.sans, installed),
            serif: chosen_typeface(self.serif_typeface, before.serif, installed),
            mono: chosen_typeface(self.mono_typeface, before.mono, installed),
            running: chosen_typeface(self.headers_and_footers_typeface, before.running, installed),
            heading: chosen_typeface(self.heading_typeface, before.heading, installed),
        }
    }

    /// The page style: no footers where they are suppressed, the page
    /// number alone where that is asked for, else the full footers.
    pub open spec fn chosen_page_style(&self) -> LatexPageStyleView {
        if self.suppress_footers {
            empty_style()
        } else if self.page_number_only_in_footers {
            plain_style()
        } else {
            fancy_style()
        }
    }

    fn apply_header_flags(&self, header: &mut TextHeaderOptions)
        requires
            *old(header) == TextHeaderOptions::standard(),
        ensures
            *final(header) == self.header_options(),
    {
        if self.suppress_chapter_titles {
            header.suppress_chapter_titles();
        }
        if self.use_words_for_chapter_labels {
            header.use_words_for_chapter_labels();
        }
        if self.use_roman_numerals_for_chapter_labels {
            header.use_roman_numerals_for_chapter_labels();
        }
        if self.suppress_chapter_labels {
            header.suppress_chapter_labels();
        }
        if self.only_number_chapters {
            header.only_number_chapters();
        }
    }

    /// The options for an EPUB.
    pub fn epub_options(&self) -> (r: Options)
        ensures
            r.deep_view() == self.for_epub(),
    {
        let mut options = Options::default();
        match &self.css {
            Some(css) => options.css(css.as_str()),
            None => {},
        }
        match &self.chapter_label {
            Some(label) => options.set_chapter_label(label.as_str()),
            None => {},
        }
        match &self.cover_image {
            Some(cover) => options.cover_image(cover.as_str()),
            None => {},
        }
        match &self.titlepage {
            Some(titlepage) => options.titlepage(titlepage.as_str()),
            None => {},
        }
        match &self.publisher_imprint_logo {
            Some(logo) => options.publisher_imprint_logo(logo.as_str()),
            None => {},
        }
        match (&self.titlepage_typeface, &self.sans_typeface) {
            (Some(typeface), _) => options.titlepage_typeface(typeface.as_str()),
            (None, Some(sans)) => options.titlepage_typeface(sans.as_str()),
            (None, None) => {},
        }
        self.apply_header_flags(&mut options.header_options);
        options
    }

    /// The options for LaTeX, around a preamble that is already written.
    pub fn latex_options(&self, preamble: String) -> (r: OptionsWithRenderedPreamble)
        ensures
            r.deep_view() == self.for_latex(preamble@),
    {
        let mut options = OptionsWithRenderedPreamble::new(preamble);
        match &self.publisher_imprint_logo {
            Some(logo) => options.set_publisher_logo(logo.as_str()),
            None => {},
        }
        self.apply_header_flags(&mut options.header_format);
        match self.secnumdepth {
            Some(n) => options.set_secnumdepth(LatexSecNumDepth::from_counter(n)),
            None => {},
        }
        if self.include_toc {
            options.include_toc();
        }
        options
    }

    fn apply_typefaces(&self, options: &mut PreambleOptions, installed_fonts: &Vec<String>)
        ensures
            *final(options) == (PreambleOptions {
                latex_fonts: final(options).latex_fonts,
                ..*old(options)
            }),
            final(options).latex_fonts.deep_view() == self.chosen_typefaces(
                old(options).latex_fonts.deep_view(),
                installed_fonts.deep_view(),
            ),
    {
        let ghost installed = installed_fonts.deep_view();
        match &self.titlepage_typeface {
            Some(t) => options.set_titlepage_typeface(
                LatexFont::named(t.as_str()),
                is_installed(installed_fonts, t.as_str()),
            ),
            None => {},
        }
        match &self.sans_typeface {
            Some(t) => options.set_sans_typeface(
                LatexFont::named(t.as_str()),
                is_installed(installed_fonts, t.as_str()),
            ),
            None => {},
        }
        match &self.serif_typeface {
            Some(t) => options.set_serif_typeface(
                LatexFont::named(t.as_str()),
                is_installed(installed_fonts, t.as_str()),
            ),
            None => {},
        }
        match &self.mono_typeface {
            Some(t) => options.set_mono_typeface(
                LatexFont::named(t.as_str()),
                is_installed(installed_fonts, t.as_str()),
            ),
            None => {},
        }
        match &self.headers_and_footers_typeface {
            Some(t) => options.set_headers_and_footers_typeface(
                LatexFont::named(t.as_str()),
                is_installed(installed_fonts, t.as_str()),
            ),
            None => {},
        }
        match &self.heading_typeface {
            Some(t) => options.set_heading_typeface(
                LatexFont::named(t.as_str()),
                is_installed(installed_fonts, t.as_str()),
            ),
            None => {},
        }
    }

    fn apply_footers(&self, options: &mut PreambleOptions)
        ensures
            *final(options) == (PreambleOptions {
                latex_plain_page_style: final(options).latex_plain_page_style,
                latex_fancy_page_style: final(options).latex_fancy_page_style,
                ..*old(options)
            }),
            final(options).latex_plain_page_style.deep_view() == self.footers(
                old(options).latex_plain_page_style.deep_view(),
            ),
            final(options).latex_fancy_page_style.deep_view() == self.footers(
                old(options).latex_fancy_page_style.deep_view(),
            ),
    {
        if self.suppress_footers {
            options.suppress_footers();
        } else if self.page_number_only_in_footers {
            options.page_number_only_in_footers();
        }
    }

    fn apply_size(&self, options: &mut PreambleOptions)
        ensures
            *final(options) == (PreambleOptions {
                latex_fontsize: if self.ten_pt || self.eleven_pt || self.twelve_pt {
                    self.chosen_font_size()
                } else {
                    old(options).latex_fontsize
                },
                ..*old(options)
            }),
    {
        if self.ten_pt {
            options.ten_pt();
        } else if self.eleven_pt {
            options.eleven_pt();
        } else if self.twelve_pt {
            options.twelve_pt();
        }
    }

    fn apply_paper(&self, options: &mut PreambleOptions)
        ensures
            *final(options) == (PreambleOptions {
                latex_margins: if self.picks_paper() {
                    margins_of(self.chosen_paper())
                } else {
                    old(options).latex_margins
                },
                ..*old(options)
            }),
    {
        if self.five_by_eight_inches {
            options.set_papersize(PaperSize::Inches5x8);
        } else if self.five_twenty_five_by_eight_inches {
            options.set_papersize(PaperSize::Inches5_25x8);
        } else if self.five_five_by_eight_five_inches {
            options.set_papersize(PaperSize::Inches5_5x8_5);
        } else if self.six_by_nine_inches {
            options.set_papersize(PaperSize::Inches6x9);
        } else if self.a4paper {
            options.set_papersize(PaperSize::A4Paper);
        } else if self.usletter {
            options.set_papersize(PaperSize::USLetter);
        } else if self.uslegal {
            options.set_papersize(PaperSize::USLegal);
        }
    }

    fn apply_flags(&self, options: &mut PreambleOptions)
        ensures
            *final(options) == (PreambleOptions {
                include_toc: self.include_toc || old(options).include_toc,
                do_not_suppress_figure_labels: self.do_not_suppress_figure_labels || old(options).do_not_suppress_figure_labels,
                ..*old(options)
            }),
    {
        if self.include_toc {
            options.include_toc();
        }
        if self.do_not_suppress_figure_labels {
            options.do_not_suppress_figure_labels();
        }
    }

    /// The choices for the preamble of a LaTeX document. The logo is the
    /// image that was found for the logo of the publisher, if one was; of
    /// the typefaces that are known by name those are taken that are
    /// installed.
    pub fn preamble_options(&self, logo: Option<String>, installed_fonts: &Vec<String>) -> (r:
        PreambleOptions)
        ensures
            r.latex_openany == self.open_any,
            r.chapter_label.deep_view() == self.chapter_label.deep_view(),
            r.header_options == self.header_options(),
            r.latex_linespread@ == (match self.linespread {
                Some(l) => l@,
                None => "1.1"@,
            }),
            r.latex_secnumdepth == (match self.secnumdepth {
                Some(n) => LatexSecNumDepth::of_counter(n as int),
                None => LatexSecNumDepth::Chapter,
            }),
            r.latex_fonts.deep_view() == self.chosen_typefaces(
                no_typefaces(),
                installed_fonts.deep_view(),
            ),
            r.include_toc == self.include_toc,
            r.do_not_suppress_figure_labels == self.do_not_suppress_figure_labels,
            r.latex_plain_page_style.deep_view() == self.footers(plain_style()),
            r.latex_fancy_page_style.deep_view() == self.footers(fancy_style()),
            r.latex_fontsize == self.chosen_font_size(),
            r.latex_margins == margins_of(self.chosen_paper()),
            r.latex_part_format@ == default_part_format(),
            r.latex_titlesec_options.deep_view() == default_titlesec_options(),
            r.publisher_imprint_logo is Some ==> r.publisher_imprint_logo.deep_view()
                == logo.deep_view(),
    {
        let mut options = PreambleOptions::default();
        if self.open_any {
            options.open_any();
        }
        match &self.chapter_label {
            Some(label) => options.chapter_label(label.as_str()),
            None => {},
        }
        match &logo {
            Some(p) => {
                let _ = options.set_publisher_logo(p.as_str(), true);
            },
            None => {},
        }
        self.apply_header_flags(&mut options.header_options);
        match &self.linespread {
            Some(l) => options.set_linespread(l.as_str()),
            None => {},
        }
        match self.secnumdepth {
            Some(n) => options.set_secnumdepth(LatexSecNumDepth::from_counter(n)),
            None => {},
        }
        assert(options.latex_fonts.deep_view() == no_typefaces());
        self.apply_typefaces(&mut options, installed_fonts);
        self.apply_flags(&mut options);
        self.apply_footers(&mut options);
        self.apply_size(&mut options);
        self.apply_paper(&mut options);
        options
    }

    /// The size of the paper.
    pub fn paper_size(&self) -> (r: PaperSize)
        ensures
            r == self.chosen_paper(),
    {
        if self.five_by_eight_inches {
            PaperSize::Inches5x8
        } else if self.five_twenty_five_by_eight_inches {
            PaperSize::Inches5_25x8
        } else if self.five_five_by_eight_five_inches {
            PaperSize::Inches5_5x8_5
        } else if self.six_by_nine_inches {
            PaperSize::Inches6x9
        } else if self.a4paper {
            PaperSize::A4Paper
        } else if self.usletter {
            PaperSize::USLetter
        } else if self.uslegal {
            PaperSize::USLegal
        } else {
            PaperSize::default()
        }
    }

    /// The size of the type.
    pub fn font_size(&self) -> (r: LatexFontSize)
        ensures
            r == self.chosen_font_size(),
    {
        if self.ten_pt {
            LatexFontSize::TenPt
        } else if self.eleven_pt {
            LatexFontSize::ElevenPt
        } else {
            LatexFontSize::default()
        }
    }

    /// The page style.
    pub fn page_style(&self) -> (r: LatexPageStyle)
        ensures
            r.deep_view() == self.chosen_page_style(),
    {
        if self.suppress_footers {
            LatexPageStyle::empty()
        } else if self.page_number_only_in_footers {
            LatexPageStyle::default_plain()
        } else {
            LatexPageStyle::default_fancy()
        }
    }
}

} // verus!
