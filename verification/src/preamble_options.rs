//! The preamble of a LaTeX document, written from the choices that were
//! made for the book: the class and the paper, the packages, the
//! typefaces, the page styles and the numbering.

use crate::latex_options::{LatexSecNumDepth, OptionsWithRenderedPreamble, RenderedOptionsView};
use crate::mimetypes::MimeTypeHelper;
use crate::numbers::{decimal, digit_char, digit_text, number_to_decimal};
use crate::package::texts;
use crate::preamble::{
    LatexFont, LatexFontSize, LatexFonts, LatexPageStyle, MeasurementUnit, PaperSize,
};
use crate::roles::{HeaderFormat, NumberFormat, TextHeaderOptions};
use crate::seqs::group_views;
use crate::text::{join_first, joined, owned};
use vstd::prelude::*;
use vstd::string::*;

verus! {

broadcast use group_views;

/// The digits behind the point of a length with a fraction: the
/// thousandths without the zeros at their end.
pub open spec fn fraction_digits(f: nat) -> Seq<char> {
    if f % 10 != 0 {
        seq![digit_char(f / 100), digit_char((f / 10) % 10), digit_char(f % 10)]
    } else if (f / 10) % 10 != 0 {
        seq![digit_char(f / 100), digit_char((f / 10) % 10)]
    } else {
        seq![digit_char(f / 100)]
    }
}

/// A length of so many thousandths, written as a decimal number: the
/// point and what follows it only where there is a fraction.
pub open spec fn length_text(thousandths: nat) -> Seq<char> {
    if thousandths % 1000 == 0 {
        decimal(thousandths / 1000)
    } else {
        decimal(thousandths / 1000) + seq!['.'] + fraction_digits(thousandths % 1000)
    }
}

/// Writes a length of so many thousandths as a decimal number.
pub fn write_length(thousandths: u32) -> (r: String)
    ensures
        r@ == length_text(thousandths as nat),
{
    let whole = thousandths / 1000;
    let f = thousandths % 1000;
    let mut out = number_to_decimal(whole as u128);
    if f != 0 {
        out.append(".");
        out.append(digit_text((f / 100) as u128));
        if f % 10 != 0 {
            out.append(digit_text(((f / 10) % 10) as u128));
            out.append(digit_text((f % 10) as u128));
        } else if (f / 10) % 10 != 0 {
            out.append(digit_text(((f / 10) % 10) as u128));
        }
        proof {
            reveal_strlit(".");
            assert("."@ =~= seq!['.']);
            assert(out@ =~= length_text(thousandths as nat));
        }
    }
    out
}

/// The paper and the margins of a page, in thousandths of the unit.
#[derive(Debug, PartialEq, Eq, Structural, Clone, Copy)]
pub struct LatexMargins {
    pub paper_width: u32,
    pub paper_height: u32,
    pub top: u32,
    pub bottom: u32,
    pub left: u32,
    pub right: u32,
    pub unit: MeasurementUnit,
}

/// The margins that go with a size of paper.
pub open spec fn margins_of(size: PaperSize) -> LatexMargins {
    match size {
        PaperSize::Inches5x8 => LatexMargins {
            unit: MeasurementUnit::Inches,
            paper_width: 5000,
            paper_height: 8000,
            top: 400,
            bottom: 800,
            left: 875,
            right: 750,
        },
        PaperSize::Inches5_25x8 => LatexMargins {
            unit: MeasurementUnit::Inches,
            paper_width: 5250,
            paper_height: 8000,
            top: 400,
            bottom: 800,
            left: 875,
            right: 750,
        },
        PaperSize::Inches5_5x8_5 => LatexMargins {
            unit: MeasurementUnit::Inches,
            paper_width: 5500,
            paper_height: 8500,
            top: 500,
            bottom: 900,
            left: 875,
            right: 750,
        },
        PaperSize::Inches6x9 => LatexMargins {
            unit: MeasurementUnit::Inches,
            paper_width: 6000,
            paper_height: 9000,
            top: 500,
            bottom: 1000,
            left: 875,
            right: 750,
        },
        PaperSize::A4Paper => LatexMargins {
            unit: MeasurementUnit::Mm,
            paper_width: 210000,
            paper_height: 297000,
            top: 20000,
            bottom: 30000,
            left: 40000,
            right: 30000,
        },
        PaperSize::USLetter => LatexMargins {
            unit: MeasurementUnit::Inches,
            paper_width: 8500,
            paper_height: 11000,
            top: 1000,
            bottom: 1400,
            left: 1400,
            right: 1400,
        },
        PaperSize::USLegal => LatexMargins {
            unit: MeasurementUnit::Inches,
            paper_width: 8500,
            paper_height: 14000,
            top: 1000,
            bottom: 1400,
            left: 1400,
            right: 1400,
        },
    }
}

impl MeasurementUnit {
    /// The unit as LaTeX writes it.
    pub open spec fn name(self) -> Seq<char> {
        match self {
            MeasurementUnit::Mm => "mm"@,
            MeasurementUnit::Inches => "in"@,
        }
    }

    /// The unit as LaTeX writes it.
    pub fn as_str(self) -> (r: &'static str)
        ensures
            r@ == self.name(),
    {
        match self {
            MeasurementUnit::Mm => "mm",
            MeasurementUnit::Inches => "in",
        }
    }
}

impl LatexMargins {
    /// The margins that go with a size of paper.
    pub fn of_paper(size: PaperSize) -> (r: Self)
        ensures
            r == margins_of(size),
    {
        match size {
            PaperSize::Inches5x8 => LatexMargins {
                unit: MeasurementUnit::Inches,
                paper_width: 5000,
                paper_height: 8000,
                top: 400,
                bottom: 800,
                left: 875,
                right: 750,
            },
            PaperSize::Inches5_25x8 => LatexMargins {
                unit: MeasurementUnit::Inches,
                paper_width: 5250,
                paper_height: 8000,
                top: 400,
                bottom: 800,
                left: 875,
                right: 750,
            },
            PaperSize::Inches5_5x8_5 => LatexMargins {
                unit: MeasurementUnit::Inches,
                paper_width: 5500,
                paper_height: 8500,
                top: 500,
                bottom: 900,
                left: 875,
                right: 750,
            },
            PaperSize::Inches6x9 => LatexMargins {
                unit: MeasurementUnit::Inches,
                paper_width: 6000,
                paper_height: 9000,
                top: 500,
                bottom: 1000,
                left: 875,
                right: 750,
            },
            PaperSize::A4Paper => LatexMargins {
                unit: MeasurementUnit::Mm,
                paper_width: 210000,
                paper_height: 297000,
                top: 20000,
                bottom: 30000,
                left: 40000,
                right: 30000,
            },
            PaperSize::USLetter => LatexMargins {
                unit: MeasurementUnit::Inches,
                paper_width: 8500,
                paper_height: 11000,
                top: 1000,
                bottom: 1400,
                left: 1400,
                right: 1400,
            },
            PaperSize::USLegal => LatexMargins {
                unit: MeasurementUnit::Inches,
                paper_width: 8500,
                paper_height: 14000,
                top: 1000,
                bottom: 1400,
                left: 1400,
                right: 1400,
            },
        }
    }

    /// A length in the unit of these margins.
    pub open spec fn measure(self, thousandths: u32) -> Seq<char> {
        length_text(thousandths as nat) + self.unit.name()
    }

    /// The options of the package that lays out the page.
    pub open spec fn geometry(self) -> Seq<char> {
        "\n\\usepackage[\n"@ + "papersize={"@ + self.measure(self.paper_width) + ", "@
            + self.measure(self.paper_height) + "},"@ + "\nvmargin={"@ + self.measure(self.top)
            + ", "@ + self.measure(self.bottom) + "},"@ + "\nleft="@ + self.measure(self.left)
            + ","@ + "\nright="@ + self.measure(self.right) + "\n]{geometry}"@
    }

    fn write_measure(self, out: &mut String, thousandths: u32)
        ensures
            final(out)@ == old(out)@ + self.measure(thousandths),
    {
        let length = write_length(thousandths);
        out.append(length.as_str());
        out.append(self.unit.as_str());
        assert(out@ =~= old(out)@ + self.measure(thousandths));
    }

    /// Writes the options of the package that lays out the page.
    pub fn write_geometry(self) -> (r: String)
        ensures
            r@ == self.geometry(),
    {
        let mut geometry = String::new();
        geometry.append("\n\\usepackage[\n");
        geometry.append("papersize={");
        self.write_measure(&mut geometry, self.paper_width);
        geometry.append(", ");
        self.write_measure(&mut geometry, self.paper_height);
        geometry.append("},");
        geometry.append("\nvmargin={");
        self.write_measure(&mut geometry, self.top);
        geometry.append(", ");
        self.write_measure(&mut geometry, self.bottom);
        geometry.append("},");
        geometry.append("\nleft=");
        self.write_measure(&mut geometry, self.left);
        geometry.append(",");
        geometry.append("\nright=");
        self.write_measure(&mut geometry, self.right);
        geometry.append("\n]{geometry}");
        assert(geometry@ =~= self.geometry());
        geometry
    }
}

impl Default for LatexMargins {
    fn default() -> (r: Self)
        ensures
            r == margins_of(PaperSize::Inches6x9),
    {
        LatexMargins::of_paper(PaperSize::Inches6x9)
    }
}

/// The packages that are loaded without options, in their order.
pub open spec fn packages_without_options() -> Seq<Seq<char>> {
    seq![
        "amsmath"@,
        "amssymb"@,
        "bookmark"@,
        "booktabs"@,
        "etoolbox"@,
        "fancyhdr"@,
        "fancyvrb"@,
        "footnotehyper"@,
        "listings"@,
        "longtable"@,
        "unicode-math"@,
        "upquote"@,
        "xcolor"@,
        "xurl"@,
        "fontspec"@,
        "graphicx"@,
        "microtype"@,
        "hyperref"@,
        "fmtcount"@,
    ]
}

/// The lines that load packages without options.
pub open spec fn package_lines(names: Seq<Seq<char>>) -> Seq<char>
    decreases names.len(),
{
    if names.len() == 0 {
        Seq::empty()
    } else {
        package_lines(names.drop_last()) + "\n\\usepackage{"@ + names.last() + "}"@
    }
}

fn plain_packages() -> (r: Vec<&'static str>)
    ensures
        texts(r@) == packages_without_options(),
{
    let mut names: Vec<&'static str> = Vec::new();
    names.push("amsmath");
    names.push("amssymb");
    names.push("bookmark");
    names.push("booktabs");
    names.push("etoolbox");
    names.push("fancyhdr");
    names.push("fancyvrb");
    names.push("footnotehyper");
    names.push("listings");
    names.push("longtable");
    names.push("unicode-math");
    names.push("upquote");
    names.push("xcolor");
    names.push("xurl");
    names.push("fontspec");
    names.push("graphicx");
    names.push("microtype");
    names.push("hyperref");
    names.push("fmtcount");
    assert(texts(names@) =~= packages_without_options());
    names
}

fn write_plain_packages(out: &mut String)
    ensures
        final(out)@ == old(out)@ + package_lines(packages_without_options()),
{
    let names = plain_packages();
    let ghost all = texts(names@);
    let mut i: usize = 0;
    assert(out@ =~= old(out)@ + package_lines(all.take(0)));
    while i < names.len()
        invariant
            i <= names.len(),
            all == texts(names@),
            out@ == old(out)@ + package_lines(all.take(i as int)),
        decreases names.len() - i,
    {
        proof {
            assert(all.take(i + 1).drop_last() =~= all.take(i as int));
            assert(all.take(i + 1).last() == names@[i as int]@);
        }
        out.append("\n\\usepackage{");
        out.append(names[i]);
        out.append("}");
        assert(out@ =~= old(out)@ + package_lines(all.take(i + 1)));
        i += 1;
    }
    assert(all.take(names.len() as int) =~= all);
}

/// What an installation gives to every preamble: its fixed parts, and the
/// typefaces that are used where none is chosen.
#[derive(Debug)]
pub struct FixedPreamble {
    pub patches: String,
    pub housekeeping: String,
    pub pfbreak_command: String,
    pub new_commands_and_environments: String,
    pub default_serif: LatexFont,
    pub default_sans: LatexFont,
}

/// The choices from which a preamble is written.
#[derive(Debug)]
pub struct PreambleOptions {
    pub latex_plain_page_style: LatexPageStyle,
    pub latex_fancy_page_style: LatexPageStyle,
    pub latex_fontsize: LatexFontSize,
    pub latex_openany: bool,
    pub latex_secnumdepth: LatexSecNumDepth,
    pub latex_margins: LatexMargins,
    pub latex_fonts: LatexFonts,
    /// The spread of the lines, as the number is written.
    pub latex_linespread: String,
    pub latex_part_format: String,
    pub latex_titlesec_options: Vec<String>,
    /// Whether figures are labelled in their captions.
    pub do_not_suppress_figure_labels: bool,
    /// The path of the logo of the publisher.
    pub publisher_imprint_logo: Option<String>,
    pub header_options: TextHeaderOptions,
    pub include_toc: bool,
    /// The label of chapters, where it is not `Chapter`.
    pub chapter_label: Option<String>,
}

/// The command that sets a family of type apart where no typeface was
/// chosen for it.
pub open spec fn plain_family(name: Seq<char>) -> Seq<char> {
    "\\newcommand{\\"@ + name + "}{\\sffamily}\n"@
}

/// The command that numbers chapters otherwise than in figures.
pub open spec fn chapter_numbering(format: NumberFormat) -> Seq<char> {
    match format {
        NumberFormat::Arabic => ""@,
        NumberFormat::Roman => "\\renewcommand{\\thechapter}{\\Roman{chapter}}"@,
        NumberFormat::Words => "\\renewcommand{\\thechapter}{\\NUMBERstring{chapter}}"@,
        NumberFormat::Letter => "\\renewcommand{\\thechapter}{\\Alph{chapter}}"@,
    }
}

/// The command that numbers parts otherwise than in roman numerals.
pub open spec fn part_numbering(format: NumberFormat) -> Seq<char> {
    match format {
        NumberFormat::Arabic => "\\renewcommand{\\thepart}{\\arabic{part}}"@,
        NumberFormat::Roman => ""@,
        NumberFormat::Words => "\\renewcommand{\\thepart}{\\NUMBERstring{part}}"@,
        NumberFormat::Letter => "\\renewcommand{\\thepart}{\\Alph{part}}"@,
    }
}

/// The command for a family of type: with the typeface that was chosen
/// for it, or plain.
pub open spec fn family(font: Option<LatexFont>, name: Seq<char>) -> Seq<char> {
    match font {
        Some(f) => f.deep_view().new_family(name),
        None => plain_family(name),
    }
}

impl LatexFontSize {
    /// The size as an option of the class.
    pub open spec fn name(self) -> Seq<char> {
        match self {
            LatexFontSize::TenPt => "10pt"@,
            LatexFontSize::ElevenPt => "11pt"@,
            LatexFontSize::TwelvePt => "12pt"@,
        }
    }
}

impl PreambleOptions {
    /// The line that names the class of the document.
    pub open spec fn opening(&self) -> Seq<char> {
        "\\documentclass["@ + self.latex_fontsize.name() + (if self.latex_openany {
            ", openany"@
        } else {
            Seq::empty()
        }) + "]{book}\n"@
    }

    /// The lines that load the packages.
    pub open spec fn packages(&self) -> Seq<char> {
        package_lines(packages_without_options()) + (if !self.do_not_suppress_figure_labels {
            "\n\\usepackage[labelformat=empty, font=sf]{caption}"@
        } else {
            Seq::empty()
        }) + "\n\\usepackage["@ + joined(self.latex_titlesec_options.deep_view(), ", "@)
            + "]{titlesec}\n"@ + "\n\\usepackage[normalem]{ulem}\n"@
            + "\n\\usepackage[overload]{textcase}\n"@
    }

    /// The commands that set the typefaces with which the text is set.
    pub open spec fn text_fonts(&self, fixed: &FixedPreamble) -> Seq<char> {
        (match self.latex_fonts.serif {
            Some(f) => f.deep_view().main_font(),
            None => fixed.default_serif.deep_view().main_font(),
        }) + (match self.latex_fonts.sans {
            Some(f) => f.deep_view().sans_font(),
            None => fixed.default_sans.deep_view().sans_font(),
        }) + (match self.latex_fonts.mono {
            Some(f) => f.deep_view().mono_font(),
            None => Seq::empty(),
        })
    }

    /// The commands that set the typefaces of the titlepage, of the
    /// running headers and footers, and of the headings.
    pub open spec fn families(&self) -> Seq<char> {
        family(self.latex_fonts.titlepage, "titlepagetypeface"@) + family(
            self.latex_fonts.running,
            "runningtypeface"@,
        ) + family(self.latex_fonts.heading, "headingtypeface"@)
    }

    /// The style of the pages that open a division.
    pub open spec fn plain_layout(&self) -> Seq<char> {
        "\n\\fancypagestyle{plain}{%\n"@ + self.latex_plain_page_style.deep_view().commands()
            + "}\n"@
    }

    /// The style of the other pages.
    pub open spec fn fancy_layout(&self) -> Seq<char> {
        "\\pagestyle{fancy}\n"@ + self.latex_fancy_page_style.deep_view().commands() + "\n"@
    }

    /// The commands behind the typefaces: the fixed parts, the format of
    /// parts, and the spread of the lines.
    pub open spec fn fixed_commands(&self, fixed: &FixedPreamble) -> Seq<char> {
        fixed.housekeeping@ + "\n"@ + fixed.pfbreak_command@ + "\n"@
            + fixed.new_commands_and_environments@ + "\n"@ + self.latex_part_format@ + "\n"@
            + "\\linespread{"@ + self.latex_linespread@ + "}"@
    }

    /// The commands that number the divisions and name the chapters.
    pub open spec fn numbering(&self) -> Seq<char> {
        "\\setcounter{tocdepth}{3}\n"@ + chapter_numbering(
            self.header_options.chapter_number_format,
        ) + part_numbering(self.header_options.part_number_format) + (match self.chapter_label {
            Some(label) => "\n\\renewcommand{\\chaptername}{"@ + label@ + "}\n"@,
            None => Seq::empty(),
        })
    }

    /// The preamble.
    pub open spec fn preamble(&self, fixed: &FixedPreamble) -> Seq<char> {
        self.opening() + self.latex_margins.geometry() + "\\usepackage{xpatch}\n"@ + fixed.patches@
            + "\n"@ + self.packages() + self.text_fonts(fixed) + self.families()
            + self.fixed_commands(fixed) + self.plain_layout() + self.fancy_layout()
            + self.numbering()
    }
}

/// The format of the heading of a part where none is chosen.
pub open spec fn default_part_format() -> Seq<char> {
    "\\titleformat{\\part}[display]{\\headingtypeface\\Huge}{\\itshape Part \\thepart}{1em}{\\thispagestyle{empty}}{}"@
}

/// The options of the package that formats headings where none are
/// chosen.
pub open spec fn default_titlesec_options() -> Seq<Seq<char>> {
    seq!["center"@, "sf"@, "small"@, "uppercase"@]
}

impl Default for PreambleOptions {
    fn default() -> (r: Self)
        ensures
            r.header_options == TextHeaderOptions::standard(),
            r.latex_plain_page_style.deep_view() == crate::preamble::plain_style(),
            r.latex_fancy_page_style.deep_view() == crate::preamble::fancy_style(),
            r.latex_fontsize == LatexFontSize::TwelvePt,
            !r.latex_openany,
            r.latex_secnumdepth == LatexSecNumDepth::Chapter,
            r.latex_margins == margins_of(PaperSize::Inches6x9),
            r.latex_fonts.sans is None,
            r.latex_fonts.serif is None,
            r.latex_fonts.mono is None,
            r.latex_fonts.titlepage is None,
            r.latex_fonts.running is None,
            r.latex_fonts.heading is None,
            r.latex_linespread@ == "1.1"@,
            r.latex_part_format@ == default_part_format(),
            r.publisher_imprint_logo is None,
            !r.include_toc,
            r.latex_titlesec_options.deep_view() == default_titlesec_options(),
            !r.do_not_suppress_figure_labels,
            r.chapter_label is None,
    {
        let mut titlesec: Vec<String> = Vec::new();
        titlesec.push(owned("center"));
        titlesec.push(owned("sf"));
        titlesec.push(owned("small"));
        titlesec.push(owned("uppercase"));
        assert(titlesec.deep_view() =~= default_titlesec_options());
        PreambleOptions {
            header_options: TextHeaderOptions::default(),
            latex_plain_page_style: LatexPageStyle::default_plain(),
            latex_fancy_page_style: LatexPageStyle::default_fancy(),
            latex_fontsize: LatexFontSize::TwelvePt,
            latex_openany: false,
            latex_secnumdepth: LatexSecNumDepth::Chapter,
            latex_margins: LatexMargins::of_paper(PaperSize::Inches6x9),
            latex_fonts: LatexFonts::default(),
            latex_linespread: owned("1.1"),
            latex_part_format: owned(
                "\\titleformat{\\part}[display]{\\headingtypeface\\Huge}{\\itshape Part \\thepart}{1em}{\\thispagestyle{empty}}{}",
            ),
            publisher_imprint_logo: None,
            include_toc: false,
            latex_titlesec_options: titlesec,
            do_not_suppress_figure_labels: false,
            chapter_label: None,
        }
    }
}

/// Which of the typefaces of a book is meant.
#[derive(Debug, PartialEq, Eq, Structural, Clone, Copy)]
pub enum FontPlace {
    Sans,
    Serif,
    Mono,
    Titlepage,
    Running,
    Heading,
}

impl LatexFonts {
    /// These typefaces with another in one place.
    pub open spec fn with(self, place: FontPlace, font: LatexFont) -> LatexFonts {
        match place {
            FontPlace::Sans => LatexFonts { sans: Some(font), ..self },
            FontPlace::Serif => LatexFonts { serif: Some(font), ..self },
            FontPlace::Mono => LatexFonts { mono: Some(font), ..self },
            FontPlace::Titlepage => LatexFonts { titlepage: Some(font), ..self },
            FontPlace::Running => LatexFonts { running: Some(font), ..self },
            FontPlace::Heading => LatexFonts { heading: Some(font), ..self },
        }
    }
}

impl PreambleOptions {
    /// Sets the label of chapters.
    pub fn chapter_label(&mut self, label: &str)
        ensures
            *final(self) == (PreambleOptions {
                chapter_label: final(self).chapter_label,
                ..*old(self)
            }),
            final(self).chapter_label.deep_view() == Some(label@),
    {
        self.chapter_label = Some(owned(label));
    }

    /// Sets the spread of the lines, as the number is written.
    pub fn set_linespread(&mut self, linespread: &str)
        ensures
            *final(self) == (PreambleOptions {
                latex_linespread: final(self).latex_linespread,
                ..*old(self)
            }),
            final(self).latex_linespread@ == linespread@,
    {
        self.latex_linespread = owned(linespread);
    }

    /// Lets chapters open on any page.
    pub fn open_any(&mut self)
        ensures
            *final(self) == (PreambleOptions { latex_openany: true, ..*old(self) }),
    {
        self.latex_openany = true;
    }

    /// Sets the depth to which divisions are numbered.
    pub fn set_secnumdepth(&mut self, secnumdepth: LatexSecNumDepth)
        ensures
            *final(self) == (PreambleOptions { latex_secnumdepth: secnumdepth, ..*old(self) }),
    {
        self.latex_secnumdepth = secnumdepth;
    }

    /// Sets the logo of the publisher: an image that is there and that
    /// both formats can show. Any other is refused.
    pub fn set_publisher_logo(&mut self, p: &str, exists: bool) -> (r: Result<(), String>)
        ensures
            !exists ==> r is Err,
            r is Err ==> *final(self) == *old(self) && r->Err_0@ == "Error setting logo path: "@
                + p@,
            r is Ok ==> *final(self) == (PreambleOptions {
                publisher_imprint_logo: final(self).publisher_imprint_logo,
                ..*old(self)
            }) && final(self).publisher_imprint_logo.deep_view() == Some(p@),
    {
        if exists && p.is_valid_logo_image() {
            self.publisher_imprint_logo = Some(owned(p));
            Ok(())
        } else {
            let mut message = owned("Error setting logo path: ");
            message.append(p);
            Err(message)
        }
    }

    /// Sets a typeface in its place. One that is known by its name is
    /// set only where it is installed; one in files is always set.
    pub fn set_typeface(&mut self, place: FontPlace, typeface: LatexFont, installed: bool)
        ensures
            typeface is Named && !installed ==> *final(self) == *old(self),
            !(typeface is Named && !installed) ==> *final(self) == (PreambleOptions {
                latex_fonts: old(self).latex_fonts.with(place, typeface),
                ..*old(self)
            }),
    {
        let set = match &typeface {
            LatexFont::Named(_) => installed,
            _ => true,
        };
        if set {
            match place {
                FontPlace::Sans => {
                    self.latex_fonts.sans = Some(typeface);
                },
                FontPlace::Serif => {
                    self.latex_fonts.serif = Some(typeface);
                },
                FontPlace::Mono => {
                    self.latex_fonts.mono = Some(typeface);
                },
                FontPlace::Titlepage => {
                    self.latex_fonts.titlepage = Some(typeface);
                },
                FontPlace::Running => {
                    self.latex_fonts.running = Some(typeface);
                },
                FontPlace::Heading => {
                    self.latex_fonts.heading = Some(typeface);
                },
            }
        }
    }

    /// Sets the sans typeface, which also stands in where no typeface is
    /// chosen for headings, running headers and footers, or the titlepage.
    pub fn set_sans_typeface(&mut self, typeface: LatexFont, installed: bool)
        ensures
            typeface is Named && !installed ==> *final(self) == *old(self),
            !(typeface is Named && !installed) ==> *final(self) == (PreambleOptions {
                latex_fonts: old(self).latex_fonts.with(FontPlace::Sans, typeface),
                ..*old(self)
            }),
    {
        self.set_typeface(FontPlace::Sans, typeface, installed);
    }

    /// Sets the serif typeface.
    pub fn set_serif_typeface(&mut self, typeface: LatexFont, installed: bool)
        ensures
            typeface is Named && !installed ==> *final(self) == *old(self),
            !(typeface is Named && !installed) ==> *final(self) == (PreambleOptions {
                latex_fonts: old(self).latex_fonts.with(FontPlace::Serif, typeface),
                ..*old(self)
            }),
    {
        self.set_typeface(FontPlace::Serif, typeface, installed);
    }

    /// Sets the typeface of code.
    pub fn set_mono_typeface(&mut self, typeface: LatexFont, installed: bool)
        ensures
            typeface is Named && !installed ==> *final(self) == *old(self),
            !(typeface is Named && !installed) ==> *final(self) == (PreambleOptions {
                latex_fonts: old(self).latex_fonts.with(FontPlace::Mono, typeface),
                ..*old(self)
            }),
    {
        self.set_typeface(FontPlace::Mono, typeface, installed);
    }

    /// Sets the typeface of the titlepage.
    pub fn set_titlepage_typeface(&mut self, typeface: LatexFont, installed: bool)
        ensures
            typeface is Named && !installed ==> *final(self) == *old(self),
            !(typeface is Named && !installed) ==> *final(self) == (PreambleOptions {
                latex_fonts: old(self).latex_fonts.with(FontPlace::Titlepage, typeface),
                ..*old(self)
            }),
    {
        self.set_typeface(FontPlace::Titlepage, typeface, installed);
    }

    /// Sets the typeface of running headers and footers.
    pub fn set_headers_and_footers_typeface(&mut self, typeface: LatexFont, installed: bool)
        ensures
            typeface is Named && !installed ==> *final(self) == *old(self),
            !(typeface is Named && !installed) ==> *final(self) == (PreambleOptions {
                latex_fonts: old(self).latex_fonts.with(FontPlace::Running, typeface),
                ..*old(self)
            }),
    {
        self.set_typeface(FontPlace::Running, typeface, installed);
    }

    /// Sets the typeface of headings.
    pub fn set_heading_typeface(&mut self, typeface: LatexFont, installed: bool)
        ensures
            typeface is Named && !installed ==> *final(self) == *old(self),
            !(typeface is Named && !installed) ==> *final(self) == (PreambleOptions {
                latex_fonts: old(self).latex_fonts.with(FontPlace::Heading, typeface),
                ..*old(self)
            }),
    {
        self.set_typeface(FontPlace::Heading, typeface, installed);
    }

    /// Shows chapters by their labels alone.
    pub fn suppress_chapter_titles(&mut self)
        ensures
            *final(self) == (PreambleOptions {
                header_options: (TextHeaderOptions {
                    chapter_header_format: HeaderFormat::LabelAlone,
                    ..old(self).header_options
                }),
                ..*old(self)
            }),
    {
        self.header_options.suppress_chapter_titles();
    }

    /// Shows chapters by their titles alone.
    pub fn suppress_chapter_label(&mut self)
        ensures
            *final(self) == (PreambleOptions {
                header_options: (TextHeaderOptions {
                    chapter_header_format: HeaderFormat::TitleAlone,
                    ..old(self).header_options
                }),
                ..*old(self)
            }),
    {
        self.header_options.suppress_chapter_labels();
    }

    /// Shows chapters by their numbers alone.
    pub fn only_number_chapters(&mut self)
        ensures
            *final(self) == (PreambleOptions {
                header_options: (TextHeaderOptions {
                    chapter_header_format: HeaderFormat::NumberAlone,
                    ..old(self).header_options
                }),
                ..*old(self)
            }),
    {
        self.header_options.only_number_chapters();
    }

    /// Numbers chapters in roman numerals.
    pub fn use_roman_numerals_for_chapter_labels(&mut self)
        ensures
            *final(self) == (PreambleOptions {
                header_options: (TextHeaderOptions {
                    chapter_number_format: NumberFormat::Roman,
                    ..old(self).header_options
                }),
                ..*old(self)
            }),
    {
        self.header_options.use_roman_numerals_for_chapter_labels();
    }

    /// Numbers chapters in words.
    pub fn use_words_for_chapter_labels(&mut self)
        ensures
            *final(self) == (PreambleOptions {
                header_options: (TextHeaderOptions {
                    chapter_number_format: NumberFormat::Words,
                    ..old(self).header_options
                }),
                ..*old(self)
            }),
    {
        self.header_options.use_words_for_chapter_labels();
    }

    /// Has a table of contents written.
    pub fn include_toc(&mut self)
        ensures
            *final(self) == (PreambleOptions { include_toc: true, ..*old(self) }),
    {
        self.include_toc = true;
    }

    /// Leaves the running footers blank.
    pub fn suppress_footers(&mut self)
        ensures
            final(self).latex_plain_page_style.deep_view() == crate::preamble::empty_style(),
            final(self).latex_fancy_page_style.deep_view() == crate::preamble::empty_style(),
            *final(self) == (PreambleOptions {
                latex_plain_page_style: final(self).latex_plain_page_style,
                latex_fancy_page_style: final(self).latex_fancy_page_style,
                ..*old(self)
            }),
    {
        self.latex_plain_page_style.make_empty();
        self.latex_fancy_page_style.make_empty();
    }

    /// Leaves the page number alone in the running footers.
    pub fn page_number_only_in_footers(&mut self)
        ensures
            final(self).latex_plain_page_style.deep_view() == crate::preamble::plain_style(),
            final(self).latex_fancy_page_style.deep_view() == crate::preamble::plain_style(),
            *final(self) == (PreambleOptions {
                latex_plain_page_style: final(self).latex_plain_page_style,
                latex_fancy_page_style: final(self).latex_fancy_page_style,
                ..*old(self)
            }),
    {
        self.latex_plain_page_style.make_plain();
        self.latex_fancy_page_style.make_plain();
    }

    /// Labels figures in their captions.
    pub fn do_not_suppress_figure_labels(&mut self)
        ensures
            *final(self) == (PreambleOptions {
                do_not_suppress_figure_labels: true,
                ..*old(self)
            }),
    {
        self.do_not_suppress_figure_labels = true;
    }

    /// Sets the type in ten points.
    pub fn ten_pt(&mut self)
        ensures
            *final(self) == (PreambleOptions {
                latex_fontsize: LatexFontSize::TenPt,
                ..*old(self)
            }),
    {
        self.latex_fontsize = LatexFontSize::TenPt;
    }

    /// Sets the type in eleven points.
    pub fn eleven_pt(&mut self)
        ensures
            *final(self) == (PreambleOptions {
                latex_fontsize: LatexFontSize::ElevenPt,
                ..*old(self)
            }),
    {
        self.latex_fontsize = LatexFontSize::ElevenPt;
    }

    /// Sets the type in twelve points.
    pub fn twelve_pt(&mut self)
        ensures
            *final(self) == (PreambleOptions {
                latex_fontsize: LatexFontSize::TwelvePt,
                ..*old(self)
            }),
    {
        self.latex_fontsize = LatexFontSize::TwelvePt;
    }

    /// Sets the size of the paper, and with it the margins.
    pub fn set_papersize(&mut self, size: PaperSize)
        ensures
            *final(self) == (PreambleOptions { latex_margins: margins_of(size), ..*old(self) }),
    {
        self.latex_margins = LatexMargins::of_paper(size);
    }

    /// Writes the line that names the class of the document.
    pub fn get_preamble_opening(&self) -> (r: String)
        ensures
            r@ == self.opening(),
    {
        let mut opening = String::new();
        opening.append("\\documentclass[");
        let fontsize = match self.latex_fontsize {
            LatexFontSize::TenPt => "10pt",
            LatexFontSize::ElevenPt => "11pt",
            LatexFontSize::TwelvePt => "12pt",
        };
        opening.append(fontsize);
        if self.latex_openany {
            opening.append(", openany");
        }
        opening.append("]{book}\n");
        assert(opening@ =~= self.opening());
        opening
    }

    /// Writes the options of the package that lays out the page.
    pub fn get_preamble_geometry(&self) -> (r: String)
        ensures
            r@ == self.latex_margins.geometry(),
    {
        self.latex_margins.write_geometry()
    }

    /// Writes the lines that load the packages.
    pub fn get_preamble_packages(&self) -> (r: String)
        ensures
            r@ == self.packages(),
    {
        let mut packages = String::new();
        write_plain_packages(&mut packages);
        if !self.do_not_suppress_figure_labels {
            packages.append("\n\\usepackage[labelformat=empty, font=sf]{caption}");
        }
        packages.append("\n\\usepackage[");
        let options = join_first(&self.latex_titlesec_options, self.latex_titlesec_options.len(), ", ");
        assert(self.latex_titlesec_options.deep_view().take(
            self.latex_titlesec_options.len() as int,
        ) =~= self.latex_titlesec_options.deep_view());
        packages.append(options.as_str());
        packages.append("]{titlesec}\n");
        packages.append("\n\\usepackage[normalem]{ulem}\n");
        packages.append("\n\\usepackage[overload]{textcase}\n");
        assert(packages@ =~= self.packages());
        packages
    }

    /// Writes the style of the pages that open a division.
    pub fn get_plain_layout(&self) -> (r: String)
        ensures
            r@ == self.plain_layout(),
    {
        let mut plain_layout = String::new();
        plain_layout.append("\n\\fancypagestyle{plain}{%\n");
        let commands = self.latex_plain_page_style.to_preamble_commands();
        plain_layout.append(commands.as_str());
        plain_layout.append("}\n");
        assert(plain_layout@ =~= self.plain_layout());
        plain_layout
    }

    /// Writes the style of the other pages.
    pub fn get_fancy_layout(&self) -> (r: String)
        ensures
            r@ == self.fancy_layout(),
    {
        let mut fancy_layout = String::from_str("\\pagestyle{fancy}\n");
        let commands = self.latex_fancy_page_style.to_preamble_commands();
        fancy_layout.append(commands.as_str());
        fancy_layout.append("\n");
        assert(fancy_layout@ =~= self.fancy_layout());
        fancy_layout
    }

    fn write_text_fonts(&self, fixed: &FixedPreamble, preamble: &mut String)
        ensures
            final(preamble)@ == old(preamble)@ + self.text_fonts(fixed),
    {
        let serif = match &self.latex_fonts.serif {
            Some(serif) => serif.display_main(),
            None => fixed.default_serif.display_main(),
        };
        preamble.append(serif.as_str());
        let sans = match &self.latex_fonts.sans {
            Some(sans) => sans.display_sans(),
            None => fixed.default_sans.display_sans(),
        };
        preamble.append(sans.as_str());
        if let Some(mono) = &self.latex_fonts.mono {
            let mono = mono.display_mono();
            preamble.append(mono.as_str());
        }
        assert(preamble@ =~= old(preamble)@ + self.text_fonts(fixed));
    }

    fn write_families(&self, preamble: &mut String)
        ensures
            final(preamble)@ == old(preamble)@ + self.families(),
    {
        write_family(&self.latex_fonts.titlepage, "titlepagetypeface", preamble);
        write_family(&self.latex_fonts.running, "runningtypeface", preamble);
        write_family(&self.latex_fonts.heading, "headingtypeface", preamble);
        assert(preamble@ =~= old(preamble)@ + self.families());
    }

    fn write_fixed_commands(&self, fixed: &FixedPreamble, preamble: &mut String)
        ensures
            final(preamble)@ == old(preamble)@ + self.fixed_commands(fixed),
    {
        preamble.append(fixed.housekeeping.as_str());
        preamble.append("\n");
        preamble.append(fixed.pfbreak_command.as_str());
        preamble.append("\n");
        preamble.append(fixed.new_commands_and_environments.as_str());
        preamble.append("\n");
        preamble.append(self.latex_part_format.as_str());
        preamble.append("\n");
        preamble.append("\\linespread{");
        preamble.append(self.latex_linespread.as_str());
        preamble.append("}");
        assert(preamble@ =~= old(preamble)@ + self.fixed_commands(fixed));
    }

    fn write_numbering(&self, preamble: &mut String)
        ensures
            final(preamble)@ == old(preamble)@ + self.numbering(),
    {
        preamble.append("\\setcounter{tocdepth}{3}\n");
        preamble.append(chapter_numbering_command(self.header_options.chapter_number_format));
        preamble.append(part_numbering_command(self.header_options.part_number_format));
        let ghost second = preamble@;
        if let Some(label) = &self.chapter_label {
            preamble.append("\n\\renewcommand{\\chaptername}{");
            preamble.append(label.as_str());
            preamble.append("}\n");
        }
        assert(preamble@ =~= old(preamble)@ + self.numbering());
    }

    /// Writes the preamble.
    pub fn generate_latex_preamble(&self, fixed: &FixedPreamble) -> (r: String)
        ensures
            r@ == self.preamble(fixed),
    {
        let mut preamble = self.get_preamble_opening();
        let geometry = self.get_preamble_geometry();
        preamble.append(geometry.as_str());
        preamble.append("\\usepackage{xpatch}\n");
        preamble.append(fixed.patches.as_str());
        preamble.append("\n");
        let packages = self.get_preamble_packages();
        preamble.append(packages.as_str());
        self.write_text_fonts(fixed, &mut preamble);
        self.write_families(&mut preamble);
        self.write_fixed_commands(fixed, &mut preamble);
        let plain = self.get_plain_layout();
        preamble.append(plain.as_str());
        let fancy = self.get_fancy_layout();
        preamble.append(fancy.as_str());
        self.write_numbering(&mut preamble);
        assert(preamble@ =~= self.preamble(fixed));
        preamble
    }

    /// What these choices come to for the writer of the document, around
    /// the preamble that they give.
    pub open spec fn rendered(&self, fixed: &FixedPreamble) -> RenderedOptionsView {
        RenderedOptionsView {
            publisher_imprint_logo: self.publisher_imprint_logo.deep_view(),
            header_format: self.header_options,
            preamble: self.preamble(fixed),
            page_identifier: None,
            contributor_identifier: None,
            include_toc: self.include_toc,
            latex_secnumdepth: self.latex_secnumdepth,
        }
    }

    /// The options for the writer of the document, with the preamble
    /// written.
    pub fn into_rendered(self, fixed: &FixedPreamble) -> (r: OptionsWithRenderedPreamble)
        ensures
            r.deep_view() == self.rendered(fixed),
    {
        let preamble = self.generate_latex_preamble(fixed);
        OptionsWithRenderedPreamble {
            publisher_imprint_logo: self.publisher_imprint_logo,
            header_format: self.header_options,
            preamble,
            page_identifier: None,
            contributor_identifier: None,
            include_toc: self.include_toc,
            latex_secnumdepth: self.latex_secnumdepth,
        }
    }
}

fn chapter_numbering_command(format: NumberFormat) -> (r: &'static str)
    ensures
        r@ == chapter_numbering(format),
{
    match format {
        NumberFormat::Arabic => "",
        NumberFormat::Roman => "\\renewcommand{\\thechapter}{\\Roman{chapter}}",
        NumberFormat::Words => "\\renewcommand{\\thechapter}{\\NUMBERstring{chapter}}",
        NumberFormat::Letter => "\\renewcommand{\\thechapter}{\\Alph{chapter}}",
    }
}

fn part_numbering_command(format: NumberFormat) -> (r: &'static str)
    ensures
        r@ == part_numbering(format),
{
    match format {
        NumberFormat::Arabic => "\\renewcommand{\\thepart}{\\arabic{part}}",
        NumberFormat::Roman => "",
        NumberFormat::Words => "\\renewcommand{\\thepart}{\\NUMBERstring{part}}",
        NumberFormat::Letter => "\\renewcommand{\\thepart}{\\Alph{part}}",
    }
}

fn write_family(font: &Option<LatexFont>, name: &str, preamble: &mut String)
    ensures
        final(preamble)@ == old(preamble)@ + family(*font, name@),
{
    match font {
        Some(f) => {
            let shown = f.display_new_family(name);
            preamble.append(shown.as_str());
        },
        None => {
            preamble.append("\\newcommand{\\");
            preamble.append(name);
            preamble.append("}{\\sffamily}\n");
            assert(preamble@ =~= old(preamble)@ + plain_family(name@));
        },
    }
}

} // verus!
