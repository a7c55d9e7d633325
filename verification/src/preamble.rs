//! The parts of a LaTeX preamble that are made of choices: running headers
//! and footers, the paper, and the typefaces.

use crate::text::{drop_last_chars, ends_with, without_last};
use vstd::prelude::*;
use vstd::string::*;

verus! {

/// What stands in a running header or footer: left, centre and right, on
/// even and on odd pages.
#[derive(Debug, PartialEq, Eq)]
pub struct RunningHeader {
    pub left_even: Option<String>,
    pub left_odd: Option<String>,
    pub centre_even: Option<String>,
    pub centre_odd: Option<String>,
    pub right_even: Option<String>,
    pub right_odd: Option<String>,
}

/// What a `RunningHeader` holds, as mathematics.
pub struct RunningHeaderView {
    pub left_even: Option<Seq<char>>,
    pub left_odd: Option<Seq<char>>,
    pub centre_even: Option<Seq<char>>,
    pub centre_odd: Option<Seq<char>>,
    pub right_even: Option<Seq<char>>,
    pub right_odd: Option<Seq<char>>,
}

impl DeepView for RunningHeader {
    type V = RunningHeaderView;

    open spec fn deep_view(&self) -> RunningHeaderView {
        RunningHeaderView {
            left_even: self.left_even.deep_view(),
            left_odd: self.left_odd.deep_view(),
            centre_even: self.centre_even.deep_view(),
            centre_odd: self.centre_odd.deep_view(),
            right_even: self.right_even.deep_view(),
            right_odd: self.right_odd.deep_view(),
        }
    }
}

/// A running header with nothing in it.
pub open spec fn blank_running() -> RunningHeaderView {
    RunningHeaderView {
        left_even: None,
        left_odd: None,
        centre_even: None,
        centre_odd: None,
        right_even: None,
        right_odd: None,
    }
}

/// The command that sets one place of a running header or footer.
pub open spec fn running_command(cmd: Seq<char>, code: Seq<char>, text: Option<Seq<char>>) -> Seq<
    char,
> {
    match text {
        Some(t) => cmd + "["@ + code + "]"@ + "{{"@ + t + "}}\n"@,
        None => cmd + "["@ + code + "]"@ + "{}\n"@,
    }
}

/// The command that sets headers, or the one that sets footers.
pub open spec fn running_macro(is_footer: bool) -> Seq<char> {
    if is_footer {
        "\\fancyfoot"@
    } else {
        "\\fancyhead"@
    }
}

impl RunningHeaderView {
    /// The commands that set every place of this header or footer.
    pub open spec fn preamble_commands(self, is_footer: bool) -> Seq<char> {
        let cmd = running_macro(is_footer);
        running_command(cmd, "LE"@, self.left_even) + running_command(cmd, "LO"@, self.left_odd)
            + running_command(cmd, "CE"@, self.centre_even) + running_command(
            cmd,
            "CO"@,
            self.centre_odd,
        ) + running_command(cmd, "RE"@, self.right_even) + running_command(
            cmd,
            "RO"@,
            self.right_odd,
        )
    }
}

fn write_running(out: &mut String, cmd: &str, code: &str, text: &Option<String>)
    ensures
        final(out)@ == old(out)@ + running_command(cmd@, code@, text.deep_view()),
{
    out.append(cmd);
    out.append("[");
    out.append(code);
    out.append("]");
    match text {
        Some(t) => {
            out.append("{{");
            out.append(t.as_str());
            out.append("}}\n");
        },
        None => {
            out.append("{}\n");
        },
    }
    assert(out@ =~= old(out)@ + running_command(cmd@, code@, text.deep_view()));
}

impl Default for RunningHeader {
    fn default() -> (r: Self)
        ensures
            r.deep_view() == blank_running(),
    {
        RunningHeader {
            left_even: None,
            left_odd: None,
            centre_even: None,
            centre_odd: None,
            right_even: None,
            right_odd: None,
        }
    }
}

impl RunningHeader {
    /// The commands that set every place of this header or footer.
    pub fn to_preamble_commands(&self, is_footer: bool) -> (r: String)
        ensures
            r@ == self.deep_view().preamble_commands(is_footer),
    {
        let cmd = if is_footer {
            "\\fancyfoot"
        } else {
            "\\fancyhead"
        };
        let mut out = String::new();
        write_running(&mut out, cmd, "LE", &self.left_even);
        write_running(&mut out, cmd, "LO", &self.left_odd);
        write_running(&mut out, cmd, "CE", &self.centre_even);
        write_running(&mut out, cmd, "CO", &self.centre_odd);
        write_running(&mut out, cmd, "RE", &self.right_even);
        write_running(&mut out, cmd, "RO", &self.right_odd);
        assert(out@ =~= self.deep_view().preamble_commands(is_footer));
        out
    }
}

/// The running header and footer of a page style.
#[derive(Debug, PartialEq, Eq)]
pub struct LatexPageStyle {
    pub header: RunningHeader,
    pub footer: RunningHeader,
}

/// What a `LatexPageStyle` holds, as mathematics.
pub struct LatexPageStyleView {
    pub header: RunningHeaderView,
    pub footer: RunningHeaderView,
}

impl DeepView for LatexPageStyle {
    type V = LatexPageStyleView;

    open spec fn deep_view(&self) -> LatexPageStyleView {
        LatexPageStyleView { header: self.header.deep_view(), footer: self.footer.deep_view() }
    }
}

/// The page style with nothing in header or footer.
pub open spec fn empty_style() -> LatexPageStyleView {
    LatexPageStyleView { header: blank_running(), footer: blank_running() }
}

/// The page style with the page number at the outer edge of the footer.
pub open spec fn plain_style() -> LatexPageStyleView {
    LatexPageStyleView {
        header: blank_running(),
        footer: RunningHeaderView {
            left_even: Some("\\runningtypeface \\thepage"@),
            right_odd: Some("\\runningtypeface \\thepage"@),
            ..blank_running()
        },
    }
}

/// The page style with page number and contributor on even pages, and the
/// title and page number on odd pages.
pub open spec fn fancy_style() -> LatexPageStyleView {
    LatexPageStyleView {
        header: blank_running(),
        footer: RunningHeaderView {
            left_even: Some("\\runningtypeface \\thepage\\footerseperator\\currentcontributor"@),
            right_odd: Some(
                "\\runningtypeface \\MakeUppercase{\\pageidentifier}\\footerseperator\\thepage"@,
            ),
            ..blank_running()
        },
    }
}

impl LatexPageStyle {
    /// The commands that set header and footer.
    pub fn to_preamble_commands(&self) -> (r: String)
        ensures
            r@ == self.deep_view().header.preamble_commands(false) + "\n"@
                + self.deep_view().footer.preamble_commands(true),
    {
        let mut header_commands = self.header.to_preamble_commands(false);
        let footer_commands = self.footer.to_preamble_commands(true);
        header_commands.append("\n");
        header_commands.append(footer_commands.as_str());
        header_commands
    }

    /// Empties header and footer.
    pub fn make_empty(&mut self)
        ensures
            final(self).deep_view() == empty_style(),
    {
        *self = LatexPageStyle::empty();
    }

    /// Leaves only the page number.
    pub fn make_plain(&mut self)
        ensures
            final(self).deep_view() == plain_style(),
    {
        *self = LatexPageStyle::default_plain();
    }

    /// The page style with nothing in header or footer.
    pub fn empty() -> (r: Self)
        ensures
            r.deep_view() == empty_style(),
    {
        LatexPageStyle { header: RunningHeader::default(), footer: RunningHeader::default() }
    }

    /// The page style with the page number alone.
    pub fn default_plain() -> (r: Self)
        ensures
            r.deep_view() == plain_style(),
    {
        let header = RunningHeader::default();
        let mut footer = RunningHeader::default();
        footer.left_even = Some(String::from_str("\\runningtypeface \\thepage"));
        footer.right_odd = Some(String::from_str("\\runningtypeface \\thepage"));
        LatexPageStyle { header, footer }
    }

    /// The page style with contributor, title and page number.
    pub fn default_fancy() -> (r: Self)
        ensures
            r.deep_view() == fancy_style(),
    {
        let header = RunningHeader::default();
        let mut footer = RunningHeader::default();
        footer.left_even = Some(
            String::from_str("\\runningtypeface \\thepage\\footerseperator\\currentcontributor"),
        );
        footer.right_odd = Some(
            String::from_str(
                "\\runningtypeface \\MakeUppercase{\\pageidentifier}\\footerseperator\\thepage",
            ),
        );
        LatexPageStyle { header, footer }
    }
}

/// The unit of a measurement.
#[derive(Debug, PartialEq, Eq, Structural, Clone, Copy)]
pub enum MeasurementUnit {
    Inches,
    Mm,
}

/// The size of the paper.
#[derive(Debug, PartialEq, Eq, Structural, Clone, Copy)]
pub enum PaperSize {
    Inches5x8,
    Inches5_25x8,
    Inches5_5x8_5,
    Inches6x9,
    A4Paper,
    USLetter,
    USLegal,
}

impl Default for PaperSize {
    fn default() -> (r: Self)
        ensures
            r == PaperSize::Inches6x9,
    {
        PaperSize::Inches6x9
    }
}

impl PaperSize {
    /// The unit in which the margins of this paper are given.
    pub fn unit(self) -> (r: MeasurementUnit)
        ensures
            r == if self == PaperSize::A4Paper {
                MeasurementUnit::Mm
            } else {
                MeasurementUnit::Inches
            },
    {
        match self {
            PaperSize::A4Paper => MeasurementUnit::Mm,
            _ => MeasurementUnit::Inches,
        }
    }
}

/// The size of the type.
#[derive(Debug, PartialEq, Eq, Structural, Clone, Copy)]
pub enum LatexFontSize {
    TenPt,
    ElevenPt,
    TwelvePt,
}

impl Default for LatexFontSize {
    fn default() -> (r: Self)
        ensures
            r == LatexFontSize::TwelvePt,
    {
        LatexFontSize::TwelvePt
    }
}

/// A typeface: one that the system knows by name, or one in files.
#[derive(Debug, PartialEq, Eq)]
pub enum LatexFont {
    Named(String),
    FromFile {
        filename: String,
        bold: String,
        italic: String,
        path: Option<String>,
        bolditalic: Option<String>,
        smallcaps: Option<String>,
    },
}

/// What a `LatexFont` holds, as mathematics.
pub enum LatexFontView {
    Named(Seq<char>),
    FromFile {
        filename: Seq<char>,
        bold: Seq<char>,
        italic: Seq<char>,
        path: Option<Seq<char>>,
        bolditalic: Option<Seq<char>>,
        smallcaps: Option<Seq<char>>,
    },
}

impl DeepView for LatexFont {
    type V = LatexFontView;

    open spec fn deep_view(&self) -> LatexFontView {
        match self {
            LatexFont::Named(n) => LatexFontView::Named(n@),
            LatexFont::FromFile { filename, bold, italic, path, bolditalic, smallcaps } => {
                LatexFontView::FromFile {
                    filename: filename@,
                    bold: bold@,
                    italic: italic@,
                    path: path.deep_view(),
                    bolditalic: bolditalic.deep_view(),
                    smallcaps: smallcaps.deep_view(),
                }
            },
        }
    }
}

/// A line of the options of a typeface, or nothing.
pub open spec fn font_option(name: Seq<char>, value: Option<Seq<char>>, end: Seq<char>) -> Seq<
    char,
> {
    match value {
        Some(v) => name + v + end,
        None => Seq::empty(),
    }
}

/// A typeface whose options end the list gets one more option; one without
/// a list gets a list of this option.
pub open spec fn scaled(shown: Seq<char>, scale: Seq<char>) -> Seq<char> {
    if " ]"@.is_suffix_of(shown) {
        without_last(shown, 2) + ",\n\tScale="@ + scale + " ]"@
    } else {
        shown + "[Scale="@ + scale + "]\n"@
    }
}

impl LatexPageStyleView {
    /// The commands that set header and footer.
    pub open spec fn commands(self) -> Seq<char> {
        self.header.preamble_commands(false) + "\n"@ + self.footer.preamble_commands(true)
    }
}

impl LatexFontView {
    /// The command that makes this the main typeface.
    pub open spec fn main_font(self) -> Seq<char> {
        "\\setmainfont"@ + self.shown() + "\n"@
    }

    /// The command that makes this a family of its own under a name.
    pub open spec fn new_family(self, name: Seq<char>) -> Seq<char> {
        scaled("\\newfontfamily\\"@ + name + self.shown(), "MatchUppercase"@)
    }

    /// The command that makes this the sans typeface.
    pub open spec fn sans_font(self) -> Seq<char> {
        scaled("\\setsansfont"@ + self.shown(), "MatchLowercase"@)
    }

    /// The command that makes this the typeface of code.
    pub open spec fn mono_font(self) -> Seq<char> {
        scaled("\\setmonofont"@ + self.shown(), "MatchLowercase"@)
    }

    /// The typeface as the font commands take it: its name in braces, and
    /// for a typeface in files the list of its faces.
    pub open spec fn shown(self) -> Seq<char> {
        match self {
            LatexFontView::Named(n) => "{"@ + n + "}"@,
            LatexFontView::FromFile { filename, bold, italic, path, bolditalic, smallcaps } => {
                without_last(
                    "{"@ + filename + "}[\n"@ + ("\tBoldFont = "@ + bold + ",\n"@) + (
                    "\tItalicFont = "@ + italic + ",\n"@) + font_option(
                        "\tBoldItalicFont = "@,
                        bolditalic,
                        ",\n"@,
                    ) + font_option("\tSmallCapsFont = "@, smallcaps, ",\n"@) + font_option(
                        "\tPath = "@,
                        path,
                        "/ ,\n"@,
                    ),
                    2,
                ) + " ]"@
            },
        }
    }
}

fn write_font_option(out: &mut String, name: &str, value: &Option<String>, end: &str)
    ensures
        final(out)@ == old(out)@ + font_option(name@, value.deep_view(), end@),
{
    match value {
        Some(v) => {
            out.append(name);
            out.append(v.as_str());
            out.append(end);
            assert(out@ =~= old(out)@ + font_option(name@, value.deep_view(), end@));
        },
        None => {
            assert(out@ =~= old(out)@ + font_option(name@, value.deep_view(), end@));
        },
    }
}

fn with_scale(shown: String, by: &str) -> (r: String)
    ensures
        r@ == scaled(shown@, by@),
{
    if ends_with(shown.as_str(), " ]") {
        let mut out = drop_last_chars(shown, 2);
        out.append(",\n\tScale=");
        out.append(by);
        out.append(" ]");
        out
    } else {
        let mut out = shown;
        out.append("[Scale=");
        out.append(by);
        out.append("]\n");
        out
    }
}

impl LatexFont {
    /// A typeface that the system knows by name.
    pub fn named(name: &str) -> (r: Self)
        ensures
            r.deep_view() == LatexFontView::Named(name@),
    {
        LatexFont::Named(String::from_str(name))
    }

    /// The typeface as the font commands take it.
    pub fn display(&self) -> (r: String)
        ensures
            r@ == self.deep_view().shown(),
    {
        match self {
            LatexFont::Named(n) => {
                let mut out = String::from_str("{");
                out.append(n.as_str());
                out.append("}");
                out
            },
            LatexFont::FromFile { filename, path, bold, italic, bolditalic, smallcaps } => {
                let mut output = String::from_str("{");
                output.append(filename.as_str());
                output.append("}[\n");
                let mut line = String::from_str("\tBoldFont = ");
                line.append(bold.as_str());
                line.append(",\n");
                output.append(line.as_str());
                let mut line = String::from_str("\tItalicFont = ");
                line.append(italic.as_str());
                line.append(",\n");
                output.append(line.as_str());
                write_font_option(&mut output, "\tBoldItalicFont = ", bolditalic, ",\n");
                write_font_option(&mut output, "\tSmallCapsFont = ", smallcaps, ",\n");
                write_font_option(&mut output, "\tPath = ", path, "/ ,\n");
                let mut output = drop_last_chars(output, 2);
                output.append(" ]");
                output
            },
        }
    }

    /// The command that makes this the main typeface.
    pub fn display_main(&self) -> (r: String)
        ensures
            r@ == "\\setmainfont"@ + self.deep_view().shown() + "\n"@,
    {
        let mut out = String::from_str("\\setmainfont");
        let shown = self.display();
        out.append(shown.as_str());
        out.append("\n");
        out
    }

    /// The command that makes this a typeface family of its own, scaled to
    /// the capitals of the main typeface.
    pub fn display_new_family(&self, name: &str) -> (r: String)
        ensures
            r@ == scaled("\\newfontfamily\\"@ + name@ + self.deep_view().shown(), "MatchUppercase"@),
    {
        let mut out = String::from_str("\\newfontfamily\\");
        out.append(name);
        let shown = self.display();
        out.append(shown.as_str());
        with_scale(out, "MatchUppercase")
    }

    /// The command that makes this the sans typeface, scaled to the small
    /// letters of the main typeface.
    pub fn display_sans(&self) -> (r: String)
        ensures
            r@ == scaled("\\setsansfont"@ + self.deep_view().shown(), "MatchLowercase"@),
    {
        let mut out = String::from_str("\\setsansfont");
        let shown = self.display();
        out.append(shown.as_str());
        with_scale(out, "MatchLowercase")
    }

    /// The command that makes this the typeface of code, scaled to the
    /// small letters of the main typeface.
    pub fn display_mono(&self) -> (r: String)
        ensures
            r@ == scaled("\\setmonofont"@ + self.deep_view().shown(), "MatchLowercase"@),
    {
        let mut out = String::from_str("\\setmonofont");
        let shown = self.display();
        out.append(shown.as_str());
        with_scale(out, "MatchLowercase")
    }
}

/// The typefaces of a book.
#[derive(Debug)]
pub struct LatexFonts {
    pub sans: Option<LatexFont>,
    pub serif: Option<LatexFont>,
    pub mono: Option<LatexFont>,
    pub titlepage: Option<LatexFont>,
    pub running: Option<LatexFont>,
    pub heading: Option<LatexFont>,
}

/// What the typefaces of a book hold, as mathematics.
pub struct LatexFontsView {
    pub sans: Option<LatexFontView>,
    pub serif: Option<LatexFontView>,
    pub mono: Option<LatexFontView>,
    pub titlepage: Option<LatexFontView>,
    pub running: Option<LatexFontView>,
    pub heading: Option<LatexFontView>,
}

impl DeepView for LatexFonts {
    type V = LatexFontsView;

    open spec fn deep_view(&self) -> LatexFontsView {
        LatexFontsView {
            sans: self.sans.deep_view(),
            serif: self.serif.deep_view(),
            mono: self.mono.deep_view(),
            titlepage: self.titlepage.deep_view(),
            running: self.running.deep_view(),
            heading: self.heading.deep_view(),
        }
    }
}

impl Default for LatexFonts {
    fn default() -> (r: Self)
        ensures
            r.sans is None,
            r.serif is None,
            r.mono is None,
            r.titlepage is None,
            r.running is None,
            r.heading is None,
    {
        LatexFonts {
            sans: None,
            serif: None,
            mono: None,
            titlepage: None,
            running: None,
            heading: None,
        }
    }
}

} // verus!
