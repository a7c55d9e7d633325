use bookbinder::latex_options::LatexSecNumDepth;
use bookbinder::preamble::{LatexFont, PaperSize};
use bookbinder::preamble_options::{
    write_length, FixedPreamble, FontPlace, LatexMargins, PreambleOptions,
};
use bookbinder::roles::{HeaderFormat, NumberFormat};
use bookbinder::unified::{is_installed, UnifiedOptions};

fn fixed() -> FixedPreamble {
    FixedPreamble {
        patches: String::from("%patches"),
        housekeeping: String::from("%housekeeping"),
        pfbreak_command: String::from("%pfbreak"),
        new_commands_and_environments: String::from("%new"),
        default_serif: LatexFont::named("Default Serif"),
        default_sans: LatexFont::named("Default Sans"),
    }
}

fn nothing_chosen() -> UnifiedOptions {
    UnifiedOptions {
        css: None,
        cover_image: None,
        titlepage: None,
        publisher_imprint_logo: None,
        titlepage_typeface: None,
        use_words_for_chapter_labels: false,
        use_roman_numerals_for_chapter_labels: false,
        suppress_chapter_labels: false,
        suppress_chapter_titles: false,
        only_number_chapters: false,
        open_any: false,
        secnumdepth: None,
        sans_typeface: None,
        serif_typeface: None,
        mono_typeface: None,
        headers_and_footers_typeface: None,
        heading_typeface: None,
        include_toc: false,
        suppress_footers: false,
        page_number_only_in_footers: false,
        do_not_suppress_figure_labels: false,
        ten_pt: false,
        eleven_pt: false,
        twelve_pt: false,
        five_by_eight_inches: false,
        five_twenty_five_by_eight_inches: false,
        five_five_by_eight_five_inches: false,
        six_by_nine_inches: false,
        a4paper: false,
        usletter: false,
        uslegal: false,
        chapter_label: None,
        linespread: None,
    }
}

#[test]
fn lengths_are_written_as_decimal_numbers() {
    assert_eq!(write_length(0), "0");
    assert_eq!(write_length(5000), "5");
    assert_eq!(write_length(5250), "5.25");
    assert_eq!(write_length(875), "0.875");
    assert_eq!(write_length(400), "0.4");
    assert_eq!(write_length(210000), "210");
    assert_eq!(write_length(1001), "1.001");
    assert_eq!(write_length(1010), "1.01");
    assert_eq!(write_length(4294967295), "4294967.295");
}

#[test]
fn geometry_of_each_paper() {
    assert_eq!(
        LatexMargins::of_paper(PaperSize::Inches6x9).write_geometry(),
        "\n\\usepackage[\npapersize={6in, 9in},\nvmargin={0.5in, 1in},\nleft=0.875in,\nright=0.75in\n]{geometry}"
    );
    assert_eq!(
        LatexMargins::of_paper(PaperSize::A4Paper).write_geometry(),
        "\n\\usepackage[\npapersize={210mm, 297mm},\nvmargin={20mm, 30mm},\nleft=40mm,\nright=30mm\n]{geometry}"
    );
    assert_eq!(
        LatexMargins::of_paper(PaperSize::Inches5_25x8).write_geometry(),
        "\n\\usepackage[\npapersize={5.25in, 8in},\nvmargin={0.4in, 0.8in},\nleft=0.875in,\nright=0.75in\n]{geometry}"
    );
    assert_eq!(
        LatexMargins::of_paper(PaperSize::USLegal).write_geometry(),
        "\n\\usepackage[\npapersize={8.5in, 14in},\nvmargin={1in, 1.4in},\nleft=1.4in,\nright=1.4in\n]{geometry}"
    );
    assert_eq!(
        LatexMargins::default(),
        LatexMargins::of_paper(PaperSize::Inches6x9)
    );
}

#[test]
fn opening_names_the_class_and_its_options() {
    let mut options = PreambleOptions::default();
    assert_eq!(options.get_preamble_opening(), "\\documentclass[12pt]{book}\n");
    options.ten_pt();
    options.open_any();
    assert_eq!(
        options.get_preamble_opening(),
        "\\documentclass[10pt, openany]{book}\n"
    );
    options.eleven_pt();
    assert_eq!(
        options.get_preamble_opening(),
        "\\documentclass[11pt, openany]{book}\n"
    );
}

#[test]
fn packages_are_loaded_in_their_order() {
    let mut options = PreambleOptions::default();
    let packages = options.get_preamble_packages();
    assert!(packages.starts_with("\n\\usepackage{amsmath}\n\\usepackage{amssymb}\n\\usepackage{bookmark}"));
    assert!(packages.ends_with("\n\\usepackage{fmtcount}\n\\usepackage[labelformat=empty, font=sf]{caption}\n\\usepackage[center, sf, small, uppercase]{titlesec}\n\n\\usepackage[normalem]{ulem}\n\n\\usepackage[overload]{textcase}\n"));
    assert_eq!(packages.matches("\\usepackage").count(), 23);
    options.do_not_suppress_figure_labels();
    assert!(!options.get_preamble_packages().contains("caption"));
}

#[test]
fn preamble_of_the_default_options() {
    let options = PreambleOptions::default();
    let preamble = options.generate_latex_preamble(&fixed());
    let expected_start = "\\documentclass[12pt]{book}\n\n\\usepackage[\npapersize={6in, 9in},\nvmargin={0.5in, 1in},\nleft=0.875in,\nright=0.75in\n]{geometry}\\usepackage{xpatch}\n%patches\n\n\\usepackage{amsmath}";
    assert!(preamble.starts_with(expected_start));
    let expected_end = "\\setmainfont{Default Serif}\n\\setsansfont{Default Sans}[Scale=MatchLowercase]\n\\newcommand{\\titlepagetypeface}{\\sffamily}\n\\newcommand{\\runningtypeface}{\\sffamily}\n\\newcommand{\\headingtypeface}{\\sffamily}\n%housekeeping\n%pfbreak\n%new\n\\titleformat{\\part}[display]{\\headingtypeface\\Huge}{\\itshape Part \\thepart}{1em}{\\thispagestyle{empty}}{}\n\\linespread{1.1}";
    assert!(preamble.contains(expected_end));
    assert!(preamble.ends_with("\\setcounter{tocdepth}{3}\n"));
    let layout = format!(
        "\\linespread{{1.1}}{}{}\\setcounter{{tocdepth}}{{3}}\n",
        options.get_plain_layout(),
        options.get_fancy_layout()
    );
    assert!(preamble.ends_with(&layout));
    assert!(options.get_plain_layout().starts_with("\n\\fancypagestyle{plain}{%\n"));
    assert!(options.get_plain_layout().ends_with("}\n"));
    assert!(options.get_fancy_layout().starts_with("\\pagestyle{fancy}\n"));
}

#[test]
fn numbering_and_label_of_chapters_in_the_preamble() {
    let mut options = PreambleOptions::default();
    options.use_words_for_chapter_labels();
    options.chapter_label("Canto");
    let preamble = options.generate_latex_preamble(&fixed());
    assert!(preamble.ends_with("\\setcounter{tocdepth}{3}\n\\renewcommand{\\thechapter}{\\NUMBERstring{chapter}}\n\\renewcommand{\\chaptername}{Canto}\n"));
    let mut options = PreambleOptions::default();
    options.use_roman_numerals_for_chapter_labels();
    options.header_options.part_number_format = NumberFormat::Arabic;
    let preamble = options.generate_latex_preamble(&fixed());
    assert!(preamble.ends_with("\\setcounter{tocdepth}{3}\n\\renewcommand{\\thechapter}{\\Roman{chapter}}\\renewcommand{\\thepart}{\\arabic{part}}"));
    let mut options = PreambleOptions::default();
    options.header_options.chapter_number_format = NumberFormat::Letter;
    options.header_options.part_number_format = NumberFormat::Letter;
    let preamble = options.generate_latex_preamble(&fixed());
    assert!(preamble.ends_with("\\renewcommand{\\thechapter}{\\Alph{chapter}}\\renewcommand{\\thepart}{\\Alph{part}}"));
}

#[test]
fn typefaces_are_set_where_they_are_installed() {
    let mut options = PreambleOptions::default();
    options.set_serif_typeface(LatexFont::named("Missing"), false);
    assert!(options.latex_fonts.serif.is_none());
    options.set_serif_typeface(LatexFont::named("Minion Pro"), true);
    options.set_sans_typeface(LatexFont::named("Gill Sans"), true);
    options.set_mono_typeface(LatexFont::named("Courier"), true);
    options.set_titlepage_typeface(LatexFont::named("Title Face"), true);
    options.set_headers_and_footers_typeface(LatexFont::named("Running Face"), true);
    options.set_heading_typeface(
        LatexFont::FromFile {
            filename: String::from("Head.otf"),
            bold: String::from("Head-Bold.otf"),
            italic: String::from("Head-Italic.otf"),
            path: None,
            bolditalic: None,
            smallcaps: None,
        },
        false,
    );
    options.set_typeface(FontPlace::Mono, LatexFont::named("Other"), false);
    let preamble = options.generate_latex_preamble(&fixed());
    assert!(preamble.contains("\\setmainfont{Minion Pro}\n\\setsansfont{Gill Sans}[Scale=MatchLowercase]\n\\setmonofont{Courier}[Scale=MatchLowercase]\n\\newfontfamily\\titlepagetypeface{Title Face}[Scale=MatchUppercase]\n\\newfontfamily\\runningtypeface{Running Face}[Scale=MatchUppercase]\n\\newfontfamily\\headingtypeface{Head.otf}[\n\tBoldFont = Head-Bold.otf,\n\tItalicFont = Head-Italic.otf,\n\tScale=MatchUppercase ]%housekeeping"));
}

#[test]
fn logo_must_be_there_and_be_an_image() {
    let mut options = PreambleOptions::default();
    assert_eq!(
        options.set_publisher_logo("logo.png", false),
        Err(String::from("Error setting logo path: logo.png"))
    );
    assert_eq!(
        options.set_publisher_logo("logo.txt", true),
        Err(String::from("Error setting logo path: logo.txt"))
    );
    assert!(options.publisher_imprint_logo.is_none());
    assert!(options.set_publisher_logo("logo.png", true).is_ok());
    assert_eq!(options.publisher_imprint_logo.as_deref(), Some("logo.png"));
}

#[test]
fn choices_for_both_formats_come_to_choices_for_the_preamble() {
    let mut choices = nothing_chosen();
    choices.open_any = true;
    choices.chapter_label = Some(String::from("Canto"));
    choices.linespread = Some(String::from("1.25"));
    choices.secnumdepth = Some(2);
    choices.serif_typeface = Some(String::from("Minion Pro"));
    choices.sans_typeface = Some(String::from("Not There"));
    choices.include_toc = true;
    choices.page_number_only_in_footers = true;
    choices.eleven_pt = true;
    choices.twelve_pt = true;
    choices.a4paper = true;
    choices.uslegal = true;
    choices.suppress_chapter_titles = true;
    choices.only_number_chapters = true;
    let installed = vec![String::from("Minion Pro")];
    assert!(is_installed(&installed, "Minion Pro"));
    assert!(!is_installed(&installed, "Not There"));
    let options = choices.preamble_options(Some(String::from("logo.png")), &installed);
    assert!(options.latex_openany);
    assert_eq!(options.chapter_label.as_deref(), Some("Canto"));
    assert_eq!(options.latex_linespread, "1.25");
    assert_eq!(options.latex_secnumdepth, LatexSecNumDepth::Subsection);
    assert_eq!(
        options.latex_fonts.serif,
        Some(LatexFont::named("Minion Pro"))
    );
    assert!(options.latex_fonts.sans.is_none());
    assert!(options.include_toc);
    assert_eq!(
        options.latex_margins,
        LatexMargins::of_paper(PaperSize::A4Paper)
    );
    assert_eq!(
        options.header_options.chapter_header_format,
        HeaderFormat::NumberAlone
    );
    assert_eq!(options.publisher_imprint_logo.as_deref(), Some("logo.png"));
    assert_eq!(
        options.get_preamble_opening(),
        "\\documentclass[11pt, openany]{book}\n"
    );
    let mut plain = PreambleOptions::default();
    plain.page_number_only_in_footers();
    assert_eq!(options.get_plain_layout(), plain.get_plain_layout());
    assert_eq!(options.get_fancy_layout(), plain.get_fancy_layout());
    let rendered = options.into_rendered(&fixed());
    assert!(rendered.include_toc);
    assert_eq!(rendered.latex_secnumdepth, LatexSecNumDepth::Subsection);
    assert!(rendered.preamble.contains("\\linespread{1.25}"));
    assert!(rendered.preamble.contains("papersize={210mm, 297mm}"));
    assert_eq!(rendered.publisher_imprint_logo.as_deref(), Some("logo.png"));
}

#[test]
fn nothing_chosen_gives_the_default_preamble() {
    let options = nothing_chosen().preamble_options(None, &Vec::new());
    assert_eq!(
        options.generate_latex_preamble(&fixed()),
        PreambleOptions::default().generate_latex_preamble(&fixed())
    );
    let mut suppressed = nothing_chosen();
    suppressed.suppress_footers = true;
    suppressed.page_number_only_in_footers = true;
    let options = suppressed.preamble_options(None, &Vec::new());
    let mut empty = PreambleOptions::default();
    empty.suppress_footers();
    assert_eq!(options.get_fancy_layout(), empty.get_fancy_layout());
}
