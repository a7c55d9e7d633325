use bookbinder::assembler::get_current_year;
use bookbinder::book_event::{from_event, try_into_event, BookEvent};
use bookbinder::builder::{make_epigraph_source_text, BookSrcBuilder};
use bookbinder::bundle::replace_links;
use bookbinder::events::{Event, LinkType, Tag};
use bookbinder::footnotes::{flatten_footnotes, parse_plain};
use bookbinder::isbn::display_isbn;
use bookbinder::latex_options::{LatexSecNumDepth, OptionsWithRenderedPreamble};
use bookbinder::metadata::{ContributorSource, Metadata};
use bookbinder::preamble::{
    LatexFont, LatexFontSize, LatexFonts, LatexPageStyle, MeasurementUnit, PaperSize,
    RunningHeader,
};
use bookbinder::roles::{
    HeaderFormat, NumberFormat, SemanticRole, TextHeaderOptions, TitlePageContributorRole,
};
use bookbinder::sections::is_dividable;
use bookbinder::titlepage::{map_events, TitleEvent};
use bookbinder::tokens::{
    is_title_closed, make_paragraphs_unindented, make_uppercase, parse_inline_plain,
    remove_initial_title,
};
use bookbinder::unified::UnifiedOptions;

fn text(s: &str) -> Event {
    Event::Text(s.to_string())
}

fn unified() -> UnifiedOptions {
    UnifiedOptions {
        css: None,
        cover_image: None,
        titlepage: None,
        publisher_imprint_logo: None,
        titlepage_typeface: None,
        use_words_for_chapter_labels: false,
        use_roman_numerals_for_chapter_labels: false,
        suppress_chapter_labels: false,
        suppress_chapter_titles: false,
        only_number_chapters: false,
        open_any: false,
        secnumdepth: None,
        sans_typeface: None,
        serif_typeface: None,
        mono_typeface: None,
        headers_and_footers_typeface: None,
        heading_typeface: None,
        include_toc: false,
        suppress_footers: false,
        page_number_only_in_footers: false,
        do_not_suppress_figure_labels: false,
        ten_pt: false,
        eleven_pt: false,
        twelve_pt: false,
        five_by_eight_inches: false,
        five_twenty_five_by_eight_inches: false,
        five_five_by_eight_five_inches: false,
        six_by_nine_inches: false,
        a4paper: false,
        usletter: false,
        uslegal: false,
        chapter_label: None,
        linespread: None,
    }
}

#[test]
fn remove_title() {
    let mut tokens = vec![
        Event::Start(Tag::Heading(1)),
        Event::Text("Hello ".to_string()),
        Event::Start(Tag::Emphasis),
        Event::Text("world".to_string()),
        Event::End(Tag::Emphasis),
        Event::End(Tag::Heading(1)),
        Event::Start(Tag::Paragraph),
        Event::Text("Boring old text".to_string()),
        Event::End(Tag::Paragraph),
    ];
    let title = remove_initial_title(&mut tokens);
    let expected_title = vec![
        Event::Text("Hello ".to_string()),
        Event::Start(Tag::Emphasis),
        Event::Text("world".to_string()),
        Event::End(Tag::Emphasis),
    ];
    assert_eq!(title, Some(expected_title));
    assert_eq!(
        tokens,
        vec![
            Event::Start(Tag::Paragraph),
            Event::Text("Boring old text".to_string()),
            Event::End(Tag::Paragraph),
        ]
    );
}

#[test]
fn fragment_without_a_leading_heading_has_no_title() {
    let mut tokens = vec![text("x"), Event::Start(Tag::Heading(1)), Event::End(Tag::Heading(1))];
    assert_eq!(remove_initial_title(&mut tokens), None);
    assert_eq!(tokens.len(), 3);
    let mut empty: Vec<Event> = Vec::new();
    assert_eq!(remove_initial_title(&mut empty), None);
    let mut only_title = vec![Event::Start(Tag::Heading(1)), Event::End(Tag::Heading(1))];
    assert_eq!(remove_initial_title(&mut only_title), Some(vec![]));
    assert!(only_title.is_empty());
    assert!(is_title_closed(&vec![text("x")]));
    assert!(!is_title_closed(&vec![Event::Start(Tag::Heading(1)), text("x")]));
}

#[test]
fn test_replace_links() {
    let text = "<a>Link A</a> <a id=\"i\">Link B</a> <abbrev>A</abbrev>";
    assert_eq!(replace_links(text), "Link A Link B <abbrev>A</abbrev>");
    let no_links = "Hello World";
    assert_eq!(replace_links(no_links), no_links);
}

#[test]
fn footnotes_are_flattened_where_they_are_referred_to() {
    let events = vec![
        Event::Start(Tag::Paragraph),
        Event::Text("Hello".into()),
        Event::FootnoteReference("1".into()),
        Event::End(Tag::Paragraph),
        Event::Start(Tag::FootnoteDefinition("1".into())),
        Event::Start(Tag::Paragraph),
        Event::Text("World".into()),
        Event::End(Tag::Paragraph),
        Event::End(Tag::FootnoteDefinition("1".into())),
    ];
    let expected = vec![
        Event::Start(Tag::Paragraph),
        Event::Text("Hello".into()),
        Event::Start(Tag::FlattenedFootnote),
        Event::Text("World".into()),
        Event::End(Tag::FlattenedFootnote),
        Event::End(Tag::Paragraph),
    ];
    assert_eq!(flatten_footnotes(events.clone()), expected);
    assert_eq!(parse_plain(events), expected);
}

#[test]
fn reference_without_a_definition_is_an_empty_footnote() {
    let events = vec![
        Event::FootnoteReference("a".into()),
        Event::FootnoteReference("a".into()),
        Event::FootnoteReference("b".into()),
        Event::Start(Tag::FootnoteDefinition("a".into())),
        text("first"),
        Event::End(Tag::FootnoteDefinition("a".into())),
        Event::Start(Tag::FootnoteDefinition("a".into())),
        Event::Start(Tag::Paragraph),
        text("second"),
        Event::End(Tag::Paragraph),
        text("more"),
        Event::End(Tag::FootnoteDefinition("a".into())),
    ];
    assert_eq!(
        flatten_footnotes(events),
        vec![
            Event::Start(Tag::FlattenedFootnote),
            Event::Start(Tag::Paragraph),
            text("second"),
            Event::End(Tag::Paragraph),
            text("more"),
            Event::End(Tag::FlattenedFootnote),
            Event::Start(Tag::FlattenedFootnote),
            text(""),
            Event::End(Tag::FlattenedFootnote),
            Event::Start(Tag::FlattenedFootnote),
            text(""),
            Event::End(Tag::FlattenedFootnote),
        ]
    );
    let plain = vec![text("no notes"), Event::Start(Tag::FootnoteDefinition("a".into()))];
    assert_eq!(parse_plain(plain.clone()), plain);
}

#[test]
fn line_of_text_keeps_text_and_inline_formatting() {
    let link = Tag::Link(LinkType::Inline, "u".to_string(), String::new());
    let tokens = vec![
        Event::Start(Tag::Paragraph),
        text("a"),
        Event::Start(Tag::Emphasis),
        text("b"),
        Event::End(Tag::Emphasis),
        Event::SoftBreak,
        Event::Start(Tag::List(None)),
        text("dropped"),
        Event::Start(Tag::Strong),
        Event::End(Tag::List(None)),
        Event::Start(link.clone()),
        text("c"),
        Event::End(link.clone()),
        Event::Code("code".to_string()),
        Event::End(Tag::Paragraph),
    ];
    assert_eq!(
        parse_inline_plain(tokens),
        vec![
            text("a"),
            Event::Start(Tag::Emphasis),
            text("b"),
            Event::End(Tag::Emphasis),
            Event::Start(link.clone()),
            text("c"),
            Event::End(link),
        ]
    );
}

#[test]
fn text_is_put_in_capitals_but_not_inside_code_or_links() {
    let link = Tag::Link(LinkType::Inline, "u".to_string(), String::new());
    let mut tokens = vec![
        text("straße"),
        Event::Start(link.clone()),
        text("kept"),
        Event::End(link.clone()),
        text("again"),
        Event::End(Tag::SmallCaps),
        text("below"),
        Event::Code("code".to_string()),
    ];
    make_uppercase(&mut tokens);
    assert_eq!(
        tokens,
        vec![
            text("STRASSE"),
            Event::Start(link.clone()),
            text("kept"),
            Event::End(link),
            text("AGAIN"),
            Event::End(Tag::SmallCaps),
            text("below"),
            Event::Code("code".to_string()),
        ]
    );
    let mut paragraphs = vec![
        Event::Start(Tag::Paragraph),
        text("x"),
        Event::End(Tag::Paragraph),
        Event::Start(Tag::UnindentedParagraph),
    ];
    make_paragraphs_unindented(&mut paragraphs);
    assert_eq!(
        paragraphs,
        vec![
            Event::Start(Tag::UnindentedParagraph),
            text("x"),
            Event::End(Tag::UnindentedParagraph),
            Event::Start(Tag::UnindentedParagraph),
        ]
    );
}

#[test]
fn display_isbn_trims_the_number_and_drops_a_leading_thirteen() {
    assert_eq!(
        display_isbn("ISBN 13 9781492067665  ", None),
        Ok("ISBN-13: 9781492067665".to_string())
    );
    assert_eq!(
        display_isbn("978-1-4920-6766-5 \t", Some("paperback")),
        Ok("ISBN-13: 978-1-4920-6766-5 (paperback)".to_string())
    );
}

#[test]
fn current_year_is_a_year() {
    let year = get_current_year();
    assert_eq!(year.len(), 4);
    assert!(year.chars().all(|c| c.is_ascii_digit()));
    assert!(year.as_str() >= "2020");
}

#[test]
fn copyright_page_is_generated_for_the_current_year() {
    let mut builder = BookSrcBuilder::new("T");
    builder.author("Ann");
    builder.do_not_generate_halftitle();
    builder.do_not_generate_titlepage();
    let book = builder.process(|s: &str| vec![Event::Text(s.to_string())]);
    let expected = format!(
        "Copyright © {y} Ann  \nThe author's moral rights have been asserted  \n\n\n* * *\n\nFirst published {y}  \n",
        y = get_current_year()
    );
    assert!(book.contents.contains(&BookEvent::Event(text(&expected))));
}

#[test]
fn copyright_page_text_names_rights_publication_and_credits() {
    let mut m = Metadata::new("T");
    assert_eq!(m.get_copyright_page_text("2020"), "First published 2020  \n");
    m.author("Ann");
    m.author(vec!["Bob".to_string()]);
    m.publisher("Press");
    m.publisher_address("1 Street");
    m.publisher_url("press.example");
    m.epub_isbn("978-1-4920-6766-5");
    m.hardback_isbn("not an isbn");
    m.cover_designer("Cat");
    m.print_location("Town");
    m.is_not_first_publication();
    assert_eq!(
        m.get_copyright_page_text("2020"),
        "Copyright © 2020 Ann, Bob  \nThe moral rights of the authors have been asserted  \n\n\n* * *\n\nThis edition published 2020 by Press  \n1 Street  \n```press.example```\n\n* * *\n\nISBN-13: 978-1-4920-6766-5 (epub)  \nCover design by Cat\n\n* * *\n\nPrinted in Town"
    );
    let mut m = Metadata::new("T");
    m.copyright_statement("All rights reserved");
    m.do_not_assert_moral_rights();
    m.print_location("Town");
    assert_eq!(
        m.get_copyright_page_text("1999"),
        "All rights reserved  \n\n\n* * *\n\nFirst published 1999  \n\n\n* * *\n\nPrinted in Town"
    );
}

#[test]
fn metadata_names_its_authors() {
    let mut m = Metadata::new("Long Title");
    assert_eq!(m.get_authors(), None);
    assert_eq!(m.uppercased_authors(), None);
    assert_eq!(m.get_short_title(), "Long Title");
    assert_eq!(m.get_title(), "Long Title");
    assert_eq!(m.get_subtitle(), None);
    assert!(m.has_no_introduction_authors());
    m.author("Ann");
    assert_eq!(m.get_authors(), Some("Ann".to_string()));
    assert_eq!(m.uppercased_authors(), Some("ANN".to_string()));
    m.author(vec!["Bob", "Cy"]);
    m.shorttitle("Short");
    m.subtitle("Sub");
    m.editor("Ed".to_string());
    m.add_introduction_authors(vec!["Ian".to_string()]);
    assert_eq!(m.get_authors(), Some("Ann, Bob, Cy".to_string()));
    assert_eq!(m.uppercased_authors(), Some("ANN, BOB and CY".to_string()));
    assert_eq!(m.get_short_title(), "Short");
    assert_eq!(m.get_subtitle(), Some("Sub"));
    assert!(!m.has_no_introduction_authors());
    assert_eq!(
        m.get_titlepage_contributors(),
        vec![
            (
                TitlePageContributorRole::Author,
                vec!["Ann".to_string(), "Bob".to_string(), "Cy".to_string()]
            ),
            (TitlePageContributorRole::Editor, vec!["Ed".to_string()]),
            (
                TitlePageContributorRole::IntroductionAuthor,
                vec!["Ian".to_string()]
            ),
        ]
    );
}

#[test]
fn contributor_source_is_one_name_or_several() {
    let single_name = "Name One";
    let multiple_names = vec!["Name One", "Name Two"];
    assert!(single_name.is_single_name());
    assert_eq!(multiple_names.is_single_name(), false);
    assert_eq!(single_name.to_vec(), vec!["Name One".to_string()]);
    assert_eq!(
        multiple_names.clone().to_vec(),
        vec!["Name One".to_string(), "Name Two".to_string()]
    );
    assert_eq!(single_name.to_single(), Some("Name One".to_string()));
    assert_eq!(multiple_names.to_single(), None);
    assert_eq!("x".to_string().to_single(), Some("x".to_string()));
    assert_eq!(vec!["x".to_string()].to_single(), None);
}

#[test]
fn roles_have_their_labels() {
    assert_eq!(SemanticRole::Titlepage.get_label(), None);
    assert_eq!(SemanticRole::Introduction.get_label(), Some("Introduction"));
    assert_eq!(SemanticRole::Chapter.get_label(), Some("Chapter"));
    assert_eq!(TitlePageContributorRole::Author.get_label(), None);
    assert_eq!(
        TitlePageContributorRole::IntroductionAndNotesAuthor.get_label(),
        Some("With an introduction and notes by")
    );
    assert_eq!(NumberFormat::default(), NumberFormat::Arabic);
    assert_eq!(HeaderFormat::default(), HeaderFormat::LabelAndNumberAndTitle);
    let options = TextHeaderOptions::default();
    assert_eq!(options.part_number_format, NumberFormat::Roman);
    assert_eq!(options.chapter_number_format, NumberFormat::Arabic);
}

#[test]
fn token_goes_into_a_book_event_and_back() {
    assert_eq!(from_event(text("x")), BookEvent::Event(text("x")));
    assert_eq!(try_into_event(BookEvent::Event(text("x"))), Ok(text("x")));
    assert_eq!(try_into_event(BookEvent::Null), Err(()));
    assert_eq!(try_into_event(BookEvent::BeginMainmatter), Err(()));
}

#[test]
fn copyright_page_that_is_set_is_not_generated() {
    let mut builder = BookSrcBuilder::new("T");
    builder.do_not_generate_halftitle();
    builder.do_not_generate_titlepage();
    builder.add_copyright_page(
        vec![Event::Start(Tag::Paragraph), text("mine"), Event::End(Tag::Paragraph)],
        None,
    );
    let book = builder.process(|s: &str| vec![Event::Text(s.to_string())]);
    assert_eq!(
        book.contents,
        vec![
            BookEvent::BeginFrontmatter,
            BookEvent::BeginSemantic(SemanticRole::Copyrightpage),
            BookEvent::Event(Event::Start(Tag::UnindentedParagraph)),
            BookEvent::Event(text("mine")),
            BookEvent::Event(Event::End(Tag::UnindentedParagraph)),
            BookEvent::EndSemantic(SemanticRole::Copyrightpage),
            BookEvent::BeginMainmatter,
        ]
    );
}

#[test]
fn source_of_an_epigraph_names_author_and_title() {
    assert_eq!(make_epigraph_source_text(None, None, true), None);
    assert_eq!(
        make_epigraph_source_text(Some("Ann"), None, false),
        Some("<span class=\"smallcaps\">Ann</span>".to_string())
    );
    assert_eq!(
        make_epigraph_source_text(Some("Ann"), Some("Work"), false),
        Some("<span class=\"smallcaps\">Ann</span>, *Work*".to_string())
    );
    assert_eq!(
        make_epigraph_source_text(None, Some("Work"), true),
        Some("‘Work’".to_string())
    );
}

#[test]
fn mainmatter_with_too_many_chapters_cannot_be_divided() {
    let mut tokens = Vec::new();
    for _ in 0..255 {
        tokens.push(Event::Start(Tag::Heading(1)));
        tokens.push(Event::End(Tag::Heading(1)));
    }
    assert!(is_dividable(&tokens));
    tokens.push(Event::Start(Tag::Heading(1)));
    assert!(!is_dividable(&tokens));
    assert!(!is_dividable(&vec![Event::Start(Tag::Heading(u32::MAX))]));
    assert!(is_dividable(&vec![Event::End(Tag::Heading(u32::MAX - 2))]));
}

#[test]
fn title_runs_are_marked_where_they_are_emphasised() {
    let runs = map_events(&vec![
        text("A & "),
        Event::Start(Tag::Emphasis),
        text("B"),
        Event::End(Tag::Emphasis),
        Event::Start(Tag::Strong),
        text("C"),
    ]);
    assert_eq!(
        runs,
        vec![
            TitleEvent::Text("A &amp; ".to_string()),
            TitleEvent::Emphasised("B".to_string()),
            TitleEvent::Text("C".to_string()),
        ]
    );
}

#[test]
fn unified_options_come_to_the_options_of_each_format() {
    let mut u = unified();
    u.css = Some("s.css".to_string());
    u.sans_typeface = Some("Sans".to_string());
    u.suppress_chapter_titles = true;
    u.suppress_chapter_labels = true;
    u.use_words_for_chapter_labels = true;
    u.use_roman_numerals_for_chapter_labels = true;
    u.secnumdepth = Some(7);
    u.include_toc = true;
    u.chapter_label = Some("Letter".to_string());
    let epub = u.epub_options();
    assert_eq!(epub.css, Some("s.css".to_string()));
    assert_eq!(epub.titlepage_typeface, Some("Sans".to_string()));
    assert_eq!(epub.chapter_label, Some("Letter".to_string()));
    assert_eq!(epub.header_options.chapter_header_format, HeaderFormat::TitleAlone);
    assert_eq!(epub.header_options.chapter_number_format, NumberFormat::Roman);
    assert_eq!(epub.header_options.part_number_format, NumberFormat::Roman);
    let latex = u.latex_options("pre".to_string());
    assert_eq!(latex.preamble, "pre");
    assert!(latex.include_toc);
    assert_eq!(latex.latex_secnumdepth, LatexSecNumDepth::Subparagraph);
    assert_eq!(latex.header_format, epub.header_options);
    assert_eq!(u.paper_size(), PaperSize::Inches6x9);
    assert_eq!(u.font_size(), LatexFontSize::TwelvePt);
    assert_eq!(u.page_style(), LatexPageStyle::default_fancy());
    u.a4paper = true;
    u.uslegal = true;
    u.eleven_pt = true;
    u.twelve_pt = true;
    u.page_number_only_in_footers = true;
    assert_eq!(u.paper_size(), PaperSize::A4Paper);
    assert_eq!(u.paper_size().unit(), MeasurementUnit::Mm);
    assert_eq!(u.font_size(), LatexFontSize::ElevenPt);
    assert_eq!(u.page_style(), LatexPageStyle::default_plain());
    u.suppress_footers = true;
    u.only_number_chapters = true;
    assert_eq!(u.page_style(), LatexPageStyle::empty());
    assert_eq!(
        u.epub_options().header_options.chapter_header_format,
        HeaderFormat::NumberAlone
    );
}

#[test]
fn section_numbering_depth_is_a_counter() {
    assert_eq!(LatexSecNumDepth::Part.as_counter(), -1);
    assert_eq!(LatexSecNumDepth::Subparagraph.as_counter(), 5);
    assert_eq!(LatexSecNumDepth::from_counter(-3), LatexSecNumDepth::Part);
    assert_eq!(LatexSecNumDepth::from_counter(0), LatexSecNumDepth::Chapter);
    assert_eq!(LatexSecNumDepth::from_counter(3), LatexSecNumDepth::Subsubsection);
    assert_eq!(LatexSecNumDepth::from_counter(9), LatexSecNumDepth::Subparagraph);
    assert_eq!(LatexSecNumDepth::default(), LatexSecNumDepth::Chapter);
    let mut options = OptionsWithRenderedPreamble::new(String::new());
    options.suppress_chapter_titles();
    assert_eq!(options.header_format.chapter_header_format, HeaderFormat::LabelAlone);
    options.suppress_chapter_label();
    assert_eq!(options.header_format.chapter_header_format, HeaderFormat::TitleAlone);
    options.only_number_chapters();
    assert_eq!(options.header_format.chapter_header_format, HeaderFormat::NumberAlone);
    options.include_toc();
    options.set_publisher_logo("logo.png");
    let mut m = Metadata::new(" Title ");
    m.author("Ann and Bob");
    m.author("Cy");
    options.set_running_footers_from_metadata(&m);
    assert!(options.include_toc);
    assert_eq!(options.publisher_imprint_logo, Some("logo.png".to_string()));
    assert_eq!(options.page_identifier, Some(" Title ".to_string()));
    assert_eq!(options.contributor_identifier, Some("ANN and BOB, CY".to_string()));
}

#[test]
fn running_headers_and_page_styles_are_written_as_commands() {
    let mut header = RunningHeader::default();
    header.centre_odd = Some("x".to_string());
    assert_eq!(
        header.to_preamble_commands(true),
        "\\fancyfoot[LE]{}\n\\fancyfoot[LO]{}\n\\fancyfoot[CE]{}\n\\fancyfoot[CO]{{x}}\n\\fancyfoot[RE]{}\n\\fancyfoot[RO]{}\n"
    );
    let mut style = LatexPageStyle::default_fancy();
    style.make_plain();
    assert_eq!(style, LatexPageStyle::default_plain());
    assert_eq!(
        style.to_preamble_commands(),
        "\\fancyhead[LE]{}\n\\fancyhead[LO]{}\n\\fancyhead[CE]{}\n\\fancyhead[CO]{}\n\\fancyhead[RE]{}\n\\fancyhead[RO]{}\n\n\\fancyfoot[LE]{{\\runningtypeface \\thepage}}\n\\fancyfoot[LO]{}\n\\fancyfoot[CE]{}\n\\fancyfoot[CO]{}\n\\fancyfoot[RE]{}\n\\fancyfoot[RO]{{\\runningtypeface \\thepage}}\n"
    );
    style.make_empty();
    assert_eq!(style, LatexPageStyle::empty());
    assert_eq!(PaperSize::default(), PaperSize::Inches6x9);
    assert_eq!(LatexFontSize::default(), LatexFontSize::TwelvePt);
}

#[test]
fn typefaces_are_written_as_font_commands() {
    let named = LatexFont::named("Comic Sans");
    assert_eq!(named.display(), "{Comic Sans}");
    assert_eq!(named.display_main(), "\\setmainfont{Comic Sans}\n");
    assert_eq!(
        named.display_sans(),
        "\\setsansfont{Comic Sans}[Scale=MatchLowercase]\n"
    );
    assert_eq!(
        named.display_new_family("headingtypeface"),
        "\\newfontfamily\\headingtypeface{Comic Sans}[Scale=MatchUppercase]\n"
    );
    let files = LatexFont::FromFile {
        filename: "F.otf".to_string(),
        bold: "F-Bold.otf".to_string(),
        italic: "F-It.otf".to_string(),
        path: Some("/fonts".to_string()),
        bolditalic: None,
        smallcaps: Some("F-SC.otf".to_string()),
    };
    assert_eq!(
        files.display(),
        "{F.otf}[\n\tBoldFont = F-Bold.otf,\n\tItalicFont = F-It.otf,\n\tSmallCapsFont = F-SC.otf,\n\tPath = /fonts/  ]"
    );
    assert_eq!(
        files.display_mono(),
        "\\setmonofont{F.otf}[\n\tBoldFont = F-Bold.otf,\n\tItalicFont = F-It.otf,\n\tSmallCapsFont = F-SC.otf,\n\tPath = /fonts/ ,\n\tScale=MatchLowercase ]"
    );
    let fonts = LatexFonts::default();
    assert!(fonts.serif.is_none() && fonts.heading.is_none());
}
