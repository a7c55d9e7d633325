use bookbinder::assembler::BookSrc;
use bookbinder::book_event::BookEvent;
use bookbinder::epub_pages::RenderingError;
use bookbinder::events::{CodeBlockKind, Event, LinkType, Tag};
use bookbinder::helpers::{
    collate_division_header, collate_epigraph, collate_image, collate_titlepage,
    collect_plain_until_end_of_footnote, filter_title_events, write_title_text, CollatedHeader,
    EpubMarker, LatexMarker,
};
use bookbinder::latex::{
    begin_environment, end_environment, find_delimiter, find_unresolved_image, set_counter,
    step_counter, write_plain, LatexWriter,
};
use bookbinder::latex_options::{LatexSecNumDepth, OptionsWithRenderedPreamble};
use bookbinder::metadata::Metadata;
use bookbinder::roles::{NumberFormat, SemanticRole, TitlePageContributorRole};

fn text(s: &str) -> Event {
    Event::Text(s.to_string())
}

fn token(e: Event) -> BookEvent {
    BookEvent::Event(e)
}

fn label(text: Option<&str>, number: Option<u8>, number_format: NumberFormat) -> BookEvent {
    BookEvent::DivisionHeaderLabel {
        text: text.map(|t| t.to_string()),
        number,
        number_format,
    }
}

fn plain(events: Vec<Event>) -> String {
    let mut out = String::new();
    let mut in_code = false;
    let images = vec![("pic.svg".to_string(), "/tmp/pic.png".to_string())];
    for e in events.iter() {
        write_plain(&mut out, &mut in_code, &images, e);
    }
    out
}

fn book(contents: Vec<BookEvent>) -> BookSrc {
    BookSrc {
        metadata: Metadata::new("T"),
        contents,
        expected_appendices_count: 0,
        expected_epigraph_count: 0,
    }
}

fn header(events: Vec<BookEvent>, starred: bool) -> CollatedHeader<LatexMarker> {
    let mut stream = events;
    stream.push(BookEvent::EndDivisionHeader(false));
    collate_division_header::<LatexMarker>(&stream, 0, starred).0
}

#[test]
fn environments_and_counters_stand_on_lines_of_their_own() {
    let mut out = String::from("text");
    begin_environment(&mut out, "quote");
    assert_eq!(out, "text\n\\begin{quote}\n");
    end_environment(&mut out, "quote");
    assert_eq!(out, "text\n\\begin{quote}\n\\end{quote}\n");
    let mut out = String::new();
    set_counter(&mut out, "chapter", 0);
    assert_eq!(out, "\\setcounter{chapter}{0}\n");
    let mut out = String::from("x");
    set_counter(&mut out, "secnumdepth", -1);
    assert_eq!(out, "x\n\\setcounter{secnumdepth}{-1}\n");
    let mut out = String::new();
    step_counter(&mut out, "chapter");
    assert_eq!(out, "\n\\stepcounter{chapter}\n");
}

#[test]
fn plain_tokens_are_written_as_latex() {
    assert_eq!(
        plain(vec![
            Event::Start(Tag::Paragraph),
            text("50% of "),
            Event::Start(Tag::Emphasis),
            text("it"),
            Event::End(Tag::Emphasis),
            Event::End(Tag::Paragraph),
        ]),
        "\n50\\% of \\emph{it}\n"
    );
    assert_eq!(
        plain(vec![
            Event::Start(Tag::Heading(2)),
            text("Sub"),
            Event::End(Tag::Heading(2)),
        ]),
        "\n\\subsection{Sub}\n"
    );
    assert_eq!(
        plain(vec![Event::HardBreak, Event::SoftBreak, Event::Rule]),
        "\\\\\n\n\n\\pfbreak{}\n"
    );
    assert_eq!(
        plain(vec![
            Event::Start(Tag::Link(
                LinkType::Inline,
                "http://x".to_string(),
                String::new()
            )),
            text("x"),
            Event::End(Tag::Link(
                LinkType::Inline,
                "http://x".to_string(),
                String::new()
            )),
        ]),
        "\\href{http://x}{x}"
    );
    assert_eq!(
        plain(vec![
            Event::Start(Tag::List(None)),
            Event::Start(Tag::Item),
            text("a"),
            Event::End(Tag::Item),
            Event::End(Tag::List(None)),
        ]),
        "\n\\begin{itemize}\n\\item a\n\\end{itemize}\n"
    );
    assert_eq!(
        plain(vec![Event::Html("<b>".to_string()), Event::TaskListMarker(true)]),
        ""
    );
}

#[test]
fn text_in_a_code_block_is_not_escaped() {
    assert_eq!(
        plain(vec![
            Event::Start(Tag::CodeBlock(CodeBlockKind::Indented)),
            text("a_b & c\n"),
            Event::End(Tag::CodeBlock(CodeBlockKind::Indented)),
            text("a_b"),
        ]),
        "\n\\begin{verbatim}\na_b & c\n\\end{verbatim}\na\\_b"
    );
}

#[test]
fn inline_code_goes_between_delimiters_that_it_does_not_hold() {
    assert_eq!(find_delimiter("x = 1"), Some('❡'));
    assert_eq!(find_delimiter("a ❡ b"), Some('|'));
    assert_eq!(find_delimiter("a ❡ | b"), Some('!'));
    assert_eq!(find_delimiter("❡|!®©℗™℠"), None);
    assert_eq!(
        plain(vec![Event::Code("x_1".to_string())]),
        "\\verb❡x_1❡"
    );
    assert_eq!(
        plain(vec![Event::Code("❡".to_string())]),
        "\\verb|❡|"
    );
}

#[test]
fn image_is_written_where_latex_has_a_path_to_it() {
    let image = |dest: &str| Tag::Image(LinkType::Inline, dest.to_string(), String::new());
    assert_eq!(
        plain(vec![Event::Start(image("pic.svg")), Event::End(image("pic.svg"))]),
        "\n\\begin{figure}\n\\centering\n\\includegraphics[width=\\textwidth]{/tmp/pic.png}\n\\end{figure}\n"
    );
    assert_eq!(
        plain(vec![Event::Start(image("other.bmp")), Event::End(image("other.bmp"))]),
        ""
    );
}

#[test]
fn chapter_of_the_mainmatter_is_rendered() {
    let contents = vec![
        BookEvent::BeginFrontmatter,
        BookEvent::BeginMainmatter,
        BookEvent::BeginSemantic(SemanticRole::Chapter),
        BookEvent::BeginDivisionHeader(false),
        label(Some("Chapter"), Some(1), NumberFormat::Arabic),
        token(text("Hello")),
        BookEvent::EndDivisionHeader(false),
        token(Event::Start(Tag::Paragraph)),
        token(text("Text & more")),
        token(Event::End(Tag::Paragraph)),
        BookEvent::EndSemantic(SemanticRole::Chapter),
    ];
    let b = book(contents);
    assert!(b.is_renderable());
    let tex = b.render_to_tex_standalone(None, false, Vec::new()).unwrap();
    assert_eq!(
        tex,
        "\n\\frontmatter\n\n\\suppresschapternumbersintoc\n\n\\clearpage\n\\setcounter{chapter}{0}\n\n\\pagenumbering{arabic}\n\\restorechapternumbersintoc{}\n\n\\mainmatter\n\n\\chapter{Hello}\nText \\& more\n"
    );
}

#[test]
fn document_is_wrapped_around_the_body() {
    let contents = vec![token(text("body"))];
    let mut b = book(contents);
    b.metadata.author("Ann and Bob");
    let mut options = OptionsWithRenderedPreamble::new("\\documentclass{book}".to_string());
    options.set_secnumdepth(LatexSecNumDepth::Section);
    let tex = b.render_to_tex_with_preamble(options, Vec::new()).unwrap();
    assert_eq!(
        tex,
        "\\documentclass{book}\n\\begin{document}\n\\setcounter{secnumdepth}{1}\n\n\\renewcommand{\\pageidentifier}{T}\n\\renewcommand{\\currentcontributor}{ANN and BOB}body\n\\end{document}\n"
    );
}

#[test]
fn book_with_code_that_cannot_be_delimited_is_not_renderable() {
    let b = book(vec![token(Event::Code("❡|!®©℗™℠".to_string()))]);
    assert!(!b.is_renderable());
    let b = book(vec![token(Event::Code("fine".to_string()))]);
    assert!(b.is_renderable());
}

#[test]
fn epigraphs_share_one_environment() {
    let epigraph = |quote: &str, source: Option<&str>| {
        let mut v = vec![
            BookEvent::BeginSemantic(SemanticRole::Epigraph),
            BookEvent::BeginEpigraphText,
            token(text(quote)),
            BookEvent::EndEpigraphText,
        ];
        if let Some(s) = source {
            v.push(BookEvent::BeginEpigraphSource);
            v.push(token(text(s)));
            v.push(BookEvent::EndEpigraphSource);
        }
        v.push(BookEvent::EndSemantic(SemanticRole::Epigraph));
        v
    };
    let mut contents = epigraph("one", Some("A"));
    contents.extend(epigraph("two", None));
    let mut b = book(contents);
    b.expected_epigraph_count = 2;
    let tex = b.render_to_tex_standalone(None, false, Vec::new()).unwrap();
    assert_eq!(
        tex,
        "\n\\begin{epigraphs}\none\\par\n\\vspace{1em}\\noindent\\epigraphsource{A}\n\\bigskip\ntwo\n\\end{epigraphs}\n"
    );
}

#[test]
fn first_appendix_switches_to_letters() {
    let contents = vec![
        BookEvent::BeginBackmatter,
        BookEvent::BeginSemantic(SemanticRole::Appendix),
        BookEvent::BeginDivisionHeader(false),
        token(text("Extra")),
        label(Some("Appendix"), Some(0), NumberFormat::Letter),
        BookEvent::EndDivisionHeader(false),
        BookEvent::EndSemantic(SemanticRole::Appendix),
    ];
    let mut b = book(contents);
    b.expected_appendices_count = 1;
    let tex = b.render_to_tex_standalone(None, false, Vec::new()).unwrap();
    assert_eq!(
        tex,
        "\n\\addcontentsline{toc}{part}{Appendices}\n\\setcounter{chapter}{0}\n\\renewcommand{\\thechapter}{\\Alph{chapter}}\n\n\\setchapterlabel{Appendix A}\n\\chapter{Extra}\n\\unsetchapterlabel\n\n\n\\suppresschapternumbersintoc\n"
    );
}

#[test]
fn footnote_is_written_where_it_is_referred_to() {
    let contents = vec![
        token(text("see")),
        token(Event::Start(Tag::FlattenedFootnote)),
        token(Event::Start(Tag::Paragraph)),
        token(text("note")),
        token(Event::End(Tag::Paragraph)),
        token(Event::End(Tag::FlattenedFootnote)),
        token(text(" on")),
    ];
    let tex = book(contents).render_to_tex_standalone(None, false, Vec::new()).unwrap();
    assert_eq!(tex, "see\\footnote{note\\par{}} on");
}

#[test]
fn tables_are_passed_over() {
    let contents = vec![
        token(text("a")),
        token(Event::Start(Tag::Table(vec![]))),
        token(text("cell")),
        token(Event::End(Tag::Table(vec![]))),
        token(text("b")),
    ];
    let tex = book(contents).render_to_tex_standalone(None, false, Vec::new()).unwrap();
    assert_eq!(tex, "ab");
}

#[test]
fn titlepage_is_written_with_its_contributors() {
    let contents = vec![
        BookEvent::BeginTitlePage,
        BookEvent::BeginTitlePageTitle,
        token(text("A Book")),
        BookEvent::EndTitlePageTitle,
        BookEvent::TitlePageContributors(vec![
            (
                TitlePageContributorRole::Author,
                vec!["A".to_string(), "B".to_string(), "C & D".to_string()],
            ),
            (TitlePageContributorRole::Editor, vec!["E".to_string()]),
        ]),
        BookEvent::EndTitlePage,
    ];
    let tex = book(contents).render_to_tex_standalone(Some("logo.png".to_string()), false, Vec::new()).unwrap();
    assert_eq!(
        tex,
        "\n\\begin{titlepage}\n\\begin{titlepagetitleblock}\n\\titlepagetitle{A BOOK}\n\\end{titlepagetitleblock}\n\\begin{titlepagecontributors}\n\\begin{contributorgroup}\n\n\\ctbname{A, B} \\ctband \\ctbname{C \\& D}\n\\end{contributorgroup}\n\\begin{contributorgroup}\n\n\\contributorintro{Edited by}\n\\ctbname{E}\n\\end{contributorgroup}\n\\end{titlepagecontributors}\n\\publisherlogo{logo.png}\n\\end{titlepage}\n"
    );
}

#[test]
fn label_that_the_title_begins_with_is_dropped() {
    let h = header(
        vec![
            label(Some("Chapter"), Some(1), NumberFormat::Arabic),
            token(text("CHAPTER 1: Wolves Attack!")),
        ],
        false,
    );
    assert_eq!(h.get_joined_label(), Some("Chapter 1".to_string()));
    assert_eq!(
        h.reconcile_joined_label_and_title(),
        Some((None, Some("CHAPTER 1: Wolves Attack!".to_string())))
    );
    let h = header(
        vec![
            label(Some("Chapter"), Some(1), NumberFormat::Arabic),
            token(text("Wolves Attack!")),
        ],
        false,
    );
    assert_eq!(
        h.reconcile_joined_label_and_title(),
        Some((
            Some("Chapter 1".to_string()),
            Some("Wolves Attack!".to_string())
        ))
    );
    let h = header(vec![label(Some("Chapter"), Some(1), NumberFormat::Arabic)], false);
    assert_eq!(
        h.reconcile_joined_label_and_title(),
        Some((None, Some("Chapter 1".to_string())))
    );
    let h = header(vec![], false);
    assert_eq!(h.reconcile_joined_label_and_title(), None);
}

#[test]
fn label_number_is_shown_in_its_format() {
    let number = |n: u8, f: NumberFormat| header(vec![label(None, Some(n), f)], false).get_label_number();
    assert_eq!(number(3, NumberFormat::Arabic), Some("3".to_string()));
    assert_eq!(number(3, NumberFormat::Roman), Some("III".to_string()));
    assert_eq!(number(3, NumberFormat::Words), Some("THREE".to_string()));
    assert_eq!(number(3, NumberFormat::Letter), Some("D".to_string()));
    assert_eq!(number(26, NumberFormat::Letter), Some("26".to_string()));
    assert_eq!(header(vec![label(Some("x"), None, NumberFormat::Roman)], false).get_label_number(), None);
}

#[test]
fn starred_header_has_no_joined_label() {
    let h = header(vec![label(Some("Chapter"), Some(1), NumberFormat::Arabic)], true);
    assert_eq!(h.get_joined_label(), None);
    assert_eq!(h.get_label_text(), Some("Chapter".to_string()));
    assert_eq!(h.get_label_number(), Some("1".to_string()));
    assert_eq!(h.reconcile_joined_label_and_title(), None);
    let h = header(vec![label(Some("Chapter"), Some(1), NumberFormat::Arabic)], false);
    assert_eq!(h.get_joined_label(), Some("Chapter 1".to_string()));
    let h = header(vec![label(None, Some(2), NumberFormat::Arabic)], true);
    assert_eq!(h.get_joined_label(), None);
    let h = header(vec![label(Some("A & B"), None, NumberFormat::Arabic)], false);
    assert_eq!(h.get_joined_label(), Some("A \\& B".to_string()));
}

#[test]
fn byline_joins_all_names_but_the_last() {
    let authors = |names: &[&str]| {
        header(
            vec![BookEvent::DivisionAuthors(
                names.iter().map(|n| n.to_string()).collect(),
            )],
            false,
        )
        .get_authors()
    };
    assert_eq!(authors(&[]), None);
    assert_eq!(authors(&["A"]), Some(("A".to_string(), None)));
    assert_eq!(
        authors(&["A", "B"]),
        Some(("A".to_string(), Some("B".to_string())))
    );
    assert_eq!(
        authors(&["A", "B", "C", "D"]),
        Some(("A, B, C".to_string(), Some("D".to_string())))
    );
    assert_eq!(header(vec![], false).get_authors(), None);
}

#[test]
fn title_text_is_written_for_each_format() {
    let title = vec![
        text("A < B "),
        Event::Start(Tag::Emphasis),
        text("really"),
        Event::End(Tag::Emphasis),
        Event::SoftBreak,
        Event::Start(Tag::Paragraph),
    ];
    assert_eq!(
        write_title_text::<EpubMarker>(&title),
        "A &lt; B <em>really</em>"
    );
    assert_eq!(
        write_title_text::<LatexMarker>(&title),
        "A < B \\emph{really}"
    );
    let no_text = vec![Event::Start(Tag::Strong), Event::End(Tag::Strong)];
    assert_eq!(write_title_text::<EpubMarker>(&no_text), "");
    assert_eq!(
        filter_title_events(&title),
        vec![
            text("A < B "),
            Event::Start(Tag::Emphasis),
            text("really"),
            Event::End(Tag::Emphasis),
        ]
    );
}

#[test]
fn combinators_read_to_the_end_marker_and_stop_behind_it() {
    let stream = vec![
        BookEvent::BeginEpigraphText,
        token(text("quote")),
        BookEvent::EndEpigraphText,
        token(text("stray")),
        BookEvent::BeginEpigraphSource,
        token(text("source")),
        BookEvent::EndEpigraphSource,
        BookEvent::EndSemantic(SemanticRole::Epigraph),
        token(text("after")),
    ];
    let (epigraph, next) = collate_epigraph(&stream, 0);
    assert_eq!(epigraph.text, vec![text("quote")]);
    assert_eq!(epigraph.source, vec![text("source")]);
    assert_eq!(next, 8);
    let (epigraph, next) = collate_epigraph(&stream, 8);
    assert!(epigraph.text.is_empty() && epigraph.source.is_empty());
    assert_eq!(next, 9);
    let (_, next) = collate_epigraph(&stream, 9);
    assert_eq!(next, 9);

    let stream = vec![
        token(text("a")),
        BookEvent::Null,
        token(text("b")),
        token(Event::End(Tag::FlattenedFootnote)),
        token(text("c")),
    ];
    let (tokens, next) = collect_plain_until_end_of_footnote(&stream, 0);
    assert_eq!(tokens, vec![text("a"), text("b")]);
    assert_eq!(next, 4);

    let image = Tag::Image(LinkType::Inline, "p.png".to_string(), "alt".to_string());
    let stream = vec![token(text("caption")), token(Event::End(image))];
    let (collated, next) = collate_image(&stream, 0, "p.png".to_string(), String::new());
    assert_eq!(collated.caption, Some(vec![text("caption")]));
    assert_eq!(collated.dest, "p.png");
    assert_eq!(collated.alt, None);
    assert_eq!(next, 2);
    let (collated, _) = collate_image(&stream, 1, "p.png".to_string(), "alt".to_string());
    assert_eq!(collated.caption, None);
    assert_eq!(collated.alt, Some("alt".to_string()));

    let stream = vec![
        BookEvent::BeginTitlePageTitle,
        token(text("Title")),
        BookEvent::EndTitlePageTitle,
        BookEvent::TitlePageContributors(vec![(
            TitlePageContributorRole::Translator,
            vec!["T".to_string()],
        )]),
        BookEvent::EndTitlePage,
    ];
    let (page, next) = collate_titlepage(&stream, 0);
    assert_eq!(page.title, vec![text("TITLE")]);
    assert_eq!(page.subtitle, None);
    assert_eq!(
        page.contributors,
        Some(vec![(Some("Translated by"), vec!["T".to_string()])])
    );
    assert_eq!(next, 5);
}

#[test]
fn writer_keeps_count_of_what_it_has_seen() {
    let mut writer = LatexWriter::new(0, 2, None, true, Vec::new());
    let stream = vec![
        BookEvent::BeginSemantic(SemanticRole::Copyrightpage),
        BookEvent::EndSemantic(SemanticRole::Copyrightpage),
        BookEvent::BeginSemantic(SemanticRole::Appendix),
        BookEvent::EndSemantic(SemanticRole::Appendix),
    ];
    writer.write(&stream);
    assert_eq!(writer.seen_appendices, 1);
    assert_eq!(writer.current_division, None);
    assert_eq!(
        writer.output,
        "\n\\begin{copyrightpage}\n\\end{copyrightpage}\n\n\\tableofcontents\n"
    );
}

#[test]
fn image_without_a_path_ends_the_rendering() {
    let image = || Tag::Image(LinkType::Inline, "figure.svg".to_string(), String::new());
    let contents = vec![
        BookEvent::BeginMainmatter,
        token(Event::Start(Tag::Paragraph)),
        token(Event::Start(image())),
        token(text("a figure")),
        token(Event::End(image())),
        token(Event::End(Tag::Paragraph)),
    ];
    assert_eq!(
        book(contents).render_to_tex_standalone(None, false, Vec::new()),
        Err(RenderingError::UnsupportedImage("figure.svg".to_string()))
    );
    let contents = vec![
        BookEvent::BeginMainmatter,
        token(Event::Start(image())),
        token(Event::End(image())),
    ];
    let paths = vec![("figure.svg".to_string(), "/tmp/figure.png".to_string())];
    let tex = book(contents)
        .render_to_tex_standalone(None, false, paths)
        .unwrap();
    assert!(tex.contains("\\includegraphics[width=\\textwidth]{/tmp/figure.png}"));
    assert_eq!(
        find_unresolved_image(
            &vec!["a.png".to_string(), "b.png".to_string(), "c.png".to_string()],
            &vec![("a.png".to_string(), "a.png".to_string())]
        ),
        Some("b.png".to_string())
    );
    assert_eq!(find_unresolved_image(&Vec::new(), &Vec::new()), None);
}
