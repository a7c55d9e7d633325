use bookbinder::assembler::{BookSrc, Generated};
use bookbinder::book_event::BookEvent;
use bookbinder::builder::BookSrcBuilder;
use bookbinder::events::{Event, Tag};
use bookbinder::roles::{HeaderFormat, NumberFormat, SemanticRole, TextHeaderOptions};
use bookbinder::sections::{divide_into_sections, StepLevel};

fn text(s: &str) -> Event {
    Event::Text(s.to_string())
}

fn heading(level: u32, title: &str) -> Vec<Event> {
    vec![
        Event::Start(Tag::Heading(level)),
        text(title),
        Event::End(Tag::Heading(level)),
    ]
}

fn paragraph(s: &str) -> Vec<Event> {
    vec![
        Event::Start(Tag::Paragraph),
        text(s),
        Event::End(Tag::Paragraph),
    ]
}

fn line(s: &str) -> Vec<Event> {
    paragraph(s)
}

fn generated(title: &str) -> Generated {
    Generated {
        title: line(title),
        subtitle: None,
        halftitle: line(title),
        copyright_title: line(title),
        copyright_text: paragraph("First published 2020"),
    }
}

fn hello_book() -> BookSrc {
    let mut builder = BookSrcBuilder::new("A Book");
    let mut main = heading(1, "Hello");
    main.extend(paragraph("Text"));
    builder.add_mainmatter(main);
    builder.assemble(generated("A Book"))
}

fn chapter_label(n: u8) -> BookEvent {
    BookEvent::DivisionHeaderLabel {
        text: Some("Chapter".to_string()),
        number: Some(n),
        number_format: NumberFormat::Arabic,
    }
}

fn part_label(n: u8) -> BookEvent {
    BookEvent::DivisionHeaderLabel {
        text: Some("Part".to_string()),
        number: Some(n),
        number_format: NumberFormat::Roman,
    }
}

fn is_balanced(stream: &[BookEvent]) -> bool {
    let mut stack: Vec<String> = Vec::new();
    for e in stream {
        let (open, name) = match e {
            BookEvent::BeginSemantic(r) => (Some(true), format!("{:?}", r)),
            BookEvent::EndSemantic(r) => (Some(false), format!("{:?}", r)),
            BookEvent::BeginDivisionHeader(_) => (Some(true), "header".to_string()),
            BookEvent::EndDivisionHeader(_) => (Some(false), "header".to_string()),
            BookEvent::BeginTitlePage => (Some(true), "titlepage".to_string()),
            BookEvent::EndTitlePage => (Some(false), "titlepage".to_string()),
            BookEvent::BeginTitlePageTitle => (Some(true), "title".to_string()),
            BookEvent::EndTitlePageTitle => (Some(false), "title".to_string()),
            BookEvent::BeginTitlePageSubTitle => (Some(true), "subtitle".to_string()),
            BookEvent::EndTitlePageSubTitle => (Some(false), "subtitle".to_string()),
            BookEvent::BeginEpigraphText => (Some(true), "epigraph text".to_string()),
            BookEvent::EndEpigraphText => (Some(false), "epigraph text".to_string()),
            BookEvent::BeginEpigraphSource => (Some(true), "epigraph source".to_string()),
            BookEvent::EndEpigraphSource => (Some(false), "epigraph source".to_string()),
            _ => (None, String::new()),
        };
        match open {
            Some(true) => stack.push(name),
            Some(false) => {
                if stack.pop() != Some(name) {
                    return false;
                }
            }
            None => {}
        }
    }
    stack.is_empty()
}

#[test]
fn simple_book_is_assembled_in_order() {
    let book = hello_book();
    let expected = vec![
        BookEvent::BeginFrontmatter,
        BookEvent::BeginSemantic(SemanticRole::Halftitle),
        BookEvent::BeginDivisionHeader(false),
        BookEvent::Event(text("A BOOK")),
        BookEvent::EndDivisionHeader(false),
        BookEvent::EndSemantic(SemanticRole::Halftitle),
        BookEvent::BeginTitlePage,
        BookEvent::BeginTitlePageTitle,
        BookEvent::Event(text("A Book")),
        BookEvent::EndTitlePageTitle,
        BookEvent::TitlePageContributors(vec![]),
        BookEvent::EndTitlePage,
        BookEvent::BeginSemantic(SemanticRole::Copyrightpage),
        BookEvent::Event(Event::Start(Tag::UnindentedParagraph)),
        BookEvent::Event(Event::Start(Tag::Sans)),
        BookEvent::Event(Event::Start(Tag::Strong)),
        BookEvent::Event(text("A BOOK")),
        BookEvent::Event(Event::End(Tag::Strong)),
        BookEvent::Event(Event::End(Tag::Sans)),
        BookEvent::Event(Event::End(Tag::UnindentedParagraph)),
        BookEvent::Event(Event::Start(Tag::UnindentedParagraph)),
        BookEvent::Event(text("First published 2020")),
        BookEvent::Event(Event::End(Tag::UnindentedParagraph)),
        BookEvent::EndSemantic(SemanticRole::Copyrightpage),
        BookEvent::BeginMainmatter,
        BookEvent::BeginSemantic(SemanticRole::Chapter),
        BookEvent::BeginDivisionHeader(false),
        chapter_label(1),
        BookEvent::Event(text("Hello")),
        BookEvent::EndDivisionHeader(false),
        BookEvent::Event(Event::Start(Tag::Paragraph)),
        BookEvent::Event(text("Text")),
        BookEvent::Event(Event::End(Tag::Paragraph)),
        BookEvent::EndSemantic(SemanticRole::Chapter),
    ];
    assert_eq!(book.contents, expected);
    assert_eq!(book.expected_epigraph_count, 0);
    assert_eq!(book.expected_appendices_count, 0);
    assert_eq!(book.metadata.title, "A Book");
}

#[test]
fn title_alone_erases_the_chapter_label() {
    let mut book = hello_book();
    let before = book.contents.clone();
    let mut format = TextHeaderOptions::default();
    format.suppress_chapter_labels();
    assert_eq!(format.chapter_header_format, HeaderFormat::TitleAlone);
    book.change_headers(format);
    assert_eq!(book.contents.len(), before.len());
    for (i, (old, new)) in before.iter().zip(book.contents.iter()).enumerate() {
        if *old == chapter_label(1) {
            assert_eq!(*new, BookEvent::Null, "at {}", i);
        } else {
            assert_eq!(old, new, "at {}", i);
        }
    }
    assert!(book.contents.contains(&BookEvent::Event(text("Hello"))));
    assert!(!book.contents.contains(&chapter_label(1)));
}

#[test]
fn default_header_format_changes_nothing_of_a_chapter() {
    let mut book = hello_book();
    let before = book.contents.clone();
    book.change_headers(TextHeaderOptions::default());
    assert_eq!(book.contents, before);
}

#[test]
fn label_alone_erases_the_title_and_sets_the_number_format() {
    let mut book = hello_book();
    let mut format = TextHeaderOptions::default();
    format.suppress_chapter_titles();
    format.use_roman_numerals_for_chapter_labels();
    book.change_headers(format);
    let at = book
        .contents
        .iter()
        .position(|e| matches!(e, BookEvent::BeginSemantic(SemanticRole::Chapter)))
        .unwrap();
    assert_eq!(
        book.contents[at + 2],
        BookEvent::DivisionHeaderLabel {
            text: Some("Chapter".to_string()),
            number: Some(1),
            number_format: NumberFormat::Roman,
        }
    );
    assert_eq!(book.contents[at + 3], BookEvent::Null);
    assert_eq!(book.contents[at + 6], BookEvent::Event(text("Text")));
}

#[test]
fn number_and_title_clears_the_label_text() {
    let mut book = hello_book();
    let mut format = TextHeaderOptions::default();
    format.chapter_header_format = HeaderFormat::NumberAndTitle;
    format.use_words_for_chapter_labels();
    book.change_headers(format);
    assert!(book.contents.contains(&BookEvent::DivisionHeaderLabel {
        text: None,
        number: Some(1),
        number_format: NumberFormat::Words,
    }));
    assert!(book.contents.contains(&BookEvent::Event(text("Hello"))));
}

#[test]
fn only_number_chapters_erases_the_title() {
    let mut book = hello_book();
    let mut format = TextHeaderOptions::default();
    format.only_number_chapters();
    book.change_headers(format);
    assert!(!book.contents.contains(&BookEvent::Event(text("Hello"))));
    assert!(book.contents.contains(&chapter_label(1)));
}

#[test]
fn label_alone_clears_the_number_of_a_part_but_not_of_a_chapter() {
    let mut main = heading(1, "One");
    main.extend(heading(2, "First"));
    let mut contents = divide_into_sections(main);
    let mut format = TextHeaderOptions::default();
    format.part_header_format = HeaderFormat::LabelAlone;
    format.chapter_header_format = HeaderFormat::LabelAlone;
    bookbinder::headers::change_headers_in(&mut contents, format);
    assert_eq!(
        contents[2],
        BookEvent::DivisionHeaderLabel {
            text: Some("Part".to_string()),
            number: None,
            number_format: NumberFormat::Roman,
        }
    );
    assert_eq!(contents[3], BookEvent::Null);
    assert!(contents.contains(&chapter_label(1)));
    assert!(!contents.contains(&BookEvent::Event(text("First"))));
}

#[test]
fn chapters_are_numbered_continuously_across_parts() {
    let mut main = Vec::new();
    main.extend(heading(1, "Part the first"));
    main.extend(heading(2, "a"));
    main.extend(paragraph("text"));
    main.extend(heading(2, "b"));
    main.extend(heading(1, "Part the second"));
    main.extend(heading(2, "c"));
    main.extend(heading(2, "d"));
    let divided = divide_into_sections(main);
    let chapters: Vec<u8> = divided
        .iter()
        .filter_map(|e| match e {
            BookEvent::DivisionHeaderLabel {
                text: Some(t),
                number: Some(n),
                ..
            } if t == "Chapter" => Some(*n),
            _ => None,
        })
        .collect();
    assert_eq!(chapters, vec![1, 2, 3, 4]);
    let parts: Vec<BookEvent> = divided
        .iter()
        .filter(|e| matches!(e, BookEvent::DivisionHeaderLabel { number_format: NumberFormat::Roman, .. }))
        .cloned()
        .collect();
    assert_eq!(parts, vec![part_label(1), part_label(2)]);
    assert!(is_balanced(&divided));
}

#[test]
fn level_one_headings_alone_become_chapters() {
    let mut main = Vec::new();
    main.extend(heading(1, "a"));
    main.extend(heading(3, "deeper"));
    main.extend(heading(1, "b"));
    assert_eq!(StepLevel::get(&main), StepLevel::TopToChapter);
    let divided = divide_into_sections(main);
    let expected = vec![
        BookEvent::BeginSemantic(SemanticRole::Chapter),
        BookEvent::BeginDivisionHeader(false),
        chapter_label(1),
        BookEvent::Event(text("a")),
        BookEvent::EndDivisionHeader(false),
        BookEvent::Event(Event::Start(Tag::Heading(4))),
        BookEvent::Event(text("deeper")),
        BookEvent::Event(Event::End(Tag::Heading(4))),
        BookEvent::EndSemantic(SemanticRole::Chapter),
        BookEvent::BeginSemantic(SemanticRole::Chapter),
        BookEvent::BeginDivisionHeader(false),
        chapter_label(2),
        BookEvent::Event(text("b")),
        BookEvent::EndDivisionHeader(false),
        BookEvent::EndSemantic(SemanticRole::Chapter),
    ];
    assert_eq!(divided, expected);
}

#[test]
fn level_one_and_two_headings_become_parts_and_chapters() {
    let mut main = Vec::new();
    main.extend(heading(1, "p"));
    main.extend(heading(2, "c"));
    main.extend(heading(3, "s"));
    assert_eq!(StepLevel::get(&main), StepLevel::TopToParts);
    let divided = divide_into_sections(main);
    let expected = vec![
        BookEvent::BeginSemantic(SemanticRole::Part),
        BookEvent::BeginDivisionHeader(false),
        part_label(1),
        BookEvent::Event(text("p")),
        BookEvent::EndDivisionHeader(false),
        BookEvent::EndSemantic(SemanticRole::Part),
        BookEvent::BeginSemantic(SemanticRole::Chapter),
        BookEvent::BeginDivisionHeader(false),
        chapter_label(1),
        BookEvent::Event(text("c")),
        BookEvent::EndDivisionHeader(false),
        BookEvent::Event(Event::Start(Tag::Heading(5))),
        BookEvent::Event(text("s")),
        BookEvent::Event(Event::End(Tag::Heading(5))),
        BookEvent::EndSemantic(SemanticRole::Chapter),
    ];
    assert_eq!(divided, expected);
}

#[test]
fn mainmatter_without_headings_is_passed_through() {
    let divided = divide_into_sections(paragraph("alone"));
    assert_eq!(
        divided,
        vec![
            BookEvent::Event(Event::Start(Tag::Paragraph)),
            BookEvent::Event(text("alone")),
            BookEvent::Event(Event::End(Tag::Paragraph)),
        ]
    );
    assert_eq!(divide_into_sections(Vec::new()), Vec::new());
}

#[test]
fn parts_are_assembled_in_canonical_order_whatever_the_order_of_adding() {
    let mut builder = BookSrcBuilder::new("T");
    builder.add_appendix(paragraph("x"), Some(line("Extra")));
    builder.add_epigraph(paragraph("quoted"), Some(line("Someone")));
    builder.add_mainmatter(heading(1, "One"));
    builder.add_foreword(paragraph("fore"), Some(line("Before")), "F. Author");
    builder.add_epigraph(paragraph("again"), None);
    builder.set_dedication(line("To you"));
    builder.add_appendix(paragraph("y"), None);
    let book = builder.assemble(generated("T"));
    assert_eq!(book.expected_epigraph_count, 2);
    assert_eq!(book.expected_appendices_count, 2);
    assert!(is_balanced(&book.contents));
    let position = |e: &BookEvent| book.contents.iter().position(|x| x == e);
    let front = position(&BookEvent::BeginFrontmatter).unwrap();
    let main = position(&BookEvent::BeginMainmatter).unwrap();
    let back = position(&BookEvent::BeginBackmatter).unwrap();
    assert_eq!(front, 0);
    assert!(front < main && main < back);
    for marker in [
        BookEvent::BeginFrontmatter,
        BookEvent::BeginMainmatter,
        BookEvent::BeginBackmatter,
    ] {
        assert_eq!(book.contents.iter().filter(|e| **e == marker).count(), 1);
    }
    let ended = |role: SemanticRole| {
        book.contents
            .iter()
            .filter(|e| **e == BookEvent::EndSemantic(role))
            .count()
    };
    assert_eq!(ended(SemanticRole::Epigraph), 2);
    assert_eq!(ended(SemanticRole::Appendix), 2);
    let dedication = position(&BookEvent::BeginSemantic(SemanticRole::Dedication)).unwrap();
    let foreword = position(&BookEvent::BeginSemantic(SemanticRole::Foreword)).unwrap();
    let epigraph = position(&BookEvent::BeginSemantic(SemanticRole::Epigraph)).unwrap();
    let appendix = position(&BookEvent::BeginSemantic(SemanticRole::Appendix)).unwrap();
    assert!(dedication < foreword && foreword < epigraph && epigraph < main);
    assert!(back < appendix);
    assert_eq!(book.metadata.foreword_authors, vec!["F. Author".to_string()]);
    assert!(book.contents.contains(&BookEvent::DivisionHeaderLabel {
        text: Some("Appendix".to_string()),
        number: Some(0),
        number_format: NumberFormat::Letter,
    }));
    assert!(book.contents.contains(&BookEvent::DivisionHeaderLabel {
        text: Some("Appendix".to_string()),
        number: Some(1),
        number_format: NumberFormat::Letter,
    }));
    assert!(book
        .contents
        .contains(&BookEvent::DivisionAuthors(vec!["F. Author".to_string()])));
}

#[test]
fn book_without_backmatter_has_no_backmatter_marker() {
    let book = hello_book();
    assert!(!book.contents.contains(&BookEvent::BeginBackmatter));
}

#[test]
fn suppressed_pages_are_left_out() {
    let mut builder = BookSrcBuilder::new("T");
    builder.do_not_generate_halftitle();
    builder.do_not_generate_titlepage();
    builder.do_not_generate_copyrightpage();
    let book = builder.assemble(generated("T"));
    assert_eq!(
        book.contents,
        vec![BookEvent::BeginFrontmatter, BookEvent::BeginMainmatter]
    );
}

#[test]
fn epigraphs_follow_an_introduction_by_another_hand() {
    let mut builder = BookSrcBuilder::new("T");
    builder.add_epigraph(paragraph("quoted"), None);
    builder.add_introduction(paragraph("intro"), Some(line("Intro")), "I. Writer");
    let book = builder.assemble(generated("T"));
    let position = |e: &BookEvent| book.contents.iter().position(|x| x == e).unwrap();
    assert!(
        position(&BookEvent::BeginSemantic(SemanticRole::Introduction))
            < position(&BookEvent::BeginSemantic(SemanticRole::Epigraph))
    );
    let none: Vec<String> = Vec::new();
    let mut builder = BookSrcBuilder::new("T");
    builder.add_epigraph(paragraph("quoted"), None);
    builder.add_introduction(paragraph("intro"), Some(line("Intro")), none);
    let book = builder.assemble(generated("T"));
    let position = |e: &BookEvent| book.contents.iter().position(|x| x == e).unwrap();
    assert!(
        position(&BookEvent::BeginSemantic(SemanticRole::Epigraph))
            < position(&BookEvent::BeginSemantic(SemanticRole::Introduction))
    );
}

#[test]
fn leading_heading_of_a_fragment_is_its_title() {
    let mut fragment = heading(1, "Thanks");
    fragment.extend(paragraph("to all"));
    let mut builder = BookSrcBuilder::new("T");
    builder.add_acknowledgements(fragment, None);
    assert_eq!(
        builder.acknowledgements,
        vec![
            BookEvent::BeginSemantic(SemanticRole::Acknowledgements),
            BookEvent::BeginDivisionHeader(false),
            BookEvent::Event(text("Thanks")),
            BookEvent::DivisionHeaderLabel {
                text: Some("Acknowledgements".to_string()),
                number: None,
                number_format: NumberFormat::Arabic,
            },
            BookEvent::EndDivisionHeader(false),
            BookEvent::Event(Event::Start(Tag::Paragraph)),
            BookEvent::Event(text("to all")),
            BookEvent::Event(Event::End(Tag::Paragraph)),
            BookEvent::EndSemantic(SemanticRole::Acknowledgements),
        ]
    );
}

#[test]
fn epigraph_has_an_unindented_first_paragraph_and_a_source() {
    let mut builder = BookSrcBuilder::new("T");
    let mut quoted = paragraph("one");
    quoted.extend(paragraph("two"));
    builder.add_epigraph(quoted, Some(line("Source")));
    assert_eq!(builder.epigraph_count, 1);
    assert_eq!(
        builder.epigraphs,
        vec![
            BookEvent::BeginSemantic(SemanticRole::Epigraph),
            BookEvent::BeginEpigraphText,
            BookEvent::Event(Event::Start(Tag::UnindentedParagraph)),
            BookEvent::Event(text("one")),
            BookEvent::Event(Event::End(Tag::UnindentedParagraph)),
            BookEvent::Event(Event::Start(Tag::Paragraph)),
            BookEvent::Event(text("two")),
            BookEvent::Event(Event::End(Tag::Paragraph)),
            BookEvent::EndEpigraphText,
            BookEvent::BeginEpigraphSource,
            BookEvent::Event(text("Source")),
            BookEvent::EndEpigraphSource,
            BookEvent::EndSemantic(SemanticRole::Epigraph),
        ]
    );
}

#[test]
fn process_reads_the_metadata_through_the_token_source() {
    let mut builder = BookSrcBuilder::new("A Book");
    builder.subtitle("An Example");
    builder.author("A.N. Author");
    builder.do_not_generate_copyrightpage();
    let book = builder.process(|s: &str| vec![Event::Text(s.to_string())]);
    assert_eq!(
        book.contents,
        vec![
            BookEvent::BeginFrontmatter,
            BookEvent::BeginSemantic(SemanticRole::Halftitle),
            BookEvent::BeginDivisionHeader(false),
            BookEvent::Event(text("A BOOK")),
            BookEvent::EndDivisionHeader(false),
            BookEvent::EndSemantic(SemanticRole::Halftitle),
            BookEvent::BeginTitlePage,
            BookEvent::BeginTitlePageTitle,
            BookEvent::Event(text("A Book")),
            BookEvent::EndTitlePageTitle,
            BookEvent::BeginTitlePageSubTitle,
            BookEvent::Event(text("An Example")),
            BookEvent::EndTitlePageSubTitle,
            BookEvent::TitlePageContributors(vec![(
                bookbinder::roles::TitlePageContributorRole::Author,
                vec!["A.N. Author".to_string()]
            )]),
            BookEvent::EndTitlePage,
            BookEvent::BeginMainmatter,
        ]
    );
    assert!(builder.halftitle.is_empty());
    assert_eq!(builder.metadata.title, "");
}

#[test]
fn source_of_an_epigraph_is_made_of_its_author_and_its_title() {
    fn echo(line: &str) -> Vec<Event> {
        vec![Event::Text(line.to_string())]
    }
    let mut builder = BookSrcBuilder::new("T");
    builder.add_explicit_epigraph(paragraph("one"), Some("Ann"), Some("Book"), true, echo);
    builder.add_explicit_epigraph(paragraph("two"), None, Some("Book"), false, echo);
    builder.add_explicit_epigraph(paragraph("three"), Some("Ann"), None, false, echo);
    builder.add_explicit_epigraph(paragraph("four"), None, None, false, echo);
    assert_eq!(builder.epigraph_count, 4);
    let sources: Vec<&BookEvent> = builder
        .epigraphs
        .iter()
        .enumerate()
        .filter(|(i, _)| *i > 0 && builder.epigraphs[*i - 1] == BookEvent::BeginEpigraphSource)
        .map(|(_, e)| e)
        .collect();
    assert_eq!(
        sources,
        vec![
            &BookEvent::Event(text("<span class=\"smallcaps\">Ann</span>, ‘Book’")),
            &BookEvent::Event(text("*Book*")),
            &BookEvent::Event(text("<span class=\"smallcaps\">Ann</span>")),
        ]
    );
}

#[test]
fn every_render_gets_a_copy_of_its_own() {
    let book = hello_book();
    let mut copy = book.clone();
    assert_eq!(copy.contents, book.contents);
    assert_eq!(copy.metadata.title, book.metadata.title);
    assert_eq!(copy.expected_epigraph_count, book.expected_epigraph_count);
    assert_eq!(copy.expected_appendices_count, book.expected_appendices_count);
    copy.change_headers(TextHeaderOptions {
        chapter_header_format: HeaderFormat::TitleAlone,
        ..TextHeaderOptions::default()
    });
    assert_ne!(copy.contents, book.contents);
    assert_eq!(hello_book().contents, book.contents);
}
