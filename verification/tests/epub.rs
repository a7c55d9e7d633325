use bookbinder::assembler::BookSrc;
use bookbinder::book_event::BookEvent;
use bookbinder::epub::{get_fence_language, number_footnote, EpubPage, XhtmlWriter};
use bookbinder::epub_options::Options;
use bookbinder::epub_pages::{
    count_footnotes, find_plan, pages_of, preprocess_with, ImagePlan, PageSettings,
    RenderingError,
};
use bookbinder::epub_render::{
    add_resources, contents_and_resources, new_markers, plan_image, plan_images, plan_of,
    preprocess,
};
use bookbinder::mimetypes::MimeType;
use bookbinder::epub_roles::{
    get_default_toc_format, get_default_toc_level, get_epub_type, get_matter, TocFormat,
};
use bookbinder::events::{CodeBlockKind, Event, LinkType, Tag};
use bookbinder::helpers::{collate_division_header, EpubMarker};
use bookbinder::images::{image_destinations, replace_image_paths, replace_missing_image_paths};
use bookbinder::metadata::Metadata;
use bookbinder::roles::{NumberFormat, SemanticRole};

const OPENING: &str = "<?xml version=\"1.0\" encoding=\"UTF-8\" standalone=\"no\"?>\n<html xmlns=\"http://www.w3.org/1999/xhtml\" xmlns:epub=\"http://www.idpf.org/2007/ops\">";

fn text(s: &str) -> Event {
    Event::Text(s.to_string())
}

fn token(e: Event) -> BookEvent {
    BookEvent::Event(e)
}

fn image(dest: &str, title: &str) -> Tag {
    Tag::Image(LinkType::Inline, dest.to_string(), title.to_string())
}

fn pushed(events: Vec<Event>) -> XhtmlWriter {
    let mut writer = XhtmlWriter::new(SemanticRole::Chapter);
    for event in events.iter() {
        writer.push(event);
    }
    writer
}

fn settings() -> PageSettings {
    PageSettings {
        css: Some(("/tmp/style.css".to_string(), "style.css".to_string())),
        image_names: vec![("img/pic.png".to_string(), "pic.png".to_string())],
        titlepage: ("title.svg".to_string(), "/tmp/title.svg".to_string()),
    }
}

fn book(contents: Vec<BookEvent>) -> BookSrc {
    BookSrc {
        metadata: Metadata::new("T"),
        contents,
        expected_appendices_count: 0,
        expected_epigraph_count: 0,
    }
}

fn chapter_stream() -> Vec<BookEvent> {
    vec![
        BookEvent::BeginFrontmatter,
        BookEvent::BeginMainmatter,
        BookEvent::BeginSemantic(SemanticRole::Chapter),
        BookEvent::BeginDivisionHeader(false),
        BookEvent::DivisionHeaderLabel {
            text: Some("Chapter".to_string()),
            number: Some(1),
            number_format: NumberFormat::Arabic,
        },
        token(text("Hello")),
        BookEvent::EndDivisionHeader(false),
        token(Event::Start(Tag::Paragraph)),
        token(text("Text")),
        token(Event::End(Tag::Paragraph)),
        BookEvent::EndSemantic(SemanticRole::Chapter),
    ]
}

#[test]
fn test_footnotes() {
    let events = vec![
        Event::Start(Tag::Paragraph),
        Event::Text("Text".into()),
        Event::FootnoteReference("fn".into()),
        Event::End(Tag::Paragraph),
        Event::Start(Tag::FootnoteDefinition("fn".into())),
        Event::Start(Tag::Paragraph),
        Event::Text("Footnote text".into()),
        Event::End(Tag::Paragraph),
        Event::End(Tag::FootnoteDefinition("fn".into())),
    ];
    let mut writer = XhtmlWriter::new(SemanticRole::Chapter);
    for event in events.into_iter() {
        writer.push(&event);
    }
    assert_eq!("\n<p>Text<a href=\"#fn\" id=\"fn_ref_fn\" epub:type=\"noteref\"><sup>1</sup></a></p>\n\n<h6 class=\"notes_heading\">Notes</h6>\n\n<p id=\"fn\" epub:type=\"footnote\" class=\"footnote\"><a href=\"#fn_ref_fn\">1.</a> \n<p>Footnote text</p>\n</p>", writer.target);
}

#[test]
fn footnotes_are_numbered_in_the_order_in_which_they_are_met() {
    let mut names: Vec<String> = Vec::new();
    assert_eq!(number_footnote(&mut names, "a"), "1");
    assert_eq!(number_footnote(&mut names, "b"), "2");
    assert_eq!(number_footnote(&mut names, "a"), "1");
    assert_eq!(number_footnote(&mut names, "c"), "3");
    assert_eq!(names, vec!["a".to_string(), "b".to_string(), "c".to_string()]);
}

#[test]
fn paragraph_behind_a_rule_is_not_indented() {
    let writer = pushed(vec![
        Event::Rule,
        Event::Start(Tag::Paragraph),
        text("a < b"),
        Event::End(Tag::Paragraph),
        Event::Start(Tag::Paragraph),
        text("c"),
        Event::End(Tag::Paragraph),
    ]);
    assert_eq!(
        writer.target,
        "\n<hr/>\n<p class=\"noindent\">a &lt; b</p>\n<p>c</p>\n"
    );
}

#[test]
fn headings_are_in_capitals_and_one_level_down() {
    let writer = pushed(vec![
        Event::Start(Tag::Heading(2)),
        text("Sub"),
        Event::End(Tag::Heading(2)),
        text("after"),
    ]);
    assert_eq!(
        writer.target,
        "<h3 class=\"generic_subheading\">SUB</h3>\nafter"
    );
}

#[test]
fn code_lists_and_links_are_written_as_markup() {
    let writer = pushed(vec![
        Event::Start(Tag::CodeBlock(CodeBlockKind::Fenced("rust,ignore".to_string()))),
        text("x"),
        Event::End(Tag::CodeBlock(CodeBlockKind::Fenced("rust,ignore".to_string()))),
        Event::Start(Tag::List(Some(3))),
        Event::Start(Tag::Item),
        Event::Code("a&b".to_string()),
        Event::End(Tag::Item),
        Event::End(Tag::List(Some(3))),
        Event::Start(Tag::Link(
            LinkType::Inline,
            "http://x".to_string(),
            "it's".to_string(),
        )),
        text("x"),
        Event::End(Tag::Link(
            LinkType::Inline,
            "http://x".to_string(),
            "it's".to_string(),
        )),
        Event::HardBreak,
        Event::Html("<b>raw</b>".to_string()),
        Event::TaskListMarker(false),
    ]);
    assert_eq!(
        writer.target,
        "<pre><code class=\"language-rust\">x</code></pre>\n<ol start=\"3\">\n<li><code>a&amp;b</code></li>\n</ol>\n<a href=\"http://x\" title=\"it’s\">x</a><br/> \n<b>raw</b>"
    );
    assert_eq!(get_fence_language("rust ignore"), "rust");
    assert_eq!(get_fence_language(""), "");
    assert_eq!(get_fence_language("text"), "text");
}

#[test]
fn image_alone_in_a_paragraph_is_a_figure() {
    let mut writer = XhtmlWriter::new(SemanticRole::Chapter);
    writer.image_names = settings().image_names;
    for e in [
        Event::Start(Tag::Paragraph),
        Event::Start(image("img/pic.png", "A picture with a long title, long enough")),
        text("caption"),
        Event::End(image("img/pic.png", "")),
        Event::End(Tag::Paragraph),
    ]
    .iter()
    {
        writer.push(e);
    }
    assert_eq!(
        writer.target,
        "\n\n<figure>\n  <img src=\"pic.png\" title=\"A picture with a long title, long enough\"></img>\n  <figcaption>caption</figcaption>\n</figure>"
    );
    assert_eq!(writer.associated_resources, vec!["img/pic.png".to_string()]);
    assert!(!writer.in_inline_image);
}

#[test]
fn image_in_a_line_takes_its_text_as_alternative_text() {
    let writer = pushed(vec![
        Event::Start(Tag::Paragraph),
        text("see "),
        Event::Start(image("unknown.png", "")),
        text("a & b"),
        Event::End(image("unknown.png", "")),
        text(" there"),
    ]);
    assert_eq!(
        writer.target,
        "\n<p>see <img src=\"unknown.png\" alt=\"a &amp; b></img> there"
    );
    let writer = pushed(vec![
        Event::Start(image("unknown.png", "")),
        Event::End(image("unknown.png", "")),
    ]);
    assert_eq!(writer.target, "<img src=\"unknown.png\"></img>");
}

#[test]
fn division_header_is_written_with_label_title_and_authors() {
    let stream = vec![
        BookEvent::DivisionHeaderLabel {
            text: Some("Foreword".to_string()),
            number: None,
            number_format: NumberFormat::Arabic,
        },
        token(text("Before")),
        BookEvent::DivisionAuthors(vec!["A".to_string(), "B".to_string(), "C".to_string()]),
        BookEvent::EndDivisionHeader(false),
    ];
    let (header, next) = collate_division_header::<EpubMarker>(&stream, 0, false);
    assert_eq!(next, 4);
    let mut writer = XhtmlWriter::new(SemanticRole::Foreword);
    writer.write_division_header(&header);
    assert_eq!(
        writer.target,
        "<p class=\"division_label\">FOREWORD</p>\n<h1 class=\"generic_header_with_authors\">Before</h1>\n\n<p class=\"division_authors\">A, B and C</p>\n"
    );
    assert!(writer.do_not_indent_next_para);
}

#[test]
fn empty_page_stands_for_a_matter() {
    let page = EpubPage::new_empty("Frontmatter");
    assert_eq!(
        page.xhtml,
        format!(
            "{}\n<head><title>Frontmatter</title></head><body></body></html>",
            OPENING
        )
    );
    assert_eq!(page.toc_title, Some("Frontmatter".to_string()));
    assert_eq!(page.toc_level, Some(0));
    assert!(page.associated_resources.is_empty());
}

#[test]
fn roles_have_their_place_in_an_epub() {
    assert_eq!(get_epub_type(SemanticRole::Copyrightpage), "copyright-page");
    assert_eq!(get_matter(SemanticRole::Chapter), "bodymatter");
    assert_eq!(get_matter(SemanticRole::Appendix), "backmatter");
    assert_eq!(get_matter(SemanticRole::Foreword), "frontmatter");
    assert_eq!(
        get_default_toc_format(SemanticRole::Titlepage),
        TocFormat::Provided("Titlepage")
    );
    assert_eq!(get_default_toc_level(SemanticRole::Part), Some(0));
    assert_eq!(get_default_toc_level(SemanticRole::Epigraph), None);
}

#[test]
fn chapter_becomes_a_page_behind_the_pages_of_the_matters() {
    let stream = chapter_stream();
    let pages = pages_of(&stream, false, &settings());
    assert_eq!(pages.len(), 3);
    assert_eq!(pages[0], EpubPage::new_empty("Frontmatter"));
    assert_eq!(pages[1], EpubPage::new_empty("Mainmatter"));
    assert_eq!(
        pages[2].xhtml,
        format!(
            "{}<head>\n\t<title>chapter</title>\n\t<link rel=\"stylesheet\" type=\"text/css\" href=\"style.css\"></link>\n</head><body epub:type=\"bodymatter\">\n\t<section epub:type=\"chapter\">\n<p class=\"division_label\">CHAPTER 1</p>\n<h1 class=\"chapter_header\">Hello</h1>\n<p class=\"noindent\">Text</p>\n\n</section>\n</body>\n</html>",
            OPENING
        )
    );
    assert_eq!(pages[2].associated_resources, vec!["/tmp/style.css".to_string()]);
    assert_eq!(pages[2].toc_title, None);
    assert_eq!(pages[2].toc_level, Some(1));
    let with_parts = pages_of(&stream, true, &settings());
    assert_eq!(with_parts.len(), 2);
}

#[test]
fn titlepage_and_epigraph_are_pages_of_their_own() {
    let stream = vec![
        BookEvent::BeginTitlePage,
        BookEvent::BeginTitlePageTitle,
        token(text("T")),
        BookEvent::EndTitlePageTitle,
        BookEvent::EndTitlePage,
        BookEvent::BeginSemantic(SemanticRole::Epigraph),
        BookEvent::BeginEpigraphText,
        token(text("quote")),
        BookEvent::EndEpigraphText,
        BookEvent::EndSemantic(SemanticRole::Epigraph),
        token(text("loose")),
    ];
    let pages = pages_of(&stream, false, &settings());
    assert_eq!(pages.len(), 3);
    assert!(pages[0].xhtml.contains(
        "<img alt=\"The titlepage\" src=\"title.svg\" style=\"display: block; width: 100%; margin: auto; page-break-after: always;\"/>"
    ));
    assert!(pages[0].xhtml.contains("<title>titlepage</title>"));
    assert_eq!(pages[0].associated_resources, vec!["/tmp/title.svg".to_string()]);
    assert_eq!(pages[0].toc_title, Some("Titlepage".to_string()));
    assert!(pages[1]
        .xhtml
        .contains("<section epub:type=\"epigraph\" class=\"epigraph\">\n<div class=\"vertically_centred\">\n\n<div class=\"epigraph_content\">\nquote</div></div>\n</section>"));
    assert_eq!(pages[1].toc_title, None);
    assert!(pages[2].xhtml.contains("<section epub:type=\"chapter\">\nloose\n</section>"));
}

#[test]
fn flattened_footnotes_are_set_behind_their_division() {
    let stream = vec![
        BookEvent::BeginSemantic(SemanticRole::Part),
        token(text("a")),
        token(Event::Start(Tag::FlattenedFootnote)),
        token(text("note")),
        token(Event::End(Tag::FlattenedFootnote)),
        token(text("b")),
        BookEvent::EndSemantic(SemanticRole::Part),
    ];
    assert_eq!(count_footnotes(&stream), 1);
    let markers = vec!["m1".to_string()];
    let prepared = preprocess_with(&stream, &markers, &Vec::new());
    assert_eq!(
        prepared,
        Ok((
            true,
            vec![
                BookEvent::BeginSemantic(SemanticRole::Part),
                token(text("a")),
                token(Event::FootnoteReference("m1".to_string())),
                token(text("b")),
                token(Event::Start(Tag::FootnoteDefinition("m1".to_string()))),
                token(text("note")),
                token(Event::End(Tag::FootnoteDefinition("m1".to_string()))),
                BookEvent::EndSemantic(SemanticRole::Part),
            ]
        ))
    );
}

#[test]
fn images_are_prepared_as_planned() {
    let stream = vec![
        token(Event::Start(image("a.pdf", ""))),
        token(Event::End(image("a.pdf", ""))),
        token(Event::Start(image("b.png", ""))),
        token(Event::End(image("b.png", ""))),
    ];
    let plans = vec![
        ("a.pdf".to_string(), ImagePlan::Replace("/tmp/a.svg".to_string())),
        ("b.png".to_string(), ImagePlan::Keep),
    ];
    assert_eq!(find_plan(&plans, "a.pdf"), ImagePlan::Replace("/tmp/a.svg".to_string()));
    assert_eq!(find_plan(&plans, "other"), ImagePlan::Keep);
    assert_eq!(
        preprocess_with(&stream, &Vec::new(), &plans),
        Ok((
            false,
            vec![
                token(Event::Start(image("/tmp/a.svg", ""))),
                token(Event::End(image("/tmp/a.svg", ""))),
                token(Event::Start(image("b.png", ""))),
                token(Event::End(image("b.png", ""))),
            ]
        ))
    );
    let unsupported = vec![("b.png".to_string(), ImagePlan::Unsupported)];
    assert_eq!(
        preprocess_with(&stream, &Vec::new(), &unsupported),
        Err(RenderingError::UnsupportedImage("b.png".to_string()))
    );
    let unconverted = vec![("a.pdf".to_string(), ImagePlan::Unconverted)];
    assert_eq!(
        preprocess_with(&stream, &Vec::new(), &unconverted),
        Err(RenderingError::ImageConversionError("a.pdf".to_string()))
    );
}

#[test]
fn images_are_planned_by_their_type() {
    let converted = vec![("a.pdf".to_string(), "/tmp/a.svg".to_string())];
    assert_eq!(plan_image("x.png", &converted), ImagePlan::Keep);
    assert_eq!(plan_image("x.svg", &converted), ImagePlan::Keep);
    assert_eq!(
        plan_image("a.pdf", &converted),
        ImagePlan::Replace("/tmp/a.svg".to_string())
    );
    assert_eq!(plan_image("b.pdf", &converted), ImagePlan::Unconverted);
    assert_eq!(plan_image("x.eps", &converted), ImagePlan::Unsupported);
    assert_eq!(plan_image("x", &converted), ImagePlan::Unsupported);
}

#[test]
fn markers_of_footnotes_differ() {
    let markers = new_markers(3);
    assert_eq!(markers.len(), 3);
    assert_ne!(markers[0], markers[1]);
    assert_ne!(markers[1], markers[2]);
    assert!(new_markers(0).is_empty());
}

#[test]
fn book_is_rendered_to_pages_with_the_chosen_chapter_label() {
    let mut b = book(chapter_stream());
    let mut options = Options::default();
    options.set_chapter_label("Letter");
    options.use_roman_numerals_for_chapter_labels();
    let pages = b
        .get_pages_with(&options, &settings(), &Vec::new(), &Vec::new())
        .unwrap();
    assert!(b.contents.is_empty());
    assert_eq!(pages.len(), 3);
    assert!(pages[2].xhtml.contains("<p class=\"division_label\">LETTER I</p>\n<h1 class=\"chapter_header\">Hello</h1>"));
    let mut b = book(chapter_stream());
    let pages = b
        .get_pages(&Options::default(), "/tmp/style.css", "/tmp/title.svg", &Vec::new())
        .unwrap();
    assert!(pages[2].xhtml.contains("href=\"style.css\""));
    assert!(pages[2].xhtml.contains("<p class=\"division_label\">CHAPTER 1</p>"));
}

#[test]
fn pages_become_contents_and_resources_once() {
    let page = |xhtml: &str, resources: &[&str], title: Option<&str>, level: Option<usize>| EpubPage {
        xhtml: xhtml.to_string(),
        associated_resources: resources.iter().map(|r| r.to_string()).collect(),
        toc_level: level,
        toc_title: title.map(|t| t.to_string()),
    };
    let pages = vec![
        page("one", &["a.css", "x.png"], Some("One <a href=\"#\">linked</a>"), None),
        page("two", &["a.css", "y.png", "x.png"], None, Some(2)),
    ];
    let (contents, resources) = contents_and_resources(&pages);
    assert_eq!(contents.len(), 2);
    assert_eq!(contents[0].data, "one");
    let entry = contents[0].toc_entry.as_ref().unwrap();
    assert_eq!(entry.title, "One linked");
    assert_eq!(entry.level, 1);
    assert_eq!(contents[1].data, "two");
    assert_eq!(contents[1].toc_entry, None);
    assert_eq!(
        resources,
        vec!["a.css".to_string(), "x.png".to_string(), "y.png".to_string()]
    );
    let mut list = vec!["a".to_string()];
    add_resources(&mut list, &vec!["b".to_string(), "a".to_string(), "b".to_string()]);
    assert_eq!(list, vec!["a".to_string(), "b".to_string()]);
}

#[test]
fn images_take_the_paths_under_which_they_were_found() {
    let mut stream = vec![
        token(Event::Start(image("pic.png", "t"))),
        token(Event::End(image("pic.png", "t"))),
        token(Event::Start(image("gone.png", ""))),
        token(Event::End(image("gone.png", ""))),
        token(text("x")),
    ];
    assert_eq!(
        image_destinations(&stream),
        vec!["pic.png".to_string(), "gone.png".to_string()]
    );
    let found = vec![("pic.png".to_string(), "/book/img/pic.png".to_string())];
    let looked_for = image_destinations(&stream);
    let r = replace_missing_image_paths(&mut stream, &looked_for, &found);
    assert_eq!(r, Err(vec!["gone.png".to_string()]));
    assert_eq!(
        stream,
        vec![
            token(Event::Start(image("/book/img/pic.png", "t"))),
            token(Event::End(image("/book/img/pic.png", "t"))),
            token(Event::Start(image("gone.png", ""))),
            token(Event::End(image("gone.png", ""))),
            token(text("x")),
        ]
    );
    let mut stream = vec![token(Event::Start(image("pic.png", "")))];
    assert_eq!(
        replace_missing_image_paths(&mut stream, &vec!["pic.png".to_string()], &found),
        Ok(())
    );
    let mut unchanged = vec![token(text("x"))];
    replace_image_paths(&mut unchanged, &found);
    assert_eq!(unchanged, vec![token(text("x"))]);
}

#[test]
fn stream_is_prepared_with_a_marker_for_each_footnote() {
    let stream = vec![
        BookEvent::BeginSemantic(SemanticRole::Chapter),
        token(Event::Start(Tag::Paragraph)),
        token(text("a")),
        token(Event::Start(Tag::FlattenedFootnote)),
        token(text("note")),
        token(Event::End(Tag::FlattenedFootnote)),
        token(Event::End(Tag::Paragraph)),
        BookEvent::EndSemantic(SemanticRole::Chapter),
    ];
    let (has_parts, prepared) = preprocess(&stream, &Vec::new()).unwrap();
    assert!(!has_parts);
    let references: Vec<String> = prepared
        .iter()
        .filter_map(|e| match e {
            BookEvent::Event(Event::FootnoteReference(name)) => Some(name.clone()),
            _ => None,
        })
        .collect();
    assert_eq!(references.len(), 1);
    assert_eq!(references[0].len(), 36);
    let (_, again) = preprocess(&stream, &Vec::new()).unwrap();
    assert_ne!(prepared, again);
    assert!(prepared.contains(&BookEvent::Event(Event::Start(Tag::FootnoteDefinition(
        references[0].clone()
    )))));
}

#[test]
fn image_is_planned_by_its_type() {
    assert_eq!(plan_of(Some(MimeType::Png), None), ImagePlan::Keep);
    assert_eq!(plan_of(Some(MimeType::Svg), Some("x.svg")), ImagePlan::Keep);
    assert_eq!(
        plan_of(Some(MimeType::Pdf), Some("x.svg")),
        ImagePlan::Replace(String::from("x.svg"))
    );
    assert_eq!(plan_of(Some(MimeType::Pdf), None), ImagePlan::Unconverted);
    assert_eq!(plan_of(Some(MimeType::Eps), Some("x.svg")), ImagePlan::Unsupported);
    assert_eq!(plan_of(None, None), ImagePlan::Unsupported);
}

#[test]
fn every_image_of_a_stream_is_planned_in_its_order() {
    let stream = vec![
        token(Event::Start(image("a.png", ""))),
        token(Event::End(image("a.png", ""))),
        token(Event::Start(image("b.pdf", ""))),
        token(Event::End(image("b.pdf", ""))),
        token(Event::Start(image("c.pdf", ""))),
        token(Event::End(image("c.pdf", ""))),
        token(Event::Start(image("d.eps", ""))),
        token(Event::End(image("d.eps", ""))),
    ];
    let converted = vec![("b.pdf".to_string(), "/tmp/b.svg".to_string())];
    let (plans, names) = plan_images(&stream, &converted);
    assert_eq!(
        plans,
        vec![
            ("a.png".to_string(), ImagePlan::Keep),
            ("b.pdf".to_string(), ImagePlan::Replace("/tmp/b.svg".to_string())),
            ("c.pdf".to_string(), ImagePlan::Unconverted),
            ("d.eps".to_string(), ImagePlan::Unsupported),
        ]
    );
    let sources: Vec<&str> = names.iter().map(|n| n.0.as_str()).collect();
    assert_eq!(sources, vec!["a.png", "/tmp/b.svg", "c.pdf", "d.eps"]);
    assert_eq!(names[1].1, "b.svg");
}

#[test]
fn resources_are_gathered_in_the_order_in_which_they_are_met() {
    let mut list = vec!["x".to_string()];
    add_resources(
        &mut list,
        &vec!["b".to_string(), "x".to_string(), "a".to_string(), "b".to_string()],
    );
    assert_eq!(list, vec!["x", "b", "a"]);
    add_resources(&mut list, &Vec::new());
    assert_eq!(list, vec!["x", "b", "a"]);
}
