use bookbinder::bundle::EpubContent;
use bookbinder::chunks::{chunks_of, double_breaks, Chunk, Piece};
use bookbinder::events::{CodeBlockKind, Event, LinkType, Tag};
use bookbinder::extended::{
    can_be_plain, extend, pieces_of_footnote, script_split, to_plain, with_reinserted, Options,
};
use bookbinder::package::EpubSource;
use bookbinder::scripts::CurrentSpan;
use bookbinder::spans::{
    find_current_span, finish_buffer, is_marked, mark_quotations, read_span, resets_quotes,
    smarten_texts,
};

fn text(s: &str) -> Event {
    Event::Text(s.to_string())
}

fn html(s: &str) -> Event {
    Event::Html(s.to_string())
}

fn chars(s: &str) -> Option<Vec<char>> {
    Some(s.chars().collect())
}

fn no_answer(_: &str) -> Vec<Event> {
    Vec::new()
}

fn paragraph(s: &str) -> Vec<Event> {
    vec![
        Event::Start(Tag::Paragraph),
        text(s),
        Event::End(Tag::Paragraph),
    ]
}

#[test]
fn what_breaks_quotations() {
    assert!(resets_quotes(&Event::Rule));
    assert!(resets_quotes(&Event::Start(Tag::Paragraph)));
    assert!(resets_quotes(&Event::End(Tag::Heading(1))));
    assert!(resets_quotes(&Event::Start(Tag::Sans)));
    assert!(!resets_quotes(&text("a")));
    assert!(!resets_quotes(&Event::SoftBreak));
    assert!(!resets_quotes(&Event::Start(Tag::Emphasis)));
    assert!(!resets_quotes(&Event::End(Tag::Strong)));
    assert!(!resets_quotes(&Event::Start(Tag::Link(
        LinkType::Inline,
        String::new(),
        String::new()
    ))));
    assert!(!resets_quotes(&html("<br>")));
    assert!(!resets_quotes(&Event::Code(String::from("x"))));
}

#[test]
fn span_is_known_by_its_style_or_else_by_its_class() {
    assert_eq!(
        find_current_span(&chars("font-family: \"sans\""), &None),
        CurrentSpan::Sans
    );
    assert_eq!(
        find_current_span(&chars("font-variant:\"small-caps\""), &None),
        CurrentSpan::SmallCaps
    );
    assert_eq!(
        find_current_span(&chars("color: red; text-align: center"), &None),
        CurrentSpan::Centred
    );
    assert_eq!(
        find_current_span(&chars("text-align:right"), &None),
        CurrentSpan::RightAligned
    );
    assert_eq!(
        find_current_span(&chars("color: red"), &chars("sans")),
        CurrentSpan::Generic
    );
    assert_eq!(find_current_span(&None, &chars("a sans b")), CurrentSpan::Sans);
    assert_eq!(find_current_span(&None, &chars("smallcaps")), CurrentSpan::SmallCaps);
    assert_eq!(find_current_span(&None, &chars("centred")), CurrentSpan::Centred);
    assert_eq!(
        find_current_span(&None, &chars("right-aligned")),
        CurrentSpan::RightAligned
    );
    assert_eq!(
        find_current_span(&None, &chars("superscript")),
        CurrentSpan::Superscript
    );
    assert_eq!(find_current_span(&None, &chars("subscript")), CurrentSpan::Subscript);
    assert_eq!(find_current_span(&None, &chars("other")), CurrentSpan::Generic);
    assert_eq!(find_current_span(&None, &None), CurrentSpan::Generic);
}

#[test]
fn spans_open_and_close_in_turn() {
    let mut open = Vec::new();
    assert_eq!(
        read_span(&mut open, String::from("<span class=\"sans\">")),
        Event::Start(Tag::Sans)
    );
    assert_eq!(
        read_span(&mut open, String::from("<span id=\"x\">")),
        html("<span id=\"x\">")
    );
    assert_eq!(
        read_span(&mut open, String::from("<span style=\"text-align: center\" class=\"sans\">")),
        Event::Start(Tag::Centred)
    );
    assert_eq!(
        open,
        vec![CurrentSpan::Sans, CurrentSpan::Generic, CurrentSpan::Centred]
    );
    assert_eq!(read_span(&mut open, String::from("<br/>")), html("<br/>"));
    assert_eq!(
        read_span(&mut open, String::from("</span>")),
        Event::End(Tag::Centred)
    );
    assert_eq!(read_span(&mut open, String::from("</span>")), html("</span>"));
    assert_eq!(read_span(&mut open, String::from("</span>")), Event::End(Tag::Sans));
    assert!(open.is_empty());
    assert_eq!(read_span(&mut open, String::from("</span>")), html("</span>"));
    assert_eq!(
        read_span(&mut open, String::from("<span class=\"subscript")),
        Event::Start(Tag::Subscript)
    );
}

#[test]
fn block_quote_of_several_paragraphs_is_marked() {
    let mut events = vec![Event::Start(Tag::BlockQuote)];
    events.extend(paragraph("one"));
    events.push(Event::End(Tag::BlockQuote));
    events.push(Event::Start(Tag::BlockQuote));
    events.extend(paragraph("one"));
    events.extend(paragraph("two"));
    events.push(Event::End(Tag::BlockQuote));
    let marks = mark_quotations(&events);
    assert_eq!(marks, vec![5, 12]);
    assert!(is_marked(&marks, 5));
    assert!(is_marked(&marks, 12));
    assert!(!is_marked(&marks, 0));
    assert!(!is_marked(&marks, 4));
}

#[test]
fn block_quote_within_another_bounds_the_outer_one_by_the_start_of_the_buffer() {
    let mut events = vec![Event::Start(Tag::BlockQuote)];
    events.extend(paragraph("one"));
    events.extend(paragraph("two"));
    events.push(Event::Start(Tag::BlockQuote));
    events.extend(paragraph("inner"));
    events.push(Event::End(Tag::BlockQuote));
    events.push(Event::End(Tag::BlockQuote));
    assert_eq!(mark_quotations(&events), vec![0, 0]);
    let mut open = Vec::new();
    let finished = finish_buffer(events, false, &mut open);
    assert_eq!(finished[0], Event::Start(Tag::BlockQuotation));
    assert_eq!(finished[7], Event::Start(Tag::BlockQuote));
    assert_eq!(finished[11], Event::End(Tag::BlockQuote));
    assert_eq!(finished[12], Event::End(Tag::BlockQuote));
}

#[test]
fn unfinished_block_quote_is_bounded_by_its_start() {
    let mut events = vec![text("before"), Event::Start(Tag::BlockQuote)];
    events.extend(paragraph("one"));
    events.extend(paragraph("two"));
    assert_eq!(mark_quotations(&events), vec![1, 0]);
    assert_eq!(mark_quotations(&Vec::new()), Vec::<usize>::new());
}

#[test]
fn texts_between_two_breaks_are_smartened_as_one() {
    let events = vec![
        Event::Start(Tag::Paragraph),
        text("'Hello, "),
        Event::Start(Tag::Emphasis),
        text("world"),
        Event::End(Tag::Emphasis),
        text(",' she said..."),
        Event::End(Tag::Paragraph),
    ];
    let smartened = smarten_texts(events, true);
    assert_eq!(
        smartened,
        vec![
            Event::Start(Tag::Paragraph),
            text("‘Hello, "),
            Event::Start(Tag::Emphasis),
            text("world"),
            Event::End(Tag::Emphasis),
            text(",’ she said…"),
            Event::End(Tag::Paragraph),
        ]
    );
}

#[test]
fn texts_are_left_alone_where_smartening_is_not_asked_for() {
    let events = paragraph("'Hello' -- world...");
    assert_eq!(smarten_texts(paragraph("'Hello' -- world..."), false), events);
    let mut open = Vec::new();
    assert_eq!(finish_buffer(paragraph("'Hello' -- world..."), false, &mut open), events);
}

#[test]
fn texts_that_nothing_breaks_behind_are_taken_out() {
    let events = vec![Event::Start(Tag::Paragraph), text("'Hello'")];
    assert_eq!(
        smarten_texts(events, true),
        vec![Event::Start(Tag::Paragraph), text("")]
    );
}

#[test]
fn code_ends_the_smartening_of_a_buffer() {
    let events = vec![
        text("'a'"),
        Event::Start(Tag::CodeBlock(CodeBlockKind::Indented)),
        text("'b'"),
        Event::End(Tag::CodeBlock(CodeBlockKind::Indented)),
        text("'c'"),
        Event::End(Tag::Paragraph),
    ];
    assert_eq!(
        smarten_texts(events, true),
        vec![
            text("‘a’"),
            Event::Start(Tag::CodeBlock(CodeBlockKind::Indented)),
            text("'b'"),
            Event::End(Tag::CodeBlock(CodeBlockKind::Indented)),
            text("'c'"),
            Event::End(Tag::Paragraph),
        ]
    );
}

#[test]
fn buffer_is_read_for_quotations_spans_and_texts() {
    let mut events = vec![Event::Start(Tag::BlockQuote)];
    events.extend(paragraph("'One'"));
    events.push(Event::Start(Tag::Paragraph));
    events.push(html("<span class=\"smallcaps\">"));
    events.push(text("two"));
    events.push(html("</span>"));
    events.push(Event::End(Tag::Paragraph));
    events.push(Event::End(Tag::BlockQuote));
    let mut open = vec![CurrentSpan::Generic];
    let finished = finish_buffer(events, true, &mut open);
    assert_eq!(
        finished,
        vec![
            Event::Start(Tag::BlockQuotation),
            Event::Start(Tag::Paragraph),
            text("‘One’"),
            Event::End(Tag::Paragraph),
            Event::Start(Tag::Paragraph),
            Event::Start(Tag::SmallCaps),
            text("two"),
            Event::End(Tag::SmallCaps),
            Event::End(Tag::Paragraph),
            Event::End(Tag::BlockQuotation),
        ]
    );
    assert_eq!(open, vec![CurrentSpan::Generic]);
}

fn tokens_of(chunk: &Chunk) -> Vec<String> {
    chunk
        .pieces
        .iter()
        .map(|p| match p {
            Piece::Token(e) => format!("{:?}", e),
            Piece::Scripts(t) => format!("scripts {}", t),
            Piece::Footnote(t) => format!("footnote {:?}", t),
        })
        .collect()
}

#[test]
fn run_of_text_goes_up_to_what_breaks_quotations() {
    let raw = vec![
        Event::Start(Tag::Paragraph),
        text("a"),
        Event::SoftBreak,
        text("x^2^"),
        Event::End(Tag::Paragraph),
        Event::Rule,
    ];
    let chunks = chunks_of(raw);
    assert_eq!(chunks.len(), 3);
    assert!(!chunks[0].finish);
    assert_eq!(tokens_of(&chunks[0]), vec!["Start(Paragraph)"]);
    assert!(chunks[1].finish);
    assert_eq!(
        tokens_of(&chunks[1]),
        vec!["Text(\"a\")", "SoftBreak", "scripts x^2^", "End(Paragraph)"]
    );
    assert!(!chunks[2].finish);
    assert_eq!(tokens_of(&chunks[2]), vec!["Rule"]);
}

#[test]
fn block_quote_is_one_chunk_up_to_its_end() {
    let raw = vec![
        Event::Start(Tag::BlockQuote),
        Event::Start(Tag::BlockQuote),
        text("a~1~"),
        Event::Start(Tag::CodeBlock(CodeBlockKind::Indented)),
        text("b~1~"),
        Event::End(Tag::CodeBlock(CodeBlockKind::Indented)),
        Event::End(Tag::BlockQuote),
        text("c"),
        Event::End(Tag::BlockQuote),
        html("<br>"),
    ];
    let chunks = chunks_of(raw);
    assert_eq!(chunks.len(), 2);
    assert!(chunks[0].finish);
    assert_eq!(chunks[0].pieces.len(), 9);
    assert_eq!(tokens_of(&chunks[0])[2], "scripts a~1~");
    assert_eq!(tokens_of(&chunks[0])[4], "Text(\"b~1~\")");
    assert!(chunks[1].finish);
    assert_eq!(tokens_of(&chunks[1]), vec!["Html(\"<br>\")"]);
}

#[test]
fn footnote_drops_its_images_and_sets_its_indented_text_apart() {
    let image = Tag::Image(LinkType::Inline, String::from("a.png"), String::new());
    let image_end = Tag::Image(LinkType::Inline, String::from("a.png"), String::new());
    let raw = vec![
        Event::Start(Tag::FootnoteDefinition(String::from("n"))),
        text("a"),
        Event::Start(image),
        text("alt"),
        Event::End(image_end),
        Event::Start(Tag::CodeBlock(CodeBlockKind::Indented)),
        text("one\n"),
        Event::SoftBreak,
        text("two"),
        Event::End(Tag::CodeBlock(CodeBlockKind::Indented)),
        Event::End(Tag::FootnoteDefinition(String::from("n"))),
        text("after"),
    ];
    let chunks = chunks_of(raw);
    assert_eq!(chunks.len(), 2);
    assert_eq!(
        tokens_of(&chunks[0]),
        vec![
            "Start(FootnoteDefinition(\"n\"))",
            "Text(\"a\")",
            "footnote \"one\\n\\ntwo\"",
            "End(FootnoteDefinition(\"n\"))"
        ]
    );
    assert_eq!(tokens_of(&chunks[1]), vec!["Text(\"after\")"]);
    assert!(chunks[1].finish);
}

#[test]
fn text_within_code_is_handed_on_as_it_is() {
    let raw = vec![
        Event::Start(Tag::CodeBlock(CodeBlockKind::Fenced(String::from("rust")))),
        text("'a'"),
        Event::End(Tag::CodeBlock(CodeBlockKind::Fenced(String::from("rust")))),
        text("'b'"),
    ];
    let chunks = chunks_of(raw);
    assert_eq!(chunks.len(), 4);
    assert!(!chunks[0].finish);
    assert!(!chunks[1].finish);
    assert!(!chunks[2].finish);
    assert!(chunks[3].finish);
    assert_eq!(chunks_of(Vec::new()).len(), 0);
}

#[test]
fn line_breaks_are_doubled() {
    assert_eq!(double_breaks(""), "");
    assert_eq!(double_breaks("a"), "a");
    assert_eq!(double_breaks("a\nb\n"), "a\n\nb\n\n");
    assert_eq!(double_breaks("\n\n"), "\n\n\n\n");
}

#[test]
fn scripts_are_written_as_spans_and_a_leading_space_is_put_back() {
    assert_eq!(
        script_split(" x^2^ and H~2~O"),
        (
            String::from(
                " x<span class=\"superscript\">2</span> and H<span class=\"subscript\">2</span>O"
            ),
            Some(' ')
        )
    );
    assert_eq!(script_split("\nplain"), (String::from("\nplain"), Some('\n')));
    assert_eq!(script_split("plain"), (String::from("plain"), None));
    assert_eq!(script_split(""), (String::new(), None));
    assert_eq!(
        with_reinserted(vec![text("a")], Some(' ')),
        vec![text(" "), text("a")]
    );
    assert_eq!(with_reinserted(vec![text("a")], None), vec![text("a")]);
}

#[test]
fn texts_of_a_footnote_with_scripts_are_set_apart() {
    let pieces = pieces_of_footnote(vec![text("a"), text("b^c^"), Event::Rule]);
    let shown: Vec<String> = pieces
        .iter()
        .map(|p| match p {
            Piece::Token(e) => format!("{:?}", e),
            Piece::Scripts(t) => format!("scripts {}", t),
            Piece::Footnote(t) => format!("footnote {}", t),
        })
        .collect();
    assert_eq!(shown, vec!["Text(\"a\")", "scripts b^c^", "Rule"]);
}

#[test]
fn tokens_of_a_book_as_plain_tokens() {
    assert_eq!(
        to_plain(Event::Start(Tag::Superscript)),
        html("<span class=\"superscript\">")
    );
    assert_eq!(to_plain(Event::End(Tag::Superscript)), html("</span>"));
    assert_eq!(
        to_plain(Event::Start(Tag::RightAligned)),
        html("<span class=\"right-aligned\">")
    );
    assert_eq!(
        to_plain(Event::Start(Tag::BlockQuotation)),
        Event::Start(Tag::BlockQuote)
    );
    assert_eq!(
        to_plain(Event::End(Tag::BlockQuotation)),
        Event::End(Tag::BlockQuote)
    );
    assert_eq!(to_plain(text("a")), text("a"));
    assert_eq!(
        to_plain(Event::Start(Tag::Heading(2))),
        Event::Start(Tag::Heading(2))
    );
    assert!(can_be_plain(&Event::Start(Tag::Sans)));
    assert!(!can_be_plain(&Event::Start(Tag::Strikethrough)));
    assert!(!can_be_plain(&Event::End(Tag::FlattenedFootnote)));
    assert!(!can_be_plain(&Event::Start(Tag::UnindentedParagraph)));
}

#[test]
fn plain_tokens_without_anything_set_apart_need_no_token_source() {
    let mut raw = paragraph("'Hello,' she said.");
    raw.push(Event::Start(Tag::Paragraph));
    raw.push(html("<span class=\"sans\">"));
    raw.push(text("'Again'"));
    raw.push(html("</span>"));
    raw.push(Event::End(Tag::Paragraph));
    let tokens = extend(raw, true, &no_answer, &no_answer);
    assert_eq!(
        tokens,
        vec![
            Event::Start(Tag::Paragraph),
            text("‘Hello,’ she said."),
            Event::End(Tag::Paragraph),
            Event::Start(Tag::Paragraph),
            Event::Start(Tag::Sans),
            text("‘Again’"),
            Event::End(Tag::Sans),
            Event::End(Tag::Paragraph),
        ]
    );
}

#[test]
fn what_is_set_apart_is_replaced_by_the_answer_of_the_token_source() {
    fn inline(t: &str) -> Vec<Event> {
        vec![Event::Text(format!("[{}]", t))]
    }
    fn reparse(t: &str) -> Vec<Event> {
        vec![Event::Text(format!("<{}>", t)), Event::Text(String::from("y^2^"))]
    }
    let raw = vec![
        Event::Start(Tag::FootnoteDefinition(String::from("n"))),
        text(" x^2^"),
        Event::Start(Tag::CodeBlock(CodeBlockKind::Indented)),
        text("a\nb"),
        Event::End(Tag::CodeBlock(CodeBlockKind::Indented)),
        Event::End(Tag::FootnoteDefinition(String::from("n"))),
    ];
    let tokens = extend(raw, false, &inline, &reparse);
    assert_eq!(
        tokens,
        vec![
            Event::Start(Tag::FootnoteDefinition(String::from("n"))),
            text(" "),
            text("[ x<span class=\"superscript\">2</span>]"),
            text("<a\n\nb>"),
            text("[y<span class=\"superscript\">2</span>]"),
            Event::End(Tag::FootnoteDefinition(String::from("n"))),
        ]
    );
}

#[test]
fn options_of_the_reading() {
    let options = Options::default();
    assert!(options.enable_footnotes && options.smarten && !options.enable_strikethrough);
    let inline = Options::inline();
    assert!(!inline.enable_footnotes && inline.smarten && !inline.enable_strikethrough);
}

#[test]
fn package_without_identifier_gets_a_urn() {
    let mut epub = EpubSource::new();
    epub.add_content(EpubContent::new("<p>Hello</p>"));
    let opf = epub.generate_opf().unwrap();
    let at = opf.find("<dc:identifier id=\"main_identifier\">urn:uuid:").unwrap();
    let urn = &opf[at + "<dc:identifier id=\"main_identifier\">".len()..];
    let urn = &urn[..urn.find('<').unwrap()];
    assert_eq!(urn.len(), "urn:uuid:".len() + 36);
    let other = epub.generate_opf().unwrap();
    assert!(!other.contains(urn));
    let stamp_at = opf.find("id=\"last_modification\">").unwrap() + "id=\"last_modification\">".len();
    let stamp = &opf[stamp_at..stamp_at + 20];
    assert_eq!(stamp.len(), 20);
    assert!(stamp.ends_with('Z'));
    assert_eq!(&stamp[4..5], "-");
    assert_eq!(&stamp[10..11], "T");
}
