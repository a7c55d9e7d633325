use bookbinder::events::{Alignment, CodeBlockKind, Event, LinkType, Tag};
use bookbinder::extended::{can_be_plain, extend, to_plain, Options};
use bookbinder::tokens::parse_inline_plain;
use pulldown_cmark as md;

fn link_type(t: md::LinkType) -> LinkType {
    match t {
        md::LinkType::Inline => LinkType::Inline,
        md::LinkType::Reference => LinkType::Reference,
        md::LinkType::ReferenceUnknown => LinkType::ReferenceUnknown,
        md::LinkType::Collapsed => LinkType::Collapsed,
        md::LinkType::CollapsedUnknown => LinkType::CollapsedUnknown,
        md::LinkType::Shortcut => LinkType::Shortcut,
        md::LinkType::ShortcutUnknown => LinkType::ShortcutUnknown,
        md::LinkType::Autolink => LinkType::Autolink,
        md::LinkType::Email => LinkType::Email,
    }
}

fn alignment(a: md::Alignment) -> Alignment {
    match a {
        md::Alignment::None => Alignment::Unaligned,
        md::Alignment::Left => Alignment::Left,
        md::Alignment::Center => Alignment::Center,
        md::Alignment::Right => Alignment::Right,
    }
}

fn tag(t: md::Tag<'_>) -> Tag {
    match t {
        md::Tag::Paragraph => Tag::Paragraph,
        md::Tag::Heading(level) => Tag::Heading(level),
        md::Tag::BlockQuote => Tag::BlockQuote,
        md::Tag::CodeBlock(md::CodeBlockKind::Indented) => Tag::CodeBlock(CodeBlockKind::Indented),
        md::Tag::CodeBlock(md::CodeBlockKind::Fenced(info)) => {
            Tag::CodeBlock(CodeBlockKind::Fenced(info.to_string()))
        }
        md::Tag::List(start) => Tag::List(start),
        md::Tag::Item => Tag::Item,
        md::Tag::FootnoteDefinition(name) => Tag::FootnoteDefinition(name.to_string()),
        md::Tag::Table(columns) => Tag::Table(columns.into_iter().map(alignment).collect()),
        md::Tag::TableHead => Tag::TableHead,
        md::Tag::TableRow => Tag::TableRow,
        md::Tag::TableCell => Tag::TableCell,
        md::Tag::Emphasis => Tag::Emphasis,
        md::Tag::Strong => Tag::Strong,
        md::Tag::Strikethrough => Tag::Strikethrough,
        md::Tag::Link(t, dest, title) => Tag::Link(link_type(t), dest.to_string(), title.to_string()),
        md::Tag::Image(t, dest, title) => {
            Tag::Image(link_type(t), dest.to_string(), title.to_string())
        }
    }
}

fn event(e: md::Event<'_>) -> Event {
    match e {
        md::Event::Start(t) => Event::Start(tag(t)),
        md::Event::End(t) => Event::End(tag(t)),
        md::Event::Text(t) => Event::Text(t.to_string()),
        md::Event::Code(t) => Event::Code(t.to_string()),
        md::Event::Html(t) => Event::Html(t.to_string()),
        md::Event::FootnoteReference(t) => Event::FootnoteReference(t.to_string()),
        md::Event::SoftBreak => Event::SoftBreak,
        md::Event::HardBreak => Event::HardBreak,
        md::Event::Rule => Event::Rule,
        md::Event::TaskListMarker(checked) => Event::TaskListMarker(checked),
    }
}

/// The plain tokens of a text.
fn plain_tokens(text: &str, options: &Options) -> Vec<Event> {
    let mut chosen = md::Options::empty();
    if options.enable_strikethrough {
        chosen.insert(md::Options::ENABLE_STRIKETHROUGH);
    }
    if options.enable_footnotes {
        chosen.insert(md::Options::ENABLE_FOOTNOTES);
    }
    md::Parser::new_ext(text, chosen).map(event).collect()
}

/// The plain tokens of the indented text of a footnote.
fn reparse(text: &str) -> Vec<Event> {
    md::Parser::new(text).map(event).collect()
}

/// The plain tokens of a single line of text.
fn inline(text: &str) -> Vec<Event> {
    let tokens = parse(text, &Options::inline());
    parse_inline_plain(tokens)
        .into_iter()
        .map(|e| {
            if !can_be_plain(&e) {
                panic!("a token that plain markdown does not have: {:?}", e);
            }
            to_plain(e)
        })
        .collect()
}

/// The tokens of a text as a book has them.
fn parse(text: &str, options: &Options) -> Vec<Event> {
    extend(plain_tokens(text, options), options.smarten, &inline, &reparse)
}


fn text(s: &str) -> Event {
    Event::Text(s.to_string())
}

fn parsed(text: &str) -> Vec<Event> {
    parse(text, &Options::default())
}

fn smart_markdown(markdown: &str) -> String {
    let mut out = String::new();
    for event in parsed(markdown).into_iter().map(to_plain) {
        match event {
            Event::Text(t) => out.push_str(&t),
            Event::Start(Tag::Paragraph) => {
                if !out.is_empty() {
                    out.push('\n');
                }
            }
            Event::End(Tag::Paragraph) => {
                out.push_str("\n");
            }
            Event::Start(Tag::Emphasis) | Event::End(Tag::Emphasis) => {
                out.push('*');
            }
            Event::Start(Tag::CodeBlock(_)) => out.push_str("\n````\n"),
            Event::End(Tag::CodeBlock(_)) => out.push_str("````\n"),
            Event::SoftBreak => out.push_str("\n"),
            e => {
                println!("{:?}", e);
                panic!()
            }
        }
    }
    out.trim_end().to_string()
}

#[test]
fn test_cross_boundaries() {
    let markdown = "Pre 'Hello\nWorld' Post";
    let smart = smart_markdown(markdown);
    assert_eq!(smart, "Pre ‘Hello\nWorld’ Post");
    let a = "She wrote: 'It will be delightful. I am ready to do
anything, anything for you. It is a glorious idea. I know the wife of a
very high personage in the Administration, and also a man who has lots
of influence with,' etc.";
    let smart = smart_markdown(a);
    let expected = "She wrote: ‘It will be delightful. I am ready to do
anything, anything for you. It is a glorious idea. I know the wife of a
very high personage in the Administration, and also a man who has lots
of influence with,’ etc.";
    assert_eq!(smart, expected);
    let b = "'When Mr. Kurtz,' I continued, severely, 'is
General Manager, you won't have the opportunity.'";
    let smart = smart_markdown(b);
    let expected = "‘When Mr. Kurtz,’ I continued, severely, ‘is
General Manager, you won't have the opportunity.’";
    assert_eq!(smart, expected);
    let c = "A blinding sunlight drowned all this at times
in a sudden recrudescence of glare. 'There's your Company's station,'
said the Swede, pointing to three wooden barrack-like structures on the
rocky slope. 'I will send your things up. Four boxes did you say? So.
Farewell.'";
    let smart = smart_markdown(c);
    let expected = "A blinding sunlight drowned all this at times
in a sudden recrudescence of glare. ‘There's your Company's station,’
said the Swede, pointing to three wooden barrack-like structures on the
rocky slope. ‘I will send your things up. Four boxes did you say? So.
Farewell.’";
    assert_eq!(smart, expected);
}

#[test]
fn prev_integration_test_failures() {
    let a = "then--you see--I felt somehow
I must get there by hook or by crook. The men said
'My dear fellow,' and did nothing.";
    let smart = smart_markdown(a);
    let expected = "then–you see–I felt somehow
I must get there by hook or by crook. The men said
‘My dear fellow,’ and did nothing.";
    assert_eq!(smart, expected);
    let a = "He lifted a warning forefinger....
'*Du calme, du calme*.'";
    let expected = "He lifted a warning forefinger….
‘*Du calme, du calme*.’";
    let smart = smart_markdown(a);
    assert_eq!(smart, expected);

    let a = "'catch 'im. Give 'im to us.'";
    let expected = "‘catch 'im. Give 'im to us.’";
    let smart = smart_markdown(a);
    assert_eq!(smart, expected);
}

#[test]
fn tricky_quotes() {
    let markdown = "'I'd like to see some of that 70's style again,' Patrick O'Postrophe said, 'even though it's '20.'";
    let smart = smart_markdown(markdown);
    assert_eq!(smart, "‘I'd like to see some of that 70's style again,’ Patrick O'Postrophe said, ‘even though it's '20.’");

    let a = smart_markdown("'Hmm. 'Tis all one, Robert Post's child.'");
    let c = smart_markdown("'Gossip on Forsyte 'Change was not restrained.'");

    assert_eq!(a, "‘Hmm. 'Tis all one, Robert Post's child.’");
    assert_eq!(c, "‘Gossip on Forsyte 'Change was not restrained.’");
}

#[test]
fn forgotten_closing_quote_does_not_extend_over_para_boundaries() {
    let with_break = "'He's so meticulous\n\nThere was a pause... 'If you're sure.'";
    let smart = smart_markdown(with_break);
    assert_eq!(
        smart,
        "‘He's so meticulous\n\nThere was a pause… ‘If you're sure.’"
    );
}

#[test]
fn galsworthy() {
    let markdown = "'E'en so many years later, 'tis an item of gossip on Forsyte 'Change that I'd marry 'im yet.'";
    let smart = smart_markdown(markdown);
    assert_eq!(smart, "‘E'en so many years later, 'tis an item of gossip on Forsyte 'Change that I'd marry 'im yet.’");
}

#[test]
fn leave_verbatim_alone() {
    let markdown = "'Hello World' is a traditional first program. Here it is in Python:\n\n```\nprint(\"Hello World\")\n```\n\nThat's nice.";
    let smart = smart_markdown(markdown);
    assert_eq!(smart, "‘Hello World’ is a traditional first program. Here it is in Python:\n\n````\nprint(\"Hello World\")\n````\n\nThat's nice.");
}

#[test]
fn multi_para_open_quote() {
    let text = "\"A\n\n\"B";
    let smart = smart_markdown(text);
    assert_eq!(smart, "“A\n\n“B");
}

#[test]
fn double_and_single_confluence() {
    let a = "'It's---after all---the season, e'en if the situation is a *little* complicated,' he said. 'My mother always said \"Say something nice if you can.\"'";
    let smart = smart_markdown(a);
    let expected = "‘It's—after all—the season, e'en if the situation is a *little* complicated,’ he said. ‘My mother always said “Say something nice if you can.”’";
    assert_eq!(smart, expected);
}

#[test]
fn quote_transformation() {
    let markdown = "'This isn't that clever,' she said. 'No, \"Real cleverness would understand semantics, not stacks\" --- as Hiram Maxim didn't quite get around to saying.'\n\n'It'll just have to do,' he replied.";
    let smart = smart_markdown(markdown);
    assert_eq!("‘This isn't that clever,’ she said. ‘No, “Real cleverness would understand semantics, not stacks” — as Hiram Maxim didn't quite get around to saying.’\n\n‘It'll just have to do,’ he replied.", smart);
}

#[test]
fn simple_as() {
    let markdown = "'Hello World,' he said.";
    let smart = smart_markdown(markdown);
    assert_eq!(smart, "‘Hello World,’ he said.");
}

#[test]
fn apostrophe_after_opening_quote() {
    let markdown = "''Tis after all the season, e'en if the situation is a *little* complicated,' he said.";
    let smart = smart_markdown(markdown);
    assert_eq!("‘'Tis after all the season, e'en if the situation is a *little* complicated,’ he said.", smart);
}

#[test]
fn special_spans() {
    let a = parsed("<span class=\"sans\">Hello</span> <span class=\"smallcaps\">World</span>");
    let expected_a = vec![
        Event::Start(Tag::Paragraph),
        Event::Start(Tag::Sans),
        text("Hello"),
        Event::End(Tag::Sans),
        text(" "),
        Event::Start(Tag::SmallCaps),
        text("World"),
        Event::End(Tag::SmallCaps),
        Event::End(Tag::Paragraph),
    ];
    assert_eq!(a, expected_a);
}

#[test]
fn stacked_special_spans() {
    let b = parsed("<span class=\"sans\"><span class=\"inner\">Hello's</span></span> <span class=\"smallcaps\">World</span>");
    let expected_b = vec![
        Event::Start(Tag::Paragraph),
        Event::Start(Tag::Sans),
        Event::Html("<span class=\"inner\">".to_string()),
        text("Hello's"),
        Event::Html("</span>".to_string()),
        Event::End(Tag::Sans),
        text(" "),
        Event::Start(Tag::SmallCaps),
        text("World"),
        Event::End(Tag::SmallCaps),
        Event::End(Tag::Paragraph),
    ];
    assert_eq!(b, expected_b);
}

#[test]
fn multi_para_footnotes() {
    let p = parsed("Hello World[^footnote]\n\n[^footnote]:\n\tA footnote\n\n\tIn *multiple* pieces");
    let expected = vec![
        Event::Start(Tag::Paragraph),
        text("Hello World"),
        Event::FootnoteReference("footnote".to_string()),
        Event::End(Tag::Paragraph),
        Event::Start(Tag::FootnoteDefinition("footnote".to_string())),
        Event::Start(Tag::Paragraph),
        text("A footnote"),
        Event::End(Tag::Paragraph),
        Event::Start(Tag::Paragraph),
        text("In "),
        Event::Start(Tag::Emphasis),
        text("multiple"),
        Event::End(Tag::Emphasis),
        text(" pieces"),
        Event::End(Tag::Paragraph),
        Event::End(Tag::FootnoteDefinition("footnote".to_string())),
    ];
    assert_eq!(p, expected);
}

#[test]
fn super_and_sub() {
    let valid_superscripts = parsed("'Quoted.' a^bc^d a^hello^");
    let invalid_superscripts = parsed("'Quoted.' a^^ a^With space^ unpaired^");

    let expected_invalid = vec![
        Event::Start(Tag::Paragraph),
        text("‘Quoted.’ a^^ a^With space^ unpaired^"),
        Event::End(Tag::Paragraph),
    ];

    let expected_valid = vec![
        Event::Start(Tag::Paragraph),
        text("‘Quoted.’ a"),
        Event::Start(Tag::Superscript),
        text("bc"),
        Event::End(Tag::Superscript),
        text("d a"),
        Event::Start(Tag::Superscript),
        text("hello"),
        Event::End(Tag::Superscript),
        Event::End(Tag::Paragraph),
    ];

    assert_eq!(invalid_superscripts, expected_invalid);
    assert_eq!(valid_superscripts, expected_valid);
}

#[test]
fn blockquotes() {
    let tokens = parsed(
        "This checks quotes.\n\n> Single para\n\nNow multi:\n\n> Para 1...\n>\n> Para 2",
    );
    let expected = vec![
        Event::Start(Tag::Paragraph),
        text("This checks quotes."),
        Event::End(Tag::Paragraph),
        Event::Start(Tag::BlockQuote),
        Event::Start(Tag::Paragraph),
        text("Single para"),
        Event::End(Tag::Paragraph),
        Event::End(Tag::BlockQuote),
        Event::Start(Tag::Paragraph),
        text("Now multi:"),
        Event::End(Tag::Paragraph),
        Event::Start(Tag::BlockQuotation),
        Event::Start(Tag::Paragraph),
        text("Para 1…"),
        Event::End(Tag::Paragraph),
        Event::Start(Tag::Paragraph),
        text("Para 2"),
        Event::End(Tag::Paragraph),
        Event::End(Tag::BlockQuotation),
    ];
    assert_eq!(tokens, expected);
}

#[test]
fn emphasis_drop() {
    let tokens = parsed("This has *emphasis* (among the 1^st^ of its kind)");

    let expected = vec![
        Event::Start(Tag::Paragraph),
        text("This has "),
        Event::Start(Tag::Emphasis),
        text("emphasis"),
        Event::End(Tag::Emphasis),
        text(" "),
        text("(among the 1"),
        Event::Start(Tag::Superscript),
        text("st"),
        Event::End(Tag::Superscript),
        text(" of its kind)"),
        Event::End(Tag::Paragraph),
    ];

    let paired = tokens.into_iter().zip(expected);

    for (received, expected) in paired {
        assert_eq!(received, expected);
    }
}

#[test]
fn multi_para_footnote() {
    let tokens = parsed("Hello[^fn1].\n\n[^fn1]:    Here we *go*\n    Para 2'\n");
    let expected = vec![
        Event::Start(Tag::Paragraph),
        text("Hello"),
        Event::FootnoteReference("fn1".to_string()),
        text("."),
        Event::End(Tag::Paragraph),
        Event::Start(Tag::FootnoteDefinition("fn1".to_string())),
        Event::Start(Tag::Paragraph),
        text("Here we "),
        Event::Start(Tag::Emphasis),
        text("go"),
        Event::End(Tag::Emphasis),
        Event::End(Tag::Paragraph),
        Event::Start(Tag::Paragraph),
        text("Para 2’"),
        Event::End(Tag::Paragraph),
        Event::End(Tag::FootnoteDefinition("fn1".to_string())),
    ];
    assert_eq!(tokens, expected);
}
