use bookbinder::quotes::{
    classify_quote, convert_quotes_in_text_segment, is_ascii_punctuation, is_significant,
    TextComponent,
};

fn replace_quotes_ellipsis_and_dashes(src: &str) -> String {
    bookbinder::quotes::replace_quotes_ellipsis_and_dashes(src).join("\n")
}

#[test]
fn double_quotes_test() {
    let a = replace_quotes_ellipsis_and_dashes("\"Hello world\"");
    let c = replace_quotes_ellipsis_and_dashes("Hello world");
    let d = replace_quotes_ellipsis_and_dashes("\"Hello world");
    let e = replace_quotes_ellipsis_and_dashes("Hello world...");
    let f = replace_quotes_ellipsis_and_dashes("\"Hello world...\"");
    let g = replace_quotes_ellipsis_and_dashes("\"Hello world\"...");
    let h = replace_quotes_ellipsis_and_dashes("\"Hello world\" \"Goodbye world\"");
    let i = replace_quotes_ellipsis_and_dashes("Hello -- world --- dash");
    let j = replace_quotes_ellipsis_and_dashes("\"Hello -- world --- dash\"");

    assert_eq!(a, "“Hello world”");
    assert_eq!(c, "Hello world");
    assert_eq!(d, "“Hello world");
    assert_eq!(e, "Hello world…");
    assert_eq!(f, "“Hello world…”");
    assert_eq!(g, "“Hello world”…");
    assert_eq!(h, "“Hello world” “Goodbye world”");
    assert_eq!(i, "Hello – world — dash");
    assert_eq!(j, "“Hello – world — dash”");
}

#[test]
fn double_quotes_fixes_boundary_singles() {
    let k = replace_quotes_ellipsis_and_dashes("'Hello World'");
    assert_eq!(k, "‘Hello World’");
}

#[test]
fn music_with_rocks_in() {
    let a = replace_quotes_ellipsis_and_dashes("Rock 'n' roll!");
    assert_eq!(a, "Rock 'n' roll!");
    let b = replace_quotes_ellipsis_and_dashes("Rock n' roll!");
    assert_eq!(b, "Rock n' roll!");
    let c = replace_quotes_ellipsis_and_dashes("Rockin' rolling!");
    assert_eq!(c, "Rockin' rolling!");
    let d = replace_quotes_ellipsis_and_dashes("Rock 'n' roll!");
    assert_eq!(d, "Rock 'n' roll!");
    let e = replace_quotes_ellipsis_and_dashes("Rock ‘n’ roll!");
    assert_eq!(e, "Rock ‘n’ roll!");
    let f = replace_quotes_ellipsis_and_dashes("Rock ‘n' roll!");
    assert_eq!(f, "Rock ‘n’ roll!");
    let g = replace_quotes_ellipsis_and_dashes("Rock 'n’ roll!");
    assert_eq!(g, "Rock ‘n’ roll!");
}

#[test]
fn single_quotes_text() {
    let a = replace_quotes_ellipsis_and_dashes("Hello world");
    assert_eq!(a, "Hello world");
    let b = replace_quotes_ellipsis_and_dashes("''Tisn't a big deal,' he said.");
    assert_eq!(b, "‘'Tisn't a big deal,’ he said.");
    let c = replace_quotes_ellipsis_and_dashes("Book 'em, Danno.");
    assert_eq!(c, "Book 'em, Danno.");
    let d = replace_quotes_ellipsis_and_dashes("'Book 'em, Danno.'");
    assert_eq!(d, "‘Book 'em, Danno.’");
    let e =
        replace_quotes_ellipsis_and_dashes("'Got a feeling '21 / is going to be a good year'");
    assert_eq!(e, "‘Got a feeling '21 / is going to be a good year’");
    let f = replace_quotes_ellipsis_and_dashes("'Hello World'");
    assert_eq!(f, "‘Hello World’");
    let g = replace_quotes_ellipsis_and_dashes("She wrote: 'It will be,' etc.");
    assert_eq!(g, "She wrote: ‘It will be,’ etc.");
    let h = replace_quotes_ellipsis_and_dashes("'When Mr. Kurtz,' I continued, severely, 'is General Manager, you won't have the opportunity.'");
    assert_eq!(h, "‘When Mr. Kurtz,’ I continued, severely, ‘is General Manager, you won't have the opportunity.’");
    let i = replace_quotes_ellipsis_and_dashes("'There's your Company's station,' said the Swede, pointing to three wooden barrack-like structures on the rocky slope. 'I will send your things up. Four boxes did you say? So. Farewell.'");
    assert_eq!(i, "‘There\'s your Company\'s station,’ said the Swede, pointing to three wooden barrack-like structures on the rocky slope. ‘I will send your things up. Four boxes did you say? So. Farewell.’");
    let j = replace_quotes_ellipsis_and_dashes("'Top o' the mornin' to ya,' said the Argentinian.");
    assert_eq!(j, "‘Top o' the mornin' to ya,’ said the Argentinian.");
    let k = replace_quotes_ellipsis_and_dashes("'He does not hear.' 'What! Dead?'");
    assert_eq!(k, "‘He does not hear.’ ‘What! Dead?’");
    let l = replace_quotes_ellipsis_and_dashes("“'The last word he pronounced was–your name.'");
    assert_eq!(l, "“‘The last word he pronounced was–your name.’");
    let m = replace_quotes_ellipsis_and_dashes("He became very cool and collected all at\nonce. 'I am not such a fool as I look, quoth Plato to his disciples,'\nhe said sententiously, emptied his glass with great resolution, and we\nrose.");
    assert_eq!(m, "He became very cool and collected all at\nonce. ‘I am not such a fool as I look, quoth Plato to his disciples,’\nhe said sententiously, emptied his glass with great resolution, and we\nrose.");
    let n = replace_quotes_ellipsis_and_dashes("an air of whispering, 'Come and find out.'
This one was almost featureless, as if still in the making, with names like Gran' Bassam.");
    assert_eq!(n, "an air of whispering, ‘Come and find out.’\nThis one was almost featureless, as if still in the making, with names like Gran' Bassam.");
}

#[test]
fn texts_before_the_first_mark_stay_as_they_are() {
    let texts = vec![
        "plain".to_string(),
        "'He said".to_string(),
        "no mark here".to_string(),
        "the end.'".to_string(),
    ];
    assert_eq!(
        convert_quotes_in_text_segment(texts),
        vec![
            "plain".to_string(),
            "‘He said".to_string(),
            "no mark here".to_string(),
            "the end.’".to_string(),
        ]
    );
    let plain = vec!["one".to_string(), "two".to_string()];
    assert_eq!(convert_quotes_in_text_segment(plain.clone()), plain);
    assert_eq!(convert_quotes_in_text_segment(Vec::new()), Vec::<String>::new());
}

#[test]
fn marks_are_what_smartening_looks_for() {
    assert!(is_significant("wait..."));
    assert!(is_significant("a -- b"));
    assert!(is_significant("it's"));
    assert!(is_significant("H~2~O"));
    assert!(is_significant("“quoted”"));
    assert!(!is_significant("a - b. c."));
    assert!(!is_significant(""));
}

#[test]
fn straight_quote_is_decided_by_its_neighbours() {
    assert_eq!(classify_quote('n', 't'), TextComponent::Apostrophe);
    assert_eq!(classify_quote('“', 'T'), TextComponent::LeftQuote);
    assert_eq!(classify_quote('.', '”'), TextComponent::RightQuote);
    assert_eq!(classify_quote(' ', 'T'), TextComponent::LeftQuoteOrApostrophe);
    assert_eq!(classify_quote('n', ' '), TextComponent::RightQuoteOrApostrophe);
    assert_eq!(classify_quote(',', ' '), TextComponent::RightQuote);
    assert_eq!(classify_quote('—', 'T'), TextComponent::LeftQuote);
    assert_eq!(classify_quote('(', 'T'), TextComponent::LeftQuote);
    assert_eq!(classify_quote('n', ','), TextComponent::RightQuote);
    assert_eq!(classify_quote('é', '—'), TextComponent::RightQuote);
    assert_eq!(classify_quote('“', '—'), TextComponent::LeftQuote);
    assert_eq!(classify_quote('…', '…'), TextComponent::Apostrophe);
    assert!(is_ascii_punctuation('!'));
    assert!(is_ascii_punctuation('~'));
    assert!(is_ascii_punctuation('@'));
    assert!(!is_ascii_punctuation('a'));
    assert!(!is_ascii_punctuation(' '));
    assert!(!is_ascii_punctuation('…'));
}

#[test]
fn reggie_testing() {
    let a = bookbinder::scripts::has_script("Plain and ^super^");
    let b = bookbinder::scripts::has_script("Plain and ~sub~");
    let c = bookbinder::scripts::has_script("Plain and ~in valid~");
    let d = bookbinder::scripts::has_script("Plain and ^in valid^");
    let e = bookbinder::scripts::has_script("Plain^ and unmatched ~");
    assert!(a);
    assert!(b);
    assert!(!c);
    assert!(!d);
    assert!(!e);
}

#[test]
fn sub_and_super_byte_boundaries() {
    let text = "~2~ ‘$’ Hello’^21^’ go on";
    let processed = bookbinder::scripts::disambiguate_sub_and_superscript(text);
    assert_eq!(processed, "<span class=\"subscript\">2</span> ‘$’ Hello’<span class=\"superscript\">21</span>’ go on");
}

#[test]
fn sub_and_superscript() {
    let text = r"H~2~O 25^th^ Hello^not super^. Goodbye~not_sub~.";
    let processed = bookbinder::scripts::disambiguate_sub_and_superscript(text);
    let expected = "H<span class=\"subscript\">2</span>O 25<span class=\"superscript\">th</span> Hello^not super^. Goodbye~not_sub~.";
    assert_eq!(expected, processed);
}
