use bookbinder::text::strip_suffix;
use bookbinder::bundle::{temp_filename, EpubContent, EpubResource, HashToString};
use bookbinder::escape::{escape_to_html, escape_to_latex};
use bookbinder::mimetypes::{GuessMimeType, MimeType, MimeTypeHelper};
use bookbinder::numbers::{
    number_to_decimal, number_to_letter, number_to_roman, number_to_words, signed_to_decimal,
};

#[test]
fn test_numbers_to_letter() {
    assert_eq!(number_to_letter(0), Ok('A'));
    assert_eq!(number_to_letter(25), Ok('Z'));
    assert_eq!(number_to_letter(27), Err(()));
}

#[test]
fn number_to_letter_at_the_edge() {
    assert_eq!(number_to_letter(1), Ok('B'));
    assert_eq!(number_to_letter(26), Err(()));
    assert_eq!(number_to_letter(255), Err(()));
}

#[test]
fn lib_test_hash_to_string() {
    let s = "Hello world".hash_to_string();
    assert_eq!(s, "2216321107127430384");
}

#[test]
fn hash_to_string_is_the_hash_in_digits() {
    let text = "Hello".to_string();
    assert_eq!(text.hash_to_string(), text.as_hash().to_string());
    assert_eq!("Hello".as_hash(), text.as_hash());
    let data: Vec<u8> = vec![1, 2, 3];
    assert_eq!(data.hash_to_string(), data.as_hash().to_string());
    assert_eq!(
        temp_filename("Hello", "txt"),
        format!("{}.txt", "Hello".as_hash())
    );
}

#[test]
fn test_numbers_to_word() {
    assert_eq!(number_to_words(0), "ZERO");
    assert_eq!(number_to_words(5), "FIVE");
    assert_eq!(number_to_words(12), "TWELVE");
    assert_eq!(number_to_words(25), "TWENTY-FIVE");
    assert_eq!(number_to_words(125), "ONE HUNDRED AND TWENTY-FIVE");
}

#[test]
fn numbers_to_word_at_the_edges() {
    assert_eq!(number_to_words(19), "NINETEEN");
    assert_eq!(number_to_words(20), "TWENTY");
    assert_eq!(number_to_words(99), "NINETY-NINE");
    assert_eq!(number_to_words(100), "ONE HUNDRED");
    assert_eq!(number_to_words(200), "TWO HUNDRED");
    assert_eq!(number_to_words(213), "TWO HUNDRED AND THIRTEEN");
    assert_eq!(number_to_words(255), "TWO HUNDRED AND FIFTY-FIVE");
}

#[test]
fn test_numbers_to_roman() {
    assert_eq!(number_to_roman(0), "");
    assert_eq!(number_to_roman(1), "I");
}

#[test]
fn numbers_to_roman_use_the_subtractive_forms() {
    assert_eq!(number_to_roman(4), "IV");
    assert_eq!(number_to_roman(9), "IX");
    assert_eq!(number_to_roman(14), "XIV");
    assert_eq!(number_to_roman(40), "XL");
    assert_eq!(number_to_roman(49), "XLIX");
    assert_eq!(number_to_roman(90), "XC");
    assert_eq!(number_to_roman(99), "XCIX");
    assert_eq!(number_to_roman(148), "CXLVIII");
    assert_eq!(number_to_roman(255), "CCLV");
}

#[test]
fn numbers_in_decimal_digits() {
    assert_eq!(number_to_decimal(0), "0");
    assert_eq!(number_to_decimal(7), "7");
    assert_eq!(number_to_decimal(10), "10");
    assert_eq!(number_to_decimal(1234567890), "1234567890");
    assert_eq!(number_to_decimal(u128::MAX), u128::MAX.to_string());
    assert_eq!(signed_to_decimal(-1), "-1");
    assert_eq!(signed_to_decimal(0), "0");
    assert_eq!(signed_to_decimal(42), "42");
    assert_eq!(signed_to_decimal(i64::MIN), i64::MIN.to_string());
}

#[test]
fn test_mimetypes() {
    let jpg = "example.jpg";
    let jpeg = "example.jpeg";
    let png = "example.png";
    let gif = "example.gif";
    let svg = "example.svg";
    let eps = "example.eps";
    let css = "example.css";
    let otf = "example.otf";
    let woff = "example.woff";
    let xhtml = "example.xhtml";
    let text = "example.txt";
    let md = "example.md";
    let pdf = "example.pdf";

    let jpg_paths = [jpg, jpeg];
    let epub_supported_images = [jpg, jpeg, png, gif, svg];
    let latex_supported_images = [png, pdf, jpg, jpeg, eps];
    let css_paths = [css];
    let epub_supported_resources = [css, woff, otf, xhtml, jpg, jpeg, png, gif, svg];
    let opentype_paths = [otf];
    let woff_paths = [woff];
    let xhtml_paths = [xhtml];
    let markdown_paths = [text, md];

    let all_paths = [
        jpg, jpeg, png, gif, svg, eps, css, otf, woff, xhtml, text, md,
    ];

    for p in all_paths.iter() {
        assert_eq!(p.is_jpg(), jpg_paths.contains(p));
        assert_eq!(
            p.is_epub_supported_image(),
            epub_supported_images.contains(p)
        );
        assert_eq!(
            p.is_latex_supported_image(),
            latex_supported_images.contains(p)
        );
        assert_eq!(p.is_css(), css_paths.contains(p));
        assert_eq!(
            p.is_epub_supported_resource(),
            epub_supported_resources.contains(p)
        );
        assert_eq!(p.is_opentype(), opentype_paths.contains(p));
        assert_eq!(p.is_woff(), woff_paths.contains(p));
        assert_eq!(p.is_xhtml(), xhtml_paths.contains(p));
        assert_eq!(p.is_markdown(), markdown_paths.contains(p));
    }
    assert!(pdf.is_pdf());
}

#[test]
fn mimetype_of_an_extension_and_its_name() {
    assert_eq!(MimeType::new_from_extension("jpeg"), Some(MimeType::Jpeg));
    assert_eq!(MimeType::new_from_extension("markdown"), Some(MimeType::Markdown));
    assert_eq!(MimeType::new_from_extension("latex"), Some(MimeType::Latex));
    assert_eq!(MimeType::new_from_extension("exe"), None);
    assert_eq!(MimeType::new_from_extension(""), None);
    assert_eq!(MimeType::Svg.to_str(), "image/svg+xml");
    assert_eq!(MimeType::Epub.to_str(), "application/epub+zip");
    assert_eq!("dir/cover.png".guess_mime(), Some(MimeType::Png));
    assert_eq!("no_extension".guess_mime(), None);
    assert!(MimeType::Png.is_valid_logo_image());
    assert!(!MimeType::Svg.is_valid_logo_image());
    assert!(MimeType::Svg.is_suitable_cover_background());
    assert!(!"cover.gif".is_suitable_cover_background());
}

#[test]
fn test_latex_escapes() {
    let escapes = [
        ("&", "\\&"),
        ("%", "\\%"),
        ("$", "\\$"),
        ("#", "\\#"),
        ("_", "\\_"),
        ("{Hello}", "\\{Hello\\}"),
        ("[Hello]", "{[}Hello{]}"),
        ("~", "\\textasciitilde{}"),
        ("^", "\\textasciicircum{}"),
        ("\\", "\\textbackslash{}"),
    ];
    for (input, expected) in escapes.iter() {
        let s = input.to_string();
        let out = escape_to_latex(&s);
        assert_eq!(out.to_string(), *expected);
    }
}

#[test]
fn latex_escapes_of_typographic_marks() {
    assert_eq!(escape_to_latex("a…b"), "a\\ldots{}b");
    assert_eq!(escape_to_latex("1–2—3"), "1--2---3");
    assert_eq!(escape_to_latex("a\u{a0}b"), "a~b");
    assert_eq!(escape_to_latex("plain"), "plain");
}

#[test]
fn html_escapes() {
    assert_eq!(escape_to_html("a < b > c & d"), "a &lt; b &gt; c &amp; d");
    assert_eq!(escape_to_html("it's"), "it’s");
    assert_eq!(escape_to_html("plain"), "plain");
    assert_eq!(escape_to_html(""), "");
}

#[test]
fn content_takes_one_entry_in_the_table_of_contents() {
    let mut content = EpubContent::new("<p>text</p>");
    assert_eq!(content.data, "<p>text</p>");
    assert!(content.output_path.ends_with(".xhtml"));
    assert!(!content.includes_svg);
    assert_eq!(content.toc_entry, None);
    assert_eq!(
        content.set_toc_title("See <a href=\"x\">this</a> and <a>that</a>", 2),
        Ok(())
    );
    let entry = content.toc_entry.as_ref().unwrap();
    assert_eq!(entry.level, 2);
    assert_eq!(entry.title, "See this and that");
    assert_eq!(
        content.set_toc_title("Again", 1),
        Err("Toc entry already exists")
    );
    assert_eq!(content.toc_entry.as_ref().unwrap().title, "See this and that");
    content.does_include_svg();
    assert!(content.includes_svg);
}

#[test]
fn jpeg_resource_is_named_by_its_data() {
    let r = EpubResource::new_jpg(vec![1, 2, 3]);
    assert_eq!(r.mimetype, MimeType::Jpeg);
    assert_eq!(r.data, vec![1, 2, 3]);
    assert_eq!(r.output_path, format!("{}.jpg", vec![1u8, 2, 3].as_hash()));
    assert_eq!(r, EpubResource::new_jpg(vec![1, 2, 3]));
}

#[test]
fn suffix_is_taken_off_whole_characters_only() {
    assert_eq!(strip_suffix("caf\u{e9}".to_string(), "\u{e9}"), "caf");
    assert_eq!(strip_suffix("caf\u{e9}".to_string(), "f\u{e9}"), "ca");
    assert_eq!(strip_suffix("\u{e9}".to_string(), "a"), "\u{e9}");
    assert_eq!(strip_suffix("a\u{e9}".to_string(), "\u{a9}"), "a\u{e9}");
    assert_eq!(strip_suffix("abc".to_string(), ""), "abc");
    assert_eq!(strip_suffix("abc".to_string(), "abc"), "");
    assert_eq!(strip_suffix("bc".to_string(), "abc"), "bc");
    assert_eq!(strip_suffix("\u{4e16}\u{754c}".to_string(), "\u{754c}"), "\u{4e16}");
}
