use bookbinder::bundle::{EpubContent, EpubResource};
use bookbinder::bundler::{epub_source_of, Container, EpubBundlingError};
use bookbinder::langtag::parse_lang_tag;
use bookbinder::metadata::Metadata;
use bookbinder::mimetypes::MimeType;
use bookbinder::package::{EpubSource, TitleCode};
use bookbinder::vocabulary::{
    ContributorRole, DublinCoreElement, EpubTitleType, MarcRelator, OnixContributorCode,
    OnixProductIdentifier, OnixTitleCode, ValueMapping,
};
use bookbinder::toc::{TEManager, TE};
use std::io::Read;

fn without_stamp(opf: &str) -> String {
    opf.split("\n")
        .filter(|line| {
            !line
                .trim()
                .starts_with("<meta property=\"dcterms:modified\" id=\"last_modification\"")
        })
        .map(|l| l.to_string())
        .collect::<Vec<String>>()
        .join("\n")
}

#[test]
fn test_opf() {
    let ci = EpubResource {
        output_path: String::from("cover.jpg"),
        data: Vec::new(),
        mimetype: MimeType::Jpeg,
    };

    let mut epub = EpubSource::new();
    epub.set_title("The Everything Book").unwrap();
    epub.set_subtitle("With a subtitle").unwrap();
    epub.add_author("Some Guy");
    epub.add_author("Another Guy");
    epub.add_editor("Some Editor");
    epub.add_author_of_foreword("A.N. Academic");
    epub.set_isbn("123456789");
    epub.set_language("en").unwrap();
    epub.set_cover_image(ci).unwrap();

    let content = EpubContent::new("Hello world");
    epub.add_content(content);

    let opf = epub.generate_opf().unwrap();
    let opf = without_stamp(&opf);

    let expected = "<package version=\"3.0\" unique-identifier=\"main_identifier\" xmlns=\"http://www.idpf.org/2007/opf\" xmlns:dc=\"http://purl.org/dc/elements/1.1/\" xmlns:dcterms=\"http://purl.org/dc/terms/\">\n  <metadata>\n    <dc:title id=\"title0\">The Everything Book</dc:title>\n    <dc:title id=\"title1\">With a subtitle</dc:title>\n    <dc:creator id=\"creator0\">Some Guy</dc:creator>\n    <dc:creator id=\"creator1\">Another Guy</dc:creator>\n    <dc:contributor id=\"contributor0\">Some Editor</dc:contributor>\n    <dc:contributor id=\"contributor1\">A.N. Academic</dc:contributor>\n    <dc:identifier id=\"main_identifier\">123456789</dc:identifier>\n    <dc:language>en</dc:language>\n    <meta property=\"title-type\" refines=\"#title0\">main</meta>\n    <meta property=\"title-type\" refines=\"#title1\">subtitle</meta>\n    <meta property=\"role\" refines=\"#creator0\" scheme=\"marc:relators\">aut</meta>\n    <meta property=\"role\" refines=\"#creator1\" scheme=\"marc:relators\">aut</meta>\n    <meta property=\"role\" refines=\"#contributor0\" scheme=\"marc:relators\">edt</meta>\n    <meta property=\"role\" refines=\"#contributor1\" scheme=\"onix:codelist17\">a23</meta>\n    <meta property=\"role\" refines=\"#contributor1\" scheme=\"marc:relators\">aui</meta>\n    <meta property=\"identifier-type\" refines=\"#main_identifier\" scheme=\"onix:codelist5\">i15</meta>\n  </metadata>\n  <manifest>\n    <item id=\"contents_0\" media-type=\"application/xhtml+xml\" href=\"2216321107127430384.xhtml\"></item>\n    <item id=\"cover_image\" media-type=\"image/jpeg\" href=\"cover.jpg\" properties=\"cover-image\"></item>\n    <item id=\"mainnav\" media-type=\"application/xhtml+xml\" href=\"toc.xhtml\" properties=\"nav\"></item>\n  </manifest>\n  <spine><itemref idref=\"contents_0\"></itemref>\n\t</spine>\n</package>";
    assert_eq!(opf, expected);
}

#[test]
fn test_toc_stuff() {
    let mut toc_entries = TEManager::new();
    toc_entries.add_new_entry("a.xhtml", 1, "Part 1"); // idx 0
    toc_entries.add_new_entry("b.xhtml", 2, "Chapter 1"); // idx 1
    toc_entries.add_new_entry("c.xhtml", 1, "Part 2"); // idx 2
    assert_eq!(
        toc_entries
            .get_top_level_entries()
            .into_iter()
            .map(|e| match e {
                TE::Branch { text, .. } => text,
                TE::Leaf { text, .. } => text,
            })
            .collect::<Vec<_>>(),
        vec!["Part 1", "Part 2"]
    );

    let part_1 = toc_entries.entries.get(0).unwrap();
    assert_eq!(
        part_1,
        &TE::Branch {
            idx: 0,
            level: 1,
            parent: None,
            href: String::from("a.xhtml"),
            text: "Part 1".to_string(),
            children: vec![1]
        }
    );

    let c = toc_entries.entries.get(0).unwrap().get_children_indices();
    assert_eq!(*c.unwrap().first().unwrap(), 1 as usize);
}

#[test]
fn table_of_contents_is_written_as_nested_lists() {
    let mut toc = TEManager::new();
    toc.add_new_entry("a.xhtml", 1, "Part 1");
    toc.add_new_entry("b.xhtml", 2, "Chapter 1");
    toc.add_new_entry("c.xhtml", 2, "Chapter 2");
    toc.add_new_entry("d.xhtml", 1, "Part 2");
    assert_eq!(
        toc.render(),
        "<ol>\n<li>\n<a href=\"a.xhtml\">Part 1</a>\n<ol>\n\t<li>\n<a href=\"b.xhtml\">Chapter 1</a>\n</li>\n\t<li>\n<a href=\"c.xhtml\">Chapter 2</a>\n</li>\n</ol>\n</li>\n<li>\n<a href=\"d.xhtml\">Part 2</a>\n</li>\n</ol>"
    );
    assert_eq!(toc.entries[1].get_parent_idx(), Some(0));
    assert_eq!(toc.entries[3].get_parent_idx(), None);
    assert_eq!(toc.entries[2].get_level(), 2);
}

#[test]
fn empty_table_of_contents_is_an_empty_list() {
    assert_eq!(TEManager::new().render(), "<ol>\n</ol>");
}

#[test]
fn entry_goes_below_the_last_entry_of_a_lower_level() {
    let mut toc = TEManager::new();
    toc.add_new_entry("a.xhtml", 0, "Book");
    toc.add_new_entry("b.xhtml", 1, "Part");
    toc.add_new_entry("c.xhtml", 2, "Chapter");
    toc.add_new_entry("d.xhtml", 2, "Another");
    assert_eq!(toc.entries[2].get_parent_idx(), Some(1));
    assert_eq!(toc.entries[3].get_parent_idx(), Some(1));
    assert_eq!(toc.entries[1].get_children_indices(), Some(vec![2, 3]));
    assert_eq!(toc.entries[0].get_children_indices(), Some(vec![1]));
    assert_eq!(toc.entries[3].get_children_indices(), None);
}

#[test]
fn second_main_title_is_refused() {
    let mut epub = EpubSource::new();
    assert!(epub.set_title("One").is_ok());
    assert_eq!(epub.set_title("Two"), Err("Main title already set"));
    assert!(epub.set_subtitle("Sub").is_ok());
    assert_eq!(epub.set_subtitle("Sub again"), Err("Subtitle already set"));
    assert_eq!(epub.title.len(), 2);
    epub.set_epub_title("Short", EpubTitleType::Short);
    assert_eq!(epub.title.len(), 3);
}

#[test]
fn authors_are_creators_and_the_others_contributors() {
    let mut epub = EpubSource::new();
    epub.add_marc_contributor("A", MarcRelator::Aut);
    epub.add_marc_contributor("B", MarcRelator::Edt);
    epub.add_onix_contributor("C", OnixContributorCode::A01);
    epub.add_onix_contributor("D", OnixContributorCode::A19);
    epub.add_translator("E");
    epub.add_author_of_introduction("F");
    epub.add_author_of_afterword("G");
    epub.add_author_of_introduction_and_notes("H");
    let creators: Vec<&str> = epub.creators.iter().map(|c| c.name.as_str()).collect();
    let contributors: Vec<&str> = epub.contributors.iter().map(|c| c.name.as_str()).collect();
    assert_eq!(creators, vec!["A", "C"]);
    assert_eq!(contributors, vec!["B", "D", "E", "F", "G", "H"]);
}

#[test]
fn stylesheet_and_cover_must_be_of_their_kind() {
    let png = EpubResource {
        output_path: String::from("a.png"),
        data: vec![1, 2],
        mimetype: MimeType::Png,
    };
    let css = EpubResource {
        output_path: String::from("a.css"),
        data: vec![3],
        mimetype: MimeType::Css,
    };
    let svg = EpubResource {
        output_path: String::from("a.svg"),
        data: vec![4],
        mimetype: MimeType::Svg,
    };
    let mut epub = EpubSource::new();
    assert_eq!(epub.set_css(png), Err("Not css"));
    assert!(epub.css.is_none());
    assert!(epub.set_css(css).is_ok());
    assert_eq!(epub.css.as_ref().unwrap().output_path, "a.css");
    assert_eq!(
        epub.set_cover_image(svg),
        Err("Invalid mimetype for cover image")
    );
    assert!(epub.cover_image.is_none());
}

#[test]
fn package_without_title_and_identifier_gets_them() {
    let mut epub = EpubSource::new();
    epub.add_content(EpubContent::new("<p>Hello</p>"));
    let ids: Vec<String> = Vec::new();
    let opf = epub
        .generate_opf_with("urn:uuid:0000", "2020-01-02T03:04:05Z", &ids)
        .unwrap();
    assert!(opf.contains("    <dc:title>Untitled</dc:title>\n"));
    assert!(opf.contains("    <dc:identifier id=\"main_identifier\">urn:uuid:0000</dc:identifier>\n"));
    assert!(opf.contains("    <dc:language>en</dc:language>\n"));
    assert!(opf.contains(
        "    <meta property=\"dcterms:modified\" id=\"last_modification\">2020-01-02T03:04:05Z</meta>\n"
    ));
    assert!(opf.contains(
        "    <meta property=\"identifier-type\" refines=\"#main_identifier\" scheme=\"onix:codelist5\">i22</meta>\n"
    ));
}

#[test]
fn date_of_change_that_was_set_is_written() {
    let mut epub = EpubSource::new();
    epub.add_content(EpubContent::new("<p>Hello</p>"));
    epub.set_modification_date("1999-12-31T23:59:59Z");
    let opf = epub.generate_opf().unwrap();
    assert!(opf.contains(
        "<meta property=\"dcterms:modified\" id=\"last_modification\">1999-12-31T23:59:59Z</meta>"
    ));
}

#[test]
fn resources_are_listed_under_their_ids() {
    let mut epub = EpubSource::new();
    epub.add_content(EpubContent::new("<p>Hello</p>"));
    epub.add_resource(EpubResource {
        output_path: String::from("pic.png"),
        data: vec![1],
        mimetype: MimeType::Png,
    });
    epub.add_resource(EpubResource {
        output_path: String::from("extra.xhtml"),
        data: vec![2],
        mimetype: MimeType::Xhtml,
    });
    let ids = vec![String::from("aa"), String::from("bb")];
    let manifest = epub.get_manifest_items_with(&ids).unwrap();
    let listed: Vec<(&str, &str, &str)> = manifest
        .iter()
        .map(|m| (m.id.as_str(), m.media_type, m.href.as_str()))
        .collect();
    assert_eq!(listed.len(), 4);
    assert_eq!(listed[0].0, "contents_0");
    assert_eq!(listed[1], ("resource_aa", "image/png", "pic.png"));
    assert_eq!(
        listed[2],
        ("resource_bb", "application/xhtml+xml", "extra.xhtml")
    );
    assert_eq!(listed[3], ("mainnav", "application/xhtml+xml", "toc.xhtml"));
    let spine = EpubSource::get_spine_items(&manifest).unwrap();
    let refs: Vec<&str> = spine.iter().map(|s| s.idref.as_str()).collect();
    assert_eq!(refs, vec!["contents_0", "resource_bb"]);
}

#[test]
fn ids_drawn_for_resources_differ() {
    let mut epub = EpubSource::new();
    for name in ["a.png", "b.png"] {
        epub.add_resource(EpubResource {
            output_path: String::from(name),
            data: vec![1],
            mimetype: MimeType::Png,
        });
    }
    let manifest = epub.get_manifest_items().unwrap();
    assert_eq!(manifest.len(), 3);
    assert!(manifest[0].id.starts_with("resource_"));
    assert_eq!(manifest[0].id.len(), "resource_".len() + 32);
    assert_ne!(manifest[0].id, manifest[1].id);
}

#[test]
fn source_that_holds_nothing_has_no_manifest() {
    let epub = EpubSource::new();
    assert!(matches!(
        epub.get_manifest_items(),
        Err(EpubBundlingError::EmptyManifest)
    ));
    assert!(matches!(
        epub.generate_opf(),
        Err(EpubBundlingError::EmptyManifest)
    ));
    assert!(matches!(
        epub.bundle_epub(),
        Err(EpubBundlingError::EmptyManifest)
    ));
}

#[test]
fn source_without_pages_has_no_spine() {
    let mut epub = EpubSource::new();
    epub.add_resource(EpubResource {
        output_path: String::from("pic.png"),
        data: vec![1],
        mimetype: MimeType::Png,
    });
    assert!(matches!(
        epub.generate_opf(),
        Err(EpubBundlingError::EmptySpine)
    ));
    let mut epub = epub;
    assert!(matches!(epub.bundle(), Err(EpubBundlingError::EmptySpine)));
}

#[test]
fn container_without_files_is_refused() {
    let container = Container { files: Vec::new() };
    assert!(matches!(
        container.to_epub(),
        Err(EpubBundlingError::EmptyContainer)
    ));
}

fn entries_of(bytes: Vec<u8>) -> Vec<(String, Vec<u8>)> {
    let mut archive = zip::ZipArchive::new(std::io::Cursor::new(bytes)).unwrap();
    let mut entries = Vec::new();
    for i in 0..archive.len() {
        let mut file = archive.by_index(i).unwrap();
        let mut data = Vec::new();
        file.read_to_end(&mut data).unwrap();
        entries.push((file.name().to_string(), data));
    }
    entries
}

#[test]
fn container_holds_its_files_behind_the_head() {
    let container = Container {
        files: vec![("a.txt", "one".as_bytes()), ("b/c.txt", "two".as_bytes())],
    };
    let entries = entries_of(container.to_epub().unwrap());
    let names: Vec<&str> = entries.iter().map(|e| e.0.as_str()).collect();
    assert_eq!(
        names,
        vec![
            "mimetype",
            "META-INF/",
            "META-INF/container.xml",
            "a.txt",
            "b/c.txt"
        ]
    );
    assert_eq!(entries[0].1, b"application/epub+zip".to_vec());
    assert_eq!(
        String::from_utf8(entries[2].1.clone()).unwrap(),
        "<?xml version=\"1.0\"?>\n<container version=\"1.0\" xmlns=\"urn:oasis:names:tc:opendocument:xmlns:container\">\n\t<rootfiles>\n\t\t<rootfile full-path=\"document.opf\" media-type=\"application/oebps-package+xml\" />\n\n\t</rootfiles>\n</container>"
    );
    assert_eq!(entries[3].1, b"one".to_vec());
    assert_eq!(entries[4].1, b"two".to_vec());
}

#[test]
fn bundle_holds_documents_content_and_resources_in_order() {
    let mut epub = EpubSource::new();
    epub.set_title("A Book").unwrap();
    let mut page = EpubContent::new("<p>Hello</p>");
    page.set_toc_title("Hello", 1).unwrap();
    let page_path = page.output_path.clone();
    epub.add_content(page);
    epub.add_resource(EpubResource {
        output_path: String::from("pic.png"),
        data: vec![9, 8, 7],
        mimetype: MimeType::Png,
    });
    epub.set_cover_image(EpubResource {
        output_path: String::from("cover.jpg"),
        data: vec![1],
        mimetype: MimeType::Jpeg,
    })
    .unwrap();
    epub.set_css(EpubResource {
        output_path: String::from("style.css"),
        data: b"p {}".to_vec(),
        mimetype: MimeType::Css,
    })
    .unwrap();
    let entries = entries_of(epub.bundle().unwrap());
    let names: Vec<&str> = entries.iter().map(|e| e.0.as_str()).collect();
    assert_eq!(
        names,
        vec![
            "mimetype",
            "META-INF/",
            "META-INF/container.xml",
            "document.opf",
            "toc.xhtml",
            page_path.as_str(),
            "pic.png",
            "cover.jpg",
            "style.css"
        ]
    );
    assert_eq!(entries[5].1, b"<p>Hello</p>".to_vec());
    assert_eq!(entries[6].1, vec![9, 8, 7]);
    let nav = String::from_utf8(entries[4].1.clone()).unwrap();
    assert_eq!(nav, epub.get_nav());
    assert!(nav.contains("<link rel=\"stylesheet\" href=\"style.css\" type=\"text/css\"></link>"));
    assert!(nav.contains(&format!(
        "<ol>\n<li>\n<a href=\"{}\">Hello</a>\n</li>\n</ol>",
        page_path
    )));
    let opf = String::from_utf8(entries[3].1.clone()).unwrap();
    assert!(opf.starts_with("<package version=\"3.0\""));
    assert!(opf.contains("<item id=\"base_css\" media-type=\"text/css\" href=\"style.css\"></item>"));
}

#[test]
fn language_tags_are_written_in_their_usual_case() {
    assert_eq!(parse_lang_tag("en"), Ok(String::from("en")));
    assert_eq!(parse_lang_tag("EN-gb"), Ok(String::from("en-GB")));
    assert_eq!(parse_lang_tag("zh-hans-cn"), Ok(String::from("zh-Hans-CN")));
    assert_eq!(parse_lang_tag("sr-LATN"), Ok(String::from("sr-Latn")));
    assert_eq!(parse_lang_tag("es-419"), Ok(String::from("es-419")));
    assert_eq!(
        parse_lang_tag("zh-cmn-Hans-CN"),
        Ok(String::from("zh-cmn-Hans-CN"))
    );
    assert_eq!(
        parse_lang_tag("sl-ROZAJ-BISKE"),
        Ok(String::from("sl-rozaj-biske"))
    );
    assert_eq!(parse_lang_tag("de-1901"), Ok(String::from("de-1901")));
    assert_eq!(
        parse_lang_tag("en-US-U-Islamcal"),
        Ok(String::from("en-US-u-islamcal"))
    );
    assert_eq!(
        parse_lang_tag("en-X-Private"),
        Ok(String::from("en-x-private"))
    );
    assert_eq!(parse_lang_tag("english"), Ok(String::from("english")));
}

#[test]
fn what_is_no_language_tag_is_refused() {
    assert_eq!(parse_lang_tag(""), Err(()));
    assert_eq!(parse_lang_tag("e"), Err(()));
    assert_eq!(parse_lang_tag("e1"), Err(()));
    assert_eq!(parse_lang_tag("en-"), Err(()));
    assert_eq!(parse_lang_tag("en--GB"), Err(()));
    assert_eq!(parse_lang_tag("en-toolongsubtag"), Err(()));
    assert_eq!(parse_lang_tag("en-u"), Err(()));
    assert_eq!(parse_lang_tag("en-x"), Err(()));
    assert_eq!(parse_lang_tag("en-u-x-a"), Err(()));
    assert_eq!(parse_lang_tag("en-a-b"), Err(()));
    assert_eq!(parse_lang_tag("zh-aaa-bbb-ccc-ddd"), Err(()));
    assert_eq!(parse_lang_tag("english-abc"), Err(()));
    assert_eq!(parse_lang_tag("en-GB-Latn"), Err(()));
    assert_eq!(parse_lang_tag("fr-é"), Err(()));
    let mut epub = EpubSource::new();
    assert_eq!(epub.set_language("not a tag"), Err("Invalid language"));
    assert!(epub.lang.is_none());
    assert!(epub.set_language("PT-br").is_ok());
    assert_eq!(epub.lang.as_deref(), Some("pt-BR"));
}

#[test]
fn resource_is_made_of_a_file_that_an_epub_can_hold() {
    let r = EpubResource::from_data("images/pic.png", vec![1, 2, 3]).unwrap();
    assert_eq!(r.output_path, "pic.png");
    assert_eq!(r.data, vec![1, 2, 3]);
    assert_eq!(r.mimetype, MimeType::Png);
    assert_eq!(
        EpubResource::from_data("notes.pdf", vec![1]),
        Err(String::from("Invalid mimetype for notes.pdf: Some(Pdf)"))
    );
    assert_eq!(
        EpubResource::from_data("notes", vec![1]),
        Err(String::from("Invalid mimetype for notes: None"))
    );
    assert_eq!(
        EpubResource::from_parts("x.css", &Some(String::from("css")), None, vec![]),
        Err(String::from("No file name: x.css"))
    );
}

#[test]
fn book_metadata_goes_into_the_source_of_the_epub() {
    let mut metadata = Metadata::new("A Book");
    metadata.subtitle = Some(String::from("A Subtitle"));
    metadata.authors = vec![String::from("Ann"), String::from("Bob")];
    metadata.editors = vec![String::from("Ed")];
    metadata.translators = vec![String::from("Tess")];
    metadata.foreword_authors = vec![String::from("Fay")];
    metadata.introduction_authors = vec![String::from("Ian")];
    metadata.afterword_authors = vec![String::from("Alf")];
    metadata.introduction_and_notes_authors = vec![String::from("Nan")];
    metadata.epub_isbn = Some(String::from("9781492067665"));
    let source = epub_source_of(
        &metadata,
        vec![EpubContent::new("<p>Hello</p>")],
        Vec::new(),
        Some(vec![1, 2, 3]),
    );
    let titles: Vec<&str> = source.title.iter().map(|t| t.text.as_str()).collect();
    assert_eq!(titles, vec!["A Book", "A Subtitle"]);
    let creators: Vec<&str> = source.creators.iter().map(|c| c.name.as_str()).collect();
    assert_eq!(creators, vec!["Ann", "Bob"]);
    let contributors: Vec<&str> = source
        .contributors
        .iter()
        .map(|c| c.name.as_str())
        .collect();
    assert_eq!(contributors, vec!["Ed", "Tess", "Fay", "Ian", "Alf", "Nan"]);
    assert_eq!(source.identifier.as_ref().unwrap().text, "9781492067665");
    let cover = source.cover_image.as_ref().unwrap();
    assert_eq!(cover.mimetype, MimeType::Jpeg);
    assert_eq!(cover.data, vec![1, 2, 3]);
    assert!(cover.output_path.ends_with(".jpg"));
    let opf = source
        .generate_opf_with("unused", "2020-01-01T00:00:00Z", &Vec::new())
        .unwrap();
    assert!(opf.contains("<meta property=\"role\" refines=\"#contributor5\" scheme=\"onix:codelist17\">a29</meta>"));
    assert!(opf.contains("<meta property=\"role\" refines=\"#contributor4\" scheme=\"onix:codelist17\">a19</meta>\n    <meta property=\"role\" refines=\"#contributor4\" scheme=\"marc:relators\">aft</meta>"));
}

#[test]
fn relators_are_read_from_names_and_codes() {
    assert_eq!(MarcRelator::from_str("author"), Ok(MarcRelator::Aut));
    assert_eq!(MarcRelator::from_str("aut"), Ok(MarcRelator::Aut));
    assert_eq!(MarcRelator::from_str("abridger"), Ok(MarcRelator::Abr));
    assert_eq!(MarcRelator::from_str("art copyist"), Ok(MarcRelator::Acp));
    assert_eq!(MarcRelator::from_str("translator"), Ok(MarcRelator::Trl));
    assert_eq!(MarcRelator::from_str("writer of added text"), Ok(MarcRelator::Wat));
    assert_eq!(MarcRelator::from_str("wat"), Ok(MarcRelator::Wat));
    assert_eq!(MarcRelator::from_str("Author"), Err(()));
    assert_eq!(MarcRelator::from_str(""), Err(()));
    assert_eq!(MarcRelator::from_str("wst"), Err(()));
    assert_eq!(MarcRelator::Aut.as_code(), "aut");
    assert_eq!(MarcRelator::Wst.as_code(), "wst");
}

#[test]
fn contributor_codes_are_read_in_either_case() {
    assert_eq!(OnixContributorCode::from_str("a01"), Ok(OnixContributorCode::A01));
    assert_eq!(OnixContributorCode::from_str("A01"), Ok(OnixContributorCode::A01));
    assert_eq!(OnixContributorCode::from_str("z99"), Ok(OnixContributorCode::Z99));
    assert_eq!(OnixContributorCode::from_str("B06"), Ok(OnixContributorCode::B06));
    assert_eq!(OnixContributorCode::from_str("a1"), Err(()));
    assert_eq!(OnixContributorCode::from_str("aut"), Err(()));
    assert_eq!(OnixContributorCode::B06.as_code(), "b06");
}

#[test]
fn kinds_of_title_are_read_from_their_names() {
    assert_eq!(EpubTitleType::from_str("main"), Ok(EpubTitleType::Main));
    assert_eq!(EpubTitleType::from_str("subtitle"), Ok(EpubTitleType::Subtitle));
    assert_eq!(EpubTitleType::from_str("short"), Ok(EpubTitleType::Short));
    assert_eq!(EpubTitleType::from_str("collection"), Ok(EpubTitleType::Collection));
    assert_eq!(EpubTitleType::from_str("edition"), Ok(EpubTitleType::Edition));
    assert_eq!(EpubTitleType::from_str("expanded"), Ok(EpubTitleType::Expanded));
    assert_eq!(EpubTitleType::from_str("Main"), Err(()));
    assert_eq!(EpubTitleType::Expanded.as_name(), "expanded");
}

#[test]
fn role_is_a_relator_first_and_a_code_of_the_other_list_second() {
    assert_eq!(
        ContributorRole::from_str("editor"),
        Ok(ContributorRole::Marc(MarcRelator::Edt))
    );
    assert_eq!(
        ContributorRole::from_str("a23"),
        Ok(ContributorRole::Onix(OnixContributorCode::A23))
    );
    assert_eq!(ContributorRole::from_str("nobody"), Err(()));
    assert_eq!(
        MarcRelator::try_from(ContributorRole::Marc(MarcRelator::Ill)),
        Ok(MarcRelator::Ill)
    );
    assert_eq!(
        MarcRelator::try_from(ContributorRole::Onix(OnixContributorCode::B06)),
        Ok(MarcRelator::Trl)
    );
    assert_eq!(
        MarcRelator::try_from(ContributorRole::Onix(OnixContributorCode::A26)),
        Err(())
    );
}

#[test]
fn codes_of_one_list_in_the_other() {
    assert_eq!(OnixContributorCode::A01.map_code(), Some(MarcRelator::Aut));
    assert_eq!(OnixContributorCode::A19.map_code(), Some(MarcRelator::Aft));
    assert_eq!(OnixContributorCode::A23.map_code(), Some(MarcRelator::Aui));
    assert_eq!(OnixContributorCode::A12.map_code(), Some(MarcRelator::Ill));
    assert_eq!(OnixContributorCode::F01.map_code(), Some(MarcRelator::Pht));
    assert_eq!(OnixContributorCode::A26.map_code(), None);
    assert_eq!(OnixContributorCode::Z99.map_code(), None);
    assert_eq!(OnixTitleCode::T01.map_code(), Some(EpubTitleType::Main));
    assert_eq!(OnixTitleCode::T05.map_code(), Some(EpubTitleType::Short));
    assert_eq!(OnixTitleCode::T13.map_code(), Some(EpubTitleType::Expanded));
    assert_eq!(OnixTitleCode::T03.map_code(), None);
    assert_eq!(OnixTitleCode::T03.as_number(), "03");
    assert_eq!(OnixProductIdentifier::I15.as_code(), "i15");
    assert_eq!(DublinCoreElement::Title.as_tagname(), "dc:title");
    assert_eq!(DublinCoreElement::Type.as_tagname(), "dc:type");
}

#[test]
fn titles_of_the_other_list_are_refined_in_both() {
    let mut epub = EpubSource::new();
    epub.set_onix_title("The Title", OnixTitleCode::T01);
    epub.set_onix_title("Der Titel", OnixTitleCode::T03);
    assert_eq!(epub.title[0].code, TitleCode::Onix(OnixTitleCode::T01));
    assert_eq!(epub.set_title("Another"), Err("Main title already set"));
    epub.add_onix_contributor("Somebody", OnixContributorCode::A26);
    epub.add_content(EpubContent::new("<p>Hello</p>"));
    let opf = epub
        .generate_opf_with("urn:x", "2020-01-01T00:00:00Z", &Vec::new())
        .unwrap();
    assert!(opf.contains("    <meta property=\"title-type\" refines=\"#title0\" scheme=\"onix:codelist15\">01</meta>\n    <meta property=\"title-type\" refines=\"#title0\">main</meta>\n    <meta property=\"title-type\" refines=\"#title1\" scheme=\"onix:codelist15\">03</meta>\n    <meta property=\"role\" refines=\"#contributor0\" scheme=\"onix:codelist17\">a26</meta>\n    <meta property=\"identifier-type\""));
}

#[test]
fn urn_is_an_identifier_of_its_kind() {
    let mut epub = EpubSource::new();
    epub.set_urn("urn:isbn:9781492067665");
    let id = epub.identifier.as_ref().unwrap();
    assert_eq!(id.code, OnixProductIdentifier::I22);
    assert_eq!(id.text, "urn:isbn:9781492067665");
    epub.set_title("A Book").unwrap();
    epub.set_modification_date("2001-02-03T04:05:06Z");
    let (dc, meta) = epub.get_metadata();
    assert_eq!(dc.len(), 3);
    assert_eq!(dc[0].value.as_deref(), Some("A Book"));
    assert_eq!(dc[1].value.as_deref(), Some("urn:isbn:9781492067665"));
    assert_eq!(dc[2].value.as_deref(), Some("en"));
    assert_eq!(meta.len(), 3);
    assert_eq!(meta[0].value, "2001-02-03T04:05:06Z");
    assert_eq!(meta[1].value, "main");
    assert_eq!(meta[2].value, "i22");
}

#[test]
fn entry_of_the_table_has_its_text() {
    let mut toc = TEManager::new();
    toc.add_new_entry("a.xhtml", 1, "Part 1");
    toc.add_new_entry("b.xhtml", 2, "Chapter 1");
    assert_eq!(toc.entries[0].get_text(), "Part 1");
    assert_eq!(toc.entries[1].get_text(), "Chapter 1");
    assert_eq!(toc.render_entry(1), "<li>\n<a href=\"b.xhtml\">Chapter 1</a>\n</li>");
}

#[test]
fn cover_from_an_svg_is_the_jpeg_that_was_made_of_it() {
    let mut epub = EpubSource::new();
    epub.set_cover_image_from_svg("<svg/>", vec![1, 2, 3]);
    let cover = epub.cover_image.as_ref().unwrap();
    assert_eq!(cover.data, vec![1, 2, 3]);
    assert_eq!(cover.mimetype, MimeType::Jpeg);
    assert!(cover.output_path.ends_with(".jpg"));
    let mut other = EpubSource::new();
    other.set_cover_image_from_svg("<svg/>", vec![4]);
    assert_eq!(other.cover_image.as_ref().unwrap().output_path, cover.output_path);
}
