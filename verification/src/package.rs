//! The package of an EPUB: its metadata in the vocabulary of the trade, its
//! manifest and spine, its table of contents, and the documents that hold
//! them.

use crate::bundle::{is_temp_filename, temp_filename, EpubContent, EpubResource};
use crate::langtag::{lang_tag, parse_lang_tag};
use crate::mimetypes::{MimeType, MimeTypeHelper};
use crate::numbers::{decimal, number_to_decimal};
use crate::seqs::{group_views, views};
use crate::vocabulary::{
    ContributorRole, DublinCoreElement, EpubTitleType, MarcRelator, OnixContributorCode,
    OnixProductIdentifier, OnixTitleCode, ValueMapping,
};
use vstd::prelude::*;
use vstd::string::*;

verus! {

broadcast use group_views;

/// The kind of a title: one of the ONIX list, or one that an EPUB knows.
#[derive(Debug, PartialEq, Eq, Structural, Clone, Copy, Hash)]
pub enum TitleCode {
    Onix(OnixTitleCode),
    Unspecified(EpubTitleType),
}

impl TitleCode {
    /// Whether a title of this kind is the main title of the book.
    pub open spec fn is_main(self) -> bool {
        self == TitleCode::Unspecified(EpubTitleType::Main) || self == TitleCode::Onix(
            OnixTitleCode::T01,
        )
    }

    /// Whether a title of this kind is the subtitle of the book.
    pub open spec fn is_subtitle(self) -> bool {
        self == TitleCode::Unspecified(EpubTitleType::Subtitle)
    }
}

/// A title of the book and its kind.
#[derive(Debug, PartialEq, Eq)]
pub struct Title {
    pub code: TitleCode,
    pub text: String,
}

/// The identifier of the book and its kind.
#[derive(Debug, PartialEq, Eq)]
pub struct Identifier {
    pub code: OnixProductIdentifier,
    pub text: String,
}

/// A contributor to the book and the role.
#[derive(Debug, PartialEq, Eq)]
pub struct Contributor {
    pub code: ContributorRole,
    pub name: String,
}

/// An element of the Dublin Core in the metadata of a package.
#[derive(Debug, PartialEq, Eq)]
pub struct DcMetadata {
    pub core: DublinCoreElement,
    pub id: Option<String>,
    pub value: Option<String>,
}

/// A `meta` element in the metadata of a package.
#[derive(Debug, PartialEq, Eq)]
pub struct MetaMetadata {
    pub dir: Option<&'static str>,
    pub id: Option<&'static str>,
    pub property: &'static str,
    pub refines: Option<String>,
    pub scheme: Option<&'static str>,
    pub value: String,
}

/// An attribute with its value, or nothing.
pub open spec fn attribute(name: Seq<char>, value: Option<Seq<char>>) -> Seq<char> {
    match value {
        Some(v) => " "@ + name + "=\""@ + v + "\""@,
        None => Seq::empty(),
    }
}

fn write_attribute(out: &mut String, name: &str, value: Option<&str>)
    ensures
        final(out)@ == old(out)@ + attribute(name@, value.deep_view()),
{
    match value {
        Some(v) => {
            out.append(" ");
            out.append(name);
            out.append("=\"");
            out.append(v);
            out.append("\"");
            assert(out@ =~= old(out)@ + attribute(name@, value.deep_view()));
        },
        None => {
            assert(out@ =~= old(out)@ + attribute(name@, value.deep_view()));
        },
    }
}

fn as_text(s: &Option<String>) -> (r: Option<&str>)
    ensures
        r.deep_view() == s.deep_view(),
{
    match s {
        Some(t) => Some(t.as_str()),
        None => None,
    }
}

impl DcMetadata {
    /// The line of this element in the package document.
    pub open spec fn line(&self) -> Seq<char> {
        "    <"@ + self.core.tagname() + attribute("id"@, self.id.deep_view()) + ">"@ + (
        match self.value {
            Some(v) => v@,
            None => Seq::empty(),
        }) + "</"@ + self.core.tagname() + ">\n"@
    }

    fn write(&self, out: &mut String)
        ensures
            final(out)@ == old(out)@ + self.line(),
    {
        let tag = self.core.as_tagname();
        out.append("    <");
        out.append(tag.as_str());
        write_attribute(out, "id", as_text(&self.id));
        out.append(">");
        match &self.value {
            Some(v) => out.append(v.as_str()),
            None => {},
        }
        out.append("</");
        out.append(tag.as_str());
        out.append(">\n");
        assert(out@ =~= old(out)@ + self.line());
    }
}

impl MetaMetadata {
    /// The line of this element in the package document.
    pub open spec fn line(&self) -> Seq<char> {
        "    <meta property=\""@ + self.property@ + "\""@ + attribute(
            "dir"@,
            self.dir.deep_view(),
        ) + attribute("id"@, self.id.deep_view()) + attribute(
            "refines"@,
            self.refines.deep_view(),
        ) + attribute("scheme"@, self.scheme.deep_view()) + ">"@ + self.value@ + "</meta>\n"@
    }

    fn write(&self, out: &mut String)
        ensures
            final(out)@ == old(out)@ + self.line(),
    {
        out.append("    <meta property=\"");
        out.append(self.property);
        out.append("\"");
        write_attribute(out, "dir", self.dir);
        write_attribute(out, "id", self.id);
        write_attribute(out, "refines", as_text(&self.refines));
        write_attribute(out, "scheme", self.scheme);
        out.append(">");
        out.append(self.value.as_str());
        out.append("</meta>\n");
        assert(out@ =~= old(out)@ + self.line());
    }

    /// When the package was last changed.
    pub fn from_last_modified_date(date: &str) -> (r: Self)
        ensures
            r.dir is None,
            r.id.deep_view() == Some("last_modification"@),
            r.property@ == "dcterms:modified"@,
            r.refines is None,
            r.scheme is None,
            r.value@ == date@,
    {
        MetaMetadata {
            dir: None,
            id: Some("last_modification"),
            property: "dcterms:modified",
            refines: None,
            scheme: None,
            value: String::from_str(date),
        }
    }

    fn refining(target: &str, property: &'static str, scheme: Option<&'static str>, value: &str) -> (r:
        Self)
        ensures
            r.refined(target@, property@, scheme.deep_view(), value@),
    {
        let mut id_ref = String::from_str("#");
        id_ref.append(target);
        MetaMetadata {
            dir: None,
            id: None,
            property,
            refines: Some(id_ref),
            scheme,
            value: String::from_str(value),
        }
    }

    /// Whether this element refines the element with the id `target` by
    /// a property with a value from a scheme.
    pub open spec fn refined(
        &self,
        target: Seq<char>,
        property: Seq<char>,
        scheme: Option<Seq<char>>,
        value: Seq<char>,
    ) -> bool {
        &&& self.dir is None
        &&& self.id is None
        &&& self.property@ == property
        &&& self.refines.deep_view() == Some("#"@ + target)
        &&& self.scheme.deep_view() == scheme
        &&& self.value@ == value
    }

    /// The kind of a title.
    pub fn from_epub_title_code(code: EpubTitleType, target: &str) -> (r: Self)
        ensures
            r.refined(target@, "title-type"@, None, code.name()),
    {
        Self::refining(target, "title-type", None, code.as_name())
    }

    /// The kind of a title, in the ONIX list.
    pub fn from_onix_title_code(code: OnixTitleCode, target: &str) -> (r: Self)
        ensures
            r.refined(target@, "title-type"@, Some("onix:codelist15"@), code.number()),
    {
        Self::refining(target, "title-type", Some("onix:codelist15"), code.as_number())
    }

    /// The kind of an identifier.
    pub fn from_onix_product_id(code: OnixProductIdentifier, target: &str) -> (r: Self)
        ensures
            r.refined(target@, "identifier-type"@, Some("onix:codelist5"@), code.code()),
    {
        Self::refining(target, "identifier-type", Some("onix:codelist5"), code.as_code())
    }

    /// The role of a contributor, in the MARC list.
    pub fn from_marc_relator_code(code: MarcRelator, target: &str) -> (r: Self)
        ensures
            r.refined(target@, "role"@, Some("marc:relators"@), code.code()),
    {
        Self::refining(target, "role", Some("marc:relators"), code.as_code())
    }

    /// The role of a contributor, in the ONIX list.
    pub fn from_onix_contributor_code(code: OnixContributorCode, target: &str) -> (r: Self)
        ensures
            r.refined(target@, "role"@, Some("onix:codelist17"@), code.code()),
    {
        Self::refining(target, "role", Some("onix:codelist17"), code.as_code())
    }
}

/// An element of the Dublin Core with the elements that refine it.
#[derive(Debug)]
pub struct MetadataGrouping {
    pub base: DcMetadata,
    pub refines: Vec<MetaMetadata>,
}

/// The id of the `i`th element of a kind.
pub open spec fn numbered_id(kind: Seq<char>, i: nat) -> Seq<char> {
    kind + decimal(i)
}

fn make_id(kind: &str, i: usize) -> (r: String)
    ensures
        r@ == numbered_id(kind@, i as nat),
{
    let mut id = String::from_str(kind);
    let digits = number_to_decimal(i as u128);
    id.append(digits.as_str());
    id
}

impl MetadataGrouping {
    /// The `i`th title of the book, with its kind: in the list that names
    /// it, and as an EPUB knows it where the kind is from the other list.
    pub fn from_title(title: &Title, i: usize) -> (r: Self)
        ensures
            r.base.line() == dc_text(
                DublinCoreElement::Title,
                Some(numbered_id("title"@, i as nat)),
                title.text@,
            ),
            meta_lines(r.refines@) == title_kind_text(title.code, numbered_id("title"@, i as nat)),
    {
        let id = make_id("title", i);
        let mut refines: Vec<MetaMetadata> = Vec::new();
        match title.code {
            TitleCode::Onix(t) => {
                let first = MetaMetadata::from_onix_title_code(t, id.as_str());
                proof {
                    lemma_refined_line(
                        first,
                        id@,
                        "title-type"@,
                        Some("onix:codelist15"@),
                        t.number(),
                    );
                    lemma_meta_lines_one(first);
                }
                refines.push(first);
                assert(refines@ =~= seq![first]);
                match t.map_code() {
                    Some(e) => {
                        let second = MetaMetadata::from_epub_title_code(e, id.as_str());
                        proof {
                            lemma_refined_line(second, id@, "title-type"@, None, e.name());
                            lemma_meta_lines_two(first, second);
                        }
                        refines.push(second);
                        assert(refines@ =~= seq![first, second]);
                    },
                    None => {
                        assert(first.line() + Seq::<char>::empty() =~= first.line());
                    },
                }
            },
            TitleCode::Unspecified(e) => {
                let first = MetaMetadata::from_epub_title_code(e, id.as_str());
                proof {
                    lemma_refined_line(first, id@, "title-type"@, None, e.name());
                    lemma_meta_lines_one(first);
                }
                refines.push(first);
                assert(refines@ =~= seq![first]);
            },
        }
        let base = DcMetadata {
            core: DublinCoreElement::Title,
            id: Some(id),
            value: Some(title.text.clone()),
        };
        assert(base.line() =~= dc_text(
            DublinCoreElement::Title,
            Some(numbered_id("title"@, i as nat)),
            title.text@,
        ));
        MetadataGrouping { base, refines }
    }

    /// The identifier of the book, with its kind.
    pub fn from_identifier(identifier: &Identifier) -> (r: Self)
        ensures
            r.base.line() == dc_text(
                DublinCoreElement::Identifier,
                Some("main_identifier"@),
                identifier.text@,
            ),
            meta_lines(r.refines@) == refine_text(
                "main_identifier"@,
                "identifier-type"@,
                Some("onix:codelist5"@),
                identifier.code.code(),
            ),
    {
        let base = DcMetadata {
            core: DublinCoreElement::Identifier,
            id: Some(String::from_str("main_identifier")),
            value: Some(identifier.text.clone()),
        };
        let mut refines: Vec<MetaMetadata> = Vec::new();
        let first = MetaMetadata::from_onix_product_id(identifier.code, "main_identifier");
        proof {
            lemma_refined_line(
                first,
                "main_identifier"@,
                "identifier-type"@,
                Some("onix:codelist5"@),
                identifier.code.code(),
            );
            lemma_meta_lines_one(first);
        }
        refines.push(first);
        assert(refines@ =~= seq![first]);
        assert(base.line() =~= dc_text(
            DublinCoreElement::Identifier,
            Some("main_identifier"@),
            identifier.text@,
        ));
        MetadataGrouping { base, refines }
    }

    /// The `i`th creator or contributor, with the role in the list that
    /// names it, and in the MARC list where the role is from the other and
    /// that list has it.
    pub fn from_contributor(contributor: &Contributor, is_creator: bool, i: usize) -> (r: Self)
        ensures
            r.base.line() == dc_text(
                if is_creator {
                    DublinCoreElement::Creator
                } else {
                    DublinCoreElement::Contributor
                },
                Some(contributor_id(is_creator, i as nat)),
                contributor.name@,
            ),
            meta_lines(r.refines@) == role_text(
                contributor.code,
                contributor_id(is_creator, i as nat),
            ),
    {
        let id = if is_creator {
            make_id("creator", i)
        } else {
            make_id("contributor", i)
        };
        let mut refines: Vec<MetaMetadata> = Vec::new();
        match contributor.code {
            ContributorRole::Marc(m) => {
                let first = MetaMetadata::from_marc_relator_code(m, id.as_str());
                proof {
                    lemma_refined_line(first, id@, "role"@, Some("marc:relators"@), m.code());
                    lemma_meta_lines_one(first);
                }
                refines.push(first);
                assert(refines@ =~= seq![first]);
            },
            ContributorRole::Onix(o) => {
                let first = MetaMetadata::from_onix_contributor_code(o, id.as_str());
                proof {
                    lemma_refined_line(first, id@, "role"@, Some("onix:codelist17"@), o.code());
                    lemma_meta_lines_one(first);
                }
                refines.push(first);
                assert(refines@ =~= seq![first]);
                match o.map_code() {
                    Some(m) => {
                        let second = MetaMetadata::from_marc_relator_code(m, id.as_str());
                        proof {
                            lemma_refined_line(
                                second,
                                id@,
                                "role"@,
                                Some("marc:relators"@),
                                m.code(),
                            );
                            lemma_meta_lines_two(first, second);
                        }
                        refines.push(second);
                        assert(refines@ =~= seq![first, second]);
                    },
                    None => {
                        assert(first.line() + Seq::<char>::empty() =~= first.line());
                    },
                }
            },
        }
        let base = DcMetadata {
            core: if is_creator {
                DublinCoreElement::Creator
            } else {
                DublinCoreElement::Contributor
            },
            id: Some(id),
            value: Some(contributor.name.clone()),
        };
        assert(base.line() =~= dc_text(
            if is_creator {
                DublinCoreElement::Creator
            } else {
                DublinCoreElement::Contributor
            },
            Some(contributor_id(is_creator, i as nat)),
            contributor.name@,
        ));
        MetadataGrouping { base, refines }
    }

    /// The language of the book.
    pub fn from_lang(lang: &str) -> (r: Self)
        ensures
            r.base.line() == dc_text(DublinCoreElement::Language, None, lang@),
            r.refines@.len() == 0,
    {
        let base = DcMetadata {
            core: DublinCoreElement::Language,
            id: None,
            value: Some(String::from_str(lang)),
        };
        assert(base.line() =~= dc_text(DublinCoreElement::Language, None, lang@));
        MetadataGrouping { base, refines: Vec::new() }
    }
}

/// The id of the `i`th creator, or of the `i`th contributor.
pub open spec fn contributor_id(is_creator: bool, i: nat) -> Seq<char> {
    if is_creator {
        numbered_id("creator"@, i)
    } else {
        numbered_id("contributor"@, i)
    }
}

/// An entry of the manifest.
#[derive(Debug, PartialEq, Eq)]
pub struct ManifestItem {
    pub href: String,
    pub id: String,
    pub media_type: &'static str,
    pub properties: Vec<&'static str>,
}

/// An entry of the spine.
#[derive(Debug, PartialEq, Eq)]
pub struct SpineElement {
    pub id: Option<String>,
    pub idref: String,
    pub linear: Option<bool>,
    pub properties: Vec<&'static str>,
}

/// The properties of an entry, with a space behind each.
pub open spec fn spaced(properties: Seq<Seq<char>>) -> Seq<char>
    decreases properties.len(),
{
    if properties.len() == 0 {
        Seq::empty()
    } else {
        spaced(properties.drop_last()) + properties.last() + " "@
    }
}

/// The texts of a list of words.
pub open spec fn texts(words: Seq<&'static str>) -> Seq<Seq<char>> {
    Seq::new(words.len(), |i: int| words[i]@)
}

/// The attribute that lists the properties of an entry, where it has any.
pub open spec fn properties_attribute(properties: Seq<Seq<char>>) -> Seq<char> {
    if properties.len() == 0 {
        Seq::empty()
    } else {
        crate::text::without_last(" properties=\""@ + spaced(properties), 1) + "\""@
    }
}

fn properties_text(properties: &Vec<&'static str>) -> (r: String)
    ensures
        r@ == properties_attribute(texts(properties@)),
{
    if properties.len() == 0 {
        return String::new();
    }
    let mut out = String::from_str(" properties=\"");
    let ghost start = out@;
    let mut i: usize = 0;
    while i < properties.len()
        invariant
            i <= properties.len(),
            out@ == start + spaced(texts(properties@).take(i as int)),
        decreases properties.len() - i,
    {
        proof {
            assert(texts(properties@).take(i + 1).drop_last() =~= texts(properties@).take(
                i as int,
            ));
            assert(texts(properties@).take(i + 1).last() == properties@[i as int]@);
        }
        out.append(properties[i]);
        out.append(" ");
        assert(out@ =~= start + spaced(texts(properties@).take(i + 1)));
        i += 1;
    }
    assert(texts(properties@).take(properties.len() as int) =~= texts(properties@));
    let mut out = crate::text::drop_last_chars(out, 1);
    out.append("\"");
    out
}

/// The entry of the `i`th piece of content.
pub open spec fn content_item(path: Seq<char>, includes_svg: bool, i: nat) -> ItemView {
    ItemView {
        href: path,
        id: numbered_id("contents_"@, i),
        media_type: MimeType::Xhtml.name(),
        properties: if includes_svg {
            seq!["svg"@]
        } else {
            Seq::empty()
        },
    }
}

/// The entry of a resource, under an id that ends in `id`.
pub open spec fn resource_item(path: Seq<char>, mimetype: MimeType, id: Seq<char>) -> ItemView {
    ItemView {
        href: path,
        id: "resource_"@ + id,
        media_type: mimetype.name(),
        properties: Seq::empty(),
    }
}

/// The entry of the cover image.
pub open spec fn cover_item(path: Seq<char>, mimetype: MimeType) -> ItemView {
    ItemView {
        href: path,
        id: "cover_image"@,
        media_type: mimetype.name(),
        properties: seq!["cover-image"@],
    }
}

/// The entry of the stylesheet.
pub open spec fn css_item(path: Seq<char>, mimetype: MimeType) -> ItemView {
    ItemView { href: path, id: "base_css"@, media_type: mimetype.name(), properties: Seq::empty() }
}

/// The entry of the table of contents.
pub open spec fn nav_item() -> ItemView {
    ItemView {
        href: "toc.xhtml"@,
        id: "mainnav"@,
        media_type: MimeType::Xhtml.name(),
        properties: seq!["nav"@],
    }
}

/// An entry of the manifest as a value.
pub struct ItemView {
    pub href: Seq<char>,
    pub id: Seq<char>,
    pub media_type: Seq<char>,
    pub properties: Seq<Seq<char>>,
}

impl ItemView {
    /// The element of this entry in the package document.
    pub open spec fn line(self) -> Seq<char> {
        "\n    <item id=\""@ + self.id + "\""@ + " media-type=\""@ + self.media_type + "\""@
            + " href=\""@ + self.href + "\""@ + properties_attribute(self.properties) + ">"@
            + "</item>"@
    }

    /// Whether the entry is a page of the book: a document that is not
    /// the table of contents.
    pub open spec fn in_spine(self) -> bool {
        self.media_type == MimeType::Xhtml.name() && self.href != "toc.xhtml"@
    }

    /// The element of the spine that refers to this entry.
    pub open spec fn reference(self) -> Seq<char> {
        "<itemref idref=\""@ + self.id + "\""@ + ">"@ + "</itemref>"@
    }
}

impl DeepView for ManifestItem {
    type V = ItemView;

    open spec fn deep_view(&self) -> ItemView {
        ItemView {
            href: self.href@,
            id: self.id@,
            media_type: self.media_type@,
            properties: texts(self.properties@),
        }
    }
}

impl ManifestItem {
    /// The element of this entry in the package document.
    pub open spec fn line(&self) -> Seq<char> {
        self.deep_view().line()
    }

    fn write(&self, out: &mut String)
        ensures
            final(out)@ == old(out)@ + self.line(),
    {
        let properties = properties_text(&self.properties);
        out.append("\n    <item id=\"");
        out.append(self.id.as_str());
        out.append("\"");
        out.append(" media-type=\"");
        out.append(self.media_type);
        out.append("\"");
        out.append(" href=\"");
        out.append(self.href.as_str());
        out.append("\"");
        out.append(properties.as_str());
        out.append(">");
        out.append("</item>");
        assert(out@ =~= old(out)@ + self.line());
    }

    /// The entry of the `i`th piece of content.
    pub fn from_epub_content(src: &EpubContent, i: usize) -> (r: Self)
        ensures
            r.deep_view() == content_item(src.output_path@, src.includes_svg, i as nat),
    {
        let id = make_id("contents_", i);
        let mut properties: Vec<&'static str> = Vec::new();
        if src.includes_svg {
            properties.push("svg");
        }
        assert(texts(properties@) =~= if src.includes_svg {
            seq!["svg"@]
        } else {
            Seq::empty()
        });
        ManifestItem {
            href: src.output_path.clone(),
            id,
            media_type: MimeType::Xhtml.to_str(),
            properties,
        }
    }

    /// The entry of a resource, under an id of its own.
    pub fn from_epub_resource(src: &EpubResource, id: &str) -> (r: Self)
        ensures
            r.deep_view() == resource_item(src.output_path@, src.mimetype, id@),
    {
        let mut full = String::from_str("resource_");
        full.append(id);
        assert(texts(Seq::<&'static str>::empty()) =~= Seq::<Seq<char>>::empty());
        ManifestItem {
            href: src.output_path.clone(),
            id: full,
            media_type: src.mimetype.to_str(),
            properties: Vec::new(),
        }
    }

    /// The entry of the cover image.
    pub fn from_cover_image(src: &EpubResource) -> (r: Self)
        ensures
            r.deep_view() == cover_item(src.output_path@, src.mimetype),
    {
        let mut properties: Vec<&'static str> = Vec::new();
        properties.push("cover-image");
        assert(texts(properties@) =~= seq!["cover-image"@]);
        ManifestItem {
            href: src.output_path.clone(),
            id: String::from_str("cover_image"),
            media_type: src.mimetype.to_str(),
            properties,
        }
    }

    /// The entry of the stylesheet.
    pub fn from_css(src: &EpubResource) -> (r: Self)
        ensures
            r.deep_view() == css_item(src.output_path@, src.mimetype),
    {
        assert(texts(Seq::<&'static str>::empty()) =~= Seq::<Seq<char>>::empty());
        ManifestItem {
            href: src.output_path.clone(),
            id: String::from_str("base_css"),
            media_type: src.mimetype.to_str(),
            properties: Vec::new(),
        }
    }
}

impl SpineElement {
    /// The element of this entry in the package document.
    pub open spec fn line(&self) -> Seq<char> {
        "<itemref idref=\""@ + self.idref@ + "\""@ + attribute("id"@, self.id.deep_view()) + (
        match self.linear {
            Some(true) => " linear=\"yes\""@,
            Some(false) => " linear=\"no\""@,
            None => Seq::empty(),
        }) + properties_attribute(texts(self.properties@)) + ">"@ + "</itemref>"@
    }

    fn write(&self, out: &mut String)
        ensures
            final(out)@ == old(out)@ + self.line(),
    {
        let properties = properties_text(&self.properties);
        out.append("<itemref idref=\"");
        out.append(self.idref.as_str());
        out.append("\"");
        write_attribute(out, "id", as_text(&self.id));
        match self.linear {
            Some(true) => out.append(" linear=\"yes\""),
            Some(false) => out.append(" linear=\"no\""),
            None => {},
        }
        out.append(properties.as_str());
        out.append(">");
        out.append("</itemref>");
        assert(out@ =~= old(out)@ + self.line());
    }
}

/// The lines of the Dublin Core elements, one after the other.
pub open spec fn dc_lines(items: Seq<DcMetadata>) -> Seq<char>
    decreases items.len(),
{
    if items.len() == 0 {
        Seq::empty()
    } else {
        dc_lines(items.drop_last()) + items.last().line()
    }
}

/// The lines of the `meta` elements, one after the other.
pub open spec fn meta_lines(items: Seq<MetaMetadata>) -> Seq<char>
    decreases items.len(),
{
    if items.len() == 0 {
        Seq::empty()
    } else {
        meta_lines(items.drop_last()) + items.last().line()
    }
}

/// The entries of the manifest, one after the other.
pub open spec fn manifest_lines(items: Seq<ManifestItem>) -> Seq<char>
    decreases items.len(),
{
    if items.len() == 0 {
        Seq::empty()
    } else {
        manifest_lines(items.drop_last()) + items.last().line()
    }
}

/// The entries of the spine, one after the other.
pub open spec fn spine_lines(items: Seq<SpineElement>) -> Seq<char>
    decreases items.len(),
{
    if items.len() == 0 {
        Seq::empty()
    } else {
        spine_lines(items.drop_last()) + items.last().line()
    }
}

/// The package document around the lines of its metadata, manifest and
/// spine.
pub open spec fn package_text(
    dc: Seq<char>,
    meta: Seq<char>,
    manifest: Seq<char>,
    spine: Seq<char>,
) -> Seq<char> {
    "<package version=\"3.0\" unique-identifier=\""@ + "main_identifier"@
        + "\" xmlns=\"http://www.idpf.org/2007/opf\" xmlns:dc=\"http://purl.org/dc/elements/1.1/\" xmlns:dcterms=\"http://purl.org/dc/terms/\">"@
        + "\n  <metadata>\n"@ + dc + meta + "  </metadata>\n"@ + "  <manifest>"@ + manifest
        + "\n  </manifest>"@ + "\n  <spine>"@ + spine + "\n\t</spine>\n"@ + "</package>"@
}

/// The package document: metadata, manifest and spine.
pub open spec fn opf_text(
    dc: Seq<DcMetadata>,
    meta: Seq<MetaMetadata>,
    manifest: Seq<ManifestItem>,
    spine: Seq<SpineElement>,
) -> Seq<char> {
    package_text(dc_lines(dc), meta_lines(meta), manifest_lines(manifest), spine_lines(spine))
}

/// The entries of a manifest, one after the other.
pub open spec fn item_lines(items: Seq<ItemView>) -> Seq<char>
    decreases items.len(),
{
    if items.len() == 0 {
        Seq::empty()
    } else {
        item_lines(items.drop_last()) + items.last().line()
    }
}

/// The spine of a manifest: a reference to each page of the book.
pub open spec fn spine_of(items: Seq<ItemView>) -> Seq<char>
    decreases items.len(),
{
    if items.len() == 0 {
        Seq::empty()
    } else {
        spine_of(items.drop_last()) + (if items.last().in_spine() {
            items.last().reference()
        } else {
            Seq::empty()
        })
    }
}

/// How many pages of the book a manifest lists.
pub open spec fn pages_in(items: Seq<ItemView>) -> nat
    decreases items.len(),
{
    if items.len() == 0 {
        0
    } else {
        pages_in(items.drop_last()) + (if items.last().in_spine() {
            1nat
        } else {
            0nat
        })
    }
}

/// The lines of a manifest are those of its entries taken as values.
pub proof fn lemma_manifest_lines(items: Seq<ManifestItem>)
    ensures
        manifest_lines(items) == item_lines(views(items)),
    decreases items.len(),
{
    if items.len() > 0 {
        lemma_manifest_lines(items.drop_last());
        assert(views(items).drop_last() =~= views(items.drop_last()));
    }
}

fn write_dc(out: &mut String, items: &Vec<DcMetadata>)
    ensures
        final(out)@ == old(out)@ + dc_lines(items@),
{
    let mut i: usize = 0;
    assert(out@ =~= old(out)@ + dc_lines(items@.take(0)));
    while i < items.len()
        invariant
            i <= items.len(),
            out@ == old(out)@ + dc_lines(items@.take(i as int)),
        decreases items.len() - i,
    {
        proof {
            assert(items@.take(i + 1).drop_last() =~= items@.take(i as int));
            assert(items@.take(i + 1).last() == items@[i as int]);
        }
        items[i].write(out);
        assert(out@ =~= old(out)@ + dc_lines(items@.take(i + 1)));
        i += 1;
    }
    assert(items@.take(items.len() as int) =~= items@);
}

fn write_meta(out: &mut String, items: &Vec<MetaMetadata>)
    ensures
        final(out)@ == old(out)@ + meta_lines(items@),
{
    let mut i: usize = 0;
    assert(out@ =~= old(out)@ + meta_lines(items@.take(0)));
    while i < items.len()
        invariant
            i <= items.len(),
            out@ == old(out)@ + meta_lines(items@.take(i as int)),
        decreases items.len() - i,
    {
        proof {
            assert(items@.take(i + 1).drop_last() =~= items@.take(i as int));
            assert(items@.take(i + 1).last() == items@[i as int]);
        }
        items[i].write(out);
        assert(out@ =~= old(out)@ + meta_lines(items@.take(i + 1)));
        i += 1;
    }
    assert(items@.take(items.len() as int) =~= items@);
}

fn write_manifest(out: &mut String, items: &Vec<ManifestItem>)
    ensures
        final(out)@ == old(out)@ + manifest_lines(items@),
{
    let mut i: usize = 0;
    assert(out@ =~= old(out)@ + manifest_lines(items@.take(0)));
    while i < items.len()
        invariant
            i <= items.len(),
            out@ == old(out)@ + manifest_lines(items@.take(i as int)),
        decreases items.len() - i,
    {
        proof {
            assert(items@.take(i + 1).drop_last() =~= items@.take(i as int));
            assert(items@.take(i + 1).last() == items@[i as int]);
        }
        items[i].write(out);
        assert(out@ =~= old(out)@ + manifest_lines(items@.take(i + 1)));
        i += 1;
    }
    assert(items@.take(items.len() as int) =~= items@);
}

fn write_spine(out: &mut String, items: &Vec<SpineElement>)
    ensures
        final(out)@ == old(out)@ + spine_lines(items@),
{
    let mut i: usize = 0;
    assert(out@ =~= old(out)@ + spine_lines(items@.take(0)));
    while i < items.len()
        invariant
            i <= items.len(),
            out@ == old(out)@ + spine_lines(items@.take(i as int)),
        decreases items.len() - i,
    {
        proof {
            assert(items@.take(i + 1).drop_last() =~= items@.take(i as int));
            assert(items@.take(i + 1).last() == items@[i as int]);
        }
        items[i].write(out);
        assert(out@ =~= old(out)@ + spine_lines(items@.take(i + 1)));
        i += 1;
    }
    assert(items@.take(items.len() as int) =~= items@);
}

/// Writes the package document.
pub fn write_opf(
    dc: &Vec<DcMetadata>,
    meta: &Vec<MetaMetadata>,
    manifest: &Vec<ManifestItem>,
    spine: &Vec<SpineElement>,
) -> (r: String)
    ensures
        r@ == opf_text(dc@, meta@, manifest@, spine@),
{
    let mut opf = String::new();
    opf.append("<package version=\"3.0\" unique-identifier=\"");
    opf.append("main_identifier");
    opf.append(
        "\" xmlns=\"http://www.idpf.org/2007/opf\" xmlns:dc=\"http://purl.org/dc/elements/1.1/\" xmlns:dcterms=\"http://purl.org/dc/terms/\">",
    );
    opf.append("\n  <metadata>\n");
    write_dc(&mut opf, dc);
    write_meta(&mut opf, meta);
    opf.append("  </metadata>\n");
    opf.append("  <manifest>");
    write_manifest(&mut opf, manifest);
    opf.append("\n  </manifest>");
    opf.append("\n  <spine>");
    write_spine(&mut opf, spine);
    opf.append("\n\t</spine>\n");
    opf.append("</package>");
    assert(opf@ =~= opf_text(dc@, meta@, manifest@, spine@));
    opf
}

/// The document that points a reading system to the package document.
pub open spec fn container_text(document_path: Seq<char>) -> Seq<char> {
    "<?xml version=\"1.0\"?>"@ + "\n"@
        + "<container version=\"1.0\" xmlns=\"urn:oasis:names:tc:opendocument:xmlns:container\">"@
        + "\n\t<rootfiles>"@ + "\n\t\t<rootfile full-path="@ + "\""@ + document_path + "\""@
        + " media-type=\"application/oebps-package+xml\" />\n"@ + "\n\t</rootfiles>"@
        + "\n</container>"@
}

/// What the container document says.
#[derive(Debug)]
pub struct ContainerInfo {
    pub document_path: String,
}

impl ContainerInfo {
    /// Writes the container document.
    pub fn render(&self) -> (r: String)
        ensures
            r@ == container_text(self.document_path@),
    {
        let mut out = String::new();
        out.append("<?xml version=\"1.0\"?>");
        out.append("\n");
        out.append(
            "<container version=\"1.0\" xmlns=\"urn:oasis:names:tc:opendocument:xmlns:container\">",
        );
        out.append("\n\t<rootfiles>");
        out.append("\n\t\t<rootfile full-path=");
        out.append("\"");
        out.append(self.document_path.as_str());
        out.append("\"");
        out.append(" media-type=\"application/oebps-package+xml\" />\n");
        out.append("\n\t</rootfiles>");
        out.append("\n</container>");
        assert(out@ =~= container_text(self.document_path@));
        out
    }
}

/// The navigation document around a list of entries.
pub open spec fn nav_text(
    toc_title: Seq<char>,
    stylesheet: Option<Seq<char>>,
    entry_list: Seq<char>,
) -> Seq<char> {
    "<html xmlns=\"http://www.w3.org/1999/xhtml\" xmlns:epub=\"http://www.idpf.org/2007/ops\">"@
        + "\n\t<head>\n"@ + "\t\t<title>"@ + toc_title + "</title>\n"@
        + "\t\t<meta charset=\"utf-8\"></meta>\n"@ + (match stylesheet {
        Some(s) => "\t\t<link rel=\"stylesheet\" href=\""@ + s + "\" type=\"text/css\"></link>\n"@,
        None => Seq::empty(),
    }) + "\t</head>\n"@ + "\t<body>\n"@ + "\t\t<nav epub:type=\"toc\">\n"@ + "\t\t\t<h1>"@
        + toc_title + "</h1>\n"@ + entry_list + "\t\t</nav>\n"@ + "\t</body>\n"@ + "</html>"@
}

/// What the navigation document says.
#[derive(Debug)]
pub struct NavInfo {
    pub toc_title: String,
    pub stylesheet: Option<String>,
    pub entry_list: String,
}

impl NavInfo {
    /// Writes the navigation document.
    pub fn render(&self) -> (r: String)
        ensures
            r@ == nav_text(self.toc_title@, self.stylesheet.deep_view(), self.entry_list@),
    {
        let mut out = String::from_str(
            "<html xmlns=\"http://www.w3.org/1999/xhtml\" xmlns:epub=\"http://www.idpf.org/2007/ops\">",
        );
        out.append("\n\t<head>\n");
        out.append("\t\t<title>");
        out.append(self.toc_title.as_str());
        out.append("</title>\n");
        out.append("\t\t<meta charset=\"utf-8\"></meta>\n");
        let ghost s1 = out@;
        match &self.stylesheet {
            Some(s) => {
                out.append("\t\t<link rel=\"stylesheet\" href=\"");
                out.append(s.as_str());
                out.append("\" type=\"text/css\"></link>\n");
            },
            None => {},
        }
        assert(out@ =~= s1 + (match self.stylesheet.deep_view() {
            Some(s) => "\t\t<link rel=\"stylesheet\" href=\""@ + s
                + "\" type=\"text/css\"></link>\n"@,
            None => Seq::empty(),
        }));
        out.append("\t</head>\n");
        out.append("\t<body>\n");
        out.append("\t\t<nav epub:type=\"toc\">\n");
        out.append("\t\t\t<h1>");
        out.append(self.toc_title.as_str());
        out.append("</h1>\n");
        out.append(self.entry_list.as_str());
        out.append("\t\t</nav>\n");
        out.append("\t</body>\n");
        out.append("</html>");
        assert(out@ =~= nav_text(
            self.toc_title@,
            self.stylesheet.deep_view(),
            self.entry_list@,
        ));
        out
    }
}

/// Joining two lists of `meta` elements joins their lines.
pub proof fn lemma_meta_lines_joined(a: Seq<MetaMetadata>, b: Seq<MetaMetadata>)
    ensures
        meta_lines(a + b) == meta_lines(a) + meta_lines(b),
    decreases b.len(),
{
    if b.len() == 0 {
        assert(a + b =~= a);
        assert(meta_lines(a) + Seq::<char>::empty() =~= meta_lines(a));
    } else {
        assert((a + b).drop_last() =~= a + b.drop_last());
        assert((a + b).last() == b.last());
        lemma_meta_lines_joined(a, b.drop_last());
        assert(meta_lines(a) + (meta_lines(b.drop_last()) + b.last().line()) =~= (meta_lines(a)
            + meta_lines(b.drop_last())) + b.last().line());
    }
}

/// The text of an element of the Dublin Core.
pub open spec fn dc_text(core: DublinCoreElement, id: Option<Seq<char>>, value: Seq<char>) -> Seq<
    char,
> {
    "    <"@ + core.tagname() + attribute("id"@, id) + ">"@ + value + "</"@ + core.tagname()
        + ">\n"@
}

/// The text of a `meta` element that refines the element with the id
/// `target`.
pub open spec fn refine_text(
    target: Seq<char>,
    property: Seq<char>,
    scheme: Option<Seq<char>>,
    value: Seq<char>,
) -> Seq<char> {
    "    <meta property=\""@ + property + "\""@ + attribute("refines"@, Some("#"@ + target))
        + attribute("scheme"@, scheme) + ">"@ + value + "</meta>\n"@
}

/// The text of the `meta` element that says when the package was changed.
pub open spec fn modified_text(stamp: Seq<char>) -> Seq<char> {
    "    <meta property=\""@ + "dcterms:modified"@ + "\""@ + attribute(
        "id"@,
        Some("last_modification"@),
    ) + ">"@ + stamp + "</meta>\n"@
}

/// An element that refines another is written as its refinement.
pub proof fn lemma_refined_line(
    m: MetaMetadata,
    target: Seq<char>,
    property: Seq<char>,
    scheme: Option<Seq<char>>,
    value: Seq<char>,
)
    requires
        m.refined(target, property, scheme, value),
    ensures
        m.line() == refine_text(target, property, scheme, value),
{
    assert(m.line() =~= refine_text(target, property, scheme, value));
}

/// The Dublin Core lines of the titles from the `i`th on.
pub open spec fn titles_dc(titles: Seq<Title>, n: int) -> Seq<char>
    decreases n,
{
    if n <= 0 {
        Seq::empty()
    } else {
        titles_dc(titles, n - 1) + dc_text(
            DublinCoreElement::Title,
            Some(numbered_id("title"@, (n - 1) as nat)),
            titles[n - 1].text@,
        )
    }
}

/// The lines that say of what kind the first `n` titles are.
pub open spec fn titles_meta(titles: Seq<Title>, n: int) -> Seq<char>
    decreases n,
{
    if n <= 0 {
        Seq::empty()
    } else {
        titles_meta(titles, n - 1) + title_kind_text(
            titles[n - 1].code,
            numbered_id("title"@, (n - 1) as nat),
        )
    }
}

/// The Dublin Core lines of the first `n` creators or contributors.
pub open spec fn contributors_dc(list: Seq<Contributor>, is_creator: bool, n: int) -> Seq<char>
    decreases n,
{
    if n <= 0 {
        Seq::empty()
    } else {
        contributors_dc(list, is_creator, n - 1) + dc_text(
            if is_creator {
                DublinCoreElement::Creator
            } else {
                DublinCoreElement::Contributor
            },
            Some(contributor_id(is_creator, (n - 1) as nat)),
            list[n - 1].name@,
        )
    }
}

/// The lines that give the kind of a title: in the list that names it,
/// and as an EPUB knows it where the kind is from the ONIX list and an
/// EPUB knows it.
pub open spec fn title_kind_text(code: TitleCode, target: Seq<char>) -> Seq<char> {
    match code {
        TitleCode::Onix(t) => refine_text(
            target,
            "title-type"@,
            Some("onix:codelist15"@),
            t.number(),
        ) + (match t.mapped() {
            Some(e) => refine_text(target, "title-type"@, None, e.name()),
            None => Seq::empty(),
        }),
        TitleCode::Unspecified(e) => refine_text(target, "title-type"@, None, e.name()),
    }
}

/// The lines that give the role of a contributor: in the list that names
/// it, and in the MARC list where the role is from the ONIX list and the
/// MARC list has it.
pub open spec fn role_text(code: ContributorRole, target: Seq<char>) -> Seq<char> {
    match code {
        ContributorRole::Marc(m) => refine_text(
            target,
            "role"@,
            Some("marc:relators"@),
            m.code(),
        ),
        ContributorRole::Onix(o) => refine_text(
            target,
            "role"@,
            Some("onix:codelist17"@),
            o.code(),
        ) + (match o.mapped() {
            Some(m) => refine_text(target, "role"@, Some("marc:relators"@), m.code()),
            None => Seq::empty(),
        }),
    }
}

/// The lines that give the roles of the first `n` creators or
/// contributors.
pub open spec fn contributors_meta(list: Seq<Contributor>, is_creator: bool, n: int) -> Seq<char>
    decreases n,
{
    if n <= 0 {
        Seq::empty()
    } else {
        contributors_meta(list, is_creator, n - 1) + role_text(
            list[n - 1].code,
            contributor_id(is_creator, (n - 1) as nat),
        )
    }
}

/// What goes into an EPUB: content, resources, cover and stylesheet, and
/// what is known of the book.
#[derive(Debug)]
pub struct EpubSource {
    pub resources: Vec<EpubResource>,
    pub contents: Vec<EpubContent>,
    pub cover_image: Option<EpubResource>,
    pub css: Option<EpubResource>,
    pub title: Vec<Title>,
    pub identifier: Option<Identifier>,
    pub lang: Option<String>,
    pub creators: Vec<Contributor>,
    pub contributors: Vec<Contributor>,
    /// When the package was last changed, as a time stamp.
    pub last_modification: Option<String>,
}

fn push_group(dc: &mut Vec<DcMetadata>, meta: &mut Vec<MetaMetadata>, group: MetadataGrouping)
    ensures
        dc_lines(final(dc)@) == dc_lines(old(dc)@) + group.base.line(),
        meta_lines(final(meta)@) == meta_lines(old(meta)@) + meta_lines(group.refines@),
{
    let MetadataGrouping { base, refines } = group;
    let mut refines = refines;
    proof {
        lemma_meta_lines_joined(meta@, refines@);
    }
    dc.push(base);
    assert(dc@.drop_last() =~= old(dc)@);
    meta.append(&mut refines);
}

/// The lines of one element.
proof fn lemma_meta_lines_one(m: MetaMetadata)
    ensures
        meta_lines(seq![m]) == m.line(),
{
    reveal_with_fuel(meta_lines, 2);
    assert(seq![m].drop_last().len() == 0);
    assert(Seq::<char>::empty() + m.line() =~= m.line());
}

/// The lines of two elements.
proof fn lemma_meta_lines_two(a: MetaMetadata, b: MetaMetadata)
    ensures
        meta_lines(seq![a, b]) == a.line() + b.line(),
{
    lemma_meta_lines_one(a);
    assert(seq![a, b].drop_last() =~= seq![a]);
}

/// The titles of a book as values: the kind and the text of each.
pub open spec fn title_views(titles: Seq<Title>) -> Seq<(TitleCode, Seq<char>)> {
    Seq::new(titles.len(), |i: int| (titles[i].code, titles[i].text@))
}

/// Contributors as values: the role and the name of each.
pub open spec fn contributor_views(list: Seq<Contributor>) -> Seq<(ContributorRole, Seq<char>)> {
    Seq::new(list.len(), |i: int| (list[i].code, list[i].name@))
}

impl ContributorRole {
    /// Whether somebody in this role is a creator of the book: an author.
    pub open spec fn creates(self) -> bool {
        match self {
            ContributorRole::Marc(m) => m == MarcRelator::Aut,
            ContributorRole::Onix(o) => o == OnixContributorCode::A01,
        }
    }
}

impl EpubSource {
    /// Whether the book has a main title.
    pub open spec fn has_main(&self) -> bool {
        exists|i: int| 0 <= i < self.title@.len() && (#[trigger] self.title@[i]).code.is_main()
    }

    /// Whether the book has a subtitle.
    pub open spec fn has_subtitle(&self) -> bool {
        exists|i: int| 0 <= i < self.title@.len() && (#[trigger] self.title@[i]).code.is_subtitle()
    }

    /// This source with other creators, or other contributors, as the
    /// role asks.
    pub open spec fn with_contributor(
        &self,
        role: ContributorRole,
        creators: Vec<Contributor>,
        contributors: Vec<Contributor>,
    ) -> EpubSource {
        if role.creates() {
            EpubSource { creators, ..*self }
        } else {
            EpubSource { contributors, ..*self }
        }
    }

    /// Whether this source lists one more than `before`: somebody of that
    /// name in that role, at the end of the creators or of the
    /// contributors.
    pub open spec fn lists(&self, before: &EpubSource, role: ContributorRole, name: Seq<char>) -> bool {
        if role.creates() {
            contributor_views(self.creators@) == contributor_views(before.creators@).push(
                (role, name),
            )
        } else {
            contributor_views(self.contributors@) == contributor_views(before.contributors@).push(
                (role, name),
            )
        }
    }

    /// The time stamp of the package: its own, or `now`.
    pub open spec fn stamp_or(&self, now: Seq<char>) -> Seq<char> {
        match self.last_modification {
            Some(m) => m@,
            None => now,
        }
    }

    /// The kind of the package's identifier: its own, or that of a URN.
    pub open spec fn identifier_code(&self) -> OnixProductIdentifier {
        match self.identifier {
            Some(i) => i.code,
            None => OnixProductIdentifier::I22,
        }
    }

    /// The package's identifier: its own, or `urn`.
    pub open spec fn identifier_text(&self, urn: Seq<char>) -> Seq<char> {
        match self.identifier {
            Some(i) => i.text@,
            None => urn,
        }
    }

    /// The language of the package: its own, or English.
    pub open spec fn language(&self) -> Seq<char> {
        match self.lang {
            Some(l) => l@,
            None => "en"@,
        }
    }

    /// The Dublin Core lines of the package: titles, or `Untitled` where
    /// the book has none; creators; contributors; the identifier, or the
    /// URN that stands in for it; the language, or English.
    pub open spec fn dc_text(&self, urn: Seq<char>) -> Seq<char> {
        (if self.title@.len() == 0 {
            dc_text(DublinCoreElement::Title, None, "Untitled"@)
        } else {
            titles_dc(self.title@, self.title@.len() as int)
        }) + contributors_dc(self.creators@, true, self.creators@.len() as int) + contributors_dc(
            self.contributors@,
            false,
            self.contributors@.len() as int,
        ) + dc_text(
            DublinCoreElement::Identifier,
            Some("main_identifier"@),
            self.identifier_text(urn),
        ) + dc_text(DublinCoreElement::Language, None, self.language())
    }

    /// The `meta` lines of the package: when it was changed, then what
    /// refines its titles, creators, contributors and identifier.
    pub open spec fn meta_text(&self, now: Seq<char>) -> Seq<char> {
        modified_text(self.stamp_or(now)) + titles_meta(self.title@, self.title@.len() as int) + contributors_meta(
            self.creators@,
            true,
            self.creators@.len() as int,
        ) + contributors_meta(self.contributors@, false, self.contributors@.len() as int)
            + refine_text(
            "main_identifier"@,
            "identifier-type"@,
            Some("onix:codelist5"@),
            self.identifier_code().code(),
        )
    }

    /// A source with nothing in it.
    pub fn new() -> (r: Self)
        ensures
            r.resources@.len() == 0,
            r.contents@.len() == 0,
            r.cover_image is None,
            r.css is None,
            r.title@.len() == 0,
            r.identifier is None,
            r.lang is None,
            r.creators@.len() == 0,
            r.contributors@.len() == 0,
            r.last_modification is None,
    {
        EpubSource {
            resources: Vec::new(),
            contents: Vec::new(),
            cover_image: None,
            css: None,
            title: Vec::new(),
            identifier: None,
            lang: None,
            creators: Vec::new(),
            contributors: Vec::new(),
            last_modification: None,
        }
    }

    fn has_main_title(&self) -> (r: bool)
        ensures
            r == self.has_main(),
    {
        let mut i: usize = 0;
        while i < self.title.len()
            invariant
                i <= self.title.len(),
                forall|j: int| 0 <= j < i ==> !(#[trigger] self.title@[j]).code.is_main(),
            decreases self.title.len() - i,
        {
            let main = match self.title[i].code {
                TitleCode::Unspecified(EpubTitleType::Main) => true,
                TitleCode::Onix(OnixTitleCode::T01) => true,
                _ => false,
            };
            if main {
                return true;
            }
            i += 1;
        }
        false
    }

    fn has_subtitle_already(&self) -> (r: bool)
        ensures
            r == self.has_subtitle(),
    {
        let mut i: usize = 0;
        while i < self.title.len()
            invariant
                i <= self.title.len(),
                forall|j: int| 0 <= j < i ==> !(#[trigger] self.title@[j]).code.is_subtitle(),
            decreases self.title.len() - i,
        {
            let sub = match self.title[i].code {
                TitleCode::Unspecified(EpubTitleType::Subtitle) => true,
                _ => false,
            };
            if sub {
                return true;
            }
            i += 1;
        }
        false
    }

    fn push_title(&mut self, title: &str, code: TitleCode)
        ensures
            *final(self) == (EpubSource { title: final(self).title, ..*old(self) }),
            title_views(final(self).title@) == title_views(old(self).title@).push((code, title@)),
    {
        self.title.push(Title { code, text: String::from_str(title) });
        assert(title_views(self.title@) =~= title_views(old(self).title@).push((code, title@)));
    }

    /// Adds a title of a kind that an EPUB knows.
    pub fn set_epub_title(&mut self, title: &str, kind: EpubTitleType)
        ensures
            *final(self) == (EpubSource { title: final(self).title, ..*old(self) }),
            title_views(final(self).title@) == title_views(old(self).title@).push(
                (TitleCode::Unspecified(kind), title@),
            ),
    {
        self.push_title(title, TitleCode::Unspecified(kind));
    }

    /// Adds a title of a kind of the ONIX list.
    pub fn set_onix_title(&mut self, title: &str, kind: OnixTitleCode)
        ensures
            *final(self) == (EpubSource { title: final(self).title, ..*old(self) }),
            title_views(final(self).title@) == title_views(old(self).title@).push(
                (TitleCode::Onix(kind), title@),
            ),
    {
        self.push_title(title, TitleCode::Onix(kind));
    }

    /// Sets the main title; a book has one main title only.
    pub fn set_title(&mut self, title: &str) -> (r: Result<(), &'static str>)
        ensures
            r is Err <==> old(self).has_main(),
            r is Err ==> r->Err_0@ == "Main title already set"@,
            r is Err ==> *final(self) == *old(self),
            r is Ok ==> *final(self) == (EpubSource { title: final(self).title, ..*old(self) }),
            r is Ok ==> title_views(final(self).title@) == title_views(old(self).title@).push(
                (TitleCode::Unspecified(EpubTitleType::Main), title@),
            ),
    {
        if self.has_main_title() {
            return Err("Main title already set");
        }
        self.set_epub_title(title, EpubTitleType::Main);
        Ok(())
    }

    /// Sets the subtitle; a book has one subtitle only.
    pub fn set_subtitle(&mut self, subtitle: &str) -> (r: Result<(), &'static str>)
        ensures
            r is Err <==> old(self).has_subtitle(),
            r is Err ==> r->Err_0@ == "Subtitle already set"@,
            r is Err ==> *final(self) == *old(self),
            r is Ok ==> *final(self) == (EpubSource { title: final(self).title, ..*old(self) }),
            r is Ok ==> title_views(final(self).title@) == title_views(old(self).title@).push(
                (TitleCode::Unspecified(EpubTitleType::Subtitle), subtitle@),
            ),
    {
        if self.has_subtitle_already() {
            return Err("Subtitle already set");
        }
        self.set_epub_title(subtitle, EpubTitleType::Subtitle);
        Ok(())
    }

    /// Sets an ISBN as the identifier.
    pub fn set_isbn(&mut self, isbn: &str)
        ensures
            *final(self) == (EpubSource { identifier: final(self).identifier, ..*old(self) }),
            final(self).identifier is Some,
            final(self).identifier->0.code == OnixProductIdentifier::I15,
            final(self).identifier->0.text@ == isbn@,
    {
        self.identifier = Some(
            Identifier { code: OnixProductIdentifier::I15, text: String::from_str(isbn) },
        );
    }

    /// Sets a URN as the identifier.
    pub fn set_urn(&mut self, urn: &str)
        ensures
            *final(self) == (EpubSource { identifier: final(self).identifier, ..*old(self) }),
            final(self).identifier is Some,
            final(self).identifier->0.code == OnixProductIdentifier::I22,
            final(self).identifier->0.text@ == urn@,
    {
        self.identifier = Some(
            Identifier { code: OnixProductIdentifier::I22, text: String::from_str(urn) },
        );
    }

    pub(crate) fn add_contributor(&mut self, name: &str, role: ContributorRole)
        ensures
            role.creates() ==> *final(self) == (EpubSource {
                creators: final(self).creators,
                ..*old(self)
            }) && contributor_views(final(self).creators@) == contributor_views(
                old(self).creators@,
            ).push((role, name@)),
            !role.creates() ==> *final(self) == (EpubSource {
                contributors: final(self).contributors,
                ..*old(self)
            }) && contributor_views(final(self).contributors@) == contributor_views(
                old(self).contributors@,
            ).push((role, name@)),
    {
        let is_creator = match role {
            ContributorRole::Marc(m) => m == MarcRelator::Aut,
            ContributorRole::Onix(o) => o == OnixContributorCode::A01,
        };
        let contributor = Contributor { code: role, name: String::from_str(name) };
        if is_creator {
            self.creators.push(contributor);
            assert(contributor_views(self.creators@) =~= contributor_views(
                old(self).creators@,
            ).push((role, name@)));
        } else {
            self.contributors.push(contributor);
            assert(contributor_views(self.contributors@) =~= contributor_views(
                old(self).contributors@,
            ).push((role, name@)));
        }
    }

    /// Adds a contributor with a role from the MARC list. An author is a
    /// creator of the book; anybody else is a contributor.
    pub fn add_marc_contributor(&mut self, name: &str, role: MarcRelator)
        ensures
            *final(self) == old(self).with_contributor(
                ContributorRole::Marc(role),
                final(self).creators,
                final(self).contributors,
            ),
            final(self).lists(old(self), ContributorRole::Marc(role), name@),
    {
        self.add_contributor(name, ContributorRole::Marc(role));
    }

    /// Adds a contributor with a role from the ONIX list. An author is a
    /// creator of the book; anybody else is a contributor.
    pub fn add_onix_contributor(&mut self, name: &str, role: OnixContributorCode)
        ensures
            *final(self) == old(self).with_contributor(
                ContributorRole::Onix(role),
                final(self).creators,
                final(self).contributors,
            ),
            final(self).lists(old(self), ContributorRole::Onix(role), name@),
    {
        self.add_contributor(name, ContributorRole::Onix(role));
    }

    /// Adds an author.
    pub fn add_author(&mut self, name: &str)
        ensures
            *final(self) == (EpubSource { creators: final(self).creators, ..*old(self) }),
            contributor_views(final(self).creators@) == contributor_views(
                old(self).creators@,
            ).push((ContributorRole::Marc(MarcRelator::Aut), name@)),
    {
        self.add_marc_contributor(name, MarcRelator::Aut);
    }

    /// Adds an editor.
    pub fn add_editor(&mut self, name: &str)
        ensures
            *final(self) == (EpubSource { contributors: final(self).contributors, ..*old(self) }),
            contributor_views(final(self).contributors@) == contributor_views(
                old(self).contributors@,
            ).push((ContributorRole::Marc(MarcRelator::Edt), name@)),
    {
        self.add_marc_contributor(name, MarcRelator::Edt);
    }

    /// Adds a translator.
    pub fn add_translator(&mut self, name: &str)
        ensures
            *final(self) == (EpubSource { contributors: final(self).contributors, ..*old(self) }),
            contributor_views(final(self).contributors@) == contributor_views(
                old(self).contributors@,
            ).push((ContributorRole::Marc(MarcRelator::Trl), name@)),
    {
        self.add_marc_contributor(name, MarcRelator::Trl);
    }

    /// Adds the author of a foreword.
    pub fn add_author_of_foreword(&mut self, name: &str)
        ensures
            *final(self) == (EpubSource { contributors: final(self).contributors, ..*old(self) }),
            contributor_views(final(self).contributors@) == contributor_views(
                old(self).contributors@,
            ).push((ContributorRole::Onix(OnixContributorCode::A23), name@)),
    {
        self.add_onix_contributor(name, OnixContributorCode::A23);
    }

    /// Adds the author of an introduction.
    pub fn add_author_of_introduction(&mut self, name: &str)
        ensures
            *final(self) == (EpubSource { contributors: final(self).contributors, ..*old(self) }),
            contributor_views(final(self).contributors@) == contributor_views(
                old(self).contributors@,
            ).push((ContributorRole::Onix(OnixContributorCode::A23), name@)),
    {
        self.add_onix_contributor(name, OnixContributorCode::A23);
    }

    /// Adds the author of an afterword.
    pub fn add_author_of_afterword(&mut self, name: &str)
        ensures
            *final(self) == (EpubSource { contributors: final(self).contributors, ..*old(self) }),
            contributor_views(final(self).contributors@) == contributor_views(
                old(self).contributors@,
            ).push((ContributorRole::Onix(OnixContributorCode::A19), name@)),
    {
        self.add_onix_contributor(name, OnixContributorCode::A19);
    }

    /// Adds the author of an introduction and of notes.
    pub fn add_author_of_introduction_and_notes(&mut self, name: &str)
        ensures
            *final(self) == (EpubSource { contributors: final(self).contributors, ..*old(self) }),
            contributor_views(final(self).contributors@) == contributor_views(
                old(self).contributors@,
            ).push((ContributorRole::Onix(OnixContributorCode::A29), name@)),
    {
        self.add_onix_contributor(name, OnixContributorCode::A29);
    }

    /// Sets the language of the book: a language tag, which is kept in
    /// its usual case. What is no language tag is refused.
    pub fn set_language(&mut self, lang: &str) -> (r: Result<(), &'static str>)
        ensures
            r is Ok <==> lang_tag(lang@) is Some,
            r is Err ==> r->Err_0@ == "Invalid language"@,
            r is Ok ==> *final(self) == (EpubSource { lang: final(self).lang, ..*old(self) })
                && final(self).lang.deep_view() == lang_tag(lang@),
            r is Err ==> *final(self) == *old(self),
    {
        match parse_lang_tag(lang) {
            Ok(val) => {
                self.lang = Some(val);
                Ok(())
            },
            Err(_) => Err("Invalid language"),
        }
    }

    /// Sets when the package was last changed.
    pub fn set_modification_date(&mut self, stamp: &str)
        ensures
            *final(self) == (EpubSource {
                last_modification: final(self).last_modification,
                ..*old(self)
            }),
            final(self).last_modification.deep_view() == Some(stamp@),
    {
        self.last_modification = Some(String::from_str(stamp));
    }

    /// Adds a resource.
    pub fn add_resource(&mut self, r: EpubResource)
        ensures
            *final(self) == (EpubSource { resources: final(self).resources, ..*old(self) }),
            final(self).resources@ == old(self).resources@.push(r),
    {
        self.resources.push(r);
    }

    /// Adds a piece of content.
    pub fn add_content(&mut self, r: EpubContent)
        ensures
            *final(self) == (EpubSource { contents: final(self).contents, ..*old(self) }),
            final(self).contents@ == old(self).contents@.push(r),
    {
        self.contents.push(r);
    }

    /// Sets the stylesheet; what is no stylesheet is refused.
    pub fn set_css(&mut self, css: EpubResource) -> (r: Result<(), &'static str>)
        ensures
            r is Ok <==> css.mimetype == MimeType::Css,
            r is Err ==> r->Err_0@ == "Not css"@,
            r is Ok ==> *final(self) == (EpubSource { css: Some(css), ..*old(self) }),
            r is Err ==> *final(self) == *old(self),
    {
        if css.mimetype.is_css() {
            self.css = Some(css);
            Ok(())
        } else {
            Err("Not css")
        }
    }

    /// Sets the cover image: a jpeg or a png; any other image is refused.
    /// An svg is set with the jpeg that was made of it.
    pub fn set_cover_image(&mut self, image: EpubResource) -> (r: Result<(), &'static str>)
        ensures
            r is Ok <==> image.mimetype == MimeType::Jpeg || image.mimetype == MimeType::Png,
            r is Err ==> r->Err_0@ == "Invalid mimetype for cover image"@,
            r is Ok ==> *final(self) == (EpubSource { cover_image: Some(image), ..*old(self) }),
            r is Err ==> *final(self) == *old(self),
    {
        if image.mimetype.is_jpg() || image.mimetype.is_png() {
            self.cover_image = Some(image);
            Ok(())
        } else {
            Err("Invalid mimetype for cover image")
        }
    }

    /// Sets the cover image from an svg, with the jpeg that was made of
    /// it: the jpeg is the cover, under a file name that stands for the
    /// svg.
    pub fn set_cover_image_from_svg(&mut self, svg: &str, jpeg: Vec<u8>)
        ensures
            *final(self) == (EpubSource { cover_image: final(self).cover_image, ..*old(self) }),
            final(self).cover_image is Some,
            final(self).cover_image->0.data@ == jpeg@,
            final(self).cover_image->0.mimetype == MimeType::Jpeg,
            is_temp_filename(final(self).cover_image->0.output_path@, "jpg"@),
    {
        let output_path = temp_filename(svg, "jpg");
        self.cover_image = Some(EpubResource { output_path, data: jpeg, mimetype: MimeType::Jpeg });
    }

    /// The metadata of the package, with the URN that stands in for a
    /// missing identifier and the time that stands in for a missing date
    /// of change.
    pub fn get_metadata_with(&self, urn: &str, now: &str) -> (r: (Vec<DcMetadata>, Vec<MetaMetadata>))
        ensures
            dc_lines(r.0@) == self.dc_text(urn@),
            meta_lines(r.1@) == self.meta_text(now@),
    {
        let mut dc: Vec<DcMetadata> = Vec::new();
        let mut meta: Vec<MetaMetadata> = Vec::new();
        let stamp = match &self.last_modification {
            Some(m) => MetaMetadata::from_last_modified_date(m.as_str()),
            None => MetaMetadata::from_last_modified_date(now),
        };
        proof {
            lemma_meta_lines_one(stamp);
            assert(stamp.line() =~= modified_text(self.stamp_or(now@)));
        }
        meta.push(stamp);
        assert(meta@ =~= seq![stamp]);
        assert(dc_lines(dc@) =~= Seq::<char>::empty());
        self.push_titles(&mut dc, &mut meta);
        self.push_contributors(&mut dc, &mut meta, true);
        self.push_contributors(&mut dc, &mut meta, false);
        let group = match &self.identifier {
            Some(i) => MetadataGrouping::from_identifier(i),
            None => MetadataGrouping::from_identifier(
                &Identifier { code: OnixProductIdentifier::I22, text: String::from_str(urn) },
            ),
        };
        push_group(&mut dc, &mut meta, group);
        let group = match &self.lang {
            Some(l) => MetadataGrouping::from_lang(l.as_str()),
            None => MetadataGrouping::from_lang("en"),
        };
        let ghost m2 = meta_lines(meta@);
        assert(group.refines@ =~= Seq::empty());
        push_group(&mut dc, &mut meta, group);
        assert(meta_lines(meta@) =~= m2);
        assert(dc_lines(dc@) =~= self.dc_text(urn@));
        assert(meta_lines(meta@) =~= self.meta_text(now@));
        (dc, meta)
    }

    fn push_titles(&self, dc: &mut Vec<DcMetadata>, meta: &mut Vec<MetaMetadata>)
        ensures
            dc_lines(final(dc)@) == dc_lines(old(dc)@) + (if self.title@.len() == 0 {
                dc_text(DublinCoreElement::Title, None, "Untitled"@)
            } else {
                titles_dc(self.title@, self.title@.len() as int)
            }),
            meta_lines(final(meta)@) == meta_lines(old(meta)@) + titles_meta(
                self.title@,
                self.title@.len() as int,
            ),
    {
        let ghost d0 = dc_lines(dc@);
        let ghost m0 = meta_lines(meta@);
        if self.title.len() == 0 {
            let base = DcMetadata {
                core: DublinCoreElement::Title,
                id: None,
                value: Some(String::from_str("Untitled")),
            };
            assert(base.line() =~= dc_text(DublinCoreElement::Title, None, "Untitled"@));
            let group = MetadataGrouping { base, refines: Vec::new() };
            assert(group.refines@ =~= Seq::empty());
            push_group(dc, meta, group);
            assert(meta_lines(meta@) =~= m0 + titles_meta(self.title@, 0));
        } else {
            let mut i: usize = 0;
            assert(dc_lines(dc@) =~= d0 + titles_dc(self.title@, 0));
            assert(meta_lines(meta@) =~= m0 + titles_meta(self.title@, 0));
            while i < self.title.len()
                invariant
                    i <= self.title.len(),
                    dc_lines(dc@) == d0 + titles_dc(self.title@, i as int),
                    meta_lines(meta@) == m0 + titles_meta(self.title@, i as int),
                decreases self.title.len() - i,
            {
                let group = MetadataGrouping::from_title(&self.title[i], i);
                push_group(dc, meta, group);
                assert(dc_lines(dc@) =~= d0 + titles_dc(self.title@, i + 1));
                assert(meta_lines(meta@) =~= m0 + titles_meta(self.title@, i + 1));
                i += 1;
            }
        }
    }

    fn push_contributors(
        &self,
        dc: &mut Vec<DcMetadata>,
        meta: &mut Vec<MetaMetadata>,
        creators: bool,
    )
        ensures
            dc_lines(final(dc)@) == dc_lines(old(dc)@) + contributors_dc(
                if creators {
                    self.creators@
                } else {
                    self.contributors@
                },
                creators,
                if creators {
                    self.creators@.len() as int
                } else {
                    self.contributors@.len() as int
                },
            ),
            meta_lines(final(meta)@) == meta_lines(old(meta)@) + contributors_meta(
                if creators {
                    self.creators@
                } else {
                    self.contributors@
                },
                creators,
                if creators {
                    self.creators@.len() as int
                } else {
                    self.contributors@.len() as int
                },
            ),
    {
        let list = if creators {
            &self.creators
        } else {
            &self.contributors
        };
        let ghost d0 = dc_lines(dc@);
        let ghost m0 = meta_lines(meta@);
        let mut i: usize = 0;
        assert(dc_lines(dc@) =~= d0 + contributors_dc(list@, creators, 0));
        assert(meta_lines(meta@) =~= m0 + contributors_meta(list@, creators, 0));
        while i < list.len()
            invariant
                i <= list.len(),
                dc_lines(dc@) == d0 + contributors_dc(list@, creators, i as int),
                meta_lines(meta@) == m0 + contributors_meta(list@, creators, i as int),
            decreases list.len() - i,
        {
            let group = MetadataGrouping::from_contributor(&list[i], creators, i);
            push_group(dc, meta, group);
            assert(dc_lines(dc@) =~= d0 + contributors_dc(list@, creators, i + 1));
            assert(meta_lines(meta@) =~= m0 + contributors_meta(list@, creators, i + 1));
            i += 1;
        }
    }
}

} // verus!
