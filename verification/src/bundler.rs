//! The container of an EPUB: the manifest, the spine and the navigation
//! of a source, its package document, and the archive that holds them.

use crate::bundle::{is_temp_filename, EpubContent, EpubResource};
use crate::metadata::Metadata;
use crate::mimetypes::MimeType;
use crate::package::{
    container_text, content_item, contributor_views, cover_item, css_item, dc_lines, item_lines,
    lemma_manifest_lines, meta_lines, nav_item, nav_text, package_text, pages_in, resource_item,
    spine_lines, spine_of, texts, title_views, write_opf, ContainerInfo, DcMetadata, EpubSource, ItemView,
    ManifestItem, MetaMetadata, NavInfo, SpineElement, TitleCode,
};
use crate::seqs::group_views;
use crate::stamps::{new_uuid, simple_of, time_text, urn_of};
use crate::text::{owned, str_eq};
use crate::toc::{added, lemma_added_len, table_text, tree, EntryView, TEManager};
use crate::vocabulary::{
    ContributorRole, EpubTitleType, MarcRelator, OnixContributorCode, OnixProductIdentifier,
};
use std::io::Cursor;
use vstd::prelude::*;
use vstd::string::*;
use vstd::utf8::encode_utf8;
use zip::ZipWriter;

verus! {

broadcast use group_views;

/// A zip archive in memory that is being written: a `zip::ZipWriter` over
/// a `std::io::Cursor`.
#[verifier::external_body]
pub struct Archive {
    writer: ZipWriter<Cursor<Vec<u8>>>,
}

/// What goes wrong in the writing of an archive, `zip::result::ZipError`.
#[verifier::external_type_specification]
#[verifier::external_body]
pub struct ExZipError(zip::result::ZipError);

/// What goes wrong in writing, `std::io::Error`.
#[verifier::external_type_specification]
#[verifier::external_body]
pub struct ExIoError(std::io::Error);

/// The entries of an archive in the order in which they were started:
/// the name of each and what was written to it.
pub uninterp spec fn archive_files(w: Archive) -> Seq<(Seq<char>, Seq<u8>)>;

/// The bytes of an archive when it is finished.
pub uninterp spec fn archive_bytes(w: Archive) -> Seq<u8>;

/// An archive in memory, as `zip::ZipWriter::new` makes it: it has no
/// entries.
#[verifier::external_body]
fn new_archive() -> (w: Archive)
    ensures
        archive_files(w) == Seq::<(Seq<char>, Seq<u8>)>::empty(),
{
    Archive { writer: ZipWriter::new(Cursor::new(Vec::new())) }
}

/// Starts an entry that is kept as it is, with
/// `zip::ZipWriter::start_file`: where that succeeds the archive has a new
/// last entry of that name, with nothing in it.
#[verifier::external_body]
fn start_stored_file(w: &mut Archive, name: &str) -> (r: Result<
    (),
    zip::result::ZipError,
>)
    ensures
        r is Ok ==> archive_files(*final(w)) == archive_files(*old(w)).push(
            (name@, Seq::<u8>::empty()),
        ),
{
    let kept = zip::write::FileOptions::default().compression_method(
        zip::CompressionMethod::Stored,
    );
    w.writer.start_file(name, kept)
}

/// Starts an entry with `zip::ZipWriter::start_file` and its default
/// options: where that succeeds the archive has a new last entry of that
/// name, with nothing in it.
#[verifier::external_body]
fn start_file(w: &mut Archive, name: &str) -> (r: Result<
    (),
    zip::result::ZipError,
>)
    ensures
        r is Ok ==> archive_files(*final(w)) == archive_files(*old(w)).push(
            (name@, Seq::<u8>::empty()),
        ),
{
    w.writer.start_file(name, zip::write::FileOptions::default())
}

/// The name of a directory in an archive: it ends in a slash.
pub open spec fn directory_name(name: Seq<char>) -> Seq<char> {
    if name.len() > 0 && (name.last() == '/' || name.last() == '\\') {
        name
    } else {
        name + seq!['/']
    }
}

/// Adds a directory with `zip::ZipWriter::add_directory`: where that
/// succeeds the archive has a new last entry under the name of the
/// directory, with nothing in it.
#[verifier::external_body]
fn add_directory(w: &mut Archive, name: &str) -> (r: Result<
    (),
    zip::result::ZipError,
>)
    ensures
        r is Ok ==> archive_files(*final(w)) == archive_files(*old(w)).push(
            (directory_name(name@), Seq::<u8>::empty()),
        ),
{
    w.writer.add_directory(name, zip::write::FileOptions::default())
}

/// The entries of an archive with bytes written behind what its last
/// entry held.
pub open spec fn written(files: Seq<(Seq<char>, Seq<u8>)>, bytes: Seq<u8>) -> Seq<
    (Seq<char>, Seq<u8>),
> {
    files.drop_last().push((files.last().0, files.last().1 + bytes))
}

/// Writes to the last entry with `std::io::Write::write_all`, which does
/// nothing where there are no bytes to write: where it succeeds on some
/// bytes, there is a last entry, and it holds the bytes behind what it
/// held.
#[verifier::external_body]
fn write_all(w: &mut Archive, bytes: &[u8]) -> (r: Result<(), std::io::Error>)
    ensures
        r is Ok && bytes@.len() == 0 ==> archive_files(*final(w)) == archive_files(*old(w)),
        r is Ok && bytes@.len() > 0 ==> archive_files(*old(w)).len() > 0 && archive_files(
            *final(w),
        ) == written(archive_files(*old(w)), bytes@),
{
    std::io::Write::write_all(&mut w.writer, bytes)
}

/// Finishes an archive with `zip::ZipWriter::finish`: where that succeeds
/// the result is the bytes of the archive.
#[verifier::external_body]
fn finish(w: Archive) -> (r: Result<Vec<u8>, zip::result::ZipError>)
    ensures
        r is Ok ==> r->Ok_0@ == archive_bytes(w),
{
    let mut w = w;
    w.writer.finish().map(|cursor| cursor.into_inner())
}

/// Why an EPUB could not be put together.
#[derive(Debug)]
pub enum EpubBundlingError {
    /// The archive could not be written.
    Zip(zip::result::ZipError),
    /// An entry of the archive could not be written.
    Io(std::io::Error),
    /// There is nothing to put into the archive.
    EmptyContainer,
    /// The book has no pages.
    EmptySpine,
    /// The source holds nothing.
    EmptyManifest,
}

/// The entries of the first `n` pieces of content.
pub open spec fn content_items(contents: Seq<EpubContent>, n: int) -> Seq<ItemView>
    decreases n,
{
    if n <= 0 {
        Seq::empty()
    } else {
        content_items(contents, n - 1).push(
            content_item(contents[n - 1].output_path@, contents[n - 1].includes_svg, (n - 1) as nat),
        )
    }
}

/// The entries of the first `n` resources, each under its id.
pub open spec fn resource_items(resources: Seq<EpubResource>, ids: Seq<Seq<char>>, n: int) -> Seq<
    ItemView,
>
    decreases n,
{
    if n <= 0 {
        Seq::empty()
    } else {
        resource_items(resources, ids, n - 1).push(
            resource_item(resources[n - 1].output_path@, resources[n - 1].mimetype, ids[n - 1]),
        )
    }
}

/// The table of contents of the first `n` pieces of content: an entry for
/// each that shows in the table.
pub open spec fn toc_entries(contents: Seq<EpubContent>, n: int) -> Seq<EntryView>
    decreases n,
{
    if n <= 0 {
        Seq::empty()
    } else {
        let before = toc_entries(contents, n - 1);
        match contents[n - 1].toc_entry {
            Some(e) => added(before, contents[n - 1].output_path@, e.level, e.title@),
            None => before,
        }
    }
}

/// The path of the package document in the archive.
pub open spec fn opf_path() -> Seq<char> {
    "document.opf"@
}

/// The path of the navigation document in the archive.
pub open spec fn nav_path() -> Seq<char> {
    "toc.xhtml"@
}

impl EpubSource {
    /// Whether the source holds nothing.
    pub open spec fn is_empty(&self) -> bool {
        self.contents@.len() == 0 && self.resources@.len() == 0 && self.cover_image is None
            && self.css is None
    }

    /// The entry of the cover image, where there is one.
    pub open spec fn cover_items(&self) -> Seq<ItemView> {
        match self.cover_image {
            Some(c) => seq![cover_item(c.output_path@, c.mimetype)],
            None => Seq::empty(),
        }
    }

    /// The entry of the stylesheet, where there is one.
    pub open spec fn css_items(&self) -> Seq<ItemView> {
        match self.css {
            Some(c) => seq![css_item(c.output_path@, c.mimetype)],
            None => Seq::empty(),
        }
    }

    /// The manifest: content, resources, cover and stylesheet, and the
    /// table of contents at its end.
    pub open spec fn manifest(&self, ids: Seq<Seq<char>>) -> Seq<ItemView> {
        (content_items(self.contents@, self.contents@.len() as int) + resource_items(
            self.resources@,
            ids,
            self.resources@.len() as int,
        ) + self.cover_items() + self.css_items()).push(nav_item())
    }

    /// The path of the stylesheet, where there is one.
    pub open spec fn stylesheet(&self) -> Option<Seq<char>> {
        match self.css {
            Some(c) => Some(c.output_path@),
            None => None,
        }
    }

    /// The navigation document.
    pub open spec fn nav(&self) -> Seq<char> {
        nav_text(
            "Contents"@,
            self.stylesheet(),
            table_text(toc_entries(self.contents@, self.contents@.len() as int)),
        )
    }

    /// The package document, with the URN and the time that stand in for
    /// what the source does not say, and the ids of the resources.
    pub open spec fn opf(&self, urn: Seq<char>, now: Seq<char>, ids: Seq<Seq<char>>) -> Seq<char> {
        package_text(
            self.dc_text(urn),
            self.meta_text(now),
            item_lines(self.manifest(ids)),
            spine_of(self.manifest(ids)),
        )
    }

    /// The manifest of the source, with an id for each resource. A source
    /// that holds nothing has no manifest.
    pub fn get_manifest_items_with(&self, ids: &Vec<String>) -> (r: Result<
        Vec<ManifestItem>,
        EpubBundlingError,
    >)
        requires
            ids@.len() == self.resources@.len(),
        ensures
            self.is_empty() <==> r is Err,
            r is Err ==> r->Err_0 is EmptyManifest,
            r is Ok ==> r->Ok_0.deep_view() == self.manifest(ids.deep_view()),
    {
        let mut items: Vec<ManifestItem> = Vec::new();
        let mut i: usize = 0;
        while i < self.contents.len()
            invariant
                i <= self.contents.len(),
                items.len() == i,
                items.deep_view() == content_items(self.contents@, i as int),
            decreases self.contents.len() - i,
        {
            items.push(ManifestItem::from_epub_content(&self.contents[i], i));
            i += 1;
        }
        let ghost first = items.deep_view();
        let mut k: usize = 0;
        assert(items.deep_view() =~= first + resource_items(self.resources@, ids.deep_view(), 0));
        while k < self.resources.len()
            invariant
                k <= self.resources.len(),
                ids@.len() == self.resources@.len(),
                items.len() == self.contents.len() + k,
                items.deep_view() == first + resource_items(
                    self.resources@,
                    ids.deep_view(),
                    k as int,
                ),
            decreases self.resources.len() - k,
        {
            items.push(ManifestItem::from_epub_resource(&self.resources[k], ids[k].as_str()));
            assert(items.deep_view() =~= first + resource_items(
                self.resources@,
                ids.deep_view(),
                k + 1,
            ));
            k += 1;
        }
        let ghost second = items.deep_view();
        if let Some(item) = &self.cover_image {
            items.push(ManifestItem::from_cover_image(item));
        }
        assert(items.deep_view() =~= second + self.cover_items());
        let ghost third = items.deep_view();
        if let Some(item) = &self.css {
            items.push(ManifestItem::from_css(item));
        }
        assert(items.deep_view() =~= third + self.css_items());
        if items.len() == 0 {
            return Err(EpubBundlingError::EmptyManifest);
        }
        let mut properties: Vec<&'static str> = Vec::new();
        properties.push("nav");
        let nav = ManifestItem {
            href: owned("toc.xhtml"),
            id: owned("mainnav"),
            media_type: MimeType::Xhtml.to_str(),
            properties,
        };
        assert(texts(properties@) =~= seq!["nav"@]);
        items.push(nav);
        Ok(items)
    }

    /// The spine of a manifest: a reference to each of its documents but
    /// the table of contents. A manifest without such a document has no
    /// spine.
    pub fn get_spine_items(manifest: &Vec<ManifestItem>) -> (r: Result<
        Vec<SpineElement>,
        EpubBundlingError,
    >)
        ensures
            pages_in(manifest.deep_view()) == 0 <==> r is Err,
            r is Err ==> r->Err_0 is EmptySpine,
            r is Ok ==> spine_lines(r->Ok_0@) == spine_of(manifest.deep_view())
                && r->Ok_0@.len() == pages_in(manifest.deep_view()),
    {
        let mut items: Vec<SpineElement> = Vec::new();
        let ghost all = manifest.deep_view();
        let mut i: usize = 0;
        while i < manifest.len()
            invariant
                i <= manifest.len(),
                all == manifest.deep_view(),
                items@.len() == pages_in(all.take(i as int)),
                spine_lines(items@) == spine_of(all.take(i as int)),
            decreases manifest.len() - i,
        {
            let item = &manifest[i];
            proof {
                assert(all.take(i + 1).drop_last() =~= all.take(i as int));
                assert(all.take(i + 1).last() == item.deep_view());
            }
            if str_eq(item.media_type, MimeType::Xhtml.to_str()) && !str_eq(
                item.href.as_str(),
                "toc.xhtml",
            ) {
                let s = SpineElement {
                    id: None,
                    idref: owned(item.id.as_str()),
                    linear: None,
                    properties: Vec::new(),
                };
                proof {
                    assert(texts(s.properties@) =~= Seq::<Seq<char>>::empty());
                    assert(s.line() =~= item.deep_view().reference());
                }
                let ghost before = items@;
                items.push(s);
                assert(items@.drop_last() =~= before);
            }
            i += 1;
        }
        assert(all.take(manifest.len() as int) =~= all);
        if items.len() == 0 {
            Err(EpubBundlingError::EmptySpine)
        } else {
            Ok(items)
        }
    }
}

/// An id for each of `count` resources, drawn at random.
pub fn new_ids(count: usize) -> (r: Vec<String>)
    ensures
        r@.len() == count,
{
    let mut ids: Vec<String> = Vec::new();
    let mut i: usize = 0;
    while i < count
        invariant
            i <= count,
            ids@.len() == i,
        decreases count - i,
    {
        ids.push(simple_of(&new_uuid()));
        i += 1;
    }
    ids
}

/// Whether `text` is a package document of `source`, whatever URN, time
/// and ids stand in it.
pub open spec fn is_opf_of(source: &EpubSource, text: Seq<char>) -> bool {
    exists|urn: Seq<char>, now: Seq<char>, ids: Seq<Seq<char>>| #[trigger]
        source.opf(urn, now, ids) == text && ids.len() == source.resources@.len()
}

/// The pages in two lists of entries are those of the one and those of
/// the other.
pub proof fn lemma_pages_joined(a: Seq<ItemView>, b: Seq<ItemView>)
    ensures
        pages_in(a + b) == pages_in(a) + pages_in(b),
    decreases b.len(),
{
    if b.len() == 0 {
        assert(a + b =~= a);
    } else {
        assert((a + b).drop_last() =~= a + b.drop_last());
        lemma_pages_joined(a, b.drop_last());
    }
}

/// How many of the first `n` resources are pages of the book.
pub open spec fn resource_pages(resources: Seq<EpubResource>, n: int) -> nat
    decreases n,
{
    if n <= 0 {
        0
    } else {
        resource_pages(resources, n - 1) + (if resources[n - 1].mimetype == MimeType::Xhtml
            && resources[n - 1].output_path@ != nav_path() {
            1nat
        } else {
            0nat
        })
    }
}

/// Whether a resource is a page does not depend on its id.
pub proof fn lemma_resource_pages(resources: Seq<EpubResource>, ids: Seq<Seq<char>>, n: int)
    requires
        0 <= n <= resources.len(),
    ensures
        pages_in(resource_items(resources, ids, n)) == resource_pages(resources, n),
    decreases n,
{
    if n > 0 {
        lemma_resource_pages(resources, ids, n - 1);
        assert(resource_items(resources, ids, n).drop_last() =~= resource_items(
            resources,
            ids,
            n - 1,
        ));
        resources[n - 1].mimetype.lemma_document_name();
    }
}

impl EpubSource {
    /// How many pages of the book the manifest of the source lists.
    pub open spec fn pages(&self) -> nat {
        pages_in(content_items(self.contents@, self.contents@.len() as int)) + resource_pages(
            self.resources@,
            self.resources@.len() as int,
        ) + pages_in(self.cover_items()) + pages_in(self.css_items())
    }

    /// The pages of a manifest are the pages of the source, whatever the
    /// ids of its resources.
    pub proof fn lemma_pages(&self, ids: Seq<Seq<char>>)
        ensures
            pages_in(self.manifest(ids)) == self.pages(),
    {
        let contents = content_items(self.contents@, self.contents@.len() as int);
        let resources = resource_items(self.resources@, ids, self.resources@.len() as int);
        let listed = contents + resources + self.cover_items() + self.css_items();
        assert(self.manifest(ids).drop_last() =~= listed);
        lemma_pages_joined(contents + resources + self.cover_items(), self.css_items());
        lemma_pages_joined(contents + resources, self.cover_items());
        lemma_pages_joined(contents, resources);
        lemma_resource_pages(self.resources@, ids, self.resources@.len() as int);
        reveal_strlit("toc.xhtml");
        assert(!nav_item().in_spine());
    }

    /// The navigation document of the source: its title, its
    /// stylesheet, and the table of contents of its content.
    pub fn get_nav(&self) -> (r: String)
        ensures
            r@ == self.nav(),
    {
        let mut toc = TEManager::new();
        let mut i: usize = 0;
        while i < self.contents.len()
            invariant
                i <= self.contents.len(),
                toc.deep_view() == toc_entries(self.contents@, i as int),
                toc.deep_view().len() <= i,
                tree(toc.deep_view()),
            decreases self.contents.len() - i,
        {
            let ghost before = toc.deep_view();
            match &self.contents[i].toc_entry {
                Some(e) => {
                    proof {
                        lemma_added_len(
                            before,
                            self.contents@[i as int].output_path@,
                            e.level,
                            e.title@,
                        );
                    }
                    toc.add_new_entry(
                        self.contents[i].output_path.as_str(),
                        e.level,
                        e.title.as_str(),
                    );
                },
                None => {},
            }
            i += 1;
        }
        let entry_list = toc.render();
        let stylesheet = match &self.css {
            Some(css) => Some(owned(css.output_path.as_str())),
            None => None,
        };
        let n = NavInfo { toc_title: owned("Contents"), entry_list, stylesheet };
        n.render()
    }

    /// The package document of the source, with the URN and the time that
    /// stand in for what the source does not say, and an id for each
    /// resource. A source that holds nothing has no manifest, and one
    /// without a page has no spine.
    pub fn generate_opf_with(&self, urn: &str, now: &str, ids: &Vec<String>) -> (r: Result<
        String,
        EpubBundlingError,
    >)
        requires
            ids@.len() == self.resources@.len(),
        ensures
            self.is_empty() ==> r is Err && r->Err_0 is EmptyManifest,
            !self.is_empty() && self.pages() == 0 ==> r is Err && r->Err_0 is EmptySpine,
            !self.is_empty() && self.pages() > 0 ==> r is Ok && r->Ok_0@ == self.opf(
                urn@,
                now@,
                ids.deep_view(),
            ),
    {
        let (dc, meta) = self.get_metadata_with(urn, now);
        proof {
            self.lemma_pages(ids.deep_view());
        }
        let manifest = match self.get_manifest_items_with(ids) {
            Ok(m) => m,
            Err(e) => {
                return Err(e);
            },
        };
        let spine = match Self::get_spine_items(&manifest) {
            Ok(s) => s,
            Err(e) => {
                return Err(e);
            },
        };
        proof {
            lemma_manifest_lines(manifest@);
        }
        Ok(write_opf(&dc, &meta, &manifest, &spine))
    }

    /// The metadata of the package. Where the source has no identifier a
    /// URN is drawn at random, and where it does not say when it was
    /// changed the clock is read.
    pub fn get_metadata(&self) -> (r: (Vec<DcMetadata>, Vec<
        MetaMetadata,
    >))
        ensures
            exists|urn: Seq<char>, now: Seq<char>|
                dc_lines(r.0@) == #[trigger] self.dc_text(urn)
                    && meta_lines(r.1@) == #[trigger] self.meta_text(now),
    {
        let urn = match &self.identifier {
            Some(_) => String::new(),
            None => urn_of(&new_uuid()),
        };
        let now = match &self.last_modification {
            Some(_) => String::new(),
            None => time_text("%FT%TZ"),
        };
        let r = self.get_metadata_with(urn.as_str(), now.as_str());
        assert(dc_lines(r.0@) == self.dc_text(urn@));
        assert(meta_lines(r.1@) == self.meta_text(now@));
        r
    }

    /// The manifest of the source, with an id drawn at random for each
    /// resource.
    pub fn get_manifest_items(&self) -> (r: Result<Vec<ManifestItem>, EpubBundlingError>)
        ensures
            self.is_empty() <==> r is Err,
            r is Err ==> r->Err_0 is EmptyManifest,
            r is Ok ==> exists|ids: Seq<Seq<char>>|
                ids.len() == self.resources@.len() && r->Ok_0.deep_view() == #[trigger] self.manifest(
                    ids,
                ),
    {
        let ids = new_ids(self.resources.len());
        let r = self.get_manifest_items_with(&ids);
        proof {
            if r is Ok {
                assert(r->Ok_0.deep_view() == self.manifest(ids.deep_view()));
            }
        }
        r
    }

    /// The package document of the source.
    pub fn generate_opf(&self) -> (r: Result<String, EpubBundlingError>)
        ensures
            self.is_empty() ==> r is Err && r->Err_0 is EmptyManifest,
            !self.is_empty() && self.pages() == 0 ==> r is Err && r->Err_0 is EmptySpine,
            !self.is_empty() && self.pages() > 0 ==> r is Ok && is_opf_of(self, r->Ok_0@),
    {
        let urn = match &self.identifier {
            Some(_) => String::new(),
            None => urn_of(&new_uuid()),
        };
        let now = match &self.last_modification {
            Some(_) => String::new(),
            None => time_text("%FT%TZ"),
        };
        let ids = new_ids(self.resources.len());
        let r = self.generate_opf_with(urn.as_str(), now.as_str(), &ids);
        proof {
            if r is Ok {
                assert(self.opf(urn@, now@, ids.deep_view()) == r->Ok_0@);
            }
        }
        r
    }
}

/// Whether an archive holds these entries and gives these bytes.
pub open spec fn archive_holds(w: Archive, entries: Seq<(Seq<char>, Seq<u8>)>, bytes: Seq<u8>) -> bool {
    archive_files(w) == entries && archive_bytes(w) == bytes
}

/// Whether `bytes` are an archive of these entries.
pub open spec fn is_archive_of(entries: Seq<(Seq<char>, Seq<u8>)>, bytes: Seq<u8>) -> bool {
    exists|w: Archive| #[trigger] archive_holds(w, entries, bytes)
}

/// The paths and the data of files, as values.
pub open spec fn file_views(files: Seq<(&str, &[u8])>) -> Seq<(Seq<char>, Seq<u8>)> {
    Seq::new(files.len(), |i: int| (files[i].0@, files[i].1@))
}

/// The entries of a container: what says that it is an EPUB, the
/// directory of the container document, that document, and the files.
pub open spec fn container_entries(files: Seq<(Seq<char>, Seq<u8>)>) -> Seq<(Seq<char>, Seq<u8>)> {
    seq![
        ("mimetype"@, encode_utf8("application/epub+zip"@)),
        ("META-INF/"@, Seq::<u8>::empty()),
        ("META-INF/container.xml"@, encode_utf8(container_text(opf_path()))),
    ] + files
}

fn write_entry(w: &mut Archive, name: &str, data: &[u8]) -> (r: Result<(), EpubBundlingError>)
    ensures
        r is Ok ==> archive_files(*final(w)) == archive_files(*old(w)).push((name@, data@)),
        r is Err ==> r->Err_0 is Zip || r->Err_0 is Io,
{
    match start_file(w, name) {
        Ok(()) => {},
        Err(e) => {
            return Err(EpubBundlingError::Zip(e));
        },
    }
    let ghost started = archive_files(*w);
    match write_all(w, data) {
        Ok(()) => {
            assert(started.drop_last() =~= archive_files(*old(w)));
            assert(Seq::<u8>::empty() + data@ =~= data@);
            assert(data@.len() == 0 ==> data@ =~= Seq::<u8>::empty());
            Ok(())
        },
        Err(e) => Err(EpubBundlingError::Io(e)),
    }
}

fn write_head(w: &mut Archive) -> (r: Result<(), EpubBundlingError>)
    requires
        archive_files(*old(w)).len() == 0,
    ensures
        r is Ok ==> archive_files(*final(w)) == container_entries(Seq::empty()),
        r is Err ==> r->Err_0 is Zip || r->Err_0 is Io,
{
    match start_stored_file(w, "mimetype") {
        Ok(()) => {},
        Err(e) => {
            return Err(EpubBundlingError::Zip(e));
        },
    }
    let ghost started = archive_files(*w);
    match write_all(w, "application/epub+zip".as_bytes()) {
        Ok(()) => {},
        Err(e) => {
            return Err(EpubBundlingError::Io(e));
        },
    }
    match add_directory(w, "META-INF") {
        Ok(()) => {},
        Err(e) => {
            return Err(EpubBundlingError::Zip(e));
        },
    }
    let c = ContainerInfo { document_path: owned("document.opf") };
    let container_file = c.render();
    let ghost before = archive_files(*w);
    write_entry(w, "META-INF/container.xml", container_file.as_str().as_bytes())?;
    proof {
        reveal_strlit("META-INF");
        reveal_strlit("META-INF/");
        assert(directory_name("META-INF"@) =~= "META-INF/"@);
        assert(started.drop_last() =~= Seq::<(Seq<char>, Seq<u8>)>::empty());
        assert(Seq::<u8>::empty() + encode_utf8("application/epub+zip"@) =~= encode_utf8(
            "application/epub+zip"@,
        ));
        assert(archive_files(*w) =~= container_entries(Seq::empty()));
    }
    Ok(())
}

/// The files of a container.
pub struct Container<'a> {
    pub files: Vec<(&'a str, &'a [u8])>,
}

impl<'a> Container<'a> {
    /// Writes the container as an archive: first what says that it is an
    /// EPUB, then the container document, then the files in their order.
    /// A container without files is refused.
    pub fn to_epub(&self) -> (r: Result<Vec<u8>, EpubBundlingError>)
        ensures
            self.files@.len() == 0 ==> r is Err && r->Err_0 is EmptyContainer,
            self.files@.len() > 0 && r is Err ==> r->Err_0 is Zip || r->Err_0 is Io,
            r is Ok ==> is_archive_of(container_entries(file_views(self.files@)), r->Ok_0@),
    {
        if self.files.len() == 0 {
            return Err(EpubBundlingError::EmptyContainer);
        }
        let mut zipper = new_archive();
        write_head(&mut zipper)?;
        let ghost all = file_views(self.files@);
        let mut i: usize = 0;
        assert(container_entries(Seq::empty()) =~= container_entries(all.take(0)));
        while i < self.files.len()
            invariant
                i <= self.files.len(),
                all == file_views(self.files@),
                archive_files(zipper) == container_entries(all.take(i as int)),
            decreases self.files.len() - i,
        {
            let (path, contents) = self.files[i];
            write_entry(&mut zipper, path, contents)?;
            assert(container_entries(all.take(i + 1)) =~= container_entries(
                all.take(i as int),
            ).push((path@, contents@)));
            i += 1;
        }
        assert(all.take(self.files.len() as int) =~= all);
        match finish(zipper) {
            Ok(bytes) => {
                assert(archive_holds(zipper, container_entries(all), bytes@));
                Ok(bytes)
            },
            Err(e) => Err(EpubBundlingError::Zip(e)),
        }
    }
}

/// The first `n` pieces of content as files.
pub open spec fn content_files(contents: Seq<EpubContent>, n: int) -> Seq<(Seq<char>, Seq<u8>)>
    decreases n,
{
    if n <= 0 {
        Seq::empty()
    } else {
        content_files(contents, n - 1).push(
            (contents[n - 1].output_path@, encode_utf8(contents[n - 1].data@)),
        )
    }
}

/// The first `n` resources as files.
pub open spec fn resource_files(resources: Seq<EpubResource>, n: int) -> Seq<(Seq<char>, Seq<u8>)>
    decreases n,
{
    if n <= 0 {
        Seq::empty()
    } else {
        resource_files(resources, n - 1).push(
            (resources[n - 1].output_path@, resources[n - 1].data@),
        )
    }
}

/// A resource as a file, where there is one.
pub open spec fn optional_file(resource: Option<EpubResource>) -> Seq<(Seq<char>, Seq<u8>)> {
    match resource {
        Some(r) => seq![(r.output_path@, r.data@)],
        None => Seq::empty(),
    }
}

/// Whether `bytes` are an EPUB of `source`.
pub open spec fn is_epub_of(source: &EpubSource, bytes: Seq<u8>) -> bool {
    exists|opf: Seq<char>|
        is_opf_of(source, opf) && #[trigger] is_archive_of(
            container_entries(source.files(opf)),
            bytes,
        )
}

impl EpubSource {
    /// The files of an EPUB around a package document and a navigation
    /// document: the two, the content, the resources, the cover and the
    /// stylesheet.
    pub open spec fn files_with(&self, opf: Seq<char>, nav: Seq<char>) -> Seq<
        (Seq<char>, Seq<u8>),
    > {
        seq![(opf_path(), encode_utf8(opf)), (nav_path(), encode_utf8(nav))] + content_files(
            self.contents@,
            self.contents@.len() as int,
        ) + resource_files(self.resources@, self.resources@.len() as int) + optional_file(
            self.cover_image,
        ) + optional_file(self.css)
    }

    /// The files of the EPUB with a package document.
    pub open spec fn files(&self, opf: Seq<char>) -> Seq<(Seq<char>, Seq<u8>)> {
        self.files_with(opf, self.nav())
    }

    fn first_files<'a>(&'a self, opf: &'a str, nav: &'a str) -> (files: Vec<(&'a str, &'a [u8])>)
        ensures
            file_views(files@) == seq![
                (opf_path(), encode_utf8(opf@)),
                (nav_path(), encode_utf8(nav@)),
            ] + content_files(self.contents@, self.contents@.len() as int),
    {
        let mut files: Vec<(&str, &[u8])> = Vec::new();
        files.push(("document.opf", opf.as_bytes()));
        files.push(("toc.xhtml", nav.as_bytes()));
        let ghost head = file_views(files@);
        assert(head =~= seq![(opf_path(), encode_utf8(opf@)), (nav_path(), encode_utf8(nav@))]);
        let mut i: usize = 0;
        assert(file_views(files@) =~= head + content_files(self.contents@, 0));
        while i < self.contents.len()
            invariant
                i <= self.contents.len(),
                file_views(files@) == head + content_files(self.contents@, i as int),
            decreases self.contents.len() - i,
        {
            let item = &self.contents[i];
            let ghost before = files@;
            files.push((item.output_path.as_str(), item.data.as_str().as_bytes()));
            assert(file_views(files@) =~= file_views(before).push(
                (item.output_path@, encode_utf8(item.data@)),
            ));
            assert(file_views(files@) =~= head + content_files(self.contents@, i + 1));
            i += 1;
        }
        files
    }

    fn gather_files<'a>(&'a self, opf: &'a str, nav: &'a str) -> (files: Vec<(&'a str, &'a [u8])>)
        ensures
            file_views(files@) == self.files_with(opf@, nav@),
            files@.len() > 0,
    {
        let mut files = self.first_files(opf, nav);
        let ghost second = file_views(files@);
        let mut k: usize = 0;
        assert(file_views(files@) =~= second + resource_files(self.resources@, 0));
        while k < self.resources.len()
            invariant
                k <= self.resources.len(),
                file_views(files@) == second + resource_files(self.resources@, k as int),
            decreases self.resources.len() - k,
        {
            let item = &self.resources[k];
            let ghost before = files@;
            files.push((item.output_path.as_str(), item.data.as_slice()));
            assert(file_views(files@) =~= file_views(before).push((item.output_path@, item.data@)));
            assert(file_views(files@) =~= second + resource_files(self.resources@, k + 1));
            k += 1;
        }
        let ghost third = file_views(files@);
        if let Some(ci) = &self.cover_image {
            let ghost before = files@;
            files.push((ci.output_path.as_str(), ci.data.as_slice()));
            assert(file_views(files@) =~= file_views(before).push((ci.output_path@, ci.data@)));
        }
        assert(file_views(files@) =~= third + optional_file(self.cover_image));
        let ghost fourth = file_views(files@);
        if let Some(css) = &self.css {
            let ghost before = files@;
            files.push((css.output_path.as_str(), css.data.as_slice()));
            assert(file_views(files@) =~= file_views(before).push((css.output_path@, css.data@)));
        }
        assert(file_views(files@) =~= fourth + optional_file(self.css));
        assert(file_views(files@).len() == files@.len());
        files
    }

    /// Puts the source together as an EPUB. A source that holds nothing,
    /// or no page, is refused; what else goes wrong is an error of the
    /// archive.
    pub fn bundle_epub(&self) -> (r: Result<Vec<u8>, EpubBundlingError>)
        ensures
            self.is_empty() ==> r is Err && r->Err_0 is EmptyManifest,
            !self.is_empty() && self.pages() == 0 ==> r is Err && r->Err_0 is EmptySpine,
            !self.is_empty() && self.pages() > 0 && r is Err ==> r->Err_0 is Zip || r->Err_0 is Io,
            r is Ok ==> is_epub_of(self, r->Ok_0@),
    {
        let opf = self.generate_opf()?;
        let nav = self.get_nav();
        let files = self.gather_files(opf.as_str(), nav.as_str());
        let container = Container { files };
        let r = container.to_epub();
        proof {
            if r is Ok {
                assert(is_archive_of(container_entries(self.files(opf@)), r->Ok_0@));
            }
        }
        r
    }

    /// Puts the source together as an EPUB.
    pub fn bundle(&mut self) -> (r: Result<Vec<u8>, EpubBundlingError>)
        ensures
            *final(self) == *old(self),
            old(self).is_empty() ==> r is Err && r->Err_0 is EmptyManifest,
            !old(self).is_empty() && old(self).pages() == 0 ==> r is Err && r->Err_0 is EmptySpine,
            !old(self).is_empty() && old(self).pages() > 0 && r is Err ==> r->Err_0 is Zip
                || r->Err_0 is Io,
            r is Ok ==> is_epub_of(old(self), r->Ok_0@),
    {
        self.bundle_epub()
    }
}

/// People of one role, each under their name.
pub open spec fn named(role: ContributorRole, names: Seq<String>) -> Seq<
    (ContributorRole, Seq<char>),
> {
    Seq::new(names.len(), |i: int| (role, names[i]@))
}

/// A subtitle as a title of the package, where there is one.
pub open spec fn subtitle_views(subtitle: Option<String>) -> Seq<(TitleCode, Seq<char>)> {
    match subtitle {
        Some(s) => seq![(TitleCode::Unspecified(EpubTitleType::Subtitle), s@)],
        None => Seq::empty(),
    }
}

fn add_named(source: &mut EpubSource, names: &Vec<String>, role: ContributorRole)
    ensures
        role.creates() ==> *final(source) == (EpubSource {
            creators: final(source).creators,
            ..*old(source)
        }) && contributor_views(final(source).creators@) == contributor_views(
            old(source).creators@,
        ) + named(role, names@),
        !role.creates() ==> *final(source) == (EpubSource {
            contributors: final(source).contributors,
            ..*old(source)
        }) && contributor_views(final(source).contributors@) == contributor_views(
            old(source).contributors@,
        ) + named(role, names@),
{
    let mut i: usize = 0;
    assert(named(role, names@.take(0)) =~= Seq::empty());
    assert(contributor_views(source.creators@) + Seq::empty() =~= contributor_views(
        source.creators@,
    ));
    assert(contributor_views(source.contributors@) + Seq::empty() =~= contributor_views(
        source.contributors@,
    ));
    while i < names.len()
        invariant
            i <= names.len(),
            role.creates() ==> *source == (EpubSource { creators: source.creators, ..*old(source) })
                && contributor_views(source.creators@) == contributor_views(old(source).creators@)
                + named(role, names@.take(i as int)),
            !role.creates() ==> *source == (EpubSource {
                contributors: source.contributors,
                ..*old(source)
            }) && contributor_views(source.contributors@) == contributor_views(
                old(source).contributors@,
            ) + named(role, names@.take(i as int)),
        decreases names.len() - i,
    {
        source.add_contributor(names[i].as_str(), role);
        proof {
            assert(named(role, names@.take(i + 1)) =~= named(role, names@.take(i as int)).push(
                (role, names@[i as int]@),
            ));
            if role.creates() {
                assert(contributor_views(source.creators@) =~= contributor_views(
                    old(source).creators@,
                ) + named(role, names@.take(i + 1)));
            } else {
                assert(contributor_views(source.contributors@) =~= contributor_views(
                    old(source).contributors@,
                ) + named(role, names@.take(i + 1)));
            }
        }
        i += 1;
    }
    assert(names@.take(names.len() as int) =~= names@);
}

impl Metadata {
    /// Who contributed to the book without having written it, each in
    /// their role: editors, translators, and the authors of forewords, of
    /// introductions, of afterwords, and of introductions and notes.
    pub open spec fn package_contributors(&self) -> Seq<(ContributorRole, Seq<char>)> {
        named(ContributorRole::Marc(MarcRelator::Edt), self.editors@) + named(
            ContributorRole::Marc(MarcRelator::Trl),
            self.translators@,
        ) + named(ContributorRole::Onix(OnixContributorCode::A23), self.foreword_authors@) + named(
            ContributorRole::Onix(OnixContributorCode::A23),
            self.introduction_authors@,
        ) + named(ContributorRole::Onix(OnixContributorCode::A19), self.afterword_authors@)
            + named(
            ContributorRole::Onix(OnixContributorCode::A29),
            self.introduction_and_notes_authors@,
        )
    }

    fn add_titles(&self, source: &mut EpubSource)
        requires
            !old(source).has_main(),
            self.subtitle is Some ==> !old(source).has_subtitle(),
        ensures
            *final(source) == (EpubSource { title: final(source).title, ..*old(source) }),
            title_views(final(source).title@) == title_views(old(source).title@).push(
                (TitleCode::Unspecified(EpubTitleType::Main), self.title@),
            ) + subtitle_views(self.subtitle),
    {
        let _ = source.set_title(self.title.as_str());
        let ghost first = title_views(source.title@);
        assert(first + Seq::empty() =~= first);
        if let Some(subtitle) = &self.subtitle {
            assert(!source.has_subtitle()) by {
                if source.has_subtitle() {
                    let i = choose|i: int|
                        0 <= i < source.title@.len() && (
                        #[trigger] source.title@[i]).code.is_subtitle();
                    assert(title_views(source.title@)[i].0.is_subtitle());
                    assert(i < old(source).title@.len());
                    assert(title_views(old(source).title@)[i].0.is_subtitle());
                    assert(old(source).title@[i].code.is_subtitle());
                }
            }
            let _ = source.set_subtitle(subtitle.as_str());
            assert(title_views(source.title@) =~= first + subtitle_views(self.subtitle));
        }
    }

    fn add_contributors(&self, source: &mut EpubSource)
        ensures
            *final(source) == (EpubSource {
                creators: final(source).creators,
                contributors: final(source).contributors,
                ..*old(source)
            }),
            contributor_views(final(source).creators@) == contributor_views(
                old(source).creators@,
            ) + named(ContributorRole::Marc(MarcRelator::Aut), self.authors@),
            contributor_views(final(source).contributors@) == contributor_views(
                old(source).contributors@,
            ) + self.package_contributors(),
    {
        add_named(source, &self.authors, ContributorRole::Marc(MarcRelator::Aut));
        add_named(source, &self.editors, ContributorRole::Marc(MarcRelator::Edt));
        add_named(source, &self.translators, ContributorRole::Marc(MarcRelator::Trl));
        add_named(source, &self.foreword_authors, ContributorRole::Onix(OnixContributorCode::A23));
        add_named(
            source,
            &self.introduction_authors,
            ContributorRole::Onix(OnixContributorCode::A23),
        );
        add_named(source, &self.afterword_authors, ContributorRole::Onix(OnixContributorCode::A19));
        add_named(
            source,
            &self.introduction_and_notes_authors,
            ContributorRole::Onix(OnixContributorCode::A29),
        );
        assert(contributor_views(source.contributors@) =~= contributor_views(
            old(source).contributors@,
        ) + self.package_contributors());
    }

    /// Tells the source of an EPUB what is known of the book: its title
    /// and subtitle, its ISBN as an EPUB, and who wrote it or contributed
    /// to it. The source must not have a main title yet, nor a subtitle
    /// where the book has one.
    pub fn add_to_epub_source(&self, epub_src: &mut EpubSource)
        requires
            !old(epub_src).has_main(),
            self.subtitle is Some ==> !old(epub_src).has_subtitle(),
        ensures
            *final(epub_src) == (EpubSource {
                title: final(epub_src).title,
                identifier: final(epub_src).identifier,
                creators: final(epub_src).creators,
                contributors: final(epub_src).contributors,
                ..*old(epub_src)
            }),
            title_views(final(epub_src).title@) == title_views(old(epub_src).title@).push(
                (TitleCode::Unspecified(EpubTitleType::Main), self.title@),
            ) + subtitle_views(self.subtitle),
            self.epub_isbn is None ==> final(epub_src).identifier == old(epub_src).identifier,
            self.epub_isbn is Some ==> final(epub_src).identifier is Some && final(epub_src).identifier->0.code == OnixProductIdentifier::I15 && final(epub_src).identifier->0.text@ == self.epub_isbn->0@,
            contributor_views(final(epub_src).creators@) == contributor_views(
                old(epub_src).creators@,
            ) + named(ContributorRole::Marc(MarcRelator::Aut), self.authors@),
            contributor_views(final(epub_src).contributors@) == contributor_views(
                old(epub_src).contributors@,
            ) + self.package_contributors(),
    {
        self.add_titles(epub_src);
        if let Some(epub_isbn) = &self.epub_isbn {
            epub_src.set_isbn(epub_isbn.as_str());
        }
        self.add_contributors(epub_src);
    }
}

/// The source of the EPUB of a book: its pages as content, the files
/// they show as resources, what is known of the book, and its cover as a
/// jpeg where it has one.
pub fn epub_source_of(
    metadata: &Metadata,
    contents: Vec<EpubContent>,
    resources: Vec<EpubResource>,
    cover_jpeg: Option<Vec<u8>>,
) -> (r: EpubSource)
    ensures
        r.contents == contents,
        r.resources == resources,
        r.css is None,
        r.lang is None,
        r.last_modification is None,
        title_views(r.title@) == seq![(TitleCode::Unspecified(EpubTitleType::Main), metadata.title@)] + subtitle_views(
            metadata.subtitle,
        ),
        metadata.epub_isbn is None ==> r.identifier is None,
        metadata.epub_isbn is Some ==> r.identifier is Some && r.identifier->0.code
            == OnixProductIdentifier::I15 && r.identifier->0.text@ == metadata.epub_isbn->0@,
        contributor_views(r.creators@) == named(
            ContributorRole::Marc(MarcRelator::Aut),
            metadata.authors@,
        ),
        contributor_views(r.contributors@) == metadata.package_contributors(),
        cover_jpeg is None ==> r.cover_image is None,
        cover_jpeg is Some ==> r.cover_image is Some && r.cover_image->0.data@ == cover_jpeg->0@
            && r.cover_image->0.mimetype == MimeType::Jpeg && is_temp_filename(
            r.cover_image->0.output_path@,
            "jpg"@,
        ),
{
    let mut source = EpubSource::new();
    source.contents = contents;
    source.resources = resources;
    let ghost fresh = source;
    assert(title_views(fresh.title@) =~= Seq::empty());
    assert(contributor_views(fresh.creators@) =~= Seq::empty());
    assert(contributor_views(fresh.contributors@) =~= Seq::empty());
    metadata.add_to_epub_source(&mut source);
    proof {
        assert(title_views(source.title@) =~= seq![(TitleCode::Unspecified(EpubTitleType::Main), metadata.title@)]
            + subtitle_views(metadata.subtitle));
        assert(contributor_views(source.creators@) =~= named(
            ContributorRole::Marc(MarcRelator::Aut),
            metadata.authors@,
        ));
        assert(contributor_views(source.contributors@) =~= metadata.package_contributors());
    }
    if let Some(jpeg) = cover_jpeg {
        let _ = source.set_cover_image(EpubResource::new_jpg(jpeg));
    }
    source
}

} // verus!
