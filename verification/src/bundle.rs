//! What the renderer hands to the bundler of an EPUB: pieces of content
//! with their entries in the table of contents, and resources; and the file
//! names that stand for data.

use crate::mimetypes::{
    mime_of, mime_of_extension, path_extension, path_file_name, MimeType, MimeTypeHelper,
};
use crate::numbers::{decimal, number_to_decimal};
use vstd::prelude::*;
use vstd::string::*;

verus! {

/// `std::hash::Hash::hash` of a text into a
/// `std::collections::hash_map::DefaultHasher`, and its `finish`. The
/// algorithm of the hasher is not laid down, so nothing is claimed of the
/// result.
#[verifier::external_body]
pub(crate) fn hash_text(text: &str) -> (r: u64) {
    let mut hasher = std::collections::hash_map::DefaultHasher::new();
    std::hash::Hash::hash(text, &mut hasher);
    std::hash::Hasher::finish(&hasher)
}

/// `std::hash::Hash::hash` of a list of bytes into a
/// `std::collections::hash_map::DefaultHasher`, and its `finish`. The
/// algorithm of the hasher is not laid down, so nothing is claimed of the
/// result.
#[verifier::external_body]
pub(crate) fn hash_bytes(data: &Vec<u8>) -> (r: u64) {
    let mut hasher = std::collections::hash_map::DefaultHasher::new();
    std::hash::Hash::hash(data, &mut hasher);
    std::hash::Hasher::finish(&hasher)
}

/// What has a hash that can name a file.
pub trait HashToString {
    /// The hash of this object in decimal digits.
    fn hash_to_string(&self) -> (r: String)
        ensures
            exists|h: u64| r@ == decimal(h as nat),
    ;

    /// The hash of this object.
    fn as_hash(&self) -> u64;
}

impl HashToString for str {
    fn hash_to_string(&self) -> (r: String) {
        let h = self.as_hash();
        let r = number_to_decimal(h as u128);
        assert(r@ == decimal(h as nat));
        r
    }

    fn as_hash(&self) -> u64 {
        hash_text(self)
    }
}

impl HashToString for String {
    fn hash_to_string(&self) -> (r: String) {
        self.as_str().hash_to_string()
    }

    fn as_hash(&self) -> u64 {
        hash_text(self.as_str())
    }
}

impl HashToString for Vec<u8> {
    fn hash_to_string(&self) -> (r: String) {
        let h = self.as_hash();
        let r = number_to_decimal(h as u128);
        assert(r@ == decimal(h as nat));
        r
    }

    fn as_hash(&self) -> u64 {
        hash_bytes(self)
    }
}

/// Whether a text is the file name that stands for some data, with this
/// extension: a hash in decimal digits, a full stop, the extension.
pub open spec fn is_temp_filename(name: Seq<char>, ext: Seq<char>) -> bool {
    exists|h: u64| name == decimal(h as nat) + "."@ + ext
}

/// The file name that stands for an object: the same name for the same
/// object whenever it is asked for.
pub fn temp_filename<T: HashToString + ?Sized>(object: &T, ext: &str) -> (r: String)
    ensures
        is_temp_filename(r@, ext@),
{
    let mut name = object.hash_to_string();
    let ghost digits = name@;
    name.append(".");
    name.append(ext);
    proof {
        let h = choose|h: u64| digits == decimal(h as nat);
        assert(name@ =~= decimal(h as nat) + "."@ + ext@);
    }
    name
}

/// A text in which every match of a pattern is replaced, as
/// `regex::Regex::replace_all` does it; nothing where the pattern is not a
/// regular expression.
pub uninterp spec fn regex_replaced(
    text: Seq<char>,
    pattern: Seq<char>,
    replacement: Seq<char>,
) -> Option<Seq<char>>;

/// `regex::Regex::new` on the pattern, then `replace_all` on the text: the
/// result is the text with every match replaced, which is given a name and
/// not spelled out; nothing where the pattern is refused.
#[verifier::external_body]
pub(crate) fn regex_replace_all(text: &str, pattern: &str, replacement: &str) -> (r: Option<String>)
    ensures
        r.deep_view() == regex_replaced(text@, pattern@, replacement@),
{
    match regex::Regex::new(pattern) {
        Ok(re) => Some(re.replace_all(text, replacement).into_owned()),
        Err(_) => None,
    }
}

/// A title without the links in it: of each link its text stays.
pub open spec fn without_links(text: Seq<char>) -> Seq<char> {
    match regex_replaced(text, "<a.*?>(?P<link_text>.+?)</a>"@, "$link_text"@) {
        Some(t) => t,
        None => text,
    }
}

/// Takes the links out of a title, which will itself be a link.
pub fn replace_links(text: &str) -> (r: String)
    ensures
        r@ == without_links(text@),
{
    match regex_replace_all(text, "<a.*?>(?P<link_text>.+?)</a>", "$link_text") {
        Some(t) => t,
        None => String::from_str(text),
    }
}

/// Something other than text that an EPUB holds: an image, a stylesheet, a
/// font.
#[derive(Debug, PartialEq, Eq)]
pub struct EpubResource {
    pub output_path: String,
    pub data: Vec<u8>,
    pub mimetype: MimeType,
}

/// The name of a mimetype that may not be known, as it shows in a
/// message.
pub open spec fn shown_mime(mime: Option<MimeType>) -> Seq<char> {
    match mime {
        Some(m) => "Some("@ + m.variant() + ")"@,
        None => "None"@,
    }
}

/// What is said of a file that an EPUB cannot hold.
pub open spec fn invalid_mimetype(path: Seq<char>, mime: Option<MimeType>) -> Seq<char> {
    "Invalid mimetype for "@ + path + ": "@ + shown_mime(mime)
}

/// The resource that a file makes, from its path, its data, and the
/// extension and the file name of the path where it has them. An EPUB must
/// be able to hold a file with that extension, and the file must have a
/// name.
pub open spec fn resource_of(
    path: Seq<char>,
    extension: Option<Seq<char>>,
    file_name: Option<Seq<char>>,
    data: Seq<u8>,
) -> Result<(Seq<char>, Seq<u8>, MimeType), Seq<char>> {
    let mime = match extension {
        Some(e) => mime_of_extension(e),
        None => None,
    };
    if mime is Some && mime->0.epub_resource() {
        match file_name {
            Some(n) => Ok((n, data, mime->0)),
            None => Err("No file name: "@ + path),
        }
    } else {
        Err(invalid_mimetype(path, mime))
    }
}

impl EpubResource {
    /// The resource as a value: its path, its data and its kind.
    pub open spec fn parts(&self) -> (Seq<char>, Seq<u8>, MimeType) {
        (self.output_path@, self.data@, self.mimetype)
    }

    /// The resource that a file makes, from the parts of its path.
    pub fn from_parts(
        path: &str,
        extension: &Option<String>,
        file_name: Option<String>,
        data: Vec<u8>,
    ) -> (r: Result<EpubResource, String>)
        ensures
            match resource_of(path@, extension.deep_view(), file_name.deep_view(), data@) {
                Ok(parts) => r is Ok && r->Ok_0.parts() == parts,
                Err(message) => r is Err && r->Err_0@ == message,
            },
    {
        let mime = mime_of(extension);
        let supported = match mime {
            Some(m) => m.is_epub_supported_resource(),
            None => false,
        };
        if supported {
            match file_name {
                Some(output_path) => Ok(
                    EpubResource { output_path, data, mimetype: mime.unwrap() },
                ),
                None => {
                    let mut message = String::from_str("No file name: ");
                    message.append(path);
                    Err(message)
                },
            }
        } else {
            let mut message = String::from_str("Invalid mimetype for ");
            message.append(path);
            message.append(": ");
            match mime {
                Some(m) => {
                    message.append("Some(");
                    message.append(m.variant_name());
                    message.append(")");
                },
                None => {
                    message.append("None");
                },
            }
            assert(message@ =~= invalid_mimetype(path@, mime));
            Err(message)
        }
    }

    /// The resource that the file at `path` makes of its data.
    pub fn from_data(path: &str, data: Vec<u8>) -> (r: Result<EpubResource, String>)
        ensures
            r is Ok ==> r->Ok_0.data@ == data@ && r->Ok_0.mimetype.epub_resource(),
    {
        let extension = path_extension(path);
        let file_name = path_file_name(path);
        EpubResource::from_parts(path, &extension, file_name, data)
    }

    /// A jpeg image as a resource, under a file name that stands for its
    /// data.
    pub fn new_jpg(data: Vec<u8>) -> (r: EpubResource)
        ensures
            r.data@ == data@,
            r.mimetype == MimeType::Jpeg,
            is_temp_filename(r.output_path@, "jpg"@),
    {
        let output_path = temp_filename(&data, "jpg");
        EpubResource { mimetype: MimeType::Jpeg, output_path, data }
    }
}

/// An entry of the table of contents.
#[derive(Debug, PartialEq, Eq)]
pub struct TocEntry {
    /// The level of this entry; a lower level is higher up.
    pub level: usize,
    /// The text of the entry.
    pub title: String,
}

/// A piece of textual content.
#[derive(Debug)]
pub struct EpubContent {
    /// The markup of the content.
    pub data: String,
    /// The path of the content within the EPUB.
    pub output_path: String,
    /// How the content shows in the table of contents.
    pub toc_entry: Option<TocEntry>,
    /// Whether the content has an embedded svg image.
    pub includes_svg: bool,
}

impl EpubContent {
    /// A piece of content without an entry in the table of contents, under
    /// a file name that stands for its markup.
    pub fn new(xhtml: &str) -> (r: EpubContent)
        ensures
            r.data@ == xhtml@,
            is_temp_filename(r.output_path@, "xhtml"@),
            r.toc_entry is None,
            !r.includes_svg,
    {
        let data = String::from_str(xhtml);
        let output_path = temp_filename(xhtml, "xhtml");
        EpubContent { data, output_path, toc_entry: None, includes_svg: false }
    }

    /// Marks this content as holding an svg image.
    pub fn does_include_svg(&mut self)
        ensures
            final(self).includes_svg,
            final(self).data == old(self).data,
            final(self).output_path == old(self).output_path,
            final(self).toc_entry == old(self).toc_entry,
    {
        self.includes_svg = true;
    }

    /// Shows this content in the table of contents under `title`, with the
    /// links taken out of it. Content that has an entry keeps it, and the
    /// call is refused.
    pub fn set_toc_title(&mut self, title: &str, header_level: usize) -> (r: Result<
        (),
        &'static str,
    >)
        ensures
            old(self).toc_entry is Some ==> r is Err && *final(self) == *old(self),
            r is Err ==> r->Err_0@ == "Toc entry already exists"@,
            old(self).toc_entry is None ==> r is Ok && final(self).toc_entry is Some,
            old(self).toc_entry is None ==> final(self).toc_entry->0.level == header_level,
            old(self).toc_entry is None ==> final(self).toc_entry->0.title@ == without_links(title@),
            final(self).data == old(self).data,
            final(self).output_path == old(self).output_path,
            final(self).includes_svg == old(self).includes_svg,
    {
        match self.toc_entry {
            Some(_) => Err("Toc entry already exists"),
            None => {
                let title = replace_links(title);
                self.toc_entry = Some(TocEntry { level: header_level, title });
                Ok(())
            },
        }
    }
}

} // verus!
