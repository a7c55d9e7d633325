//! The kinds of file that matter to book production, and what each backend
//! can take.

use crate::text::str_eq;
use vstd::prelude::*;
use vstd::string::*;

verus! {

/// A mimetype relevant to book production.
#[derive(Debug, Hash, PartialEq, Eq, Structural, Clone, Copy)]
pub enum MimeType {
    Jpeg,
    Css,
    Epub,
    Png,
    Svg,
    Gif,
    Pdf,
    PlainText,
    Markdown,
    Eps,
    Xhtml,
    Woff,
    OpenType,
    Latex,
}

/// The mimetype that a file extension stands for, if it is a known one.
pub open spec fn mime_of_extension(ext: Seq<char>) -> Option<MimeType> {
    if ext == "jpg"@ || ext == "jpeg"@ {
        Some(MimeType::Jpeg)
    } else if ext == "png"@ {
        Some(MimeType::Png)
    } else if ext == "svg"@ {
        Some(MimeType::Svg)
    } else if ext == "css"@ {
        Some(MimeType::Css)
    } else if ext == "otf"@ {
        Some(MimeType::OpenType)
    } else if ext == "woff"@ {
        Some(MimeType::Woff)
    } else if ext == "xhtml"@ {
        Some(MimeType::Xhtml)
    } else if ext == "md"@ || ext == "txt"@ || ext == "markdown"@ {
        Some(MimeType::Markdown)
    } else if ext == "tex"@ || ext == "latex"@ {
        Some(MimeType::Latex)
    } else if ext == "eps"@ {
        Some(MimeType::Eps)
    } else if ext == "gif"@ {
        Some(MimeType::Gif)
    } else if ext == "pdf"@ {
        Some(MimeType::Pdf)
    } else {
        None
    }
}

impl MimeType {
    /// The canonical name of this mimetype.
    pub open spec fn name(self) -> Seq<char> {
        match self {
            MimeType::Jpeg => "image/jpeg"@,
            MimeType::Css => "text/css"@,
            MimeType::Epub => "application/epub+zip"@,
            MimeType::Png => "image/png"@,
            MimeType::Svg => "image/svg+xml"@,
            MimeType::Gif => "image/gif"@,
            MimeType::Pdf => "application/pdf"@,
            MimeType::PlainText => "text/plain"@,
            MimeType::Markdown => "text/markdown"@,
            MimeType::Eps => "application/postscript"@,
            MimeType::Xhtml => "application/xhtml+xml"@,
            MimeType::Woff => "application/font-woff"@,
            MimeType::OpenType => "application/font-sfnt"@,
            MimeType::Latex => "text/latex"@,
        }
    }

    /// The name of this mimetype among the others.
    pub open spec fn variant(self) -> Seq<char> {
        match self {
            MimeType::Jpeg => "Jpeg"@,
            MimeType::Css => "Css"@,
            MimeType::Epub => "Epub"@,
            MimeType::Png => "Png"@,
            MimeType::Svg => "Svg"@,
            MimeType::Gif => "Gif"@,
            MimeType::Pdf => "Pdf"@,
            MimeType::PlainText => "PlainText"@,
            MimeType::Markdown => "Markdown"@,
            MimeType::Eps => "Eps"@,
            MimeType::Xhtml => "Xhtml"@,
            MimeType::Woff => "Woff"@,
            MimeType::OpenType => "OpenType"@,
            MimeType::Latex => "Latex"@,
        }
    }

    /// No other mimetype has the name of a document.
    pub proof fn lemma_document_name(self)
        ensures
            self.name() == MimeType::Xhtml.name() <==> self == MimeType::Xhtml,
    {
        reveal_strlit("image/jpeg");
        reveal_strlit("text/css");
        reveal_strlit("application/epub+zip");
        reveal_strlit("image/png");
        reveal_strlit("image/svg+xml");
        reveal_strlit("image/gif");
        reveal_strlit("application/pdf");
        reveal_strlit("text/plain");
        reveal_strlit("text/markdown");
        reveal_strlit("application/postscript");
        reveal_strlit("application/xhtml+xml");
        reveal_strlit("application/font-woff");
        reveal_strlit("application/font-sfnt");
        reveal_strlit("text/latex");
        if self != MimeType::Xhtml {
            assert(self.name().len() != 21 || self.name()[12] != 'x');
        }
    }

    /// Whether an epub can show an image of this type: png, jpeg, svg, gif.
    pub open spec fn epub_image(self) -> bool {
        self == MimeType::Png || self == MimeType::Jpeg || self == MimeType::Svg || self
            == MimeType::Gif
    }

    /// Whether LaTeX can show an image of this type: png, jpeg, eps, pdf.
    pub open spec fn latex_image(self) -> bool {
        self == MimeType::Png || self == MimeType::Jpeg || self == MimeType::Eps || self
            == MimeType::Pdf
    }

    /// Whether an epub can hold a file of this type.
    pub open spec fn epub_resource(self) -> bool {
        self.epub_image() || self == MimeType::Xhtml || self == MimeType::OpenType || self
            == MimeType::Css || self == MimeType::Woff
    }

    /// Guesses a mimetype from a file extension.
    pub fn new_from_extension(ext: &str) -> (r: Option<MimeType>)
        ensures
            r == mime_of_extension(ext@),
    {
        if str_eq(ext, "jpg") || str_eq(ext, "jpeg") {
            Some(MimeType::Jpeg)
        } else if str_eq(ext, "png") {
            Some(MimeType::Png)
        } else if str_eq(ext, "svg") {
            Some(MimeType::Svg)
        } else if str_eq(ext, "css") {
            Some(MimeType::Css)
        } else if str_eq(ext, "otf") {
            Some(MimeType::OpenType)
        } else if str_eq(ext, "woff") {
            Some(MimeType::Woff)
        } else if str_eq(ext, "xhtml") {
            Some(MimeType::Xhtml)
        } else if str_eq(ext, "md") || str_eq(ext, "txt") || str_eq(ext, "markdown") {
            Some(MimeType::Markdown)
        } else if str_eq(ext, "tex") || str_eq(ext, "latex") {
            Some(MimeType::Latex)
        } else if str_eq(ext, "eps") {
            Some(MimeType::Eps)
        } else if str_eq(ext, "gif") {
            Some(MimeType::Gif)
        } else if str_eq(ext, "pdf") {
            Some(MimeType::Pdf)
        } else {
            None
        }
    }

    /// The name of this mimetype among the others.
    pub fn variant_name(&self) -> (r: &'static str)
        ensures
            r@ == self.variant(),
    {
        match self {
            MimeType::Jpeg => "Jpeg",
            MimeType::Css => "Css",
            MimeType::Epub => "Epub",
            MimeType::Png => "Png",
            MimeType::Svg => "Svg",
            MimeType::Gif => "Gif",
            MimeType::Pdf => "Pdf",
            MimeType::PlainText => "PlainText",
            MimeType::Markdown => "Markdown",
            MimeType::Eps => "Eps",
            MimeType::Xhtml => "Xhtml",
            MimeType::Woff => "Woff",
            MimeType::OpenType => "OpenType",
            MimeType::Latex => "Latex",
        }
    }

    /// The canonical name of this mimetype.
    pub fn to_str(&self) -> (r: &'static str)
        ensures
            r@ == self.name(),
    {
        match self {
            MimeType::Jpeg => "image/jpeg",
            MimeType::Css => "text/css",
            MimeType::Epub => "application/epub+zip",
            MimeType::Png => "image/png",
            MimeType::Svg => "image/svg+xml",
            MimeType::Gif => "image/gif",
            MimeType::Pdf => "application/pdf",
            MimeType::PlainText => "text/plain",
            MimeType::Markdown => "text/markdown",
            MimeType::Eps => "application/postscript",
            MimeType::Xhtml => "application/xhtml+xml",
            MimeType::Woff => "application/font-woff",
            MimeType::OpenType => "application/font-sfnt",
            MimeType::Latex => "text/latex",
        }
    }
}

/// The extension of a path, as `std::path::Path::extension` finds it. Where
/// a file name ends and what counts as its extension follow the platform's
/// own rules, so nothing is claimed of the result.
#[verifier::external_body]
pub(crate) fn path_extension(path: &str) -> (r: Option<String>) {
    std::path::Path::new(path).extension().and_then(|e| e.to_str()).map(|e| e.to_string())
}

/// The file name of a path, as `std::path::Path::file_name` finds it. Where
/// a file name begins follows the platform's own rules, so nothing is
/// claimed of the result.
#[verifier::external_body]
pub(crate) fn path_file_name(path: &str) -> (r: Option<String>) {
    std::path::Path::new(path).file_name().and_then(|n| n.to_str()).map(|n| n.to_string())
}

/// The file name of a path, or the path itself where it has none.
pub fn file_name_or_path(path: &str) -> (r: String) {
    match path_file_name(path) {
        Some(n) => n,
        None => String::from_str(path),
    }
}

/// The mimetype of a file whose extension, if it has one, is `ext`.
pub fn mime_of(ext: &Option<String>) -> (r: Option<MimeType>)
    ensures
        r == match ext.deep_view() {
            Some(e) => mime_of_extension(e),
            None => None,
        },
{
    match ext {
        Some(e) => MimeType::new_from_extension(e.as_str()),
        None => None,
    }
}

/// What can be asked of something that may have a mimetype.
pub trait GuessMimeType {
    /// The mimetype of this object, as far as it can be guessed.
    fn guess_mime(&self) -> Option<MimeType>;
}

impl GuessMimeType for str {
    /// The mimetype that the extension of this path stands for.
    fn guess_mime(&self) -> (r: Option<MimeType>)
        ensures
            r is Some ==> exists|ext: Seq<char>| mime_of_extension(ext) == r,
    {
        let ext = path_extension(self);
        let r = mime_of(&ext);
        proof {
            if r is Some {
                assert(mime_of_extension(ext->0@) == r);
            }
        }
        r
    }
}

impl GuessMimeType for String {
    /// The mimetype that the extension of this path stands for.
    fn guess_mime(&self) -> (r: Option<MimeType>)
        ensures
            r is Some ==> exists|ext: Seq<char>| mime_of_extension(ext) == r,
    {
        self.as_str().guess_mime()
    }
}

/// Questions about the kind of a file.
pub trait MimeTypeHelper {
    /// Is this likely to be a jpeg?
    fn is_jpg(&self) -> bool;

    /// Is this likely to be a png?
    fn is_png(&self) -> bool;

    /// Is this likely to be an svg?
    fn is_svg(&self) -> bool;

    /// Is this likely to be a css file?
    fn is_css(&self) -> bool;

    /// Is this likely to be an opentype font?
    fn is_opentype(&self) -> bool;

    /// Is this likely to be a woff font?
    fn is_woff(&self) -> bool;

    /// Is this likely to be xhtml?
    fn is_xhtml(&self) -> bool;

    /// Is this likely to be markdown?
    fn is_markdown(&self) -> bool;

    /// Is this likely to be a tex file?
    fn is_tex_like(&self) -> bool;

    /// Is this likely to be an eps file?
    fn is_eps(&self) -> bool;

    /// Is this likely to be a gif?
    fn is_gif(&self) -> bool;

    /// Is this likely to be a pdf?
    fn is_pdf(&self) -> bool;

    /// Can this be the background of a cover: png, jpeg or svg?
    fn is_suitable_cover_background(&self) -> bool;

    /// Is this an image that an epub can show?
    fn is_epub_supported_image(&self) -> bool;

    /// Is this an image that LaTeX can show?
    fn is_latex_supported_image(&self) -> bool;

    /// Is this a file that an epub can hold?
    fn is_epub_supported_resource(&self) -> bool;

    /// Can this be a publisher's logo in both an epub and a pdf?
    fn is_valid_logo_image(&self) -> bool;
}

impl MimeTypeHelper for MimeType {
    fn is_jpg(&self) -> (r: bool)
        ensures
            r == (*self == MimeType::Jpeg),
    {
        *self == MimeType::Jpeg
    }

    fn is_png(&self) -> (r: bool)
        ensures
            r == (*self == MimeType::Png),
    {
        *self == MimeType::Png
    }

    fn is_svg(&self) -> (r: bool)
        ensures
            r == (*self == MimeType::Svg),
    {
        *self == MimeType::Svg
    }

    fn is_css(&self) -> (r: bool)
        ensures
            r == (*self == MimeType::Css),
    {
        *self == MimeType::Css
    }

    fn is_opentype(&self) -> (r: bool)
        ensures
            r == (*self == MimeType::OpenType),
    {
        *self == MimeType::OpenType
    }

    fn is_woff(&self) -> (r: bool)
        ensures
            r == (*self == MimeType::Woff),
    {
        *self == MimeType::Woff
    }

    fn is_xhtml(&self) -> (r: bool)
        ensures
            r == (*self == MimeType::Xhtml),
    {
        *self == MimeType::Xhtml
    }

    fn is_markdown(&self) -> (r: bool)
        ensures
            r == (*self == MimeType::Markdown),
    {
        *self == MimeType::Markdown
    }

    fn is_tex_like(&self) -> (r: bool)
        ensures
            r == (*self == MimeType::Latex),
    {
        *self == MimeType::Latex
    }

    fn is_eps(&self) -> (r: bool)
        ensures
            r == (*self == MimeType::Eps),
    {
        *self == MimeType::Eps
    }

    fn is_gif(&self) -> (r: bool)
        ensures
            r == (*self == MimeType::Gif),
    {
        *self == MimeType::Gif
    }

    fn is_pdf(&self) -> (r: bool)
        ensures
            r == (*self == MimeType::Pdf),
    {
        *self == MimeType::Pdf
    }

    fn is_suitable_cover_background(&self) -> (r: bool)
        ensures
            r == (*self == MimeType::Png || *self == MimeType::Jpeg || *self == MimeType::Svg),
    {
        match self {
            MimeType::Png | MimeType::Jpeg | MimeType::Svg => true,
            _ => false,
        }
    }

    fn is_epub_supported_image(&self) -> (r: bool)
        ensures
            r == self.epub_image(),
    {
        match self {
            MimeType::Png | MimeType::Jpeg | MimeType::Svg | MimeType::Gif => true,
            _ => false,
        }
    }

    fn is_latex_supported_image(&self) -> (r: bool)
        ensures
            r == self.latex_image(),
    {
        match self {
            MimeType::Png | MimeType::Jpeg | MimeType::Eps | MimeType::Pdf => true,
            _ => false,
        }
    }

    fn is_epub_supported_resource(&self) -> (r: bool)
        ensures
            r == self.epub_resource(),
    {
        if self.is_epub_supported_image() {
            true
        } else {
            match self {
                MimeType::Xhtml | MimeType::OpenType | MimeType::Css | MimeType::Woff => true,
                _ => false,
            }
        }
    }

    fn is_valid_logo_image(&self) -> (r: bool)
        ensures
            r == (self.epub_image() && self.latex_image()),
    {
        let works_for_epub = self.is_epub_supported_image();
        let works_for_latex = self.is_latex_supported_image();
        works_for_latex && works_for_epub
    }
}

impl MimeTypeHelper for str {
    fn is_jpg(&self) -> bool {
        match self.guess_mime() {
            Some(m) => m.is_jpg(),
            None => false,
        }
    }

    fn is_png(&self) -> bool {
        match self.guess_mime() {
            Some(m) => m.is_png(),
            None => false,
        }
    }

    fn is_svg(&self) -> bool {
        match self.guess_mime() {
            Some(m) => m.is_svg(),
            None => false,
        }
    }

    fn is_css(&self) -> bool {
        match self.guess_mime() {
            Some(m) => m.is_css(),
            None => false,
        }
    }

    fn is_opentype(&self) -> bool {
        match self.guess_mime() {
            Some(m) => m.is_opentype(),
            None => false,
        }
    }

    fn is_woff(&self) -> bool {
        match self.guess_mime() {
            Some(m) => m.is_woff(),
            None => false,
        }
    }

    fn is_xhtml(&self) -> bool {
        match self.guess_mime() {
            Some(m) => m.is_xhtml(),
            None => false,
        }
    }

    fn is_markdown(&self) -> bool {
        match self.guess_mime() {
            Some(m) => m.is_markdown(),
            None => false,
        }
    }

    fn is_tex_like(&self) -> bool {
        match self.guess_mime() {
            Some(m) => m.is_tex_like(),
            None => false,
        }
    }

    fn is_eps(&self) -> bool {
        match self.guess_mime() {
            Some(m) => m.is_eps(),
            None => false,
        }
    }

    fn is_gif(&self) -> bool {
        match self.guess_mime() {
            Some(m) => m.is_gif(),
            None => false,
        }
    }

    fn is_pdf(&self) -> bool {
        match self.guess_mime() {
            Some(m) => m.is_pdf(),
            None => false,
        }
    }

    fn is_suitable_cover_background(&self) -> bool {
        match self.guess_mime() {
            Some(m) => m.is_suitable_cover_background(),
            None => false,
        }
    }

    fn is_epub_supported_image(&self) -> bool {
        match self.guess_mime() {
            Some(m) => m.is_epub_supported_image(),
            None => false,
        }
    }

    fn is_latex_supported_image(&self) -> bool {
        match self.guess_mime() {
            Some(m) => m.is_latex_supported_image(),
            None => false,
        }
    }

    fn is_epub_supported_resource(&self) -> bool {
        match self.guess_mime() {
            Some(m) => m.is_epub_supported_resource(),
            None => false,
        }
    }

    fn is_valid_logo_image(&self) -> bool {
        match self.guess_mime() {
            Some(m) => m.is_valid_logo_image(),
            None => false,
        }
    }
}

} // verus!
