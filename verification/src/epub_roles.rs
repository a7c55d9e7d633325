//! What each role means to an EPUB: its structural type, its matter, the
//! level and classes of its header, and how it shows in the table of
//! contents.

use crate::roles::SemanticRole;
use vstd::prelude::*;

verus! {

/// How a page shows in the table of contents.
#[derive(Debug, PartialEq, Eq, Clone, Copy)]
pub enum TocFormat {
    /// The page has no entry.
    NoTocEntry,
    /// The entry is the title of the page, or its label where it has no
    /// title.
    TitleOnly,
    /// The entry is label and title: `Chapter 1: Wolves Attack!`.
    TitleAndLabel,
    /// The entry is this text.
    Provided(&'static str),
}

/// What a `TocFormat` holds, as mathematics.
pub enum TocFormatView {
    NoTocEntry,
    TitleOnly,
    TitleAndLabel,
    Provided(Seq<char>),
}

impl DeepView for TocFormat {
    type V = TocFormatView;

    open spec fn deep_view(&self) -> TocFormatView {
        match self {
            TocFormat::NoTocEntry => TocFormatView::NoTocEntry,
            TocFormat::TitleOnly => TocFormatView::TitleOnly,
            TocFormat::TitleAndLabel => TocFormatView::TitleAndLabel,
            TocFormat::Provided(s) => TocFormatView::Provided(s@),
        }
    }
}

/// The structural type of a role.
pub open spec fn epub_type(role: SemanticRole) -> Seq<char> {
    match role {
        SemanticRole::Halftitle => "halftitlepage"@,
        SemanticRole::Copyrightpage => "copyright-page"@,
        SemanticRole::Titlepage => "titlepage"@,
        SemanticRole::Dedication => "dedication"@,
        SemanticRole::Foreword => "foreword"@,
        SemanticRole::Afterword => "afterword"@,
        SemanticRole::Introduction => "introduction"@,
        SemanticRole::Colophon => "colophon"@,
        SemanticRole::Epigraph => "epigraph"@,
        SemanticRole::Acknowledgements => "acknowledgments"@,
        SemanticRole::Appendix => "appendix"@,
        SemanticRole::Chapter => "chapter"@,
        SemanticRole::Part => "part"@,
        SemanticRole::Preface => "preface"@,
    }
}

/// Whether a role belongs to the body of the book.
pub open spec fn in_body(role: SemanticRole) -> bool {
    role == SemanticRole::Chapter || role == SemanticRole::Part
}

/// Whether a role belongs behind the body of the book.
pub open spec fn in_back(role: SemanticRole) -> bool {
    role == SemanticRole::Afterword || role == SemanticRole::Colophon || role
        == SemanticRole::Acknowledgements || role == SemanticRole::Appendix
}

/// The matter of a role, as the structural vocabulary names it.
pub open spec fn matter_of(role: SemanticRole) -> Seq<char> {
    if in_body(role) {
        "bodymatter"@
    } else if in_back(role) {
        "backmatter"@
    } else {
        "frontmatter"@
    }
}

/// The level of the header of a role.
pub open spec fn header_level(role: SemanticRole) -> Option<usize> {
    if role == SemanticRole::Titlepage || role == SemanticRole::Epigraph {
        None
    } else {
        Some(1)
    }
}

/// The classes of the header of a role.
pub open spec fn header_classes(role: SemanticRole) -> Option<Seq<char>> {
    match role {
        SemanticRole::Titlepage | SemanticRole::Epigraph => None,
        SemanticRole::Halftitle => Some("halftitle_header"@),
        SemanticRole::Chapter => Some("chapter_header"@),
        SemanticRole::Part => Some("part_header"@),
        _ => Some("generic_header"@),
    }
}

/// The classes of the section of a role.
pub open spec fn section_classes(role: SemanticRole) -> Option<Seq<char>> {
    match role {
        SemanticRole::Halftitle => Some("halftitle"@),
        SemanticRole::Copyrightpage => Some("copyrightpage"@),
        SemanticRole::Titlepage => Some("titlepage"@),
        SemanticRole::Dedication => Some("dedication"@),
        SemanticRole::Epigraph => Some("epigraph"@),
        SemanticRole::Colophon => Some("colophon"@),
        SemanticRole::Part => Some("part"@),
        _ => None,
    }
}

/// The classes of the division that wraps the section of a role.
pub open spec fn section_wrapper_div_classes(role: SemanticRole) -> Option<Seq<char>> {
    match role {
        SemanticRole::Halftitle => Some("vertically_centred"@),
        SemanticRole::Dedication => Some("vertically_centred"@),
        SemanticRole::Epigraph => Some("vertically_centred"@),
        SemanticRole::Part => Some("vertically_centred"@),
        _ => None,
    }
}

/// Whether the page of a role links the stylesheet.
pub open spec fn include_stylesheet(role: SemanticRole) -> bool {
    role != SemanticRole::Titlepage
}

/// What the head of the page of a role holds besides title and stylesheet.
pub open spec fn additional_head(role: SemanticRole) -> Option<Seq<char>> {
    match role {
        SemanticRole::Titlepage => Some(
            "<style>body { margin: 0; padding: 0; } img { max-height: 100%; }</style>"@,
        ),
        _ => None,
    }
}

/// How the page of a role shows in the table of contents.
pub open spec fn default_toc_format(role: SemanticRole) -> TocFormatView {
    match role {
        SemanticRole::Halftitle => TocFormatView::NoTocEntry,
        SemanticRole::Epigraph => TocFormatView::NoTocEntry,
        SemanticRole::Titlepage => TocFormatView::Provided("Titlepage"@),
        SemanticRole::Copyrightpage => TocFormatView::Provided("Copyright"@),
        SemanticRole::Dedication => TocFormatView::Provided("Dedication"@),
        SemanticRole::Colophon => TocFormatView::Provided("Colophon"@),
        SemanticRole::Chapter => TocFormatView::TitleAndLabel,
        SemanticRole::Part => TocFormatView::TitleAndLabel,
        SemanticRole::Appendix => TocFormatView::TitleAndLabel,
        _ => TocFormatView::TitleOnly,
    }
}

/// The level of the entry of a role in the table of contents.
pub open spec fn default_toc_level(role: SemanticRole) -> Option<usize> {
    match role {
        SemanticRole::Halftitle => None,
        SemanticRole::Epigraph => None,
        SemanticRole::Part => Some(0),
        _ => Some(1),
    }
}

/// The structural type of a role.
pub fn get_epub_type(role: SemanticRole) -> (r: &'static str)
    ensures
        r@ == epub_type(role),
{
    match role {
        SemanticRole::Halftitle => "halftitlepage",
        SemanticRole::Copyrightpage => "copyright-page",
        SemanticRole::Titlepage => "titlepage",
        SemanticRole::Dedication => "dedication",
        SemanticRole::Foreword => "foreword",
        SemanticRole::Afterword => "afterword",
        SemanticRole::Introduction => "introduction",
        SemanticRole::Colophon => "colophon",
        SemanticRole::Epigraph => "epigraph",
        SemanticRole::Acknowledgements => "acknowledgments",
        SemanticRole::Appendix => "appendix",
        SemanticRole::Chapter => "chapter",
        SemanticRole::Part => "part",
        SemanticRole::Preface => "preface",
    }
}

/// The matter of a role.
pub fn get_matter(role: SemanticRole) -> (r: &'static str)
    ensures
        r@ == matter_of(role),
{
    match role {
        SemanticRole::Chapter | SemanticRole::Part => "bodymatter",
        SemanticRole::Afterword
        | SemanticRole::Colophon
        | SemanticRole::Acknowledgements
        | SemanticRole::Appendix => "backmatter",
        _ => "frontmatter",
    }
}

/// The level of the header of a role.
pub fn get_header_level(role: SemanticRole) -> (r: Option<usize>)
    ensures
        r == header_level(role),
{
    match role {
        SemanticRole::Titlepage | SemanticRole::Epigraph => None,
        _ => Some(1),
    }
}

/// The classes of the header of a role.
pub fn get_header_classes(role: SemanticRole) -> (r: Option<&'static str>)
    ensures
        r.deep_view() == header_classes(role),
{
    match role {
        SemanticRole::Titlepage | SemanticRole::Epigraph => None,
        SemanticRole::Halftitle => Some("halftitle_header"),
        SemanticRole::Chapter => Some("chapter_header"),
        SemanticRole::Part => Some("part_header"),
        _ => Some("generic_header"),
    }
}

/// The classes of the section of a role.
pub fn get_section_classes(role: SemanticRole) -> (r: Option<&'static str>)
    ensures
        r.deep_view() == section_classes(role),
{
    match role {
        SemanticRole::Halftitle => Some("halftitle"),
        SemanticRole::Copyrightpage => Some("copyrightpage"),
        SemanticRole::Titlepage => Some("titlepage"),
        SemanticRole::Dedication => Some("dedication"),
        SemanticRole::Epigraph => Some("epigraph"),
        SemanticRole::Colophon => Some("colophon"),
        SemanticRole::Part => Some("part"),
        _ => None,
    }
}

/// The classes of the division that wraps the section of a role.
pub fn get_section_wrapper_div_classes(role: SemanticRole) -> (r: Option<&'static str>)
    ensures
        r.deep_view() == section_wrapper_div_classes(role),
{
    match role {
        SemanticRole::Halftitle => Some("vertically_centred"),
        SemanticRole::Dedication => Some("vertically_centred"),
        SemanticRole::Epigraph => Some("vertically_centred"),
        SemanticRole::Part => Some("vertically_centred"),
        _ => None,
    }
}

/// Whether the page of a role links the stylesheet.
pub fn get_include_stylesheet(role: SemanticRole) -> (r: bool)
    ensures
        r == include_stylesheet(role),
{
    match role {
        SemanticRole::Titlepage => false,
        _ => true,
    }
}

/// What the head of the page of a role holds besides title and stylesheet.
pub fn get_additional_head(role: SemanticRole) -> (r: Option<&'static str>)
    ensures
        r.deep_view() == additional_head(role),
{
    match role {
        SemanticRole::Titlepage => Some(
            "<style>body { margin: 0; padding: 0; } img { max-height: 100%; }</style>",
        ),
        _ => None,
    }
}

/// How the page of a role shows in the table of contents.
pub fn get_default_toc_format(role: SemanticRole) -> (r: TocFormat)
    ensures
        r.deep_view() == default_toc_format(role),
{
    match role {
        SemanticRole::Halftitle => TocFormat::NoTocEntry,
        SemanticRole::Epigraph => TocFormat::NoTocEntry,
        SemanticRole::Titlepage => TocFormat::Provided("Titlepage"),
        SemanticRole::Copyrightpage => TocFormat::Provided("Copyright"),
        SemanticRole::Dedication => TocFormat::Provided("Dedication"),
        SemanticRole::Colophon => TocFormat::Provided("Colophon"),
        SemanticRole::Chapter => TocFormat::TitleAndLabel,
        SemanticRole::Part => TocFormat::TitleAndLabel,
        SemanticRole::Appendix => TocFormat::TitleAndLabel,
        _ => TocFormat::TitleOnly,
    }
}

/// The level of the entry of a role in the table of contents.
pub fn get_default_toc_level(role: SemanticRole) -> (r: Option<usize>)
    ensures
        r == default_toc_level(role),
{
    match role {
        SemanticRole::Halftitle => None,
        SemanticRole::Epigraph => None,
        SemanticRole::Part => Some(0),
        _ => Some(1),
    }
}

} // verus!
