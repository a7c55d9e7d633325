//! The closed vocabularies of the book stream: editorial roles, contributor
//! roles and the display policies for headers and numbers.

use vstd::prelude::*;

verus! {

/// The editorial role of a division of the book.
#[derive(Debug, PartialEq, Eq, Structural, Clone, Copy, Hash)]
pub enum SemanticRole {
    Halftitle,
    Copyrightpage,
    Titlepage,
    Dedication,
    Foreword,
    Afterword,
    Introduction,
    Colophon,
    Epigraph,
    Acknowledgements,
    Appendix,
    Chapter,
    Part,
    Preface,
}

impl SemanticRole {
    /// The default label of a role; structural pages have none.
    pub open spec fn label(self) -> Option<Seq<char>> {
        match self {
            SemanticRole::Epigraph
            | SemanticRole::Halftitle
            | SemanticRole::Copyrightpage
            | SemanticRole::Titlepage
            | SemanticRole::Dedication => None,
            SemanticRole::Foreword => Some("Foreword"@),
            SemanticRole::Afterword => Some("Afterword"@),
            SemanticRole::Introduction => Some("Introduction"@),
            SemanticRole::Colophon => Some("Colophon"@),
            SemanticRole::Acknowledgements => Some("Acknowledgements"@),
            SemanticRole::Appendix => Some("Appendix"@),
            SemanticRole::Chapter => Some("Chapter"@),
            SemanticRole::Part => Some("Part"@),
            SemanticRole::Preface => Some("Preface"@),
        }
    }

    /// A label suitable for headings of this role, if the role has one.
    pub fn get_label(self) -> (r: Option<&'static str>)
        ensures
            r.deep_view() == self.label(),
    {
        match self {
            SemanticRole::Epigraph
            | SemanticRole::Halftitle
            | SemanticRole::Copyrightpage
            | SemanticRole::Titlepage
            | SemanticRole::Dedication => None,
            SemanticRole::Foreword => Some("Foreword"),
            SemanticRole::Afterword => Some("Afterword"),
            SemanticRole::Introduction => Some("Introduction"),
            SemanticRole::Colophon => Some("Colophon"),
            SemanticRole::Acknowledgements => Some("Acknowledgements"),
            SemanticRole::Appendix => Some("Appendix"),
            SemanticRole::Chapter => Some("Chapter"),
            SemanticRole::Part => Some("Part"),
            SemanticRole::Preface => Some("Preface"),
        }
    }
}

/// A contributor who appears on the titlepage under a given heading.
#[derive(Debug, PartialEq, Eq, Structural, Clone, Copy, Hash)]
pub enum TitlePageContributorRole {
    Author,
    Editor,
    Translator,
    ForewordAuthor,
    AfterwordAuthor,
    IntroductionAuthor,
    IntroductionAndNotesAuthor,
}

impl TitlePageContributorRole {
    /// The line that introduces contributors of this role; authors have none.
    pub open spec fn label(self) -> Option<Seq<char>> {
        match self {
            TitlePageContributorRole::Author => None,
            TitlePageContributorRole::Editor => Some("Edited by"@),
            TitlePageContributorRole::Translator => Some("Translated by"@),
            TitlePageContributorRole::ForewordAuthor => Some("With a foreword by"@),
            TitlePageContributorRole::AfterwordAuthor => Some("With an afterword by"@),
            TitlePageContributorRole::IntroductionAuthor => Some("With an introduction by"@),
            TitlePageContributorRole::IntroductionAndNotesAuthor => Some(
                "With an introduction and notes by"@,
            ),
        }
    }

    /// A human-readable label for this role.
    pub fn get_label(self) -> (r: Option<&'static str>)
        ensures
            r.deep_view() == self.label(),
    {
        match self {
            TitlePageContributorRole::Author => None,
            TitlePageContributorRole::Editor => Some("Edited by"),
            TitlePageContributorRole::Translator => Some("Translated by"),
            TitlePageContributorRole::ForewordAuthor => Some("With a foreword by"),
            TitlePageContributorRole::AfterwordAuthor => Some("With an afterword by"),
            TitlePageContributorRole::IntroductionAuthor => Some("With an introduction by"),
            TitlePageContributorRole::IntroductionAndNotesAuthor => Some(
                "With an introduction and notes by",
            ),
        }
    }
}

/// How the ordinal of a division is displayed.
#[derive(Debug, PartialEq, Eq, Structural, Clone, Copy)]
pub enum NumberFormat {
    /// In words: `ONE`.
    Words,
    /// In arabic numerals: `1`.
    Arabic,
    /// In roman numerals: `I`.
    Roman,
    /// As a letter: `A`.
    Letter,
}

impl Default for NumberFormat {
    fn default() -> (r: Self)
        ensures
            r == NumberFormat::Arabic,
    {
        NumberFormat::Arabic
    }
}

/// Which of label, number and title a chapter or part header shows.
#[derive(Debug, PartialEq, Eq, Structural, Clone, Copy)]
pub enum HeaderFormat {
    /// A number alone: `1`.
    NumberAlone,
    /// A title alone: `Wolves Attack!`.
    TitleAlone,
    /// Label, number and title: `Chapter 1: Wolves Attack!`.
    LabelAndNumberAndTitle,
    /// A label alone: `Chapter 1`.
    LabelAlone,
    /// Number and title: `1: Wolves Attack!`.
    NumberAndTitle,
}

impl Default for HeaderFormat {
    fn default() -> (r: Self)
        ensures
            r == HeaderFormat::LabelAndNumberAndTitle,
    {
        HeaderFormat::LabelAndNumberAndTitle
    }
}

/// The display policy for chapter and part headers.
#[derive(Debug, PartialEq, Eq, Structural, Clone, Copy)]
pub struct TextHeaderOptions {
    /// How chapter headers are shown.
    pub chapter_header_format: HeaderFormat,
    /// How part headers are shown.
    pub part_header_format: HeaderFormat,
    /// How chapter numbers are shown.
    pub chapter_number_format: NumberFormat,
    /// How part numbers are shown.
    pub part_number_format: NumberFormat,
}

impl Default for TextHeaderOptions {
    fn default() -> (r: Self)
        ensures
            r == TextHeaderOptions::standard(),
    {
        TextHeaderOptions {
            chapter_header_format: HeaderFormat::LabelAndNumberAndTitle,
            part_header_format: HeaderFormat::LabelAndNumberAndTitle,
            chapter_number_format: NumberFormat::Arabic,
            part_number_format: NumberFormat::Roman,
        }
    }
}

impl TextHeaderOptions {
    /// The policy in force when nothing was chosen: full headers, arabic
    /// chapter numbers, roman part numbers.
    pub open spec fn standard() -> TextHeaderOptions {
        TextHeaderOptions {
            chapter_header_format: HeaderFormat::LabelAndNumberAndTitle,
            part_header_format: HeaderFormat::LabelAndNumberAndTitle,
            chapter_number_format: NumberFormat::Arabic,
            part_number_format: NumberFormat::Roman,
        }
    }

    /// Show chapter numbers in words.
    pub fn use_words_for_chapter_labels(&mut self)
        ensures
            *final(self) == (TextHeaderOptions {
                chapter_number_format: NumberFormat::Words,
                ..*old(self)
            }),
    {
        self.chapter_number_format = NumberFormat::Words;
    }

    /// Show chapter numbers as roman numerals.
    pub fn use_roman_numerals_for_chapter_labels(&mut self)
        ensures
            *final(self) == (TextHeaderOptions {
                chapter_number_format: NumberFormat::Roman,
                ..*old(self)
            }),
    {
        self.chapter_number_format = NumberFormat::Roman;
    }

    /// Show chapter titles without their labels.
    pub fn suppress_chapter_labels(&mut self)
        ensures
            *final(self) == (TextHeaderOptions {
                chapter_header_format: HeaderFormat::TitleAlone,
                ..*old(self)
            }),
    {
        self.chapter_header_format = HeaderFormat::TitleAlone;
    }

    /// Show chapter labels without their titles.
    pub fn suppress_chapter_titles(&mut self)
        ensures
            *final(self) == (TextHeaderOptions {
                chapter_header_format: HeaderFormat::LabelAlone,
                ..*old(self)
            }),
    {
        self.chapter_header_format = HeaderFormat::LabelAlone;
    }

    /// Show only the number of a chapter.
    pub fn only_number_chapters(&mut self)
        ensures
            *final(self) == (TextHeaderOptions {
                chapter_header_format: HeaderFormat::NumberAlone,
                ..*old(self)
            }),
    {
        self.chapter_header_format = HeaderFormat::NumberAlone;
    }
}

} // verus!
