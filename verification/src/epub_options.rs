//! The choices that a caller makes for an EPUB: stylesheet, images, the
//! typeface of the titlepage, and how chapter headers are shown.

use crate::book_event::{BookEvent, BookEventView};
use crate::roles::{HeaderFormat, NumberFormat, TextHeaderOptions};
use vstd::prelude::*;
use vstd::string::*;

verus! {

/// Options for rendering a book as an EPUB.
#[derive(Debug)]
pub struct Options {
    /// The path of a stylesheet to use in place of the default one.
    pub css: Option<String>,
    /// The path of a cover image.
    pub cover_image: Option<String>,
    /// The path of a titlepage image.
    pub titlepage: Option<String>,
    /// The path of a publisher logo for a generated titlepage.
    pub publisher_imprint_logo: Option<String>,
    /// The typeface of a generated titlepage.
    pub titlepage_typeface: Option<String>,
    /// How headers are shown.
    pub header_options: TextHeaderOptions,
    /// A label for chapters in place of `Chapter`.
    pub chapter_label: Option<String>,
}

/// What an `Options` holds, as mathematics.
pub struct OptionsView {
    pub css: Option<Seq<char>>,
    pub cover_image: Option<Seq<char>>,
    pub titlepage: Option<Seq<char>>,
    pub publisher_imprint_logo: Option<Seq<char>>,
    pub titlepage_typeface: Option<Seq<char>>,
    pub header_options: TextHeaderOptions,
    pub chapter_label: Option<Seq<char>>,
}

impl DeepView for Options {
    type V = OptionsView;

    open spec fn deep_view(&self) -> OptionsView {
        OptionsView {
            css: self.css.deep_view(),
            cover_image: self.cover_image.deep_view(),
            titlepage: self.titlepage.deep_view(),
            publisher_imprint_logo: self.publisher_imprint_logo.deep_view(),
            titlepage_typeface: self.titlepage_typeface.deep_view(),
            header_options: self.header_options,
            chapter_label: self.chapter_label.deep_view(),
        }
    }
}

/// The options in force when nothing was chosen.
pub open spec fn plain_options() -> OptionsView {
    OptionsView {
        css: None,
        cover_image: None,
        titlepage: None,
        publisher_imprint_logo: None,
        titlepage_typeface: None,
        header_options: TextHeaderOptions::standard(),
        chapter_label: None,
    }
}

impl Default for Options {
    fn default() -> (r: Self)
        ensures
            r.deep_view() == plain_options(),
    {
        Options {
            css: None,
            cover_image: None,
            titlepage: None,
            publisher_imprint_logo: None,
            titlepage_typeface: None,
            header_options: TextHeaderOptions::default(),
            chapter_label: None,
        }
    }
}

/// A label as these options show it: a chapter label that reads `Chapter`
/// takes the label that was chosen.
pub open spec fn relabelled(label: Option<Seq<char>>, e: BookEventView) -> BookEventView {
    match e {
        BookEventView::DivisionHeaderLabel { text, number, number_format } => if label is Some
            && text == Some("Chapter"@) {
            BookEventView::DivisionHeaderLabel { text: label, number, number_format }
        } else {
            e
        },
        _ => e,
    }
}

impl Options {
    /// Sets the stylesheet to use.
    pub fn css(&mut self, css: &str)
        ensures
            final(self).deep_view() == (OptionsView {
                css: Some(css@),
                ..old(self).deep_view()
            }),
    {
        self.css = Some(String::from_str(css));
    }

    /// Sets the cover image.
    pub fn cover_image(&mut self, cover_image: &str)
        ensures
            final(self).deep_view() == (OptionsView {
                cover_image: Some(cover_image@),
                ..old(self).deep_view()
            }),
    {
        self.cover_image = Some(String::from_str(cover_image));
    }

    /// Sets a titlepage image to use in place of a generated one.
    pub fn titlepage(&mut self, titlepage_image: &str)
        ensures
            final(self).deep_view() == (OptionsView {
                titlepage: Some(titlepage_image@),
                ..old(self).deep_view()
            }),
    {
        self.titlepage = Some(String::from_str(titlepage_image));
    }

    /// Sets the publisher logo for a generated titlepage.
    pub fn publisher_imprint_logo(&mut self, logo: &str)
        ensures
            final(self).deep_view() == (OptionsView {
                publisher_imprint_logo: Some(logo@),
                ..old(self).deep_view()
            }),
    {
        self.publisher_imprint_logo = Some(String::from_str(logo));
    }

    /// Names the typeface for a generated titlepage.
    pub fn titlepage_typeface(&mut self, typeface: &str)
        ensures
            final(self).deep_view() == (OptionsView {
                titlepage_typeface: Some(typeface@),
                ..old(self).deep_view()
            }),
    {
        self.titlepage_typeface = Some(String::from_str(typeface));
    }

    /// Sets the label of chapters: `Letter 1` in place of `Chapter 1`.
    pub fn set_chapter_label(&mut self, label: &str)
        ensures
            final(self).deep_view() == (OptionsView {
                chapter_label: Some(label@),
                ..old(self).deep_view()
            }),
    {
        self.chapter_label = Some(String::from_str(label));
    }

    /// Shows chapter labels without their titles.
    pub fn suppress_chapter_titles(&mut self)
        ensures
            final(self).deep_view() == (OptionsView {
                header_options: (TextHeaderOptions {
                    chapter_header_format: HeaderFormat::LabelAlone,
                    ..old(self).header_options
                }),
                ..old(self).deep_view()
            }),
    {
        self.header_options.suppress_chapter_titles();
    }

    /// Shows chapter titles without their labels.
    pub fn suppress_chapter_label(&mut self)
        ensures
            final(self).deep_view() == (OptionsView {
                header_options: (TextHeaderOptions {
                    chapter_header_format: HeaderFormat::TitleAlone,
                    ..old(self).header_options
                }),
                ..old(self).deep_view()
            }),
    {
        self.header_options.suppress_chapter_labels();
    }

    /// Shows only the number of a chapter.
    pub fn only_number_chapters(&mut self)
        ensures
            final(self).deep_view() == (OptionsView {
                header_options: (TextHeaderOptions {
                    chapter_header_format: HeaderFormat::NumberAlone,
                    ..old(self).header_options
                }),
                ..old(self).deep_view()
            }),
    {
        self.header_options.only_number_chapters();
    }

    /// Shows chapter numbers as roman numerals.
    pub fn use_roman_numerals_for_chapter_labels(&mut self)
        ensures
            final(self).deep_view() == (OptionsView {
                header_options: (TextHeaderOptions {
                    chapter_number_format: NumberFormat::Roman,
                    ..old(self).header_options
                }),
                ..old(self).deep_view()
            }),
    {
        self.header_options.use_roman_numerals_for_chapter_labels();
    }

    /// Shows chapter numbers in words.
    pub fn use_words_for_chapter_labels(&mut self)
        ensures
            final(self).deep_view() == (OptionsView {
                header_options: (TextHeaderOptions {
                    chapter_number_format: NumberFormat::Words,
                    ..old(self).header_options
                }),
                ..old(self).deep_view()
            }),
    {
        self.header_options.use_words_for_chapter_labels();
    }

    /// Gives every chapter label that reads `Chapter` the label that was
    /// chosen, if one was.
    pub fn modify_events(&self, events: &mut Vec<BookEvent>)
        ensures
            final(events).deep_view() == old(events).deep_view().map_values(
                |e: BookEventView| relabelled(self.deep_view().chapter_label, e),
            ),
    {
        let ghost before = events.deep_view();
        let ghost label = self.deep_view().chapter_label;
        let n = events.len();
        let mut i: usize = 0;
        while i < n
            invariant
                i <= n,
                n == events.len(),
                before.len() == n,
                label == self.deep_view().chapter_label,
                forall|j: int| 0 <= j < i ==> events.deep_view()[j] == relabelled(label, before[j]),
                forall|j: int| i <= j < n ==> events.deep_view()[j] == before[j],
            decreases n - i,
        {
            let ghost now = events.deep_view();
            assert(now[i as int] == events[i as int].deep_view());
            let replacement = match (&self.chapter_label, &events[i]) {
                (
                    Some(chosen),
                    BookEvent::DivisionHeaderLabel { text: Some(t), number, number_format },
                ) => if crate::text::str_eq(t.as_str(), "Chapter") {
                    Some(
                        BookEvent::DivisionHeaderLabel {
                            text: Some(chosen.clone()),
                            number: *number,
                            number_format: *number_format,
                        },
                    )
                } else {
                    None
                },
                _ => None,
            };
            proof {
                assert(match replacement {
                    Some(r) => r.deep_view() == relabelled(label, before[i as int]),
                    None => before[i as int] == relabelled(label, before[i as int]),
                });
            }
            match replacement {
                Some(r) => {
                    events.set(i, r);
                },
                None => {},
            }
            proof {
                assert forall|j: int| 0 <= j < i + 1 implies events.deep_view()[j] == relabelled(
                    label,
                    before[j],
                ) by {
                    if j < i {
                        assert(now[j] == relabelled(label, before[j]));
                    }
                }
                assert forall|j: int| i + 1 <= j < n implies events.deep_view()[j]
                    == before[j] by {
                    assert(now[j] == before[j]);
                }
            }
            i += 1;
        }
        assert(events.deep_view() =~= before.map_values(
            |e: BookEventView| relabelled(label, e),
        ));
    }
}

} // verus!
