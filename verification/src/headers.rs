//! The header formatter: a pass over the finished stream that rewrites how
//! chapter and part headers show their label, number and title.

use crate::assembler::{BookSrc, BookSrcView};
use crate::book_event::{balanced, stack_after, BookEvent, BookEventView, Region};
use crate::events::EventView;
use crate::roles::{HeaderFormat, NumberFormat, SemanticRole, TextHeaderOptions};

use vstd::prelude::*;

verus! {

/// Where the formatter is, by the markers that it has passed.
pub struct HeaderScan {
    pub in_chapter: bool,
    pub in_part: bool,
    pub in_chapter_header: bool,
    pub in_part_header: bool,
}

/// What one event does to the formatter's position. A chapter takes
/// precedence where a chapter and a part are both open.
pub open spec fn scan_step(st: HeaderScan, e: BookEventView) -> HeaderScan {
    match e {
        BookEventView::BeginSemantic(SemanticRole::Chapter) => HeaderScan { in_chapter: true, ..st },
        BookEventView::EndSemantic(SemanticRole::Chapter) => HeaderScan { in_chapter: false, ..st },
        BookEventView::BeginSemantic(SemanticRole::Part) => HeaderScan { in_part: true, ..st },
        BookEventView::EndSemantic(SemanticRole::Part) => HeaderScan { in_part: false, ..st },
        BookEventView::BeginDivisionHeader(_) => if st.in_chapter {
            HeaderScan { in_chapter_header: true, ..st }
        } else if st.in_part {
            HeaderScan { in_part_header: true, ..st }
        } else {
            st
        },
        BookEventView::EndDivisionHeader(_) => if st.in_chapter {
            HeaderScan { in_chapter_header: false, ..st }
        } else if st.in_part {
            HeaderScan { in_part_header: false, ..st }
        } else {
            st
        },
        _ => st,
    }
}

/// The formatter's position after the first `i` events of `stream`.
pub open spec fn scan_before(stream: Seq<BookEventView>, i: int) -> HeaderScan
    decreases i,
{
    if i <= 0 {
        HeaderScan {
            in_chapter: false,
            in_part: false,
            in_chapter_header: false,
            in_part_header: false,
        }
    } else {
        scan_step(scan_before(stream, i - 1), stream[i - 1])
    }
}

/// Whether a format erases the title text of a header.
pub open spec fn erases_title(format: HeaderFormat) -> bool {
    format == HeaderFormat::NumberAlone || format == HeaderFormat::LabelAlone
}

/// A chapter label under a format: erased by `TitleAlone`; otherwise the
/// number format is set, and `NumberAndTitle` clears the label text.
pub open spec fn chapter_label_under(
    format: HeaderFormat,
    number_format: NumberFormat,
    text: Option<Seq<char>>,
    number: Option<u8>,
) -> BookEventView {
    match format {
        HeaderFormat::TitleAlone => BookEventView::Null,
        HeaderFormat::NumberAndTitle => BookEventView::DivisionHeaderLabel {
            text: None,
            number,
            number_format,
        },
        _ => BookEventView::DivisionHeaderLabel { text, number, number_format },
    }
}

/// A part label under a format: as for a chapter, but `LabelAlone` also
/// clears the number.
pub open spec fn part_label_under(
    format: HeaderFormat,
    number_format: NumberFormat,
    text: Option<Seq<char>>,
    number: Option<u8>,
) -> BookEventView {
    match format {
        HeaderFormat::TitleAlone => BookEventView::Null,
        HeaderFormat::NumberAndTitle => BookEventView::DivisionHeaderLabel {
            text: None,
            number,
            number_format,
        },
        HeaderFormat::LabelAlone => BookEventView::DivisionHeaderLabel {
            text,
            number: None,
            number_format,
        },
        _ => BookEventView::DivisionHeaderLabel { text, number, number_format },
    }
}

/// The event that stands where `e` stood, given where the formatter is.
pub open spec fn reformat_at(
    format: TextHeaderOptions,
    st: HeaderScan,
    e: BookEventView,
) -> BookEventView {
    match e {
        BookEventView::DivisionHeaderLabel { text, number, number_format } => {
            if st.in_chapter_header {
                chapter_label_under(
                    format.chapter_header_format,
                    format.chapter_number_format,
                    text,
                    number,
                )
            } else if st.in_part_header {
                part_label_under(
                    format.part_header_format,
                    format.part_number_format,
                    text,
                    number,
                )
            } else {
                e
            }
        },
        BookEventView::Event(EventView::Text(_)) => {
            if st.in_chapter_header {
                if erases_title(format.chapter_header_format) {
                    BookEventView::Null
                } else {
                    e
                }
            } else if st.in_part_header {
                if erases_title(format.part_header_format) {
                    BookEventView::Null
                } else {
                    e
                }
            } else {
                e
            }
        },
        _ => e,
    }
}

/// The stream with every chapter and part header shown as `format` asks.
/// Every event keeps its position; what is erased becomes `Null`.
pub open spec fn reformatted(stream: Seq<BookEventView>, format: TextHeaderOptions) -> Seq<
    BookEventView,
> {
    Seq::new(stream.len(), |i: int| reformat_at(format, scan_before(stream, i), stream[i]))
}

/// Rewrites the chapter and part headers of a stream in place.
pub fn change_headers_in(contents: &mut Vec<BookEvent>, format: TextHeaderOptions)
    ensures
        final(contents).deep_view() == reformatted(old(contents).deep_view(), format),
{
    let mut in_chapter = false;
    let mut in_part = false;
    let mut in_chapter_header = false;
    let mut in_part_header = false;
    let ghost before = contents.deep_view();
    let n = contents.len();
    let mut i: usize = 0;
    while i < n
        invariant
            i <= n,
            n == contents.len(),
            before.len() == n,
            scan_before(before, i as int) == (HeaderScan {
                in_chapter,
                in_part,
                in_chapter_header,
                in_part_header,
            }),
            forall|j: int| 0 <= j < i ==> contents.deep_view()[j] == reformatted(before, format)[j],
            forall|j: int| i <= j < n ==> contents.deep_view()[j] == before[j],
        decreases n - i,
    {
        let ghost st = scan_before(before, i as int);
        let ghost now = contents.deep_view();
        let ghost e = before[i as int];
        assert(contents[i as int].deep_view() == e) by {
            assert(contents.deep_view()[i as int] == contents[i as int].deep_view());
        }
        let mut replacement: Option<BookEvent> = None;
        match &contents[i] {
            BookEvent::BeginSemantic(SemanticRole::Chapter) => {
                in_chapter = true;
            },
            BookEvent::EndSemantic(SemanticRole::Chapter) => {
                in_chapter = false;
            },
            BookEvent::BeginSemantic(SemanticRole::Part) => {
                in_part = true;
            },
            BookEvent::EndSemantic(SemanticRole::Part) => {
                in_part = false;
            },
            BookEvent::BeginDivisionHeader(_) => {
                if in_chapter {
                    in_chapter_header = true;
                } else if in_part {
                    in_part_header = true;
                }
            },
            BookEvent::EndDivisionHeader(_) => {
                if in_chapter {
                    in_chapter_header = false;
                } else if in_part {
                    in_part_header = false;
                }
            },
            BookEvent::DivisionHeaderLabel { text, number, number_format } => {
                if in_chapter_header {
                    replacement =
                    Some(
                        chapter_label(
                            format.chapter_header_format,
                            format.chapter_number_format,
                            text,
                            *number,
                        ),
                    );
                } else if in_part_header {
                    replacement =
                    Some(
                        part_label(
                            format.part_header_format,
                            format.part_number_format,
                            text,
                            *number,
                        ),
                    );
                }
            },
            BookEvent::Event(crate::events::Event::Text(_)) => {
                if in_chapter_header {
                    if title_is_erased(format.chapter_header_format) {
                        replacement = Some(BookEvent::Null);
                    }
                } else if in_part_header {
                    if title_is_erased(format.part_header_format) {
                        replacement = Some(BookEvent::Null);
                    }
                }
            },
            _ => {},
        }
        proof {
            assert(scan_before(before, i + 1) == scan_step(st, e));
            assert(match replacement {
                Some(r) => r.deep_view() == reformat_at(format, st, e),
                None => e == reformat_at(format, st, e),
            });
        }
        match replacement {
            Some(r) => {
                contents.set(i, r);
            },
            None => {},
        }
        proof {
            assert forall|j: int| 0 <= j < i + 1 implies contents.deep_view()[j] == reformatted(
                before,
                format,
            )[j] by {
                if j < i {
                    assert(contents.deep_view()[j] == contents[j].deep_view());
                    assert(now[j] == reformatted(before, format)[j]);
                }
            }
            assert forall|j: int| i + 1 <= j < n implies contents.deep_view()[j] == before[j] by {
                assert(now[j] == before[j]);
            }
        }
        i += 1;
    }
    assert(contents.deep_view() =~= reformatted(before, format));
}

/// Whether a format erases the title text of a header.
pub fn title_is_erased(format: HeaderFormat) -> (r: bool)
    ensures
        r == erases_title(format),
{
    match format {
        HeaderFormat::NumberAlone => true,
        HeaderFormat::LabelAlone => true,
        _ => false,
    }
}

/// The chapter label that stands for a label with these parts.
pub fn chapter_label(
    format: HeaderFormat,
    number_format: NumberFormat,
    text: &Option<String>,
    number: Option<u8>,
) -> (r: BookEvent)
    ensures
        r.deep_view() == chapter_label_under(format, number_format, text.deep_view(), number),
{
    match format {
        HeaderFormat::TitleAlone => BookEvent::Null,
        HeaderFormat::NumberAndTitle => BookEvent::DivisionHeaderLabel {
            text: None,
            number,
            number_format,
        },
        _ => BookEvent::DivisionHeaderLabel { text: copy_text(text), number, number_format },
    }
}

/// The part label that stands for a label with these parts.
pub fn part_label(
    format: HeaderFormat,
    number_format: NumberFormat,
    text: &Option<String>,
    number: Option<u8>,
) -> (r: BookEvent)
    ensures
        r.deep_view() == part_label_under(format, number_format, text.deep_view(), number),
{
    match format {
        HeaderFormat::TitleAlone => BookEvent::Null,
        HeaderFormat::NumberAndTitle => BookEvent::DivisionHeaderLabel {
            text: None,
            number,
            number_format,
        },
        HeaderFormat::LabelAlone => BookEvent::DivisionHeaderLabel {
            text: copy_text(text),
            number: None,
            number_format,
        },
        _ => BookEvent::DivisionHeaderLabel { text: copy_text(text), number, number_format },
    }
}

/// A copy of an optional text.
pub fn copy_text(text: &Option<String>) -> (r: Option<String>)
    ensures
        r.deep_view() == text.deep_view(),
{
    match text {
        Some(t) => Some(t.clone()),
        None => None,
    }
}

impl BookSrc {
    /// Shows the chapter and part headers of this book as `format` asks.
    pub fn change_headers(&mut self, format: TextHeaderOptions)
        ensures
            final(self).deep_view() == (BookSrcView {
                contents: reformatted(old(self).deep_view().contents, format),
                ..old(self).deep_view()
            }),
    {
        change_headers_in(&mut self.contents, format);
    }
}

/// The formatter opens and closes nothing: where an event stood that opens
/// or closes a region, the same event stands.
pub proof fn lemma_reformat_keeps_markers(stream: Seq<BookEventView>, format: TextHeaderOptions)
    ensures
        reformatted(stream, format).len() == stream.len(),
        forall|i: int|
            0 <= i < stream.len() ==> (#[trigger] reformatted(stream, format)[i]).opens()
                == stream[i].opens() && reformatted(stream, format)[i].closes()
                == stream[i].closes() && reformatted(stream, format)[i].is_matter()
                == stream[i].is_matter(),
{
}

/// Two streams that open and close the same regions at the same places
/// leave the same stack.
pub proof fn lemma_same_markers_same_stack(
    a: Seq<BookEventView>,
    b: Seq<BookEventView>,
    stack: Seq<Region>,
)
    requires
        a.len() == b.len(),
        forall|i: int|
            0 <= i < a.len() ==> (#[trigger] a[i]).opens() == b[i].opens() && a[i].closes()
                == b[i].closes(),
    ensures
        stack_after(a, stack) == stack_after(b, stack),
    decreases a.len(),
{
    if a.len() > 0 {
        assert(a[0].opens() == b[0].opens() && a[0].closes() == b[0].closes());
        assert forall|i: int| 0 <= i < a.drop_first().len() implies (#[trigger] a.drop_first()[i]).opens()
            == b.drop_first()[i].opens() && a.drop_first()[i].closes()
            == b.drop_first()[i].closes() by {
            assert(a.drop_first()[i] == a[i + 1]);
            assert(b.drop_first()[i] == b[i + 1]);
            assert(a[i + 1].opens() == b[i + 1].opens());
        }
        let e = a[0];
        if e.opens() is Some {
            lemma_same_markers_same_stack(
                a.drop_first(),
                b.drop_first(),
                stack.push(e.opens()->0),
            );
        } else if e.closes() is Some {
            if stack.len() > 0 && stack.last() == e.closes()->0 {
                lemma_same_markers_same_stack(a.drop_first(), b.drop_first(), stack.drop_last());
            }
        } else {
            lemma_same_markers_same_stack(a.drop_first(), b.drop_first(), stack);
        }
    }
}

/// The header formatter keeps a stream as balanced as it was.
pub proof fn law_reformat_keeps_balance(stream: Seq<BookEventView>, format: TextHeaderOptions)
    ensures
        balanced(reformatted(stream, format)) == balanced(stream),
{
    lemma_reformat_keeps_markers(stream, format);
    lemma_same_markers_same_stack(reformatted(stream, format), stream, Seq::empty());
}

} // verus!
