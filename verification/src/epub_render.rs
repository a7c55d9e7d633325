//! Rendering a book as the parts of an EPUB: its pages as pieces of
//! content with their entries in the table of contents, and the resources
//! that the pages refer to.

use crate::assembler::{BookSrc, BookSrcView};
use crate::book_event::{BookEvent, BookEventView};
use crate::bundle::{without_links, EpubContent};
use crate::epub::{EpubPage, EpubPageView};
use crate::epub_options::{Options, OptionsView};
use crate::epub_pages::{
    count_footnotes, epub_pages, footnotes_in, prepared, preprocess_with, ImagePlan,
    ImagePlanView, PageSettings, PageSettingsView, RenderingError,
};
use crate::images::{image_destinations, image_dests};
use crate::latex::{find_image_path, image_path};
use crate::mimetypes::{file_name_or_path, GuessMimeType, MimeType, MimeTypeHelper};
use crate::seqs::group_views;
use crate::stamps::{hyphenated_of, new_uuid};
use vstd::prelude::*;
use vstd::string::*;

verus! {

/// A marker for a footnote: an identifier drawn at random.
pub fn new_marker() -> (r: String) {
    hyphenated_of(&new_uuid())
}

/// Makes a marker for each of `count` footnotes.
pub fn new_markers(count: usize) -> (r: Vec<String>)
    ensures
        r.len() == count,
{
    let mut markers: Vec<String> = Vec::new();
    let mut i: usize = 0;
    while i < count
        invariant
            i <= count,
            markers.len() == i,
        decreases count - i,
    {
        markers.push(new_marker());
        i += 1;
    }
    markers
}

/// What is done with an image of a type, with the converted file that
/// was supplied for it, if one was: an image that an EPUB can show is
/// kept; a pdf takes the converted file; any other image is unsupported.
pub open spec fn planned(mime: Option<MimeType>, converted: Option<Seq<char>>) -> ImagePlanView {
    match mime {
        Some(m) => if m.epub_image() {
            ImagePlanView::Keep
        } else if m == MimeType::Pdf {
            match converted {
                Some(p) => ImagePlanView::Replace(p),
                None => ImagePlanView::Unconverted,
            }
        } else {
            ImagePlanView::Unsupported
        },
        None => ImagePlanView::Unsupported,
    }
}

/// Decides what is done with an image of a type, with the converted file
/// that was supplied for it, if one was.
pub fn plan_of(mime: Option<MimeType>, converted: Option<&str>) -> (r: ImagePlan)
    ensures
        r.deep_view() == planned(mime, converted.deep_view()),
{
    match mime {
        Some(m) => {
            if m.is_epub_supported_image() {
                ImagePlan::Keep
            } else if m.is_pdf() {
                match converted {
                    Some(p) => ImagePlan::Replace(String::from_str(p)),
                    None => ImagePlan::Unconverted,
                }
            } else {
                ImagePlan::Unsupported
            }
        },
        None => ImagePlan::Unsupported,
    }
}

/// Decides what is done with an image, by the type that its path stands
/// for, with the converted files that the caller supplies.
pub fn plan_image(dest: &str, converted: &Vec<(String, String)>) -> (r: ImagePlan)
    ensures
        is_plan_of(r.deep_view(), dest@, converted.deep_view()),
{
    let mime = dest.guess_mime();
    let r = plan_of(mime, find_image_path(converted, dest));
    assert(planned(mime, image_path(converted.deep_view(), dest@)) == r.deep_view());
    r
}

/// Whether a plan is what is done with the image at `dest`, whatever type
/// its path stands for, with the converted files that were supplied.
pub open spec fn is_plan_of(
    plan: ImagePlanView,
    dest: Seq<char>,
    converted: Seq<(Seq<char>, Seq<char>)>,
) -> bool {
    exists|mime: Option<MimeType>| #[trigger] planned(mime, image_path(converted, dest)) == plan
}

/// Whether the plans are those of the images at `dests`, one for each and
/// in their order.
pub open spec fn plans_made(
    plans: Seq<(Seq<char>, ImagePlanView)>,
    dests: Seq<Seq<char>>,
    converted: Seq<(Seq<char>, Seq<char>)>,
) -> bool {
    &&& plans.len() == dests.len()
    &&& forall|i: int|
        0 <= i < plans.len() ==> (#[trigger] plans[i]).0 == dests[i] && is_plan_of(
            plans[i].1,
            dests[i],
            converted,
        )
}

/// The file that an image is read from: the converted file where the
/// image is replaced, else the image itself.
pub open spec fn source_of(plan: (Seq<char>, ImagePlanView)) -> Seq<char> {
    match plan.1 {
        ImagePlanView::Replace(p) => p,
        _ => plan.0,
    }
}

/// Whether the names are those of the files that the planned images are
/// read from, one for each and in their order: the file, and the name
/// under which it goes into the EPUB.
pub open spec fn names_made(
    names: Seq<(Seq<char>, Seq<char>)>,
    plans: Seq<(Seq<char>, ImagePlanView)>,
) -> bool {
    &&& names.len() == plans.len()
    &&& forall|i: int| 0 <= i < names.len() ==> (#[trigger] names[i]).0 == source_of(plans[i])
}

/// Plans every image of a stream, and finds the file name under which each
/// goes into the EPUB.
pub fn plan_images(events: &Vec<BookEvent>, converted: &Vec<(String, String)>) -> (r: (
    Vec<(String, ImagePlan)>,
    Vec<(String, String)>,
))
    ensures
        plans_made(r.0.deep_view(), image_dests(events.deep_view()), converted.deep_view()),
        names_made(r.1.deep_view(), r.0.deep_view()),
{
    let dests = image_destinations(events);
    let ghost all = dests.deep_view();
    let ghost given = converted.deep_view();
    assert(all.len() == dests.len());
    let mut plans: Vec<(String, ImagePlan)> = Vec::new();
    let mut names: Vec<(String, String)> = Vec::new();
    let mut i: usize = 0;
    while i < dests.len()
        invariant
            i <= dests.len(),
            all == dests.deep_view(),
            given == converted.deep_view(),
            plans.len() == i,
            names.len() == i,
            plans.deep_view().len() == i,
            names.deep_view().len() == i,
            forall|j: int|
                0 <= j < i ==> (#[trigger] plans.deep_view()[j]).0 == all[j] && is_plan_of(
                    plans.deep_view()[j].1,
                    all[j],
                    given,
                ),
            forall|j: int|
                0 <= j < i ==> (#[trigger] names.deep_view()[j]).0 == source_of(
                    plans.deep_view()[j],
                ),
        decreases dests.len() - i,
    {
        assert(all[i as int] == dests[i as int]@);
        let ghost plans_before = plans.deep_view();
        let ghost names_before = names.deep_view();
        let plan = plan_image(dests[i].as_str(), converted);
        let ghost planned_here = (all[i as int], plan.deep_view());
        let source = match &plan {
            ImagePlan::Replace(p) => p.clone(),
            _ => dests[i].clone(),
        };
        assert(source@ == source_of(planned_here));
        let name = file_name_or_path(source.as_str());
        let ghost named_here = (source@, name@);
        names.push((source, name));
        plans.push((dests[i].clone(), plan));
        assert(plans.deep_view() =~= plans_before.push(planned_here));
        assert(names.deep_view() =~= names_before.push(named_here));
        i += 1;
    }
    (plans, names)
}

/// Whether `r` is what the pages of a book come to with these settings,
/// markers and plans, where the settings hold the stylesheet and the image
/// of the titlepage that the caller supplied.
pub open spec fn pages_made_with(
    r: Result<Vec<EpubPage>, RenderingError>,
    contents: Seq<BookEventView>,
    options: OptionsView,
    css_path: Seq<char>,
    titlepage_path: Seq<char>,
    settings: PageSettingsView,
    markers: Seq<Seq<char>>,
    plans: Seq<(Seq<char>, ImagePlanView)>,
    converted: Seq<(Seq<char>, Seq<char>)>,
) -> bool {
    &&& settings.css matches Some(css) && css.0 == css_path
    &&& settings.titlepage.1 == titlepage_path
    &&& markers.len() == footnotes_in(contents)
    &&& plans_made(plans, image_dests(contents), converted)
    &&& names_made(settings.image_names, plans)
    &&& match epub_pages(contents, options, settings, markers, plans) {
        Ok(pages) => r is Ok && r->Ok_0.deep_view() == pages,
        Err(e) => r is Err && r->Err_0.deep_view() == e,
    }
}

impl BookSrc {
    /// Turns the stream of this book into the pages of an EPUB. The caller
    /// supplies the paths of the stylesheet and of the image of the
    /// titlepage, and the converted file of every pdf image. Footnotes get
    /// markers of their own, and images are planned by their type.
    pub fn get_pages(
        &mut self,
        options: &Options,
        css_path: &str,
        titlepage_path: &str,
        converted: &Vec<(String, String)>,
    ) -> (r: Result<Vec<EpubPage>, RenderingError>)
        ensures
            exists|
                settings: PageSettingsView,
                markers: Seq<Seq<char>>,
                plans: Seq<(Seq<char>, ImagePlanView)>,
            | #[trigger]
                pages_made_with(
                    r,
                    old(self).deep_view().contents,
                    options.deep_view(),
                    css_path@,
                    titlepage_path@,
                    settings,
                    markers,
                    plans,
                    converted.deep_view(),
                ),
            final(self).deep_view() == (BookSrcView {
                contents: Seq::empty(),
                ..old(self).deep_view()
            }),
    {
        let count = count_footnotes(&self.contents);
        let markers = new_markers(count);
        let (plans, image_names) = plan_images(&self.contents, converted);
        let settings = PageSettings {
            css: Some((String::from_str(css_path), file_name_or_path(css_path))),
            image_names,
            titlepage: (file_name_or_path(titlepage_path), String::from_str(titlepage_path)),
        };
        let r = self.get_pages_with(options, &settings, &markers, &plans);
        proof {
            assert(pages_made_with(
                r,
                old(self).deep_view().contents,
                options.deep_view(),
                css_path@,
                titlepage_path@,
                settings.deep_view(),
                markers.deep_view(),
                plans.deep_view(),
                converted.deep_view(),
            ));
        }
        r
    }
}

/// The entry of a page in the table of contents: its title without links,
/// at its level or at level one.
pub open spec fn toc_entry_of(page: EpubPageView) -> Option<(Seq<char>, usize)> {
    match page.toc_title {
        Some(t) => Some(
            (
                without_links(t),
                match page.toc_level {
                    Some(l) => l,
                    None => 1,
                },
            ),
        ),
        None => None,
    }
}

/// Whether a piece of content is the content of a page.
pub open spec fn is_content_of(content: EpubContent, page: EpubPageView) -> bool {
    &&& content.data@ == page.xhtml
    &&& match toc_entry_of(page) {
        Some((title, level)) => content.toc_entry is Some && content.toc_entry->0.title@ == title
            && content.toc_entry->0.level == level,
        None => content.toc_entry is None,
    }
}

/// The page as a piece of content for the bundler.
pub fn content_of(page: &EpubPage) -> (r: EpubContent)
    ensures
        is_content_of(r, page.deep_view()),
{
    let mut content = EpubContent::new(page.xhtml.as_str());
    match &page.toc_title {
        Some(t) => {
            let level = match page.toc_level {
                Some(l) => l,
                None => 1,
            };
            let _ = content.set_toc_title(t.as_str(), level);
        },
        None => {},
    }
    content
}

/// Whether a text occurs in a list.
pub open spec fn listed(list: Seq<Seq<char>>, s: Seq<char>) -> bool {
    exists|i: int| 0 <= i < list.len() && list[i] == s
}

/// Whether no text occurs twice in a list.
pub open spec fn distinct(list: Seq<Seq<char>>) -> bool {
    forall|i: int, j: int| 0 <= i < j < list.len() ==> list[i] != list[j]
}

fn is_listed(list: &Vec<String>, s: &str) -> (r: bool)
    ensures
        r == listed(list.deep_view(), s@),
{
    let ghost all = list.deep_view();
    let mut i: usize = 0;
    while i < list.len()
        invariant
            i <= list.len(),
            all == list.deep_view(),
            forall|j: int| 0 <= j < i ==> all[j] != s@,
        decreases list.len() - i,
    {
        assert(all[i as int] == list[i as int]@);
        if crate::text::str_eq(list[i].as_str(), s) {
            return true;
        }
        i += 1;
    }
    false
}

/// What is listed in a list is listed in every list that begins with it.
pub proof fn lemma_listed_grows(a: Seq<Seq<char>>, b: Seq<Seq<char>>, s: Seq<char>)
    requires
        listed(a, s),
        a.is_prefix_of(b),
    ensures
        listed(b, s),
{
    let k = choose|k: int| 0 <= k < a.len() && a[k] == s;
    assert(b[k] == s);
}

/// A list with the first `n` of `more` added to it, each where the list
/// does not hold it yet.
pub open spec fn gathered(list: Seq<Seq<char>>, more: Seq<Seq<char>>, n: int) -> Seq<Seq<char>>
    decreases n,
{
    if n <= 0 {
        list
    } else {
        let before = gathered(list, more, n - 1);
        if listed(before, more[n - 1]) {
            before
        } else {
            before.push(more[n - 1])
        }
    }
}

/// What is gathered begins with the list, holds no text twice where the
/// list held none twice, holds every text that was added, and holds
/// nothing but what the list held or what was added.
pub proof fn law_gathered(list: Seq<Seq<char>>, more: Seq<Seq<char>>, n: int)
    requires
        0 <= n <= more.len(),
    ensures
        list.is_prefix_of(gathered(list, more, n)),
        distinct(list) ==> distinct(gathered(list, more, n)),
        forall|q: int| 0 <= q < n ==> listed(gathered(list, more, n), #[trigger] more[q]),
        forall|k: int|
            0 <= k < gathered(list, more, n).len() ==> listed(
                list,
                #[trigger] gathered(list, more, n)[k],
            ) || listed(more.take(n), gathered(list, more, n)[k]),
    decreases n,
{
    if n > 0 {
        law_gathered(list, more, n - 1);
        let before = gathered(list, more, n - 1);
        let after = gathered(list, more, n);
        let x = more[n - 1];
        assert(more.take(n)[n - 1] == x);
        if !listed(before, x) {
            assert(after[before.len() as int] == x);
            if distinct(list) {
                assert forall|a: int, b: int| 0 <= a < b < after.len() implies after[a]
                    != after[b] by {
                    if b == before.len() {
                        assert(before[a] == after[a]);
                    } else {
                        assert(before[a] != before[b]);
                    }
                }
            }
        }
        assert forall|q: int| 0 <= q < n implies listed(after, #[trigger] more[q]) by {
            if q < n - 1 {
                lemma_listed_grows(before, after, more[q]);
            } else if listed(before, x) {
                lemma_listed_grows(before, after, x);
            }
        }
        assert forall|k: int| 0 <= k < after.len() implies listed(list, #[trigger] after[k])
            || listed(more.take(n), after[k]) by {
            if k < before.len() {
                assert(after[k] == before[k]);
                if !listed(list, before[k]) {
                    let earlier = more.take(n - 1);
                    let j = choose|j: int|
                        0 <= j < earlier.len() && (#[trigger] earlier[j]) == before[k];
                    assert(more.take(n)[j] == before[k]);
                }
            }
        }
    }
}

/// Adds to `resources` every resource of `more` that it does not hold yet,
/// in the order of `more`.
pub fn add_resources(resources: &mut Vec<String>, more: &Vec<String>)
    ensures
        final(resources).deep_view() == gathered(
            old(resources).deep_view(),
            more.deep_view(),
            more.deep_view().len() as int,
        ),
{
    let ghost before = resources.deep_view();
    let ghost m = more.deep_view();
    let mut i: usize = 0;
    assert(m.len() == more.len());
    while i < more.len()
        invariant
            i <= more.len(),
            m == more.deep_view(),
            m.len() == more.len(),
            resources.deep_view() == gathered(before, m, i as int),
        decreases more.len() - i,
    {
        let ghost now = resources.deep_view();
        assert(m[i as int] == more[i as int]@);
        if !is_listed(resources, more[i].as_str()) {
            resources.push(more[i].clone());
            assert(resources.deep_view() =~= now.push(m[i as int]));
        }
        i += 1;
    }
}

/// The resources of the first `n` pages, each once, in the order in which
/// the pages refer to them.
pub open spec fn resources_of(pages: Seq<EpubPageView>, n: int) -> Seq<Seq<char>>
    decreases n,
{
    if n <= 0 {
        Seq::empty()
    } else {
        gathered(
            resources_of(pages, n - 1),
            pages[n - 1].associated_resources,
            pages[n - 1].associated_resources.len() as int,
        )
    }
}

/// The resources of pages hold no text twice, hold every resource of
/// every page, and hold nothing that no page refers to.
pub proof fn law_resources_of(pages: Seq<EpubPageView>, n: int)
    requires
        0 <= n <= pages.len(),
    ensures
        distinct(resources_of(pages, n)),
        forall|i: int, q: int|
            0 <= i < n && 0 <= q < pages[i].associated_resources.len() ==> listed(
                resources_of(pages, n),
                #[trigger] pages[i].associated_resources[q],
            ),
        forall|k: int|
            0 <= k < resources_of(pages, n).len() ==> exists|i: int|
                0 <= i < n && listed(
                    (#[trigger] pages[i]).associated_resources,
                    #[trigger] resources_of(pages, n)[k],
                ),
    decreases n,
{
    if n > 0 {
        law_resources_of(pages, n - 1);
        let before = resources_of(pages, n - 1);
        let more = pages[n - 1].associated_resources;
        let after = resources_of(pages, n);
        law_gathered(before, more, more.len() as int);
        assert(more.take(more.len() as int) =~= more);
        assert forall|i: int, q: int|
            0 <= i < n && 0 <= q < pages[i].associated_resources.len() implies listed(
            after,
            #[trigger] pages[i].associated_resources[q],
        ) by {
            if i < n - 1 {
                lemma_listed_grows(before, after, pages[i].associated_resources[q]);
            }
        }
        assert forall|k: int| 0 <= k < after.len() implies exists|i: int|
            0 <= i < n && listed(
                (#[trigger] pages[i]).associated_resources,
                #[trigger] after[k],
            ) by {
            if listed(before, after[k]) {
                let j = choose|j: int| 0 <= j < before.len() && before[j] == after[k];
                let i = choose|i: int|
                    0 <= i < n - 1 && listed(
                        (#[trigger] pages[i]).associated_resources,
                        before[j],
                    );
                assert(0 <= i < n && listed(pages[i].associated_resources, after[k]));
            } else {
                assert(listed(pages[n - 1].associated_resources, after[k]));
            }
        }
    }
}

/// The pages of a book as the bundler takes them: a piece of content for
/// each page, in the order of the pages, and every resource that a page
/// refers to, once, in the order in which the pages refer to them.
pub fn contents_and_resources(pages: &Vec<EpubPage>) -> (r: (Vec<EpubContent>, Vec<String>))
    ensures
        r.0.len() == pages.len(),
        forall|i: int|
            0 <= i < pages.len() ==> is_content_of(#[trigger] r.0[i], pages[i].deep_view()),
        r.1.deep_view() == resources_of(pages.deep_view(), pages.deep_view().len() as int),
{
    let ghost all = pages.deep_view();
    let mut contents: Vec<EpubContent> = Vec::new();
    let mut resources: Vec<String> = Vec::new();
    let mut i: usize = 0;
    assert(all.len() == pages.len());
    assert(resources.deep_view() =~= resources_of(all, 0));
    while i < pages.len()
        invariant
            i <= pages.len(),
            all == pages.deep_view(),
            all.len() == pages.len(),
            contents.len() == i,
            forall|j: int| 0 <= j < i ==> is_content_of(#[trigger] contents[j], pages[j].deep_view()),
            resources.deep_view() == resources_of(all, i as int),
        decreases pages.len() - i,
    {
        assert(all[i as int] == pages[i as int].deep_view());
        add_resources(&mut resources, &pages[i].associated_resources);
        contents.push(content_of(&pages[i]));
        i += 1;
    }
    (contents, resources)
}

/// Whether `r` is what the preparation of a stream comes to with these
/// markers and plans.
pub open spec fn prepared_with(
    r: Result<(bool, Vec<BookEvent>), RenderingError>,
    src: Seq<BookEventView>,
    markers: Seq<Seq<char>>,
    plans: Seq<(Seq<char>, ImagePlanView)>,
    converted: Seq<(Seq<char>, Seq<char>)>,
) -> bool {
    &&& markers.len() == footnotes_in(src)
    &&& plans_made(plans, image_dests(src), converted)
    &&& match prepared(src, markers, plans).failed {
        Some(e) => r is Err && r->Err_0.deep_view() == e,
        None => r is Ok && r->Ok_0.0 == prepared(src, markers, plans).has_parts
            && r->Ok_0.1.deep_view() == prepared(src, markers, plans).events,
    }
}

/// Prepares a stream for its pages: every flattened footnote gets a marker
/// of its own and goes behind its division, and every image is planned by
/// its type, with the converted files that the caller supplies.
pub fn preprocess(src: &Vec<BookEvent>, converted: &Vec<(String, String)>) -> (r: Result<
    (bool, Vec<BookEvent>),
    RenderingError,
>)
    ensures
        exists|markers: Seq<Seq<char>>, plans: Seq<(Seq<char>, ImagePlanView)>| #[trigger]
            prepared_with(r, src.deep_view(), markers, plans, converted.deep_view()),
{
    let count = count_footnotes(src);
    let markers = new_markers(count);
    let (plans, _) = plan_images(src, converted);
    let r = preprocess_with(src, &markers, &plans);
    proof {
        assert(prepared_with(
            r,
            src.deep_view(),
            markers.deep_view(),
            plans.deep_view(),
            converted.deep_view(),
        ));
    }
    r
}

} // verus!
