//! The metadata of a book: titles, contributors by role, ISBNs and what the
//! copyright page says of publisher and printing.

use crate::book_event::copy_names;
use crate::headers::copy_text;
use crate::isbn::{display_isbn, isbn_display, isbn_valid};
use crate::roles::TitlePageContributorRole;
use crate::seqs::group_views;
use crate::text::{
    all_uppercase, join_first, joined, owned, strip_suffix, uppercase_all, without_suffix,
};
use vstd::prelude::*;
use vstd::string::*;

verus! {

/// Something that can be read as one name or as several.
pub trait ContributorSource: Sized {
    /// The names that this source holds.
    spec fn names(&self) -> Seq<Seq<char>>;

    /// Whether this source is one name by its kind.
    spec fn single(&self) -> bool;

    /// The names as a list, also where the source was a single name.
    fn to_vec(self) -> (r: Vec<String>)
        ensures
            r.deep_view() == self.names(),
    ;

    /// Does this stand for a single name only?
    fn is_single_name(&self) -> (r: bool)
        ensures
            r == self.single(),
    ;

    /// The single name, where this stands for one only.
    fn to_single(self) -> (r: Option<String>)
        ensures
            self.single() ==> r is Some && seq![r->0@] == self.names(),
            !self.single() ==> r is None,
    ;
}

impl ContributorSource for String {
    open spec fn names(&self) -> Seq<Seq<char>> {
        seq![self@]
    }

    open spec fn single(&self) -> bool {
        true
    }

    fn to_vec(self) -> (r: Vec<String>) {
        let mut v: Vec<String> = Vec::new();
        v.push(self);
        proof {
            broadcast use group_views;

            assert(v.deep_view() =~= seq![self@]);
        }
        v
    }

    fn is_single_name(&self) -> (r: bool) {
        true
    }

    fn to_single(self) -> (r: Option<String>) {
        Some(self)
    }
}

impl<'a> ContributorSource for &'a str {
    open spec fn names(&self) -> Seq<Seq<char>> {
        seq![self@]
    }

    open spec fn single(&self) -> bool {
        true
    }

    fn to_vec(self) -> (r: Vec<String>) {
        let mut v: Vec<String> = Vec::new();
        v.push(String::from_str(self));
        proof {
            broadcast use group_views;

            assert(v.deep_view() =~= seq![self@]);
        }
        v
    }

    fn is_single_name(&self) -> (r: bool) {
        true
    }

    fn to_single(self) -> (r: Option<String>) {
        Some(String::from_str(self))
    }
}

impl ContributorSource for Vec<String> {
    open spec fn names(&self) -> Seq<Seq<char>> {
        self.deep_view()
    }

    open spec fn single(&self) -> bool {
        false
    }

    fn to_vec(self) -> (r: Vec<String>) {
        self
    }

    fn is_single_name(&self) -> (r: bool) {
        false
    }

    fn to_single(self) -> (r: Option<String>) {
        None
    }
}

impl<'a> ContributorSource for Vec<&'a str> {
    open spec fn names(&self) -> Seq<Seq<char>> {
        self.deep_view()
    }

    open spec fn single(&self) -> bool {
        false
    }

    fn to_vec(self) -> (r: Vec<String>) {
        let mut out: Vec<String> = Vec::new();
        let mut i: usize = 0;
        while i < self.len()
            invariant
                i <= self.len(),
                out.deep_view() == self.deep_view().take(i as int),
            decreases self.len() - i,
        {
            out.push(String::from_str(self[i]));
            proof {
                broadcast use group_views;

                assert(self.deep_view().take(i + 1) =~= self.deep_view().take(i as int).push(
                    self[i as int]@,
                ));
            }
            i += 1;
        }
        assert(self.deep_view().take(self.len() as int) =~= self.deep_view());
        out
    }

    fn is_single_name(&self) -> (r: bool) {
        false
    }

    fn to_single(self) -> (r: Option<String>) {
        None
    }
}

/// The metadata of a book.
#[derive(Debug, Default)]
pub struct Metadata {
    pub do_not_assert_moral_rights: bool,
    pub is_not_first_publication: bool,
    /// The main title of this work.
    pub title: String,
    pub shorttitle: Option<String>,
    /// A subtitle.
    pub subtitle: Option<String>,
    /// The authors of this work.
    pub authors: Vec<String>,
    /// The editors of this work.
    pub editors: Vec<String>,
    /// The translators of this work.
    pub translators: Vec<String>,
    /// Authors of forewords to this work.
    pub foreword_authors: Vec<String>,
    /// Authors of introductions to this work.
    pub introduction_authors: Vec<String>,
    /// Authors of afterwords to this work.
    pub afterword_authors: Vec<String>,
    /// Authors of introductions to and notes on this work.
    pub introduction_and_notes_authors: Vec<String>,
    pub cover_designer: Option<String>,
    pub author_photo_copyright_holder: Option<String>,
    pub paperback_isbn: Option<String>,
    pub hardback_isbn: Option<String>,
    /// The ISBN of this work as an epub.
    pub epub_isbn: Option<String>,
    pub publisher_name: Option<String>,
    pub publisher_address: Option<String>,
    pub publisher_url: Option<String>,
    pub print_loc: Option<String>,
    pub copyright_statement: Option<String>,
}

/// What a `Metadata` holds, as mathematics.
pub struct MetadataView {
    pub do_not_assert_moral_rights: bool,
    pub is_not_first_publication: bool,
    pub title: Seq<char>,
    pub shorttitle: Option<Seq<char>>,
    pub subtitle: Option<Seq<char>>,
    pub authors: Seq<Seq<char>>,
    pub editors: Seq<Seq<char>>,
    pub translators: Seq<Seq<char>>,
    pub foreword_authors: Seq<Seq<char>>,
    pub introduction_authors: Seq<Seq<char>>,
    pub afterword_authors: Seq<Seq<char>>,
    pub introduction_and_notes_authors: Seq<Seq<char>>,
    pub cover_designer: Option<Seq<char>>,
    pub author_photo_copyright_holder: Option<Seq<char>>,
    pub paperback_isbn: Option<Seq<char>>,
    pub hardback_isbn: Option<Seq<char>>,
    pub epub_isbn: Option<Seq<char>>,
    pub publisher_name: Option<Seq<char>>,
    pub publisher_address: Option<Seq<char>>,
    pub publisher_url: Option<Seq<char>>,
    pub print_loc: Option<Seq<char>>,
    pub copyright_statement: Option<Seq<char>>,
}

impl DeepView for Metadata {
    type V = MetadataView;

    open spec fn deep_view(&self) -> MetadataView {
        MetadataView {
            do_not_assert_moral_rights: self.do_not_assert_moral_rights,
            is_not_first_publication: self.is_not_first_publication,
            title: self.title@,
            shorttitle: self.shorttitle.deep_view(),
            subtitle: self.subtitle.deep_view(),
            authors: self.authors.deep_view(),
            editors: self.editors.deep_view(),
            translators: self.translators.deep_view(),
            foreword_authors: self.foreword_authors.deep_view(),
            introduction_authors: self.introduction_authors.deep_view(),
            afterword_authors: self.afterword_authors.deep_view(),
            introduction_and_notes_authors: self.introduction_and_notes_authors.deep_view(),
            cover_designer: self.cover_designer.deep_view(),
            author_photo_copyright_holder: self.author_photo_copyright_holder.deep_view(),
            paperback_isbn: self.paperback_isbn.deep_view(),
            hardback_isbn: self.hardback_isbn.deep_view(),
            epub_isbn: self.epub_isbn.deep_view(),
            publisher_name: self.publisher_name.deep_view(),
            publisher_address: self.publisher_address.deep_view(),
            publisher_url: self.publisher_url.deep_view(),
            print_loc: self.print_loc.deep_view(),
            copyright_statement: self.copyright_statement.deep_view(),
        }
    }
}

/// The metadata of a book of which only the title is known.
pub open spec fn titled(title: Seq<char>) -> MetadataView {
    MetadataView {
        do_not_assert_moral_rights: false,
        is_not_first_publication: false,
        title,
        shorttitle: None,
        subtitle: None,
        authors: Seq::empty(),
        editors: Seq::empty(),
        translators: Seq::empty(),
        foreword_authors: Seq::empty(),
        introduction_authors: Seq::empty(),
        afterword_authors: Seq::empty(),
        introduction_and_notes_authors: Seq::empty(),
        cover_designer: None,
        author_photo_copyright_holder: None,
        paperback_isbn: None,
        hardback_isbn: None,
        epub_isbn: None,
        publisher_name: None,
        publisher_address: None,
        publisher_url: None,
        print_loc: None,
        copyright_statement: None,
    }
}

/// The two spaces and line end that close a line of the copyright page.
pub open spec fn line_end() -> Seq<char> {
    "  \n"@
}

/// The rule between the blocks of the copyright page.
pub open spec fn block_rule() -> Seq<char> {
    "\n\n* * *\n\n"@
}

/// A text as a line of its own, or nothing.
pub open spec fn line_of(x: Option<Seq<char>>) -> Seq<char> {
    match x {
        Some(s) => s + line_end(),
        None => Seq::empty(),
    }
}

/// A text behind an introduction, or nothing.
pub open spec fn introduced(intro: Seq<char>, x: Option<Seq<char>>) -> Option<Seq<char>> {
    match x {
        Some(s) => Some(intro + s),
        None => None,
    }
}

/// The printed form of the ISBN of an edition; an invalid ISBN is left out.
pub open spec fn isbn_line(isbn: Option<Seq<char>>, edition: Seq<char>) -> Option<Seq<char>> {
    match isbn {
        Some(i) => if isbn_valid(i) {
            Some(isbn_display(i, Some(edition)))
        } else {
            None
        },
        None => None,
    }
}

impl MetadataView {
    /// The short title, or the title where none was set.
    pub open spec fn short_title(self) -> Seq<char> {
        match self.shorttitle {
            Some(s) => s,
            None => self.title,
        }
    }

    /// All authors in one text, separated by commas.
    pub open spec fn authors_text(self) -> Option<Seq<char>> {
        if self.authors.len() == 0 {
            None
        } else {
            Some(joined(self.authors, ", "@))
        }
    }

    /// All authors in capitals, in the form `A, B and C`.
    pub open spec fn authors_in_capitals(self) -> Option<Seq<char>> {
        let upper = all_uppercase(self.authors);
        if upper.len() == 0 {
            None
        } else if upper.len() == 1 {
            Some(upper[0])
        } else {
            Some(joined(upper.drop_last(), ", "@) + " and "@ + upper.last())
        }
    }

    /// Whether nobody but the author wrote an introduction.
    pub open spec fn no_introduction_authors(self) -> bool {
        self.introduction_authors.len() == 0 && self.introduction_and_notes_authors.len() == 0
    }

    /// The copyright statement: the one that was set, or one made of the
    /// year and the authors, if there are authors.
    pub open spec fn copyright_line(self, year: Seq<char>) -> Option<Seq<char>> {
        match self.copyright_statement {
            Some(s) => Some(s),
            None => match self.authors_text() {
                Some(a) => Some("Copyright © "@ + year + " "@ + a),
                None => None,
            },
        }
    }

    /// The assertion of moral rights, unless it was declined or there is no
    /// author.
    pub open spec fn moral_rights_line(self) -> Seq<char> {
        if self.do_not_assert_moral_rights || self.authors.len() == 0 {
            Seq::empty()
        } else if self.authors.len() == 1 {
            "The author's moral rights have been asserted"@ + line_end()
        } else {
            "The moral rights of the authors have been asserted"@ + line_end()
        }
    }

    /// The first block of the copyright page, with the rule under it where
    /// it is not empty.
    pub open spec fn rights_block(self, year: Seq<char>) -> Seq<char> {
        let lines = line_of(self.copyright_line(year)) + self.moral_rights_line();
        if lines.len() == 0 {
            lines
        } else {
            lines + block_rule()
        }
    }

    /// When and by whom the book was published.
    pub open spec fn publication_line(self, year: Seq<char>) -> Seq<char> {
        let opening = if self.is_not_first_publication {
            "This edition published "@
        } else {
            "First published "@
        };
        match self.publisher_name {
            Some(p) => opening + year + " by "@ + p,
            None => opening + year,
        }
    }

    /// The publisher's address and url.
    pub open spec fn publisher_lines(self) -> Seq<char> {
        let address = match self.publisher_address {
            Some(a) => if self.publisher_url is Some {
                a + line_end()
            } else {
                a
            },
            None => Seq::empty(),
        };
        let url = match self.publisher_url {
            Some(u) => "```"@ + u + "```"@,
            None => Seq::empty(),
        };
        address + url
    }

    /// ISBNs, cover designer and photograph credit, one line each.
    pub open spec fn credit_lines(self) -> Seq<char> {
        line_of(isbn_line(self.epub_isbn, "epub"@)) + line_of(
            isbn_line(self.hardback_isbn, "hardback"@),
        ) + line_of(isbn_line(self.paperback_isbn, "paperback"@)) + line_of(
            introduced("Cover design by "@, self.cover_designer),
        ) + line_of(introduced("Author photo © "@, self.author_photo_copyright_holder))
    }

    /// The text of the copyright page for a book published in `year`: the
    /// rights, the publication, the credits and the place of printing, with
    /// a rule between the blocks and none at the end.
    pub open spec fn copyright_page_text(self, year: Seq<char>) -> Seq<char> {
        let upper = self.rights_block(year) + self.publication_line(year) + line_end()
            + self.publisher_lines() + block_rule() + self.credit_lines();
        let trimmed = without_suffix(upper, line_end());
        let printed = match self.print_loc {
            Some(p) => (if "*\n\n"@.is_suffix_of(trimmed) {
                trimmed
            } else {
                trimmed + block_rule()
            }) + "Printed in "@ + p,
            None => trimmed,
        };
        without_suffix(printed, block_rule())
    }

    /// The contributors that the titlepage names, by role, in the order of
    /// the roles; a role that nobody has is left out.
    pub open spec fn titlepage_contributors(self) -> Seq<
        (TitlePageContributorRole, Seq<Seq<char>>),
    > {
        role_group(TitlePageContributorRole::Author, self.authors) + role_group(
            TitlePageContributorRole::Editor,
            self.editors,
        ) + role_group(TitlePageContributorRole::Translator, self.translators) + role_group(
            TitlePageContributorRole::ForewordAuthor,
            self.foreword_authors,
        ) + role_group(TitlePageContributorRole::AfterwordAuthor, self.afterword_authors)
            + role_group(TitlePageContributorRole::IntroductionAuthor, self.introduction_authors)
            + role_group(
            TitlePageContributorRole::IntroductionAndNotesAuthor,
            self.introduction_and_notes_authors,
        )
    }
}

/// The contributors of one role as an entry of the titlepage's table.
pub open spec fn role_group(role: TitlePageContributorRole, names: Seq<Seq<char>>) -> Seq<
    (TitlePageContributorRole, Seq<Seq<char>>),
> {
    if names.len() == 0 {
        Seq::empty()
    } else {
        seq![(role, names)]
    }
}

fn push_role_group(
    table: &mut Vec<(TitlePageContributorRole, Vec<String>)>,
    role: TitlePageContributorRole,
    names: &Vec<String>,
)
    ensures
        final(table).deep_view() == old(table).deep_view() + role_group(role, names.deep_view()),
{
    if names.len() > 0 {
        let copy = copy_names(names);
        table.push((role, copy));
        proof {
            broadcast use group_views;

            assert(names.deep_view().len() == names.len());
            assert(table.deep_view() =~= old(table).deep_view() + seq![(role, names.deep_view())]);
        }
    } else {
        assert(names.deep_view().len() == 0);
        assert(table.deep_view() =~= old(table).deep_view() + Seq::empty());
    }
}

fn push_line(text: &mut String, x: &Option<String>)
    ensures
        final(text)@ == old(text)@ + line_of(x.deep_view()),
{
    match x {
        Some(s) => {
            text.append(s.as_str());
            text.append("  \n");
            assert(text@ =~= old(text)@ + line_of(x.deep_view()));
        },
        None => {
            assert(text@ =~= old(text)@ + line_of(x.deep_view()));
        },
    }
}

fn with_introduction(intro: &str, x: &Option<String>) -> (r: Option<String>)
    ensures
        r.deep_view() == introduced(intro@, x.deep_view()),
{
    match x {
        Some(s) => {
            let mut out = String::from_str(intro);
            out.append(s.as_str());
            Some(out)
        },
        None => None,
    }
}

fn isbn_line_of(isbn: &Option<String>, edition: &str) -> (r: Option<String>)
    ensures
        r.deep_view() == isbn_line(isbn.deep_view(), edition@),
{
    match isbn {
        Some(i) => match display_isbn(i.as_str(), Some(edition)) {
            Ok(d) => Some(d),
            Err(_) => None,
        },
        None => None,
    }
}

impl Metadata {
    /// The metadata of a book of which only the title is known.
    pub fn new(title: &str) -> (r: Metadata)
        ensures
            r.deep_view() == titled(title@),
    {
        let r = Metadata {
            do_not_assert_moral_rights: false,
            is_not_first_publication: false,
            title: String::from_str(title),
            shorttitle: None,
            subtitle: None,
            authors: Vec::new(),
            editors: Vec::new(),
            translators: Vec::new(),
            foreword_authors: Vec::new(),
            introduction_authors: Vec::new(),
            afterword_authors: Vec::new(),
            introduction_and_notes_authors: Vec::new(),
            cover_designer: None,
            author_photo_copyright_holder: None,
            paperback_isbn: None,
            hardback_isbn: None,
            epub_isbn: None,
            publisher_name: None,
            publisher_address: None,
            publisher_url: None,
            print_loc: None,
            copyright_statement: None,
        };
        proof {
            broadcast use group_views;

            assert(r.authors.deep_view() =~= Seq::empty());
            assert(r.editors.deep_view() =~= Seq::empty());
            assert(r.translators.deep_view() =~= Seq::empty());
            assert(r.foreword_authors.deep_view() =~= Seq::empty());
            assert(r.introduction_authors.deep_view() =~= Seq::empty());
            assert(r.afterword_authors.deep_view() =~= Seq::empty());
            assert(r.introduction_and_notes_authors.deep_view() =~= Seq::empty());
        }
        r
    }

    /// The short title, or the full title where none was set.
    pub fn get_short_title(&self) -> (r: &str)
        ensures
            r@ == self.deep_view().short_title(),
    {
        match &self.shorttitle {
            Some(s) => s.as_str(),
            None => self.title.as_str(),
        }
    }

    /// The subtitle, if there is one.
    pub fn get_subtitle(&self) -> (r: Option<&str>)
        ensures
            r.deep_view() == self.deep_view().subtitle,
    {
        match &self.subtitle {
            Some(s) => Some(s.as_str()),
            None => None,
        }
    }

    /// The title.
    pub fn get_title(&self) -> (r: &str)
        ensures
            r@ == self.deep_view().title,
    {
        self.title.as_str()
    }

    /// Whether nobody but the author wrote an introduction.
    pub fn has_no_introduction_authors(&self) -> (r: bool)
        ensures
            r == self.deep_view().no_introduction_authors(),
    {
        assert(self.introduction_authors.deep_view().len() == self.introduction_authors.len());
        assert(self.introduction_and_notes_authors.deep_view().len()
            == self.introduction_and_notes_authors.len());
        self.introduction_authors.len() == 0 && self.introduction_and_notes_authors.len() == 0
    }

    /// All authors in one text, separated by commas; nothing when there is
    /// no author.
    pub fn get_authors(&self) -> (r: Option<String>)
        ensures
            r.deep_view() == self.deep_view().authors_text(),
    {
        let n = self.authors.len();
        assert(self.authors.deep_view().len() == n);
        if n == 0 {
            None
        } else {
            let joined = join_first(&self.authors, n, ", ");
            assert(self.authors.deep_view().take(n as int) =~= self.authors.deep_view());
            Some(joined)
        }
    }

    /// All authors in capitals, in the form `A, B and C`.
    pub fn uppercased_authors(&self) -> (r: Option<String>)
        ensures
            r.deep_view() == self.deep_view().authors_in_capitals(),
    {
        let n = self.authors.len();
        let authors = uppercase_all(&self.authors);
        let ghost upper = all_uppercase(self.authors.deep_view());
        assert(authors.deep_view().len() == authors.len());
        if n == 0 {
            None
        } else if n == 1 {
            Some(authors[0].clone())
        } else {
            let mut out = join_first(&authors, n - 1, ", ");
            assert(upper.take(n - 1) =~= upper.drop_last());
            out.append(" and ");
            out.append(authors[n - 1].as_str());
            Some(out)
        }
    }

    /// The rights block of the copyright page.
    fn rights_text(&self, year: &str) -> (r: String)
        ensures
            r@ == self.deep_view().rights_block(year@),
    {
        let ghost m = self.deep_view();
        let copyright_statement = match &self.copyright_statement {
            Some(s) => Some(s.clone()),
            None => match self.get_authors() {
                Some(authors) => {
                    let mut c = String::from_str("Copyright © ");
                    c.append(year);
                    c.append(" ");
                    c.append(authors.as_str());
                    Some(c)
                },
                None => None,
            },
        };
        assert(copyright_statement.deep_view() == m.copyright_line(year@));
        let mut text = String::new();
        push_line(&mut text, &copyright_statement);
        assert(text@ =~= line_of(m.copyright_line(year@)));
        assert(self.authors.deep_view().len() == self.authors.len());
        if !self.do_not_assert_moral_rights {
            if self.authors.len() == 0 {
            } else if self.authors.len() == 1 {
                text.append("The author's moral rights have been asserted");
                text.append("  \n");
            } else {
                text.append("The moral rights of the authors have been asserted");
                text.append("  \n");
            }
        }
        assert(text@ =~= line_of(m.copyright_line(year@)) + m.moral_rights_line());
        if !text.as_str().is_empty() {
            text.append("\n\n* * *\n\n");
        }
        text
    }

    /// When and by whom the book was published.
    fn publication_text(&self, year: &str) -> (r: String)
        ensures
            r@ == self.deep_view().publication_line(year@),
    {
        let mut text = String::new();
        if self.is_not_first_publication {
            text.append("This edition published ");
        } else {
            text.append("First published ");
        }
        text.append(year);
        match &self.publisher_name {
            Some(p) => {
                text.append(" by ");
                text.append(p.as_str());
            },
            None => {},
        }
        assert(text@ =~= self.deep_view().publication_line(year@));
        text
    }

    /// The publisher's address and url.
    fn publisher_text(&self) -> (r: String)
        ensures
            r@ == self.deep_view().publisher_lines(),
    {
        let mut text = String::new();
        match &self.publisher_address {
            Some(a) => {
                text.append(a.as_str());
                if self.publisher_url.is_some() {
                    text.append("  \n");
                }
            },
            None => {},
        }
        match &self.publisher_url {
            Some(u) => {
                text.append("```");
                text.append(u.as_str());
                text.append("```");
            },
            None => {},
        }
        assert(text@ =~= self.deep_view().publisher_lines());
        text
    }

    /// ISBNs, cover designer and photograph credit, one line each.
    fn credit_text(&self) -> (r: String)
        ensures
            r@ == self.deep_view().credit_lines(),
    {
        let cover_designer = with_introduction("Cover design by ", &self.cover_designer);
        let photo = with_introduction("Author photo © ", &self.author_photo_copyright_holder);
        let epub_isbn = isbn_line_of(&self.epub_isbn, "epub");
        let hardback_isbn = isbn_line_of(&self.hardback_isbn, "hardback");
        let paperback_isbn = isbn_line_of(&self.paperback_isbn, "paperback");
        let mut text = String::new();
        push_line(&mut text, &epub_isbn);
        push_line(&mut text, &hardback_isbn);
        push_line(&mut text, &paperback_isbn);
        push_line(&mut text, &cover_designer);
        push_line(&mut text, &photo);
        assert(text@ =~= self.deep_view().credit_lines());
        text
    }

    /// The text of the copyright page for a book published in `year`.
    pub fn get_copyright_page_text(&self, year: &str) -> (r: String)
        ensures
            r@ == self.deep_view().copyright_page_text(year@),
    {
        let mut text = self.rights_text(year);
        let publication = self.publication_text(year);
        let publisher = self.publisher_text();
        let credits = self.credit_text();
        text.append(publication.as_str());
        text.append("  \n");
        text.append(publisher.as_str());
        text.append("\n\n* * *\n\n");
        text.append(credits.as_str());
        let mut text = strip_suffix(text, "  \n");
        match &self.print_loc {
            Some(p) => {
                if !crate::text::ends_with(text.as_str(), "*\n\n") {
                    text.append("\n\n* * *\n\n");
                }
                text.append("Printed in ");
                text.append(p.as_str());
            },
            None => {},
        }
        strip_suffix(text, "\n\n* * *\n\n")
    }

    /// The contributors that the titlepage names, by role.
    pub fn get_titlepage_contributors(&self) -> (r: Vec<(TitlePageContributorRole, Vec<String>)>)
        ensures
            r.deep_view() == self.deep_view().titlepage_contributors(),
    {
        let mut contributors: Vec<(TitlePageContributorRole, Vec<String>)> = Vec::new();
        proof {
            broadcast use group_views;

            assert(contributors.deep_view() =~= Seq::empty());
        }
        push_role_group(&mut contributors, TitlePageContributorRole::Author, &self.authors);
        push_role_group(&mut contributors, TitlePageContributorRole::Editor, &self.editors);
        push_role_group(&mut contributors, TitlePageContributorRole::Translator, &self.translators);
        push_role_group(
            &mut contributors,
            TitlePageContributorRole::ForewordAuthor,
            &self.foreword_authors,
        );
        push_role_group(
            &mut contributors,
            TitlePageContributorRole::AfterwordAuthor,
            &self.afterword_authors,
        );
        push_role_group(
            &mut contributors,
            TitlePageContributorRole::IntroductionAuthor,
            &self.introduction_authors,
        );
        push_role_group(
            &mut contributors,
            TitlePageContributorRole::IntroductionAndNotesAuthor,
            &self.introduction_and_notes_authors,
        );
        assert(contributors.deep_view() =~= self.deep_view().titlepage_contributors());
        contributors
    }
}

impl Metadata {
    /// Adds an author or authors.
    pub fn author<A: ContributorSource>(&mut self, name: A)
        ensures
            final(self).deep_view() == (MetadataView {
                authors: old(self).deep_view().authors + name.names(),
                ..old(self).deep_view()
            }),
    {
        proof {
            broadcast use group_views;

        }
        if name.is_single_name() {
            let single = name.to_single();
            match single {
                Some(n) => {
                    self.authors.push(n);
                    assert(self.authors.deep_view() =~= old(self).authors.deep_view() + name.names());
                },
                None => {},
            }
        } else {
            let mut names = name.to_vec();
            self.authors.append(&mut names);
        }
    }

    /// Adds a translator or translators.
    pub fn translator<A: ContributorSource>(&mut self, name: A)
        ensures
            final(self).deep_view() == (MetadataView {
                translators: old(self).deep_view().translators + name.names(),
                ..old(self).deep_view()
            }),
    {
        proof {
            broadcast use group_views;

        }
        if name.is_single_name() {
            let single = name.to_single();
            match single {
                Some(n) => {
                    self.translators.push(n);
                    assert(self.translators.deep_view() =~= old(self).translators.deep_view() + name.names());
                },
                None => {},
            }
        } else {
            let mut names = name.to_vec();
            self.translators.append(&mut names);
        }
    }

    /// Adds an editor or editors.
    pub fn editor<A: ContributorSource>(&mut self, name: A)
        ensures
            final(self).deep_view() == (MetadataView {
                editors: old(self).deep_view().editors + name.names(),
                ..old(self).deep_view()
            }),
    {
        proof {
            broadcast use group_views;

        }
        if name.is_single_name() {
            let single = name.to_single();
            match single {
                Some(n) => {
                    self.editors.push(n);
                    assert(self.editors.deep_view() =~= old(self).editors.deep_view() + name.names());
                },
                None => {},
            }
        } else {
            let mut names = name.to_vec();
            self.editors.append(&mut names);
        }
    }

    /// Names the cover designer.
    pub fn cover_designer(&mut self, value: &str)
        ensures
            final(self).deep_view() == (MetadataView {
                cover_designer: Some(value@),
                ..old(self).deep_view()
            }),
    {
        self.cover_designer = Some(String::from_str(value));
    }

    /// Sets the short title, used where the full title would be too long.
    pub fn shorttitle(&mut self, value: &str)
        ensures
            final(self).deep_view() == (MetadataView {
                shorttitle: Some(value@),
                ..old(self).deep_view()
            }),
    {
        self.shorttitle = Some(String::from_str(value));
    }

    /// Sets the subtitle.
    pub fn subtitle(&mut self, value: &str)
        ensures
            final(self).deep_view() == (MetadataView {
                subtitle: Some(value@),
                ..old(self).deep_view()
            }),
    {
        self.subtitle = Some(String::from_str(value));
    }

    /// Names the copyright holder of the author photograph.
    pub fn author_photo_copyright_holder(&mut self, value: &str)
        ensures
            final(self).deep_view() == (MetadataView {
                author_photo_copyright_holder: Some(value@),
                ..old(self).deep_view()
            }),
    {
        self.author_photo_copyright_holder = Some(String::from_str(value));
    }

    /// Sets the ISBN of the paperback edition.
    pub fn paperback_isbn(&mut self, value: &str)
        ensures
            final(self).deep_view() == (MetadataView {
                paperback_isbn: Some(value@),
                ..old(self).deep_view()
            }),
    {
        self.paperback_isbn = Some(String::from_str(value));
    }

    /// Sets the ISBN of the hardback edition.
    pub fn hardback_isbn(&mut self, value: &str)
        ensures
            final(self).deep_view() == (MetadataView {
                hardback_isbn: Some(value@),
                ..old(self).deep_view()
            }),
    {
        self.hardback_isbn = Some(String::from_str(value));
    }

    /// Sets the ISBN of the epub edition.
    pub fn epub_isbn(&mut self, value: &str)
        ensures
            final(self).deep_view() == (MetadataView {
                epub_isbn: Some(value@),
                ..old(self).deep_view()
            }),
    {
        self.epub_isbn = Some(String::from_str(value));
    }

    /// Names the publisher.
    pub fn publisher(&mut self, value: &str)
        ensures
            final(self).deep_view() == (MetadataView {
                publisher_name: Some(value@),
                ..old(self).deep_view()
            }),
    {
        self.publisher_name = Some(String::from_str(value));
    }

    /// Sets the address of the publisher.
    pub fn publisher_address(&mut self, value: &str)
        ensures
            final(self).deep_view() == (MetadataView {
                publisher_address: Some(value@),
                ..old(self).deep_view()
            }),
    {
        self.publisher_address = Some(String::from_str(value));
    }

    /// Sets the url of the publisher.
    pub fn publisher_url(&mut self, value: &str)
        ensures
            final(self).deep_view() == (MetadataView {
                publisher_url: Some(value@),
                ..old(self).deep_view()
            }),
    {
        self.publisher_url = Some(String::from_str(value));
    }

    /// States where the work is printed.
    pub fn print_location(&mut self, value: &str)
        ensures
            final(self).deep_view() == (MetadataView {
                print_loc: Some(value@),
                ..old(self).deep_view()
            }),
    {
        self.print_loc = Some(String::from_str(value));
    }

    /// Sets a copyright statement in place of the generated one.
    pub fn copyright_statement(&mut self, value: &str)
        ensures
            final(self).deep_view() == (MetadataView {
                copyright_statement: Some(value@),
                ..old(self).deep_view()
            }),
    {
        self.copyright_statement = Some(String::from_str(value));
    }

    /// Leaves the assertion of moral rights off the copyright page.
    pub fn do_not_assert_moral_rights(&mut self)
        ensures
            final(self).deep_view() == (MetadataView {
                do_not_assert_moral_rights: true,
                ..old(self).deep_view()
            }),
    {
        self.do_not_assert_moral_rights = true;
    }

    /// Marks this as a later edition.
    pub fn is_not_first_publication(&mut self)
        ensures
            final(self).deep_view() == (MetadataView {
                is_not_first_publication: true,
                ..old(self).deep_view()
            }),
    {
        self.is_not_first_publication = true;
    }

    /// Adds the authors of a foreword.
    pub fn add_foreword_authors(&mut self, names: Vec<String>)
        ensures
            final(self).deep_view() == (MetadataView {
                foreword_authors: old(self).deep_view().foreword_authors + names.deep_view(),
                ..old(self).deep_view()
            }),
    {
        proof {
            broadcast use group_views;

        }
        let mut names = names;
        self.foreword_authors.append(&mut names);
    }

    /// Adds the authors of an afterword.
    pub fn add_afterword_authors(&mut self, names: Vec<String>)
        ensures
            final(self).deep_view() == (MetadataView {
                afterword_authors: old(self).deep_view().afterword_authors + names.deep_view(),
                ..old(self).deep_view()
            }),
    {
        proof {
            broadcast use group_views;

        }
        let mut names = names;
        self.afterword_authors.append(&mut names);
    }

    /// Adds the authors of an introduction.
    pub fn add_introduction_authors(&mut self, names: Vec<String>)
        ensures
            final(self).deep_view() == (MetadataView {
                introduction_authors: old(self).deep_view().introduction_authors + names.deep_view(),
                ..old(self).deep_view()
            }),
    {
        proof {
            broadcast use group_views;

        }
        let mut names = names;
        self.introduction_authors.append(&mut names);
    }
}

impl Clone for Metadata {
    fn clone(&self) -> (r: Self)
        ensures
            r.deep_view() == self.deep_view(),
    {
        Metadata {
            do_not_assert_moral_rights: self.do_not_assert_moral_rights,
            is_not_first_publication: self.is_not_first_publication,
            title: owned(self.title.as_str()),
            shorttitle: copy_text(&self.shorttitle),
            subtitle: copy_text(&self.subtitle),
            authors: copy_names(&self.authors),
            editors: copy_names(&self.editors),
            translators: copy_names(&self.translators),
            foreword_authors: copy_names(&self.foreword_authors),
            introduction_authors: copy_names(&self.introduction_authors),
            afterword_authors: copy_names(&self.afterword_authors),
            introduction_and_notes_authors: copy_names(&self.introduction_and_notes_authors),
            cover_designer: copy_text(&self.cover_designer),
            author_photo_copyright_holder: copy_text(&self.author_photo_copyright_holder),
            paperback_isbn: copy_text(&self.paperback_isbn),
            hardback_isbn: copy_text(&self.hardback_isbn),
            epub_isbn: copy_text(&self.epub_isbn),
            publisher_name: copy_text(&self.publisher_name),
            publisher_address: copy_text(&self.publisher_address),
            publisher_url: copy_text(&self.publisher_url),
            print_loc: copy_text(&self.print_loc),
            copyright_statement: copy_text(&self.copyright_statement),
        }
    }
}

} // verus!
