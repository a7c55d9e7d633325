//! Language tags: a tag is read subtag by subtag, each in the place that
//! the subtags before it leave open, and written in its usual case.

use crate::text::{chars_of, string_of};
use vstd::prelude::*;

verus! {

/// How far the reading of a tag has come.
#[derive(Debug, PartialEq, Eq, Structural, Clone, Copy)]
pub enum TagState {
    Start,
    AfterLanguage,
    AfterExtLang,
    AfterScript,
    AfterRegion,
    InExtension { expected: bool },
    InPrivateUse { expected: bool },
}

/// Whether a character is a letter of the basic alphabet.
pub open spec fn is_letter(c: char) -> bool {
    'a' <= c <= 'z' || 'A' <= c <= 'Z'
}

/// Whether a character is a digit.
pub open spec fn is_numeral(c: char) -> bool {
    '0' <= c <= '9'
}

/// Whether every character of a text is a letter.
pub open spec fn all_letters(t: Seq<char>) -> bool {
    forall|i: int| 0 <= i < t.len() ==> is_letter(#[trigger] t[i])
}

/// Whether every character of a text is a digit.
pub open spec fn all_numerals(t: Seq<char>) -> bool {
    forall|i: int| 0 <= i < t.len() ==> is_numeral(#[trigger] t[i])
}

/// Whether every character of a text is a letter or a digit.
pub open spec fn all_letters_or_numerals(t: Seq<char>) -> bool {
    forall|i: int| 0 <= i < t.len() ==> is_letter(#[trigger] t[i]) || is_numeral(t[i])
}

/// A letter as a small letter; any other character as it is.
pub open spec fn small(c: char) -> char {
    if 'A' <= c <= 'Z' {
        ((c as u8) + 32u8) as char
    } else {
        c
    }
}

/// A letter as a capital; any other character as it is.
pub open spec fn capital(c: char) -> char {
    if 'a' <= c <= 'z' {
        ((c as u8) - 32u8) as char
    } else {
        c
    }
}

/// A text in small letters.
pub open spec fn in_small(t: Seq<char>) -> Seq<char> {
    Seq::new(t.len(), |i: int| small(t[i]))
}

/// A text in capitals.
pub open spec fn in_capital(t: Seq<char>) -> Seq<char> {
    Seq::new(t.len(), |i: int| capital(t[i]))
}

/// A text with a capital first and small letters behind it.
pub open spec fn with_initial(t: Seq<char>) -> Seq<char> {
    Seq::new(t.len(), |i: int| if i == 0 { capital(t[i]) } else { small(t[i]) })
}

/// What has been read of a tag: where the reading stands, how many
/// extended language subtags there were, and the tag as written so far.
pub struct Progress {
    pub state: TagState,
    pub extlangs: nat,
    pub text: Seq<char>,
}

/// Whether a script may follow.
pub open spec fn before_script(s: TagState) -> bool {
    s == TagState::AfterLanguage || s == TagState::AfterExtLang
}

/// Whether a region may follow.
pub open spec fn before_region(s: TagState) -> bool {
    before_script(s) || s == TagState::AfterScript
}

/// Whether a variant may follow.
pub open spec fn before_variant(s: TagState) -> bool {
    before_region(s) || s == TagState::AfterRegion
}

/// Whether a subtag has the shape of a region: two letters or three
/// digits.
pub open spec fn region_shaped(t: Seq<char>) -> bool {
    t.len() == 2 && all_letters(t) || t.len() == 3 && all_numerals(t)
}

/// Whether a subtag has the shape of a variant: letters and digits, five
/// or more behind a letter or four or more behind a digit.
pub open spec fn variant_shaped(t: Seq<char>) -> bool {
    all_letters_or_numerals(t) && (t.len() >= 5 && is_letter(t[0]) || t.len() >= 4 && is_numeral(
        t[0],
    ))
}

/// The progress after one more subtag, or `None` where the subtag cannot
/// stand in its place.
pub open spec fn tag_step(p: Progress, t: Seq<char>) -> Option<Progress> {
    if t.len() == 0 || t.len() > 8 {
        None
    } else if p.state == TagState::Start {
        if t.len() < 2 || !all_letters(t) {
            None
        } else {
            Some(
                Progress {
                    state: if t.len() < 4 {
                        TagState::AfterLanguage
                    } else {
                        TagState::AfterExtLang
                    },
                    text: p.text + in_small(t),
                    ..p
                },
            )
        }
    } else if p.state is InPrivateUse {
        if !all_letters_or_numerals(t) {
            None
        } else {
            Some(
                Progress {
                    state: TagState::InPrivateUse { expected: false },
                    text: p.text + seq!['-'] + in_small(t),
                    ..p
                },
            )
        }
    } else if t == seq!['x'] || t == seq!['X'] {
        if p.state == (TagState::InExtension { expected: true }) {
            None
        } else {
            Some(
                Progress {
                    state: TagState::InPrivateUse { expected: true },
                    text: p.text + seq!['-', 'x'],
                    ..p
                },
            )
        }
    } else if t.len() == 1 && all_letters_or_numerals(t) {
        if p.state == (TagState::InExtension { expected: true }) {
            None
        } else {
            Some(
                Progress {
                    state: TagState::InExtension { expected: true },
                    text: p.text + seq!['-', small(t[0])],
                    ..p
                },
            )
        }
    } else if p.state is InExtension {
        if !all_letters_or_numerals(t) {
            None
        } else {
            Some(
                Progress {
                    state: TagState::InExtension { expected: false },
                    text: p.text + seq!['-'] + in_small(t),
                    ..p
                },
            )
        }
    } else if p.state == TagState::AfterLanguage && t.len() == 3 && all_letters(t) {
        if p.extlangs + 1 > 3 {
            None
        } else {
            Some(Progress { extlangs: p.extlangs + 1, text: p.text + seq!['-'] + in_small(t), ..p })
        }
    } else if before_script(p.state) && t.len() == 4 && all_letters(t) {
        Some(
            Progress {
                state: TagState::AfterScript,
                text: p.text + seq!['-'] + with_initial(t),
                ..p
            },
        )
    } else if before_region(p.state) && region_shaped(t) {
        Some(
            Progress { state: TagState::AfterRegion, text: p.text + seq!['-'] + in_capital(t), ..p },
        )
    } else if before_variant(p.state) && variant_shaped(t) {
        Some(Progress { state: TagState::AfterRegion, text: p.text + seq!['-'] + in_small(t), ..p })
    } else {
        None
    }
}

/// The subtags of a tag: what stands between its hyphens.
pub open spec fn subtags(s: Seq<char>) -> Seq<Seq<char>>
    decreases s.len(),
{
    if s.len() == 0 {
        seq![Seq::empty()]
    } else if s.last() == '-' {
        subtags(s.drop_last()).push(Seq::empty())
    } else {
        let before = subtags(s.drop_last());
        before.drop_last().push(before.last().push(s.last()))
    }
}

/// The progress after the first `n` subtags, or `None` where one of them
/// cannot stand in its place.
pub open spec fn tag_fold(tags: Seq<Seq<char>>, n: int) -> Option<Progress>
    decreases n,
{
    if n <= 0 {
        Some(Progress { state: TagState::Start, extlangs: 0, text: Seq::empty() })
    } else {
        match tag_fold(tags, n - 1) {
            Some(p) => tag_step(p, tags[n - 1]),
            None => None,
        }
    }
}

/// Whether a tag may end here: not where an extension or a private use
/// has only begun.
pub open spec fn may_end(s: TagState) -> bool {
    s != (TagState::InExtension { expected: true }) && s != (TagState::InPrivateUse {
        expected: true,
    })
}

/// A language tag in its usual case, or `None` where the text is no
/// language tag.
pub open spec fn lang_tag(s: Seq<char>) -> Option<Seq<char>> {
    match tag_fold(subtags(s), subtags(s).len() as int) {
        Some(p) => if may_end(p.state) {
            Some(p.text)
        } else {
            None
        },
        None => None,
    }
}

/// There is always a last subtag.
pub proof fn lemma_subtags_nonempty(s: Seq<char>)
    ensures
        subtags(s).len() > 0,
    decreases s.len(),
{
    if s.len() > 0 {
        lemma_subtags_nonempty(s.drop_last());
    }
}

fn is_ascii_letter(c: char) -> (r: bool)
    ensures
        r == is_letter(c),
{
    ('a' <= c && c <= 'z') || ('A' <= c && c <= 'Z')
}

fn is_ascii_numeral(c: char) -> (r: bool)
    ensures
        r == is_numeral(c),
{
    '0' <= c && c <= '9'
}

fn is_alphabetic(t: &Vec<char>) -> (r: bool)
    ensures
        r == all_letters(t@),
{
    let mut i: usize = 0;
    while i < t.len()
        invariant
            i <= t.len(),
            forall|j: int| 0 <= j < i ==> is_letter(#[trigger] t@[j]),
        decreases t.len() - i,
    {
        if !is_ascii_letter(t[i]) {
            return false;
        }
        i += 1;
    }
    true
}

fn is_numeric(t: &Vec<char>) -> (r: bool)
    ensures
        r == all_numerals(t@),
{
    let mut i: usize = 0;
    while i < t.len()
        invariant
            i <= t.len(),
            forall|j: int| 0 <= j < i ==> is_numeral(#[trigger] t@[j]),
        decreases t.len() - i,
    {
        if !is_ascii_numeral(t[i]) {
            return false;
        }
        i += 1;
    }
    true
}

fn is_alphanumeric(t: &Vec<char>) -> (r: bool)
    ensures
        r == all_letters_or_numerals(t@),
{
    let mut i: usize = 0;
    while i < t.len()
        invariant
            i <= t.len(),
            forall|j: int| 0 <= j < i ==> is_letter(#[trigger] t@[j]) || is_numeral(t@[j]),
        decreases t.len() - i,
    {
        if !is_ascii_letter(t[i]) && !is_ascii_numeral(t[i]) {
            return false;
        }
        i += 1;
    }
    true
}

fn to_small(c: char) -> (r: char)
    ensures
        r == small(c),
{
    if 'A' <= c && c <= 'Z' {
        ((c as u8) + 32u8) as char
    } else {
        c
    }
}

fn to_capital(c: char) -> (r: char)
    ensures
        r == capital(c),
{
    if 'a' <= c && c <= 'z' {
        ((c as u8) - 32u8) as char
    } else {
        c
    }
}

fn to_lowercase(out: &mut Vec<char>, t: &Vec<char>)
    ensures
        final(out)@ == old(out)@ + in_small(t@),
{
    let mut i: usize = 0;
    assert(out@ =~= old(out)@ + in_small(t@).take(0));
    while i < t.len()
        invariant
            i <= t.len(),
            out@ == old(out)@ + in_small(t@).take(i as int),
        decreases t.len() - i,
    {
        out.push(to_small(t[i]));
        assert(out@ =~= old(out)@ + in_small(t@).take(i + 1));
        i += 1;
    }
    assert(in_small(t@).take(t.len() as int) =~= in_small(t@));
}

fn to_uppercase(out: &mut Vec<char>, t: &Vec<char>)
    ensures
        final(out)@ == old(out)@ + in_capital(t@),
{
    let mut i: usize = 0;
    assert(out@ =~= old(out)@ + in_capital(t@).take(0));
    while i < t.len()
        invariant
            i <= t.len(),
            out@ == old(out)@ + in_capital(t@).take(i as int),
        decreases t.len() - i,
    {
        out.push(to_capital(t[i]));
        assert(out@ =~= old(out)@ + in_capital(t@).take(i + 1));
        i += 1;
    }
    assert(in_capital(t@).take(t.len() as int) =~= in_capital(t@));
}

fn to_uppercase_first(out: &mut Vec<char>, t: &Vec<char>)
    ensures
        final(out)@ == old(out)@ + with_initial(t@),
{
    let mut i: usize = 0;
    assert(out@ =~= old(out)@ + with_initial(t@).take(0));
    while i < t.len()
        invariant
            i <= t.len(),
            out@ == old(out)@ + with_initial(t@).take(i as int),
        decreases t.len() - i,
    {
        if i == 0 {
            out.push(to_capital(t[i]));
        } else {
            out.push(to_small(t[i]));
        }
        assert(out@ =~= old(out)@ + with_initial(t@).take(i + 1));
        i += 1;
    }
    assert(with_initial(t@).take(t.len() as int) =~= with_initial(t@));
}

/// A tag as far as it has been read.
pub struct TagReader {
    pub state: TagState,
    pub extlangs_count: usize,
    pub serialization: Vec<char>,
}

impl View for TagReader {
    type V = Progress;

    open spec fn view(&self) -> Progress {
        Progress {
            state: self.state,
            extlangs: self.extlangs_count as nat,
            text: self.serialization@,
        }
    }
}

impl TagReader {
    /// A reader at the start of a tag.
    pub fn new() -> (r: Self)
        ensures
            r@ == (Progress { state: TagState::Start, extlangs: 0, text: Seq::empty() }),
    {
        TagReader { state: TagState::Start, extlangs_count: 0, serialization: Vec::new() }
    }

    fn is_before_script(&self) -> (r: bool)
        ensures
            r == before_script(self.state),
    {
        self.state == TagState::AfterLanguage || self.state == TagState::AfterExtLang
    }

    fn is_before_region(&self) -> (r: bool)
        ensures
            r == before_region(self.state),
    {
        self.is_before_script() || self.state == TagState::AfterScript
    }

    fn is_before_variant(&self) -> (r: bool)
        ensures
            r == before_variant(self.state),
    {
        self.is_before_region() || self.state == TagState::AfterRegion
    }

    fn expects_extension(&self) -> (r: bool)
        ensures
            r == (self.state == (TagState::InExtension { expected: true })),
    {
        match self.state {
            TagState::InExtension { expected } => expected,
            _ => false,
        }
    }

    /// Reads the opening subtag or one of a private use, an extension or
    /// their beginning; `None` where the subtag is of another kind.
    fn read_marked(&mut self, subtag: &Vec<char>) -> (r: Option<bool>)
        requires
            0 < subtag@.len() <= 8,
            old(self).extlangs_count <= 3,
        ensures
            final(self).extlangs_count == old(self).extlangs_count,
            r is None ==> *final(self) == *old(self) && old(self).state != TagState::Start && !(old(
                self,
            ).state is InPrivateUse) && !(subtag@ == seq!['x'] || subtag@ == seq!['X']) && !(
            subtag@.len() == 1 && all_letters_or_numerals(subtag@)) && !(old(
                self,
            ).state is InExtension),
            r is Some ==> (r->0 <==> tag_step(old(self)@, subtag@) is Some),
            r == Some(true) ==> tag_step(old(self)@, subtag@) == Some(final(self)@),
    {
        if self.state == TagState::Start {
            if subtag.len() < 2 || !is_alphabetic(subtag) {
                return Some(false);
            }
            to_lowercase(&mut self.serialization, subtag);
            if subtag.len() < 4 {
                self.state = TagState::AfterLanguage;
            } else {
                self.state = TagState::AfterExtLang;
            }
            Some(true)
        } else if let TagState::InPrivateUse { .. } = self.state {
            if !is_alphanumeric(subtag) {
                return Some(false);
            }
            self.serialization.push('-');
            to_lowercase(&mut self.serialization, subtag);
            self.state = TagState::InPrivateUse { expected: false };
            assert(self.serialization@ =~= old(self).serialization@ + seq!['-'] + in_small(
                subtag@,
            ));
            Some(true)
        } else if subtag.len() == 1 && (subtag[0] == 'x' || subtag[0] == 'X') {
            assert(subtag@ =~= seq![subtag@[0]]);
            if self.expects_extension() {
                return Some(false);
            }
            self.serialization.push('-');
            self.serialization.push('x');
            self.state = TagState::InPrivateUse { expected: true };
            assert(self.serialization@ =~= old(self).serialization@ + seq!['-', 'x']);
            Some(true)
        } else if subtag.len() == 1 && is_alphanumeric(subtag) {
            assert(!(subtag@ == seq!['x'] || subtag@ == seq!['X']));
            if self.expects_extension() {
                return Some(false);
            }
            let extension_tag = to_small(subtag[0]);
            self.serialization.push('-');
            self.serialization.push(extension_tag);
            self.state = TagState::InExtension { expected: true };
            assert(self.serialization@ =~= old(self).serialization@ + seq![
                '-',
                small(subtag@[0]),
            ]);
            Some(true)
        } else if let TagState::InExtension { .. } = self.state {
            assert(!(subtag@ == seq!['x'] || subtag@ == seq!['X'])) by {
                if subtag@ == seq!['x'] || subtag@ == seq!['X'] {
                    assert(subtag@.len() == 1);
                }
            }
            if !is_alphanumeric(subtag) {
                return Some(false);
            }
            self.serialization.push('-');
            to_lowercase(&mut self.serialization, subtag);
            self.state = TagState::InExtension { expected: false };
            assert(self.serialization@ =~= old(self).serialization@ + seq!['-'] + in_small(
                subtag@,
            ));
            Some(true)
        } else {
            assert(!(subtag@ == seq!['x'] || subtag@ == seq!['X'])) by {
                if subtag@ == seq!['x'] || subtag@ == seq!['X'] {
                    assert(subtag@.len() == 1);
                }
            }
            None
        }
    }

    /// Reads a subtag of the language itself: an extended language, a
    /// script, a region or a variant.
    fn read_plain(&mut self, subtag: &Vec<char>) -> (r: bool)
        requires
            0 < subtag@.len() <= 8,
            old(self).extlangs_count <= 3,
            old(self).state != TagState::Start,
            !(old(self).state is InPrivateUse),
            !(subtag@ == seq!['x'] || subtag@ == seq!['X']),
            !(subtag@.len() == 1 && all_letters_or_numerals(subtag@)),
            !(old(self).state is InExtension),
        ensures
            final(self).extlangs_count <= 3,
            r <==> tag_step(old(self)@, subtag@) is Some,
            r ==> tag_step(old(self)@, subtag@) == Some(final(self)@),
    {
        if self.state == TagState::AfterLanguage && subtag.len() == 3 && is_alphabetic(subtag) {
            if self.extlangs_count + 1 > 3 {
                return false;
            }
            self.extlangs_count += 1;
            self.serialization.push('-');
            to_lowercase(&mut self.serialization, subtag);
            assert(self.serialization@ =~= old(self).serialization@ + seq!['-'] + in_small(
                subtag@,
            ));
            true
        } else if self.is_before_script() && subtag.len() == 4 && is_alphabetic(subtag) {
            self.serialization.push('-');
            to_uppercase_first(&mut self.serialization, subtag);
            self.state = TagState::AfterScript;
            assert(self.serialization@ =~= old(self).serialization@ + seq!['-'] + with_initial(
                subtag@,
            ));
            true
        } else if self.is_before_region() && (subtag.len() == 2 && is_alphabetic(subtag)
            || subtag.len() == 3 && is_numeric(subtag)) {
            self.serialization.push('-');
            to_uppercase(&mut self.serialization, subtag);
            self.state = TagState::AfterRegion;
            assert(self.serialization@ =~= old(self).serialization@ + seq!['-'] + in_capital(
                subtag@,
            ));
            true
        } else if self.is_before_variant() && is_alphanumeric(subtag) && (subtag.len() >= 5
            && is_ascii_letter(subtag[0]) || subtag.len() >= 4 && is_ascii_numeral(subtag[0])) {
            self.serialization.push('-');
            to_lowercase(&mut self.serialization, subtag);
            self.state = TagState::AfterRegion;
            assert(self.serialization@ =~= old(self).serialization@ + seq!['-'] + in_small(
                subtag@,
            ));
            true
        } else {
            false
        }
    }

    /// Reads one more subtag; says whether it can stand in its place.
    pub fn read(&mut self, subtag: &Vec<char>) -> (r: bool)
        requires
            old(self).extlangs_count <= 3,
        ensures
            final(self).extlangs_count <= 3,
            r <==> tag_step(old(self)@, subtag@) is Some,
            r ==> tag_step(old(self)@, subtag@) == Some(final(self)@),
    {
        if subtag.len() == 0 || subtag.len() > 8 {
            return false;
        }
        match self.read_marked(subtag) {
            Some(r) => r,
            None => self.read_plain(subtag),
        }
    }
}

/// Reads a language tag and writes it in its usual case: the language in
/// small letters, a script with a capital first, a region in capitals.
/// What is no language tag is refused.
pub fn parse_lang_tag(lang: &str) -> (r: Result<String, ()>)
    ensures
        match lang_tag(lang@) {
            Some(tag) => r is Ok && r->Ok_0@ == tag,
            None => r is Err,
        },
{
    let chars = chars_of(lang);
    let mut reader = TagReader::new();
    let mut valid = true;
    let mut subtag: Vec<char> = Vec::new();
    let ghost mut done: Seq<Seq<char>> = Seq::empty();
    let mut i: usize = 0;
    assert(chars@.take(0) =~= Seq::<char>::empty());
    assert(subtags(chars@.take(0)) =~= done.push(subtag@));
    while i < chars.len()
        invariant
            i <= chars.len(),
            chars@ == lang@,
            reader.extlangs_count <= 3,
            subtags(chars@.take(i as int)) == done.push(subtag@),
            valid ==> tag_fold(done, done.len() as int) == Some(reader@),
            !valid ==> tag_fold(done, done.len() as int) is None,
        decreases chars.len() - i,
    {
        let c = chars[i];
        proof {
            assert(chars@.take(i + 1).drop_last() =~= chars@.take(i as int));
            assert(chars@.take(i + 1).last() == c);
        }
        if c == '-' {
            let ghost before = done;
            proof {
                done = done.push(subtag@);
                assert(done.drop_last() =~= before);
                lemma_fold_prefix(before, done, before.len() as int);
            }
            if valid {
                valid = reader.read(&subtag);
            }
            subtag = Vec::new();
            assert(subtags(chars@.take(i + 1)) =~= done.push(subtag@));
        } else {
            let ghost last = subtag@;
            subtag.push(c);
            assert(done.push(last).drop_last() =~= done);
            assert(subtags(chars@.take(i + 1)) =~= done.push(subtag@));
        }
        i += 1;
    }
    assert(chars@.take(chars.len() as int) =~= chars@);
    proof {
        let all = done.push(subtag@);
        assert(all.drop_last() =~= done);
        lemma_fold_prefix(done, all, done.len() as int);
    }
    if valid {
        valid = reader.read(&subtag);
    }
    if !valid {
        return Err(());
    }
    match reader.state {
        TagState::InExtension { expected: true } => Err(()),
        TagState::InPrivateUse { expected: true } => Err(()),
        _ => Ok(string_of(&reader.serialization)),
    }
}

/// The progress over the first subtags is the same in a longer list.
pub proof fn lemma_fold_prefix(a: Seq<Seq<char>>, b: Seq<Seq<char>>, n: int)
    requires
        0 <= n <= a.len() <= b.len(),
        forall|i: int| 0 <= i < a.len() ==> a[i] == b[i],
    ensures
        tag_fold(a, n) == tag_fold(b, n),
    decreases n,
{
    if n > 0 {
        lemma_fold_prefix(a, b, n - 1);
    }
}

} // verus!
