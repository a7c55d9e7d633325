//! ISBN-13: reading the digits out of a text, checking the check digit, and
//! printing the number for a copyright page.

use crate::text::{starts_with, trim, trimmed_of};
use vstd::prelude::*;
use vstd::string::*;

verus! {

/// Whether a character is one of `0` to `9`.
pub open spec fn is_digit(c: char) -> bool {
    '0' <= c <= '9'
}

/// The value of a digit character.
pub open spec fn digit_value(c: char) -> u32 {
    (c as u32 - '0' as u32) as u32
}

/// The values of the digits of a text, in order; other characters are passed
/// over.
pub open spec fn digits_of(s: Seq<char>) -> Seq<u32>
    decreases s.len(),
{
    if s.len() == 0 {
        Seq::empty()
    } else if is_digit(s.last()) {
        digits_of(s.drop_last()).push(digit_value(s.last()))
    } else {
        digits_of(s.drop_last())
    }
}

/// The first `n` of `d`, or all of `d` when it has fewer.
pub open spec fn at_most(d: Seq<u32>, n: int) -> Seq<u32> {
    if d.len() <= n {
        d
    } else {
        d.take(n)
    }
}

/// The thirteen digits of an ISBN-13 as a text gives them: its first fifteen
/// digits are read; thirteen digits are the number, and fifteen are the
/// number when they begin with `13`.
pub open spec fn isbn_digits(s: Seq<char>) -> Option<Seq<u32>> {
    let d = at_most(digits_of(s), 15);
    if d.len() == 13 {
        Some(d)
    } else if d.len() == 15 && d[0] == 1 && d[1] == 3 {
        Some(d.skip(2))
    } else {
        None
    }
}

/// The sum of the first `n` digits, weighted 1, 3, 1, 3 and so on.
pub open spec fn weighted_sum(digits: Seq<u32>, n: int) -> int
    decreases n,
{
    if n <= 0 {
        0
    } else {
        weighted_sum(digits, n - 1) + digits[n - 1] * (if (n - 1) % 2 == 0 {
            1int
        } else {
            3int
        })
    }
}

/// The check digit that belongs to the first twelve digits.
pub open spec fn check_digit(digits: Seq<u32>) -> int {
    (10 - weighted_sum(digits, 12) % 10) % 10
}

/// Whether a text can be read as an ISBN-13 with a correct check digit.
pub open spec fn isbn_valid(s: Seq<char>) -> bool {
    match isbn_digits(s) {
        Some(d) => check_digit(d) == d[12],
        None => false,
    }
}

/// Every value in `digits_of` is below ten.
pub proof fn lemma_digits_small(s: Seq<char>)
    ensures
        forall|i: int| 0 <= i < digits_of(s).len() ==> #[trigger] digits_of(s)[i] <= 9,
    decreases s.len(),
{
    if s.len() > 0 {
        lemma_digits_small(s.drop_last());
        let before = digits_of(s.drop_last());
        if is_digit(s.last()) {
            assert(digit_value(s.last()) <= 9);
            assert forall|i: int| 0 <= i < digits_of(s).len() implies #[trigger] digits_of(
                s,
            )[i] <= 9 by {
                if i < before.len() {
                    assert(digits_of(s)[i] == before[i]);
                }
            }
        }
    }
}

/// Reads the thirteen digits of an ISBN-13 out of a text.
pub fn isbn_to_array(isbn: &str) -> (r: Result<[u32; 13], ()>)
    ensures
        match isbn_digits(isbn@) {
            Some(d) => r is Ok && r->Ok_0@ == d,
            None => r is Err,
        },
        r is Ok ==> forall|i: int| 0 <= i < 13 ==> #[trigger] r->Ok_0@[i] <= 9,
{
    let n = isbn.unicode_len();
    let mut digits: Vec<u32> = Vec::new();
    let mut i: usize = 0;
    while i < n
        invariant
            i <= n,
            n == isbn@.len(),
            digits@ == at_most(digits_of(isbn@.take(i as int)), 15),
        decreases n - i,
    {
        let c = isbn.get_char(i);
        proof {
            assert(isbn@.take(i + 1).drop_last() =~= isbn@.take(i as int));
            assert(isbn@.take(i + 1).last() == c);
        }
        if '0' <= c && c <= '9' {
            if digits.len() < 15 {
                digits.push(c as u32 - '0' as u32);
            }
            proof {
                let before = digits_of(isbn@.take(i as int));
                let after = before.push(digit_value(c));
                assert(digits_of(isbn@.take(i + 1)) == after);
                if before.len() >= 15 {
                    assert(after.take(15) =~= before.take(15));
                } else {
                    assert(at_most(after, 15) =~= after);
                }
            }
        }
        i += 1;
    }
    proof {
        assert(isbn@.take(n as int) =~= isbn@);
        lemma_digits_small(isbn@);
    }
    let mut arr: [u32; 13] = [0;13];
    if digits.len() == 13 {
        let mut k: usize = 0;
        while k < 13
            invariant
                k <= 13,
                digits.len() == 13,
                forall|j: int| 0 <= j < k ==> arr@[j] == digits@[j],
            decreases 13 - k,
        {
            arr[k] = digits[k];
            k += 1;
        }
        assert(arr@ =~= digits@);
        Ok(arr)
    } else if digits.len() == 15 {
        if !(digits[0] == 1 && digits[1] == 3) {
            return Err(());
        }
        let mut k: usize = 0;
        while k < 13
            invariant
                k <= 13,
                digits.len() == 15,
                forall|j: int| 0 <= j < k ==> arr@[j] == digits@[j + 2],
            decreases 13 - k,
        {
            arr[k] = digits[k + 2];
            k += 1;
        }
        assert(arr@ =~= digits@.skip(2));
        Ok(arr)
    } else {
        Err(())
    }
}

/// The check digit that belongs to the first twelve of `digits`.
pub fn calculate_check_digit(digits: &[u32]) -> (r: u32)
    requires
        digits@.len() >= 12,
        forall|i: int| 0 <= i < 12 ==> #[trigger] digits@[i] <= 9,
    ensures
        r == check_digit(digits@),
{
    let mut sum: u32 = 0;
    let mut i: usize = 0;
    while i < 12
        invariant
            i <= 12,
            digits@.len() >= 12,
            forall|j: int| 0 <= j < 12 ==> #[trigger] digits@[j] <= 9,
            sum == weighted_sum(digits@, i as int),
            sum <= 27 * i,
        decreases 12 - i,
    {
        let weight: u32 = if i % 2 == 0 {
            1
        } else {
            3
        };
        assert(digits@[i as int] <= 9);
        sum = sum + digits[i] * weight;
        i += 1;
    }
    (10 - (sum % 10)) % 10
}

/// Whether the last of thirteen digits is the check digit of the others.
pub fn validate_isbn_numeric(isbn: [u32; 13]) -> (r: bool)
    requires
        forall|i: int| 0 <= i < 13 ==> #[trigger] isbn@[i] <= 9,
    ensures
        r == (check_digit(isbn@) == isbn@[12]),
{
    let check = calculate_check_digit(isbn.as_slice());
    check == isbn[12]
}

/// Whether a text can be read as an ISBN-13: whatever stands between the
/// digits, there are thirteen of them, or fifteen that begin with `13`, and
/// the last is the check digit of the twelve before it.
pub fn validate_isbn(isbn: &str) -> (r: bool)
    ensures
        r == isbn_valid(isbn@),
{
    match isbn_to_array(isbn) {
        Ok(arr) => validate_isbn_numeric(arr),
        Err(_) => false,
    }
}

/// The index of the first digit of a text, or its length when it has none.
pub open spec fn first_digit(s: Seq<char>) -> int
    decreases s.len(),
{
    if s.len() == 0 {
        0
    } else if is_digit(s[0]) {
        0
    } else {
        1 + first_digit(s.drop_first())
    }
}

/// The number as it is printed: the text from its first digit on, without a
/// leading `13 ` and without surrounding whitespace.
pub open spec fn isbn_number_text(s: Seq<char>) -> Seq<char> {
    let from_digit = s.skip(first_digit(s));
    if "13 "@.is_prefix_of(from_digit) {
        trimmed_of(from_digit.skip(3))
    } else {
        trimmed_of(from_digit)
    }
}

/// The printed form of an ISBN, with the edition in brackets when one is
/// named.
pub open spec fn isbn_display(s: Seq<char>, suffix: Option<Seq<char>>) -> Seq<char> {
    match suffix {
        Some(x) => "ISBN-13: "@ + isbn_number_text(s) + " ("@ + x + ")"@,
        None => "ISBN-13: "@ + isbn_number_text(s),
    }
}

proof fn lemma_first_digit(s: Seq<char>)
    ensures
        0 <= first_digit(s) <= s.len(),
    decreases s.len(),
{
    if s.len() > 0 && !is_digit(s[0]) {
        lemma_first_digit(s.drop_first());
    }
}

proof fn lemma_first_digit_step(s: Seq<char>, k: int)
    requires
        0 <= k <= s.len(),
        forall|j: int| 0 <= j < k ==> !is_digit(#[trigger] s[j]),
        k < s.len() ==> is_digit(s[k]),
    ensures
        first_digit(s) == k,
    decreases s.len(),
{
    if s.len() > 0 && k > 0 {
        assert(!is_digit(s[0]));
        assert forall|j: int| 0 <= j < k - 1 implies !is_digit(#[trigger] s.drop_first()[j]) by {
            assert(s.drop_first()[j] == s[j + 1]);
        }
        if k < s.len() {
            assert(s.drop_first()[k - 1] == s[k]);
        }
        lemma_first_digit_step(s.drop_first(), k - 1);
    }
}

/// Prints a valid ISBN-13 for display; an invalid one is refused.
pub fn display_isbn(isbn: &str, suffix: Option<&str>) -> (r: Result<String, ()>)
    ensures
        isbn_valid(isbn@) ==> r is Ok && r->Ok_0@ == isbn_display(isbn@, suffix.deep_view()),
        !isbn_valid(isbn@) ==> r is Err,
{
    if !validate_isbn(isbn) {
        return Err(());
    }
    let n = isbn.unicode_len();
    let mut start: usize = 0;
    while start < n && !('0' <= isbn.get_char(start) && isbn.get_char(start) <= '9')
        invariant
            start <= n,
            n == isbn@.len(),
            forall|j: int| 0 <= j < start ==> !is_digit(#[trigger] isbn@[j]),
        decreases n - start,
    {
        start += 1;
    }
    proof {
        lemma_first_digit_step(isbn@, start as int);
    }
    let from_digit = isbn.substring_char(start, n);
    assert(from_digit@ =~= isbn@.skip(start as int));
    let m = n - start;
    let number = if starts_with(from_digit, "13 ") {
        proof {
            reveal_strlit("13 ");
        }
        let rest = from_digit.substring_char(3, m);
        assert(rest@ =~= from_digit@.skip(3));
        trim(rest)
    } else {
        trim(from_digit)
    };
    let mut out = String::from_str("ISBN-13: ");
    out.append(number);
    match suffix {
        Some(x) => {
            out.append(" (");
            out.append(x);
            out.append(")");
        },
        None => {},
    }
    Ok(out)
}

} // verus!
