//! The ordinal of a division as a letter, as a roman numeral and in words.

use vstd::prelude::*;
use vstd::string::*;

verus! {

/// The letter that stands for a number: `A` for 0, `B` for 1, up to `Z` for
/// 25; larger numbers have none.
pub fn number_to_letter(n: u8) -> (r: Result<char, ()>)
    ensures
        n <= 25 ==> r == Ok::<char, ()>((65 + n) as char),
        n > 25 ==> r is Err,
{
    if n > 25 {
        Err(())
    } else {
        let codepoint: u8 = 65 + n;
        Ok(codepoint as char)
    }
}

/// A number as a roman numeral, in capitals; zero has none.
pub open spec fn roman(n: nat) -> Seq<char>
    decreases n,
{
    if n >= 100 {
        "C"@ + roman((n - 100) as nat)
    } else if n >= 90 {
        "XC"@ + roman((n - 90) as nat)
    } else if n >= 50 {
        "L"@ + roman((n - 50) as nat)
    } else if n >= 40 {
        "XL"@ + roman((n - 40) as nat)
    } else if n >= 10 {
        "X"@ + roman((n - 10) as nat)
    } else if n >= 9 {
        "IX"@ + roman((n - 9) as nat)
    } else if n >= 5 {
        "V"@ + roman((n - 5) as nat)
    } else if n >= 4 {
        "IV"@ + roman((n - 4) as nat)
    } else if n >= 1 {
        "I"@ + roman((n - 1) as nat)
    } else {
        Seq::empty()
    }
}

/// A number as a roman numeral: `I` for 1, `X` for 10, nothing for 0.
pub fn number_to_roman(n: u8) -> (r: String)
    ensures
        r@ == roman(n as nat),
{
    let mut out = String::new();
    let mut rest: u8 = n;
    while rest > 0
        invariant
            out@ + roman(rest as nat) == roman(n as nat),
        decreases rest,
    {
        let ghost before = out@;
        let (symbol, value): (&'static str, u8) = if rest >= 100 {
            ("C", 100)
        } else if rest >= 90 {
            ("XC", 90)
        } else if rest >= 50 {
            ("L", 50)
        } else if rest >= 40 {
            ("XL", 40)
        } else if rest >= 10 {
            ("X", 10)
        } else if rest >= 9 {
            ("IX", 9)
        } else if rest >= 5 {
            ("V", 5)
        } else if rest >= 4 {
            ("IV", 4)
        } else {
            ("I", 1)
        };
        assert(roman(rest as nat) == symbol@ + roman((rest - value) as nat));
        out.append(symbol);
        rest = rest - value;
        assert(out@ + roman(rest as nat) =~= before + (symbol@ + roman(rest as nat)));
    }
    assert(out@ + Seq::<char>::empty() =~= out@);
    out
}

/// The word for a number below twenty.
pub open spec fn small_word(n: nat) -> Seq<char> {
    if n == 0 {
        "ZERO"@
    } else if n == 1 {
        "ONE"@
    } else if n == 2 {
        "TWO"@
    } else if n == 3 {
        "THREE"@
    } else if n == 4 {
        "FOUR"@
    } else if n == 5 {
        "FIVE"@
    } else if n == 6 {
        "SIX"@
    } else if n == 7 {
        "SEVEN"@
    } else if n == 8 {
        "EIGHT"@
    } else if n == 9 {
        "NINE"@
    } else if n == 10 {
        "TEN"@
    } else if n == 11 {
        "ELEVEN"@
    } else if n == 12 {
        "TWELVE"@
    } else if n == 13 {
        "THIRTEEN"@
    } else if n == 14 {
        "FOURTEEN"@
    } else if n == 15 {
        "FIFTEEN"@
    } else if n == 16 {
        "SIXTEEN"@
    } else if n == 17 {
        "SEVENTEEN"@
    } else if n == 18 {
        "EIGHTEEN"@
    } else {
        "NINETEEN"@
    }
}

/// The word for a multiple of ten from twenty to ninety, by its tens digit.
pub open spec fn tens_word(tens: nat) -> Seq<char> {
    if tens == 2 {
        "TWENTY"@
    } else if tens == 3 {
        "THIRTY"@
    } else if tens == 4 {
        "FORTY"@
    } else if tens == 5 {
        "FIFTY"@
    } else if tens == 6 {
        "SIXTY"@
    } else if tens == 7 {
        "SEVENTY"@
    } else if tens == 8 {
        "EIGHTY"@
    } else {
        "NINETY"@
    }
}

/// A number below a hundred in words: `TWENTY-FIVE`.
pub open spec fn words_below_hundred(n: nat) -> Seq<char> {
    if n < 20 {
        small_word(n)
    } else if n % 10 == 0 {
        tens_word(n / 10)
    } else {
        tens_word(n / 10) + "-"@ + small_word(n % 10)
    }
}

/// A number in words, in capitals: `ONE HUNDRED AND TWENTY-FIVE`.
pub open spec fn words(n: nat) -> Seq<char> {
    if n < 100 {
        words_below_hundred(n)
    } else if n % 100 == 0 {
        small_word(n / 100) + " HUNDRED"@
    } else {
        small_word(n / 100) + " HUNDRED AND "@ + words_below_hundred(n % 100)
    }
}

fn small_word_of(n: u8) -> (r: &'static str)
    requires
        n < 20,
    ensures
        r@ == small_word(n as nat),
{
    if n == 0 {
        "ZERO"
    } else if n == 1 {
        "ONE"
    } else if n == 2 {
        "TWO"
    } else if n == 3 {
        "THREE"
    } else if n == 4 {
        "FOUR"
    } else if n == 5 {
        "FIVE"
    } else if n == 6 {
        "SIX"
    } else if n == 7 {
        "SEVEN"
    } else if n == 8 {
        "EIGHT"
    } else if n == 9 {
        "NINE"
    } else if n == 10 {
        "TEN"
    } else if n == 11 {
        "ELEVEN"
    } else if n == 12 {
        "TWELVE"
    } else if n == 13 {
        "THIRTEEN"
    } else if n == 14 {
        "FOURTEEN"
    } else if n == 15 {
        "FIFTEEN"
    } else if n == 16 {
        "SIXTEEN"
    } else if n == 17 {
        "SEVENTEEN"
    } else if n == 18 {
        "EIGHTEEN"
    } else {
        "NINETEEN"
    }
}

fn tens_word_of(tens: u8) -> (r: &'static str)
    requires
        2 <= tens <= 9,
    ensures
        r@ == tens_word(tens as nat),
{
    if tens == 2 {
        "TWENTY"
    } else if tens == 3 {
        "THIRTY"
    } else if tens == 4 {
        "FORTY"
    } else if tens == 5 {
        "FIFTY"
    } else if tens == 6 {
        "SIXTY"
    } else if tens == 7 {
        "SEVENTY"
    } else if tens == 8 {
        "EIGHTY"
    } else {
        "NINETY"
    }
}

fn append_below_hundred(out: &mut String, n: u8)
    requires
        n < 100,
    ensures
        final(out)@ == old(out)@ + words_below_hundred(n as nat),
{
    if n < 20 {
        out.append(small_word_of(n));
    } else if n % 10 == 0 {
        out.append(tens_word_of(n / 10));
    } else {
        out.append(tens_word_of(n / 10));
        out.append("-");
        out.append(small_word_of(n % 10));
        assert(out@ =~= old(out)@ + words_below_hundred(n as nat));
    }
}

/// A number in words: `ZERO`, `TWELVE`, `ONE HUNDRED AND TWENTY-FIVE`.
pub fn number_to_words(n: u8) -> (r: String)
    ensures
        r@ == words(n as nat),
{
    let mut out = String::new();
    if n < 100 {
        append_below_hundred(&mut out, n);
    } else if n % 100 == 0 {
        out.append(small_word_of(n / 100));
        out.append(" HUNDRED");
    } else {
        out.append(small_word_of(n / 100));
        out.append(" HUNDRED AND ");
        append_below_hundred(&mut out, n % 100);
    }
    assert(out@ =~= words(n as nat));
    out
}

/// The character of a digit.
pub open spec fn digit_char(d: nat) -> char {
    if d == 0 {
        '0'
    } else if d == 1 {
        '1'
    } else if d == 2 {
        '2'
    } else if d == 3 {
        '3'
    } else if d == 4 {
        '4'
    } else if d == 5 {
        '5'
    } else if d == 6 {
        '6'
    } else if d == 7 {
        '7'
    } else if d == 8 {
        '8'
    } else {
        '9'
    }
}

/// A number in decimal digits.
pub open spec fn decimal(n: nat) -> Seq<char>
    decreases n,
{
    if n < 10 {
        seq![digit_char(n)]
    } else {
        decimal(n / 10).push(digit_char(n % 10))
    }
}

/// A number with its sign in decimal digits.
pub open spec fn signed_decimal(n: int) -> Seq<char> {
    if n < 0 {
        seq!['-'] + decimal((-n) as nat)
    } else {
        decimal(n as nat)
    }
}

pub(crate) fn digit_text(d: u128) -> (r: &'static str)
    requires
        d < 10,
    ensures
        r@ == seq![digit_char(d as nat)],
{
    proof {
        reveal_strlit("0");
        reveal_strlit("1");
        reveal_strlit("2");
        reveal_strlit("3");
        reveal_strlit("4");
        reveal_strlit("5");
        reveal_strlit("6");
        reveal_strlit("7");
        reveal_strlit("8");
        reveal_strlit("9");
    }
    let r = if d == 0 {
        "0"
    } else if d == 1 {
        "1"
    } else if d == 2 {
        "2"
    } else if d == 3 {
        "3"
    } else if d == 4 {
        "4"
    } else if d == 5 {
        "5"
    } else if d == 6 {
        "6"
    } else if d == 7 {
        "7"
    } else if d == 8 {
        "8"
    } else {
        "9"
    };
    assert(r@ =~= seq![digit_char(d as nat)]);
    r
}

/// A number in decimal digits.
pub fn number_to_decimal(n: u128) -> (r: String)
    ensures
        r@ == decimal(n as nat),
    decreases n,
{
    if n < 10 {
        String::from_str(digit_text(n))
    } else {
        let mut out = number_to_decimal(n / 10);
        out.append(digit_text(n % 10));
        assert(out@ =~= decimal(n as nat));
        out
    }
}

/// A number with its sign in decimal digits.
pub fn signed_to_decimal(n: i64) -> (r: String)
    ensures
        r@ == signed_decimal(n as int),
{
    if n < 0 {
        proof {
            reveal_strlit("-");
        }
        let magnitude: u128 = if n == i64::MIN {
            9223372036854775808
        } else {
            (-n) as u128
        };
        let mut out = String::from_str("-");
        let digits = number_to_decimal(magnitude);
        out.append(digits.as_str());
        assert(out@ =~= signed_decimal(n as int));
        out
    } else {
        number_to_decimal(n as u128)
    }
}

} // verus!
