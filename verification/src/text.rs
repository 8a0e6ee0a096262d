//! Small text helpers of the widgets: decimal numbers, padding, repeated
//! characters.

use vstd::prelude::*;

verus! {

/// The decimal digit for `d < 10`.
pub open spec fn spec_digit(d: nat) -> char {
    if d == 0 {
        '0'
    } else if d == 1 {
        '1'
    } else if d == 2 {
        '2'
    } else if d == 3 {
        '3'
    } else if d == 4 {
        '4'
    } else if d == 5 {
        '5'
    } else if d == 6 {
        '6'
    } else if d == 7 {
        '7'
    } else if d == 8 {
        '8'
    } else {
        '9'
    }
}

/// The decimal digit for `d < 10`.
pub fn digit(d: usize) -> (c: char)
    requires
        d < 10,
    ensures
        c == spec_digit(d as nat),
{
    if d == 0 {
        '0'
    } else if d == 1 {
        '1'
    } else if d == 2 {
        '2'
    } else if d == 3 {
        '3'
    } else if d == 4 {
        '4'
    } else if d == 5 {
        '5'
    } else if d == 6 {
        '6'
    } else if d == 7 {
        '7'
    } else if d == 8 {
        '8'
    } else {
        '9'
    }
}

/// The decimal digits of `n`, without leading zeros; `0` for zero.
pub open spec fn spec_decimal(n: nat) -> Seq<char>
    decreases n,
{
    if n < 10 {
        seq![spec_digit(n)]
    } else {
        spec_decimal(n / 10).push(spec_digit(n % 10))
    }
}

/// Number of decimal digits of `n`; none for zero.
pub open spec fn spec_int_log10(n: nat) -> nat
    decreases n,
{
    if n == 0 {
        0
    } else {
        spec_int_log10(n / 10) + 1
    }
}

/// Number of decimal digits of `n`; none for zero.
pub fn int_log10(n: usize) -> (len: usize)
    ensures
        len == spec_int_log10(n as nat),
        len <= 20,
{
    let mut rest: usize = n;
    let mut len: usize = 0;
    assert(rest as nat * pow10(0) == n) by (nonlinear_arith)
        requires
            pow10(0) == 1,
            rest == n,
    ;
    while rest > 0
        invariant
            spec_int_log10(n as nat) == len + spec_int_log10(rest as nat),
            rest as nat * pow10(len as nat) <= n,
            len <= 20,
        decreases rest,
    {
        proof {
            lemma_pow10_step(rest as nat, len as nat, n as nat);
        }
        rest = rest / 10;
        len = len + 1;
    }
    len
}

/// Ten to the power `e`.
pub open spec fn pow10(e: nat) -> nat
    decreases e,
{
    if e == 0 {
        1
    } else {
        10 * pow10((e - 1) as nat)
    }
}

proof fn lemma_pow10_grows(e: nat)
    ensures
        pow10(e) >= 1,
        e >= 20 ==> pow10(e) >= 100_000_000_000_000_000_000,
    decreases e,
{
    if e > 0 {
        lemma_pow10_grows((e - 1) as nat);
    }
    if e >= 20 {
        reveal_with_fuel(pow10, 21);
    }
}

proof fn lemma_pow10_step(rest: nat, len: nat, n: nat)
    requires
        rest > 0,
        rest * pow10(len) <= n,
        n <= usize::MAX,
    ensures
        (rest / 10) * pow10(len + 1) <= n,
        len < 20,
{
    lemma_pow10_grows(len);
    assert((rest / 10) * pow10(len + 1) == ((rest / 10) * 10) * pow10(len)) by (nonlinear_arith)
        requires
            pow10(len + 1) == 10 * pow10(len),
    ;
    assert(((rest / 10) * 10) * pow10(len) <= rest * pow10(len)) by (nonlinear_arith)
        requires
            (rest / 10) * 10 <= rest,
    ;
    if len >= 20 {
        assert(rest * pow10(len) >= pow10(len)) by (nonlinear_arith)
            requires
                rest >= 1,
        ;
    }
}

/// The decimal digits of `n`.
pub fn decimal(n: usize) -> (text: Vec<char>)
    ensures
        text@ == spec_decimal(n as nat),
    decreases n,
{
    if n < 10 {
        let mut text: Vec<char> = Vec::new();
        text.push(digit(n));
        text
    } else {
        let mut text = decimal(n / 10);
        text.push(digit(n % 10));
        text
    }
}

/// `text` behind as many copies of `fill` as it takes to make `width`
/// characters; `text` itself where it is that long already.
pub open spec fn spec_pad_left(text: Seq<char>, width: nat, fill: char) -> Seq<char> {
    if text.len() >= width {
        text
    } else {
        Seq::new((width - text.len()) as nat, |i: int| fill) + text
    }
}

/// The character `c`, `n` times.
pub open spec fn spec_repeat_char(c: char, n: nat) -> Seq<char> {
    Seq::new(n, |i: int| c)
}

/// The character `c`, `n` times.
pub fn repeat_char(c: char, n: usize) -> (text: String)
    ensures
        text@ == spec_repeat_char(c, n as nat),
{
    let mut text = String::new();
    let mut i: usize = 0;
    while i < n
        invariant
            i <= n,
            text@ == spec_repeat_char(c, i as nat),
        decreases n - i,
    {
        text.push(c);
        i = i + 1;
    }
    text
}

/// The characters of `text` behind as many copies of `fill` as it takes to
/// make `width` characters.
pub fn pad_left(text: &Vec<char>, width: usize, fill: char) -> (padded: String)
    ensures
        padded@ == spec_pad_left(text@, width as nat, fill),
{
    let mut padded = if text.len() >= width {
        String::new()
    } else {
        repeat_char(fill, width - text.len())
    };
    let ghost head = padded@;
    let mut i: usize = 0;
    while i < text.len()
        invariant
            i <= text.len(),
            padded@ == head + text@.take(i as int),
        decreases text.len() - i,
    {
        padded.push(crate::chars::char_at(text, i));
        i = i + 1;
    }
    padded
}

} // verus!

verus! {

/// The digits of `n`, behind a minus sign if `n` is negative.
pub open spec fn spec_signed_decimal(n: int) -> Seq<char> {
    if n < 0 {
        seq!['-'] + spec_decimal((-n) as nat)
    } else {
        spec_decimal(n as nat)
    }
}

/// The digits of `n`, behind a minus sign if `n` is negative.
pub fn signed_decimal(n: i32) -> (text: Vec<char>)
    ensures
        text@ == spec_signed_decimal(n as int),
{
    if n < 0 {
        let magnitude: i64 = -(n as i64);
        let digits = decimal(magnitude as usize);
        let mut text: Vec<char> = Vec::new();
        text.push('-');
        let mut i: usize = 0;
        while i < digits.len()
            invariant
                i <= digits.len(),
                text@ == seq!['-'] + digits@.take(i as int),
            decreases digits.len() - i,
        {
            text.push(crate::chars::char_at(&digits, i));
            i = i + 1;
        }
        text
    } else {
        decimal(n as usize)
    }
}

/// `text` in the middle of `width` columns: spaces on both sides, the odd
/// one on the right; `text` itself where it is that long already.
pub open spec fn spec_center(text: Seq<char>, width: nat) -> Seq<char> {
    if text.len() >= width {
        text
    } else {
        let left = (width - text.len()) / 2;
        let right = width - text.len() - left;
        spec_repeat_char(' ', left as nat) + text + spec_repeat_char(' ', right as nat)
    }
}

/// The characters of `text` in the middle of `width` columns.
pub fn center(text: &Vec<char>, width: usize) -> (centered: String)
    ensures
        centered@ == spec_center(text@, width as nat),
{
    let left = if text.len() >= width {
        0
    } else {
        (width - text.len()) / 2
    };
    let right = if text.len() >= width {
        0
    } else {
        width - text.len() - left
    };
    let mut centered = pad_left(text, left + text.len(), ' ');
    let tail = repeat_char(' ', right);
    centered.append(tail.as_str());
    centered
}

/// The lower-case letter for an upper-case ASCII letter, and the character
/// itself for any other.
pub open spec fn spec_ascii_lower(c: char) -> char {
    if 'A' <= c <= 'Z' {
        ((c as u8) + 32) as u8 as char
    } else {
        c
    }
}

/// The lower-case letter for an upper-case ASCII letter, and the character
/// itself for any other.
pub fn ascii_lower(c: char) -> (lower: char)
    ensures
        lower == spec_ascii_lower(c),
{
    if 'A' <= c && c <= 'Z' {
        ((c as u8) + 32) as char
    } else {
        c
    }
}

/// The text with every upper-case ASCII letter turned into lower case.
pub open spec fn spec_lowercase(text: Seq<char>) -> Seq<char> {
    text.map_values(|c: char| spec_ascii_lower(c))
}

/// The text with every upper-case ASCII letter turned into lower case.
pub fn lowercase(text: &str) -> (lower: Vec<char>)
    ensures
        lower@ == spec_lowercase(text@),
{
    let chars = crate::chars::to_chars(text);
    let mut lower: Vec<char> = Vec::new();
    let mut i: usize = 0;
    while i < chars.len()
        invariant
            i <= chars.len(),
            chars@ == text@,
            lower@ == spec_lowercase(text@).take(i as int),
        decreases chars.len() - i,
    {
        lower.push(ascii_lower(crate::chars::char_at(&chars, i)));
        i = i + 1;
    }
    lower
}

} // verus!
