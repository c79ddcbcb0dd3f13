//! Text building blocks: the characters of a string, case folding, decimal
//! numerals.

use vstd::prelude::*;

verus! {

/// `String::push` appends the given character to the end of the string and
/// changes nothing else. This is what the standard library documents; it is
/// taken on trust here.
pub assume_specification[ String::push ](s: &mut String, c: char)
    ensures
        final(s)@ == old(s)@.push(c),
;

/// The characters of `text`, in order.
pub fn chars_of(text: &str) -> (chars: Vec<char>)
    ensures
        chars@ == text@,
{
    broadcast use vstd::string::axiom_spec_iter;

    let mut chars: Vec<char> = Vec::new();
    for c in it: text.chars()
        invariant
            it.seq() == text@,
            chars@ == text@.take(it.index()),
    {
        chars.push(c);
        assert(chars@ =~= text@.take(it.index() + 1));
    }
    assert(text@.take(text@.len() as int) =~= text@);
    chars
}

/// The character that writes the decimal digit `d`.
pub open spec fn digit_char(d: int) -> char
    recommends
        0 <= d < 10,
{
    ('0' as int + d) as char
}

/// The decimal numeral of `n`: no sign, no leading zero, `"0"` for zero.
pub open spec fn decimal_text(n: nat) -> Seq<char>
    decreases n,
{
    if n < 10 {
        seq![digit_char(n as int)]
    } else {
        decimal_text(n / 10).push(digit_char((n % 10) as int))
    }
}

/// The decimal numeral of an integer, with a leading `-` below zero.
pub open spec fn signed_decimal_text(n: int) -> Seq<char> {
    if n < 0 {
        seq!['-'] + decimal_text((-n) as nat)
    } else {
        decimal_text(n as nat)
    }
}

/// The digits that stand before the last one in a numeral: none when
/// nothing is left to write.
spec fn leading_digits(rest: nat) -> Seq<char> {
    if rest == 0 {
        Seq::empty()
    } else {
        decimal_text(rest)
    }
}

proof fn lemma_decimal_split(n: nat)
    ensures
        decimal_text(n) == leading_digits(n / 10).push(digit_char((n % 10) as int)),
{
    if n < 10 {
        assert(decimal_text(n) =~= Seq::<char>::empty().push(digit_char(n as int)));
    }
}

/// The character that writes the decimal digit `d`.
pub(crate) fn digit_of(d: u64) -> (c: char)
    requires
        d < 10,
    ensures
        c == digit_char(d as int),
{
    (48u8 + d as u8) as char
}

/// Appends the decimal numeral of `n` to `out`.
pub fn push_decimal(out: &mut String, n: u64)
    ensures
        final(out)@ == old(out)@ + decimal_text(n as nat),
{
    // Digits come out least significant first; they are written back to front.
    let mut digits: Vec<char> = Vec::new();
    digits.push(digit_of(n % 10));
    let mut rest: u64 = n / 10;
    proof {
        lemma_decimal_split(n as nat);
        assert(decimal_text(n as nat) =~= leading_digits(rest as nat) + digits@.reverse());
    }
    while rest > 0
        invariant
            digits.len() > 0,
            decimal_text(n as nat) == leading_digits(rest as nat) + digits@.reverse(),
        decreases rest,
    {
        let ghost before = digits@;
        proof {
            lemma_decimal_split(rest as nat);
        }
        digits.push(digit_of(rest % 10));
        assert(digits@.reverse() =~= seq![digit_char((rest % 10) as int)] + before.reverse());
        assert(leading_digits(rest as nat) + before.reverse() =~= leading_digits((rest / 10) as nat)
            + digits@.reverse());
        rest = rest / 10;
    }
    assert(decimal_text(n as nat) =~= digits@.reverse());
    let mut i: usize = digits.len();
    while i > 0
        invariant
            i <= digits.len(),
            out@ == old(out)@ + digits@.reverse().take(digits.len() - i),
        decreases i,
    {
        i -= 1;
        out.push(digits[i]);
        assert(out@ =~= old(out)@ + digits@.reverse().take(digits.len() - i));
    }
    assert(digits@.reverse().take(digits.len() as int) =~= digits@.reverse());
}

/// Appends the decimal numeral of `n` to `out`, with a leading `-` below zero.
pub fn push_signed_decimal(out: &mut String, n: i64)
    ensures
        final(out)@ == old(out)@ + signed_decimal_text(n as int),
{
    if n < 0 {
        out.push('-');
        // `-(n + 1)` fits where `-n` may not.
        let magnitude: u64 = (-(n + 1)) as u64 + 1;
        push_decimal(out, magnitude);
        assert(out@ =~= old(out)@ + signed_decimal_text(n as int));
    } else {
        push_decimal(out, n as u64);
    }
}

/// Case folding for words made of ASCII letters: `A`-`Z` fold to `a`-`z`,
/// and the Kelvin sign U+212A folds to `k`, being the one character outside
/// ASCII whose lowercase form is an ASCII letter. Every other character
/// stands for itself.
pub open spec fn folded_char(c: char) -> char {
    if 'A' <= c <= 'Z' {
        (c as int + 32) as char
    } else if c == '\u{212A}' {
        'k'
    } else {
        c
    }
}

/// `text` with every character folded.
pub open spec fn folded(text: Seq<char>) -> Seq<char> {
    text.map_values(|c: char| folded_char(c))
}

/// Folds one character.
pub(crate) fn fold_char(c: char) -> (f: char)
    ensures
        f == folded_char(c),
{
    if 'A' <= c && c <= 'Z' {
        (c as u8 + 32u8) as char
    } else if c == '\u{212A}' {
        'k'
    } else {
        c
    }
}

/// Whether `chars[start..]`, folded, spells `word`.
pub(crate) fn spells(chars: &Vec<char>, start: usize, word: &str) -> (yes: bool)
    requires
        start <= chars.len(),
    ensures
        yes == (folded(chars@.skip(start as int)) == word@),
{
    let letters = chars_of(word);
    let ghost rest = chars@.skip(start as int);
    if chars.len() - start != letters.len() {
        assert(folded(rest).len() != word@.len());
        return false;
    }
    let mut i: usize = 0;
    while i < letters.len()
        invariant
            start <= chars.len(),
            chars.len() - start == letters.len(),
            i <= letters.len(),
            rest == chars@.skip(start as int),
            letters@ == word@,
            forall|j: int| 0 <= j < i ==> folded(rest)[j] == word@[j],
        decreases letters.len() - i,
    {
        if fold_char(chars[start + i]) != letters[i] {
            assert(folded(rest)[i as int] != word@[i as int]);
            return false;
        }
        i += 1;
    }
    assert(folded(rest) =~= word@);
    true
}

} // verus!
