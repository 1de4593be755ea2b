//! The plain-text image format: a header of three lines, then one line of
//! three decimal numbers for each pixel.

use vstd::prelude::*;

verus! {

/// The byte of a line feed.
pub const LINE_FEED: u8 = 10;

/// The byte of a space.
pub const SPACE: u8 = 32;

/// The byte of the digit `0`.
pub const DIGIT_ZERO: u8 = 48;

/// The decimal digits of `n`, most significant first, without leading zeros.
pub open spec fn decimal(n: nat) -> Seq<u8>
    decreases n,
{
    if n < 10 {
        seq![(DIGIT_ZERO + n) as u8]
    } else {
        decimal(n / 10).push((DIGIT_ZERO + n % 10) as u8)
    }
}

/// The header: the line `P3`, the line of width and height, and the line `255`.
pub open spec fn header(width: nat, height: nat) -> Seq<u8> {
    seq![80u8, 51u8, LINE_FEED] + decimal(width) + seq![SPACE] + decimal(height) + seq![
        LINE_FEED,
        50u8,
        53u8,
        53u8,
        LINE_FEED,
    ]
}

/// The line of one pixel: its three levels, separated by spaces.
pub open spec fn line(level: (u8, u8, u8)) -> Seq<u8> {
    decimal(level.0 as nat) + seq![SPACE] + decimal(level.1 as nat) + seq![SPACE] + decimal(
        level.2 as nat,
    ) + seq![LINE_FEED]
}

/// The lines of a sequence of pixels, in their order.
pub open spec fn body(levels: Seq<(u8, u8, u8)>) -> Seq<u8>
    decreases levels.len(),
{
    if levels.len() == 0 {
        Seq::empty()
    } else {
        body(levels.drop_last()) + line(levels.last())
    }
}

/// The whole image text.
pub open spec fn document(width: nat, height: nat, levels: Seq<(u8, u8, u8)>) -> Seq<u8> {
    header(width, height) + body(levels)
}

/// Whether a byte is a decimal digit.
pub open spec fn is_digit(byte: u8) -> bool {
    DIGIT_ZERO <= byte <= DIGIT_ZERO + 9
}

/// The number that a sequence of decimal digits stands for.
pub open spec fn number(digits: Seq<u8>) -> nat
    decreases digits.len(),
{
    if digits.len() == 0 {
        0
    } else {
        number(digits.drop_last()) * 10 + (digits[digits.len() - 1] - DIGIT_ZERO) as nat
    }
}

/// The number of line feeds in a text.
pub open spec fn line_feeds(text: Seq<u8>) -> nat
    decreases text.len(),
{
    if text.len() == 0 {
        0
    } else if text[text.len() - 1] == LINE_FEED {
        line_feeds(text.drop_last()) + 1
    } else {
        line_feeds(text.drop_last())
    }
}

/// The decimal digits of a number are digits and nothing else, start with a
/// zero only for the number 0, and stand for that number.
pub proof fn decimal_reads_back(n: nat)
    ensures
        decimal(n).len() >= 1,
        forall|i: int| 0 <= i < decimal(n).len() ==> is_digit(#[trigger] decimal(n)[i]),
        decimal(n)[0] == DIGIT_ZERO <==> n == 0,
        number(decimal(n)) == n,
    decreases n,
{
    if n < 10 {
        assert(decimal(n).drop_last() =~= Seq::<u8>::empty());
        assert(number(Seq::<u8>::empty()) == 0);
    } else {
        decimal_reads_back(n / 10);
        assert(decimal(n).drop_last() =~= decimal(n / 10));
    }
}

/// The line feeds of two texts, one after the other, add up.
pub proof fn line_feeds_add_up(a: Seq<u8>, b: Seq<u8>)
    ensures
        line_feeds(a + b) == line_feeds(a) + line_feeds(b),
    decreases b.len(),
{
    if b.len() == 0 {
        assert(a + b =~= a);
    } else {
        line_feeds_add_up(a, b.drop_last());
        assert((a + b).drop_last() =~= a + b.drop_last());
    }
}

/// The decimal digits of a number hold no line feed.
pub proof fn decimal_is_one_word(n: nat)
    ensures
        line_feeds(decimal(n)) == 0,
    decreases n,
{
    if n < 10 {
        assert(decimal(n).drop_last() =~= Seq::<u8>::empty());
        assert(line_feeds(Seq::<u8>::empty()) == 0);
    } else {
        decimal_is_one_word(n / 10);
        assert(decimal(n).drop_last() =~= decimal(n / 10));
    }
}

/// The image text has three lines of header and one line for each pixel.
pub proof fn document_has_a_line_for_each_pixel(
    width: nat,
    height: nat,
    levels: Seq<(u8, u8, u8)>,
)
    ensures
        line_feeds(header(width, height)) == 3,
        line_feeds(body(levels)) == levels.len(),
        line_feeds(document(width, height, levels)) == 3 + levels.len(),
    decreases levels.len(),
{
    decimal_is_one_word(width);
    decimal_is_one_word(height);
    let magic = seq![80u8, 51u8, LINE_FEED];
    let gap = seq![SPACE];
    let depth = seq![LINE_FEED, 50u8, 53u8, 53u8, LINE_FEED];
    few_line_feeds();
    line_feeds_add_up(magic, decimal(width));
    line_feeds_add_up(magic + decimal(width), gap);
    line_feeds_add_up(magic + decimal(width) + gap, decimal(height));
    line_feeds_add_up(magic + decimal(width) + gap + decimal(height), depth);
    if levels.len() > 0 {
        let rest = levels.drop_last();
        let level = levels[levels.len() - 1];
        document_has_a_line_for_each_pixel(width, height, rest);
        line_has_one_line_feed(level);
        line_feeds_add_up(body(rest), line(level));
    }
    line_feeds_add_up(header(width, height), body(levels));
}

/// The line of a pixel ends in its only line feed.
pub proof fn line_has_one_line_feed(level: (u8, u8, u8))
    ensures
        line_feeds(line(level)) == 1,
{
    decimal_is_one_word(level.0 as nat);
    decimal_is_one_word(level.1 as nat);
    decimal_is_one_word(level.2 as nat);
    let gap = seq![SPACE];
    let end = seq![LINE_FEED];
    few_line_feeds();
    let (r, g, b) = (decimal(level.0 as nat), decimal(level.1 as nat), decimal(level.2 as nat));
    line_feeds_add_up(r, gap);
    line_feeds_add_up(r + gap, g);
    line_feeds_add_up(r + gap + g, gap);
    line_feeds_add_up(r + gap + g + gap, b);
    line_feeds_add_up(r + gap + g + gap + b, end);
}

proof fn few_line_feeds()
    ensures
        line_feeds(seq![SPACE]) == 0,
        line_feeds(seq![LINE_FEED]) == 1,
        line_feeds(seq![80u8, 51u8, LINE_FEED]) == 1,
        line_feeds(seq![LINE_FEED, 50u8, 53u8, 53u8, LINE_FEED]) == 2,
{
    reveal_with_fuel(line_feeds, 6);
    let none = Seq::<u8>::empty();
    assert(seq![SPACE].drop_last() =~= none);
    assert(seq![LINE_FEED].drop_last() =~= none);
    let magic = seq![80u8, 51u8, LINE_FEED];
    assert(magic.drop_last() =~= seq![80u8, 51u8]);
    assert(seq![80u8, 51u8].drop_last() =~= seq![80u8]);
    assert(seq![80u8].drop_last() =~= none);
    let depth = seq![LINE_FEED, 50u8, 53u8, 53u8, LINE_FEED];
    assert(depth.drop_last() =~= seq![LINE_FEED, 50u8, 53u8, 53u8]);
    assert(seq![LINE_FEED, 50u8, 53u8, 53u8].drop_last() =~= seq![LINE_FEED, 50u8, 53u8]);
    assert(seq![LINE_FEED, 50u8, 53u8].drop_last() =~= seq![LINE_FEED, 50u8]);
    assert(seq![LINE_FEED, 50u8].drop_last() =~= seq![LINE_FEED]);
}

/// Appends the decimal digits of `n` to `out`.
pub fn push_decimal(out: &mut Vec<u8>, n: usize)
    ensures
        final(out)@ == old(out)@ + decimal(n as nat),
    decreases n,
{
    if n >= 10 {
        push_decimal(out, n / 10);
    }
    let digit: usize = n % 10;
    out.push(DIGIT_ZERO + digit as u8);
    assert(final(out)@ =~= old(out)@ + decimal(n as nat));
}

/// Appends the header of an image of the given size to `out`.
pub fn push_header(out: &mut Vec<u8>, width: usize, height: usize)
    ensures
        final(out)@ == old(out)@ + header(width as nat, height as nat),
{
    out.push(80u8);
    out.push(51u8);
    out.push(LINE_FEED);
    push_decimal(out, width);
    out.push(SPACE);
    push_decimal(out, height);
    out.push(LINE_FEED);
    out.push(50u8);
    out.push(53u8);
    out.push(53u8);
    out.push(LINE_FEED);
    assert(final(out)@ =~= old(out)@ + header(width as nat, height as nat));
}

/// Appends the line of one pixel to `out`.
pub fn push_line(out: &mut Vec<u8>, level: (u8, u8, u8))
    ensures
        final(out)@ == old(out)@ + line(level),
{
    push_decimal(out, level.0 as usize);
    out.push(SPACE);
    push_decimal(out, level.1 as usize);
    out.push(SPACE);
    push_decimal(out, level.2 as usize);
    out.push(LINE_FEED);
    assert(final(out)@ =~= old(out)@ + line(level));
}

} // verus!
