//! Laws of the text functions.

use crate::text::{
    decimal, decimal_text, is_white_space, lemma_trimmed_end, lemma_trimmed_start, same_text,
    starts_with, trim, trim_end_char, trimmed, trimmed_end, white_space,
};
use vstd::prelude::*;

verus! {

/// White space is the control characters from tab to carriage return, the space, the
/// next-line control, the no-break space, and the spaces and separators of the blocks
/// for Ogham, general punctuation and CJK punctuation.
pub proof fn white_space_by_code_point(c: char, yes: bool)
    requires
        call_ensures(is_white_space, (c,), yes),
    ensures
        yes == white_space(c),
        yes <==> ({
            let n = c as u32;
            ||| 9 <= n <= 13
            ||| n == 32
            ||| n == 133
            ||| n == 160
            ||| n == 5760
            ||| 8192 <= n <= 8202
            ||| n == 8232
            ||| n == 8233
            ||| n == 8239
            ||| n == 8287
            ||| n == 12288
        }),
{
}

/// Padding is what trimming takes: a text between two runs of white space, itself
/// without white space at its ends, is what is left.
pub proof fn trimming_takes_the_padding(
    before: Seq<char>,
    middle: Seq<char>,
    after: Seq<char>,
    s: &str,
    t: &str,
)
    requires
        s@ == before + middle + after,
        forall|i: int| 0 <= i < before.len() ==> white_space(#[trigger] before[i]),
        forall|i: int| 0 <= i < after.len() ==> white_space(#[trigger] after[i]),
        middle.len() > 0 ==> !white_space(middle[0]) && !white_space(middle.last()),
        middle.len() == 0 ==> after.len() == 0,
        call_ensures(trim, (s,), t),
    ensures
        t@ == middle,
        trimmed(s@) == middle,
{
    let a = before.len() as int;
    let drop = |c: char| white_space(c);
    assert forall|i: int| 0 <= i < a implies white_space(#[trigger] s@[i]) by {
        assert(s@[i] == before[i]);
    }
    if middle.len() > 0 {
        assert(s@[a] == middle[0]);
    }
    lemma_trimmed_start(s@, a);
    let rest = s@.subrange(a, s@.len() as int);
    assert(rest =~= middle + after);
    assert forall|i: int| middle.len() <= i < rest.len() implies drop(#[trigger] rest[i]) by {
        assert(rest[i] == after[i - middle.len()]);
    }
    lemma_trimmed_end(rest, drop, middle.len() as int);
    assert(rest.subrange(0, middle.len() as int) =~= middle);
}

/// Trimming a character from the end takes the run of it that the text ends with.
pub proof fn trimming_takes_the_run_at_the_end(
    front: Seq<char>,
    run: Seq<char>,
    last: char,
    s: &str,
    t: &str,
)
    requires
        s@ == front + run,
        front.len() > 0 ==> front.last() != last,
        forall|i: int| 0 <= i < run.len() ==> #[trigger] run[i] == last,
        call_ensures(trim_end_char, (s, last), t),
    ensures
        t@ == front,
        trimmed_end(s@, |c: char| c == last) == front,
{
    let n = front.len() as int;
    assert forall|i: int| n <= i < s@.len() implies #[trigger] s@[i] == last by {
        assert(s@[i] == run[i - n]);
    }
    if n > 0 {
        assert(s@[n - 1] == front.last());
    }
    lemma_trimmed_end(s@, |c: char| c == last, n);
    assert(s@.subrange(0, n) =~= front);
}

/// A text begins with a prefix exactly if it is the prefix and something after it.
pub proof fn a_prefix_is_followed_by_the_rest(s: &str, prefix: &str, yes: bool, rest: Seq<char>)
    requires
        call_ensures(starts_with, (s, prefix), yes),
    ensures
        s@ == prefix@ + rest ==> yes,
        yes ==> s@ == prefix@ + s@.skip(prefix@.len() as int),
{
    if s@ == prefix@ + rest {
        assert(s@.subrange(0, prefix@.len() as int) =~= prefix@);
    }
    if yes {
        assert(s@ =~= prefix@ + s@.skip(prefix@.len() as int));
    }
}

/// Texts are the same exactly if they hold the same characters.
pub proof fn same_texts_hold_the_same_characters(a: &str, b: &str, yes: bool)
    requires
        call_ensures(same_text, (a, b), yes),
    ensures
        yes <==> a@.len() == b@.len() && forall|i: int| 0 <= i < a@.len() ==> a@[i] == b@[i],
{
    if a@.len() == b@.len() && forall|i: int| 0 <= i < a@.len() ==> a@[i] == b@[i] {
        assert(a@ =~= b@);
    }
}

/// The number that digits are read as.
pub open spec fn digits_value(digits: Seq<char>) -> int
    decreases digits.len(),
{
    if digits.len() == 0 {
        0
    } else {
        10 * digits_value(digits.drop_last()) + (digits.last() as int - '0' as int)
    }
}

/// A number written in decimal reads back as the number. Only digits are written, and
/// no zero before others.
pub proof fn decimals_read_back(n: u64, s: String)
    requires
        call_ensures(decimal, (n,), s),
    ensures
        digits_value(s@) == n,
        s@.len() > 0,
        forall|i: int| 0 <= i < s@.len() ==> '0' <= #[trigger] s@[i] <= '9',
        s@.len() > 1 ==> s@[0] != '0',
        s@ == decimal_text(n as nat),
{
    lemma_decimal_text(n as nat);
}

proof fn lemma_decimal_text(n: nat)
    ensures
        digits_value(decimal_text(n)) == n,
        decimal_text(n).len() > 0,
        forall|i: int|
            0 <= i < decimal_text(n).len() ==> '0' <= #[trigger] decimal_text(n)[i] <= '9',
        decimal_text(n).len() > 1 ==> decimal_text(n)[0] != '0',
        n > 0 ==> decimal_text(n)[0] != '0',
    decreases n,
{
    let text = decimal_text(n);
    reveal_with_fuel(digits_value, 2);
    if n >= 10 {
        lemma_decimal_text(n / 10);
        assert(text.drop_last() =~= decimal_text(n / 10));
    }
}

} // verus!
