//! Text rules that the rest of the library is stated over: trimming, prefixes,
//! equality, decimal numbers and quoted strings.

use vstd::prelude::*;

verus! {

/// The characters with the Unicode property `White_Space`.
pub open spec fn white_space(c: char) -> bool {
    ||| '\u{9}' <= c <= '\u{d}'
    ||| c == ' '
    ||| c == '\u{85}'
    ||| c == '\u{a0}'
    ||| c == '\u{1680}'
    ||| '\u{2000}' <= c <= '\u{200a}'
    ||| c == '\u{2028}'
    ||| c == '\u{2029}'
    ||| c == '\u{202f}'
    ||| c == '\u{205f}'
    ||| c == '\u{3000}'
}

/// `s` without the white space it begins with.
pub open spec fn trimmed_start(s: Seq<char>) -> Seq<char>
    decreases s.len(),
{
    if s.len() > 0 && white_space(s[0]) {
        trimmed_start(s.drop_first())
    } else {
        s
    }
}

/// `s` without the characters at its end that satisfy `drop`.
pub open spec fn trimmed_end(s: Seq<char>, drop: spec_fn(char) -> bool) -> Seq<char>
    decreases s.len(),
{
    if s.len() > 0 && drop(s.last()) {
        trimmed_end(s.drop_last(), drop)
    } else {
        s
    }
}

/// `s` without the white space at either end.
pub open spec fn trimmed(s: Seq<char>) -> Seq<char> {
    trimmed_end(trimmed_start(s), |c: char| white_space(c))
}

/// `s` has nothing but white space, or nothing at all.
pub open spec fn blank(s: Seq<char>) -> bool {
    trimmed(s).len() == 0
}

pub(crate) proof fn lemma_trimmed_start(s: Seq<char>, a: int)
    requires
        0 <= a <= s.len(),
        forall|i: int| 0 <= i < a ==> white_space(#[trigger] s[i]),
        a < s.len() ==> !white_space(s[a]),
    ensures
        trimmed_start(s) == s.subrange(a, s.len() as int),
    decreases a,
{
    if a > 0 {
        assert(white_space(s[0]));
        let rest = s.drop_first();
        assert forall|i: int| 0 <= i < a - 1 implies white_space(#[trigger] rest[i]) by {
            assert(rest[i] == s[i + 1]);
        }
        lemma_trimmed_start(rest, a - 1);
        assert(rest.subrange(a - 1, rest.len() as int) =~= s.subrange(a, s.len() as int));
    } else {
        assert(s.subrange(0, s.len() as int) =~= s);
    }
}

pub(crate) proof fn lemma_trimmed_end(s: Seq<char>, drop: spec_fn(char) -> bool, b: int)
    requires
        0 <= b <= s.len(),
        forall|i: int| b <= i < s.len() ==> drop(#[trigger] s[i]),
        b > 0 ==> !drop(s[b - 1]),
    ensures
        trimmed_end(s, drop) == s.subrange(0, b),
    decreases s.len(),
{
    if b < s.len() {
        assert(drop(s.last()));
        lemma_trimmed_end(s.drop_last(), drop, b);
        assert(s.drop_last().subrange(0, b) =~= s.subrange(0, b));
    } else {
        assert(s.subrange(0, b) =~= s);
    }
}

/// Trimming an end takes only what is to be dropped, all of it, and nothing from
/// the front.
pub proof fn trimming_an_end(s: Seq<char>, drop: spec_fn(char) -> bool)
    ensures
        trimmed_end(s, drop).is_prefix_of(s),
        forall|i: int| trimmed_end(s, drop).len() <= i < s.len() ==> drop(#[trigger] s[i]),
        trimmed_end(s, drop).len() > 0 ==> !drop(trimmed_end(s, drop).last()),
    decreases s.len(),
{
    if s.len() > 0 && drop(s.last()) {
        let rest = s.drop_last();
        trimming_an_end(rest, drop);
        assert forall|i: int| trimmed_end(s, drop).len() <= i < s.len() implies drop(
            #[trigger] s[i],
        ) by {
            if i < rest.len() {
                assert(rest[i] == s[i]);
            }
        }
    }
}

/// A run of characters that are dropped, put at the end, is trimmed without a trace.
pub proof fn trimming_a_run(s: Seq<char>, run: Seq<char>, drop: spec_fn(char) -> bool)
    requires
        forall|i: int| 0 <= i < run.len() ==> drop(#[trigger] run[i]),
    ensures
        trimmed_end(s + run, drop) == trimmed_end(s, drop),
    decreases run.len(),
{
    if run.len() > 0 {
        assert(drop(run.last()));
        assert((s + run).drop_last() =~= s + run.drop_last());
        trimming_a_run(s, run.drop_last(), drop);
    } else {
        assert(s + run =~= s);
    }
}

proof fn lemma_trimmed_start_ends(s: Seq<char>)
    ensures
        trimmed_start(s).len() > 0 ==> !white_space(trimmed_start(s)[0]),
        trimmed_start(s).len() == 0 <==> forall|i: int|
            0 <= i < s.len() ==> white_space(#[trigger] s[i]),
    decreases s.len(),
{
    if s.len() > 0 && white_space(s[0]) {
        let rest = s.drop_first();
        lemma_trimmed_start_ends(rest);
        assert forall|i: int|
            0 <= i < s.len() && (forall|j: int|
                0 <= j < rest.len() ==> white_space(#[trigger] rest[j])) implies white_space(
            #[trigger] s[i],
        ) by {
            if i > 0 {
                assert(rest[i - 1] == s[i]);
            }
        }
        assert forall|j: int|
            0 <= j < rest.len() && (forall|i: int|
                0 <= i < s.len() ==> white_space(#[trigger] s[i])) implies white_space(
            #[trigger] rest[j],
        ) by {
            assert(rest[j] == s[j + 1]);
        }
    }
}

/// Trimmed text has no white space at its ends, so trimming it again changes
/// nothing; what trims to nothing is white space throughout.
pub proof fn trimming_is_thorough(s: Seq<char>)
    ensures
        trimmed(s).len() > 0 ==> !white_space(trimmed(s)[0]) && !white_space(trimmed(s).last()),
        trimmed(trimmed(s)) == trimmed(s),
        blank(s) <==> forall|i: int| 0 <= i < s.len() ==> white_space(#[trigger] s[i]),
{
    let drop = |c: char| white_space(c);
    let rest = trimmed_start(s);
    lemma_trimmed_start_ends(s);
    trimming_an_end(rest, drop);
    if rest.len() > 0 && trimmed(s).len() == 0 {
        assert(drop(rest[0]));
    }
}

/// Whether `c` is white space.
pub fn is_white_space(c: char) -> (yes: bool)
    ensures
        yes == white_space(c),
{
    ('\u{9}' <= c && c <= '\u{d}') || c == ' ' || c == '\u{85}' || c == '\u{a0}' || c == '\u{1680}'
        || ('\u{2000}' <= c && c <= '\u{200a}') || c == '\u{2028}' || c == '\u{2029}'
        || c == '\u{202f}' || c == '\u{205f}' || c == '\u{3000}'
}

/// The part of `s` between the white space at its ends.
pub fn trim(s: &str) -> (t: &str)
    ensures
        t@ == trimmed(s@),
{
    let len: usize = s.unicode_len();
    let mut at: usize = 0;
    let mut start: usize = 0;
    let mut end: usize = 0;
    for c in it: s.chars()
        invariant
            len == s@.len(),
            it.seq() == s@,
            at == it.index(),
            start < end <= at || (start == at && end == 0),
            forall|i: int| 0 <= i < start ==> white_space(#[trigger] s@[i]),
            start < at ==> start < end && !white_space(s@[start as int]) && !white_space(
                s@[end - 1],
            ),
            forall|i: int| end <= i < at ==> white_space(#[trigger] s@[i]),
    {
        if is_white_space(c) {
            if start == at {
                start = at + 1;
            }
        } else {
            end = at + 1;
        }
        at = at + 1;
    }
    if end < start {
        end = start;
    }
    proof {
        lemma_trimmed_start(s@, start as int);
        let rest = s@.subrange(start as int, s@.len() as int);
        let drop = |c: char| white_space(c);
        assert forall|i: int| end - start <= i < rest.len() implies drop(#[trigger] rest[i]) by {
            assert(rest[i] == s@[i + start]);
        }
        lemma_trimmed_end(rest, drop, end - start);
        assert(rest.subrange(0, end - start) =~= s@.subrange(start as int, end as int));
    }
    s.substring_char(start, end)
}

/// `s` without the `last` characters at its end.
pub fn trim_end_char(s: &str, last: char) -> (t: &str)
    ensures
        t@ == trimmed_end(s@, |c: char| c == last),
{
    let len: usize = s.unicode_len();
    let mut at: usize = 0;
    let mut end: usize = 0;
    for c in it: s.chars()
        invariant
            len == s@.len(),
            it.seq() == s@,
            at == it.index(),
            end <= at,
            end > 0 ==> s@[end - 1] != last,
            forall|i: int| end <= i < at ==> #[trigger] s@[i] == last,
    {
        at = at + 1;
        if c != last {
            end = at;
        }
    }
    proof {
        lemma_trimmed_end(s@, |c: char| c == last, end as int);
    }
    s.substring_char(0, end)
}

/// Whether `s` begins with `prefix`.
pub fn starts_with(s: &str, prefix: &str) -> (yes: bool)
    ensures
        yes == prefix@.is_prefix_of(s@),
{
    let len: usize = prefix.unicode_len();
    if s.unicode_len() < len {
        return false;
    }
    let mut at: usize = 0;
    while at < len
        invariant
            len == prefix@.len() <= s@.len(),
            at <= len,
            forall|i: int| 0 <= i < at ==> prefix@[i] == s@[i],
        decreases len - at,
    {
        if prefix.get_char(at) != s.get_char(at) {
            return false;
        }
        at = at + 1;
    }
    assert(s@.subrange(0, len as int) =~= prefix@);
    true
}

/// Whether `a` and `b` hold the same characters.
pub fn same_text(a: &str, b: &str) -> (yes: bool)
    ensures
        yes == (a@ == b@),
{
    let a_bytes = a.as_bytes();
    let b_bytes = b.as_bytes();
    let len: usize = a_bytes.len();
    if b_bytes.len() != len {
        return false;
    }
    let mut at: usize = 0;
    while at < len
        invariant
            a_bytes@ == vstd::utf8::encode_utf8(a@),
            b_bytes@ == vstd::utf8::encode_utf8(b@),
            len == a_bytes@.len() == b_bytes@.len(),
            at <= len,
            forall|i: int| 0 <= i < at ==> a_bytes@[i] == b_bytes@[i],
        decreases len - at,
    {
        if a_bytes[at] != b_bytes[at] {
            return false;
        }
        at = at + 1;
    }
    proof {
        assert(a_bytes@ =~= b_bytes@);
        vstd::utf8::encode_utf8_decode_utf8(a@);
        vstd::utf8::encode_utf8_decode_utf8(b@);
    }
    true
}

/// The decimal digits of `n`, without leading zeros.
pub open spec fn decimal_text(n: nat) -> Seq<char>
    decreases n,
{
    if n < 10 {
        digit_text(n)
    } else {
        decimal_text(n / 10) + digit_text(n % 10)
    }
}

/// The digit `d`, for `d` below ten.
pub open spec fn digit_text(d: nat) -> Seq<char> {
    seq![
        if d == 0 {
            '0'
        } else if d == 1 {
            '1'
        } else if d == 2 {
            '2'
        } else if d == 3 {
            '3'
        } else if d == 4 {
            '4'
        } else if d == 5 {
            '5'
        } else if d == 6 {
            '6'
        } else if d == 7 {
            '7'
        } else if d == 8 {
            '8'
        } else {
            '9'
        },
    ]
}

fn digit(d: u64) -> (s: &'static str)
    requires
        d < 10,
    ensures
        s@ == digit_text(d as nat),
{
    proof {
        reveal_strlit("0");
        reveal_strlit("1");
        reveal_strlit("2");
        reveal_strlit("3");
        reveal_strlit("4");
        reveal_strlit("5");
        reveal_strlit("6");
        reveal_strlit("7");
        reveal_strlit("8");
        reveal_strlit("9");
    }
    if d == 0 {
        "0"
    } else if d == 1 {
        "1"
    } else if d == 2 {
        "2"
    } else if d == 3 {
        "3"
    } else if d == 4 {
        "4"
    } else if d == 5 {
        "5"
    } else if d == 6 {
        "6"
    } else if d == 7 {
        "7"
    } else if d == 8 {
        "8"
    } else {
        "9"
    }
}

/// Writes `n` in decimal.
pub fn decimal(n: u64) -> (s: String)
    ensures
        s@ == decimal_text(n as nat),
    decreases n,
{
    if n < 10 {
        digit(n).to_owned()
    } else {
        let mut s = decimal(n / 10);
        s.append(digit(n % 10));
        s
    }
}

/// What `core::fmt` writes for a string with the format `{:?}`: the string
/// between double quotes, with some of its characters escaped. Which characters
/// are escaped, and how, is left to the name.
pub uninterp spec fn quoted_text(s: Seq<char>) -> Seq<char>;

/// Quotes `s` by `<str as core::fmt::Debug>::fmt`. Claimed of it: what it writes
/// depends on the characters of `s` alone.
#[verifier::external_body]
pub(crate) fn quoted(s: &str) -> (q: String)
    ensures
        q@ == quoted_text(s@),
{
    format!("{:?}", s)
}

/// `core::fmt::Formatter`, what a value is written to in debug output. Where the text
/// goes is not seen here.
#[verifier::external_type_specification]
#[verifier::external_body]
pub struct ExFormatter<'a>(core::fmt::Formatter<'a>);

/// `core::fmt::Error`, what a formatter answers if it could not pass the text on.
#[verifier::external_type_specification]
#[verifier::external_body]
pub struct ExFormatError(core::fmt::Error);

/// `core::fmt::Formatter::write_str`. Nothing is claimed of it: whether the text can be
/// passed on is up to where the formatter writes to.
pub assume_specification<'a>[ core::fmt::Formatter::<'a>::write_str ](
    f: &mut core::fmt::Formatter<'a>,
    data: &str,
) -> core::fmt::Result;

} // verus!
