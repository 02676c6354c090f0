//! Text on the level of characters: decimal numbers, trimming, searching.

use vstd::prelude::*;
use vstd::string::*;

verus! {

/// The digit `d` as a character.
pub open spec fn digit(d: nat) -> char {
    if d == 0 {
        '0'
    } else if d == 1 {
        '1'
    } else if d == 2 {
        '2'
    } else if d == 3 {
        '3'
    } else if d == 4 {
        '4'
    } else if d == 5 {
        '5'
    } else if d == 6 {
        '6'
    } else if d == 7 {
        '7'
    } else if d == 8 {
        '8'
    } else {
        '9'
    }
}

/// `n` in decimal, without leading zeros.
pub open spec fn decimal(n: nat) -> Seq<char>
    decreases n,
{
    if n < 10 {
        seq![digit(n)]
    } else {
        decimal(n / 10).push(digit(n % 10))
    }
}

/// Appends one decimal digit.
fn push_digit(text: &mut String, d: u64)
    requires
        d < 10,
    ensures
        final(text)@ == old(text)@.push(digit(d as nat)),
{
    proof {
        reveal_strlit("0");
        reveal_strlit("1");
        reveal_strlit("2");
        reveal_strlit("3");
        reveal_strlit("4");
        reveal_strlit("5");
        reveal_strlit("6");
        reveal_strlit("7");
        reveal_strlit("8");
        reveal_strlit("9");
    }
    let piece: &str = match d {
        0 => "0",
        1 => "1",
        2 => "2",
        3 => "3",
        4 => "4",
        5 => "5",
        6 => "6",
        7 => "7",
        8 => "8",
        _ => "9",
    };
    text.append(piece);
    assert(text@ =~= old(text)@.push(digit(d as nat)));
}

/// Appends `n` in decimal.
pub fn push_decimal(text: &mut String, n: u64)
    ensures
        final(text)@ == old(text)@ + decimal(n as nat),
    decreases n,
{
    if n >= 10 {
        push_decimal(text, n / 10);
    }
    push_digit(text, n % 10);
    assert(text@ =~= old(text)@ + decimal(n as nat));
}

/// `before`, then `after`.
pub fn joined(before: &str, after: &str) -> (text: String)
    ensures
        text@ == before@ + after@,
{
    let mut text = before.to_owned();
    text.append(after);
    text
}

/// `before`, then `n` in decimal, then `after`.
pub fn joined_number(before: &str, n: u64, after: &str) -> (text: String)
    ensures
        text@ == before@ + decimal(n as nat) + after@,
{
    let mut text = before.to_owned();
    push_decimal(&mut text, n);
    text.append(after);
    text
}

/// Whether two texts have the same characters.
pub fn same_text(a: &str, b: &str) -> (same: bool)
    ensures
        same == (a@ == b@),
{
    a.to_owned() == b.to_owned()
}

/// The characters with the Unicode property `White_Space`.
pub open spec fn is_white_space_char(c: char) -> bool {
    ||| '\u{9}' <= c <= '\u{d}'
    ||| c == ' '
    ||| c == '\u{85}'
    ||| c == '\u{a0}'
    ||| c == '\u{1680}'
    ||| '\u{2000}' <= c <= '\u{200a}'
    ||| c == '\u{2028}'
    ||| c == '\u{2029}'
    ||| c == '\u{202f}'
    ||| c == '\u{205f}'
    ||| c == '\u{3000}'
}

/// Whether `c` is white space.
pub fn is_white_space(c: char) -> (white: bool)
    ensures
        white == is_white_space_char(c),
{
    ('\u{9}' <= c && c <= '\u{d}') || c == ' ' || c == '\u{85}' || c == '\u{a0}' || c == '\u{1680}'
        || ('\u{2000}' <= c && c <= '\u{200a}') || c == '\u{2028}' || c == '\u{2029}' || c
        == '\u{202f}' || c == '\u{205f}' || c == '\u{3000}'
}

/// `s` without its leading white space.
pub open spec fn without_leading_space(s: Seq<char>) -> Seq<char>
    decreases s.len(),
{
    if s.len() > 0 && is_white_space_char(s[0]) {
        without_leading_space(s.drop_first())
    } else {
        s
    }
}

/// `s` without its trailing white space.
pub open spec fn without_trailing_space(s: Seq<char>) -> Seq<char>
    decreases s.len(),
{
    if s.len() > 0 && is_white_space_char(s.last()) {
        without_trailing_space(s.drop_last())
    } else {
        s
    }
}

/// `s` without white space at either end.
pub open spec fn trimmed(s: Seq<char>) -> Seq<char> {
    without_trailing_space(without_leading_space(s))
}

/// What is left without leading white space does not start with any.
pub proof fn no_space_leads(s: Seq<char>)
    ensures
        without_leading_space(s).len() > 0 ==> !is_white_space_char(without_leading_space(s)[0]),
    decreases s.len(),
{
    if s.len() > 0 && is_white_space_char(s[0]) {
        no_space_leads(s.drop_first());
    }
}

/// Cutting trailing white space off leaves the front as it is.
pub proof fn trailing_cut_leaves_the_front(s: Seq<char>)
    ensures
        without_trailing_space(s).len() <= s.len(),
        without_trailing_space(s) == s.subrange(0, without_trailing_space(s).len() as int),
    decreases s.len(),
{
    if s.len() > 0 && is_white_space_char(s.last()) {
        trailing_cut_leaves_the_front(s.drop_last());
        let n = without_trailing_space(s).len() as int;
        assert(s.drop_last().subrange(0, n) =~= s.subrange(0, n));
    } else {
        assert(s.subrange(0, s.len() as int) =~= s);
    }
}

/// Where something else than white space ends `s`, cutting leading white space off `s` and more
/// cuts it off `s` alone.
pub proof fn leading_cut_stays_in_front(s: Seq<char>, more: Seq<char>)
    requires
        s.len() > 0,
        !is_white_space_char(s.last()),
    ensures
        without_leading_space(s + more) == without_leading_space(s) + more,
        without_leading_space(s).len() > 0,
        without_leading_space(s).last() == s.last(),
    decreases s.len(),
{
    if is_white_space_char(s[0]) {
        assert((s + more).drop_first() =~= s.drop_first() + more);
        leading_cut_stays_in_front(s.drop_first(), more);
    }
}

/// Cuts the white space off both ends of `s`.
pub fn trim(s: &str) -> (t: String)
    ensures
        t@ == trimmed(s@),
{
    let n: usize = s.unicode_len();
    let mut i: usize = 0;
    assert(s@.subrange(0, n as int) =~= s@);
    while i < n && is_white_space(s.get_char(i))
        invariant
            i <= n,
            n == s@.len(),
            without_leading_space(s@) == without_leading_space(s@.subrange(i as int, n as int)),
        ensures
            i <= n,
            without_leading_space(s@) == s@.subrange(i as int, n as int),
        decreases n - i,
    {
        assert(s@.subrange(i as int, n as int).drop_first() =~= s@.subrange(i + 1, n as int));
        i += 1;
    }
    let ghost rest = s@.subrange(i as int, n as int);
    let mut j: usize = n;
    assert(s@.subrange(i as int, j as int) =~= rest);
    while j > i && is_white_space(s.get_char(j - 1))
        invariant
            i <= j <= n,
            n == s@.len(),
            without_trailing_space(rest) == without_trailing_space(
                s@.subrange(i as int, j as int),
            ),
        ensures
            i <= j <= n,
            without_trailing_space(rest) == s@.subrange(i as int, j as int),
        decreases j,
    {
        assert(s@.subrange(i as int, j as int).drop_last() =~= s@.subrange(i as int, j - 1));
        j -= 1;
    }
    s.substring_char(i, j).to_owned()
}

/// Whether `s` ends with `suffix`.
pub open spec fn ends_with_text(s: Seq<char>, suffix: Seq<char>) -> bool {
    s.len() >= suffix.len() && s.subrange(s.len() - suffix.len(), s.len() as int) == suffix
}

/// `s` with `suffix` taken off its end as often as it stands there.
pub open spec fn without_suffixes(s: Seq<char>, suffix: Seq<char>) -> Seq<char>
    decreases s.len(),
{
    if suffix.len() > 0 && ends_with_text(s, suffix) {
        without_suffixes(s.subrange(0, s.len() - suffix.len()), suffix)
    } else {
        s
    }
}

/// What is left without a suffix is a front of what there was and does not end with the suffix.
pub proof fn no_suffix_is_left(s: Seq<char>, suffix: Seq<char>)
    requires
        suffix.len() > 0,
    ensures
        without_suffixes(s, suffix).len() <= s.len(),
        without_suffixes(s, suffix) == s.subrange(0, without_suffixes(s, suffix).len() as int),
        !ends_with_text(without_suffixes(s, suffix), suffix),
    decreases s.len(),
{
    if ends_with_text(s, suffix) {
        let shorter = s.subrange(0, s.len() - suffix.len());
        no_suffix_is_left(shorter, suffix);
        let n = without_suffixes(s, suffix).len() as int;
        assert(shorter.subrange(0, n) =~= s.subrange(0, n));
    } else {
        assert(s.subrange(0, s.len() as int) =~= s);
    }
}

/// A suffix that is put behind `s` is taken off again.
pub proof fn a_suffix_is_taken_off(s: Seq<char>, suffix: Seq<char>)
    requires
        suffix.len() > 0,
    ensures
        without_suffixes(s + suffix, suffix) == without_suffixes(s, suffix),
{
    let whole = s + suffix;
    assert(whole.subrange(whole.len() - suffix.len(), whole.len() as int) =~= suffix);
    assert(whole.subrange(0, whole.len() - suffix.len()) =~= s);
}

/// Takes `suffix` off the end of `s` until `s` does not end with it.
pub fn trim_end_matches(s: &str, suffix: &str) -> (t: String)
    requires
        suffix@.len() > 0,
    ensures
        t@ == without_suffixes(s@, suffix@),
{
    let m: usize = suffix.unicode_len();
    let mut n: usize = s.unicode_len();
    assert(s@.subrange(0, n as int) =~= s@);
    loop
        invariant
            n <= s@.len(),
            m == suffix@.len(),
            m > 0,
            without_suffixes(s@, suffix@) == without_suffixes(
                s@.subrange(0, n as int),
                suffix@,
            ),
        decreases n,
    {
        let ghost before = s@.subrange(0, n as int);
        if n < m {
            return s.substring_char(0, n).to_owned();
        }
        assert(before.subrange(n - m, n as int) =~= s@.subrange(n - m, n as int));
        if !same_text(s.substring_char(n - m, n), suffix) {
            return s.substring_char(0, n).to_owned();
        }
        assert(before.subrange(0, n - m) =~= s@.subrange(0, n - m));
        n -= m;
    }
}

/// Whether `needle` stands somewhere in `s`.
pub open spec fn contains_text(s: Seq<char>, needle: Seq<char>) -> bool {
    exists|i: int|
        0 <= i <= s.len() - needle.len() && #[trigger] s.subrange(i, i + needle.len()) == needle
}

/// Searches `s` for `needle`.
pub fn contains(s: &str, needle: &str) -> (found: bool)
    ensures
        found == contains_text(s@, needle@),
{
    let n: usize = s.unicode_len();
    let m: usize = needle.unicode_len();
    if n < m {
        return false;
    }
    let mut i: usize = 0;
    loop
        invariant
            n == s@.len(),
            m == needle@.len(),
            i <= n - m,
            forall|k: int| 0 <= k < i ==> #[trigger] s@.subrange(k, k + m) != needle@,
        decreases n - i,
    {
        if same_text(s.substring_char(i, i + m), needle) {
            return true;
        }
        if i == n - m {
            return false;
        }
        i += 1;
    }
}

/// Whether a text is white space all over.
pub open spec fn is_blank(s: Seq<char>) -> bool {
    forall|i: int| 0 <= i < s.len() ==> is_white_space_char(#[trigger] s[i])
}

/// Whether a text has something else than white space at both ends.
pub open spec fn has_firm_ends(s: Seq<char>) -> bool {
    s.len() > 0 && !is_white_space_char(s[0]) && !is_white_space_char(s.last())
}

/// `s`, `n` times in a row.
pub open spec fn repeated(s: Seq<char>, n: nat) -> Seq<char>
    decreases n,
{
    if n == 0 {
        seq![]
    } else {
        repeated(s, (n - 1) as nat) + s
    }
}

/// The number that a row of digits stands for, by the codes of the characters.
pub open spec fn digits_value(s: Seq<char>) -> nat
    decreases s.len(),
{
    if s.len() == 0 {
        0
    } else {
        10 * digits_value(s.drop_last()) + (s.last() as nat - 48) as nat
    }
}

/// A number in decimal is made of digits, reads as that number, and has no zero in front unless it
/// is zero.
pub proof fn decimals_read_as_their_number(n: nat)
    ensures
        decimal(n).len() > 0,
        forall|i: int|
            0 <= i < decimal(n).len() ==> 48 <= (#[trigger] decimal(n)[i]) as nat <= 57,
        digits_value(decimal(n)) == n,
        n > 0 ==> decimal(n)[0] != '0',
    decreases n,
{
    if n < 10 {
        assert(decimal(n).drop_last() =~= seq![]);
        assert(digits_value(decimal(n).drop_last()) == 0);
    } else {
        decimals_read_as_their_number(n / 10);
        assert(decimal(n).drop_last() =~= decimal(n / 10));
    }
}

/// White space is the tab and the four characters after it, the space, and eighteen characters
/// beyond ASCII. No letter, digit or mark of ASCII is among it.
pub proof fn white_space_is_known_by_its_codes(c: char)
    ensures
        c as u32 <= 127 ==> (is_white_space_char(c) <==> 9 <= c as u32 <= 13 || c as u32 == 32),
        c as u32 > 127 ==> (is_white_space_char(c) <==> c as u32 == 0x85 || c as u32 == 0xa0
            || c as u32 == 0x1680 || 0x2000 <= c as u32 <= 0x200a || c as u32 == 0x2028 || c as u32
            == 0x2029 || c as u32 == 0x202f || c as u32 == 0x205f || c as u32 == 0x3000),
{
}

/// What is left between white space is kept whole, whatever it holds.
pub proof fn trimming_keeps_what_stands_between(before: Seq<char>, s: Seq<char>, after: Seq<char>)
    requires
        is_blank(before),
        has_firm_ends(s),
        is_blank(after),
    ensures
        trimmed(before + s + after) == s,
{
    leading_blank_is_cut(before, s + after);
    assert(before + s + after =~= before + (s + after));
    assert((s + after)[0] == s[0]);
    trailing_blank_is_cut(s, after);
}

/// Nothing is left of white space.
pub proof fn nothing_is_left_of_white_space(s: Seq<char>)
    requires
        is_blank(s),
    ensures
        trimmed(s) == Seq::<char>::empty(),
{
    let nothing = Seq::<char>::empty();
    leading_blank_is_cut(s, nothing);
    assert(s + nothing =~= s);
}

/// Something is left of a text that holds something else than white space.
pub proof fn something_is_left_of_the_rest(s: Seq<char>, i: int)
    requires
        0 <= i < s.len(),
        !is_white_space_char(s[i]),
    ensures
        trimmed(s).len() > 0,
{
    let inner = without_leading_space(s);
    firm_characters_stay(s, i);
    let j = choose|j: int| 0 <= j < inner.len() && inner[j] == s[i];
    firm_characters_stay_in_front(inner, j);
}

proof fn firm_characters_stay(s: Seq<char>, i: int)
    requires
        0 <= i < s.len(),
        !is_white_space_char(s[i]),
    ensures
        exists|j: int|
            0 <= j < without_leading_space(s).len() && without_leading_space(s)[j] == s[i],
    decreases s.len(),
{
    if is_white_space_char(s[0]) {
        let rest = s.drop_first();
        assert(rest[i - 1] == s[i]);
        firm_characters_stay(rest, i - 1);
        let j = choose|j: int|
            0 <= j < without_leading_space(rest).len() && without_leading_space(rest)[j] == rest[i
                - 1];
        assert(without_leading_space(s)[j] == s[i]);
    } else {
        assert(without_leading_space(s)[i] == s[i]);
    }
}

proof fn firm_characters_stay_in_front(s: Seq<char>, i: int)
    requires
        0 <= i < s.len(),
        !is_white_space_char(s[i]),
    ensures
        without_trailing_space(s).len() > i,
    decreases s.len(),
{
    if is_white_space_char(s.last()) {
        firm_characters_stay_in_front(s.drop_last(), i);
    }
}

proof fn leading_blank_is_cut(blank: Seq<char>, s: Seq<char>)
    requires
        is_blank(blank),
        s.len() > 0 ==> !is_white_space_char(s[0]),
    ensures
        without_leading_space(blank + s) == s,
    decreases blank.len(),
{
    if blank.len() == 0 {
        assert(blank + s =~= s);
    } else {
        assert((blank + s)[0] == blank[0]);
        assert((blank + s).drop_first() =~= blank.drop_first() + s);
        leading_blank_is_cut(blank.drop_first(), s);
    }
}

proof fn trailing_blank_is_cut(s: Seq<char>, blank: Seq<char>)
    requires
        is_blank(blank),
        s.len() > 0 ==> !is_white_space_char(s.last()),
    ensures
        without_trailing_space(s + blank) == s,
    decreases blank.len(),
{
    if blank.len() == 0 {
        assert(s + blank =~= s);
    } else {
        assert((s + blank).last() == blank.last());
        assert((s + blank).drop_last() =~= s + blank.drop_last());
        trailing_blank_is_cut(s, blank.drop_last());
    }
}

/// A text ends with another if and only if it is something followed by that other.
pub proof fn an_end_follows_something(front: Seq<char>, s: Seq<char>, suffix: Seq<char>)
    ensures
        ends_with_text(front + suffix, suffix),
        ends_with_text(s, suffix) ==> s.len() >= suffix.len() && s == s.subrange(
            0,
            s.len() - suffix.len(),
        ) + suffix,
{
    let whole = front + suffix;
    assert(whole.subrange(whole.len() - suffix.len(), whole.len() as int) =~= suffix);
    if ends_with_text(s, suffix) {
        assert(s =~= s.subrange(0, s.len() - suffix.len()) + s.subrange(
            s.len() - suffix.len(),
            s.len() as int,
        ));
    }
}

/// Taking a suffix off undoes putting it there any number of times, and takes nothing else.
pub proof fn suffixes_are_taken_off_and_nothing_else(s: Seq<char>, suffix: Seq<char>, n: nat)
    requires
        suffix.len() > 0,
        !ends_with_text(s, suffix),
    ensures
        without_suffixes(s + repeated(suffix, n), suffix) == s,
    decreases n,
{
    if n == 0 {
        assert(s + repeated(suffix, n) =~= s);
    } else {
        let fewer = s + repeated(suffix, (n - 1) as nat);
        assert(s + repeated(suffix, n) =~= fewer + suffix);
        a_suffix_is_taken_off(fewer, suffix);
        suffixes_are_taken_off_and_nothing_else(s, suffix, (n - 1) as nat);
    }
}

/// A text holds another if and only if that other stands between two parts of it.
pub proof fn a_text_holds_what_stands_in_it(
    before: Seq<char>,
    needle: Seq<char>,
    after: Seq<char>,
    s: Seq<char>,
)
    ensures
        contains_text(before + needle + after, needle),
        contains_text(s, needle) ==> exists|front: Seq<char>, back: Seq<char>|
            s == #[trigger] ((front + needle) + back),
{
    let whole = before + needle + after;
    let i = before.len() as int;
    assert(whole.subrange(i, i + needle.len()) =~= needle);
    if contains_text(s, needle) {
        let i = choose|i: int|
            0 <= i <= s.len() - needle.len() && #[trigger] s.subrange(i, i + needle.len())
                == needle;
        let front = s.subrange(0, i);
        let back = s.subrange(i + needle.len(), s.len() as int);
        assert(s =~= front + needle + back);
    }
}

} // verus!
