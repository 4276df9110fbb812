//! Text: white space, decimal numbers and lists of strings.

use vstd::prelude::*;

verus! {

/// Whether a character has the Unicode property `White_Space`.
pub open spec fn white_space(c: char) -> bool {
    let code = c as u32;
    ||| 0x9 <= code <= 0xd
    ||| code == 0x20
    ||| code == 0x85
    ||| code == 0xa0
    ||| code == 0x1680
    ||| 0x2000 <= code <= 0x200a
    ||| code == 0x2028
    ||| code == 0x2029
    ||| code == 0x202f
    ||| code == 0x205f
    ||| code == 0x3000
}

/// Tells whether `c` is white space, as Unicode defines it.
pub fn is_white_space(c: char) -> (yes: bool)
    ensures
        yes == white_space(c),
{
    let code: u32 = c as u32;
    (0x9 <= code && code <= 0xd) || code == 0x20 || code == 0x85 || code == 0xa0 || code == 0x1680
        || (0x2000 <= code && code <= 0x200a) || code == 0x2028 || code == 0x2029 || code == 0x202f
        || code == 0x205f || code == 0x3000
}

/// A text without its leading white space.
pub open spec fn trimmed_start(s: Seq<char>) -> Seq<char>
    decreases s.len(),
{
    if s.len() > 0 && white_space(s.first()) {
        trimmed_start(s.drop_first())
    } else {
        s
    }
}

/// A text without its trailing white space.
pub open spec fn trimmed_end(s: Seq<char>) -> Seq<char>
    decreases s.len(),
{
    if s.len() > 0 && white_space(s.last()) {
        trimmed_end(s.drop_last())
    } else {
        s
    }
}

/// A text without white space at either end.
pub open spec fn trimmed(s: Seq<char>) -> Seq<char> {
    trimmed_end(trimmed_start(s))
}

/// Exactly these characters are white space: the tabulator and the four characters behind it, up to
/// the carriage return, the space, and the separators that Unicode counts among it.
pub proof fn white_space_characters(c: char)
    ensures
        white_space(c) <==> seq![
            '\t',
            '\n',
            '\u{b}',
            '\u{c}',
            '\r',
            ' ',
            '\u{85}',
            '\u{a0}',
            '\u{1680}',
            '\u{2000}',
            '\u{2001}',
            '\u{2002}',
            '\u{2003}',
            '\u{2004}',
            '\u{2005}',
            '\u{2006}',
            '\u{2007}',
            '\u{2008}',
            '\u{2009}',
            '\u{200a}',
            '\u{2028}',
            '\u{2029}',
            '\u{202f}',
            '\u{205f}',
            '\u{3000}',
        ].contains(c),
{
}

/// The views of a list of strings.
pub open spec fn texts(list: Seq<String>) -> Seq<Seq<char>> {
    Seq::new(list.len(), |i: int| list[i]@)
}

/// The characters of `text`, one by one.
pub fn characters(text: &str) -> (list: Vec<char>)
    ensures
        list@ == text@,
{
    let mut list: Vec<char> = Vec::new();
    for c in it: text.chars()
        invariant
            it.seq() == text@,
            list@ == text@.take(it.index() as int),
    {
        list.push(c);
    }
    assert(text@.take(text@.len() as int) == text@);
    list
}

/// `text` without its trailing white space.
pub fn trim_end(text: &str) -> (kept: &str)
    ensures
        kept@ == trimmed_end(text@),
{
    let list = characters(text);
    let mut end: usize = list.len();
    assert(text@.take(end as int) == text@);
    while end > 0 && is_white_space(list[end - 1])
        invariant
            list@ == text@,
            end <= list@.len(),
            trimmed_end(text@.take(end as int)) == trimmed_end(text@),
        decreases end,
    {
        assert(text@.take(end as int).drop_last() == text@.take(end - 1));
        end -= 1;
    }
    assert(text@.subrange(0, end as int) == text@.take(end as int));
    text.substring_char(0, end)
}

/// `text` without white space at either end.
pub fn trim(text: &str) -> (kept: &str)
    ensures
        kept@ == trimmed(text@),
{
    let list = characters(text);
    let mut start: usize = 0;
    assert(text@.skip(0) == text@);
    while start < list.len() && is_white_space(list[start])
        invariant
            list@ == text@,
            start <= list@.len(),
            trimmed_start(text@.skip(start as int)) == trimmed_start(text@),
        decreases list@.len() - start,
    {
        assert(text@.skip(start as int).drop_first() == text@.skip(start + 1));
        start += 1;
    }
    assert(text@.subrange(start as int, list@.len() as int) == text@.skip(start as int));
    trim_end(text.substring_char(start, list.len()))
}

/// A text loses nothing when it is trimmed at the end but the white space that stood there.
pub proof fn trimmed_end_keeps_the_rest(s: Seq<char>)
    ensures
        trimmed_end(s).len() <= s.len(),
        trimmed_end(s) == s.take(trimmed_end(s).len() as int),
        forall|i: int| trimmed_end(s).len() <= i < s.len() ==> white_space(#[trigger] s[i]),
        trimmed_end(s).len() > 0 ==> !white_space(trimmed_end(s).last()),
    decreases s.len(),
{
    if s.len() > 0 && white_space(s.last()) {
        let shorter = s.drop_last();
        trimmed_end_keeps_the_rest(shorter);
        assert(shorter.take(trimmed_end(shorter).len() as int) == s.take(
            trimmed_end(shorter).len() as int,
        ));
        assert forall|i: int| trimmed_end(s).len() <= i < s.len() implies white_space(
            #[trigger] s[i],
        ) by {
            if i < shorter.len() {
                assert(white_space(shorter[i]));
            }
        }
    } else {
        assert(s.take(s.len() as int) == s);
    }
}

/// A text loses nothing when it is trimmed at the start but the white space that stood there.
pub proof fn trimmed_start_keeps_the_rest(s: Seq<char>)
    ensures
        trimmed_start(s).len() <= s.len(),
        trimmed_start(s) == s.skip(s.len() - trimmed_start(s).len()),
        forall|i: int|
            0 <= i < s.len() - trimmed_start(s).len() ==> white_space(#[trigger] s[i]),
        trimmed_start(s).len() > 0 ==> !white_space(trimmed_start(s).first()),
    decreases s.len(),
{
    if s.len() > 0 && white_space(s.first()) {
        let shorter = s.drop_first();
        trimmed_start_keeps_the_rest(shorter);
        assert(shorter.skip(shorter.len() - trimmed_start(shorter).len()) == s.skip(
            s.len() - trimmed_start(shorter).len(),
        ));
        assert forall|i: int| 0 <= i < s.len() - trimmed_start(s).len() implies white_space(
            #[trigger] s[i],
        ) by {
            if i > 0 {
                assert(white_space(shorter[i - 1]));
            }
        }
    } else {
        assert(s.skip(0) == s);
    }
}

/// A trimmed text has no white space at its ends, so trimming it again changes nothing.
pub proof fn trimming_twice_is_trimming_once(s: Seq<char>)
    ensures
        trimmed(s).len() > 0 ==> !white_space(trimmed(s).first()) && !white_space(
            trimmed(s).last(),
        ),
        trimmed(trimmed(s)) == trimmed(s),
{
    trimmed_start_keeps_the_rest(s);
    trimmed_end_keeps_the_rest(trimmed_start(s));
}

/// A text is trimmed to nothing exactly when all of it is white space.
pub proof fn trimmed_is_empty_iff_blank(s: Seq<char>)
    ensures
        trimmed(s).len() == 0 <==> (forall|i: int|
            0 <= i < s.len() ==> white_space(#[trigger] s[i])),
{
    let t = trimmed_start(s);
    trimmed_start_keeps_the_rest(s);
    trimmed_end_keeps_the_rest(t);
    if trimmed(s).len() == 0 {
        if t.len() > 0 {
            assert(white_space(t[0]));
        }
    } else {
        assert(!white_space(t.first()));
        assert(!white_space(s[s.len() - t.len()]));
    }
}

/// A trimmed text is a part of the text, and nothing but white space stands before and behind it:
/// white space at the ends does not matter, whatever it is, and all else is kept.
pub proof fn trimming_keeps_all_between_the_ends(
    before: Seq<char>,
    text: Seq<char>,
    after: Seq<char>,
)
    requires
        forall|i: int| 0 <= i < before.len() ==> white_space(#[trigger] before[i]),
        forall|i: int| 0 <= i < after.len() ==> white_space(#[trigger] after[i]),
        text.len() > 0 ==> !white_space(text.first()) && !white_space(text.last()),
    ensures
        trimmed(before + text + after) == text,
        trimmed_end(text + after) == text,
{
    let s = before + text + after;
    let t = trimmed_start(s);
    trimmed_start_keeps_the_rest(s);
    trimmed_end_keeps_the_rest(t);
    trimmed_end_keeps_the_rest(text + after);
    let cut = s.len() - t.len();
    if text.len() > 0 {
        assert(s[before.len() as int] == text[0]);
        if cut < before.len() {
            assert(s[cut] == before[cut]);
            assert(t.first() == s[cut]);
        }
        assert(cut == before.len());
        assert(t == text + after);
        let u = trimmed_end(t);
        assert(t[text.len() - 1] == text.last());
        if u.len() > text.len() {
            assert(u.last() == after[u.len() - 1 - text.len()]);
        }
        assert(u == text);
    } else {
        trimmed_is_empty_iff_blank(s);
        assert forall|i: int| 0 <= i < s.len() implies white_space(#[trigger] s[i]) by {
            if i < before.len() {
                assert(s[i] == before[i]);
            } else {
                assert(s[i] == after[i - before.len()]);
            }
        }
        assert(trimmed(s) == text);
        let u = trimmed_end(text + after);
        if u.len() > 0 {
            assert(u.last() == after[u.len() - 1]);
        }
        assert(u == text);
    }
}

/// Where a character first occurs in a text; the length of the text if it does not.
pub open spec fn first_of(s: Seq<char>, c: char) -> int
    decreases s.len(),
{
    if s.len() == 0 || s.first() == c {
        0
    } else {
        1 + first_of(s.drop_first(), c)
    }
}

/// Where a character last occurs in a text; -1 if it does not.
pub open spec fn last_of(s: Seq<char>, c: char) -> int
    decreases s.len(),
{
    if s.len() == 0 || s.last() == c {
        s.len() - 1
    } else {
        last_of(s.drop_last(), c)
    }
}

/// The first occurrence of a character is one, and none stands before it.
pub proof fn first_of_is_first(s: Seq<char>, c: char)
    ensures
        0 <= first_of(s, c) <= s.len(),
        first_of(s, c) < s.len() ==> s[first_of(s, c)] == c,
        forall|i: int| 0 <= i < first_of(s, c) ==> #[trigger] s[i] != c,
    decreases s.len(),
{
    if s.len() > 0 && s.first() != c {
        first_of_is_first(s.drop_first(), c);
        assert forall|i: int| 0 <= i < first_of(s, c) implies #[trigger] s[i] != c by {
            if i > 0 {
                assert(s[i] == s.drop_first()[i - 1]);
            }
        }
    }
}

/// The last occurrence of a character is one, and none stands behind it.
pub proof fn last_of_is_last(s: Seq<char>, c: char)
    ensures
        -1 <= last_of(s, c) < s.len(),
        last_of(s, c) >= 0 ==> s[last_of(s, c)] == c,
        forall|i: int| last_of(s, c) < i < s.len() ==> #[trigger] s[i] != c,
    decreases s.len(),
{
    if s.len() > 0 && s.last() != c {
        last_of_is_last(s.drop_last(), c);
        assert forall|i: int| last_of(s, c) < i < s.len() implies #[trigger] s[i] != c by {
            if i < s.len() - 1 {
                assert(s[i] == s.drop_last()[i]);
            }
        }
    }
}

/// The place where `c` first occurs in `list`.
pub fn find_first(list: &Vec<char>, c: char) -> (place: Option<usize>)
    ensures
        match place {
            Some(place) => place == first_of(list@, c) && place < list@.len(),
            None => first_of(list@, c) == list@.len(),
        },
{
    let mut i: usize = 0;
    assert(list@.skip(0) == list@);
    while i < list.len()
        invariant
            i <= list@.len(),
            first_of(list@, c) == i + first_of(list@.skip(i as int), c),
        decreases list@.len() - i,
    {
        if list[i] == c {
            return Some(i);
        }
        assert(list@.skip(i as int).drop_first() == list@.skip(i + 1));
        i += 1;
    }
    None
}

/// The place where `c` last occurs in `list`.
pub fn find_last(list: &Vec<char>, c: char) -> (place: Option<usize>)
    ensures
        match place {
            Some(place) => place == last_of(list@, c) && place < list@.len(),
            None => last_of(list@, c) == -1,
        },
{
    let mut end: usize = list.len();
    assert(list@.take(end as int) == list@);
    while end > 0
        invariant
            end <= list@.len(),
            last_of(list@, c) == last_of(list@.take(end as int), c),
        decreases end,
    {
        if list[end - 1] == c {
            return Some(end - 1);
        }
        assert(list@.take(end as int).drop_last() == list@.take(end - 1));
        end -= 1;
    }
    None
}

/// The character of one decimal digit.
pub open spec fn digit(d: nat) -> char {
    seq!['0', '1', '2', '3', '4', '5', '6', '7', '8', '9'][d as int]
}

/// A number in decimal notation, without leading zeros.
pub open spec fn decimal(n: nat) -> Seq<char>
    decreases n,
{
    if n < 10 {
        seq![digit(n)]
    } else {
        decimal(n / 10).push(digit(n % 10))
    }
}

/// The number that a sequence of decimal digits denotes.
pub open spec fn denoted(s: Seq<char>) -> nat
    decreases s.len(),
{
    if s.len() == 0 {
        0
    } else {
        denoted(s.drop_last()) * 10 + (s.last() as u32 - '0' as u32) as nat
    }
}

/// The decimal notation of a number denotes that number.
pub proof fn decimal_denotes_its_number(n: nat)
    ensures
        denoted(decimal(n)) == n,
    decreases n,
{
    reveal_with_fuel(denoted, 2);
    if n >= 10 {
        decimal_denotes_its_number(n / 10);
        assert(decimal(n).drop_last() == decimal(n / 10));
    } else {
        assert(decimal(n).drop_last() == Seq::<char>::empty());
    }
}

/// A decimal notation holds digits only, and begins with a zero only where it is that of zero.
pub proof fn decimals_hold_digits(n: nat)
    ensures
        decimal(n).len() > 0,
        forall|i: int| 0 <= i < decimal(n).len() ==> '0' <= #[trigger] decimal(n)[i] <= '9',
        n > 0 ==> decimal(n).first() != '0',
    decreases n,
{
    if n >= 10 {
        decimals_hold_digits(n / 10);
        assert(decimal(n).first() == decimal(n / 10).first());
    }
}

/// The views of a list are those of its strings, one for one.
pub proof fn texts_are_those_of_the_strings(list: Seq<String>)
    ensures
        texts(list).len() == list.len(),
        forall|i: int| 0 <= i < list.len() ==> #[trigger] texts(list)[i] == list[i]@,
{
}

fn digit_text(d: u128) -> (text: &'static str)
    requires
        d < 10,
    ensures
        text@ == seq![digit(d as nat)],
{
    proof {
        reveal_strlit("0");
        reveal_strlit("1");
        reveal_strlit("2");
        reveal_strlit("3");
        reveal_strlit("4");
        reveal_strlit("5");
        reveal_strlit("6");
        reveal_strlit("7");
        reveal_strlit("8");
        reveal_strlit("9");
    }
    if d == 0 {
        "0"
    } else if d == 1 {
        "1"
    } else if d == 2 {
        "2"
    } else if d == 3 {
        "3"
    } else if d == 4 {
        "4"
    } else if d == 5 {
        "5"
    } else if d == 6 {
        "6"
    } else if d == 7 {
        "7"
    } else if d == 8 {
        "8"
    } else {
        "9"
    }
}

/// Appends the decimal notation of `n` to `out`.
pub fn push_decimal(out: &mut String, n: u128)
    ensures
        final(out)@ == old(out)@ + decimal(n as nat),
    decreases n,
{
    if n >= 10 {
        push_decimal(out, n / 10);
    }
    out.append(digit_text(n % 10));
}

/// To trim a text takes away the white space at its ends, all of it and nothing else.
pub proof fn trimming_takes_white_space_from_the_ends(
    text: &str,
    kept: &str,
    kept_end: &str,
    before: Seq<char>,
    middle: Seq<char>,
    after: Seq<char>,
)
    requires
        call_ensures(trim, (text,), kept),
        call_ensures(trim_end, (text,), kept_end),
        text@ == before + middle + after,
        forall|i: int| 0 <= i < before.len() ==> white_space(#[trigger] before[i]),
        forall|i: int| 0 <= i < after.len() ==> white_space(#[trigger] after[i]),
        middle.len() > 0,
        !white_space(middle.first()),
        !white_space(middle.last()),
    ensures
        kept@ == middle,
        kept_end@ == before + middle,
{
    trimming_keeps_all_between_the_ends(before, middle, after);
    let end = trimmed_end(text@);
    trimmed_end_keeps_the_rest(text@);
    assert(text@[before.len() + middle.len() - 1] == middle.last());
    if end.len() > before.len() + middle.len() {
        assert(end.last() == after[end.len() - 1 - before.len() - middle.len()]);
    }
    assert(end == before + middle);
}

} // verus!
