//! Text primitives shared by the hotkey and Hyprland modules.
//!
//! Every string is modelled by its view, the sequence of its characters.

use vstd::prelude::*;
use vstd::string::StrSliceExecFns;
use vstd::string::StringExecFns;

verus! {

/// Whether `c` is white space in the sense of `char::is_whitespace`.
pub uninterp spec fn is_unicode_whitespace(c: char) -> bool;

/// The upper-case form that `str::to_uppercase` gives to `text`.
pub uninterp spec fn uppercased(text: Seq<char>) -> Seq<char>;

/// Calls `char::is_whitespace`. Trusted: the answer depends on the character
/// alone, so it is the value of [`is_unicode_whitespace`] at `c`.
#[verifier::external_body]
pub(crate) fn is_whitespace(c: char) -> (r: bool)
    ensures
        r == is_unicode_whitespace(c),
{
    c.is_whitespace()
}

/// Calls `str::to_uppercase`. Trusted: the result depends on the characters of
/// `text` alone, so it is the value of [`uppercased`] at `text@`.
#[verifier::external_body]
pub(crate) fn uppercase(text: &str) -> (r: String)
    ensures
        r@ == uppercased(text@),
{
    text.to_uppercase()
}

/// The model of an optional string.
pub open spec fn text_of(text: Option<&str>) -> Option<Seq<char>> {
    match text {
        Some(text) => Some(text@),
        None => None,
    }
}

/// The models of the strings in `parts`.
pub open spec fn texts_of(parts: Seq<&str>) -> Seq<Seq<char>> {
    parts.map_values(|part: &str| part@)
}

/// The texts in `parts`, in order, with `separator` between each two.
pub open spec fn joined(parts: Seq<Seq<char>>, separator: Seq<char>) -> Seq<char>
    decreases parts.len(),
{
    if parts.len() == 0 {
        Seq::empty()
    } else if parts.len() == 1 {
        parts[0]
    } else {
        joined(parts.drop_last(), separator) + separator + parts.last()
    }
}

/// Every character of `text` is an ASCII digit.
pub open spec fn all_ascii_digits(text: Seq<char>) -> bool {
    forall|i: int| 0 <= i < text.len() ==> is_ascii_digit(#[trigger] text[i])
}

/// `text` without its leading white space.
pub open spec fn trim_start(text: Seq<char>) -> Seq<char>
    decreases text.len(),
{
    if text.len() > 0 && is_unicode_whitespace(text.first()) {
        trim_start(text.drop_first())
    } else {
        text
    }
}

/// `text` without its trailing white space.
pub open spec fn trim_end(text: Seq<char>) -> Seq<char>
    decreases text.len(),
{
    if text.len() > 0 && is_unicode_whitespace(text.last()) {
        trim_end(text.drop_last())
    } else {
        text
    }
}

/// `text` without leading and trailing white space.
pub open spec fn trimmed(text: Seq<char>) -> Seq<char> {
    trim_end(trim_start(text))
}

/// `needle` occurs in `haystack` starting at index `at`.
pub open spec fn occurs_at(haystack: Seq<char>, needle: Seq<char>, at: int) -> bool {
    &&& 0 <= at
    &&& at + needle.len() <= haystack.len()
    &&& haystack.subrange(at, at + needle.len()) == needle
}

/// `needle` occurs somewhere in `haystack`.
pub open spec fn contains_text(haystack: Seq<char>, needle: Seq<char>) -> bool {
    exists|at: int| occurs_at(haystack, needle, at)
}

/// `text` begins with `prefix`.
pub open spec fn starts_with(text: Seq<char>, prefix: Seq<char>) -> bool {
    prefix.len() <= text.len() && text.subrange(0, prefix.len() as int) == prefix
}

/// `c` is one of the ten ASCII digits.
pub open spec fn is_ascii_digit(c: char) -> bool {
    '0' <= c && c <= '9'
}

/// The characters of `text`, in order.
pub(crate) fn chars_of(text: &str) -> (r: Vec<char>)
    ensures
        r@ == text@,
{
    let mut chars: Vec<char> = Vec::new();
    for c in it: text.chars()
        invariant
            chars@ == it.seq().take(it.index()),
    {
        chars.push(c);
    }
    chars
}

/// Whether the characters in `chars` spell exactly `literal`.
pub(crate) fn spells(chars: &Vec<char>, literal: &str) -> (r: bool)
    ensures
        r == (chars@ == literal@),
{
    let mut matched: usize = 0;
    let mut same: bool = true;
    for c in it: literal.chars()
        invariant
            it.seq() == literal@,
            same ==> matched == it.index() && matched <= chars@.len() && chars@.take(
                matched as int,
            ) =~= literal@.take(matched as int),
            !same ==> chars@ != literal@,
    {
        if same {
            if matched < chars.len() && chars[matched] == c {
                matched = matched + 1;
            } else {
                same = false;
            }
        }
    }
    proof {
        if same {
            assert(literal@.take(matched as int) =~= literal@);
            if matched == chars@.len() {
                assert(chars@.take(matched as int) =~= chars@);
            }
        }
    }
    same && matched == chars.len()
}

/// `text` without leading and trailing white space, as `str::trim` gives it.
pub(crate) fn trim<'a>(text: &'a str) -> (r: &'a str)
    ensures
        r@ == trimmed(text@),
{
    let chars = chars_of(text);
    let mut start: usize = 0;
    assert(text@.skip(0) =~= text@);
    while start < chars.len() && is_whitespace(chars[start])
        invariant
            chars@ == text@,
            start <= chars@.len(),
            trim_start(text@) == trim_start(text@.skip(start as int)),
        decreases chars@.len() - start,
    {
        assert(text@.skip(start as int).drop_first() =~= text@.skip(start + 1));
        start = start + 1;
    }
    let mut end: usize = chars.len();
    while end > start && is_whitespace(chars[end - 1])
        invariant
            chars@ == text@,
            start <= end <= chars@.len(),
            trimmed(text@) == trim_end(text@.subrange(start as int, end as int)),
        decreases end,
    {
        assert(text@.subrange(start as int, end as int).drop_last() =~= text@.subrange(
            start as int,
            end - 1,
        ));
        end = end - 1;
    }
    text.substring_char(start, end)
}

/// Whether `wanted` is one of the characters of `text`.
pub(crate) fn contains_char(text: &str, wanted: char) -> (r: bool)
    ensures
        r == text@.contains(wanted),
{
    let mut found: bool = false;
    for c in it: text.chars()
        invariant
            it.seq() == text@,
            found == text@.take(it.index()).contains(wanted),
    {
        proof {
            if c == wanted {
                assert(text@.take(it.index() + 1)[it.index()] == wanted);
            }
        }
        if c == wanted {
            found = true;
        }
    }
    assert(text@.take(text@.len() as int) =~= text@);
    found
}

/// Whether the last character of `text` is `wanted`.
pub(crate) fn ends_with_char(text: &str, wanted: char) -> (r: bool)
    ensures
        r == (text@.len() > 0 && text@.last() == wanted),
{
    let chars = chars_of(text);
    chars.len() > 0 && chars[chars.len() - 1] == wanted
}

/// Whether `pin` occurs in `hay` at index `at`.
fn matches_at(hay: &Vec<char>, pin: &Vec<char>, at: usize) -> (r: bool)
    requires
        at + pin@.len() <= hay@.len(),
    ensures
        r == occurs_at(hay@, pin@, at as int),
{
    let total: usize = hay.len();
    let mut k: usize = 0;
    while k < pin.len()
        invariant
            k <= pin@.len(),
            at + pin@.len() <= hay@.len() == total,
            forall|j: int| 0 <= j < k ==> hay@[at + j] == pin@[j],
        decreases pin@.len() - k,
    {
        if hay[at + k] != pin[k] {
            return false;
        }
        k = k + 1;
    }
    assert(hay@.subrange(at as int, at + pin@.len()) =~= pin@);
    true
}

/// Whether `needle` occurs in `haystack`, as `str::contains` decides it for a
/// string pattern.
pub(crate) fn contains(haystack: &str, needle: &str) -> (r: bool)
    ensures
        r == contains_text(haystack@, needle@),
{
    let hay = chars_of(haystack);
    let pin = chars_of(needle);
    if pin.len() > hay.len() {
        return false;
    }
    let last: usize = hay.len() - pin.len();
    let mut at: usize = 0;
    loop
        invariant
            hay@ == haystack@,
            pin@ == needle@,
            last == hay@.len() - pin@.len(),
            at <= last,
            forall|k: int| 0 <= k < at ==> !occurs_at(hay@, pin@, k),
        decreases last - at,
    {
        if matches_at(&hay, &pin, at) {
            return true;
        }
        if at == last {
            return false;
        }
        at = at + 1;
    }
}

/// What follows `prefix` in `text`, or `None` where `text` does not begin
/// with `prefix`.
pub(crate) fn strip_prefix<'a>(text: &'a str, prefix: &str) -> (r: Option<&'a str>)
    ensures
        match r {
            Some(rest) => starts_with(text@, prefix@) && rest@ == text@.skip(
                prefix@.len() as int,
            ),
            None => !starts_with(text@, prefix@),
        },
{
    let chars = chars_of(text);
    let lead = chars_of(prefix);
    if lead.len() > chars.len() {
        return None;
    }
    if !matches_at(&chars, &lead, 0) {
        return None;
    }
    Some(text.substring_char(lead.len(), chars.len()))
}

/// Whether every character of `chars` from index `from` on is an ASCII digit.
pub(crate) fn digits_from(chars: &Vec<char>, from: usize) -> (r: bool)
    requires
        from <= chars@.len(),
    ensures
        r == all_ascii_digits(chars@.skip(from as int)),
{
    let mut i: usize = from;
    while i < chars.len()
        invariant
            from <= i <= chars@.len(),
            forall|k: int| from <= k < i ==> is_ascii_digit(#[trigger] chars@[k]),
        decreases chars@.len() - i,
    {
        let c: char = chars[i];
        if !(c >= '0' && c <= '9') {
            assert(chars@.skip(from as int)[i - from] == c);
            return false;
        }
        i = i + 1;
    }
    true
}

/// The strings in `parts`, in order, with `separator` between each two.
pub(crate) fn join(parts: &Vec<&str>, separator: &str) -> (r: String)
    ensures
        r@ == joined(texts_of(parts@), separator@),
{
    let mut line = String::new();
    let mut i: usize = 0;
    while i < parts.len()
        invariant
            i <= parts@.len(),
            line@ == joined(texts_of(parts@).take(i as int), separator@),
        decreases parts@.len() - i,
    {
        assert(texts_of(parts@).take(i + 1).drop_last() =~= texts_of(parts@).take(i as int));
        if i > 0 {
            line.append(separator);
        }
        line.append(parts[i]);
        i = i + 1;
    }
    assert(texts_of(parts@).take(parts@.len() as int) =~= texts_of(parts@));
    line
}

} // verus!
