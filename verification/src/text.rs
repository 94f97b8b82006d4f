//! The questions about texts that the pipeline decides by: white space, trimming, endings, pieces
//! and prefixes.
use vstd::prelude::*;
use vstd::string::*;

verus! {

/// Unicode's `White_Space` property.
pub open spec fn white_space(c: char) -> bool {
    let n = c as u32;
    ||| 0x9 <= n <= 0xd
    ||| n == 0x20
    ||| n == 0x85
    ||| n == 0xa0
    ||| n == 0x1680
    ||| 0x2000 <= n <= 0x200a
    ||| n == 0x2028
    ||| n == 0x2029
    ||| n == 0x202f
    ||| n == 0x205f
    ||| n == 0x3000
}

/// Whether a text holds nothing but white space (or nothing at all).
pub open spec fn blank(s: Seq<char>) -> bool {
    forall|i: int| 0 <= i < s.len() ==> white_space(#[trigger] s[i])
}

/// A text without the white space at its end.
pub open spec fn trimmed_end(s: Seq<char>) -> Seq<char>
    decreases s.len(),
{
    if s.len() > 0 && white_space(s.last()) {
        trimmed_end(s.drop_last())
    } else {
        s
    }
}

/// A text without the white space at its start.
pub open spec fn trimmed_start(s: Seq<char>) -> Seq<char>
    decreases s.len(),
{
    if s.len() > 0 && white_space(s.first()) {
        trimmed_start(s.drop_first())
    } else {
        s
    }
}

/// A text without the white space at either end.
pub open spec fn trimmed(s: Seq<char>) -> Seq<char> {
    trimmed_end(trimmed_start(s))
}

/// Whether `part` occurs in `s` as a contiguous piece.
pub open spec fn occurs_in(part: Seq<char>, s: Seq<char>) -> bool {
    exists|i: int| #[trigger] occurs_at(part, s, i)
}

/// Whether `part` stands in `s` from position `i` on.
pub open spec fn occurs_at(part: Seq<char>, s: Seq<char>, i: int) -> bool {
    &&& 0 <= i <= s.len() - part.len()
    &&& s.subrange(i, i + part.len()) == part
}

/// Tells white space.
pub fn is_white_space(c: char) -> (r: bool)
    ensures
        r == white_space(c),
{
    let n: u32 = c as u32;
    (0x9 <= n && n <= 0xd) || n == 0x20 || n == 0x85 || n == 0xa0 || n == 0x1680 || (0x2000 <= n
        && n <= 0x200a) || n == 0x2028 || n == 0x2029 || n == 0x202f || n == 0x205f || n == 0x3000
}

/// Cuts the white space off the end of a text.
pub fn trim_end<'a>(s: &'a str) -> (r: &'a str)
    ensures
        r@ == trimmed_end(s@),
{
    let mut end: usize = s.unicode_len();
    assert(s@.take(s@.len() as int) == s@);
    while end > 0
        invariant_except_break
            trimmed_end(s@.take(end as int)) == trimmed_end(s@),
        invariant
            end <= s@.len(),
        ensures
            s@.take(end as int) == trimmed_end(s@),
        decreases end,
    {
        assert(s@.take(end as int).drop_last() == s@.take(end - 1));
        if !is_white_space(s.get_char(end - 1)) {
            break;
        }
        end = end - 1;
    }
    s.substring_char(0, end)
}

/// Cuts the white space off the start of a text.
pub fn trim_start<'a>(s: &'a str) -> (r: &'a str)
    ensures
        r@ == trimmed_start(s@),
{
    let len: usize = s.unicode_len();
    let mut start: usize = 0;
    assert(s@.skip(0) == s@);
    while start < len
        invariant_except_break
            trimmed_start(s@.skip(start as int)) == trimmed_start(s@),
        invariant
            start <= len,
            len == s@.len(),
        ensures
            s@.skip(start as int) == trimmed_start(s@),
        decreases len - start,
    {
        assert(s@.skip(start as int).drop_first() == s@.skip(start + 1));
        if !is_white_space(s.get_char(start)) {
            break;
        }
        start = start + 1;
    }
    s.substring_char(start, len)
}

/// Cuts the white space off both ends of a text.
pub fn trim<'a>(s: &'a str) -> (r: &'a str)
    ensures
        r@ == trimmed(s@),
{
    trim_end(trim_start(s))
}

/// Tells whether a text ends in the given character.
pub fn ends_with(s: &str, c: char) -> (r: bool)
    ensures
        r == (s@.len() > 0 && s@.last() == c),
{
    let len: usize = s.unicode_len();
    len > 0 && s.get_char(len - 1) == c
}

/// Tells whether `part` stands in `s` from position `i` on.
fn stands_at(part: &str, s: &str, i: usize) -> (r: bool)
    requires
        i + part@.len() <= s@.len() <= usize::MAX,
    ensures
        r == occurs_at(part@, s@, i as int),
{
    let n: usize = part.unicode_len();
    let mut k: usize = 0;
    while k < n
        invariant
            k <= n,
            n == part@.len(),
            i + n <= s@.len() <= usize::MAX,
            forall|j: int| 0 <= j < k ==> s@[i + j] == part@[j],
        decreases n - k,
    {
        if s.get_char(i + k) != part.get_char(k) {
            assert(s@.subrange(i as int, i + n)[k as int] != part@[k as int]);
            return false;
        }
        k = k + 1;
    }
    assert(s@.subrange(i as int, i + n) == part@);
    true
}

/// Tells whether `part` occurs in `s`.
pub fn contains(s: &str, part: &str) -> (r: bool)
    ensures
        r == occurs_in(part@, s@),
{
    let len: usize = s.unicode_len();
    let n: usize = part.unicode_len();
    if n > len {
        return false;
    }
    let last: usize = len - n;
    let mut i: usize = 0;
    loop
        invariant
            i <= last,
            last + n == len,
            len == s@.len(),
            n == part@.len(),
            forall|j: int| 0 <= j < i ==> !occurs_at(part@, s@, j),
        decreases last - i,
    {
        if stands_at(part, s, i) {
            return true;
        }
        if i == last {
            return false;
        }
        i = i + 1;
    }
}

/// Whether `c` is the small letter or other character `small`, or the capital of that letter.
pub open spec fn same_letter(c: char, small: char) -> bool {
    ||| c == small
    ||| 0x41 <= c as u32 <= 0x5a && c as u32 + 0x20 == small as u32
}

/// Whether `s` starts with `prefix`, which is in small letters, in whatever case.
pub open spec fn starts_in_any_case(s: Seq<char>, prefix: Seq<char>) -> bool {
    &&& s.len() >= prefix.len()
    &&& forall|i: int| 0 <= i < prefix.len() ==> same_letter(#[trigger] s[i], prefix[i])
}

/// Tells whether `s` starts with `prefix`, which is in small letters, in whatever case.
pub fn starts_with_any_case(s: &str, prefix: &str) -> (r: bool)
    ensures
        r == starts_in_any_case(s@, prefix@),
{
    let len: usize = s.unicode_len();
    let n: usize = prefix.unicode_len();
    if len < n {
        return false;
    }
    let mut i: usize = 0;
    while i < n
        invariant
            i <= n <= s@.len(),
            n == prefix@.len(),
            forall|j: int| 0 <= j < i ==> same_letter(#[trigger] s@[j], prefix@[j]),
        decreases n - i,
    {
        let c: char = s.get_char(i);
        let small: char = prefix.get_char(i);
        let code: u32 = c as u32;
        let same: bool = c == small || (0x41 <= code && code <= 0x5a && code + 0x20
            == small as u32);
        if !same {
            assert(!same_letter(s@[i as int], prefix@[i as int]));
            return false;
        }
        i = i + 1;
    }
    true
}

/// What trimming the end takes off is white space, and what it leaves does not end in any.
pub proof fn lemma_trimmed_end(s: Seq<char>)
    ensures
        trimmed_end(s).len() <= s.len(),
        trimmed_end(s) == s.take(trimmed_end(s).len() as int),
        blank(s.skip(trimmed_end(s).len() as int)),
        trimmed_end(s).len() > 0 ==> !white_space(trimmed_end(s).last()),
    decreases s.len(),
{
    if s.len() > 0 && white_space(s.last()) {
        let rest = s.drop_last();
        let kept = trimmed_end(s).len() as int;
        lemma_trimmed_end(rest);
        assert(rest.take(kept) == s.take(kept));
        assert forall|i: int| 0 <= i < s.skip(kept).len() implies white_space(
            #[trigger] s.skip(kept)[i],
        ) by {
            if i < rest.skip(kept).len() {
                assert(white_space(rest.skip(kept)[i]));
            }
        }
    } else {
        assert(s.take(s.len() as int) == s);
    }
}

/// What trimming the start takes off is white space, and what it leaves does not start with any.
pub proof fn lemma_trimmed_start(s: Seq<char>)
    ensures
        trimmed_start(s).len() <= s.len(),
        trimmed_start(s) == s.skip(s.len() - trimmed_start(s).len()),
        blank(s.take(s.len() - trimmed_start(s).len())),
        trimmed_start(s).len() > 0 ==> !white_space(trimmed_start(s).first()),
    decreases s.len(),
{
    if s.len() > 0 && white_space(s.first()) {
        let rest = s.drop_first();
        let cut = s.len() - trimmed_start(s).len();
        lemma_trimmed_start(rest);
        assert(rest.skip(cut - 1) == s.skip(cut));
        assert forall|i: int| 0 <= i < s.take(cut).len() implies white_space(
            #[trigger] s.take(cut)[i],
        ) by {
            if i > 0 {
                assert(white_space(rest.take(cut - 1)[i - 1]));
            }
        }
    } else {
        assert(s.skip(0) == s);
    }
}

/// Trimming leaves nothing of a blank text, and something of every other.
pub proof fn lemma_trimmed_blank(s: Seq<char>)
    ensures
        trimmed(s).len() == 0 <==> blank(s),
{
    let t = trimmed_start(s);
    lemma_trimmed_start(s);
    lemma_trimmed_end(t);
    let cut = s.len() - t.len();
    if trimmed(s).len() == 0 {
        assert(t.skip(0) == t);
        assert forall|i: int| 0 <= i < s.len() implies white_space(#[trigger] s[i]) by {
            if i < cut {
                assert(white_space(s.take(cut)[i]));
            } else {
                assert(white_space(t[i - cut]));
            }
        }
    } else {
        assert(t[0] == s[cut]);
    }
}

/// White space is these characters and no others.
pub proof fn lemma_white_space_characters(c: char)
    ensures
        white_space(c) <==> {
            ||| c == '\t' || c == '\n' || c == '\u{b}' || c == '\u{c}' || c == '\r' || c == ' '
            ||| c == '\u{85}' || c == '\u{a0}' || c == '\u{1680}'
            ||| c == '\u{2000}' || c == '\u{2001}' || c == '\u{2002}' || c == '\u{2003}'
            ||| c == '\u{2004}' || c == '\u{2005}' || c == '\u{2006}' || c == '\u{2007}'
            ||| c == '\u{2008}' || c == '\u{2009}' || c == '\u{200a}'
            ||| c == '\u{2028}' || c == '\u{2029}' || c == '\u{202f}' || c == '\u{205f}'
            ||| c == '\u{3000}'
        },
{
}

/// Trimming cuts a text in three: white space, what is kept, and white space again. What is kept
/// neither starts nor ends with white space.
pub proof fn lemma_trimmed(s: Seq<char>)
    ensures
        ({
            let kept = trimmed(s);
            let lead = s.len() - trimmed_start(s).len();
            &&& 0 <= lead <= lead + kept.len() <= s.len()
            &&& s == s.take(lead) + kept + s.skip(lead + kept.len())
            &&& forall|i: int| 0 <= i < lead ==> white_space(#[trigger] s[i])
            &&& forall|i: int| lead + kept.len() <= i < s.len() ==> white_space(#[trigger] s[i])
            &&& kept.len() > 0 ==> !white_space(kept[0]) && !white_space(kept[kept.len() - 1])
        }),
{
    let t = trimmed_start(s);
    let kept = trimmed(s);
    let lead = s.len() - t.len();
    lemma_trimmed_start(s);
    lemma_trimmed_end(t);
    assert(s =~= s.take(lead) + kept + s.skip(lead + kept.len()));
    assert forall|i: int| 0 <= i < lead implies white_space(#[trigger] s[i]) by {
        assert(white_space(s.take(lead)[i]));
    }
    assert forall|i: int| lead + kept.len() <= i < s.len() implies white_space(
        #[trigger] s[i],
    ) by {
        assert(white_space(t.skip(kept.len() as int)[i - lead - kept.len()]));
    }
}

/// Cutting the end leaves alone what stands before the white space: a text that does not end in
/// white space comes back from behind any white space that is put there.
pub proof fn lemma_trimmed_end_of(body: Seq<char>, tail: Seq<char>)
    requires
        blank(tail),
        body.len() > 0 ==> !white_space(body.last()),
    ensures
        trimmed_end(body + tail) == body,
    decreases tail.len(),
{
    if tail.len() == 0 {
        assert(body + tail =~= body);
    } else {
        let rest = tail.drop_last();
        assert forall|i: int| 0 <= i < rest.len() implies white_space(#[trigger] rest[i]) by {
            assert(rest[i] == tail[i]);
        }
        lemma_trimmed_end_of(body, rest);
        assert(white_space(tail[tail.len() - 1]));
        assert((body + tail).drop_last() =~= body + rest);
    }
}

/// A piece occurs in every text that is written round it.
pub proof fn lemma_piece_occurs(before: Seq<char>, part: Seq<char>, behind: Seq<char>)
    ensures
        occurs_in(part, before + part + behind),
{
    let s = before + part + behind;
    assert(s.subrange(before.len() as int, (before.len() + part.len()) as int) =~= part);
    assert(occurs_at(part, s, before.len() as int));
}

/// A text in which a piece occurs is written round it.
pub proof fn lemma_occurring_piece(part: Seq<char>, s: Seq<char>)
    requires
        occurs_in(part, s),
    ensures
        exists|before: Seq<char>, behind: Seq<char>| s == #[trigger] (before + part + behind),
{
    let i = choose|i: int| #[trigger] occurs_at(part, s, i);
    assert(s =~= s.take(i) + part + s.skip(i + part.len()));
}

/// A character of ASCII made small; every other one as it is.
pub open spec fn small_code(c: char) -> int {
    if 'A' as u32 <= c as u32 <= 'Z' as u32 {
        c as u32 - 'A' as u32 + 'a' as u32
    } else {
        c as u32 as int
    }
}

/// A small character is the same letter as those that it is when made small, and no others.
proof fn lemma_same_letter(c: char, small: char)
    requires
        small_code(small) == small as u32,
    ensures
        same_letter(c, small) <==> small_code(c) == small as u32,
{
}

/// A text starts with a prefix without capitals, in whatever case, exactly where as many of its
/// characters, made small, are the prefix.
pub proof fn lemma_starts_in_any_case(s: Seq<char>, prefix: Seq<char>)
    requires
        forall|i: int| 0 <= i < prefix.len() ==> small_code(#[trigger] prefix[i]) == prefix[i] as u32,
    ensures
        starts_in_any_case(s, prefix) <==> s.len() >= prefix.len() && forall|i: int|
            0 <= i < prefix.len() ==> small_code(#[trigger] s[i]) == prefix[i] as u32,
{
    if s.len() >= prefix.len() {
        assert forall|i: int| 0 <= i < prefix.len() implies (same_letter(#[trigger] s[i], prefix[i])
            <==> small_code(s[i]) == prefix[i] as u32) by {
            lemma_same_letter(s[i], prefix[i]);
        }
    }
}

}
