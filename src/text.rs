//! Character-level text operations on `Seq<char>` models.

use vstd::prelude::*;

verus! {

/// The Unicode `White_Space` set, as tested by `char::is_whitespace`.
pub open spec fn is_space(c: char) -> bool {
    let n = c as u32;
    (9 <= n && n <= 13) || n == 32 || n == 0x85 || n == 0xa0 || n == 0x1680
        || (0x2000 <= n && n <= 0x200a) || n == 0x2028 || n == 0x2029 || n == 0x202f
        || n == 0x205f || n == 0x3000
}

/// Whether `c` is whitespace.
pub fn is_space_char(c: char) -> (r: bool)
    ensures
        r == is_space(c),
{
    let n = c as u32;
    (9 <= n && n <= 13) || n == 32 || n == 0x85 || n == 0xa0 || n == 0x1680
        || (0x2000 <= n && n <= 0x200a) || n == 0x2028 || n == 0x2029 || n == 0x202f
        || n == 0x205f || n == 0x3000
}

/// `s` trimmed at both ends, with every inner run of whitespace replaced by
/// a single space.
pub open spec fn collapse(s: Seq<char>) -> Seq<char>
    decreases s.len(),
{
    if s.len() == 0 {
        seq![]
    } else {
        let p = collapse(s.drop_last());
        let c = s.last();
        if is_space(c) {
            p
        } else if p.len() > 0 && is_space(s[s.len() - 2]) {
            p.push(' ').push(c)
        } else {
            p.push(c)
        }
    }
}

/// Relies on `str::chars`: the characters of `s`, in order.
#[verifier::external_body]
pub(crate) fn chars_of(s: &str) -> (r: Vec<char>)
    ensures
        r@ == s@,
{
    s.chars().collect()
}

/// Relies on `String: FromIterator<&char>`: the string of the given characters.
#[verifier::external_body]
pub(crate) fn string_of(v: &[char]) -> (r: String)
    ensures
        r@ == v@,
{
    v.iter().collect()
}

/// The characters of `s` trimmed, with inner whitespace runs made one space.
pub fn collapse_spaces(s: &Vec<char>) -> (r: Vec<char>)
    ensures
        r@ == collapse(s@),
{
    let mut out: Vec<char> = Vec::new();
    let mut i: usize = 0;
    assert(s@.subrange(0, 0) =~= Seq::<char>::empty());
    while i < s.len()
        invariant
            i <= s.len(),
            out@ == collapse(s@.subrange(0, i as int)),
        decreases s.len() - i,
    {
        let c = s[i];
        assert(s@.subrange(0, i + 1).drop_last() =~= s@.subrange(0, i as int));
        if !is_space_char(c) {
            if i > 0 && out.len() > 0 && is_space_char(s[i - 1]) {
                out.push(' ');
            }
            out.push(c);
        }
        i += 1;
    }
    assert(s@.subrange(0, s.len() as int) =~= s@);
    out
}


/// Number of maximal runs of non-whitespace characters in `s`.
pub open spec fn word_count(s: Seq<char>) -> nat
    decreases s.len(),
{
    if s.len() == 0 {
        0
    } else {
        word_count(s.drop_last()) + if !is_space(s.last()) && (s.len() == 1 || is_space(
            s[s.len() - 2],
        )) {
            1nat
        } else {
            0nat
        }
    }
}

proof fn lemma_word_count_bound(s: Seq<char>)
    ensures
        word_count(s) <= s.len(),
    decreases s.len(),
{
    if s.len() > 0 {
        lemma_word_count_bound(s.drop_last());
    }
}

/// The number of whitespace-separated words in `s`.
pub fn count_words(s: &Vec<char>) -> (r: usize)
    ensures
        r == word_count(s@),
{
    let mut n: usize = 0;
    let mut i: usize = 0;
    assert(s@.subrange(0, 0) =~= Seq::<char>::empty());
    while i < s.len()
        invariant
            i <= s.len(),
            n == word_count(s@.subrange(0, i as int)),
        decreases s.len() - i,
    {
        assert(s@.subrange(0, i + 1).drop_last() =~= s@.subrange(0, i as int));
        proof {
            lemma_word_count_bound(s@.subrange(0, i + 1));
        }
        if !is_space_char(s[i]) && (i == 0 || is_space_char(s[i - 1])) {
            n += 1;
        }
        i += 1;
    }
    assert(s@.subrange(0, s.len() as int) =~= s@);
    n
}

/// `s` without its leading whitespace.
pub open spec fn trim_start(s: Seq<char>) -> Seq<char>
    decreases s.len(),
{
    if s.len() > 0 && is_space(s[0]) {
        trim_start(s.drop_first())
    } else {
        s
    }
}

/// `s` without its trailing whitespace.
pub open spec fn trim_end(s: Seq<char>) -> Seq<char>
    decreases s.len(),
{
    if s.len() > 0 && is_space(s.last()) {
        trim_end(s.drop_last())
    } else {
        s
    }
}

/// `s` without whitespace at either end.
pub open spec fn trim(s: Seq<char>) -> Seq<char> {
    trim_end(trim_start(s))
}

/// `s` without whitespace at either end.
pub fn trim_chars(s: &Vec<char>) -> (r: Vec<char>)
    ensures
        r@ == trim(s@),
{
    let n = s.len();
    let mut i: usize = 0;
    assert(s@.subrange(0, n as int) =~= s@);
    while i < n && is_space_char(s[i])
        invariant
            i <= n == s.len(),
            trim_start(s@) == trim_start(s@.subrange(i as int, n as int)),
        decreases n - i,
    {
        assert(s@.subrange(i as int, n as int).drop_first() =~= s@.subrange(i + 1, n as int));
        i += 1;
    }
    let mut j: usize = n;
    while j > i && is_space_char(s[j - 1])
        invariant
            i <= j <= n == s.len(),
            trim(s@) == trim_end(s@.subrange(i as int, j as int)),
        decreases j,
    {
        assert(s@.subrange(i as int, j as int).drop_last() =~= s@.subrange(i as int, j - 1));
        j -= 1;
    }
    let mut out: Vec<char> = Vec::new();
    let mut k: usize = i;
    while k < j
        invariant
            i <= k <= j <= n == s.len(),
            out@ == s@.subrange(i as int, k as int),
        decreases j - k,
    {
        out.push(s[k]);
        assert(out@ =~= s@.subrange(i as int, k + 1));
        k += 1;
    }
    out
}

/// `needle` occurs in `hay` starting at index `i`.
pub open spec fn occurs_at(hay: Seq<char>, needle: Seq<char>, i: int) -> bool {
    0 <= i && i + needle.len() <= hay.len() && hay.subrange(i, i + needle.len()) == needle
}

/// `needle` occurs somewhere in `hay`.
pub open spec fn contains(hay: Seq<char>, needle: Seq<char>) -> bool {
    exists|i: int| occurs_at(hay, needle, i)
}

/// Whether `needle` occurs in `hay`.
pub fn contains_chars(hay: &Vec<char>, needle: &Vec<char>) -> (r: bool)
    ensures
        r == contains(hay@, needle@),
{
    if needle.len() > hay.len() {
        assert forall|i: int| !occurs_at(hay@, needle@, i) by {}
        return false;
    }
    let last = hay.len() - needle.len();
    let mut i: usize = 0;
    while i <= last
        invariant
            last == hay.len() - needle.len(),
            i <= last + 1,
            forall|j: int| 0 <= j < i ==> !#[trigger] occurs_at(hay@, needle@, j),
        decreases last + 1 - i,
    {
        let mut k: usize = 0;
        while k < needle.len() && hay[i + k] == needle[k]
            invariant
                i <= last,
                last == hay.len() - needle.len(),
                k <= needle.len(),
                forall|m: int| 0 <= m < k ==> hay@[i + m] == needle@[m],
            decreases needle.len() - k,
        {
            k += 1;
        }
        if k == needle.len() {
            assert(hay@.subrange(i as int, i + needle.len()) =~= needle@);
            assert(occurs_at(hay@, needle@, i as int));
            return true;
        }
        assert(hay@.subrange(i as int, i + needle.len())[k as int] != needle@[k as int]);
        i += 1;
    }
    assert forall|j: int| !occurs_at(hay@, needle@, j) by {
        if 0 <= j < i {
        }
    }
    false
}


/// The lines of `s`: the pieces between newline characters, the last one
/// possibly empty.
pub open spec fn lines(s: Seq<char>) -> Seq<Seq<char>>
    decreases s.len(),
{
    if s.len() == 0 {
        seq![seq![]]
    } else {
        let p = lines(s.drop_last());
        if s.last() == '\n' {
            p.push(seq![])
        } else {
            p.update(p.len() - 1, p.last().push(s.last()))
        }
    }
}

/// Each of `ls` trimmed, those that are then empty left out.
pub open spec fn trimmed_nonblank(ls: Seq<Seq<char>>) -> Seq<Seq<char>>
    decreases ls.len(),
{
    if ls.len() == 0 {
        seq![]
    } else {
        let k = trimmed_nonblank(ls.drop_last());
        let t = trim(ls.last());
        if t.len() > 0 {
            k.push(t)
        } else {
            k
        }
    }
}

/// The paragraphs of a text: its lines, trimmed, blank ones dropped.
pub open spec fn paragraphs_of(s: Seq<char>) -> Seq<Seq<char>> {
    trimmed_nonblank(lines(s))
}

/// The views of a sequence of strings.
pub open spec fn views_of(v: Seq<String>) -> Seq<Seq<char>> {
    v.map_values(|x: String| x@)
}

/// The non-blank lines of `s`, each trimmed, in order.
pub fn split_paragraphs(s: &Vec<char>) -> (r: Vec<String>)
    ensures
        views_of(r@) == paragraphs_of(s@),
{
    let mut out: Vec<String> = Vec::new();
    let mut cur: Vec<char> = Vec::new();
    let mut i: usize = 0;
    assert(s@.subrange(0, 0) =~= Seq::<char>::empty());
    assert(views_of(out@) =~= Seq::<Seq<char>>::empty());
    while i < s.len()
        invariant
            i <= s.len(),
            lines(s@.subrange(0, i as int)).len() >= 1,
            cur@ == lines(s@.subrange(0, i as int)).last(),
            views_of(out@) == trimmed_nonblank(lines(s@.subrange(0, i as int)).drop_last()),
        decreases s.len() - i,
    {
        let ghost pre = s@.subrange(0, i as int);
        let ghost next = s@.subrange(0, i + 1);
        assert(next.drop_last() =~= pre);
        let c = s[i];
        if c == '\n' {
            assert(lines(next).drop_last() =~= lines(pre));
            let t = trim_chars(&cur);
            if t.len() > 0 {
                let line = string_of(t.as_slice());
                out.push(line);
                assert(views_of(out@) =~= trimmed_nonblank(lines(pre).drop_last()).push(t@));
            }
            cur = Vec::new();
        } else {
            assert(lines(next).drop_last() =~= lines(pre).drop_last());
            cur.push(c);
            assert(cur@ =~= lines(next).last());
        }
        i += 1;
    }
    assert(s@.subrange(0, s.len() as int) =~= s@);
    let ghost ls = lines(s@);
    assert(ls =~= ls.drop_last().push(ls.last()));
    let t = trim_chars(&cur);
    if t.len() > 0 {
        let line = string_of(t.as_slice());
        out.push(line);
        assert(views_of(out@) =~= trimmed_nonblank(ls.drop_last()).push(t@));
    }
    out
}

/// The lowercase form of a text, as `str::to_lowercase` gives it.
pub uninterp spec fn lower_of(s: Seq<char>) -> Seq<char>;

/// `r` is `s` with the ASCII capitals `A`..`Z` replaced by `a`..`z`.
pub open spec fn ascii_lowered(s: Seq<char>, r: Seq<char>) -> bool {
    &&& r.len() == s.len()
    &&& forall|i: int|
        0 <= i < s.len() ==> if 65 <= (s[i] as u32) <= 90 {
            (#[trigger] r[i]) as u32 == (s[i] as u32) + 32
        } else {
            r[i] == s[i]
        }
}

/// All characters of `s` are ASCII.
pub open spec fn is_ascii_text(s: Seq<char>) -> bool {
    forall|i: int| 0 <= i < s.len() ==> (#[trigger] s[i] as u32) < 128
}

/// Relies on `str::to_lowercase`: the result is a function of the text alone;
/// each character maps to one or more characters, and on ASCII text the
/// mapping is the ASCII one.
#[verifier::external_body]
pub(crate) fn lowercase(s: &str) -> (r: String)
    ensures
        r@ == lower_of(s@),
        r@.len() >= s@.len(),
        s@.len() == 0 ==> r@.len() == 0,
        is_ascii_text(s@) ==> ascii_lowered(s@, r@),
{
    s.to_lowercase()
}

/// Whether a character has the Unicode `Uppercase` property.
pub uninterp spec fn uppercase(c: char) -> bool;

/// Relies on `char::is_uppercase`: the Unicode `Uppercase` property, which
/// holds of `A`..`Z` and not of `a`..`z`.
#[verifier::external_body]
pub(crate) fn is_upper(c: char) -> (r: bool)
    ensures
        r == uppercase(c),
        65 <= (c as u32) <= 90 ==> r,
        97 <= (c as u32) <= 122 ==> !r,
{
    c.is_uppercase()
}

/// `s` with every space replaced by an underscore.
pub open spec fn underscored(s: Seq<char>) -> Seq<char> {
    s.map_values(|c: char| if c == ' ' { '_' } else { c })
}

/// `s` with every space replaced by an underscore.
pub fn underscore_spaces(s: &Vec<char>) -> (r: Vec<char>)
    ensures
        r@ == underscored(s@),
{
    let mut out: Vec<char> = Vec::new();
    let mut i: usize = 0;
    while i < s.len()
        invariant
            i <= s.len(),
            out@ =~= underscored(s@.subrange(0, i as int)),
        decreases s.len() - i,
    {
        if s[i] == ' ' {
            out.push('_');
        } else {
            out.push(s[i]);
        }
        i += 1;
        assert(out@ =~= underscored(s@.subrange(0, i as int)));
    }
    assert(s@.subrange(0, s.len() as int) =~= s@);
    out
}


/// `a` followed by `b`.
pub fn concat_chars(a: &Vec<char>, b: &Vec<char>) -> (r: Vec<char>)
    ensures
        r@ == a@ + b@,
{
    let mut out: Vec<char> = Vec::new();
    let mut i: usize = 0;
    while i < a.len()
        invariant
            i <= a.len(),
            out@ =~= a@.subrange(0, i as int),
        decreases a.len() - i,
    {
        out.push(a[i]);
        i += 1;
        assert(out@ =~= a@.subrange(0, i as int));
    }
    let mut j: usize = 0;
    while j < b.len()
        invariant
            j <= b.len(),
            out@ =~= a@ + b@.subrange(0, j as int),
        decreases b.len() - j,
    {
        out.push(b[j]);
        j += 1;
        assert(out@ =~= a@ + b@.subrange(0, j as int));
    }
    assert(b@.subrange(0, b.len() as int) =~= b@);
    out
}

/// A copy of an optional text.
pub fn copy_text(s: &Option<String>) -> (r: Option<String>)
    ensures
        r == *s,
{
    match s {
        Some(x) => Some(x.clone()),
        None => None,
    }
}

} // verus!
