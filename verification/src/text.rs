//! Text as sequences of characters.
//!
//! Every operation on a `str` that the daemon's rules need is defined here over the
//! sequence of characters that the text holds.

use vstd::prelude::*;

verus! {

/// `String::push`: the character is put behind the text.
pub assume_specification[ String::push ](s: &mut String, c: char)
    ensures
        final(s)@ == old(s)@.push(c),
;

/// The characters of a text, in order.
pub fn chars_of(s: &str) -> (v: Vec<char>)
    ensures
        v@ == s@,
{
    let mut v: Vec<char> = Vec::new();
    for c in it: s.chars()
        invariant
            it.seq() == s@,
            v@ == it.seq().take(it.index() as int),
    {
        v.push(c);
    }
    v
}

/// The text that holds the characters of `v` from `from` up to, not including, `to`.
pub fn text_of(v: &Vec<char>, from: usize, to: usize) -> (r: String)
    requires
        from <= to <= v.len(),
    ensures
        r@ == v@.subrange(from as int, to as int),
{
    let mut r = String::new();
    for i in from..to
        invariant
            from <= i <= to <= v.len(),
            r@ == v@.subrange(from as int, i as int),
    {
        r.push(v[i]);
    }
    r
}

/// Whether a text holds no character.
pub fn is_empty_text(s: &str) -> (r: bool)
    ensures
        r == (s@.len() == 0),
{
    chars_of(s).len() == 0
}

/// Whether two texts hold the same characters.
pub fn same_text(a: &str, b: &str) -> (r: bool)
    ensures
        r == (a@ == b@),
{
    let x = chars_of(a);
    let y = chars_of(b);
    if x.len() != y.len() {
        return false;
    }
    for i in 0..x.len()
        invariant
            x@ == a@,
            y@ == b@,
            x.len() == y.len(),
            forall|j: int| 0 <= j < i ==> x@[j] == y@[j],
    {
        if x[i] != y[i] {
            return false;
        }
    }
    assert(x@ =~= y@);
    true
}

/// The concatenation of two texts.
pub fn cat2(a: &str, b: &str) -> (r: String)
    ensures
        r@ == a@ + b@,
{
    let mut r = a.to_string();
    r.append(b);
    r
}

/// The concatenation of three texts.
pub fn cat3(a: &str, b: &str, c: &str) -> (r: String)
    ensures
        r@ == a@ + b@ + c@,
{
    let mut r = cat2(a, b);
    r.append(c);
    r
}

/// The concatenation of four texts.
pub fn cat4(a: &str, b: &str, c: &str, d: &str) -> (r: String)
    ensures
        r@ == a@ + b@ + c@ + d@,
{
    let mut r = cat3(a, b, c);
    r.append(d);
    r
}

/// The concatenation of five texts.
pub fn cat5(a: &str, b: &str, c: &str, d: &str, e: &str) -> (r: String)
    ensures
        r@ == a@ + b@ + c@ + d@ + e@,
{
    let mut r = cat4(a, b, c, d);
    r.append(e);
    r
}

/// The parts in order, with `sep` between each two neighbours.
pub open spec fn joined(parts: Seq<Seq<char>>, sep: Seq<char>) -> Seq<char>
    decreases parts.len(),
{
    if parts.len() == 0 {
        Seq::empty()
    } else if parts.len() == 1 {
        parts[0]
    } else {
        joined(parts.drop_last(), sep) + sep + parts.last()
    }
}

/// The texts of `parts` from position `from` on, with `sep` between each two neighbours.
pub fn join_from(parts: &[String], from: usize, sep: &str) -> (r: String)
    requires
        from <= parts.len(),
    ensures
        r@ == joined(texts(parts@).skip(from as int), sep@),
{
    let mut r = String::new();
    let ghost all = texts(parts@).skip(from as int);
    for i in from..parts.len()
        invariant
            from <= i <= parts.len(),
            all == texts(parts@).skip(from as int),
            r@ == joined(all.take(i - from), sep@),
    {
        proof {
            let next = all.take(i + 1 - from);
            assert(next.drop_last() =~= all.take(i - from));
            assert(next.last() == parts@[i as int]@);
        }
        if i > from {
            r.append(sep);
        }
        r.append(parts[i].as_str());
        assert(r@ =~= joined(all.take(i + 1 - from), sep@));
    }
    assert(all.take(parts.len() - from) =~= all);
    r
}

/// The characters that each text of a list holds.
pub open spec fn texts(parts: Seq<String>) -> Seq<Seq<char>> {
    Seq::new(parts.len(), |i: int| parts[i]@)
}

/// Whether `needle` occurs in `hay` at position `i`.
pub open spec fn occurs_at(hay: Seq<char>, needle: Seq<char>, i: int) -> bool {
    &&& 0 <= i
    &&& i + needle.len() <= hay.len()
    &&& hay.subrange(i, i + needle.len()) == needle
}

/// Whether `needle` occurs anywhere in `hay`.
pub open spec fn has_part(hay: Seq<char>, needle: Seq<char>) -> bool {
    exists|i: int| occurs_at(hay, needle, i)
}

fn occurs_here(hay: &Vec<char>, needle: &Vec<char>, at: usize) -> (r: bool)
    requires
        at + needle.len() <= hay.len(),
    ensures
        r == occurs_at(hay@, needle@, at as int),
{
    for j in 0..needle.len()
        invariant
            at + needle.len() <= hay.len(),
            forall|k: int| 0 <= k < j ==> hay@[at + k] == needle@[k],
    {
        if hay[at + j] != needle[j] {
            assert(hay@.subrange(at as int, at + needle.len())[j as int] != needle@[j as int]);
            return false;
        }
    }
    assert(hay@.subrange(at as int, at + needle.len()) =~= needle@);
    true
}

/// Whether `needle` occurs in `hay`; the empty text occurs everywhere.
pub fn contains_text(hay: &str, needle: &str) -> (r: bool)
    ensures
        r == has_part(hay@, needle@),
{
    let h = chars_of(hay);
    let n = chars_of(needle);
    if n.len() > h.len() {
        return false;
    }
    let last: usize = h.len() - n.len();
    let mut i: usize = 0;
    while i <= last
        invariant
            h@ == hay@,
            n@ == needle@,
            last == h.len() - n.len(),
            i <= last + 1,
            forall|k: int| 0 <= k < i ==> !occurs_at(hay@, needle@, k),
        decreases last + 1 - i,
    {
        if occurs_here(&h, &n, i) {
            return true;
        }
        if i == last {
            assert forall|k: int| !occurs_at(hay@, needle@, k) by {
                if occurs_at(hay@, needle@, k) {
                    assert(k <= last);
                }
            }
            return false;
        }
        i += 1;
    }
    false
}

/// Whether `s` begins with `prefix`.
pub open spec fn has_prefix(s: Seq<char>, prefix: Seq<char>) -> bool {
    occurs_at(s, prefix, 0)
}

/// Whether the text begins with `prefix`.
pub fn starts_with_text(s: &str, prefix: &str) -> (r: bool)
    ensures
        r == has_prefix(s@, prefix@),
{
    let h = chars_of(s);
    let n = chars_of(prefix);
    if n.len() > h.len() {
        return false;
    }
    occurs_here(&h, &n, 0)
}

/// The Unicode characters with the property `White_Space`.
pub open spec fn is_white(c: char) -> bool {
    ||| '\u{9}' <= c <= '\u{d}'
    ||| c == ' '
    ||| c == '\u{85}'
    ||| c == '\u{a0}'
    ||| c == '\u{1680}'
    ||| '\u{2000}' <= c <= '\u{200a}'
    ||| c == '\u{2028}'
    ||| c == '\u{2029}'
    ||| c == '\u{202f}'
    ||| c == '\u{205f}'
    ||| c == '\u{3000}'
}

fn white(c: char) -> (r: bool)
    ensures
        r == is_white(c),
{
    ('\u{9}' <= c && c <= '\u{d}') || c == ' ' || c == '\u{85}' || c == '\u{a0}' || c == '\u{1680}' || (
    '\u{2000}' <= c && c <= '\u{200a}') || c == '\u{2028}' || c == '\u{2029}' || c == '\u{202f}' || c
        == '\u{205f}' || c == '\u{3000}'
}

/// `s` without the white space at its start.
pub open spec fn trim_start_of(s: Seq<char>) -> Seq<char>
    decreases s.len(),
{
    if s.len() > 0 && is_white(s[0]) {
        trim_start_of(s.drop_first())
    } else {
        s
    }
}

/// `s` without the white space at its end.
pub open spec fn trim_end_of(s: Seq<char>) -> Seq<char>
    decreases s.len(),
{
    if s.len() > 0 && is_white(s.last()) {
        trim_end_of(s.drop_last())
    } else {
        s
    }
}

/// `s` without the white space at both ends.
pub open spec fn trim_of(s: Seq<char>) -> Seq<char> {
    trim_end_of(trim_start_of(s))
}

fn white_run(v: &Vec<char>, from: usize) -> (i: usize)
    requires
        from <= v.len(),
    ensures
        from <= i <= v.len(),
        trim_start_of(v@.skip(from as int)) == v@.skip(i as int),
        i < v.len() ==> !is_white(v@[i as int]),
{
    let mut i: usize = from;
    while i < v.len() && white(v[i])
        invariant
            from <= i <= v.len(),
            trim_start_of(v@.skip(from as int)) == trim_start_of(v@.skip(i as int)),
        decreases v.len() - i,
    {
        assert(v@.skip(i as int).drop_first() =~= v@.skip(i + 1));
        i += 1;
    }
    i
}

fn white_tail(v: &Vec<char>, from: usize) -> (j: usize)
    requires
        from <= v.len(),
    ensures
        from <= j <= v.len(),
        trim_end_of(v@.skip(from as int)) == v@.subrange(from as int, j as int),
{
    let mut j: usize = v.len();
    assert(v@.skip(from as int) =~= v@.subrange(from as int, j as int));
    while j > from && white(v[j - 1])
        invariant
            from <= j <= v.len(),
            trim_end_of(v@.skip(from as int)) == trim_end_of(v@.subrange(from as int, j as int)),
        decreases j,
    {
        assert(v@.subrange(from as int, j as int).drop_last() =~= v@.subrange(from as int, j - 1));
        j -= 1;
    }
    j
}

/// The text without the white space at both ends.
pub fn trim(s: &str) -> (r: String)
    ensures
        r@ == trim_of(s@),
{
    let v = chars_of(s);
    assert(v@.skip(0) =~= s@);
    let i = white_run(&v, 0);
    let j = white_tail(&v, i);
    text_of(&v, i, j)
}

/// The text without the white space at its end.
pub fn trim_end(s: &str) -> (r: String)
    ensures
        r@ == trim_end_of(s@),
{
    let v = chars_of(s);
    assert(v@.skip(0) =~= s@);
    let j = white_tail(&v, 0);
    text_of(&v, 0, j)
}

/// How many characters stand before the first `c`, or in all of `s` where there is none.
pub open spec fn first_at(s: Seq<char>, c: char) -> int
    decreases s.len(),
{
    if s.len() == 0 || s[0] == c {
        0
    } else {
        1 + first_at(s.drop_first(), c)
    }
}

fn position_of(v: &Vec<char>, from: usize, c: char) -> (i: usize)
    requires
        from <= v.len(),
    ensures
        from <= i <= v.len(),
        i - from == first_at(v@.skip(from as int), c),
        i < v.len() ==> v@[i as int] == c,
{
    let mut i: usize = from;
    while i < v.len() && v[i] != c
        invariant
            from <= i <= v.len(),
            first_at(v@.skip(from as int), c) == (i - from) + first_at(v@.skip(i as int), c),
        decreases v.len() - i,
    {
        assert(v@.skip(i as int).drop_first() =~= v@.skip(i + 1));
        i += 1;
    }
    i
}

/// `s` split at its first `c`: what stands before it and what stands behind it.
pub open spec fn split_at_first(s: Seq<char>, c: char) -> Option<(Seq<char>, Seq<char>)> {
    let i = first_at(s, c);
    if i < s.len() {
        Some((s.take(i), s.skip(i + 1)))
    } else {
        None
    }
}

/// The text split at its first `c`, if it holds one.
pub fn split_once(s: &str, c: char) -> (r: Option<(String, String)>)
    ensures
        r.deep_view() == split_at_first(s@, c),
{
    let v = chars_of(s);
    assert(v@.skip(0) =~= s@);
    let i = position_of(&v, 0, c);
    if i < v.len() {
        let a = text_of(&v, 0, i);
        let b = text_of(&v, i + 1, v.len());
        assert(a@ =~= s@.take(i as int));
        assert(b@ =~= s@.skip(i + 1));
        Some((a, b))
    } else {
        None
    }
}

/// `s` without a carriage return at its end.
pub open spec fn without_cr(s: Seq<char>) -> Seq<char> {
    if s.len() > 0 && s.last() == '\r' {
        s.drop_last()
    } else {
        s
    }
}

/// The lines of `s`: each ends at a line feed, or at a carriage return and a line feed,
/// and the last one may also end with the text.
pub open spec fn lines_of(s: Seq<char>) -> Seq<Seq<char>>
    decreases s.len(),
{
    let i = first_at(s, '\n');
    if s.len() == 0 {
        Seq::empty()
    } else if 0 <= i < s.len() {
        seq![without_cr(s.take(i))] + lines_of(s.skip(i + 1))
    } else {
        seq![s]
    }
}

/// The lines of a text, without the characters that end them.
pub fn lines(s: &str) -> (r: Vec<String>)
    ensures
        texts(r@) == lines_of(s@),
{
    let v = chars_of(s);
    let mut out: Vec<String> = Vec::new();
    let mut from: usize = 0;
    assert(v@.skip(0) =~= s@);
    assert(texts(out@) + lines_of(s@) =~= lines_of(s@));
    while from < v.len()
        invariant
            from <= v.len(),
            v@ == s@,
            texts(out@) + lines_of(v@.skip(from as int)) == lines_of(s@),
        decreases v.len() - from,
    {
        let i = position_of(&v, from, '\n');
        let ghost rest = v@.skip(from as int);
        if i == v.len() {
            let line = text_of(&v, from, i);
            proof {
                assert(line@ =~= rest);
                assert(texts(out@.push(line)) =~= texts(out@) + seq![rest]);
                assert(v@.skip(i as int) =~= Seq::<char>::empty());
                assert(texts(out@.push(line)) + lines_of(v@.skip(i as int)) =~= lines_of(s@));
            }
            out.push(line);
            from = i;
        } else {
            let end: usize = if i > from && v[i - 1] == '\r' { i - 1 } else { i };
            let line = text_of(&v, from, end);
            proof {
                assert(rest.take(i - from) =~= v@.subrange(from as int, i as int));
                assert(line@ =~= without_cr(rest.take(i - from)));
                assert(rest.skip(i - from + 1) =~= v@.skip(i + 1));
                assert(texts(out@.push(line)) =~= texts(out@) + seq![line@]);
                assert(texts(out@.push(line)) + lines_of(v@.skip(i + 1)) =~= texts(out@)
                    + lines_of(rest));
            }
            out.push(line);
            from = i + 1;
        }
    }
    assert(v@.skip(from as int) =~= Seq::<char>::empty());
    assert(texts(out@) + Seq::<Seq<char>>::empty() =~= texts(out@));
    out
}

/// How many bytes a character takes up in UTF-8.
pub open spec fn char_bytes(c: char) -> nat {
    if '\u{80}' > c {
        1
    } else if '\u{800}' > c {
        2
    } else if '\u{10000}' > c {
        3
    } else {
        4
    }
}

/// How many bytes a sequence of characters takes up in UTF-8.
pub open spec fn bytes_in(s: Seq<char>) -> nat
    decreases s.len(),
{
    if s.len() == 0 {
        0
    } else {
        bytes_in(s.drop_last()) + char_bytes(s.last())
    }
}

/// How many of the first characters fit in `n` bytes of UTF-8.
pub open spec fn chars_within(s: Seq<char>, n: nat) -> nat
    decreases s.len(),
{
    if s.len() == 0 || char_bytes(s[0]) > n {
        0
    } else {
        1 + chars_within(s.drop_first(), (n - char_bytes(s[0])) as nat)
    }
}

/// The first characters of a text, as many as fit in `n` bytes of UTF-8.
pub fn first_bytes(s: &str, n: usize) -> (r: String)
    ensures
        r@ == s@.take(chars_within(s@, n as nat) as int),
{
    let v = chars_of(s);
    let mut left: usize = n;
    let mut i: usize = 0;
    assert(v@.skip(0) =~= s@);
    let mut full = false;
    while i < v.len() && !full
        invariant
            v@ == s@,
            i <= v.len(),
            full ==> chars_within(v@.skip(i as int), left as nat) == 0,
            chars_within(s@, n as nat) == i + chars_within(v@.skip(i as int), left as nat),
        decreases v.len() - i, if full { 0int } else { 1 },
    {
        let c: char = v[i];
        let width: usize = if '\u{80}' > c {
            1
        } else if '\u{800}' > c {
            2
        } else if '\u{10000}' > c {
            3
        } else {
            4
        };
        assert(width == char_bytes(v@[i as int]));
        if width > left {
            full = true;
        } else {
            assert(v@.skip(i as int).drop_first() =~= v@.skip(i + 1));
            left -= width;
            i += 1;
        }
    }
    let r = text_of(&v, 0, i);
    assert(r@ =~= s@.take(i as int));
    r
}

/// How many characters stand before the first white space.
pub open spec fn word_len(s: Seq<char>) -> int
    decreases s.len(),
{
    if s.len() == 0 || is_white(s[0]) {
        0
    } else {
        1 + word_len(s.drop_first())
    }
}

/// The first word of `s` and what stands behind it, where `s` holds a word.
pub open spec fn next_word(s: Seq<char>) -> Option<(Seq<char>, Seq<char>)> {
    let t = trim_start_of(s);
    if t.len() == 0 {
        None
    } else {
        Some((t.take(word_len(t)), t.skip(word_len(t))))
    }
}

/// The first word of the text and what stands behind it, where it holds a word.
pub fn split_word(s: &str) -> (r: Option<(String, String)>)
    ensures
        r.deep_view() == next_word(s@),
{
    let v = chars_of(s);
    assert(v@.skip(0) =~= s@);
    let from = white_run(&v, 0);
    if from == v.len() {
        return None;
    }
    let mut i: usize = from;
    while i < v.len() && !white(v[i])
        invariant
            from <= i <= v.len(),
            word_len(v@.skip(from as int)) == (i - from) + word_len(v@.skip(i as int)),
        decreases v.len() - i,
    {
        assert(v@.skip(i as int).drop_first() =~= v@.skip(i + 1));
        i += 1;
    }
    let a = text_of(&v, from, i);
    let b = text_of(&v, i, v.len());
    proof {
        let t = v@.skip(from as int);
        assert(a@ =~= t.take(i - from));
        assert(b@ =~= t.skip(i - from));
    }
    Some((a, b))
}

/// Texts are joined in order, with the separator between any two and nowhere else.
pub proof fn law_joined(first: Seq<Seq<char>>, second: Seq<Seq<char>>, word: Seq<char>, sep: Seq<char>)
    ensures
        joined(Seq::empty(), sep).len() == 0,
        joined(seq![word], sep) == word,
        first.len() > 0 && second.len() > 0 ==> joined(first + second, sep) == joined(first, sep)
            + sep + joined(second, sep),
    decreases second.len(),
{
    if first.len() > 0 && second.len() > 0 {
        let both = first + second;
        assert(both.drop_last() =~= first + second.drop_last());
        assert(both.last() == second.last());
        if second.len() == 1 {
            assert(both.drop_last() =~= first);
        } else {
            law_joined(first, second.drop_last(), word, sep);
            assert(joined(both, sep) =~= joined(first, sep) + sep + joined(second, sep));
        }
    }
}

/// A text has a part exactly where it is that part with something, or nothing, before and
/// behind it; it has a prefix where it begins with it.
pub proof fn law_parts(hay: Seq<char>, needle: Seq<char>, before: Seq<char>, after: Seq<char>)
    ensures
        has_part(before + needle + after, needle),
        has_prefix(needle + after, needle),
        has_part(hay, needle) ==> exists|a: Seq<char>, b: Seq<char>|
            hay == #[trigger] (a + needle + b),
        has_prefix(hay, needle) ==> exists|b: Seq<char>| hay == #[trigger] (needle + b),
{
    let whole = before + needle + after;
    let i = before.len() as int;
    assert(whole.subrange(i, i + needle.len()) =~= needle);
    assert(occurs_at(whole, needle, i));
    assert((needle + after).subrange(0, needle.len() as int) =~= needle);
    if has_part(hay, needle) {
        let k = choose|k: int| occurs_at(hay, needle, k);
        let a = hay.take(k);
        let b = hay.skip(k + needle.len());
        assert(hay =~= a + hay.subrange(k, k + needle.len()) + b);
        assert(hay == a + needle + b);
    }
    if has_prefix(hay, needle) {
        let b = hay.skip(needle.len() as int);
        assert(hay =~= hay.subrange(0, needle.len() as int) + b);
        assert(hay == needle + b);
    }
}

/// Whether every character of a text is white space.
pub open spec fn is_all_white(s: Seq<char>) -> bool {
    forall|i: int| 0 <= i < s.len() ==> is_white(#[trigger] s[i])
}

/// Trimming takes white space off the ends and nothing else: what stays begins and ends with
/// other characters, and what was taken off before and behind it is all white.
pub proof fn law_trimmed(s: Seq<char>)
    ensures
        exists|before: Seq<char>, after: Seq<char>|
            is_all_white(before) && is_all_white(after) && s == #[trigger] (before + trim_of(s)
                + after),
        trim_of(s).len() > 0 ==> !is_white(trim_of(s)[0]) && !is_white(trim_of(s).last()),
{
    let middle = trim_start_of(s);
    lemma_trim_start(s);
    lemma_trim_end(middle);
    let before = choose|before: Seq<char>|
        is_all_white(before) && s == #[trigger] (before + middle);
    let after = choose|after: Seq<char>|
        is_all_white(after) && middle == #[trigger] (trim_of(s) + after);
    assert(s =~= before + trim_of(s) + after);
    if trim_of(s).len() > 0 {
        assert(trim_of(s)[0] == middle[0]);
    }
}

proof fn lemma_trim_start(s: Seq<char>)
    ensures
        exists|before: Seq<char>|
            is_all_white(before) && s == #[trigger] (before + trim_start_of(s)),
        trim_start_of(s).len() > 0 ==> !is_white(trim_start_of(s)[0]),
    decreases s.len(),
{
    if s.len() > 0 && is_white(s[0]) {
        lemma_trim_start(s.drop_first());
        let before = choose|before: Seq<char>|
            is_all_white(before) && s.drop_first() == #[trigger] (before + trim_start_of(
                s.drop_first(),
            ));
        let all = seq![s[0]] + before;
        assert(is_all_white(all));
        let rest = trim_start_of(s.drop_first());
        assert(rest == trim_start_of(s));
        assert(s =~= seq![s[0]] + s.drop_first());
        assert(seq![s[0]] + (before + rest) =~= all + rest);
    } else {
        assert(s =~= Seq::<char>::empty() + trim_start_of(s));
    }
}

proof fn lemma_trim_end(s: Seq<char>)
    ensures
        exists|after: Seq<char>| is_all_white(after) && s == #[trigger] (trim_end_of(s) + after),
        trim_end_of(s).len() > 0 ==> !is_white(trim_end_of(s).last()),
    decreases s.len(),
{
    if s.len() > 0 && is_white(s.last()) {
        lemma_trim_end(s.drop_last());
        let after = choose|after: Seq<char>|
            is_all_white(after) && s.drop_last() == #[trigger] (trim_end_of(s.drop_last())
                + after);
        let all = after.push(s.last());
        assert(is_all_white(all));
        let rest = trim_end_of(s.drop_last());
        assert(rest == trim_end_of(s));
        assert(s =~= s.drop_last().push(s.last()));
        assert((rest + after).push(s.last()) =~= rest + all);
    } else {
        assert(s =~= trim_end_of(s) + Seq::<char>::empty());
    }
}

/// What is trimmed at its end keeps its beginning, and loses white space only.
pub proof fn law_trimmed_end(s: Seq<char>)
    ensures
        exists|after: Seq<char>| is_all_white(after) && s == #[trigger] (trim_end_of(s) + after),
        trim_end_of(s).len() > 0 ==> !is_white(trim_end_of(s).last()),
{
    lemma_trim_end(s);
}

/// A text is split at the first such character, which neither part holds on to.
pub proof fn law_split_at_first(first: Seq<char>, rest: Seq<char>, c: char)
    requires
        forall|i: int| 0 <= i < first.len() ==> #[trigger] first[i] != c,
    ensures
        split_at_first(first + seq![c] + rest, c) == Some((first, rest)),
        split_at_first(first, c) is None,
{
    lemma_first_at(first, seq![c] + rest, c);
    lemma_first_at(first, Seq::empty(), c);
    let s = first + seq![c] + rest;
    assert(s =~= first + (seq![c] + rest));
    assert(first + Seq::<char>::empty() =~= first);
    assert(s.take(first.len() as int) =~= first);
    assert(s.skip(first.len() as int + 1) =~= rest);
}

proof fn lemma_first_at(first: Seq<char>, rest: Seq<char>, c: char)
    requires
        forall|i: int| 0 <= i < first.len() ==> #[trigger] first[i] != c,
        rest.len() > 0 ==> rest[0] == c,
    ensures
        first_at(first + rest, c) == first.len(),
    decreases first.len(),
{
    let s = first + rest;
    if first.len() > 0 {
        assert(s[0] == first[0]);
        let tail = first.drop_first();
        assert(s.drop_first() =~= tail + rest);
        assert forall|i: int| 0 <= i < tail.len() implies #[trigger] tail[i] != c by {
            assert(tail[i] == first[i + 1]);
        }
        lemma_first_at(tail, rest, c);
    } else {
        assert(s =~= rest);
    }
}

/// The lines of a text are what stands between its line ends, without the ends and without a
/// carriage return before them; an end at the very end begins no further line.
pub proof fn law_lines(line: Seq<char>, rest: Seq<char>)
    requires
        forall|i: int| 0 <= i < line.len() ==> #[trigger] line[i] != '\n',
    ensures
        lines_of(Seq::empty()).len() == 0,
        line.len() > 0 && line.last() != '\r' ==> {
            &&& lines_of(line) == seq![line]
            &&& lines_of(line + seq!['\n'] + rest) == seq![line] + lines_of(rest)
            &&& lines_of(line + seq!['\r', '\n'] + rest) == seq![line] + lines_of(rest)
        },
        lines_of(seq!['\n'] + rest) == seq![Seq::<char>::empty()] + lines_of(rest),
{
    if line.len() > 0 && line.last() != '\r' {
        lemma_first_at(line, Seq::empty(), '\n');
        assert(line + Seq::<char>::empty() =~= line);
        assert(line.take(line.len() as int) =~= line);
        lemma_first_at(line, seq!['\n'] + rest, '\n');
        let a = line + seq!['\n'] + rest;
        assert(a =~= line + (seq!['\n'] + rest));
        assert(a.take(line.len() as int) =~= line);
        assert(a.skip(line.len() as int + 1) =~= rest);
        let long = line.push('\r');
        lemma_first_at(long, seq!['\n'] + rest, '\n');
        let b = line + seq!['\r', '\n'] + rest;
        assert(b =~= long + (seq!['\n'] + rest));
        assert(b.take(long.len() as int) =~= long);
        assert(b.skip(long.len() as int + 1) =~= rest);
        assert(long.drop_last() =~= line);
    }
    let c = seq!['\n'] + rest;
    assert(c.take(0) =~= Seq::empty());
    assert(c.skip(1) =~= rest);
}

/// The first word of a text is what stands behind its leading white space and before the next;
/// a text that is all white has none.
pub proof fn law_next_word(space: Seq<char>, word: Seq<char>, rest: Seq<char>)
    requires
        is_all_white(space),
        forall|i: int| 0 <= i < word.len() ==> !is_white(#[trigger] word[i]),
        rest.len() > 0 ==> is_white(rest[0]),
    ensures
        next_word(space) is None,
        word.len() > 0 ==> next_word(space + word + rest) == Some((word, rest)),
{
    lemma_trim_front(space, Seq::empty());
    assert(space + Seq::<char>::empty() =~= space);
    if word.len() > 0 {
        let tail = word + rest;
        lemma_trim_front(space, tail);
        assert(space + word + rest =~= space + tail);
        lemma_word_len(word, rest);
        assert(tail.take(word.len() as int) =~= word);
        assert(tail.skip(word.len() as int) =~= rest);
    }
}

proof fn lemma_trim_front(space: Seq<char>, rest: Seq<char>)
    requires
        is_all_white(space),
        rest.len() > 0 ==> !is_white(rest[0]),
    ensures
        trim_start_of(space + rest) == rest,
    decreases space.len(),
{
    let s = space + rest;
    if space.len() > 0 {
        assert(is_white(space[0]));
        let tail = space.drop_first();
        assert(s.drop_first() =~= tail + rest);
        assert forall|i: int| 0 <= i < tail.len() implies is_white(#[trigger] tail[i]) by {
            assert(tail[i] == space[i + 1]);
        }
        lemma_trim_front(tail, rest);
    } else {
        assert(s =~= rest);
    }
}

proof fn lemma_word_len(word: Seq<char>, rest: Seq<char>)
    requires
        forall|i: int| 0 <= i < word.len() ==> !is_white(#[trigger] word[i]),
        rest.len() > 0 ==> is_white(rest[0]),
    ensures
        word_len(word + rest) == word.len(),
    decreases word.len(),
{
    let s = word + rest;
    if word.len() > 0 {
        assert(!is_white(word[0]));
        let tail = word.drop_first();
        assert(s.drop_first() =~= tail + rest);
        assert forall|i: int| 0 <= i < tail.len() implies !is_white(#[trigger] tail[i]) by {
            assert(tail[i] == word[i + 1]);
        }
        lemma_word_len(tail, rest);
    } else {
        assert(s =~= rest);
    }
}

proof fn lemma_bytes_first(s: Seq<char>)
    requires
        s.len() > 0,
    ensures
        bytes_in(s) == char_bytes(s[0]) + bytes_in(s.drop_first()),
    decreases s.len(),
{
    if s.len() > 1 {
        lemma_bytes_first(s.drop_last());
        assert(s.drop_last().drop_first() =~= s.drop_first().drop_last());
    } else {
        assert(s.drop_first() =~= Seq::empty());
        assert(s.drop_last() =~= Seq::empty());
    }
}

proof fn lemma_char_bytes(c: char)
    ensures
        vstd::utf8::encode_scalar(c as u32).len() == char_bytes(c),
{
    vstd::utf8::char_is_scalar(c);
}

/// The bytes of a text are those with which UTF-8 encodes it.
pub proof fn law_bytes_are_utf8(s: Seq<char>)
    ensures
        bytes_in(s) == vstd::utf8::encode_utf8(s).len(),
    decreases s.len(),
{
    if s.len() > 0 {
        lemma_bytes_first(s);
        law_bytes_are_utf8(s.drop_first());
        lemma_char_bytes(s[0]);
    }
}

/// The characters within some bytes are as many as fit into them, from the first on.
pub proof fn law_characters_that_fit(s: Seq<char>, n: nat)
    ensures
        chars_within(s, n) <= s.len(),
        bytes_in(s.take(chars_within(s, n) as int)) <= n,
        chars_within(s, n) < s.len() ==> bytes_in(s.take(chars_within(s, n) as int + 1)) > n,
    decreases s.len(),
{
    if s.len() == 0 || char_bytes(s[0]) > n {
        assert(s.take(0) =~= Seq::empty());
        if s.len() > 0 {
            let one = s.take(1);
            lemma_bytes_first(one);
            assert(one.drop_first() =~= Seq::empty());
        }
    } else {
        let rest = s.drop_first();
        let left = (n - char_bytes(s[0])) as nat;
        law_characters_that_fit(rest, left);
        let k = chars_within(rest, left) as int;
        let most = s.take(k + 1);
        lemma_bytes_first(most);
        assert(most.drop_first() =~= rest.take(k));
        if k < rest.len() {
            let more = s.take(k + 2);
            lemma_bytes_first(more);
            assert(more.drop_first() =~= rest.take(k + 1));
        }
    }
}

/// Of the ASCII characters the blank, the tab and those that end a line or a page are white, and
/// no others.
pub proof fn law_white_space(c: char)
    ensures
        '\u{80}' > c ==> (is_white(c) <==> c == ' ' || c == '\t' || c == '\n' || c == '\u{b}' || c
            == '\u{c}' || c == '\r'),
        is_white('\u{85}') && is_white('\u{a0}') && is_white('\u{1680}') && is_white('\u{2000}')
            && is_white('\u{200a}') && is_white('\u{2028}') && is_white('\u{2029}') && is_white(
            '\u{202f}',
        ) && is_white('\u{205f}') && is_white('\u{3000}'),
{
}

} // verus!
