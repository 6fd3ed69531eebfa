//! Texts as sequences of characters: trimming, splitting, replacing and comparing.
use vstd::prelude::*;
use vstd::string::*;
use vstd::utf8::is_ascii_chars;

verus! {

/// `String::push` appends one character to the end of the string.
pub assume_specification[ String::push ](s: &mut String, c: char)
    ensures
        final(s)@ == old(s)@.push(c),
;

// ---------------------------------------------------------------------
// Characters
// ---------------------------------------------------------------------
/// The characters with the Unicode property `White_Space`.
pub open spec fn is_space(c: char) -> bool {
    let n = c as int;
    ||| 9 <= n <= 13
    ||| n == 0x20
    ||| n == 0x85
    ||| n == 0xA0
    ||| n == 0x1680
    ||| 0x2000 <= n <= 0x200A
    ||| n == 0x2028
    ||| n == 0x2029
    ||| n == 0x202F
    ||| n == 0x205F
    ||| n == 0x3000
}

/// Whether `c` has the Unicode property `White_Space`.
pub fn is_white_space(c: char) -> (r: bool)
    ensures
        r == is_space(c),
{
    let n: u32 = c as u32;
    (9 <= n && n <= 13) || n == 0x20 || n == 0x85 || n == 0xA0 || n == 0x1680 || (0x2000 <= n && n
        <= 0x200A) || n == 0x2028 || n == 0x2029 || n == 0x202F || n == 0x205F || n == 0x3000
}

/// `c`, or its lowercase form where `c` is one of `A` to `Z`.
pub open spec fn ascii_lower(c: char) -> char {
    if 'A' <= c <= 'Z' {
        (c as int + 32) as char
    } else {
        c
    }
}

/// Every character of a text in its ASCII lowercase form.
pub open spec fn ascii_lowercase(s: Seq<char>) -> Seq<char> {
    s.map_values(|c: char| ascii_lower(c))
}

/// The ASCII lowercase form of one character.
pub fn lower_char(c: char) -> (r: char)
    ensures
        r == ascii_lower(c),
{
    if 'A' <= c && c <= 'Z' {
        (c as u8 + 32) as char
    } else {
        c
    }
}

// ---------------------------------------------------------------------
// From texts to characters and back
// ---------------------------------------------------------------------
/// The characters of a text, one by one.
pub fn chars_of(s: &str) -> (r: Vec<char>)
    ensures
        r@ == s@,
{
    let mut out: Vec<char> = Vec::new();
    for c in it: s.chars()
        invariant
            out@ == s@.take(it.index() as int),
            it.seq() == s@,
    {
        out.push(c);
    }
    assert(s@.take(s@.len() as int) =~= s@);
    out
}

/// The text made of the characters `cs[from..to]`.
pub fn text_of(cs: &Vec<char>, from: usize, to: usize) -> (r: String)
    requires
        from <= to <= cs@.len(),
    ensures
        r@ == cs@.subrange(from as int, to as int),
{
    let mut out = String::new();
    let mut i: usize = from;
    while i < to
        invariant
            from <= i <= to <= cs@.len(),
            out@ == cs@.subrange(from as int, i as int),
        decreases to - i,
    {
        out.push(cs[i]);
        assert(cs@.subrange(from as int, i as int).push(cs@[i as int]) =~= cs@.subrange(
            from as int,
            i + 1,
        ));
        i = i + 1;
    }
    out
}

/// The views of a sequence of strings.
pub open spec fn texts(v: Seq<String>) -> Seq<Seq<char>> {
    v.map_values(|s: String| s@)
}

/// The view of a string that may be absent.
pub open spec fn optional_text(s: Option<String>) -> Option<Seq<char>> {
    match s {
        Some(t) => Some(t@),
        None => None,
    }
}

/// A text, or the empty one.
pub open spec fn text_or_empty(s: Option<Seq<char>>) -> Seq<char> {
    match s {
        Some(t) => t,
        None => Seq::empty(),
    }
}

/// A copy of a text that may be absent.
pub fn copy_optional(s: &Option<String>) -> (r: Option<String>)
    ensures
        r == *s,
{
    match s {
        Some(t) => Some(t.clone()),
        None => None,
    }
}

/// A copy of a text, or the empty one.
pub fn copy_or_empty(s: &Option<String>) -> (r: String)
    ensures
        r@ == text_or_empty(optional_text(*s)),
{
    match s {
        Some(t) => t.clone(),
        None => String::new(),
    }
}

// ---------------------------------------------------------------------
// Comparing
// ---------------------------------------------------------------------
/// Whether two texts hold the same characters.
pub fn same_text(a: &str, b: &str) -> (r: bool)
    ensures
        r == (a@ == b@),
{
    a.to_owned() == b.to_owned()
}

/// Equality of two texts up to the case of the letters `A` to `Z`.
pub open spec fn same_ignoring_case(a: Seq<char>, b: Seq<char>) -> bool {
    ascii_lowercase(a) == ascii_lowercase(b)
}

/// Whether two texts are equal up to the case of the letters `A` to `Z`.
pub fn eq_ignoring_case(a: &str, b: &str) -> (r: bool)
    ensures
        r == same_ignoring_case(a@, b@),
{
    let x = chars_of(a);
    let y = chars_of(b);
    if x.len() != y.len() {
        assert(ascii_lowercase(a@).len() != ascii_lowercase(b@).len());
        return false;
    }
    let mut i: usize = 0;
    while i < x.len()
        invariant
            x@ == a@,
            y@ == b@,
            x@.len() == y@.len(),
            0 <= i <= x@.len(),
            forall|j: int| 0 <= j < i ==> ascii_lower(x@[j]) == ascii_lower(y@[j]),
        decreases x@.len() - i,
    {
        if lower_char(x[i]) != lower_char(y[i]) {
            assert(ascii_lowercase(a@)[i as int] != ascii_lowercase(b@)[i as int]);
            return false;
        }
        i = i + 1;
    }
    assert(ascii_lowercase(a@) =~= ascii_lowercase(b@));
    true
}

// ---------------------------------------------------------------------
// Trimming
// ---------------------------------------------------------------------
/// `s` without the white space at its start.
pub open spec fn trimmed_start(s: Seq<char>) -> Seq<char>
    decreases s.len(),
{
    if s.len() > 0 && is_space(s[0]) {
        trimmed_start(s.drop_first())
    } else {
        s
    }
}

/// `s` without the white space at its end.
pub open spec fn trimmed_end(s: Seq<char>) -> Seq<char>
    decreases s.len(),
{
    if s.len() > 0 && is_space(s.last()) {
        trimmed_end(s.drop_last())
    } else {
        s
    }
}

/// `s` without the white space at its two ends.
pub open spec fn trimmed(s: Seq<char>) -> Seq<char> {
    trimmed_end(trimmed_start(s))
}

/// Where the characters of `cs` from `from` on first are no white space.
fn skip_space(cs: &Vec<char>, from: usize) -> (r: usize)
    requires
        from <= cs@.len(),
    ensures
        from <= r <= cs@.len(),
        r < cs@.len() ==> !is_space(cs@[r as int]),
        trimmed_start(cs@.skip(from as int)) == cs@.skip(r as int),
{
    let mut i: usize = from;
    while i < cs.len() && is_white_space(cs[i])
        invariant
            from <= i <= cs@.len(),
            trimmed_start(cs@.skip(from as int)) == trimmed_start(cs@.skip(i as int)),
        decreases cs@.len() - i,
    {
        assert(cs@.skip(i as int).drop_first() =~= cs@.skip(i + 1));
        i = i + 1;
    }
    i
}

/// The text without the white space at its two ends.
pub fn trim(s: &str) -> (r: String)
    ensures
        r@ == trimmed(s@),
{
    let cs = chars_of(s);
    assert(cs@.skip(0) =~= cs@);
    let from = skip_space(&cs, 0);
    let mut to: usize = cs.len();
    assert(cs@.subrange(from as int, to as int) =~= cs@.skip(from as int));
    while from < to && is_white_space(cs[to - 1])
        invariant
            from <= to <= cs@.len(),
            trimmed_end(cs@.skip(from as int)) == trimmed_end(
                cs@.subrange(from as int, to as int),
            ),
        decreases to - from,
    {
        assert(cs@.subrange(from as int, to as int).drop_last() =~= cs@.subrange(
            from as int,
            to - 1,
        ));
        to = to - 1;
    }
    text_of(&cs, from, to)
}

/// Whether `s` begins with `0x`.
pub open spec fn has_hex_prefix(s: Seq<char>) -> bool {
    s.len() >= 2 && s[0] == '0' && s[1] == 'x'
}

/// `s` without the `0x` at its start, however often it is repeated there.
pub open spec fn without_hex_prefix(s: Seq<char>) -> Seq<char>
    decreases s.len(),
{
    if has_hex_prefix(s) {
        without_hex_prefix(s.skip(2))
    } else {
        s
    }
}

/// The text without the `0x` at its start, however often it is repeated there.
pub fn trim_hex_prefix(s: &str) -> (r: String)
    ensures
        r@ == without_hex_prefix(s@),
{
    let cs = chars_of(s);
    let mut i: usize = 0;
    assert(cs@.skip(0) =~= cs@);
    while cs.len() - i >= 2 && cs[i] == '0' && cs[i + 1] == 'x'
        invariant
            i <= cs@.len(),
            without_hex_prefix(s@) == without_hex_prefix(cs@.skip(i as int)),
        decreases cs@.len() - i,
    {
        assert(cs@.skip(i as int).skip(2) =~= cs@.skip(i + 2));
        i = i + 2;
    }
    assert(cs@.subrange(i as int, cs@.len() as int) =~= cs@.skip(i as int));
    text_of(&cs, i, cs.len())
}

/// Whether `s` begins with `0x` or `0X`.
pub open spec fn has_any_hex_prefix(s: Seq<char>) -> bool {
    s.len() >= 2 && s[0] == '0' && (s[1] == 'x' || s[1] == 'X')
}

/// `s` without the `0x` or `0X` at its start, however often it is repeated there.
pub open spec fn without_any_hex_prefix(s: Seq<char>) -> Seq<char>
    decreases s.len(),
{
    if has_any_hex_prefix(s) {
        without_any_hex_prefix(s.skip(2))
    } else {
        s
    }
}

/// The text without the `0x` or `0X` at its start, however often it is repeated there.
pub fn trim_any_hex_prefix(s: &str) -> (r: String)
    ensures
        r@ == without_any_hex_prefix(s@),
{
    let cs = chars_of(s);
    let mut i: usize = 0;
    assert(cs@.skip(0) =~= cs@);
    while cs.len() - i >= 2 && cs[i] == '0' && (cs[i + 1] == 'x' || cs[i + 1] == 'X')
        invariant
            i <= cs@.len(),
            without_any_hex_prefix(s@) == without_any_hex_prefix(cs@.skip(i as int)),
        decreases cs@.len() - i,
    {
        assert(cs@.skip(i as int).skip(2) =~= cs@.skip(i + 2));
        i = i + 2;
    }
    assert(cs@.subrange(i as int, cs@.len() as int) =~= cs@.skip(i as int));
    text_of(&cs, i, cs.len())
}

/// What is left of a text without its prefix has no prefix, and is in ASCII where the text is.
pub proof fn no_prefix_is_left(s: Seq<char>)
    ensures
        !has_any_hex_prefix(without_any_hex_prefix(s)),
        is_ascii_chars(s) ==> is_ascii_chars(without_any_hex_prefix(s)),
    decreases s.len(),
{
    if has_any_hex_prefix(s) {
        no_prefix_is_left(s.skip(2));
        assert(is_ascii_chars(s) ==> is_ascii_chars(s.skip(2)));
    }
}

// ---------------------------------------------------------------------
// Splitting and replacing
// ---------------------------------------------------------------------
/// How many characters `s` has before its first white space.
pub open spec fn word_length(s: Seq<char>) -> nat
    decreases s.len(),
{
    if s.len() == 0 || is_space(s[0]) {
        0
    } else {
        1 + word_length(s.drop_first())
    }
}

/// A word is no longer than the text, and a text that does not begin with white space has one.
pub proof fn word_length_bound(s: Seq<char>)
    ensures
        word_length(s) <= s.len(),
        s.len() > 0 && !is_space(s[0]) ==> word_length(s) > 0,
    decreases s.len(),
{
    if s.len() > 0 && !is_space(s[0]) {
        word_length_bound(s.drop_first());
    }
}

/// Trimming makes no text longer.
pub proof fn trimmed_start_bound(s: Seq<char>)
    ensures
        trimmed_start(s).len() <= s.len(),
        trimmed_start(s).len() > 0 ==> !is_space(trimmed_start(s)[0]),
    decreases s.len(),
{
    if s.len() > 0 && is_space(s[0]) {
        trimmed_start_bound(s.drop_first());
    }
}

/// The words of `s`: its longest parts without white space, from left to right.
pub open spec fn words(s: Seq<char>) -> Seq<Seq<char>>
    decreases s.len(),
{
    let t = trimmed_start(s);
    if t.len() == 0 {
        Seq::empty()
    } else {
        proof {
            trimmed_start_bound(s);
            word_length_bound(t);
        }
        seq![t.take(word_length(t) as int)] + words(t.skip(word_length(t) as int))
    }
}

/// The words of a text, from left to right.
pub fn split_words(s: &str) -> (r: Vec<String>)
    ensures
        texts(r@) == words(s@),
{
    let cs = chars_of(s);
    let mut out: Vec<String> = Vec::new();
    assert(cs@.skip(0) =~= cs@);
    assert(texts(out@) + words(cs@) =~= words(cs@));
    let mut i = skip_space(&cs, 0);
    proof {
        trimmed_again(cs@);
    }
    while i < cs.len()
        invariant
            i <= cs@.len(),
            i < cs@.len() ==> !is_space(cs@[i as int]),
            cs@ == s@,
            texts(out@) + words(cs@.skip(i as int)) == words(s@),
        decreases cs@.len() - i,
    {
        let ghost t = cs@.skip(i as int);
        proof {
            assert(!is_space(t[0]));
            assert(trimmed_start(t) == t);
        }
        let mut j: usize = i;
        assert(t.skip(0) =~= t);
        while j < cs.len() && !is_white_space(cs[j])
            invariant
                i <= j <= cs@.len(),
                t == cs@.skip(i as int),
                word_length(t) == (j - i) + word_length(t.skip(j - i)),
            decreases cs@.len() - j,
        {
            assert(t.skip(j - i).drop_first() =~= t.skip(j + 1 - i));
            j = j + 1;
        }
        assert(word_length(t.skip(j - i)) == 0);
        let word = text_of(&cs, i, j);
        assert(word@ =~= t.take(j - i));
        let ghost before = out@;
        out.push(word);
        assert(texts(out@) =~= texts(before).push(word@));
        let next = skip_space(&cs, j);
        proof {
            word_length_bound(t);
            let rest = cs@.skip(j as int);
            assert(t.skip(j - i) =~= rest);
            trimmed_again(rest);
            assert(texts(before) + (seq![word@] + words(rest)) =~= texts(out@) + words(rest));
        }
        i = next;
    }
    assert(words(cs@.skip(i as int)) =~= Seq::empty());
    assert(texts(out@) + words(cs@.skip(i as int)) =~= texts(out@));
    out
}

/// White space at the start of a text is part of no word.
pub proof fn trimmed_again(s: Seq<char>)
    ensures
        words(trimmed_start(s)) == words(s),
{
    trimmed_start_bound(s);
    assert(trimmed_start(trimmed_start(s)) == trimmed_start(s));
}

/// Whether `s` begins with `p`.
pub open spec fn begins_with(s: Seq<char>, p: Seq<char>) -> bool {
    p.len() <= s.len() && s.take(p.len() as int) == p
}

/// `s` with every occurrence of `p` replaced by `w`, from left to right, none of them overlapping.
pub open spec fn replaced(s: Seq<char>, p: Seq<char>, w: Seq<char>) -> Seq<char>
    decreases s.len(),
{
    if s.len() == 0 || p.len() == 0 {
        s
    } else if begins_with(s, p) {
        w + replaced(s.skip(p.len() as int), p, w)
    } else {
        seq![s[0]] + replaced(s.drop_first(), p, w)
    }
}

/// Whether the characters of `p` stand in `cs` from `from` on.
fn stands_at(cs: &Vec<char>, from: usize, p: &Vec<char>) -> (r: bool)
    requires
        from <= cs@.len(),
    ensures
        r == begins_with(cs@.skip(from as int), p@),
{
    let ghost t = cs@.skip(from as int);
    if cs.len() - from < p.len() {
        return false;
    }
    let mut i: usize = 0;
    while i < p.len()
        invariant
            t == cs@.skip(from as int),
            i <= p@.len() <= t.len(),
            from + t.len() == cs.len(),
            forall|j: int| 0 <= j < i ==> t[j] == p@[j],
        decreases p@.len() - i,
    {
        if cs[from + i] != p[i] {
            assert(t.take(p@.len() as int)[i as int] != p@[i as int]);
            return false;
        }
        i = i + 1;
    }
    assert(t.take(p@.len() as int) =~= p@);
    true
}

/// The text with every occurrence of `p` replaced by `w`, from left to right.
pub fn replace_all(s: &str, p: &str, w: &str) -> (r: String)
    requires
        p@.len() > 0,
    ensures
        r@ == replaced(s@, p@, w@),
{
    let cs = chars_of(s);
    let pat = chars_of(p);
    let mut out = String::new();
    let mut i: usize = 0;
    assert(cs@.skip(0) =~= cs@);
    assert(out@ + replaced(cs@, p@, w@) =~= replaced(s@, p@, w@));
    while i < cs.len()
        invariant
            i <= cs@.len(),
            pat@ == p@,
            p@.len() > 0,
            out@ + replaced(cs@.skip(i as int), p@, w@) == replaced(s@, p@, w@),
        decreases cs@.len() - i,
    {
        let ghost t = cs@.skip(i as int);
        let ghost before = out@;
        if stands_at(&cs, i, &pat) {
            out.append(w);
            assert(t.skip(p@.len() as int) =~= cs@.skip(i + p@.len()));
            assert(before + (w@ + replaced(t.skip(p@.len() as int), p@, w@)) =~= out@ + replaced(
                cs@.skip(i + p@.len()),
                p@,
                w@,
            ));
            i = i + pat.len();
        } else {
            out.push(cs[i]);
            assert(t.drop_first() =~= cs@.skip(i + 1));
            assert(before + (seq![t[0]] + replaced(t.drop_first(), p@, w@)) =~= out@ + replaced(
                cs@.skip(i + 1),
                p@,
                w@,
            ));
            i = i + 1;
        }
    }
    assert(out@ + replaced(cs@.skip(i as int), p@, w@) =~= out@);
    out
}

/// A copy of each of a list of strings, in order.
pub fn copy_texts(v: &Vec<String>) -> (r: Vec<String>)
    ensures
        r@ == v@,
{
    let mut out: Vec<String> = Vec::new();
    let mut i: usize = 0;
    while i < v.len()
        invariant
            i <= v@.len(),
            out@ == v@.take(i as int),
        decreases v@.len() - i,
    {
        out.push(v[i].clone());
        assert(v@.take(i as int).push(v@[i as int]) =~= v@.take(i + 1));
        i = i + 1;
    }
    assert(v@.take(v@.len() as int) =~= v@);
    out
}

// ---------------------------------------------------------------------
// What the standard library knows of Unicode
// ---------------------------------------------------------------------
/// What `str::to_lowercase` makes of a text.
pub uninterp spec fn lowercase(s: Seq<char>) -> Seq<char>;

/// `str::to_lowercase`. Its result depends on the text alone; on a text in ASCII it changes the
/// letters `A` to `Z` and nothing else.
#[verifier::external_body]
pub(crate) fn to_lowercase(s: &str) -> (r: String)
    ensures
        r@ == lowercase(s@),
        is_ascii_chars(s@) ==> r@ == ascii_lowercase(s@),
{
    s.to_lowercase()
}

/// What `String::from_utf8_lossy` makes of some bytes.
pub uninterp spec fn utf8_lossy(bytes: Seq<u8>) -> Seq<char>;

/// `String::from_utf8_lossy`. Its result depends on the bytes alone, and bytes in UTF-8 are read
/// as the text that they encode.
#[verifier::external_body]
pub(crate) fn from_utf8_lossy(bytes: &Vec<u8>) -> (r: String)
    ensures
        r@ == utf8_lossy(bytes@),
        vstd::utf8::valid_utf8(bytes@) ==> r@ == vstd::utf8::decode_utf8(bytes@),
{
    String::from_utf8_lossy(bytes).into_owned()
}

/// What the `Debug` form of a character is.
pub uninterp spec fn char_debug(c: char) -> Seq<char>;

/// The `Debug` form of a `char`, as `format!` writes it for `{:?}`: a function of the character
/// alone.
#[verifier::external_body]
pub(crate) fn debug_char(c: char) -> (r: String)
    ensures
        r@ == char_debug(c),
{
    format!("{:?}", c)
}

} // verus!
