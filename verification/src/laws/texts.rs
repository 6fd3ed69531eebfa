//! Trimming, splitting and replacing.
use crate::laws::numbers::{begins_0x, prefixed, rest_is_left};
use crate::text::{
    ascii_lower, ascii_lowercase, begins_with, copy_optional, copy_or_empty, copy_texts,
    eq_ignoring_case, is_space, is_white_space, replace_all, replaced, same_ignoring_case,
    same_text, split_words, texts, trim, trim_any_hex_prefix, trim_hex_prefix, trimmed, trimmed_end,
    trimmed_start, without_any_hex_prefix, word_length, words,
};
use vstd::prelude::*;
use vstd::string::*;

verus! {

/// Whether a text is white space only.
pub open spec fn blank(s: Seq<char>) -> bool {
    forall|i: int| 0 <= i < s.len() ==> is_space(#[trigger] s[i])
}

/// Whether a text neither begins nor ends with white space.
pub open spec fn tight(s: Seq<char>) -> bool {
    s.len() > 0 ==> !is_space(s[0]) && !is_space(s.last())
}

/// Whether `t` is what is left of `s` without the white space at its two ends: the rest of `s` is
/// white space, and `t` neither begins nor ends with any.
pub open spec fn is_trimming_of(t: Seq<char>, s: Seq<char>) -> bool {
    tight(t) && exists|before: Seq<char>, after: Seq<char>|
        blank(before) && blank(after) && s == #[trigger] (before + t + after)
}

proof fn start_is_trimmed(s: Seq<char>) -> (before: Seq<char>)
    ensures
        blank(before),
        s == before + trimmed_start(s),
        trimmed_start(s).len() > 0 ==> !is_space(trimmed_start(s)[0]),
    decreases s.len(),
{
    if s.len() > 0 && is_space(s[0]) {
        let rest = start_is_trimmed(s.drop_first());
        let before = seq![s[0]] + rest;
        assert(s =~= seq![s[0]] + s.drop_first());
        assert(s =~= before + trimmed_start(s.drop_first()));
        before
    } else {
        assert(s =~= Seq::<char>::empty() + s);
        Seq::empty()
    }
}

proof fn end_is_trimmed(s: Seq<char>) -> (after: Seq<char>)
    ensures
        blank(after),
        s == trimmed_end(s) + after,
        trimmed_end(s).len() > 0 ==> !is_space(trimmed_end(s).last()) && trimmed_end(s)[0] == s[0],
    decreases s.len(),
{
    if s.len() > 0 && is_space(s.last()) {
        let rest = end_is_trimmed(s.drop_last());
        let after = rest.push(s.last());
        assert(s =~= s.drop_last().push(s.last()));
        assert(s =~= trimmed_end(s.drop_last()) + after);
        after
    } else {
        assert(s =~= s + Seq::<char>::empty());
        Seq::empty()
    }
}

/// Trimming takes the white space off the two ends and nothing else.
pub proof fn trimmed_is_trimming(s: Seq<char>)
    ensures
        is_trimming_of(trimmed(s), s),
{
    let before = start_is_trimmed(s);
    let t = trimmed_start(s);
    let after = end_is_trimmed(t);
    assert(s =~= before + trimmed(s) + after);
}

/// A text that neither begins nor ends with white space is trimmed to itself, whatever white space
/// stands around it.
pub proof fn white_space_around_is_trimmed(before: Seq<char>, t: Seq<char>, after: Seq<char>)
    requires
        blank(before),
        blank(after),
        tight(t),
        t.len() > 0,
    ensures
        trimmed(before + t + after) == t,
{
    trimmed_front(before, t + after);
    assert(before + t + after =~= before + (t + after));
    assert((t + after)[0] == t[0]);
    assert(trimmed_start(t + after) == t + after);
    trimmed_back(t, after);
}

/// There is one trimming of a text.
pub proof fn trimming_is_unique(t: Seq<char>, s: Seq<char>)
    requires
        is_trimming_of(t, s),
    ensures
        trimmed(s) == t,
{
    let (before, after) = choose|before: Seq<char>, after: Seq<char>|
        blank(before) && blank(after) && s == #[trigger] (before + t + after);
    if t.len() > 0 {
        white_space_around_is_trimmed(before, t, after);
    } else {
        let none = Seq::<char>::empty();
        assert(blank(s)) by {
            assert forall|i: int| 0 <= i < s.len() implies is_space(#[trigger] s[i]) by {
                if i < before.len() {
                    assert(s[i] == before[i]);
                } else {
                    assert(s[i] == after[i - before.len()]);
                }
            }
        }
        trimmed_front(s, none);
        assert(s + none =~= s);
        assert(trimmed_start(s) == none);
        assert(trimmed_end(none) == none);
        assert(t =~= none);
    }
}

proof fn trimmed_front(before: Seq<char>, rest: Seq<char>)
    requires
        blank(before),
    ensures
        trimmed_start(before + rest) == trimmed_start(rest),
    decreases before.len(),
{
    if before.len() > 0 {
        assert(is_space(before[0]));
        let tail = before.drop_first();
        assert forall|i: int| 0 <= i < tail.len() implies is_space(#[trigger] tail[i]) by {
            assert(tail[i] == before[i + 1]);
        }
        trimmed_front(tail, rest);
        assert((before + rest).drop_first() =~= tail + rest);
    } else {
        assert(before + rest =~= rest);
    }
}

proof fn trimmed_back(t: Seq<char>, after: Seq<char>)
    requires
        blank(after),
        t.len() > 0,
        !is_space(t.last()),
    ensures
        trimmed_end(t + after) == t,
    decreases after.len(),
{
    if after.len() > 0 {
        assert(is_space(after[after.len() - 1]));
        let init = after.drop_last();
        assert forall|i: int| 0 <= i < init.len() implies is_space(#[trigger] init[i]) by {
            assert(init[i] == after[i]);
        }
        trimmed_back(t, init);
        assert((t + after).drop_last() =~= t + init);
    } else {
        assert(t + after =~= t);
    }
}

/// Whether a text is one word: it is not empty and holds no white space.
pub open spec fn is_word(s: Seq<char>) -> bool {
    s.len() > 0 && forall|i: int| 0 <= i < s.len() ==> !is_space(#[trigger] s[i])
}

/// White space before a text adds no word to it, and white space alone holds none.
pub proof fn white_space_is_no_word(before: Seq<char>, rest: Seq<char>)
    requires
        blank(before),
    ensures
        words(before + rest) == words(rest),
        words(before) == Seq::<Seq<char>>::empty(),
{
    trimmed_front(before, rest);
    trimmed_front(before, Seq::empty());
    assert(before + Seq::<char>::empty() =~= before);
}

proof fn word_is_measured(word: Seq<char>, rest: Seq<char>)
    requires
        forall|i: int| 0 <= i < word.len() ==> !is_space(#[trigger] word[i]),
        rest.len() > 0 ==> is_space(rest[0]),
    ensures
        word_length(word + rest) == word.len(),
    decreases word.len(),
{
    if word.len() > 0 {
        assert(!is_space(word[0]));
        let tail = word.drop_first();
        assert forall|i: int| 0 <= i < tail.len() implies !is_space(#[trigger] tail[i]) by {
            assert(tail[i] == word[i + 1]);
        }
        word_is_measured(tail, rest);
        assert((word + rest).drop_first() =~= tail + rest);
    } else {
        assert(word + rest =~= rest);
    }
}

/// The words of a text that begins with a word are that word, in full, and then the words of the
/// rest.
pub proof fn words_come_one_by_one(word: Seq<char>, rest: Seq<char>)
    requires
        is_word(word),
        rest.len() > 0 ==> is_space(rest[0]),
    ensures
        words(word + rest) == seq![word] + words(rest),
{
    word_is_measured(word, rest);
    let s = word + rest;
    assert(!is_space(word[0]));
    assert(s[0] == word[0]);
    assert(trimmed_start(s) == s);
    assert(s.take(word.len() as int) =~= word);
    assert(s.skip(word.len() as int) =~= rest);
}

/// Whether `p` begins at no position before `n` in `s`.
pub open spec fn starts_nowhere_before(s: Seq<char>, n: int, p: Seq<char>) -> bool {
    forall|i: int| 0 <= i < n ==> !begins_with(#[trigger] s.skip(i), p)
}

/// The first occurrence of a text is replaced, what stands before it stays, and the rest is treated
/// likewise.
pub proof fn first_occurrence_is_replaced(
    before: Seq<char>,
    p: Seq<char>,
    after: Seq<char>,
    w: Seq<char>,
)
    requires
        p.len() > 0,
        starts_nowhere_before(before + p + after, before.len() as int, p),
    ensures
        replaced(before + p + after, p, w) == before + w + replaced(after, p, w),
    decreases before.len(),
{
    let s = before + p + after;
    if before.len() == 0 {
        assert(s.take(p.len() as int) =~= p);
        assert(s.skip(p.len() as int) =~= after);
        assert(before + w + replaced(after, p, w) =~= w + replaced(after, p, w));
    } else {
        let tail = before.drop_first();
        let t = tail + p + after;
        assert(s.drop_first() =~= t);
        assert(s.skip(0) =~= s);
        assert(!begins_with(s.skip(0), p));
        assert forall|i: int| 0 <= i < tail.len() implies !begins_with(#[trigger] t.skip(i), p) by {
            assert(t.skip(i) =~= s.skip(i + 1));
        }
        first_occurrence_is_replaced(tail, p, after, w);
        assert(seq![s[0]] + (tail + w + replaced(after, p, w)) =~= before + w + replaced(
            after,
            p,
            w,
        ));
    }
}

/// A text in which nothing occurs to be replaced stays as it is.
pub proof fn nothing_else_is_replaced(s: Seq<char>, p: Seq<char>, w: Seq<char>)
    requires
        starts_nowhere_before(s, s.len() as int, p),
    ensures
        replaced(s, p, w) == s,
    decreases s.len(),
{
    if s.len() > 0 && p.len() > 0 {
        let t = s.drop_first();
        assert(s.skip(0) =~= s);
        assert(!begins_with(s.skip(0), p));
        assert forall|i: int| 0 <= i < t.len() implies !begins_with(#[trigger] t.skip(i), p) by {
            assert(t.skip(i) =~= s.skip(i + 1));
        }
        nothing_else_is_replaced(t, p, w);
        assert(seq![s[0]] + t =~= s);
    }
}

// ---------------------------------------------------------------------
// The functions on texts
// ---------------------------------------------------------------------
/// White space is what Unicode calls so: the controls from the tab to the carriage return, the
/// blank, the next line, and the separators.
pub proof fn white_space_is_that_of_unicode(c: char, r: bool)
    requires
        call_ensures(is_white_space, (c,), r),
    ensures
        r <==> (c == '\t' || c == '\n' || c == '\u{b}' || c == '\u{c}' || c == '\r' || c == ' ' || c
            == '\u{85}' || c == '\u{a0}' || c == '\u{1680}' || '\u{2000}' <= c <= '\u{200a}' || c
            == '\u{2028}' || c == '\u{2029}' || c == '\u{202f}' || c == '\u{205f}' || c
            == '\u{3000}'),
{
}

/// A text is trimmed at its two ends, and nowhere else.
pub proof fn text_is_trimmed(s: &str, r: String)
    requires
        call_ensures(trim, (s,), r),
    ensures
        is_trimming_of(r@, s@),
{
    trimmed_is_trimming(s@);
}

/// Whether a text is another, as it is or with `0x` or `0X` before it, however often.
pub open spec fn any_prefixed(text: Seq<char>, rest: Seq<char>) -> bool
    decreases text.len(),
{
    ||| text == rest
    ||| text.len() >= 2 && text[0] == '0' && (text[1] == 'x' || text[1] == 'X') && any_prefixed(
        text.skip(2),
        rest,
    )
}

/// The `0x` or `0X` before a text is taken off.
pub proof fn any_rest_is_left(text: Seq<char>, rest: Seq<char>)
    requires
        any_prefixed(text, rest),
        !(rest.len() >= 2 && rest[0] == '0' && (rest[1] == 'x' || rest[1] == 'X')),
    ensures
        without_any_hex_prefix(text) == rest,
    decreases text.len(),
{
    if text != rest {
        any_rest_is_left(text.skip(2), rest);
    }
}

/// A `0x` before a text is taken off, however often it stands there, and nothing else; a `0X` is
/// where either is to be taken off.
pub proof fn prefixes_are_taken_off(s: &str, rest: Seq<char>, x: String, any: String)
    requires
        call_ensures(trim_hex_prefix, (s,), x),
        call_ensures(trim_any_hex_prefix, (s,), any),
    ensures
        prefixed(s@, rest) && !begins_0x(rest) ==> x@ == rest,
        any_prefixed(s@, rest) && !(rest.len() >= 2 && rest[0] == '0' && (rest[1] == 'x' || rest[1]
            == 'X')) ==> any@ == rest,
{
    if prefixed(s@, rest) && !begins_0x(rest) {
        rest_is_left(s@, rest);
    }
    if any_prefixed(s@, rest) && !(rest.len() >= 2 && rest[0] == '0' && (rest[1] == 'x' || rest[1]
        == 'X')) {
        any_rest_is_left(s@, rest);
    }
}

/// Where one text stands once in another it is replaced, and where it stands nowhere nothing is.
pub proof fn occurrence_is_replaced(
    s: &str,
    p: &str,
    w: &str,
    before: Seq<char>,
    after: Seq<char>,
    r: String,
)
    requires
        p@.len() > 0,
        call_ensures(replace_all, (s, p, w), r),
    ensures
        s@ == before + p@ + after && starts_nowhere_before(s@, before.len() as int, p@)
            && starts_nowhere_before(after, after.len() as int, p@) ==> r@ == before + w@ + after,
        starts_nowhere_before(s@, s@.len() as int, p@) ==> r@ == s@,
{
    if s@ == before + p@ + after && starts_nowhere_before(s@, before.len() as int, p@)
        && starts_nowhere_before(after, after.len() as int, p@) {
        first_occurrence_is_replaced(before, p@, after, w@);
        nothing_else_is_replaced(after, p@, w@);
    }
    if starts_nowhere_before(s@, s@.len() as int, p@) {
        nothing_else_is_replaced(s@, p@, w@);
    }
}

/// Words with a blank between each two.
pub open spec fn spaced(v: Seq<Seq<char>>) -> Seq<char>
    decreases v.len(),
{
    if v.len() == 0 {
        Seq::empty()
    } else if v.len() == 1 {
        v[0]
    } else {
        v[0] + (seq![' '] + spaced(v.drop_first()))
    }
}

/// The words of words with a blank between each two.
pub proof fn spaced_words(v: Seq<Seq<char>>)
    requires
        forall|i: int| 0 <= i < v.len() ==> is_word(#[trigger] v[i]),
    ensures
        words(spaced(v)) == v,
    decreases v.len(),
{
    if v.len() > 0 {
        let none = Seq::<char>::empty();
        white_space_is_no_word(none, none);
        assert(words(none) =~= Seq::empty());
        assert(is_word(v[0]));
        if v.len() == 1 {
            words_come_one_by_one(v[0], none);
            assert(v[0] + none =~= v[0]);
            assert(seq![v[0]] + words(none) =~= v);
        } else {
            let tail = v.drop_first();
            assert forall|i: int| 0 <= i < tail.len() implies is_word(#[trigger] tail[i]) by {
                assert(tail[i] == v[i + 1]);
            }
            spaced_words(tail);
            let rest = seq![' '] + spaced(tail);
            assert(is_space(' '));
            white_space_is_no_word(seq![' '], spaced(tail));
            words_come_one_by_one(v[0], rest);
            assert(seq![v[0]] + tail =~= v);
        }
    } else {
        let none = Seq::<char>::empty();
        white_space_is_no_word(none, none);
        assert(words(none) =~= v);
    }
}

/// A text is split into its words, in full and in order.
pub proof fn text_is_split_into_words(s: &str, v: Seq<Seq<char>>, r: Vec<String>, i: int)
    requires
        call_ensures(split_words, (s,), r),
        s@ == spaced(v),
        forall|i: int| 0 <= i < v.len() ==> is_word(#[trigger] v[i]),
    ensures
        r@.len() == v.len(),
        0 <= i < v.len() ==> r@[i]@ == v[i],
{
    spaced_words(v);
    let w = texts(r@);
    assert(w.len() == r@.len());
    if 0 <= i < v.len() {
        assert(w[i] == r@[i]@);
    }
}

/// Whether two characters are the same, or the same letter in another case.
pub open spec fn same_letter(c: char, d: char) -> bool {
    ||| c == d
    ||| 'A' <= c <= 'Z' && d as int == c as int + 32
    ||| 'A' <= d <= 'Z' && c as int == d as int + 32
}

/// Texts are compared character by character, as they are or up to the case of their letters.
pub proof fn texts_are_compared(a: &str, b: &str, same: bool, alike: bool)
    requires
        call_ensures(same_text, (a, b), same),
        call_ensures(eq_ignoring_case, (a, b), alike),
    ensures
        same <==> a@ == b@,
        alike <==> a@.len() == b@.len() && forall|i: int|
            0 <= i < a@.len() ==> same_letter(#[trigger] a@[i], b@[i]),
{
    alike_is_same_letters(a@, b@);
}

/// Texts are the same up to the case of their letters just where they are so letter by letter.
pub proof fn alike_is_same_letters(x: Seq<char>, y: Seq<char>)
    ensures
        same_ignoring_case(x, y) <==> x.len() == y.len() && forall|i: int|
            0 <= i < x.len() ==> same_letter(#[trigger] x[i], y[i]),
{
    let (u, v) = (ascii_lowercase(x), ascii_lowercase(y));
    assert(u.len() == x.len() && v.len() == y.len());
    if u == v {
        assert forall|i: int| 0 <= i < x.len() implies same_letter(#[trigger] x[i], y[i]) by {
            assert(u[i] == v[i]);
            assert(ascii_lower(x[i]) == ascii_lower(y[i]));
        }
    }
    if x.len() == y.len() && forall|i: int|
        0 <= i < x.len() ==> same_letter(#[trigger] x[i], y[i]) {
        assert forall|i: int| 0 <= i < u.len() implies u[i] == v[i] by {
            assert(same_letter(x[i], y[i]));
            assert(ascii_lower(x[i]) == ascii_lower(y[i]));
        }
        assert(u =~= v);
    }
}

/// A copy is what was copied, and nothing is empty.
pub proof fn copies_are_the_same(
    s: &Option<String>,
    v: &Vec<String>,
    a: Option<String>,
    b: String,
    c: Vec<String>,
)
    requires
        call_ensures(copy_optional, (s,), a),
        call_ensures(copy_or_empty, (s,), b),
        call_ensures(copy_texts, (v,), c),
    ensures
        a == *s,
        s matches Some(t) ==> b@ == t@,
        s is None ==> b@.len() == 0,
        c@ == v@,
{
    reveal_strlit("");
}

} // verus!
