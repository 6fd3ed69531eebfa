//! What the operations promise, told apart from how they are specified: of what a function returns,
//! over the function itself and over plain sequences and numbers.
//!
//! The words of this module are its own. A number on a command line is read digit by digit, a list
//! is written item by item, and votes are added one by one.
pub mod answers;
pub mod client;
pub mod numbers;
pub mod payouts;
pub mod proofs;
pub mod refusals;
pub mod rounds;
pub mod split;
pub mod texts;
pub mod voters;
pub mod votes;

use crate::decimal::{decimal, decimal_reads_back, digit_char, digits_value, integer_text};
use crate::json::{json_escaped, json_escaped_char, json_items, json_list, json_quoted};
use crate::routes::allocation::sum;
use crate::soroban_client::ProcessOutput;
use vstd::prelude::*;
use vstd::utf8::{decode_utf8, valid_utf8};

verus! {

// ---------------------------------------------------------------------
// Numbers
// ---------------------------------------------------------------------
/// Whether a word holds the digits `0` to `9` only.
pub open spec fn digits_only(word: Seq<char>) -> bool {
    forall|i: int| 0 <= i < word.len() ==> '0' <= #[trigger] word[i] <= '9'
}

/// The number that a row of digits stands for, to the base of ten.
pub open spec fn value(word: Seq<char>) -> nat
    decreases word.len(),
{
    if word.len() == 0 {
        0
    } else {
        10 * value(word.drop_last()) + (word.last() as int - 48) as nat
    }
}

/// Whether a word is the number `n` in decimal, without a sign and without leading zeros.
pub open spec fn is_number(word: Seq<char>, n: int) -> bool {
    &&& word.len() > 0
    &&& digits_only(word)
    &&& value(word) == n
    &&& word.len() > 1 ==> word[0] != '0'
}

/// Reading digit by digit is what the library calls the value of digits.
pub proof fn value_is_digits_value(word: Seq<char>)
    ensures
        value(word) == digits_value(word),
    decreases word.len(),
{
    if word.len() > 0 {
        value_is_digits_value(word.drop_last());
    }
}

/// A number in decimal is that number, without leading zeros.
pub proof fn decimal_is_number(n: nat)
    ensures
        is_number(decimal(n), n as int),
        integer_text(n as int) == decimal(n),
    decreases n,
{
    decimal_reads_back(n);
    value_is_digits_value(decimal(n));
    let word = decimal(n);
    assert forall|i: int| 0 <= i < word.len() implies '0' <= #[trigger] word[i] <= '9' by {
        assert(crate::decimal::is_digit(word[i]));
    }
    if n >= 10 {
        decimal_is_number(n / 10);
        assert(word[0] == decimal(n / 10)[0]);
        if n / 10 < 10 {
            assert(decimal(n / 10) =~= seq![digit_char((n / 10) as int)]);
            assert(digit_char((n / 10) as int) != '0');
        } else {
            decimal_reads_back(n / 10 / 10);
            assert(decimal(n / 10).len() > 1);
        }
    }
}

/// A word that does not begin with zero stands for a number that is not zero.
proof fn leading_digit_counts(word: Seq<char>)
    requires
        word.len() > 0,
        digits_only(word),
        word[0] != '0',
    ensures
        value(word) > 0,
    decreases word.len(),
{
    if word.len() > 1 {
        leading_digit_counts(word.drop_last());
    }
}

/// There is one word for a number.
pub proof fn number_is_decimal(word: Seq<char>, n: nat)
    requires
        is_number(word, n as int),
    ensures
        word == decimal(n),
    decreases word.len(),
{
    let init = word.drop_last();
    assert('0' <= word[word.len() - 1] <= '9');
    if word.len() == 1 {
        assert(init =~= Seq::empty());
        assert(value(init) == 0);
        assert(word =~= seq![digit_char(n as int)]);
    } else {
        leading_digit_counts(init);
        number_is_decimal(init, value(init));
        assert(n == 10 * value(init) + (word.last() as int - 48));
        assert(n / 10 == value(init) && n % 10 == word.last() as int - 48);
        assert(word =~= init.push(word.last()));
    }
}

/// The sum of numbers, added one by one.
pub open spec fn total(s: Seq<u64>) -> nat
    decreases s.len(),
{
    if s.len() == 0 {
        0
    } else {
        total(s.drop_last()) + s.last() as nat
    }
}

/// Adding one by one is what the library calls the sum.
pub proof fn total_is_sum(s: Seq<u64>)
    ensures
        total(s) == sum(s),
    decreases s.len(),
{
    if s.len() > 0 {
        total_is_sum(s.drop_last());
    }
}

// ---------------------------------------------------------------------
// What a program prints
// ---------------------------------------------------------------------
/// Whether bytes are a text in UTF-8.
pub open spec fn encodes(bytes: Seq<u8>, text: Seq<char>) -> bool {
    valid_utf8(bytes) && decode_utf8(bytes) == text
}

/// Whether a program ended with or without success and left two texts behind.
pub open spec fn left(o: ProcessOutput, success: bool, stdout: Seq<char>, stderr: Seq<char>) -> bool {
    &&& o.success == success
    &&& encodes(o.stdout@, stdout)
    &&& encodes(o.stderr@, stderr)
}

/// Whether `p` stands nowhere in `s` before position `n`.
pub open spec fn not_before(s: Seq<char>, n: int, p: Seq<char>) -> bool {
    forall|i: int|
        0 <= i < n && i + p.len() <= s.len() ==> #[trigger] s.subrange(i, i + p.len()) != p
}

/// The numbers of a list with a comma between each two.
pub open spec fn comma_separated(v: Seq<u64>) -> Seq<char>
    decreases v.len(),
{
    if v.len() == 0 {
        Seq::empty()
    } else if v.len() == 1 {
        decimal(v[0] as nat)
    } else {
        comma_separated(v.drop_last()) + seq![','] + decimal(v.last() as nat)
    }
}

/// A list of numbers in square brackets.
pub open spec fn bracketed(v: Seq<u64>) -> Seq<char> {
    seq!['['] + comma_separated(v) + seq![']']
}

/// A list of numbers in square brackets is the list as JSON.
pub proof fn bracketed_is_json(v: Seq<u64>)
    ensures
        bracketed(v) == json_list(v),
{
    items_are_json(v);
}

proof fn items_are_json(v: Seq<u64>)
    ensures
        comma_separated(v) == json_items(v),
    decreases v.len(),
{
    if v.len() > 1 {
        items_are_json(v.drop_last());
    }
}

// ---------------------------------------------------------------------
// JSON strings
// ---------------------------------------------------------------------
/// Whether a text holds nothing that is escaped in JSON.
pub open spec fn plain(s: Seq<char>) -> bool {
    forall|i: int|
        0 <= i < s.len() ==> (#[trigger] s[i]) != '"' && s[i] != '\\' && s[i] as int >= 32
}

/// A text in double quotes.
pub open spec fn in_quotes(s: Seq<char>) -> Seq<char> {
    seq!['"'] + s + seq!['"']
}

/// A text without anything to escape is a JSON string in double quotes.
pub proof fn plain_is_quoted(s: Seq<char>)
    requires
        plain(s),
    ensures
        json_quoted(s) == in_quotes(s),
{
    plain_is_unescaped(s);
}

proof fn plain_is_unescaped(s: Seq<char>)
    requires
        plain(s),
    ensures
        json_escaped(s) == s,
    decreases s.len(),
{
    if s.len() > 0 {
        let init = s.drop_last();
        assert forall|i: int| 0 <= i < init.len() implies (#[trigger] init[i]) != '"' && init[i]
            != '\\' && init[i] as int >= 32 by {
            assert(init[i] == s[i]);
        }
        plain_is_unescaped(init);
        let c = s[s.len() - 1];
        assert(json_escaped_char(c) =~= seq![c]);
        assert(init + seq![c] =~= s);
    }
}

} // verus!
