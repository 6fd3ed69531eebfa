//! JSON values, read and written by `serde_json`.
use crate::decimal::decimal;
use crate::hexadecimal::hex_digit;
use crate::text::texts;
use vstd::prelude::*;

verus! {

// ---------------------------------------------------------------------
// Reading
// ---------------------------------------------------------------------
/// White space in JSON.
pub open spec fn is_json_space(c: char) -> bool {
    c == ' ' || c == '\n' || c == '\t' || c == '\r'
}

/// Whether `s` is `core` with nothing but white space before and after it.
pub open spec fn is_spaced(s: Seq<char>, core: Seq<char>) -> bool {
    exists|from: int|
        #![trigger s.subrange(from, from + core.len())]
        {
            &&& 0 <= from
            &&& from + core.len() <= s.len()
            &&& s.subrange(from, from + core.len()) == core
            &&& forall|i: int|
                (0 <= i < from || from + core.len() <= i < s.len()) ==> is_json_space(
                    #[trigger] s[i],
                )
        }
}

/// A text stands in itself with nothing around it.
pub proof fn is_spaced_by_nothing(s: Seq<char>)
    ensures
        is_spaced(s, s),
{
    assert(s.subrange(0, 0 + s.len() as int) =~= s);
}

/// A list of numbers as JSON, without white space.
pub open spec fn json_list(v: Seq<u64>) -> Seq<char> {
    seq!['['] + json_items(v) + seq![']']
}

/// The numbers of a list as JSON, with a comma between each two.
pub open spec fn json_items(v: Seq<u64>) -> Seq<char>
    decreases v.len(),
{
    if v.len() == 0 {
        Seq::empty()
    } else if v.len() == 1 {
        decimal(v[0] as nat)
    } else {
        json_items(v.drop_last()) + seq![','] + decimal(v.last() as nat)
    }
}

/// A list of texts as JSON, without white space between them.
pub open spec fn json_texts(v: Seq<Seq<char>>) -> Seq<char> {
    seq!['['] + json_text_items(v) + seq![']']
}

/// The texts of a list as JSON, with a comma between each two.
pub open spec fn json_text_items(v: Seq<Seq<char>>) -> Seq<char>
    decreases v.len(),
{
    if v.len() == 0 {
        Seq::empty()
    } else if v.len() == 1 {
        json_quoted(v[0])
    } else {
        json_text_items(v.drop_last()) + seq![','] + json_quoted(v.last())
    }
}

/// Whether `r` is the list of texts that `s` is written from, where `s` is one without white space
/// between them.
pub open spec fn reads_text_list(s: Seq<char>, r: Result<Vec<String>, String>) -> bool {
    forall|v: Seq<Seq<char>>|
        s == #[trigger] json_texts(v) ==> (r matches Ok(list) && texts(list@) == v)
}

/// Whether `r` is a number just where `s` is that number in decimal, with nothing but white space
/// around it.
pub open spec fn reads_one_number(s: Seq<char>, r: Result<u64, String>) -> bool {
    forall|n: u64|
        #![trigger decimal(n as nat)]
        r == Ok::<u64, String>(n) <==> is_spaced(s, decimal(n as nat))
}

/// Whether `r` is the list that `s` is written from, where `s` is a list without white space.
pub open spec fn reads_plain_list(s: Seq<char>, r: Result<Vec<u64>, String>) -> bool {
    forall|v: Seq<u64>| s == #[trigger] json_list(v) ==> (r matches Ok(list) && list@ == v)
}

/// Whether a number is read from `s` just where `s` is that number in decimal, with nothing but
/// white space around it.
pub open spec fn number_is_read(s: Seq<char>) -> bool {
    forall|n: u64|
        #![trigger decimal(n as nat)]
        json_u64(s) == Ok::<u64, Seq<char>>(n) <==> is_spaced(s, decimal(n as nat))
}

/// Whether the unit is read from `s` just where `s` is `null` with nothing but white space around
/// it.
pub open spec fn unit_is_read(s: Seq<char>) -> bool {
    json_unit(s) is Ok <==> is_spaced(s, seq!['n', 'u', 'l', 'l'])
}

/// Whether a list of numbers without white space is read from `s` where it is written there.
pub open spec fn list_is_read(s: Seq<char>) -> bool {
    forall|v: Seq<u64>|
        s == #[trigger] json_list(v) ==> json_u64_list(s) == Ok::<Seq<u64>, Seq<char>>(v)
}

/// Whether a list of texts without white space between them is read from `s` where it is written
/// there.
pub open spec fn texts_are_read(s: Seq<char>) -> bool {
    forall|v: Seq<Seq<char>>|
        s == #[trigger] json_texts(v) ==> json_string_list(s) == Ok::<Seq<Seq<char>>, Seq<char>>(v)
}

/// What `serde_json` reads a text as where a `u64` is expected, or what its error says.
pub uninterp spec fn json_u64(s: Seq<char>) -> Result<u64, Seq<char>>;

/// `serde_json::from_str::<u64>`, with its error as text. The result depends on the text alone.
/// It is a number just where the text is that number in decimal, without leading zeros and with
/// nothing but white space around it.
#[verifier::external_body]
pub(crate) fn parse_json_u64(s: &str) -> (r: Result<u64, String>)
    ensures
        match r {
            Ok(n) => json_u64(s@) == Ok::<u64, Seq<char>>(n),
            Err(e) => json_u64(s@) == Err::<u64, Seq<char>>(e@),
        },
        reads_one_number(s@, r),
{
    serde_json::from_str::<u64>(s).map_err(|e| e.to_string())
}

/// What `serde_json` reads a text as where the unit is expected, or what its error says.
pub uninterp spec fn json_unit(s: Seq<char>) -> Result<(), Seq<char>>;

/// `serde_json::from_str::<()>`, with its error as text. The result depends on the text alone. It
/// succeeds just where the text is `null` with nothing but white space around it.
#[verifier::external_body]
pub(crate) fn parse_json_unit(s: &str) -> (r: Result<(), String>)
    ensures
        match r {
            Ok(u) => json_unit(s@) == Ok::<(), Seq<char>>(u),
            Err(e) => json_unit(s@) == Err::<(), Seq<char>>(e@),
        },
        r is Ok <==> is_spaced(s@, seq!['n', 'u', 'l', 'l']),
{
    serde_json::from_str::<()>(s).map_err(|e| e.to_string())
}

/// What `serde_json` reads a text as where a list of `u64` is expected, or what its error says.
pub uninterp spec fn json_u64_list(s: Seq<char>) -> Result<Seq<u64>, Seq<char>>;

/// `serde_json::from_str::<Vec<u64>>`, with its error as text. The result depends on the text
/// alone, and a list written without white space is read as that list.
#[verifier::external_body]
pub(crate) fn parse_json_u64_list(s: &str) -> (r: Result<Vec<u64>, String>)
    ensures
        match r {
            Ok(v) => json_u64_list(s@) == Ok::<Seq<u64>, Seq<char>>(v@),
            Err(e) => json_u64_list(s@) == Err::<Seq<u64>, Seq<char>>(e@),
        },
        reads_plain_list(s@, r),
{
    serde_json::from_str::<Vec<u64>>(s).map_err(|e| e.to_string())
}

/// What `serde_json` reads a text as where a list of strings is expected, or what its error says.
pub uninterp spec fn json_string_list(s: Seq<char>) -> Result<Seq<Seq<char>>, Seq<char>>;

/// `serde_json::from_str::<Vec<String>>`, with its error as text. The result depends on the text
/// alone, and a list of texts that is written with the escapes of `json_quoted`, and without white
/// space between the texts, is read as that list.
#[verifier::external_body]
pub(crate) fn parse_json_string_list(s: &str) -> (r: Result<Vec<String>, String>)
    ensures
        match r {
            Ok(v) => json_string_list(s@) == Ok::<Seq<Seq<char>>, Seq<char>>(texts(v@)),
            Err(e) => json_string_list(s@) == Err::<Seq<Seq<char>>, Seq<char>>(e@),
        },
        reads_text_list(s@, r),
{
    serde_json::from_str::<Vec<String>>(s).map_err(|e| e.to_string())
}

// ---------------------------------------------------------------------
// Writing
// ---------------------------------------------------------------------
/// A character inside a JSON string.
pub open spec fn json_escaped_char(c: char) -> Seq<char> {
    if c == '"' {
        seq!['\\', '"']
    } else if c == '\\' {
        seq!['\\', '\\']
    } else if c as int == 8 {
        seq!['\\', 'b']
    } else if c as int == 9 {
        seq!['\\', 't']
    } else if c as int == 10 {
        seq!['\\', 'n']
    } else if c as int == 12 {
        seq!['\\', 'f']
    } else if c as int == 13 {
        seq!['\\', 'r']
    } else if (c as int) < 32 {
        seq!['\\', 'u', '0', '0', hex_digit(c as int / 16), hex_digit(c as int % 16)]
    } else {
        seq![c]
    }
}

/// The characters of a text inside a JSON string.
pub open spec fn json_escaped(s: Seq<char>) -> Seq<char>
    decreases s.len(),
{
    if s.len() == 0 {
        Seq::empty()
    } else {
        json_escaped(s.drop_last()) + json_escaped_char(s.last())
    }
}

/// A text as a JSON string.
pub open spec fn json_quoted(s: Seq<char>) -> Seq<char> {
    seq!['"'] + json_escaped(s) + seq!['"']
}

/// `serde_json::to_string` on a text: the text in double quotes, with double quotes, backslashes
/// and the control characters below the space escaped. It never fails on a text.
#[verifier::external_body]
pub(crate) fn quote_json(s: &str) -> (r: String)
    ensures
        r@ == json_quoted(s@),
{
    serde_json::to_string(s).expect("a text serializes")
}

} // verus!
