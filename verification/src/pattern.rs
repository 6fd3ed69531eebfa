//! Regular expressions.
use crate::decimal::all_digits;
use crate::hexadecimal::is_hex_byte;
use vstd::prelude::*;

verus! {

/// How the contract's rejection shows in the output of the CLI: `Error(Contract, #N)`.
pub const CONTRACT_ERROR_PATTERN: &'static str = r"Error\(Contract,\s*#(\d+)\)";

/// Where the output of the CLI names the hash of the transaction that it sent.
pub const TX_HASH_PATTERN: &'static str =
    r"(?:Signing transaction:|explorer/\w+/tx/)\s*([0-9a-fA-F]{64})";

/// Whether `p` stands in `s` from position `i` on.
pub open spec fn occurs_at(s: Seq<char>, i: int, p: Seq<char>) -> bool {
    0 <= i && i + p.len() <= s.len() && s.subrange(i, i + p.len()) == p
}

/// Whether `p` stands in `s` from no position before `n` on.
pub open spec fn absent_before(s: Seq<char>, n: int, p: Seq<char>) -> bool {
    forall|i: int| 0 <= i < n ==> !(#[trigger] occurs_at(s, i, p))
}

/// Whether `h` is 64 hexadecimal digits.
pub open spec fn is_tx_hash(h: Seq<char>) -> bool {
    h.len() == 64 && forall|i: int|
        0 <= i < h.len() ==> (#[trigger] h[i]) as int <= 127 && is_hex_byte(h[i] as u8)
}

/// Whether `r` holds the digits of the first `Error(Contract, #N)` in `s`, where there is one, and
/// nothing where not even `Error(Contract,` stands in `s`.
pub open spec fn captures_error_code(s: Seq<char>, r: Option<Option<String>>) -> bool {
    &&& absent_before(s, s.len() as int, "Error(Contract,"@) ==> r == Some(None::<String>)
    &&& forall|before: Seq<char>, digits: Seq<char>, after: Seq<char>|
        #![trigger before + "Error(Contract, #"@ + digits + ")"@ + after]
        s == before + "Error(Contract, #"@ + digits + ")"@ + after && digits.len() > 0
            && all_digits(digits) && absent_before(s, before.len() as int, "Error(Contract,"@)
            ==> (r matches Some(Some(g)) && g@ == digits)
}

/// Whether `r` holds nothing but a transaction hash, and the hash of the first
/// `Signing transaction: ` in `s`, where there is one and no `explorer/` before it, and nothing
/// where neither stands in `s`.
pub open spec fn captures_tx_hash(s: Seq<char>, r: Option<Option<String>>) -> bool {
    &&& absent_before(s, s.len() as int, "Signing transaction:"@) && absent_before(
        s,
        s.len() as int,
        "explorer/"@,
    ) ==> r == Some(None::<String>)
    &&& r matches Some(Some(g)) ==> is_tx_hash(g@)
    &&& forall|before: Seq<char>, hash: Seq<char>, after: Seq<char>|
        #![trigger before + "Signing transaction: "@ + hash + after]
        s == before + "Signing transaction: "@ + hash + after && is_tx_hash(hash)
            && absent_before(s, before.len() as int, "Signing transaction:"@)
            && absent_before(s, before.len() as int, "explorer/"@)
            ==> (r matches Some(Some(g)) && g@ == hash)
}

/// The first capture group of the leftmost match of a pattern in a text: absent in the outer
/// option where the pattern is no regular expression, in the inner one where nothing matches.
pub uninterp spec fn first_group(pattern: Seq<char>, s: Seq<char>) -> Option<Option<Seq<char>>>;

/// `regex::Regex::new`, `captures` on the text, and the text of group 1 of what was captured. The
/// result depends on the pattern and the text alone. Of the two patterns of this module it is
/// known besides: where `Error(Contract, #` with digits and a closing bracket stands in the text,
/// and `Error(Contract,` nowhere before, the group is the digits; where `Signing transaction: `
/// with 64 hexadecimal digits stands in the text, and neither `Signing transaction:` nor
/// `explorer/` anywhere before, the group is those 64 digits; whatever the pattern of the
/// transaction hash captures is 64 hexadecimal digits; and nothing matches where the texts that
/// every match begins with stand nowhere.
#[verifier::external_body]
pub(crate) fn capture(pattern: &str, s: &str) -> (r: Option<Option<String>>)
    ensures
        match r {
            None => first_group(pattern@, s@) is None,
            Some(None) => first_group(pattern@, s@) == Some(None::<Seq<char>>),
            Some(Some(g)) => first_group(pattern@, s@) == Some(Some(g@)),
        },
        pattern@ == CONTRACT_ERROR_PATTERN@ ==> captures_error_code(s@, r),
        pattern@ == TX_HASH_PATTERN@ ==> captures_tx_hash(s@, r),
{
    let re = regex::Regex::new(pattern).ok()?;
    Some(re.captures(s).and_then(|c| c.get(1).map(|m| m.as_str().to_string())))
}

} // verus!
