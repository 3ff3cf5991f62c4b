use vstd::prelude::*;

verus! {

/// The decimal digit character for `d`, which must be below ten.
pub open spec fn digit_char(d: nat) -> char {
    if d == 0 { '0' }
    else if d == 1 { '1' }
    else if d == 2 { '2' }
    else if d == 3 { '3' }
    else if d == 4 { '4' }
    else if d == 5 { '5' }
    else if d == 6 { '6' }
    else if d == 7 { '7' }
    else if d == 8 { '8' }
    else { '9' }
}

/// The decimal rendering of `n`, most significant digit first, no sign,
/// no leading zeroes (a single `'0'` for zero).
pub open spec fn decimal_chars(n: nat) -> Seq<char>
    decreases n,
{
    if n < 10 {
        seq![digit_char(n)]
    } else {
        decimal_chars(n / 10).push(digit_char(n % 10))
    }
}

/// The comma-separated decimal items of a byte list, without the brackets.
pub open spec fn byte_list_items(b: Seq<u8>) -> Seq<char>
    decreases b.len(),
{
    if b.len() == 0 {
        Seq::empty()
    } else if b.len() == 1 {
        decimal_chars(b[0] as nat)
    } else {
        decimal_chars(b[0] as nat) + seq![','] + byte_list_items(b.drop_first())
    }
}

/// The compact JSON rendering of a byte list: the conventional local-wallet
/// file format, a flat array of integers 0..=255.
pub open spec fn byte_list_json(b: Seq<u8>) -> Seq<char> {
    seq!['['] + byte_list_items(b) + seq![']']
}

/// What serde_json's parser yields for `s` when a list of bytes is asked for:
/// `Some(bytes)` exactly when `s` is a JSON array of integers that each fit in
/// a byte, `None` on any other text.
pub uninterp spec fn parsed_byte_list(s: Seq<char>) -> Option<Seq<u8>>;

/// Relies on serde_json::to_string: a byte list serializes as a compact JSON
/// array of decimal integers, and serde_json::from_str reads that text back to
/// the same bytes. Serialization of a plain byte list cannot fail.
#[verifier::external_body]
pub(crate) fn encode_byte_list(b: &Vec<u8>) -> (r: String)
    ensures
        r@ == byte_list_json(b@),
        parsed_byte_list(r@) == Some(b@),
{
    serde_json::to_string(b).expect("a byte list always serializes")
}

/// Relies on serde_json::from_str: it accepts exactly the JSON texts denoting
/// an array of integers 0..=255 and yields those bytes.
#[verifier::external_body]
pub(crate) fn parse_byte_list(s: &str) -> (r: Option<Vec<u8>>)
    ensures
        match r {
            Some(v) => parsed_byte_list(s@) == Some(v@),
            None => parsed_byte_list(s@) is None,
        },
{
    serde_json::from_str::<Vec<u8>>(s).ok()
}

} // verus!
