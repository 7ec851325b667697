//! Cleaning of client-provided text: HTML is stripped by ammonia and the
//! result is cut to a byte budget.

use vstd::prelude::*;
use vstd::string::*;
use vstd::utf8::*;

verus! {

/// Byte budget of a sanitized free-text field.
pub const MAX_TEXT_BYTES: usize = 1024;

/// Byte budget of a sanitized short field (user name, device name, key).
pub const MAX_SHORT_TEXT_BYTES: usize = 256;

/// What `ammonia::clean` returns for a given input text.
pub uninterp spec fn html_clean(input: Seq<char>) -> Seq<char>;

/// Strips all HTML that is not on ammonia's default allow-list, through
/// `ammonia::clean`.
///
/// Trusted: the output depends on the input text alone (ammonia's default
/// builder is a fixed configuration); which text comes back is named, not
/// stated.
#[verifier::external_body]
fn clean_html(input: &str) -> (r: String)
    ensures
        r@ == html_clean(input@),
{
    ammonia::clean(input)
}

/// Whether cutting `chars` to `max` bytes of UTF-8 falls on a character
/// boundary (or needs no cut at all); where it does not, slicing a `str`
/// there panics.
pub open spec fn cut_allowed(chars: Seq<char>, max: nat) -> bool {
    encode_utf8(chars).len() <= max || is_char_boundary(encode_utf8(chars), max as int)
}

/// `chars` cut to its first `max` bytes of UTF-8 when it is longer.
pub open spec fn cut_to_bytes(chars: Seq<char>, max: nat) -> Seq<char> {
    if encode_utf8(chars).len() > max {
        decode_utf8(encode_utf8(chars).subrange(0, max as int))
    } else {
        chars
    }
}

/// Whether the cleaned form of `input` can be cut to `max` bytes.
pub open spec fn sanitizable(input: Seq<char>, max: nat) -> bool {
    cut_allowed(html_clean(input), max)
}

/// The cleaned form of `input`, cut to `max` bytes.
pub open spec fn sanitized(input: Seq<char>, max: nat) -> Seq<char> {
    cut_to_bytes(html_clean(input), max)
}

pub(crate) proof fn lemma_cut_fits(chars: Seq<char>, max: nat)
    requires
        cut_allowed(chars, max),
    ensures
        encode_utf8(cut_to_bytes(chars, max)).len() <= max,
        cut_to_bytes(chars, max).len() <= chars.len(),
{
    broadcast use encode_utf8_valid_utf8, encode_utf8_decode_utf8, decode_utf8_encode_utf8;

    let bytes = encode_utf8(chars);
    if bytes.len() > max {
        valid_utf8_split(bytes, max as int);
        decode_utf8_split(bytes, max as int);
        let head = bytes.subrange(0, max as int);
        assert(encode_utf8(decode_utf8(head)) == head);
        assert(chars == decode_utf8(bytes));
    }
}

/// Cleans `input` and cuts it to `max_len` bytes; `None` exactly where the
/// cut would fall inside a character (where a byte-range slice panics).
pub fn sanitize_within(input: &str, max_len: usize) -> (r: Option<String>)
    ensures
        r is Some <==> sanitizable(input@, max_len as nat),
        r matches Some(s) ==> s@ == sanitized(input@, max_len as nat),
{
    broadcast use encode_utf8_valid_utf8, encode_utf8_decode_utf8;

    let cleaned = clean_html(input);
    let text = cleaned.as_str();
    let byte_len = text.as_bytes().len();
    if byte_len > max_len {
        if text.is_char_boundary(max_len) {
            let (head, _tail) = text.split_at(max_len);
            let out = head.to_owned();
            proof {
                let bytes = encode_utf8(text@);
                assert(head.spec_bytes() =~= bytes.subrange(0, max_len as int));
                assert(decode_utf8(encode_utf8(head@)) == head@);
            }
            Some(out)
        } else {
            None
        }
    } else {
        Some(cleaned)
    }
}

/// Sanitizes a free-text field: HTML stripped, at most 1024 bytes.
pub fn sanitize_string(input: &str) -> (r: String)
    requires
        sanitizable(input@, MAX_TEXT_BYTES as nat),
    ensures
        r@ == sanitized(input@, MAX_TEXT_BYTES as nat),
        encode_utf8(r@).len() <= MAX_TEXT_BYTES,
{
    proof { lemma_cut_fits(html_clean(input@), MAX_TEXT_BYTES as nat); }
    match sanitize_within(input, MAX_TEXT_BYTES) {
        Some(s) => s,
        None => String::new(),
    }
}

/// Sanitizes a short field (user name, device name, JSON key): HTML
/// stripped, at most 256 bytes.
pub fn sanitize_short_string(input: &str) -> (r: String)
    requires
        sanitizable(input@, MAX_SHORT_TEXT_BYTES as nat),
    ensures
        r@ == sanitized(input@, MAX_SHORT_TEXT_BYTES as nat),
        encode_utf8(r@).len() <= MAX_SHORT_TEXT_BYTES,
{
    proof { lemma_cut_fits(html_clean(input@), MAX_SHORT_TEXT_BYTES as nat); }
    match sanitize_within(input, MAX_SHORT_TEXT_BYTES) {
        Some(s) => s,
        None => String::new(),
    }
}

/// `sanitize_string` where the input allows it; `None` where the cut
/// would fall inside a character.
pub fn try_sanitize_string(input: &str) -> (r: Option<String>)
    ensures
        r is Some <==> sanitizable(input@, MAX_TEXT_BYTES as nat),
        r matches Some(s) ==> s@ == sanitized(input@, MAX_TEXT_BYTES as nat),
{
    if sanitize_within(input, MAX_TEXT_BYTES).is_some() {
        Some(sanitize_string(input))
    } else {
        None
    }
}

/// `sanitize_short_string` where the input allows it; `None` where the
/// cut would fall inside a character.
pub fn try_sanitize_short_string(input: &str) -> (r: Option<String>)
    ensures
        r is Some <==> sanitizable(input@, MAX_SHORT_TEXT_BYTES as nat),
        r matches Some(s) ==> s@ == sanitized(input@, MAX_SHORT_TEXT_BYTES as nat),
{
    if sanitize_within(input, MAX_SHORT_TEXT_BYTES).is_some() {
        Some(sanitize_short_string(input))
    } else {
        None
    }
}

} // verus!
