//! Image URIs: percent-decoding them and decoding base64 `data:` URIs.

use vstd::prelude::*;
use vstd::string::StringSliceAdditionalSpecFns;
use vstd::utf8::{decode_utf8, valid_utf8};

verus! {

/// The byte `%`.
pub const PERCENT: u8 = 0x25;

/// The byte `,`.
pub const COMMA: u8 = 0x2C;

/// The value of an ASCII hexadecimal digit, either case.
pub open spec fn hex_value(b: u8) -> Option<u8> {
    if 0x30 <= b <= 0x39 {
        Some((b - 0x30) as u8)
    } else if 0x41 <= b <= 0x46 {
        Some((b - 0x41 + 10) as u8)
    } else if 0x61 <= b <= 0x66 {
        Some((b - 0x61 + 10) as u8)
    } else {
        None
    }
}

/// Percent-decoding: every `%` followed by two hexadecimal digits becomes
/// the byte they spell; every other byte is kept.
pub open spec fn percent_decoded(s: Seq<u8>) -> Seq<u8>
    decreases s.len(),
{
    if s.len() == 0 {
        Seq::empty()
    } else if s[0] == PERCENT && s.len() >= 3 && hex_value(s[1]) is Some && hex_value(s[2]) is Some {
        seq![(hex_value(s[1]).unwrap() * 16 + hex_value(s[2]).unwrap()) as u8] + percent_decoded(s.skip(3))
    } else {
        seq![s[0]] + percent_decoded(s.skip(1))
    }
}

/// std's `Utf8Error`, carried through opaquely.
#[verifier::external_type_specification]
#[verifier::external_body]
pub struct ExUtf8Error(core::str::Utf8Error);

/// `percent_encoding::percent_decode_str` followed by `decode_utf8`:
/// percent-decodes the bytes of `input` and reads the result as UTF-8.
/// Trusted: the decoding is `percent_decoded` (as the crate documents it:
/// any `%` followed by two hexadecimal digits is decoded), and the result is
/// `Ok` exactly when the decoded bytes are valid UTF-8, holding their
/// characters.
#[verifier::external_body]
fn percent_decode_utf8(input: &str) -> (r: Result<String, core::str::Utf8Error>)
    ensures
        r is Ok <==> valid_utf8(percent_decoded(input.spec_bytes())),
        r matches Ok(s) ==> s@ == decode_utf8(percent_decoded(input.spec_bytes())),
{
    percent_encoding::percent_decode_str(input).decode_utf8().map(|s| s.into_owned())
}

/// What the standard base64 engine (standard alphabet, canonical padding)
/// decodes `input` to; `None` when it rejects it.
pub uninterp spec fn base64_standard_decoded(input: Seq<u8>) -> Option<Seq<u8>>;

/// base64's `DecodeError`, carried through opaquely.
#[verifier::external_type_specification]
#[verifier::external_body]
pub struct ExDecodeError(base64::DecodeError);

/// `base64::engine::general_purpose::STANDARD.decode`.
/// Trusted: the result is the one named by `base64_standard_decoded`; which
/// inputs are accepted, and what they decode to, is left unsaid.
#[verifier::external_body]
fn base64_standard_decode(input: &[u8]) -> (r: Result<Vec<u8>, base64::DecodeError>)
    ensures
        match r {
            Ok(v) => base64_standard_decoded(input@) == Some(v@),
            Err(_) => base64_standard_decoded(input@) is None,
        },
{
    base64::Engine::decode(&base64::engine::general_purpose::STANDARD, input)
}

/// Percent-decodes `uri` and reads it as UTF-8; `None` when the decoded
/// bytes are not UTF-8.
pub fn percent_decode_uri(uri: &str) -> (r: Option<String>)
    ensures
        r is Some <==> valid_utf8(percent_decoded(uri.spec_bytes())),
        r matches Some(s) ==> s@ == decode_utf8(percent_decoded(uri.spec_bytes())),
{
    match percent_decode_utf8(uri) {
        Ok(s) => Some(s),
        Err(_) => None,
    }
}

/// The position of the first `b` in `bytes`.
pub fn find_byte(bytes: &[u8], b: u8) -> (r: Option<usize>)
    ensures
        match r {
            Some(i) => bytes@.index_of_first(b) == Some(i as int),
            None => bytes@.index_of_first(b) is None,
        },
{
    proof {
        bytes@.index_of_first_ensures(b);
    }
    let mut i: usize = 0;
    while i < bytes.len()
        invariant
            i <= bytes@.len(),
            forall|j: int| 0 <= j < i ==> bytes@[j] != b,
            match bytes@.index_of_first(b) {
                Some(index) => {
                    &&& bytes@.contains(b)
                    &&& 0 <= index < bytes@.len()
                    &&& bytes@[index] == b
                    &&& forall|j: int| 0 <= j < index < bytes@.len() ==> bytes@[j] != b
                },
                None => !bytes@.contains(b),
            },
        decreases bytes@.len() - i,
    {
        if bytes[i] == b {
            proof {
                assert(bytes@.contains(b));
                let k = bytes@.index_of_first(b).unwrap();
                if k < i {
                    assert(bytes@[k] != b);
                } else if k > i {
                    assert(bytes@[i as int] != b);
                }
            }
            return Some(i);
        }
        i = i + 1;
    }
    proof {
        if bytes@.contains(b) {
            let k = bytes@.index_of_first(b).unwrap();
            assert(bytes@[k] != b);
        }
    }
    None
}

/// The payload of a `data:` URI: what follows its first comma.
pub open spec fn data_uri_payload(uri: Seq<u8>) -> Option<Seq<u8>> {
    match uri.index_of_first(COMMA) {
        Some(i) => Some(uri.skip(i + 1)),
        None => None,
    }
}

/// The bytes a base64 `data:` URI holds.
pub open spec fn data_uri_decoded(uri: Seq<u8>) -> Option<Seq<u8>> {
    match data_uri_payload(uri) {
        Some(payload) => base64_standard_decoded(payload),
        None => None,
    }
}

/// Decodes a `data:` URI into its bytes: the base64 text after the first
/// comma.
pub fn decode_data_uri(uri: &str) -> (r: Option<Vec<u8>>)
    ensures
        match r {
            Some(v) => data_uri_decoded(uri.spec_bytes()) == Some(v@),
            None => data_uri_decoded(uri.spec_bytes()) is None,
        },
{
    let bytes = uri.as_bytes();
    let comma: usize = match find_byte(bytes, COMMA) {
        Some(i) => i,
        None => {
            return None;
        },
    };
    proof {
        bytes@.index_of_first_ensures(COMMA);
        assert(bytes@.index_of_first(COMMA) == Some(comma as int));
        assert(comma < bytes@.len());
        assert(bytes@.len() == bytes.len());
    }
    let data = vstd::slice::slice_subrange(bytes, comma + 1, bytes.len());
    assert(data@ =~= bytes@.skip(comma + 1));
    match base64_standard_decode(data) {
        Ok(v) => Some(v),
        Err(_) => None,
    }
}

/// A `data:` URI's payload is everything after its first comma, however
/// long: for a header without commas, a comma, and any payload, the URI
/// decodes to the base64 decoding of the whole payload; a URI without a
/// comma decodes to nothing.
pub proof fn lemma_data_uri_decodes_all_after_first_comma(head: Seq<u8>, payload: Seq<u8>, uri: Seq<u8>)
    requires
        forall|i: int| 0 <= i < head.len() ==> head[i] != 0x2Cu8,
    ensures
        data_uri_decoded(head + seq![0x2Cu8] + payload) == base64_standard_decoded(payload),
        (forall|i: int| 0 <= i < uri.len() ==> uri[i] != 0x2Cu8) ==> data_uri_decoded(uri) is None,
{
    let whole = head + seq![0x2Cu8] + payload;
    whole.index_of_first_ensures(COMMA);
    assert(whole[head.len() as int] == COMMA);
    assert(whole.contains(COMMA));
    let k = whole.index_of_first(COMMA).unwrap();
    if k < head.len() {
        assert(whole[k] == head[k]);
    } else if k > head.len() {
        assert(whole[head.len() as int] == COMMA);
    }
    assert(whole.skip(head.len() as int + 1) =~= payload);
    uri.index_of_first_ensures(COMMA);
    if uri.index_of_first(COMMA) is Some {
        let j = uri.index_of_first(COMMA).unwrap();
        assert(uri[j] == COMMA);
    }
}

} // verus!
