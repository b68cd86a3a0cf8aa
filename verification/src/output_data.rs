//! Shell output travels to the UI inside JSON events, so its raw bytes are
//! carried as standard base64 text (RFC 4648 alphabet, with padding).

use base64::engine::general_purpose::STANDARD;
use base64::Engine as _;
use vstd::prelude::*;

verus! {

/// `base64::DecodeError`: why a text is not valid base64.
#[verifier::external_type_specification]
#[verifier::external_body]
pub struct ExDecodeError(base64::DecodeError);

/// The standard padded base64 encoding of `bytes`, as computed by the
/// `base64` crate's `STANDARD` engine.
pub uninterp spec fn standard_base64(bytes: Seq<u8>) -> Seq<char>;

/// The bytes that the `base64` crate's `STANDARD` engine decodes from
/// `text`, or `None` when it rejects the text.
pub uninterp spec fn standard_base64_decoded(text: Seq<char>) -> Option<Seq<u8>>;

/// Whether the length of the encoding of `len` bytes fits in a `usize`
/// (the engine refuses to encode longer inputs).
pub open spec fn encoded_len_fits(len: nat) -> bool {
    if len % 3 == 0 {
        (len / 3) * 4 <= usize::MAX
    } else {
        (len / 3) * 4 + 4 <= usize::MAX
    }
}

/// Calls `base64::Engine::encode` on the `STANDARD` engine. Claimed: the
/// result is `standard_base64` of the input bytes; the input length is
/// bounded because the engine panics when the output length overflows.
#[verifier::external_body]
fn base64_encode(bytes: &[u8]) -> (text: String)
    requires
        encoded_len_fits(bytes@.len()),
    ensures
        text@ == standard_base64(bytes@),
{
    STANDARD.encode(bytes)
}

/// Calls `base64::Engine::decode` on the `STANDARD` engine with the bytes of
/// `text`. Claimed: it succeeds exactly when `standard_base64_decoded`
/// gives bytes, and then gives those bytes; a text that is the standard
/// encoding of some bytes is accepted (the engine rejects nothing that it
/// produces); and the bytes it accepts a text for are the only bytes whose
/// standard encoding is that text (with canonical padding required, decoding
/// inverts encoding).
#[verifier::external_body]
fn base64_decode(text: &str) -> (decoded: Result<Vec<u8>, base64::DecodeError>)
    ensures
        decoded is Ok <==> standard_base64_decoded(text@) is Some,
        decoded matches Ok(bytes) ==> Some(bytes@) == standard_base64_decoded(text@),
        decoded matches Ok(bytes) ==> forall|plain: Seq<u8>|
            #[trigger] standard_base64(plain) == text@ ==> plain == bytes@,
        (exists|plain: Seq<u8>| standard_base64(plain) == text@) ==> decoded is Ok,
{
    STANDARD.decode(text)
}

/// The text that carries the bytes of an output event.
pub fn encode_output_data(data: &[u8]) -> (text: String)
    requires
        encoded_len_fits(data@.len()),
    ensures
        text@ == standard_base64(data@),
{
    base64_encode(data)
}

/// The bytes carried by the text of an output event, or the decoder's
/// reason for rejecting the text. Text produced by [`encode_output_data`]
/// always decodes to the bytes it was made from.
pub fn decode_output_data(text: &str) -> (result: Result<Vec<u8>, String>)
    ensures
        result is Ok <==> standard_base64_decoded(text@) is Some,
        result matches Ok(bytes) ==> Some(bytes@) == standard_base64_decoded(text@),
        forall|plain: Seq<u8>|
            #[trigger] standard_base64(plain) == text@ ==> (result matches Ok(bytes) && bytes@
                == plain),
{
    match base64_decode(text) {
        Ok(bytes) => Ok(bytes),
        Err(err) => Err(err.to_string()),
    }
}

} // verus!
