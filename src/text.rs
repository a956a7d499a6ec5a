use vstd::prelude::*;
use vstd::utf8::*;

verus! {

/// The text that the bytes of a native string stand for: nothing where the
/// native layer gave no string, else the characters the bytes encode in UTF-8.
pub open spec fn native_text(bytes: Option<Seq<u8>>) -> Seq<char> {
    match bytes {
        None => Seq::empty(),
        Some(b) => decode_utf8(b),
    }
}

/// Whether the bytes of a native string, where there is one, are UTF-8.
pub open spec fn native_text_valid(bytes: Option<Seq<u8>>) -> bool {
    match bytes {
        None => true,
        Some(b) => valid_utf8(b),
    }
}

/// The bytes a native string holds, as a sequence.
pub open spec fn bytes_view(bytes: &Option<Vec<u8>>) -> Option<Seq<u8>> {
    match bytes {
        None => None,
        Some(v) => Some(v@),
    }
}

/// Relies on std's `String::from_utf8`: it succeeds exactly on valid UTF-8,
/// with the text the bytes encode.
#[verifier::external_body]
fn string_from_utf8(bytes: Vec<u8>) -> (r: Option<String>)
    ensures
        r is Some <==> valid_utf8(bytes@),
        r matches Some(s) ==> s@ == decode_utf8(bytes@),
{
    String::from_utf8(bytes).ok()
}

/// Decodes a native string into text; a missing string reads as empty text.
pub fn decode_native_text(bytes: Option<Vec<u8>>) -> (r: String)
    requires
        native_text_valid(bytes_view(&bytes)),
    ensures
        r@ == native_text(bytes_view(&bytes)),
{
    match bytes {
        None => String::new(),
        Some(b) => {
            match string_from_utf8(b) {
                Some(s) => s,
                None => String::new(),
            }
        },
    }
}

/// Encoding text in UTF-8 and decoding it again gives back the text.
pub proof fn native_text_of_encoded(s: Seq<char>)
    ensures
        native_text_valid(Some(encode_utf8(s))),
        native_text(Some(encode_utf8(s))) == s,
{
    encode_utf8_valid_utf8(s);
    encode_utf8_decode_utf8(s);
}

} // verus!
