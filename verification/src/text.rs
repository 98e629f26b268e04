//! Text fields of native records.
//!
//! The native layer hands out text as the bytes of a C string. A field whose
//! pointer was null is absent; one whose pointer led to a terminator right
//! away is present and empty.

use vstd::prelude::*;
use vstd::utf8::{decode_utf8, valid_utf8};

use crate::error::{UvcError, UvcResult};

verus! {

/// The error of `String::from_utf8`, carried from the call to the match on
/// its result and never looked into.
#[verifier::external_type_specification]
#[verifier::external_body]
pub struct ExFromUtf8Error(std::string::FromUtf8Error);

/// `String::from_utf8` succeeds exactly on vectors that hold well-formed
/// UTF-8, and the string it then returns consists of the characters those
/// bytes encode. Taken from the documentation of the standard library; not
/// proved here.
pub assume_specification[ String::from_utf8 ](vec: Vec<u8>) -> (r: Result<
    String,
    std::string::FromUtf8Error,
>)
    ensures
        r is Ok <==> valid_utf8(vec@),
        r matches Ok(s) ==> s@ == decode_utf8(vec@),
;

/// What a text field decodes to: nothing for an absent field, the characters
/// for a present field of well-formed UTF-8, and a failure for any other
/// present field.
pub open spec fn decoded_text(field: Option<Seq<u8>>) -> UvcResult<Option<Seq<char>>> {
    match field {
        None => Ok(None),
        Some(bytes) => if valid_utf8(bytes) {
            Ok(Some(decode_utf8(bytes)))
        } else {
            Err(UvcError::Other)
        },
    }
}

/// The bytes of a field, where it is present.
pub open spec fn field_bytes(field: Option<Vec<u8>>) -> Option<Seq<u8>> {
    match field {
        None => None,
        Some(bytes) => Some(bytes@),
    }
}

/// The characters of a decoded field, where it is present.
pub open spec fn field_text(text: Option<String>) -> Option<Seq<char>> {
    match text {
        None => None,
        Some(s) => Some(s@),
    }
}

/// Decodes one text field into an owned string.
///
/// An absent field stays absent and a present one stays present, however
/// short it is. Bytes that are not UTF-8 give `Other`.
pub fn decode_text(field: Option<Vec<u8>>) -> (r: UvcResult<Option<String>>)
    ensures
        match r {
            Ok(text) => decoded_text(field_bytes(field)) == Ok::<_, UvcError>(field_text(text)),
            Err(e) => decoded_text(field_bytes(field)) == Err::<Option<Seq<char>>, _>(e),
        },
{
    match field {
        None => Ok(None),
        Some(bytes) => match String::from_utf8(bytes) {
            Ok(s) => Ok(Some(s)),
            Err(_) => Err(UvcError::Other),
        },
    }
}

/// Whether a text field can be decoded: it is absent, or its bytes are
/// well-formed UTF-8.
pub open spec fn decodable(field: Option<Seq<u8>>) -> bool {
    match field {
        None => true,
        Some(bytes) => valid_utf8(bytes),
    }
}

/// A field that is present without any byte has the empty text.
pub open spec fn empty_stays_empty(field: Option<Seq<u8>>, text: Option<Seq<char>>) -> bool {
    field matches Some(bytes) && bytes.len() == 0 ==> text == Some(Seq::<char>::empty())
}

/// An absent field decodes to no text, and nothing else does; a present field
/// without any byte decodes to the empty text, which is not the same. Decoding
/// fails on the fields that cannot be decoded, and on no others.
pub proof fn absent_and_empty_text_differ(field: Option<Seq<u8>>)
    ensures
        decoded_text(field) == Ok::<_, UvcError>(None::<Seq<char>>) <==> field is None,
        decoded_text(field) matches Ok(text) ==> empty_stays_empty(field, text),
        decoded_text(field) is Ok <==> decodable(field),
        decoded_text(field) matches Err(e) ==> e == UvcError::Other,
{
    if let Some(bytes) = field {
        if bytes.len() == 0 {
            assert(valid_utf8(bytes));
            assert(decode_utf8(bytes) =~= Seq::<char>::empty());
        }
    }
}

} // verus!
