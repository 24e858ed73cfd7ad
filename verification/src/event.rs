//! Raw events: what the native facility hands over, and what is left of it
//! once the path is known to be text.

use vstd::prelude::*;
use vstd::utf8::{decode_utf8, encode_utf8, encode_utf8_decode_utf8, valid_utf8};
use vstd::string::StringSliceAdditionalSpecFns;

verus! {

/// One event as the native facility delivers it: the path is still the bytes
/// of a C string, without the terminating zero.
#[derive(Clone, Debug, PartialEq, Eq)]
pub struct NativeEvent {
    pub id: u64,
    pub flags: u32,
    pub path: Vec<u8>,
}

/// One event with its path as text. It lives for one callback or until a
/// polling consumer has drained it.
#[derive(Clone, Debug, PartialEq, Eq)]
pub struct RawEvent {
    pub id: u64,
    pub flags: u32,
    pub path: String,
}

/// Why a path was refused.
#[derive(Clone, Copy, Debug, PartialEq, Eq, Structural)]
pub enum PathError {
    /// The bytes are not UTF-8. The native facility promises text, so this
    /// is a broken promise and nothing the caller can recover from.
    NotText,
}

/// The path of a native event is text.
pub open spec fn is_text(event: NativeEvent) -> bool {
    valid_utf8(event.path@)
}

/// `raw` is `native` with its path read as text.
pub open spec fn decodes_to(native: NativeEvent, raw: RawEvent) -> bool {
    &&& raw.id == native.id
    &&& raw.flags == native.flags
    &&& raw.path@ == decode_utf8(native.path@)
}

/// `core::str::from_utf8`: the bytes seen as a string slice where they are
/// UTF-8, nothing where they are not. The slice, where there is one, holds
/// the very bytes that were given.
#[verifier::external_body]
fn text_of(bytes: &[u8]) -> (text: Option<&str>)
    ensures
        text is Some <==> valid_utf8(bytes@),
        text matches Some(s) ==> s.spec_bytes() == bytes@,
{
    match core::str::from_utf8(bytes) {
        Ok(text) => Some(text),
        Err(_) => None,
    }
}

/// Reads the bytes of a path as text. Succeeds exactly on UTF-8, and then
/// yields the characters that the bytes encode.
pub fn decode_path(bytes: &[u8]) -> (path: Result<String, PathError>)
    ensures
        path is Ok <==> valid_utf8(bytes@),
        path matches Ok(text) ==> text@ == decode_utf8(bytes@) && encode_utf8(text@) == bytes@,
        path matches Err(error) ==> error == PathError::NotText,
{
    match text_of(bytes) {
        Some(text) => {
            proof {
                encode_utf8_decode_utf8(text@);
            }
            Ok(text.to_owned())
        },
        None => Err(PathError::NotText),
    }
}

/// Reads the path of a native event as text and keeps its id and flags.
pub fn decode_event(native: &NativeEvent) -> (raw: Result<RawEvent, PathError>)
    ensures
        raw is Ok <==> is_text(*native),
        raw matches Ok(event) ==> decodes_to(*native, event),
        raw matches Err(error) ==> error == PathError::NotText,
{
    match decode_path(native.path.as_slice()) {
        Ok(path) => Ok(RawEvent { id: native.id, flags: native.flags, path }),
        Err(error) => Err(error),
    }
}

} // verus!
