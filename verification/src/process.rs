//! What a child process leaves behind when it is over, and the text in it.

use vstd::prelude::*;
use vstd::string::StringSliceAdditionalSpecFns;
use vstd::utf8::{decode_utf8, encode_utf8, encode_utf8_decode_utf8, valid_utf8};

verus! {

/// The error of `core::str::from_utf8`. Nothing is known of what is inside.
#[verifier::external_type_specification]
#[verifier::external_body]
pub struct ExUtf8Error(core::str::Utf8Error);

/// `core::str::from_utf8` of the standard library: it succeeds on the byte
/// sequences that are valid UTF-8, and on no others, and the string slice that
/// it returns is made of the very bytes that it was given. Trusted, as std
/// documents it.
pub assume_specification[ core::str::from_utf8 ](v: &[u8]) -> (r: Result<
    &str,
    core::str::Utf8Error,
>)
    ensures
        r is Ok <==> valid_utf8(v@),
        r matches Ok(s) ==> s.spec_bytes() == v@,
;

/// How a child process ended.
#[derive(Debug)]
pub enum ProcessOutcome {
    /// It could not be started, or not be waited for.
    LaunchFailed { reason: String },
    /// It ran and exited.
    Exited { success: bool, stdout: Vec<u8>, stderr: Vec<u8> },
}

/// A `ProcessOutcome` as plain values.
pub enum Outcome {
    LaunchFailed { reason: Seq<char> },
    Exited { success: bool, stdout: Seq<u8>, stderr: Seq<u8> },
}

impl View for ProcessOutcome {
    type V = Outcome;

    open spec fn view(&self) -> Outcome {
        match *self {
            ProcessOutcome::LaunchFailed { reason } => Outcome::LaunchFailed { reason: reason@ },
            ProcessOutcome::Exited { success, stdout, stderr } => Outcome::Exited {
                success,
                stdout: stdout@,
                stderr: stderr@,
            },
        }
    }
}

/// The text that `bytes` encode, where they are valid UTF-8.
pub open spec fn text_of(bytes: Seq<u8>) -> Option<Seq<char>> {
    if valid_utf8(bytes) {
        Some(decode_utf8(bytes))
    } else {
        None
    }
}

/// The text that `bytes` encode, or a placeholder where they encode none.
pub open spec fn text_or_placeholder(bytes: Seq<u8>) -> Seq<char> {
    match text_of(bytes) {
        Some(text) => text,
        None => "<invalid utf8>"@,
    }
}

/// Decodes `bytes` as UTF-8. The text that comes out encodes to `bytes` again.
pub fn decode(bytes: &[u8]) -> (r: Option<String>)
    ensures
        r is Some <==> valid_utf8(bytes@),
        r matches Some(s) ==> Some(s@) == text_of(bytes@) && encode_utf8(s@) == bytes@,
{
    match core::str::from_utf8(bytes) {
        Ok(s) => {
            proof {
                encode_utf8_decode_utf8(s@);
            }
            Some(s.to_owned())
        },
        Err(_) => None,
    }
}

/// Decodes `bytes` as UTF-8, and gives `<invalid utf8>` where they are not.
pub fn decode_or_placeholder(bytes: &[u8]) -> (out: String)
    ensures
        out@ == text_or_placeholder(bytes@),
{
    match decode(bytes) {
        Some(s) => s,
        None => "<invalid utf8>".to_owned(),
    }
}

} // verus!
