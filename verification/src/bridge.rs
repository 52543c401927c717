//! The bridge call handler.
//!
//! Each invocation from the host is a self-contained run: decode the input
//! bytes, build the greeting, and — when the VM locator reached the running
//! host VM — hand back the one diagnostic line to emit through it.  Every
//! expected failure is absorbed into a substitute text: input that is not
//! valid UTF-8 degrades to a fixed fallback recipient, and a locator failure
//! is answered with a fixed placeholder reply, so the host always receives a
//! well-formed string.

use vstd::prelude::*;
use vstd::string::StringExecFns;
use vstd::utf8::decode_utf8;
use vstd::utf8::valid_utf8;

use crate::locator::LocateError;

verus! {

/// The text a greeting starts with.
pub open spec fn prefix_seq() -> Seq<char> {
    "Hello "@
}

/// The recipient substituted when the input bytes do not decode.
pub open spec fn fallback_recipient_seq() -> Seq<char> {
    "there"@
}

/// The reply substituted when the VM locator failed.
pub open spec fn placeholder_seq() -> Seq<char> {
    "Error in rust_greeting"@
}

/// The recipient named by the input bytes: their decoding when they are
/// valid UTF-8, the fixed fallback otherwise.
pub open spec fn recipient_seq(input: Seq<u8>) -> Seq<char> {
    if valid_utf8(input) {
        decode_utf8(input)
    } else {
        fallback_recipient_seq()
    }
}

/// The greeting for a recipient: the fixed prefix followed by the
/// recipient's text.
pub open spec fn greeting_seq(recipient: Seq<char>) -> Seq<char> {
    prefix_seq() + recipient
}

/// The one diagnostic line of an invocation that reached the VM: the
/// greeting built for the input.
pub open spec fn log_line_seq(input: Seq<u8>) -> Seq<char> {
    greeting_seq(recipient_seq(input))
}

/// The text answered to the host: the greeting when the locator reached the
/// VM, the fixed placeholder when it failed.
pub open spec fn response_seq(input: Seq<u8>, located: bool) -> Seq<char> {
    if located {
        greeting_seq(recipient_seq(input))
    } else {
        placeholder_seq()
    }
}

/// What one invocation hands back to the unverified shell: the text to
/// return to the host, and the diagnostic line to emit — present exactly
/// when the locator reached the VM.
pub struct Response {
    /// The text to answer the host with.
    pub output: String,
    /// The one diagnostic line to emit through the host's logging facility,
    /// when there is a VM to emit it through.
    pub log: Option<String>,
}

/// Relies on `String::from_utf8` of std: it returns `Ok` exactly when the
/// bytes are valid UTF-8, and then holds those bytes decoded.
#[verifier::external_body]
fn decode_native_text(input: &Vec<u8>) -> (r: Option<String>)
    ensures
        r is Some <==> valid_utf8(input@),
        r matches Some(s) ==> s@ == decode_utf8(input@),
{
    String::from_utf8(input.clone()).ok()
}

/// The recipient to greet: the input bytes decoded, or the fixed fallback
/// when they are not valid native text.
pub fn recipient_of(input: &Vec<u8>) -> (r: String)
    ensures
        r@ == recipient_seq(input@),
{
    match decode_native_text(input) {
        Some(s) => s,
        None => "there".to_owned(),
    }
}

/// The greeting for a recipient: the fixed prefix followed by the
/// recipient's text.
pub fn greeting_for(recipient: &str) -> (r: String)
    ensures
        r@ == greeting_seq(recipient@),
{
    let mut s = "Hello ".to_owned();
    s.append(recipient);
    s
}

/// The greeting computation: decodes the input, and when the locator
/// reached the VM, builds the one text that is both logged and answered.
/// A locator failure is passed through unchanged for the caller to absorb.
pub fn rust_greeting(input: &Vec<u8>, located: Result<(), LocateError>) -> (r: Result<
    String,
    LocateError,
>)
    ensures
        located is Ok ==> (r matches Ok(m) && m@ == log_line_seq(input@)),
        located matches Err(e) ==> r == Err::<String, LocateError>(e),
{
    let recipient = recipient_of(input);
    match located {
        Ok(()) => Ok(greeting_for(recipient.as_str())),
        Err(e) => Err(e),
    }
}

/// One full invocation of the bridge: the host's input bytes and the
/// locator's outcome in, the reply and the diagnostic line out.  A locator
/// failure is absorbed into the fixed placeholder reply and emits no
/// diagnostic; the host always receives a well-formed string.
pub fn handle_call(input: &Vec<u8>, located: Result<(), LocateError>) -> (r: Response)
    ensures
        r.output@ == response_seq(input@, located is Ok),
        located is Ok <==> r.log is Some,
        r.log matches Some(l) ==> l@ == log_line_seq(input@),
{
    match rust_greeting(input, located) {
        Ok(message) => {
            let output = message.clone();
            Response { output, log: Some(message) }
        },
        Err(_) => Response { output: "Error in rust_greeting".to_owned(), log: None },
    }
}

/// Law: for every input that decodes as valid native text, the reply of an
/// invocation that reached the VM is the fixed prefix followed by exactly
/// that text.
pub proof fn lemma_reply_for_valid_input(input: Seq<u8>)
    requires
        valid_utf8(input),
    ensures
        response_seq(input, true) == prefix_seq() + decode_utf8(input),
{
}

/// Law: every input that does not decode as valid native text gets the one
/// fixed reply, the prefix followed by the fallback recipient.
pub proof fn lemma_reply_for_invalid_input(input: Seq<u8>)
    requires
        !valid_utf8(input),
    ensures
        response_seq(input, true) == prefix_seq() + fallback_recipient_seq(),
{
}

/// Law: the diagnostic line of an invocation that reached the VM is a
/// function of the input bytes alone — two invocations on the same input
/// emit the same one line.
pub proof fn lemma_log_line_deterministic(a: Seq<u8>, b: Seq<u8>)
    requires
        a == b,
    ensures
        log_line_seq(a) == log_line_seq(b),
{
}

/// Law: whichever of its ways the locator failed, and whatever the input
/// was, the reply is the same fixed placeholder, and it is not empty.
pub proof fn lemma_reply_when_locator_fails(input: Seq<u8>, e: LocateError)
    ensures
        response_seq(input, false) == placeholder_seq(),
        response_seq(input, false).len() > 0,
{
    reveal_strlit("Error in rust_greeting");
}

/// Law: invocations are independent — the reply depends on nothing but the
/// input bytes and the locator's outcome, so two invocations that agree on
/// those agree on the reply, in whatever order they run.
pub proof fn lemma_reply_deterministic(a: Seq<u8>, b: Seq<u8>, located_a: bool, located_b: bool)
    requires
        a == b,
        located_a == located_b,
    ensures
        response_seq(a, located_a) == response_seq(b, located_b),
{
}

} // verus!
