//! Loading functions: native ones, which wrap a routine of the host, and virtual ones,
//! whose body is decoded from bytes and checked before a function exists.
//!
//! The machine decodes and checks a body; this module decides what is asked of it and
//! what each answer means. A body that fails to decode or to pass the check never
//! becomes a function: every failure ends the load with an error that names its kind.

use crate::fault::Fault;
use crate::foreign::{destructor_due, DestructorCall, ForeignFn};
use crate::ort::value::Value;
use crate::text::{join, str_eq};
use core::str::Utf8Error;
use vstd::prelude::*;
use vstd::string::StringExecFns;
use vstd::string::StringSliceAdditionalSpecFns;
use vstd::utf8::valid_utf8;

verus! {

/// `core::str::Utf8Error`, carried from the UTF-8 check to its description.
#[verifier::external_type_specification]
#[verifier::external_body]
pub struct ExUtf8Error(Utf8Error);

/// `core::str::from_utf8`: the bytes as a string slice where they are valid UTF-8, and
/// an error where they are not.
#[verifier::external_body]
fn utf8_text(bytes: &[u8]) -> (r: Result<&str, Utf8Error>)
    ensures
        r is Ok <==> valid_utf8(bytes@),
        r is Ok ==> r->Ok_0.spec_bytes() == bytes@,
{
    core::str::from_utf8(bytes)
}

/// The encodings in which a function body is accepted.
#[derive(Clone, Copy, Debug, PartialEq, Eq, Structural)]
pub enum Encoding {
    /// The structured-text encoding, tagged `json`.
    Json,
    /// The compact binary encoding, tagged `msgpack` or `messagepack`.
    MessagePack,
}

/// The encoding that a tag selects.
pub open spec fn encoding_of(tag: Seq<char>) -> Option<Encoding> {
    if tag == "json"@ {
        Some(Encoding::Json)
    } else if tag == "msgpack"@ || tag == "messagepack"@ {
        Some(Encoding::MessagePack)
    } else {
        None
    }
}

pub fn parse_encoding(tag: &str) -> (encoding: Option<Encoding>)
    ensures
        encoding == encoding_of(tag@),
{
    if str_eq(tag, "json") {
        Some(Encoding::Json)
    } else if str_eq(tag, "msgpack") || str_eq(tag, "messagepack") {
        Some(Encoding::MessagePack)
    } else {
        None
    }
}

/// Why a load ended without a function. Each variant but the first carries the
/// description that the failing stage gave.
#[derive(Clone, Debug, PartialEq, Eq)]
pub enum LoadError {
    /// The tag names no supported encoding; the tag is kept.
    UnsupportedEncoding(String),
    /// The structured-text encoding was chosen and the bytes are not UTF-8.
    Utf8(String),
    /// The text is no function body in the structured-text encoding.
    Json(String),
    /// The bytes are no function body in the binary encoding.
    MessagePack(String),
    /// The body was decoded and its control-flow graph is not well formed.
    Verification(String),
}

impl LoadError {
    /// The line that the diagnostic channel gets for this error.
    pub open spec fn diagnostic_spec(self) -> Seq<char> {
        match self {
            LoadError::UnsupportedEncoding(tag) => "Unsupported encoding: "@ + tag@,
            LoadError::Utf8(text) => "UTF-8 decoding failed: "@ + text@,
            LoadError::Json(text) => "JSON decoding failed: "@ + text@,
            LoadError::MessagePack(text) => "MessagePack decoding failed: "@ + text@,
            LoadError::Verification(text) => "CFG verification failed: "@ + text@,
        }
    }

    pub fn diagnostic(&self) -> (line: String)
        ensures
            line@ == self.diagnostic_spec(),
    {
        match self {
            LoadError::UnsupportedEncoding(tag) => join("Unsupported encoding: ", tag.as_str()),
            LoadError::Utf8(text) => join("UTF-8 decoding failed: ", text.as_str()),
            LoadError::Json(text) => join("JSON decoding failed: ", text.as_str()),
            LoadError::MessagePack(text) => join(
                "MessagePack decoding failed: ",
                text.as_str(),
            ),
            LoadError::Verification(text) => join("CFG verification failed: ", text.as_str()),
        }
    }
}

/// What the machine is asked to decode.
#[derive(Debug)]
pub enum DecodeRequest<'a> {
    /// Text in the structured-text encoding.
    Json(&'a str),
    /// Bytes in the binary encoding.
    MessagePack(&'a [u8]),
}

/// The first stage of loading a virtual function: choose the decoder by the tag and
/// prepare its input.
///
/// An unknown tag fails with the tag. The binary encoding takes the bytes as they are.
/// The structured-text encoding takes them as text, and fails where they are not UTF-8.
pub fn hexagon_ort_function_load_virtual<'a>(encoding: &str, code: &'a [u8]) -> (r: Result<
    DecodeRequest<'a>,
    LoadError,
>)
    ensures
        match encoding_of(encoding@) {
            None => r matches Err(LoadError::UnsupportedEncoding(tag)) && tag@ == encoding@,
            Some(Encoding::MessagePack) => r matches Ok(DecodeRequest::MessagePack(bytes))
                && bytes@ == code@,
            Some(Encoding::Json) => if valid_utf8(code@) {
                r matches Ok(DecodeRequest::Json(text)) && text.spec_bytes() == code@
            } else {
                r matches Err(LoadError::Utf8(_))
            },
        },
{
    match parse_encoding(encoding) {
        None => Err(LoadError::UnsupportedEncoding(String::from_str(encoding))),
        Some(Encoding::MessagePack) => Ok(DecodeRequest::MessagePack(code)),
        Some(Encoding::Json) => match utf8_text(code) {
            Ok(text) => Ok(DecodeRequest::Json(text)),
            Err(e) => Err(LoadError::Utf8(e.to_string())),
        },
    }
}

/// The error for a body that the decoder of `encoding` refused with `description`.
pub open spec fn decode_error_is(encoding: Encoding, description: Seq<char>, e: LoadError) -> bool {
    match encoding {
        Encoding::Json => e matches LoadError::Json(text) && text@ == description,
        Encoding::MessagePack => e matches LoadError::MessagePack(text) && text@ == description,
    }
}

/// The second stage: what the decoder's answer means. A decoded body goes on unchanged;
/// a refusal ends the load with the decoder's description, under the encoding's kind.
pub fn decode_result<T>(encoding: Encoding, decoded: Result<T, String>) -> (r: Result<
    T,
    LoadError,
>)
    ensures
        match decoded {
            Ok(body) => r == Ok::<T, LoadError>(body),
            Err(description) => r matches Err(e) && decode_error_is(encoding, description@, e),
        },
{
    match decoded {
        Ok(body) => Ok(body),
        Err(description) => match encoding {
            Encoding::Json => Err(LoadError::Json(description)),
            Encoding::MessagePack => Err(LoadError::MessagePack(description)),
        },
    }
}

/// The last stage: what the check of the control-flow graph means. A function that
/// passed goes out unchanged; a failed check ends the load with the fault's description.
pub fn verification_result<T>(checked: Result<T, Fault>) -> (r: Result<T, LoadError>)
    ensures
        match checked {
            Ok(function) => r == Ok::<T, LoadError>(function),
            Err(fault) => r matches Err(LoadError::Verification(text)) && text@
                == fault.description_spec(),
        },
{
    match checked {
        Ok(function) => Ok(function),
        Err(fault) => Err(LoadError::Verification(fault.description())),
    }
}

/// A function whose body is a routine of the host.
///
/// The routine is called with an output slot, the executor and `user_data`, and answers
/// with a status. The destructor, where there is one, is owed one call with `user_data`
/// when the function is released, whether or not the function was ever called.
#[derive(Debug)]
pub struct NativeFunction {
    callback: ForeignFn,
    user_data: usize,
    destructor: Option<ForeignFn>,
}

pub ghost struct NativeFunctionView {
    pub callback: ForeignFn,
    pub user_data: usize,
    /// The destructor that is still owed its call.
    pub destructor: Option<ForeignFn>,
}

impl NativeFunctionView {
    /// The destructor call that a release owes.
    pub open spec fn due(self) -> Option<DestructorCall> {
        destructor_due(self.destructor, self.user_data)
    }

    /// The function after a release: nothing is owed any more.
    pub open spec fn released(self) -> NativeFunctionView {
        NativeFunctionView { destructor: None, ..self }
    }
}

impl View for NativeFunction {
    type V = NativeFunctionView;

    closed spec fn view(&self) -> NativeFunctionView {
        NativeFunctionView {
            callback: self.callback,
            user_data: self.user_data,
            destructor: self.destructor,
        }
    }
}

pub open spec fn native_error_text() -> Seq<char> {
    "Native function returns error"@
}

/// What a call of a native function yields, given the routine's status and the value it
/// left in the slot.
pub open spec fn native_result_is(status: i32, ret: Value, r: Result<Value, Fault>) -> bool {
    if status == 0 {
        r == Ok::<Value, Fault>(ret)
    } else {
        r matches Err(Fault::Vm(text)) && text@ == native_error_text()
    }
}

/// Wraps a routine of the host as a function of the machine.
pub fn hexagon_ort_function_load_native(
    cb: ForeignFn,
    destructor: Option<ForeignFn>,
    user_data: usize,
) -> (f: NativeFunction)
    ensures
        f@ == (NativeFunctionView { callback: cb, user_data, destructor }),
{
    NativeFunction { callback: cb, user_data, destructor }
}

impl NativeFunction {
    pub fn callback(&self) -> (cb: ForeignFn)
        ensures
            cb == self@.callback,
    {
        self.callback
    }

    pub fn user_data(&self) -> (data: usize)
        ensures
            data == self@.user_data,
    {
        self.user_data
    }

    /// The end of a call: status 0 yields the value that the routine left in the slot;
    /// any other status becomes an error of the machine, which then travels as the
    /// machine's own errors do.
    pub fn call_result(status: i32, ret: Value) -> (r: Result<Value, Fault>)
        ensures
            native_result_is(status, ret, r),
    {
        if status != 0 {
            Err(Fault::Vm(String::from_str("Native function returns error")))
        } else {
            Ok(ret)
        }
    }

    /// Releases the function: hands out the destructor call that is owed, and owes none
    /// afterwards.
    pub fn release(&mut self) -> (due: Option<DestructorCall>)
        ensures
            due == old(self)@.due(),
            final(self)@ == old(self)@.released(),
    {
        let due = match self.destructor {
            Some(routine) => Some(DestructorCall { routine, data: self.user_data }),
            None => None,
        };
        self.destructor = None;
        due
    }
}

/// The destructor of a native function runs exactly once: the release of a function
/// that holds one owes its call, with the function's datum, whether or not the function
/// was ever called, and a release after that owes nothing.
pub proof fn lemma_destructor_runs_once(f: NativeFunctionView)
    ensures
        f.destructor matches Some(routine) ==> f.due() == Some(
            DestructorCall { routine, data: f.user_data },
        ),
        f.destructor is None ==> f.due() is None,
        f.released().due() is None,
        f.released().released() == f.released(),
{
}

/// The text of a function for the host: the structured-text encoding of its body, or
/// nothing where the function has no body to show (a native one) or the body could not
/// be encoded.
pub fn hexagon_ort_function_dump_json<E>(encoded: Option<Result<String, E>>) -> (text: Option<
    String,
>)
    ensures
        match encoded {
            Some(Ok(body)) => text == Some(body),
            _ => text is None,
        },
{
    match encoded {
        Some(Ok(body)) => Some(body),
        _ => None,
    }
}

pub open spec fn not_printable_text() -> Seq<char> {
    "(not printable)"@
}

/// The line that shows a function on the diagnostic channel: its body as rendered, or
/// `(not printable)` where it has none.
pub fn hexagon_ort_function_debug_print(rendered: Option<String>) -> (line: String)
    ensures
        line@ == (match rendered {
            Some(body) => body@,
            None => not_printable_text(),
        }),
{
    match rendered {
        Some(body) => body,
        None => String::from_str("(not printable)"),
    }
}

} // verus!
