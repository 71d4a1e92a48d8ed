//! What a status code means.
//!
//! Every call of the driver returns a signed status: zero for success, a
//! negative number for a failure, a positive one for a warning. The driver
//! describes a failure in its extended error text and a warning in the error
//! string of its code; either is fetched, by a call of its own, into a buffer
//! of `MESSAGE_BUFFER_SIZE` bytes. The functions here say which text a status
//! calls for, and what the status and its text amount to.

use vstd::prelude::*;
use vstd::utf8::{decode_utf8, encode_utf8};
use crate::codes::{ERROR_BUFFER_TOO_SMALL_FOR_STRING, WARNING_STRING_TRUNCATED_TO_FIT_BUFFER};
use crate::strings::{has_nul, nul_position, CName, NulError};
use crate::types::{buffer_to_string, is_text, text_bytes};

verus! {

/// What can go wrong at the driver boundary.
#[derive(Debug, PartialEq, Eq)]
pub enum DaqmxError {
    /// The driver failed a call. The number is the status that the call
    /// returned, the string the driver's extended description of it.
    DaqmxError(i32, String),
    /// A string meant for the driver holds a null.
    CStringError(NulError),
    /// A string that the driver returned is not UTF-8, which points to
    /// corruption.
    Utf8Error(std::string::FromUtf8Error),
    /// A string property took another length between the call that asked for
    /// its length and the call that fetched it. Another actor changed it in
    /// between; to try again will most likely succeed.
    StringPropertyLengthChanged,
    /// The driver returned a number that is no member of the named
    /// enumeration.
    UnexpectedValue(String, i32),
}

/// An error, with its strings as sequences of characters. Of bytes that are
/// not UTF-8 it keeps no detail.
pub enum ErrorView {
    Daqmx(i32, Seq<char>),
    CString { bytes: Seq<u8>, position: int },
    Utf8,
    LengthChanged,
    Unexpected(Seq<char>, i32),
}

impl View for DaqmxError {
    type V = ErrorView;

    open spec fn view(&self) -> ErrorView {
        match *self {
            DaqmxError::DaqmxError(code, message) => ErrorView::Daqmx(code, message@),
            DaqmxError::CStringError(error) => ErrorView::CString {
                bytes: error.bytes(),
                position: error.position(),
            },
            DaqmxError::Utf8Error(_) => ErrorView::Utf8,
            DaqmxError::StringPropertyLengthChanged => ErrorView::LengthChanged,
            DaqmxError::UnexpectedValue(name, value) => ErrorView::Unexpected(name@, value),
        }
    }
}

impl vstd::std_specs::convert::FromSpecImpl<NulError> for DaqmxError {
    open spec fn obeys_from_spec() -> bool {
        true
    }

    open spec fn from_spec(error: NulError) -> DaqmxError {
        DaqmxError::CStringError(error)
    }
}

impl From<NulError> for DaqmxError {
    fn from(error: NulError) -> (r: DaqmxError) {
        DaqmxError::CStringError(error)
    }
}

impl vstd::std_specs::convert::FromSpecImpl<std::string::FromUtf8Error> for DaqmxError {
    open spec fn obeys_from_spec() -> bool {
        true
    }

    open spec fn from_spec(error: std::string::FromUtf8Error) -> DaqmxError {
        DaqmxError::Utf8Error(error)
    }
}

impl From<std::string::FromUtf8Error> for DaqmxError {
    fn from(error: std::string::FromUtf8Error) -> (r: DaqmxError) {
        DaqmxError::Utf8Error(error)
    }
}

/// A result, with its error viewed.
pub open spec fn plain_view<T>(r: Result<T, DaqmxError>) -> Result<T, ErrorView> {
    match r {
        Ok(value) => Ok(value),
        Err(error) => Err(error@),
    }
}

/// A result that holds a string, with string and error viewed.
pub open spec fn text_view(r: Result<String, DaqmxError>) -> Result<Seq<char>, ErrorView> {
    match r {
        Ok(text) => Ok(text@),
        Err(error) => Err(error@),
    }
}

/// The characters of the text of a buffer.
pub open spec fn message_text(buffer: Seq<i8>) -> Seq<char> {
    decode_utf8(text_bytes(buffer))
}

/// The text by which the driver describes a status.
#[derive(Clone, Copy, Debug, PartialEq, Eq, Structural)]
pub enum MessageSource {
    /// There is nothing to describe.
    NoText,
    /// The extended description of the last failure on this thread.
    ExtendedErrorInfo,
    /// The short description that belongs to the status code.
    ErrorString,
}

/// The text that belongs to a status: none to success, the extended error
/// text to a failure, the error string to a warning.
pub open spec fn spec_message_source(return_code: i32) -> MessageSource {
    if return_code == 0 {
        MessageSource::NoText
    } else if return_code < 0 {
        MessageSource::ExtendedErrorInfo
    } else {
        MessageSource::ErrorString
    }
}

/// Says which text to fetch for the status that a call returned, before the
/// status and the buffer that holds the text go to `handle_error` or
/// `classify`.
pub fn message_source(return_code: i32) -> (source: MessageSource)
    ensures
        source == spec_message_source(return_code),
{
    if return_code == 0 {
        MessageSource::NoText
    } else if return_code < 0 {
        MessageSource::ExtendedErrorInfo
    } else {
        MessageSource::ErrorString
    }
}

/// Decodes the text that the driver wrote into a status buffer: what stands
/// in front of the first null.
///
/// A buffer whose text is not UTF-8 is a sign of corruption and no input of
/// this function.
pub fn error_buffer_to_string(buffer: Vec<i8>) -> (text: String)
    requires
        is_text(buffer@),
    ensures
        text@ == message_text(buffer@),
{
    buffer_to_string(buffer)
}

/// What a call's status amounts to.
#[derive(Debug, PartialEq, Eq)]
pub enum Outcome {
    /// The call did what it was asked.
    Success,
    /// The call did what it was asked and the driver has a remark, which is
    /// worth a line in a log and nothing more.
    Warning(i32, String),
    /// The call failed.
    HardError(i32, String),
}

/// An outcome, with its strings as sequences of characters.
pub enum OutcomeView {
    Success,
    Warning(i32, Seq<char>),
    HardError(i32, Seq<char>),
}

impl View for Outcome {
    type V = OutcomeView;

    open spec fn view(&self) -> OutcomeView {
        match *self {
            Outcome::Success => OutcomeView::Success,
            Outcome::Warning(code, message) => OutcomeView::Warning(code, message@),
            Outcome::HardError(code, message) => OutcomeView::HardError(code, message@),
        }
    }
}

/// The outcome that a status and its text stand for.
pub open spec fn spec_classify(return_code: i32, buffer: Seq<i8>) -> OutcomeView {
    if return_code == 0 {
        OutcomeView::Success
    } else if return_code < 0 {
        OutcomeView::HardError(return_code, message_text(buffer))
    } else {
        OutcomeView::Warning(return_code, message_text(buffer))
    }
}

/// Classifies the status that a call returned. `buffer` holds the text that
/// `message_source` named for it; for a status of zero it is not looked at.
pub fn classify(return_code: i32, buffer: Vec<i8>) -> (outcome: Outcome)
    requires
        return_code != 0 ==> is_text(buffer@),
    ensures
        outcome@ == spec_classify(return_code, buffer@),
{
    if return_code == 0 {
        Outcome::Success
    } else if return_code < 0 {
        Outcome::HardError(return_code, error_buffer_to_string(buffer))
    } else {
        Outcome::Warning(return_code, error_buffer_to_string(buffer))
    }
}

impl Outcome {
    /// The remark of a warning.
    pub fn warning(&self) -> (message: Option<&String>)
        ensures
            message is Some <==> self is Warning,
            message is Some ==> *message->Some_0 == self->Warning_1,
    {
        match self {
            Outcome::Warning(_, message) => Some(message),
            _ => None,
        }
    }

    /// The outcome as a result: only a failure is an error.
    pub fn into_result(self) -> (r: Result<(), DaqmxError>)
        ensures
            plain_view(r) == spec_result(self@),
    {
        match self {
            Outcome::HardError(code, message) => Err(DaqmxError::DaqmxError(code, message)),
            _ => Ok(()),
        }
    }
}

/// An outcome as a result: only a failure is an error.
pub open spec fn spec_result(outcome: OutcomeView) -> Result<(), ErrorView> {
    match outcome {
        OutcomeView::HardError(code, message) => Err(ErrorView::Daqmx(code, message)),
        _ => Ok(()),
    }
}

/// Turns the status that a call returned into a result. Zero is success. A
/// negative status is an error that carries the status and the driver's
/// extended description. A positive status is a warning and no error.
/// `buffer` holds the text that `message_source` named for the status.
pub fn handle_error(return_code: i32, buffer: Vec<i8>) -> (r: Result<(), DaqmxError>)
    requires
        return_code != 0 ==> is_text(buffer@),
    ensures
        return_code >= 0 <==> r is Ok,
        return_code < 0 ==> r->Err_0@ == ErrorView::Daqmx(return_code, message_text(buffer@)),
        plain_view(r) == spec_result(spec_classify(return_code, buffer@)),
{
    classify(return_code, buffer).into_result()
}

/// Accepts `text` as a name for the driver unless it holds a null.
pub fn c_name(text: &str) -> (r: Result<CName, DaqmxError>)
    ensures
        r is Ok <==> !has_nul(encode_utf8(text@)),
        r is Ok ==> r->Ok_0@ == encode_utf8(text@),
        r is Err ==> r->Err_0@ == (ErrorView::CString {
            bytes: encode_utf8(text@),
            position: nul_position(encode_utf8(text@)),
        }),
{
    match CName::from_text(text) {
        Ok(name) => Ok(name),
        Err(error) => Err(DaqmxError::from(error)),
    }
}

/// Whether a status is one of the two by which a string getter says that
/// the value did not fit the buffer.
pub open spec fn is_size_error(return_code: i32) -> bool {
    return_code == ERROR_BUFFER_TOO_SMALL_FOR_STRING || return_code
        == WARNING_STRING_TRUNCATED_TO_FIT_BUFFER
}

/// The text that belongs to the status of a call that fetched a string: the
/// extended error text to a failure that is no matter of size, and none to
/// any other status.
pub open spec fn spec_size_error_message_source(return_code: i32) -> MessageSource {
    if return_code < 0 && !is_size_error(return_code) {
        MessageSource::ExtendedErrorInfo
    } else {
        MessageSource::NoText
    }
}

/// Says which text to fetch for the status of a call that fetched a string,
/// before the status and the buffer that holds the text go to
/// `string_property_size_error`.
pub fn size_error_message_source(return_code: i32) -> (source: MessageSource)
    ensures
        source == spec_size_error_message_source(return_code),
{
    if return_code < 0 && return_code != ERROR_BUFFER_TOO_SMALL_FOR_STRING {
        MessageSource::ExtendedErrorInfo
    } else {
        MessageSource::NoText
    }
}

/// What the status of a call that fetched a string amounts to: `true` for a
/// value that did not fit, an error for any other failure, `false` for
/// anything else.
pub open spec fn spec_string_property_size_error(return_code: i32, buffer: Seq<i8>) -> Result<
    bool,
    ErrorView,
> {
    if is_size_error(return_code) {
        Ok(true)
    } else if return_code < 0 {
        Err(ErrorView::Daqmx(return_code, message_text(buffer)))
    } else {
        Ok(false)
    }
}

/// Reads the status of a call that fetched a string into a buffer.
///
/// * `Ok(true)`: the value did not fit the buffer.
/// * `Ok(false)`: the value is in the buffer.
/// * An error: the call failed for another reason.
///
/// `buffer` holds the text that `size_error_message_source` named for the
/// status.
pub fn string_property_size_error(return_code: i32, buffer: Vec<i8>) -> (r: Result<
    bool,
    DaqmxError,
>)
    requires
        return_code < 0 && !is_size_error(return_code) ==> is_text(buffer@),
    ensures
        plain_view(r) == spec_string_property_size_error(return_code, buffer@),
        r == Ok::<bool, DaqmxError>(true) <==> is_size_error(return_code),
        return_code == 0 ==> r == Ok::<bool, DaqmxError>(false),
        return_code < 0 && !is_size_error(return_code) ==> r is Err && r->Err_0@
            == ErrorView::Daqmx(return_code, message_text(buffer@)),
{
    if return_code == ERROR_BUFFER_TOO_SMALL_FOR_STRING || return_code
        == WARNING_STRING_TRUNCATED_TO_FIT_BUFFER {
        Ok(true)
    } else if return_code < 0 {
        match handle_error(return_code, buffer) {
            Ok(()) => Ok(false),
            Err(error) => Err(error),
        }
    } else {
        Ok(false)
    }
}

} // verus!
