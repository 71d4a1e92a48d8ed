//! Reading the properties of a channel.
//!
//! A property of fixed size is read in one call, which writes the value
//! beside its status. A string is read in two: the first call is given no
//! buffer and answers with the size that the value needs, its terminating
//! null included; the second is given a buffer of that size to fill. Between
//! the two another actor may change the property. The driver then reports
//! that the value did not fit, and the read ends with
//! `StringPropertyLengthChanged`: it is not tried again here.
//!
//! The read of a string is a machine. `StringRead` says which call the shell
//! must make next, `StringReadEvent` carries what the call returned, and
//! `StringRead::next` takes the one to the other.

pub mod ai_channels;

pub use ai_channels::{
    ai_terminal_config,
    AnalogInputChannelBuilder,
    AnalogTerminalConfig,
    ChannelBuilder,
    CreateAIVoltageChan,
    ScaleRead,
    ScaleReadEvent,
    VoltageChannelBuilder,
    VoltageScale,
};

use vstd::prelude::*;
use vstd::utf8::{
    decode_utf8,
    encode_utf8,
    encode_utf8_decode_utf8,
    encode_utf8_valid_utf8,
    valid_utf8,
};
use crate::error::{
    error_buffer_to_string,
    handle_error,
    is_size_error,
    message_text,
    plain_view,
    size_error_message_source,
    spec_size_error_message_source,
    spec_string_property_size_error,
    string_property_size_error,
    text_view,
    DaqmxError,
    ErrorView,
    MessageSource,
};
use crate::strings::string_from_utf8;
use crate::types::is_text;

verus! {

/// The value of a property of fixed size, as its getter's answer gives it:
/// what the getter wrote, unless the call failed.
pub open spec fn spec_read_channel_property<T>(return_code: i32, buffer: Seq<i8>, value: T) -> Result<
    T,
    ErrorView,
> {
    if return_code < 0 {
        Err(ErrorView::Daqmx(return_code, message_text(buffer)))
    } else {
        Ok(value)
    }
}

/// Reads a property of fixed size from what the getter returned: `value` is
/// what it wrote, `return_code` its status and `buffer` the text that
/// `message_source` named for the status. The value counts unless the call
/// failed.
pub fn read_channel_property<T>(return_code: i32, buffer: Vec<i8>, value: T) -> (r: Result<
    T,
    DaqmxError,
>)
    requires
        return_code != 0 ==> is_text(buffer@),
    ensures
        plain_view(r) == spec_read_channel_property(return_code, buffer@, value),
{
    match handle_error(return_code, buffer) {
        Ok(()) => Ok(value),
        Err(error) => Err(error),
    }
}

/// The text that belongs to what a size probe returned: the extended error
/// text to a negative value, which is a failure, and none to a size.
pub open spec fn spec_probe_message_source(return_value: i32) -> MessageSource {
    if return_value < 0 {
        MessageSource::ExtendedErrorInfo
    } else {
        MessageSource::NoText
    }
}

/// Says which text to fetch for what a size probe returned.
pub fn probe_message_source(return_value: i32) -> (source: MessageSource)
    ensures
        source == spec_probe_message_source(return_value),
{
    if return_value < 0 {
        MessageSource::ExtendedErrorInfo
    } else {
        MessageSource::NoText
    }
}

/// What a size probe returned, read as a size: a negative value is a failure
/// of the call, any other is the number of bytes that the value needs.
pub open spec fn spec_required_size(return_value: i32, message: Seq<i8>) -> Result<u32, ErrorView> {
    if return_value < 0 {
        Err(ErrorView::Daqmx(return_value, message_text(message)))
    } else {
        Ok(return_value as u32)
    }
}

/// Reads what a size probe returned. `message` holds the text that
/// `probe_message_source` named for it.
pub fn required_size(return_value: i32, message: Vec<i8>) -> (r: Result<u32, DaqmxError>)
    requires
        return_value < 0 ==> is_text(message@),
    ensures
        plain_view(r) == spec_required_size(return_value, message@),
{
    if return_value < 0 {
        Err(DaqmxError::DaqmxError(return_value, error_buffer_to_string(message)))
    } else {
        Ok(return_value as u32)
    }
}

/// A filled buffer without its last byte, which is the terminating null.
pub open spec fn without_terminator(buffer: Seq<u8>) -> Seq<u8> {
    if buffer.len() == 0 {
        buffer
    } else {
        buffer.drop_last()
    }
}

/// Bytes read as UTF-8.
pub open spec fn spec_decode(bytes: Seq<u8>) -> Result<Seq<char>, ErrorView> {
    if valid_utf8(bytes) {
        Ok(decode_utf8(bytes))
    } else {
        Err(ErrorView::Utf8)
    }
}

/// The string in a buffer that the driver filled: the last byte is dropped,
/// the others are read as UTF-8.
pub fn string_from_buffer(buffer: Vec<u8>) -> (r: Result<String, DaqmxError>)
    ensures
        text_view(r) == spec_decode(without_terminator(buffer@)),
{
    let mut buffer = buffer;
    buffer.pop();
    match string_from_utf8(buffer) {
        Ok(text) => Ok(text),
        Err(error) => Err(DaqmxError::from(error)),
    }
}

/// What the call that filled the buffer amounts to: a value that did not fit
/// means that its length changed after the probe; a failure is a failure;
/// otherwise the buffer holds the string.
pub open spec fn spec_filled(return_code: i32, message: Seq<i8>, buffer: Seq<u8>) -> Result<
    Seq<char>,
    ErrorView,
> {
    match spec_string_property_size_error(return_code, message) {
        Err(error) => Err(error),
        Ok(true) => Err(ErrorView::LengthChanged),
        Ok(false) => spec_decode(without_terminator(buffer)),
    }
}

/// The state of a two-phase read of a string: the call that the shell must
/// make next, or the result.
#[derive(Debug, PartialEq, Eq)]
pub enum StringRead {
    /// Call the getter with no buffer and a length of zero.
    Probe,
    /// Call the getter with a buffer of `buffer_size` zero bytes.
    Fill { buffer_size: u32 },
    /// The read is over.
    Done(Result<String, DaqmxError>),
}

/// What a call of the getter returned.
#[derive(Debug, PartialEq, Eq)]
pub enum StringReadEvent {
    /// The answer to `Probe`: what the getter returned, and the text that
    /// `StringRead::message_source` named for it.
    Probed { return_value: i32, message: Vec<i8> },
    /// The answer to `Fill`: the getter's status, the text that
    /// `StringRead::message_source` named for it, and the buffer.
    Filled { return_code: i32, message: Vec<i8>, buffer: Vec<u8> },
}

pub enum StringReadView {
    Probe,
    Fill { buffer_size: u32 },
    Done(Result<Seq<char>, ErrorView>),
}

pub enum StringReadEventView {
    Probed { return_value: i32, message: Seq<i8> },
    Filled { return_code: i32, message: Seq<i8>, buffer: Seq<u8> },
}

impl View for StringRead {
    type V = StringReadView;

    open spec fn view(&self) -> StringReadView {
        match *self {
            StringRead::Probe => StringReadView::Probe,
            StringRead::Fill { buffer_size } => StringReadView::Fill { buffer_size },
            StringRead::Done(result) => StringReadView::Done(text_view(result)),
        }
    }
}

impl View for StringReadEvent {
    type V = StringReadEventView;

    open spec fn view(&self) -> StringReadEventView {
        match *self {
            StringReadEvent::Probed { return_value, message } => StringReadEventView::Probed {
                return_value,
                message: message@,
            },
            StringReadEvent::Filled { return_code, message, buffer } => StringReadEventView::Filled {
                return_code,
                message: message@,
                buffer: buffer@,
            },
        }
    }
}

impl StringReadView {
    /// The text that belongs to the status of the call that this state asks
    /// for.
    pub open spec fn message_source(self, return_code: i32) -> MessageSource {
        match self {
            StringReadView::Probe => spec_probe_message_source(return_code),
            StringReadView::Fill { .. } => spec_size_error_message_source(return_code),
            StringReadView::Done(_) => MessageSource::NoText,
        }
    }

    /// Whether `event` is the answer to the call that this state asks for.
    pub open spec fn answered_by(self, event: StringReadEventView) -> bool {
        match (self, event) {
            (StringReadView::Probe, StringReadEventView::Probed { .. }) => true,
            (StringReadView::Fill { .. }, StringReadEventView::Filled { .. }) => true,
            _ => false,
        }
    }

    /// Whether `event` carries a text wherever this state reads one.
    pub open spec fn can_read(self, event: StringReadEventView) -> bool {
        match (self, event) {
            (StringReadView::Probe, StringReadEventView::Probed { return_value, message }) => {
                spec_probe_message_source(return_value) != MessageSource::NoText ==> is_text(
                    message,
                )
            },
            (
                StringReadView::Fill { .. },
                StringReadEventView::Filled { return_code, message, .. },
            ) => {
                spec_size_error_message_source(return_code) != MessageSource::NoText ==> is_text(
                    message,
                )
            },
            _ => true,
        }
    }

    /// The state after `event`. An event that does not answer the call that
    /// the state asks for changes nothing.
    pub open spec fn next(self, event: StringReadEventView) -> StringReadView {
        match (self, event) {
            (StringReadView::Probe, StringReadEventView::Probed { return_value, message }) => {
                match spec_required_size(return_value, message) {
                    Ok(buffer_size) => StringReadView::Fill { buffer_size },
                    Err(error) => StringReadView::Done(Err(error)),
                }
            },
            (
                StringReadView::Fill { .. },
                StringReadEventView::Filled { return_code, message, buffer },
            ) => StringReadView::Done(spec_filled(return_code, message, buffer)),
            _ => self,
        }
    }

    /// The number of calls that the state is from the end, at most.
    pub open spec fn calls_left(self) -> nat {
        match self {
            StringReadView::Probe => 2,
            StringReadView::Fill { .. } => 1,
            StringReadView::Done(_) => 0,
        }
    }
}

impl StringReadView {
    /// Every answer takes the read nearer to its end, which is two calls
    /// from its beginning: no read goes on without limit.
    pub proof fn lemma_progress(self, event: StringReadEventView)
        requires
            self.answered_by(event),
        ensures
            self.next(event).calls_left() < self.calls_left() <= 2,
    {
    }

    /// A read that is over is answered by nothing, and an event that is no
    /// answer to a state leaves it as it is.
    pub proof fn lemma_no_answer_no_change(self, event: StringReadEventView)
        ensures
            self is Done ==> !self.answered_by(event),
            !self.answered_by(event) ==> self.next(event) == self,
    {
    }

    /// A value that does not fit the buffer that was sized for it has
    /// changed since: the read ends with `StringPropertyLengthChanged`
    /// whatever the buffer holds, and asks for no further call.
    pub proof fn lemma_length_change_ends_the_read(
        buffer_size: u32,
        return_code: i32,
        message: Seq<i8>,
        buffer: Seq<u8>,
    )
        requires
            is_size_error(return_code),
        ensures
            (StringReadView::Fill { buffer_size }).next(
                StringReadEventView::Filled { return_code, message, buffer },
            ) == StringReadView::Done(Err(ErrorView::LengthChanged)),
    {
    }
}

/// How a driver that holds `value` as a string answers the probe for its
/// size: with the number of its bytes and one more for the null.
pub open spec fn probed(value: Seq<u8>) -> StringReadEventView {
    StringReadEventView::Probed { return_value: (value.len() + 1) as i32, message: Seq::empty() }
}

/// How a driver that holds `value` as a string fills a buffer that is large
/// enough: with the bytes and a null, and a status of zero.
pub open spec fn filled(value: Seq<u8>) -> StringReadEventView {
    StringReadEventView::Filled { return_code: 0, message: Seq::empty(), buffer: value.push(0) }
}

/// The end of the read of a string from a driver that holds `value` and
/// does not change it meanwhile.
pub open spec fn read_of(value: Seq<u8>) -> StringReadView {
    StringReadView::Probe.next(probed(value)).next(filled(value))
}

/// Read from a driver that holds bytes and does not change them meanwhile,
/// a string is the characters that the bytes encode, and `Utf8Error` where
/// they encode none.
pub proof fn lemma_read_of(value: Seq<u8>)
    requires
        value.len() < i32::MAX,
    ensures
        read_of(value) == StringReadView::Done(spec_decode(value)),
        StringReadView::Probe.next(probed(value)) == (StringReadView::Fill {
            buffer_size: (value.len() + 1) as u32,
        }),
{
    assert(value.push(0).drop_last() =~= value);
}

/// Read from a driver that holds a text and does not change it meanwhile, a
/// string is that text.
pub proof fn lemma_read_of_text(text: Seq<char>)
    requires
        encode_utf8(text).len() < i32::MAX,
    ensures
        read_of(encode_utf8(text)) == StringReadView::Done(Ok(text)),
{
    lemma_read_of(encode_utf8(text));
    encode_utf8_valid_utf8(text);
    encode_utf8_decode_utf8(text);
}

impl StringRead {
    /// The state in which every read begins.
    pub fn new() -> (state: StringRead)
        ensures
            state@ == StringReadView::Probe,
    {
        StringRead::Probe
    }

    /// Says which text to fetch for the status that the call returned which
    /// this state asks for.
    pub fn message_source(&self, return_code: i32) -> (source: MessageSource)
        ensures
            source == self@.message_source(return_code),
    {
        match self {
            StringRead::Probe => probe_message_source(return_code),
            StringRead::Fill { .. } => size_error_message_source(return_code),
            StringRead::Done(_) => MessageSource::NoText,
        }
    }

    /// Whether `event` is the answer to the call that this state asks for.
    pub fn answers(&self, event: &StringReadEvent) -> (answered: bool)
        ensures
            answered == self@.answered_by(event@),
    {
        match (self, event) {
            (StringRead::Probe, StringReadEvent::Probed { .. }) => true,
            (StringRead::Fill { .. }, StringReadEvent::Filled { .. }) => true,
            _ => false,
        }
    }

    /// Takes the read one step on, from what the call that the state asked
    /// for returned.
    pub fn next(self, event: StringReadEvent) -> (state: StringRead)
        requires
            self@.can_read(event@),
        ensures
            state@ == self@.next(event@),
    {
        match (self, event) {
            (StringRead::Probe, StringReadEvent::Probed { return_value, message }) => {
                match required_size(return_value, message) {
                    Ok(buffer_size) => StringRead::Fill { buffer_size },
                    Err(error) => StringRead::Done(Err(error)),
                }
            },
            (
                StringRead::Fill { .. },
                StringReadEvent::Filled { return_code, message, buffer },
            ) => {
                match string_property_size_error(return_code, message) {
                    Err(error) => StringRead::Done(Err(error)),
                    Ok(true) => StringRead::Done(Err(DaqmxError::StringPropertyLengthChanged)),
                    Ok(false) => StringRead::Done(string_from_buffer(buffer)),
                }
            },
            (state, _) => state,
        }
    }
}

} // verus!
