//! What a task asks of the driver, and what it makes of the answers.
//!
//! The task itself, which owns the driver's handle, is the shell's. Here are
//! the decisions that it makes: the arguments of the timing and read calls,
//! the meaning of the flags that it reads and writes, and the two-phase read
//! of its name.

use vstd::prelude::*;
use vstd::utf8::{encode_utf8, is_ascii_chars, is_ascii_chars_encode_utf8};
use crate::channels::{
    probe_message_source,
    required_size,
    spec_probe_message_source,
    spec_required_size,
    StringRead,
    StringReadView,
};
use crate::error::{
    c_name,
    error_buffer_to_string,
    handle_error,
    message_source,
    message_text,
    plain_view,
    spec_message_source,
    DaqmxError,
    ErrorView,
    MessageSource,
};
use crate::strings::{has_nul, lemma_nul_position, nul_position, CName};
use crate::types::{is_text, ClockEdge, DataFillMode, Double, SampleMode, Timeout};

verus! {

/// Marks a task as one for analog input.
#[derive(Clone, Copy, Debug, PartialEq, Eq, Structural)]
pub struct AnalogInput;

/// The name under which the driver knows the clock on the device's board.
pub open spec fn onboard_clock() -> Seq<char> {
    "OnboardClock"@
}

/// The arguments of the call that sets the sample clock of a task.
#[derive(Debug, PartialEq, Eq)]
pub struct CfgSampClkTiming {
    pub source: CName,
    pub rate: Double,
    pub active_edge: i32,
    pub sample_mode: i32,
    pub samps_per_chan: u64,
}

/// The arguments, with the source as bytes.
pub struct CfgSampClkTimingView {
    pub source: Seq<u8>,
    pub rate: Double,
    pub active_edge: i32,
    pub sample_mode: i32,
    pub samps_per_chan: u64,
}

impl View for CfgSampClkTiming {
    type V = CfgSampClkTimingView;

    open spec fn view(&self) -> CfgSampClkTimingView {
        CfgSampClkTimingView {
            source: self.source@,
            rate: self.rate,
            active_edge: self.active_edge,
            sample_mode: self.sample_mode,
            samps_per_chan: self.samps_per_chan,
        }
    }
}

/// The name of the clock that a task is timed by: the one given, and the
/// clock on the board where none is.
pub open spec fn spec_clock_source(source: Option<&str>) -> Seq<char> {
    match source {
        Some(name) => name@,
        None => onboard_clock(),
    }
}

/// The name of the board's clock is plain ASCII and holds no null.
pub proof fn lemma_onboard_clock_is_a_name()
    ensures
        !has_nul(encode_utf8(onboard_clock())),
        encode_utf8(onboard_clock()).len() == 12,
{
    reveal_strlit("OnboardClock");
    let chars = onboard_clock();
    assert(is_ascii_chars(chars));
    is_ascii_chars_encode_utf8(chars);
    let bytes = encode_utf8(chars);
    assert(bytes.len() == 12);
    assert forall|i: int| 0 <= i < bytes.len() implies bytes[i] != 0 by {
        assert(bytes[i] == chars[i] as u8);
    }
    lemma_nul_position(bytes);
}

/// Prepares the call that times a task by a sample clock.
///
/// * With no `source` the clock on the board is taken.
/// * For a source outside the device, `rate` is the largest rate expected.
/// * For a continuous acquisition `samples_per_channel` sizes the buffer.
///
/// The call is refused only for a source that holds a null.
pub fn configure_sample_clock_timing(
    source: Option<&str>,
    rate: Double,
    edge: ClockEdge,
    mode: SampleMode,
    samples_per_channel: u64,
) -> (r: Result<CfgSampClkTiming, DaqmxError>)
    ensures
        r is Ok <==> !has_nul(encode_utf8(spec_clock_source(source))),
        source is None ==> r is Ok,
        r is Ok ==> r->Ok_0@ == (CfgSampClkTimingView {
            source: encode_utf8(spec_clock_source(source)),
            rate,
            active_edge: edge.spec_code(),
            sample_mode: mode.spec_code(),
            samps_per_chan: samples_per_channel,
        }),
        r is Err ==> r->Err_0@ == (ErrorView::CString {
            bytes: encode_utf8(spec_clock_source(source)),
            position: nul_position(encode_utf8(spec_clock_source(source))),
        }),
{
    proof {
        lemma_onboard_clock_is_a_name();
    }
    let named = match source {
        Some(name) => c_name(name),
        None => c_name("OnboardClock"),
    };
    match named {
        Ok(source) => Ok(
            CfgSampClkTiming {
                source,
                rate,
                active_edge: i32::from(edge),
                sample_mode: i32::from(mode),
                samps_per_chan: samples_per_channel,
            },
        ),
        Err(error) => Err(error),
    }
}

/// The arguments of the call that reads samples into a buffer.
#[derive(Clone, Copy, Debug, PartialEq, Eq, Structural)]
pub struct ReadAnalog {
    pub num_samps_per_chan: i32,
    pub timeout: Double,
    pub fill_mode: u32,
    pub array_size_in_samps: u32,
}

/// The number of samples per channel that the driver is asked for. It takes
/// a signed number, and -1 for all that there are: a number above the
/// largest signed one wraps around, and no number stands for -1.
pub open spec fn spec_requested_samples(samples_per_channel: Option<u32>) -> i32 {
    match samples_per_channel {
        Some(samples) => if samples <= i32::MAX {
            samples as i32
        } else {
            (samples - 0x1_0000_0000) as i32
        },
        None => -1i32,
    }
}

/// The length of a buffer as the driver takes it: no more than the largest
/// number that its argument holds.
pub open spec fn spec_array_size(buffer_len: usize) -> u32 {
    if buffer_len > u32::MAX {
        u32::MAX
    } else {
        buffer_len as u32
    }
}

/// Prepares the call that reads samples into a buffer of `buffer_len`
/// numbers.
///
/// * With no `samples_per_channel`, a finite task waits for all of its
///   samples and a continuous one reads what its buffer holds.
/// * The driver reads no more than fits the buffer.
pub fn read(
    timeout: Timeout,
    fill_mode: DataFillMode,
    samples_per_channel: Option<u32>,
    buffer_len: usize,
) -> (request: ReadAnalog)
    ensures
        request == (ReadAnalog {
            num_samps_per_chan: spec_requested_samples(samples_per_channel),
            timeout: timeout.spec_seconds(),
            fill_mode: fill_mode.spec_code(),
            array_size_in_samps: spec_array_size(buffer_len),
        }),
{
    let num_samps_per_chan: i32 = match samples_per_channel {
        Some(samples) => if samples <= 0x7fff_ffff {
            samples as i32
        } else {
            (samples as i64 - 0x1_0000_0000) as i32
        },
        None => -1,
    };
    let array_size_in_samps: u32 = if buffer_len > 0xffff_ffff {
        0xffff_ffff
    } else {
        buffer_len as u32
    };
    ReadAnalog {
        num_samps_per_chan,
        timeout: Double::from(timeout),
        fill_mode: u32::from(fill_mode),
        array_size_in_samps,
    }
}

/// Whether a read starts a task that was not started, as the flag's getter
/// reported it: any number but zero means that it does.
pub open spec fn spec_read_auto_start(return_code: i32, buffer: Seq<i8>, value: u32) -> Result<
    bool,
    ErrorView,
> {
    if return_code < 0 {
        Err(ErrorView::Daqmx(return_code, message_text(buffer)))
    } else {
        Ok(value != 0)
    }
}

/// Reads the flag that says whether a read starts the task, from what its
/// getter returned: `value` is what it wrote, `return_code` its status and
/// `buffer` the text that `message_source` named for the status.
pub fn read_auto_start(return_code: i32, buffer: Vec<i8>, value: u32) -> (r: Result<
    bool,
    DaqmxError,
>)
    requires
        return_code != 0 ==> is_text(buffer@),
    ensures
        plain_view(r) == spec_read_auto_start(return_code, buffer@, value),
{
    match handle_error(return_code, buffer) {
        Ok(()) => Ok(value != 0),
        Err(error) => Err(error),
    }
}

/// The number that sets the flag which says whether a read starts the task:
/// 1 for yes and 0 for no.
pub fn set_read_auto_start(value: bool) -> (data: u32)
    ensures
        data == if value { 1u32 } else { 0u32 },
{
    if value {
        1
    } else {
        0
    }
}

/// What the call that fetched a task's name returned.
#[derive(Debug, PartialEq, Eq)]
pub enum NameEvent {
    /// The answer to `StringRead::Probe`: what the getter returned, and the
    /// text that `name_message_source` named for it.
    Probed { return_value: i32, message: Vec<i8> },
    /// The answer to `StringRead::Fill`: the getter's status, the text that
    /// `name_message_source` named for it, and the buffer.
    Filled { return_code: i32, message: Vec<i8>, buffer: Vec<i8> },
}

pub enum NameEventView {
    Probed { return_value: i32, message: Seq<i8> },
    Filled { return_code: i32, message: Seq<i8>, buffer: Seq<i8> },
}

impl View for NameEvent {
    type V = NameEventView;

    open spec fn view(&self) -> NameEventView {
        match *self {
            NameEvent::Probed { return_value, message } => NameEventView::Probed {
                return_value,
                message: message@,
            },
            NameEvent::Filled { return_code, message, buffer } => NameEventView::Filled {
                return_code,
                message: message@,
                buffer: buffer@,
            },
        }
    }
}

/// The text that belongs to the status of the call that a state of the
/// name's read asks for.
pub open spec fn spec_name_message_source(state: StringReadView, return_code: i32) -> MessageSource {
    match state {
        StringReadView::Probe => spec_probe_message_source(return_code),
        StringReadView::Fill { .. } => spec_message_source(return_code),
        StringReadView::Done(_) => MessageSource::NoText,
    }
}

/// Says which text to fetch for the status that the call returned which
/// `state` asks for.
pub fn name_message_source(state: &StringRead, return_code: i32) -> (source: MessageSource)
    ensures
        source == spec_name_message_source(state@, return_code),
{
    match state {
        StringRead::Probe => probe_message_source(return_code),
        StringRead::Fill { .. } => message_source(return_code),
        StringRead::Done(_) => MessageSource::NoText,
    }
}

/// Whether `event` is the answer to the call that `state` asks for.
pub open spec fn name_answered_by(state: StringReadView, event: NameEventView) -> bool {
    match (state, event) {
        (StringReadView::Probe, NameEventView::Probed { .. }) => true,
        (StringReadView::Fill { .. }, NameEventView::Filled { .. }) => true,
        _ => false,
    }
}

/// Whether `event` carries a text wherever `state` reads one. The name
/// itself is such a text.
pub open spec fn name_can_read(state: StringReadView, event: NameEventView) -> bool {
    match (state, event) {
        (StringReadView::Probe, NameEventView::Probed { return_value, message }) => {
            return_value < 0 ==> is_text(message)
        },
        (StringReadView::Fill { .. }, NameEventView::Filled { return_code, message, buffer }) => {
            &&& return_code != 0 ==> is_text(message)
            &&& return_code >= 0 ==> is_text(buffer)
        },
        _ => true,
    }
}

/// The state of the read of a task's name after `event`. The size is
/// probed as that of any string. The second call counts unless it failed,
/// and the name is what the buffer holds in front of its first null. An
/// event that does not answer the call that the state asks for changes
/// nothing.
pub open spec fn spec_name(state: StringReadView, event: NameEventView) -> StringReadView {
    match (state, event) {
        (StringReadView::Probe, NameEventView::Probed { return_value, message }) => {
            match spec_required_size(return_value, message) {
                Ok(buffer_size) => StringReadView::Fill { buffer_size },
                Err(error) => StringReadView::Done(Err(error)),
            }
        },
        (StringReadView::Fill { .. }, NameEventView::Filled { return_code, message, buffer }) => {
            if return_code < 0 {
                StringReadView::Done(Err(ErrorView::Daqmx(return_code, message_text(message))))
            } else {
                StringReadView::Done(Ok(message_text(buffer)))
            }
        },
        _ => state,
    }
}

/// Takes the read of a task's name one step on, from what the call that the
/// state asked for returned. The read begins with `StringRead::new`.
pub fn name(state: StringRead, event: NameEvent) -> (next: StringRead)
    requires
        name_can_read(state@, event@),
    ensures
        next@ == spec_name(state@, event@),
{
    match (state, event) {
        (StringRead::Probe, NameEvent::Probed { return_value, message }) => {
            match required_size(return_value, message) {
                Ok(buffer_size) => StringRead::Fill { buffer_size },
                Err(error) => StringRead::Done(Err(error)),
            }
        },
        (StringRead::Fill { .. }, NameEvent::Filled { return_code, message, buffer }) => {
            match handle_error(return_code, message) {
                Err(error) => StringRead::Done(Err(error)),
                Ok(()) => StringRead::Done(Ok(error_buffer_to_string(buffer))),
            }
        },
        (state, _) => state,
    }
}

} // verus!
