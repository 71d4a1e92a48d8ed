//! Plain types that every part of the layer shares: the options of the
//! timing and read calls, and the text of a buffer that the driver filled.

use vstd::prelude::*;
use vstd::utf8::{decode_utf8, valid_utf8};
use crate::codes::{
    VAL_CONT_SAMPS,
    VAL_FALLING,
    VAL_FINITE_SAMPS,
    VAL_GROUP_BY_CHANNEL,
    VAL_GROUP_BY_SCAN_NUMBER,
    VAL_HW_TIMED_SINGLE_POINT,
    VAL_RISING,
    VAL_WAIT_INFINITELY_BITS,
};
use crate::strings::{lemma_nul_position_is, string_from_utf8, until_nul};

verus! {

/// The unsigned byte that a C `char` stands for.
pub open spec fn byte_of(c: i8) -> u8 {
    if c >= 0 {
        c as u8
    } else {
        (c + 256) as u8
    }
}

/// A buffer of C `char`s, read as unsigned bytes.
pub open spec fn unsigned(buffer: Seq<i8>) -> Seq<u8> {
    buffer.map_values(|c: i8| byte_of(c))
}

/// The text of a buffer: its bytes in front of the first null, or all of
/// them where it holds no null.
pub open spec fn text_bytes(buffer: Seq<i8>) -> Seq<u8> {
    until_nul(unsigned(buffer))
}

/// Whether the text of a buffer is well-formed UTF-8.
pub open spec fn is_text(buffer: Seq<i8>) -> bool {
    valid_utf8(text_bytes(buffer))
}

/// Copies the text of a buffer out of it.
pub fn buffer_text(buffer: &Vec<i8>) -> (bytes: Vec<u8>)
    ensures
        bytes@ == text_bytes(buffer@),
{
    let mut bytes: Vec<u8> = Vec::new();
    let mut i: usize = 0;
    while i < buffer.len() && buffer[i] != 0
        invariant
            i <= buffer.len(),
            bytes@.len() == i,
            forall|k: int| 0 <= k < i ==> buffer@[k] != 0,
            forall|k: int| 0 <= k < i ==> bytes@[k] == byte_of(buffer@[k]),
        decreases buffer.len() - i,
    {
        let c: i8 = buffer[i];
        let b: u8 = if c >= 0 {
            c as u8
        } else {
            (c as i16 + 256) as u8
        };
        bytes.push(b);
        i += 1;
    }
    proof {
        let all = unsigned(buffer@);
        assert forall|k: int| 0 <= k < i implies all[k] != 0 by {
            assert(all[k] == byte_of(buffer@[k]));
        }
        lemma_nul_position_is(all, i as int);
        assert(bytes@ =~= text_bytes(buffer@));
    }
    bytes
}

/// Decodes the text of a buffer that the driver filled: the characters that
/// its bytes in front of the first null encode, or `None` where those bytes
/// are not UTF-8.
pub fn decode_buffer(buffer: &Vec<i8>) -> (text: Option<String>)
    ensures
        text is Some <==> is_text(buffer@),
        text is Some ==> text->Some_0@ == decode_utf8(text_bytes(buffer@)),
{
    match string_from_utf8(buffer_text(buffer)) {
        Ok(text) => Some(text),
        Err(_) => None,
    }
}

/// Strips the terminating null, and what follows it, from a buffer that the
/// driver filled with text, and returns the text as a string.
///
/// A buffer whose text is not UTF-8 is a sign of corruption and no input of
/// this function: `decode_buffer` tells the two apart.
pub fn buffer_to_string(buffer: Vec<i8>) -> (text: String)
    requires
        is_text(buffer@),
    ensures
        text@ == decode_utf8(text_bytes(buffer@)),
{
    match decode_buffer(&buffer) {
        Some(text) => text,
        None => String::new(),
    }
}

/// A double-precision number, carried by its bit pattern.
///
/// The layer never computes with the numbers that it passes between its
/// caller and the driver (a range, a rate, a timeout): it hands them on. Two
/// values are equal here when their bits are, which is finer than equality of
/// the numbers: it tells the two zeros apart.
#[derive(Clone, Copy, Debug, PartialEq, Eq, Structural)]
pub struct Double {
    pub bits: u64,
}

impl Double {
    /// The number with the given bit pattern.
    pub fn from_bits(bits: u64) -> (number: Double)
        ensures
            number.bits == bits,
    {
        Double { bits }
    }

    /// The bit pattern of the number.
    pub fn to_bits(self) -> (bits: u64)
        ensures
            bits == self.bits,
    {
        self.bits
    }
}

/// The layout of a one-dimensional buffer that holds the samples of several
/// channels.
#[derive(Clone, Copy, Debug, PartialEq, Eq, Structural)]
pub enum DataFillMode {
    /// All samples of the first channel, then all of the second, and so on.
    GroupByChannel,
    /// The first sample of every channel, then the second of every channel,
    /// and so on.
    GroupByScanNumber,
}

impl DataFillMode {
    /// The driver's code for this layout.
    pub open spec fn spec_code(self) -> u32 {
        match self {
            DataFillMode::GroupByChannel => 0,
            DataFillMode::GroupByScanNumber => 1,
        }
    }
}

impl vstd::std_specs::convert::FromSpecImpl<DataFillMode> for u32 {
    open spec fn obeys_from_spec() -> bool {
        true
    }

    open spec fn from_spec(fill_mode: DataFillMode) -> u32 {
        fill_mode.spec_code()
    }
}

impl From<DataFillMode> for u32 {
    fn from(fill_mode: DataFillMode) -> (code: u32) {
        match fill_mode {
            DataFillMode::GroupByChannel => VAL_GROUP_BY_CHANNEL as u32,
            DataFillMode::GroupByScanNumber => VAL_GROUP_BY_SCAN_NUMBER as u32,
        }
    }
}

/// How long a call may wait for the driver.
#[derive(Clone, Copy, Debug, PartialEq, Eq, Structural)]
pub enum Timeout {
    /// Wait until what was asked for is there.
    WaitForever,
    /// Do not wait: take what is there.
    NoWait,
    /// Wait at most this many seconds.
    Seconds(Double),
}

impl Timeout {
    /// The number of seconds that the driver is given for this timeout.
    pub open spec fn spec_seconds(self) -> Double {
        match self {
            Timeout::WaitForever => Double { bits: VAL_WAIT_INFINITELY_BITS },
            Timeout::NoWait => Double { bits: 0 },
            Timeout::Seconds(seconds) => seconds,
        }
    }
}

impl vstd::std_specs::convert::FromSpecImpl<Timeout> for Double {
    open spec fn obeys_from_spec() -> bool {
        true
    }

    open spec fn from_spec(timeout: Timeout) -> Double {
        timeout.spec_seconds()
    }
}

impl From<Timeout> for Double {
    fn from(timeout: Timeout) -> (seconds: Double) {
        match timeout {
            Timeout::WaitForever => Double { bits: VAL_WAIT_INFINITELY_BITS },
            Timeout::NoWait => Double { bits: 0 },
            Timeout::Seconds(seconds) => seconds,
        }
    }
}

/// The edge of the clock on which a sample is taken.
#[derive(Clone, Copy, Debug, PartialEq, Eq, Structural)]
pub enum ClockEdge {
    Rising,
    Falling,
}

impl ClockEdge {
    /// The driver's code for this edge.
    pub open spec fn spec_code(self) -> i32 {
        match self {
            ClockEdge::Rising => VAL_RISING,
            ClockEdge::Falling => VAL_FALLING,
        }
    }
}

impl Default for ClockEdge {
    fn default() -> (edge: Self)
        ensures
            edge == ClockEdge::Rising,
    {
        ClockEdge::Rising
    }
}

impl vstd::std_specs::convert::FromSpecImpl<ClockEdge> for i32 {
    open spec fn obeys_from_spec() -> bool {
        true
    }

    open spec fn from_spec(edge: ClockEdge) -> i32 {
        edge.spec_code()
    }
}

impl From<ClockEdge> for i32 {
    fn from(edge: ClockEdge) -> (code: i32) {
        match edge {
            ClockEdge::Rising => VAL_RISING,
            ClockEdge::Falling => VAL_FALLING,
        }
    }
}

/// How many samples a task takes, and when.
#[derive(Clone, Copy, Debug, PartialEq, Eq, Structural)]
pub enum SampleMode {
    /// A fixed number of samples.
    FiniteSamples,
    /// Samples until the task is stopped.
    ContinuousSamples,
    /// Samples one by one on the hardware's clock, without a buffer.
    HardwareTimedSinglePoint,
}

impl SampleMode {
    /// The driver's code for this mode.
    pub open spec fn spec_code(self) -> i32 {
        match self {
            SampleMode::FiniteSamples => VAL_FINITE_SAMPS,
            SampleMode::ContinuousSamples => VAL_CONT_SAMPS,
            SampleMode::HardwareTimedSinglePoint => VAL_HW_TIMED_SINGLE_POINT,
        }
    }
}

impl vstd::std_specs::convert::FromSpecImpl<SampleMode> for i32 {
    open spec fn obeys_from_spec() -> bool {
        true
    }

    open spec fn from_spec(mode: SampleMode) -> i32 {
        mode.spec_code()
    }
}

impl From<SampleMode> for i32 {
    fn from(mode: SampleMode) -> (code: i32) {
        match mode {
            SampleMode::FiniteSamples => VAL_FINITE_SAMPS,
            SampleMode::ContinuousSamples => VAL_CONT_SAMPS,
            SampleMode::HardwareTimedSinglePoint => VAL_HW_TIMED_SINGLE_POINT,
        }
    }
}

} // verus!
