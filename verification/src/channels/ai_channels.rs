//! Analog input channels: how a voltage channel is described to the driver,
//! and how its description is read back.

use vstd::prelude::*;
use vstd::utf8::{decode_utf8_encode_utf8, encode_utf8, valid_utf8};
use crate::channels::{
    filled,
    lemma_read_of,
    lemma_read_of_text,
    probed,
    read_of,
    spec_read_channel_property,
    StringRead,
    StringReadEvent,
    StringReadEventView,
    StringReadView,
};
use crate::codes::{
    VAL_CFG_DEFAULT,
    VAL_DIFF,
    VAL_FROM_CUSTOM_SCALE,
    VAL_FROM_TEDS,
    VAL_NRSE,
    VAL_PSEUDO_DIFF,
    VAL_RSE,
    VAL_VOLTS,
};
use crate::error::{c_name, handle_error, message_text, DaqmxError, ErrorView, MessageSource};
use crate::error::{message_source, spec_message_source};
use crate::strings::{has_nul, nul_position, CName};
use crate::types::{is_text, Double};

verus! {

/// How the terminals of an analog input are wired.
#[derive(Clone, Copy, PartialEq, Eq, Debug, Structural)]
pub enum AnalogTerminalConfig {
    /// What the device takes by default for the kind of channel.
    Default,
    /// Referenced single-ended: measured against the ground of the input.
    RSE,
    /// Non-referenced single-ended: measured against the sense terminal.
    NRSE,
    /// Differential.
    Differential,
    /// Pseudo-differential.
    PseudoDifferential,
}

impl Default for AnalogTerminalConfig {
    fn default() -> (config: Self)
        ensures
            config == AnalogTerminalConfig::Default,
    {
        AnalogTerminalConfig::Default
    }
}

impl AnalogTerminalConfig {
    /// The driver's code for this wiring.
    pub open spec fn spec_code(self) -> i32 {
        match self {
            AnalogTerminalConfig::Default => VAL_CFG_DEFAULT,
            AnalogTerminalConfig::RSE => VAL_RSE,
            AnalogTerminalConfig::NRSE => VAL_NRSE,
            AnalogTerminalConfig::Differential => VAL_DIFF,
            AnalogTerminalConfig::PseudoDifferential => VAL_PSEUDO_DIFF,
        }
    }

    /// The wiring that a code of the driver stands for. A number that is
    /// the code of none is an `UnexpectedValue` that names this enumeration.
    pub open spec fn spec_try_from(value: i32) -> Result<AnalogTerminalConfig, ErrorView> {
        if value == VAL_CFG_DEFAULT {
            Ok(AnalogTerminalConfig::Default)
        } else if value == VAL_RSE {
            Ok(AnalogTerminalConfig::RSE)
        } else if value == VAL_NRSE {
            Ok(AnalogTerminalConfig::NRSE)
        } else if value == VAL_DIFF {
            Ok(AnalogTerminalConfig::Differential)
        } else if value == VAL_PSEUDO_DIFF {
            Ok(AnalogTerminalConfig::PseudoDifferential)
        } else {
            Err(ErrorView::Unexpected("AnalogTerminalConfig"@, value))
        }
    }

    /// The driver's code for this wiring.
    pub fn code(self) -> (code: i32)
        ensures
            code == self.spec_code(),
    {
        match self {
            AnalogTerminalConfig::Default => VAL_CFG_DEFAULT,
            AnalogTerminalConfig::RSE => VAL_RSE,
            AnalogTerminalConfig::NRSE => VAL_NRSE,
            AnalogTerminalConfig::Differential => VAL_DIFF,
            AnalogTerminalConfig::PseudoDifferential => VAL_PSEUDO_DIFF,
        }
    }

    /// Reads a code of the driver as a wiring.
    pub fn try_from(value: i32) -> (r: Result<AnalogTerminalConfig, DaqmxError>)
        ensures
            crate::error::plain_view(r) == AnalogTerminalConfig::spec_try_from(value),
    {
        if value == VAL_CFG_DEFAULT {
            Ok(AnalogTerminalConfig::Default)
        } else if value == VAL_RSE {
            Ok(AnalogTerminalConfig::RSE)
        } else if value == VAL_NRSE {
            Ok(AnalogTerminalConfig::NRSE)
        } else if value == VAL_DIFF {
            Ok(AnalogTerminalConfig::Differential)
        } else if value == VAL_PSEUDO_DIFF {
            Ok(AnalogTerminalConfig::PseudoDifferential)
        } else {
            Err(DaqmxError::UnexpectedValue("AnalogTerminalConfig".to_owned(), value))
        }
    }

    /// Every wiring is read back from its code.
    pub proof fn lemma_code_round_trip(self)
        ensures
            AnalogTerminalConfig::spec_try_from(self.spec_code()) == Ok::<
                AnalogTerminalConfig,
                ErrorView,
            >(self),
    {
    }

    /// A number is read as a wiring only if it is the code of that wiring.
    pub proof fn lemma_try_from_is_code(value: i32)
        ensures
            AnalogTerminalConfig::spec_try_from(value) matches Ok(config) ==> config.spec_code()
                == value,
    {
    }
}

impl vstd::std_specs::convert::FromSpecImpl<AnalogTerminalConfig> for i32 {
    open spec fn obeys_from_spec() -> bool {
        true
    }

    open spec fn from_spec(config: AnalogTerminalConfig) -> i32 {
        config.spec_code()
    }
}

impl From<AnalogTerminalConfig> for i32 {
    fn from(config: AnalogTerminalConfig) -> (code: i32) {
        config.code()
    }
}

/// Reads the wiring of a channel from what its getter returned: `value` is
/// the code that it wrote, `return_code` its status and `buffer` the text
/// that `message_source` named for the status.
pub fn ai_terminal_config(return_code: i32, buffer: Vec<i8>, value: i32) -> (r: Result<
    AnalogTerminalConfig,
    DaqmxError,
>)
    requires
        return_code != 0 ==> is_text(buffer@),
    ensures
        crate::error::plain_view(r) == spec_ai_terminal_config(return_code, buffer@, value),
{
    match handle_error(return_code, buffer) {
        Ok(()) => AnalogTerminalConfig::try_from(value),
        Err(error) => Err(error),
    }
}

/// The wiring that a getter's answer stands for: the failure where the call
/// failed, and else what the code that it wrote means.
pub open spec fn spec_ai_terminal_config(return_code: i32, buffer: Seq<i8>, value: i32) -> Result<
    AnalogTerminalConfig,
    ErrorView,
> {
    if return_code < 0 {
        Err(ErrorView::Daqmx(return_code, message_text(buffer)))
    } else {
        AnalogTerminalConfig::spec_try_from(value)
    }
}

/// The unit in which a voltage channel reports.
#[derive(PartialEq, Eq, Debug)]
pub enum VoltageScale {
    /// Volts.
    Volts,
    /// A custom scale. Read back from the driver's unit code alone, the
    /// scale has no name yet and holds `None`; once its name is known it
    /// holds the name.
    CustomScale(Option<CName>),
    /// The unit that the sensor's data sheet names. It can be read back and
    /// not chosen.
    FromTEDS,
}

/// A scale, with its name as bytes.
pub enum VoltageScaleView {
    Volts,
    CustomScale(Option<Seq<u8>>),
    FromTEDS,
}

impl View for VoltageScale {
    type V = VoltageScaleView;

    open spec fn view(&self) -> VoltageScaleView {
        match *self {
            VoltageScale::Volts => VoltageScaleView::Volts,
            VoltageScale::CustomScale(None) => VoltageScaleView::CustomScale(None),
            VoltageScale::CustomScale(Some(name)) => VoltageScaleView::CustomScale(Some(name@)),
            VoltageScale::FromTEDS => VoltageScaleView::FromTEDS,
        }
    }
}

impl VoltageScaleView {
    /// The driver's unit code for the scale.
    pub open spec fn units(self) -> i32 {
        match self {
            VoltageScaleView::Volts => VAL_VOLTS,
            VoltageScaleView::CustomScale(_) => VAL_FROM_CUSTOM_SCALE,
            VoltageScaleView::FromTEDS => VAL_FROM_TEDS,
        }
    }

    /// The name by which the driver knows the scale: that of a custom scale
    /// whose name is known, and the empty name for any other.
    pub open spec fn custom_scale_name(self) -> Seq<u8> {
        match self {
            VoltageScaleView::CustomScale(Some(name)) => name,
            _ => Seq::empty(),
        }
    }
}

/// The scale that a unit code of the driver stands for. A custom scale has
/// no name yet. A number that is the code of none is an `UnexpectedValue`
/// that names this enumeration.
pub open spec fn spec_scale_try_from(value: i32) -> Result<VoltageScaleView, ErrorView> {
    if value == VAL_VOLTS {
        Ok(VoltageScaleView::Volts)
    } else if value == VAL_FROM_CUSTOM_SCALE {
        Ok(VoltageScaleView::CustomScale(None))
    } else if value == VAL_FROM_TEDS {
        Ok(VoltageScaleView::FromTEDS)
    } else {
        Err(ErrorView::Unexpected("VoltageScale"@, value))
    }
}

/// A result that holds a scale, with scale and error viewed.
pub open spec fn scale_view(r: Result<VoltageScale, DaqmxError>) -> Result<
    VoltageScaleView,
    ErrorView,
> {
    match r {
        Ok(scale) => Ok(scale@),
        Err(error) => Err(error@),
    }
}

impl Clone for VoltageScale {
    fn clone(&self) -> (scale: VoltageScale)
        ensures
            scale@ == self@,
    {
        match self {
            VoltageScale::Volts => VoltageScale::Volts,
            VoltageScale::CustomScale(None) => VoltageScale::CustomScale(None),
            VoltageScale::CustomScale(Some(name)) => VoltageScale::CustomScale(Some(name.clone())),
            VoltageScale::FromTEDS => VoltageScale::FromTEDS,
        }
    }
}

impl VoltageScale {
    /// The driver's unit code for the scale.
    pub fn units(&self) -> (code: i32)
        ensures
            code == self@.units(),
    {
        match self {
            VoltageScale::Volts => VAL_VOLTS,
            VoltageScale::CustomScale(_) => VAL_FROM_CUSTOM_SCALE,
            VoltageScale::FromTEDS => VAL_FROM_TEDS,
        }
    }

    /// The name by which the driver knows the scale: that of a custom scale
    /// whose name is known, and the empty name for any other.
    pub fn custom_scale_name(self) -> (name: CName)
        ensures
            name@ == self@.custom_scale_name(),
    {
        match self {
            VoltageScale::CustomScale(Some(name)) => name,
            _ => CName::empty(),
        }
    }

    /// Reads a unit code of the driver as a scale.
    pub fn try_from(value: i32) -> (r: Result<VoltageScale, DaqmxError>)
        ensures
            scale_view(r) == spec_scale_try_from(value),
    {
        if value == VAL_VOLTS {
            Ok(VoltageScale::Volts)
        } else if value == VAL_FROM_CUSTOM_SCALE {
            Ok(VoltageScale::CustomScale(None))
        } else if value == VAL_FROM_TEDS {
            Ok(VoltageScale::FromTEDS)
        } else {
            Err(DaqmxError::UnexpectedValue("VoltageScale".to_owned(), value))
        }
    }
}

/// The bits of 5 as a double.
pub const FIVE_BITS: u64 = 0x4014_0000_0000_0000;

/// The bits of -5 as a double.
pub const MINUS_FIVE_BITS: u64 = 0xC014_0000_0000_0000;

/// The description of a voltage input channel that is yet to be registered.
#[derive(Debug, PartialEq, Eq)]
pub struct VoltageChannelBuilder {
    /// The identifier of the physical channel.
    pub physical_channel: CName,
    /// The name of the channel, if it is to have one of its own.
    pub name: Option<CName>,
    /// The largest value that the channel is to measure.
    pub max: Double,
    /// The smallest value that the channel is to measure.
    pub min: Double,
    /// The unit in which the channel is to report.
    pub scale: VoltageScale,
    /// The wiring of the channel's terminals.
    pub terminal_config: AnalogTerminalConfig,
}

/// A builder, with its names as bytes.
pub struct VoltageChannelBuilderView {
    pub physical_channel: Seq<u8>,
    pub name: Option<Seq<u8>>,
    pub max: Double,
    pub min: Double,
    pub scale: VoltageScaleView,
    pub terminal_config: AnalogTerminalConfig,
}

impl View for VoltageChannelBuilder {
    type V = VoltageChannelBuilderView;

    open spec fn view(&self) -> VoltageChannelBuilderView {
        VoltageChannelBuilderView {
            physical_channel: self.physical_channel@,
            name: match self.name {
                Some(name) => Some(name@),
                None => None,
            },
            max: self.max,
            min: self.min,
            scale: self.scale@,
            terminal_config: self.terminal_config,
        }
    }
}

/// The arguments of the call that registers a voltage input channel with a
/// task.
#[derive(Debug, PartialEq, Eq)]
pub struct CreateAIVoltageChan {
    pub physical_channel: CName,
    pub name_to_assign_to_channel: CName,
    pub terminal_config: i32,
    pub min_val: Double,
    pub max_val: Double,
    pub units: i32,
    pub custom_scale_name: CName,
}

/// The arguments, with their names as bytes.
pub struct CreateAIVoltageChanView {
    pub physical_channel: Seq<u8>,
    pub name_to_assign_to_channel: Seq<u8>,
    pub terminal_config: i32,
    pub min_val: Double,
    pub max_val: Double,
    pub units: i32,
    pub custom_scale_name: Seq<u8>,
}

impl View for CreateAIVoltageChan {
    type V = CreateAIVoltageChanView;

    open spec fn view(&self) -> CreateAIVoltageChanView {
        CreateAIVoltageChanView {
            physical_channel: self.physical_channel@,
            name_to_assign_to_channel: self.name_to_assign_to_channel@,
            terminal_config: self.terminal_config,
            min_val: self.min_val,
            max_val: self.max_val,
            units: self.units,
            custom_scale_name: self.custom_scale_name@,
        }
    }
}

impl VoltageChannelBuilderView {
    /// The builder that `new` makes for a physical channel: no name, a range
    /// of -5 to 5, volts, and the default wiring.
    pub open spec fn initial(physical_channel: Seq<u8>) -> VoltageChannelBuilderView {
        VoltageChannelBuilderView {
            physical_channel,
            name: None,
            max: Double { bits: FIVE_BITS },
            min: Double { bits: MINUS_FIVE_BITS },
            scale: VoltageScaleView::Volts,
            terminal_config: AnalogTerminalConfig::Default,
        }
    }

    /// The arguments with which the builder registers its channel. A
    /// channel without a name is given the empty one, for which the driver
    /// takes the physical channel's.
    pub open spec fn request(self) -> CreateAIVoltageChanView {
        CreateAIVoltageChanView {
            physical_channel: self.physical_channel,
            name_to_assign_to_channel: match self.name {
                Some(name) => name,
                None => Seq::empty(),
            },
            terminal_config: self.terminal_config.spec_code(),
            min_val: self.min,
            max_val: self.max,
            units: self.scale.units(),
            custom_scale_name: self.scale.custom_scale_name(),
        }
    }
}

/// What registers a channel with a task. A builder is used up by the one
/// registration that it is for.
pub trait ChannelBuilder: Sized {
    /// The arguments of the call that registers the channel.
    type Request;

    /// Gives up the builder for the arguments of the call that registers
    /// its channel.
    fn add_to_task(self) -> Self::Request;
}

/// The builders of channels that a task for analog input takes.
pub trait AnalogInputChannelBuilder: ChannelBuilder {

}

impl VoltageChannelBuilder {
    /// Describes a voltage channel on the given physical channel, with a
    /// range of -5 to 5 volts, no name and the default wiring. The physical
    /// channel is refused only if it holds a null.
    pub fn new(physical_channel: &str) -> (r: Result<VoltageChannelBuilder, DaqmxError>)
        ensures
            r is Ok <==> !has_nul(encode_utf8(physical_channel@)),
            r is Ok ==> r->Ok_0@ == VoltageChannelBuilderView::initial(
                encode_utf8(physical_channel@),
            ),
            r is Err ==> r->Err_0@ == (ErrorView::CString {
                bytes: encode_utf8(physical_channel@),
                position: nul_position(encode_utf8(physical_channel@)),
            }),
    {
        match c_name(physical_channel) {
            Ok(physical_channel) => Ok(
                VoltageChannelBuilder {
                    physical_channel,
                    name: None,
                    max: Double { bits: FIVE_BITS },
                    min: Double { bits: MINUS_FIVE_BITS },
                    scale: VoltageScale::Volts,
                    terminal_config: AnalogTerminalConfig::Default,
                },
            ),
            Err(error) => Err(error),
        }
    }

    /// Names the channel. A name that holds a null is refused and leaves the
    /// builder as it was.
    pub fn name(&mut self, name: &str) -> (r: Result<&mut Self, DaqmxError>)
        ensures
            r is Ok <==> !has_nul(encode_utf8(name@)),
            r is Ok ==> (*r->Ok_0)@ == (VoltageChannelBuilderView {
                name: Some(encode_utf8(name@)),
                ..old(self)@
            }) && *final(self) == *final(r->Ok_0),
            r is Err ==> final(self)@ == old(self)@ && r->Err_0@ == (ErrorView::CString {
                bytes: encode_utf8(name@),
                position: nul_position(encode_utf8(name@)),
            }),
    {
        match c_name(name) {
            Ok(name) => {
                self.name = Some(name);
                Ok(self)
            },
            Err(error) => Err(error),
        }
    }
}

impl VoltageChannelBuilder {
    /// Sets the range that the channel is to measure. No range is refused.
    pub fn range(&mut self, min: Double, max: Double) -> (r: Result<&mut Self, DaqmxError>)
        ensures
            r is Ok,
            (*r->Ok_0)@ == (VoltageChannelBuilderView { min, max, ..old(self)@ }),
            *final(self) == *final(r->Ok_0),
    {
        self.min = min;
        self.max = max;
        Ok(self)
    }

    /// Sets the unit in which the channel is to report. No scale is refused.
    pub fn scale(&mut self, scale: VoltageScale) -> (r: Result<&mut Self, DaqmxError>)
        ensures
            r is Ok,
            (*r->Ok_0)@ == (VoltageChannelBuilderView { scale: scale@, ..old(self)@ }),
            *final(self) == *final(r->Ok_0),
    {
        self.scale = scale;
        Ok(self)
    }

    /// Sets the wiring of the channel's terminals. No wiring is refused.
    pub fn terminal_config(&mut self, terminal_config: AnalogTerminalConfig) -> (r: Result<
        &mut Self,
        DaqmxError,
    >)
        ensures
            r is Ok,
            (*r->Ok_0)@ == (VoltageChannelBuilderView { terminal_config, ..old(self)@ }),
            *final(self) == *final(r->Ok_0),
    {
        self.terminal_config = terminal_config;
        Ok(self)
    }
}

impl ChannelBuilder for VoltageChannelBuilder {
    type Request = CreateAIVoltageChan;

    fn add_to_task(self) -> (request: CreateAIVoltageChan)
        ensures
            request@ == self@.request(),
    {
        let units = self.scale.units();
        CreateAIVoltageChan {
            physical_channel: self.physical_channel,
            name_to_assign_to_channel: match self.name {
                Some(name) => name,
                None => CName::empty(),
            },
            terminal_config: self.terminal_config.code(),
            min_val: self.min,
            max_val: self.max,
            units,
            custom_scale_name: self.scale.custom_scale_name(),
        }
    }
}

impl AnalogInputChannelBuilder for VoltageChannelBuilder {

}

/// The scale that the name read back for a custom scale gives: the scale of
/// that name, unless the name holds a null.
pub open spec fn spec_named_scale(name: Seq<char>) -> Result<VoltageScaleView, ErrorView> {
    if has_nul(encode_utf8(name)) {
        Err(
            ErrorView::CString {
                bytes: encode_utf8(name),
                position: nul_position(encode_utf8(name)),
            },
        )
    } else {
        Ok(VoltageScaleView::CustomScale(Some(encode_utf8(name))))
    }
}

/// The custom scale of the name that was read back for it.
pub fn named_scale(name: String) -> (r: Result<VoltageScale, DaqmxError>)
    ensures
        scale_view(r) == spec_named_scale(name@),
{
    match c_name(name.as_str()) {
        Ok(name) => Ok(VoltageScale::CustomScale(Some(name))),
        Err(error) => Err(error),
    }
}

/// The state of the read of a channel's scale: the call that the shell must
/// make next, or the result. The unit code is read first. Where it stands
/// for a custom scale, the name of the scale is read after it, as a string
/// property.
#[derive(Debug, PartialEq, Eq)]
pub enum ScaleRead {
    /// Call the getter of the channel's unit.
    Units,
    /// Go on with the read of the custom scale's name.
    Name(StringRead),
    /// The read is over.
    Done(Result<VoltageScale, DaqmxError>),
}

/// What a call on behalf of a `ScaleRead` returned.
#[derive(Debug, PartialEq, Eq)]
pub enum ScaleReadEvent {
    /// The answer to `Units`: the getter's status, the text that
    /// `ScaleRead::message_source` named for it, and the code that the
    /// getter wrote.
    Units { return_code: i32, message: Vec<i8>, value: i32 },
    /// The answer to the call that the state within `Name` asked for.
    Name(StringReadEvent),
}

pub enum ScaleReadView {
    Units,
    Name(StringReadView),
    Done(Result<VoltageScaleView, ErrorView>),
}

pub enum ScaleReadEventView {
    Units { return_code: i32, message: Seq<i8>, value: i32 },
    Name(StringReadEventView),
}

impl View for ScaleRead {
    type V = ScaleReadView;

    open spec fn view(&self) -> ScaleReadView {
        match *self {
            ScaleRead::Units => ScaleReadView::Units,
            ScaleRead::Name(read) => ScaleReadView::Name(read@),
            ScaleRead::Done(result) => ScaleReadView::Done(scale_view(result)),
        }
    }
}

impl View for ScaleReadEvent {
    type V = ScaleReadEventView;

    open spec fn view(&self) -> ScaleReadEventView {
        match *self {
            ScaleReadEvent::Units { return_code, message, value } => ScaleReadEventView::Units {
                return_code,
                message: message@,
                value,
            },
            ScaleReadEvent::Name(event) => ScaleReadEventView::Name(event@),
        }
    }
}

/// What the answer of the unit's getter leads to: the end, with the failure
/// where the call failed or the code is none of a scale, and with the scale
/// where it needs no name; or the read of the name.
pub open spec fn spec_units_read(return_code: i32, message: Seq<i8>, value: i32) -> ScaleReadView {
    if return_code < 0 {
        ScaleReadView::Done(Err(ErrorView::Daqmx(return_code, message_text(message))))
    } else {
        match spec_scale_try_from(value) {
            Err(error) => ScaleReadView::Done(Err(error)),
            Ok(VoltageScaleView::CustomScale(_)) => ScaleReadView::Name(StringReadView::Probe),
            Ok(scale) => ScaleReadView::Done(Ok(scale)),
        }
    }
}

/// What a step of the name's read leads to: the end once the name's read
/// has ended, and else the next step of it.
pub open spec fn spec_name_read(read: StringReadView) -> ScaleReadView {
    match read {
        StringReadView::Done(Ok(name)) => ScaleReadView::Done(spec_named_scale(name)),
        StringReadView::Done(Err(error)) => ScaleReadView::Done(Err(error)),
        _ => ScaleReadView::Name(read),
    }
}

impl ScaleReadView {
    /// The text that belongs to the status of the call that this state asks
    /// for.
    pub open spec fn message_source(self, return_code: i32) -> MessageSource {
        match self {
            ScaleReadView::Units => spec_message_source(return_code),
            ScaleReadView::Name(read) => read.message_source(return_code),
            ScaleReadView::Done(_) => MessageSource::NoText,
        }
    }

    /// Whether `event` is the answer to the call that this state asks for.
    pub open spec fn answered_by(self, event: ScaleReadEventView) -> bool {
        match (self, event) {
            (ScaleReadView::Units, ScaleReadEventView::Units { .. }) => true,
            (ScaleReadView::Name(read), ScaleReadEventView::Name(event)) => read.answered_by(event),
            _ => false,
        }
    }

    /// Whether `event` carries a text wherever this state reads one.
    pub open spec fn can_read(self, event: ScaleReadEventView) -> bool {
        match (self, event) {
            (ScaleReadView::Units, ScaleReadEventView::Units { return_code, message, .. }) => {
                return_code != 0 ==> is_text(message)
            },
            (ScaleReadView::Name(read), ScaleReadEventView::Name(event)) => read.can_read(event),
            _ => true,
        }
    }

    /// The state after `event`. An event that does not answer the call that
    /// the state asks for changes nothing.
    pub open spec fn next(self, event: ScaleReadEventView) -> ScaleReadView {
        match (self, event) {
            (ScaleReadView::Units, ScaleReadEventView::Units { return_code, message, value }) => {
                spec_units_read(return_code, message, value)
            },
            (ScaleReadView::Name(read), ScaleReadEventView::Name(event)) => {
                if read.answered_by(event) {
                    spec_name_read(read.next(event))
                } else {
                    self
                }
            },
            _ => self,
        }
    }

    /// The number of calls that the state is from the end, at most.
    pub open spec fn calls_left(self) -> nat {
        match self {
            ScaleReadView::Units => 3,
            ScaleReadView::Name(read) => read.calls_left(),
            ScaleReadView::Done(_) => 0,
        }
    }
}

impl ScaleRead {
    /// The state in which every read begins.
    pub fn new() -> (state: ScaleRead)
        ensures
            state@ == ScaleReadView::Units,
    {
        ScaleRead::Units
    }

    /// Says which text to fetch for the status that the call returned which
    /// this state asks for.
    pub fn message_source(&self, return_code: i32) -> (source: MessageSource)
        ensures
            source == self@.message_source(return_code),
    {
        match self {
            ScaleRead::Units => message_source(return_code),
            ScaleRead::Name(read) => read.message_source(return_code),
            ScaleRead::Done(_) => MessageSource::NoText,
        }
    }

    /// Takes the read one step on, from what the call that the state asked
    /// for returned.
    pub fn next(self, event: ScaleReadEvent) -> (state: ScaleRead)
        requires
            self@.can_read(event@),
        ensures
            state@ == self@.next(event@),
    {
        match (self, event) {
            (ScaleRead::Units, ScaleReadEvent::Units { return_code, message, value }) => {
                match handle_error(return_code, message) {
                    Err(error) => ScaleRead::Done(Err(error)),
                    Ok(()) => match VoltageScale::try_from(value) {
                        Err(error) => ScaleRead::Done(Err(error)),
                        Ok(VoltageScale::CustomScale(_)) => ScaleRead::Name(StringRead::new()),
                        Ok(scale) => ScaleRead::Done(Ok(scale)),
                    },
                }
            },
            (ScaleRead::Name(read), ScaleReadEvent::Name(event)) => {
                if read.answers(&event) {
                    match read.next(event) {
                        StringRead::Done(Ok(name)) => ScaleRead::Done(named_scale(name)),
                        StringRead::Done(Err(error)) => ScaleRead::Done(Err(error)),
                        read => ScaleRead::Name(read),
                    }
                } else {
                    ScaleRead::Name(read)
                }
            },
            (state, _) => state,
        }
    }
}

impl ScaleReadView {
    /// Every answer takes the read nearer to its end, which is three calls
    /// from its beginning: no read goes on without limit.
    pub proof fn lemma_progress(self, event: ScaleReadEventView)
        requires
            self.answered_by(event),
        ensures
            self.next(event).calls_left() < self.calls_left() <= 3,
    {
    }

    /// A read that is over is answered by nothing, and an event that is no
    /// answer to a state leaves it as it is.
    pub proof fn lemma_no_answer_no_change(self, event: ScaleReadEventView)
        ensures
            self is Done ==> !self.answered_by(event),
            !self.answered_by(event) ==> self.next(event) == self,
    {
    }
}

/// The end of the read of a scale from a driver that holds `units` as the
/// channel's unit and `name` as the name of its custom scale, and changes
/// neither meanwhile.
pub open spec fn scale_read_of(units: i32, name: Seq<u8>) -> ScaleReadView {
    let read = ScaleReadView::Units.next(
        ScaleReadEventView::Units { return_code: 0, message: Seq::empty(), value: units },
    );
    match read {
        ScaleReadView::Name(_) => read.next(ScaleReadEventView::Name(probed(name))).next(
            ScaleReadEventView::Name(filled(name)),
        ),
        _ => read,
    }
}

/// A scale that needs no name is read back from a driver that holds its
/// unit code.
pub proof fn lemma_plain_scale_round_trip(scale: VoltageScaleView, name: Seq<u8>)
    requires
        scale is Volts || scale is FromTEDS,
    ensures
        scale_read_of(scale.units(), name) == ScaleReadView::Done(Ok(scale)),
{
}

/// A custom scale with a name is read back, name and all, from a driver
/// that holds the unit code and the name with which a builder registers it:
/// provided that the name is UTF-8, as the name of every scale is that was
/// registered through `LinearScale::request`.
pub proof fn lemma_custom_scale_round_trip(name: Seq<u8>)
    requires
        !has_nul(name),
        valid_utf8(name),
        name.len() < i32::MAX,
    ensures
        ({
            let scale = VoltageScaleView::CustomScale(Some(name));
            scale_read_of(scale.units(), scale.custom_scale_name()) == ScaleReadView::Done(
                Ok(scale),
            )
        }),
{
    lemma_read_of(name);
    decode_utf8_encode_utf8(name);
}

/// How a driver that keeps a channel as it was registered answers the read
/// of one of its properties of fixed size: with the value, and a status of
/// zero.
pub open spec fn kept<T>(value: T) -> Result<T, ErrorView> {
    spec_read_channel_property(0, Seq::empty(), value)
}

/// What a builder holds is what is read back from a driver that keeps the
/// channel as the builder's request registers it: the physical channel that
/// the builder was made for, the ends of the range, and the wiring.
pub proof fn lemma_channel_round_trip(physical_channel: Seq<char>, builder: VoltageChannelBuilderView)
    requires
        builder.physical_channel == encode_utf8(physical_channel),
        encode_utf8(physical_channel).len() < i32::MAX,
    ensures
        ({
            let request = builder.request();
            &&& read_of(request.physical_channel) == StringReadView::Done(Ok(physical_channel))
            &&& kept(request.max_val) == Ok::<Double, ErrorView>(builder.max)
            &&& kept(request.min_val) == Ok::<Double, ErrorView>(builder.min)
            &&& spec_ai_terminal_config(0, Seq::empty(), request.terminal_config) == Ok::<
                AnalogTerminalConfig,
                ErrorView,
            >(builder.terminal_config)
        }),
{
    lemma_read_of_text(physical_channel);
}

/// The name that a builder gives its channel is read back from a driver
/// that keeps it: a channel can be found again under the name that it was
/// registered with.
pub proof fn lemma_channel_name_round_trip(name: Seq<char>, builder: VoltageChannelBuilderView)
    requires
        builder.name == Some(encode_utf8(name)),
        encode_utf8(name).len() < i32::MAX,
    ensures
        read_of(builder.request().name_to_assign_to_channel) == StringReadView::Done(Ok(name)),
{
    lemma_read_of_text(name);
}

} // verus!
