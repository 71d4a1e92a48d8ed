//! Custom scales: a scale is registered with the driver under a name, and
//! channels then refer to it by that name.

use vstd::prelude::*;
use vstd::utf8::encode_utf8;
use crate::codes::{
    VAL_AMPS,
    VAL_BAR,
    VAL_DEGREES,
    VAL_DEG_C,
    VAL_DEG_F,
    VAL_DEG_R,
    VAL_FOOT_POUNDS,
    VAL_FROM_TEDS,
    VAL_G,
    VAL_HZ,
    VAL_INCHES,
    VAL_INCH_OUNCES,
    VAL_INCH_POUNDS,
    VAL_KELVINS,
    VAL_METERS,
    VAL_METERS_PER_SECOND_SQUARED,
    VAL_M_VOLTS_PER_VOLT,
    VAL_NEWTONS,
    VAL_NEWTON_METERS,
    VAL_OHMS,
    VAL_PASCALS,
    VAL_POUNDS,
    VAL_POUNDS_PER_SQUARE_INCH,
    VAL_RADIANS,
    VAL_SECONDS,
    VAL_STRAIN,
    VAL_VOLTS,
    VAL_VOLTS_PER_VOLT,
};
use crate::error::{c_name, handle_error, message_text, plain_view, DaqmxError, ErrorView};
use crate::strings::{has_nul, nul_position, CName};
use crate::types::{is_text, Double};

verus! {

/// The units in which the driver measures before a custom scale is applied.
#[derive(Clone, Copy, PartialEq, Eq, Debug, Structural)]
pub enum PreScaledUnits {
    Volts,
    Amps,
    DegreesFarenheit,
    DegreesCelcius,
    DegreesRankine,
    Kelvin,
    Strain,
    Ohms,
    Hertz,
    Seconds,
    Meters,
    Inches,
    Degrees,
    Radians,
    G,
    MetersPerSecondSquared,
    Newtons,
    Pounds,
    PSI,
    Bar,
    Pascals,
    VoltsPerVolt,
    MilliVoltsPerVolt,
    NewtonMeters,
    OunceInches,
    PoundInches,
    PoundFeet,
    FromTEDS,
}

impl PreScaledUnits {
    /// The driver's code for the unit.
    pub open spec fn spec_code(self) -> i32 {
        match self {
            PreScaledUnits::Volts => VAL_VOLTS,
            PreScaledUnits::Amps => VAL_AMPS,
            PreScaledUnits::DegreesFarenheit => VAL_DEG_F,
            PreScaledUnits::DegreesCelcius => VAL_DEG_C,
            PreScaledUnits::DegreesRankine => VAL_DEG_R,
            PreScaledUnits::Kelvin => VAL_KELVINS,
            PreScaledUnits::Strain => VAL_STRAIN,
            PreScaledUnits::Ohms => VAL_OHMS,
            PreScaledUnits::Hertz => VAL_HZ,
            PreScaledUnits::Seconds => VAL_SECONDS,
            PreScaledUnits::Meters => VAL_METERS,
            PreScaledUnits::Inches => VAL_INCHES,
            PreScaledUnits::Degrees => VAL_DEGREES,
            PreScaledUnits::Radians => VAL_RADIANS,
            PreScaledUnits::G => VAL_G,
            PreScaledUnits::MetersPerSecondSquared => VAL_METERS_PER_SECOND_SQUARED,
            PreScaledUnits::Newtons => VAL_NEWTONS,
            PreScaledUnits::Pounds => VAL_POUNDS,
            PreScaledUnits::PSI => VAL_POUNDS_PER_SQUARE_INCH,
            PreScaledUnits::Bar => VAL_BAR,
            PreScaledUnits::Pascals => VAL_PASCALS,
            PreScaledUnits::VoltsPerVolt => VAL_VOLTS_PER_VOLT,
            PreScaledUnits::MilliVoltsPerVolt => VAL_M_VOLTS_PER_VOLT,
            PreScaledUnits::NewtonMeters => VAL_NEWTON_METERS,
            PreScaledUnits::OunceInches => VAL_INCH_OUNCES,
            PreScaledUnits::PoundInches => VAL_INCH_POUNDS,
            PreScaledUnits::PoundFeet => VAL_FOOT_POUNDS,
            PreScaledUnits::FromTEDS => VAL_FROM_TEDS,
        }
    }

    /// The unit that a code of the driver stands for. A number that is the
    /// code of none is an `UnexpectedValue` under the name "DAQmx Units".
    pub open spec fn spec_try_from(value: i32) -> Result<PreScaledUnits, ErrorView> {
        if value == VAL_VOLTS {
            Ok(PreScaledUnits::Volts)
        } else if value == VAL_AMPS {
            Ok(PreScaledUnits::Amps)
        } else if value == VAL_DEG_F {
            Ok(PreScaledUnits::DegreesFarenheit)
        } else if value == VAL_DEG_C {
            Ok(PreScaledUnits::DegreesCelcius)
        } else if value == VAL_DEG_R {
            Ok(PreScaledUnits::DegreesRankine)
        } else if value == VAL_KELVINS {
            Ok(PreScaledUnits::Kelvin)
        } else if value == VAL_STRAIN {
            Ok(PreScaledUnits::Strain)
        } else if value == VAL_OHMS {
            Ok(PreScaledUnits::Ohms)
        } else if value == VAL_HZ {
            Ok(PreScaledUnits::Hertz)
        } else if value == VAL_SECONDS {
            Ok(PreScaledUnits::Seconds)
        } else if value == VAL_METERS {
            Ok(PreScaledUnits::Meters)
        } else if value == VAL_INCHES {
            Ok(PreScaledUnits::Inches)
        } else if value == VAL_DEGREES {
            Ok(PreScaledUnits::Degrees)
        } else if value == VAL_RADIANS {
            Ok(PreScaledUnits::Radians)
        } else if value == VAL_G {
            Ok(PreScaledUnits::G)
        } else if value == VAL_METERS_PER_SECOND_SQUARED {
            Ok(PreScaledUnits::MetersPerSecondSquared)
        } else if value == VAL_NEWTONS {
            Ok(PreScaledUnits::Newtons)
        } else if value == VAL_POUNDS {
            Ok(PreScaledUnits::Pounds)
        } else if value == VAL_POUNDS_PER_SQUARE_INCH {
            Ok(PreScaledUnits::PSI)
        } else if value == VAL_BAR {
            Ok(PreScaledUnits::Bar)
        } else if value == VAL_PASCALS {
            Ok(PreScaledUnits::Pascals)
        } else if value == VAL_VOLTS_PER_VOLT {
            Ok(PreScaledUnits::VoltsPerVolt)
        } else if value == VAL_M_VOLTS_PER_VOLT {
            Ok(PreScaledUnits::MilliVoltsPerVolt)
        } else if value == VAL_NEWTON_METERS {
            Ok(PreScaledUnits::NewtonMeters)
        } else if value == VAL_INCH_OUNCES {
            Ok(PreScaledUnits::OunceInches)
        } else if value == VAL_INCH_POUNDS {
            Ok(PreScaledUnits::PoundInches)
        } else if value == VAL_FOOT_POUNDS {
            Ok(PreScaledUnits::PoundFeet)
        } else if value == VAL_FROM_TEDS {
            Ok(PreScaledUnits::FromTEDS)
        } else {
            Err(ErrorView::Unexpected("DAQmx Units"@, value))
        }
    }

    /// The driver's code for the unit.
    pub fn code(self) -> (code: i32)
        ensures
            code == self.spec_code(),
    {
        match self {
            PreScaledUnits::Volts => VAL_VOLTS,
            PreScaledUnits::Amps => VAL_AMPS,
            PreScaledUnits::DegreesFarenheit => VAL_DEG_F,
            PreScaledUnits::DegreesCelcius => VAL_DEG_C,
            PreScaledUnits::DegreesRankine => VAL_DEG_R,
            PreScaledUnits::Kelvin => VAL_KELVINS,
            PreScaledUnits::Strain => VAL_STRAIN,
            PreScaledUnits::Ohms => VAL_OHMS,
            PreScaledUnits::Hertz => VAL_HZ,
            PreScaledUnits::Seconds => VAL_SECONDS,
            PreScaledUnits::Meters => VAL_METERS,
            PreScaledUnits::Inches => VAL_INCHES,
            PreScaledUnits::Degrees => VAL_DEGREES,
            PreScaledUnits::Radians => VAL_RADIANS,
            PreScaledUnits::G => VAL_G,
            PreScaledUnits::MetersPerSecondSquared => VAL_METERS_PER_SECOND_SQUARED,
            PreScaledUnits::Newtons => VAL_NEWTONS,
            PreScaledUnits::Pounds => VAL_POUNDS,
            PreScaledUnits::PSI => VAL_POUNDS_PER_SQUARE_INCH,
            PreScaledUnits::Bar => VAL_BAR,
            PreScaledUnits::Pascals => VAL_PASCALS,
            PreScaledUnits::VoltsPerVolt => VAL_VOLTS_PER_VOLT,
            PreScaledUnits::MilliVoltsPerVolt => VAL_M_VOLTS_PER_VOLT,
            PreScaledUnits::NewtonMeters => VAL_NEWTON_METERS,
            PreScaledUnits::OunceInches => VAL_INCH_OUNCES,
            PreScaledUnits::PoundInches => VAL_INCH_POUNDS,
            PreScaledUnits::PoundFeet => VAL_FOOT_POUNDS,
            PreScaledUnits::FromTEDS => VAL_FROM_TEDS,
        }
    }

    /// Reads a code of the driver as a unit.
    pub fn try_from(value: i32) -> (r: Result<PreScaledUnits, DaqmxError>)
        ensures
            plain_view(r) == PreScaledUnits::spec_try_from(value),
    {
        if value == VAL_VOLTS {
            Ok(PreScaledUnits::Volts)
        } else if value == VAL_AMPS {
            Ok(PreScaledUnits::Amps)
        } else if value == VAL_DEG_F {
            Ok(PreScaledUnits::DegreesFarenheit)
        } else if value == VAL_DEG_C {
            Ok(PreScaledUnits::DegreesCelcius)
        } else if value == VAL_DEG_R {
            Ok(PreScaledUnits::DegreesRankine)
        } else if value == VAL_KELVINS {
            Ok(PreScaledUnits::Kelvin)
        } else if value == VAL_STRAIN {
            Ok(PreScaledUnits::Strain)
        } else if value == VAL_OHMS {
            Ok(PreScaledUnits::Ohms)
        } else if value == VAL_HZ {
            Ok(PreScaledUnits::Hertz)
        } else if value == VAL_SECONDS {
            Ok(PreScaledUnits::Seconds)
        } else if value == VAL_METERS {
            Ok(PreScaledUnits::Meters)
        } else if value == VAL_INCHES {
            Ok(PreScaledUnits::Inches)
        } else if value == VAL_DEGREES {
            Ok(PreScaledUnits::Degrees)
        } else if value == VAL_RADIANS {
            Ok(PreScaledUnits::Radians)
        } else if value == VAL_G {
            Ok(PreScaledUnits::G)
        } else if value == VAL_METERS_PER_SECOND_SQUARED {
            Ok(PreScaledUnits::MetersPerSecondSquared)
        } else if value == VAL_NEWTONS {
            Ok(PreScaledUnits::Newtons)
        } else if value == VAL_POUNDS {
            Ok(PreScaledUnits::Pounds)
        } else if value == VAL_POUNDS_PER_SQUARE_INCH {
            Ok(PreScaledUnits::PSI)
        } else if value == VAL_BAR {
            Ok(PreScaledUnits::Bar)
        } else if value == VAL_PASCALS {
            Ok(PreScaledUnits::Pascals)
        } else if value == VAL_VOLTS_PER_VOLT {
            Ok(PreScaledUnits::VoltsPerVolt)
        } else if value == VAL_M_VOLTS_PER_VOLT {
            Ok(PreScaledUnits::MilliVoltsPerVolt)
        } else if value == VAL_NEWTON_METERS {
            Ok(PreScaledUnits::NewtonMeters)
        } else if value == VAL_INCH_OUNCES {
            Ok(PreScaledUnits::OunceInches)
        } else if value == VAL_INCH_POUNDS {
            Ok(PreScaledUnits::PoundInches)
        } else if value == VAL_FOOT_POUNDS {
            Ok(PreScaledUnits::PoundFeet)
        } else if value == VAL_FROM_TEDS {
            Ok(PreScaledUnits::FromTEDS)
        } else {
            Err(DaqmxError::UnexpectedValue("DAQmx Units".to_owned(), value))
        }
    }

    /// Every unit is read back from its code.
    pub proof fn lemma_code_round_trip(self)
        ensures
            PreScaledUnits::spec_try_from(self.spec_code()) == Ok::<PreScaledUnits, ErrorView>(
                self,
            ),
    {
    }

    /// A number is read as a unit only if it is the code of that unit.
    pub proof fn lemma_try_from_is_code(value: i32)
        ensures
            PreScaledUnits::spec_try_from(value) matches Ok(unit) ==> unit.spec_code() == value,
    {
    }
}

impl vstd::std_specs::convert::FromSpecImpl<PreScaledUnits> for i32 {
    open spec fn obeys_from_spec() -> bool {
        true
    }

    open spec fn from_spec(unit: PreScaledUnits) -> i32 {
        unit.spec_code()
    }
}

impl From<PreScaledUnits> for i32 {
    fn from(unit: PreScaledUnits) -> (code: i32) {
        unit.code()
    }
}

/// What every custom scale has: the name under which it is registered.
#[derive(Debug, PartialEq, Eq)]
pub struct CustomScale {
    name: CName,
}

impl CustomScale {
    /// The bytes of the name under which the scale is registered.
    pub closed spec fn spec_name(&self) -> Seq<u8> {
        self.name@
    }

    fn new(name: CName) -> (scale: CustomScale)
        ensures
            scale.spec_name() == name@,
    {
        CustomScale { name }
    }

    /// The name under which the scale is registered.
    pub fn name(&self) -> (name: &CName)
        ensures
            name@ == self.spec_name(),
    {
        &self.name
    }
}

/// The arguments of the call that registers a linear scale.
#[derive(Debug, PartialEq, Eq)]
pub struct CreateLinScale {
    pub name: CName,
    pub slope: Double,
    pub y_intercept: Double,
    pub pre_scaled_units: i32,
    pub scaled_units: CName,
}

/// The arguments, with their strings as bytes.
pub struct CreateLinScaleView {
    pub name: Seq<u8>,
    pub slope: Double,
    pub y_intercept: Double,
    pub pre_scaled_units: i32,
    pub scaled_units: Seq<u8>,
}

impl View for CreateLinScale {
    type V = CreateLinScaleView;

    open spec fn view(&self) -> CreateLinScaleView {
        CreateLinScaleView {
            name: self.name@,
            slope: self.slope,
            y_intercept: self.y_intercept,
            pre_scaled_units: self.pre_scaled_units,
            scaled_units: self.scaled_units@,
        }
    }
}

/// A result that holds the arguments, with arguments and error viewed.
pub open spec fn request_view(r: Result<CreateLinScale, DaqmxError>) -> Result<
    CreateLinScaleView,
    ErrorView,
> {
    match r {
        Ok(request) => Ok(request@),
        Err(error) => Err(error@),
    }
}

/// The arguments that register a linear scale, or why there are none: the
/// name is looked at first, the scaled unit after it, and either is refused
/// if it holds a null.
pub open spec fn spec_request(
    name: Seq<char>,
    slope: Double,
    y_intercept: Double,
    pre_scaled_units: PreScaledUnits,
    scaled_units: Seq<char>,
) -> Result<CreateLinScaleView, ErrorView> {
    if has_nul(encode_utf8(name)) {
        Err(
            ErrorView::CString {
                bytes: encode_utf8(name),
                position: nul_position(encode_utf8(name)),
            },
        )
    } else if has_nul(encode_utf8(scaled_units)) {
        Err(
            ErrorView::CString {
                bytes: encode_utf8(scaled_units),
                position: nul_position(encode_utf8(scaled_units)),
            },
        )
    } else {
        Ok(
            CreateLinScaleView {
                name: encode_utf8(name),
                slope,
                y_intercept,
                pre_scaled_units: pre_scaled_units.spec_code(),
                scaled_units: encode_utf8(scaled_units),
            },
        )
    }
}

/// A linear scale that is registered with the driver: it maps what is
/// measured, `x`, to `slope * x + y_intercept`.
#[derive(Debug, PartialEq, Eq)]
pub struct LinearScale {
    inner: CustomScale,
}

/// A result that holds a scale, as the name of the scale and the error
/// viewed.
pub open spec fn registered_view(r: Result<LinearScale, DaqmxError>) -> Result<Seq<u8>, ErrorView> {
    match r {
        Ok(scale) => Ok(scale.spec_name()),
        Err(error) => Err(error@),
    }
}

impl LinearScale {
    /// The bytes of the name under which the scale is registered.
    pub closed spec fn spec_name(&self) -> Seq<u8> {
        self.inner.spec_name()
    }

    /// Prepares the call that registers a linear scale under `name`.
    pub fn request(
        name: &str,
        slope: Double,
        y_intercept: Double,
        pre_scaled_units: PreScaledUnits,
        scaled_units: &str,
    ) -> (r: Result<CreateLinScale, DaqmxError>)
        ensures
            request_view(r) == spec_request(
                name@,
                slope,
                y_intercept,
                pre_scaled_units,
                scaled_units@,
            ),
    {
        let name = match c_name(name) {
            Ok(name) => name,
            Err(error) => {
                return Err(error);
            },
        };
        let scaled_units = match c_name(scaled_units) {
            Ok(scaled_units) => scaled_units,
            Err(error) => {
                return Err(error);
            },
        };
        Ok(
            CreateLinScale {
                name,
                slope,
                y_intercept,
                pre_scaled_units: pre_scaled_units.code(),
                scaled_units,
            },
        )
    }

    /// The scale that the call made with `request` registered, unless the
    /// call failed: `return_code` is its status and `buffer` the text that
    /// `message_source` named for the status.
    pub fn new(request: CreateLinScale, return_code: i32, buffer: Vec<i8>) -> (r: Result<
        LinearScale,
        DaqmxError,
    >)
        requires
            return_code != 0 ==> is_text(buffer@),
        ensures
            registered_view(r) == if return_code < 0 {
                Err::<Seq<u8>, ErrorView>(ErrorView::Daqmx(return_code, message_text(buffer@)))
            } else {
                Ok::<Seq<u8>, ErrorView>(request.name@)
            },
    {
        match handle_error(return_code, buffer) {
            Ok(()) => Ok(LinearScale { inner: CustomScale::new(request.name) }),
            Err(error) => Err(error),
        }
    }

    /// The name under which the scale is registered, by which a channel
    /// refers to it.
    pub fn name(&self) -> (name: &CName)
        ensures
            name@ == self.spec_name(),
    {
        self.inner.name()
    }
}

} // verus!
