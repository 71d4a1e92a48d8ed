use daqmx::codes;
use daqmx::error::DaqmxError;
use daqmx::scales::{LinearScale, PreScaledUnits};
use daqmx::types::Double;

fn c_chars(text: &str) -> Vec<i8> {
    let mut buffer: Vec<i8> = text.bytes().map(|b| b as i8).collect();
    buffer.resize(2048, 0);
    buffer
}

fn double(value: f64) -> Double {
    Double::from_bits(value.to_bits())
}

#[test]
fn test_unit_from_i32() {
    assert_eq!(
        PreScaledUnits::Volts,
        PreScaledUnits::try_from(codes::VAL_VOLTS).unwrap()
    );
}

#[test]
fn test_unit_to_i32() {
    assert_eq!(i32::from(PreScaledUnits::Volts), codes::VAL_VOLTS);
    assert_eq!(PreScaledUnits::Volts.code(), 10348);
}

#[test]
fn test_error_invalid_unit() {
    assert!(PreScaledUnits::try_from(0).is_err())
}

#[test]
fn invalid_unit_is_an_unexpected_value() {
    assert_eq!(
        PreScaledUnits::try_from(0),
        Err(DaqmxError::UnexpectedValue("DAQmx Units".to_string(), 0))
    );
    assert_eq!(
        PreScaledUnits::try_from(10065),
        Err(DaqmxError::UnexpectedValue("DAQmx Units".to_string(), 10065))
    );
}

#[test]
fn every_unit_has_the_drivers_code_and_is_read_back_from_it() {
    let units = [
        (PreScaledUnits::Volts, 10348),
        (PreScaledUnits::Amps, 10342),
        (PreScaledUnits::DegreesFarenheit, 10144),
        (PreScaledUnits::DegreesCelcius, 10143),
        (PreScaledUnits::DegreesRankine, 10145),
        (PreScaledUnits::Kelvin, 10325),
        (PreScaledUnits::Strain, 10299),
        (PreScaledUnits::Ohms, 10384),
        (PreScaledUnits::Hertz, 10373),
        (PreScaledUnits::Seconds, 10364),
        (PreScaledUnits::Meters, 10219),
        (PreScaledUnits::Inches, 10379),
        (PreScaledUnits::Degrees, 10146),
        (PreScaledUnits::Radians, 10273),
        (PreScaledUnits::G, 10186),
        (PreScaledUnits::MetersPerSecondSquared, 12470),
        (PreScaledUnits::Newtons, 15875),
        (PreScaledUnits::Pounds, 15876),
        (PreScaledUnits::PSI, 15879),
        (PreScaledUnits::Bar, 15880),
        (PreScaledUnits::Pascals, 10081),
        (PreScaledUnits::VoltsPerVolt, 15896),
        (PreScaledUnits::MilliVoltsPerVolt, 15897),
        (PreScaledUnits::NewtonMeters, 15881),
        (PreScaledUnits::OunceInches, 15882),
        (PreScaledUnits::PoundInches, 15883),
        (PreScaledUnits::PoundFeet, 15884),
        (PreScaledUnits::FromTEDS, 12516),
    ];
    for (unit, code) in units {
        assert_eq!(unit.code(), code);
        assert_eq!(i32::from(unit), code);
        assert_eq!(PreScaledUnits::try_from(code), Ok(unit));
    }
}

#[test]
fn linear_scale_request_carries_its_arguments() {
    let request =
        LinearScale::request("TestScale", double(1.0), double(0.0), PreScaledUnits::Volts, "test")
            .unwrap();
    assert_eq!(request.name.as_bytes().as_slice(), "TestScale".as_bytes());
    assert_eq!(f64::from_bits(request.slope.to_bits()), 1.0);
    assert_eq!(f64::from_bits(request.y_intercept.to_bits()), 0.0);
    assert_eq!(request.pre_scaled_units, 10348);
    assert_eq!(request.scaled_units.as_bytes().as_slice(), "test".as_bytes());
}

#[test]
fn linear_scale_request_refuses_a_null_in_the_name_first() {
    match LinearScale::request("Te\0st", double(2.0), double(1.0), PreScaledUnits::Amps, "te\0st") {
        Err(DaqmxError::CStringError(error)) => {
            assert_eq!(error.nul_position(), 2);
            assert_eq!(error.into_vec(), "Te\0st".as_bytes().to_vec());
        }
        other => panic!("expected a CStringError, got {:?}", other),
    }
}

#[test]
fn linear_scale_request_refuses_a_null_in_the_scaled_units() {
    match LinearScale::request("Test", double(2.0), double(1.0), PreScaledUnits::Amps, "\0") {
        Err(DaqmxError::CStringError(error)) => {
            assert_eq!(error.nul_position(), 0);
            assert_eq!(error.into_vec(), vec![0u8]);
        }
        other => panic!("expected a CStringError, got {:?}", other),
    }
}

#[test]
fn linear_scale_is_registered_by_a_call_that_did_not_fail() {
    let request =
        LinearScale::request("TestScale", double(1.0), double(0.0), PreScaledUnits::Volts, "test")
            .unwrap();
    let scale = LinearScale::new(request, 0, vec![]).unwrap();
    assert_eq!(scale.name().as_bytes().as_slice(), "TestScale".as_bytes());

    let request =
        LinearScale::request("Warned", double(1.0), double(0.0), PreScaledUnits::Volts, "test")
            .unwrap();
    let scale = LinearScale::new(request, 200010, c_chars("a remark")).unwrap();
    assert_eq!(scale.name().as_bytes().as_slice(), "Warned".as_bytes());
}

#[test]
fn linear_scale_is_not_registered_by_a_call_that_failed() {
    let request =
        LinearScale::request("TestScale", double(1.0), double(0.0), PreScaledUnits::Volts, "test")
            .unwrap();
    assert_eq!(
        LinearScale::new(request, -200489, c_chars("Specified name is already in use")),
        Err(DaqmxError::DaqmxError(
            -200489,
            "Specified name is already in use".to_string()
        ))
    );
}
