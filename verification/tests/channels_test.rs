use daqmx::channels::{
    ai_terminal_config, probe_message_source, read_channel_property, required_size,
    string_from_buffer, AnalogTerminalConfig, ChannelBuilder, ScaleRead, ScaleReadEvent,
    StringRead, StringReadEvent, VoltageChannelBuilder, VoltageScale,
};
use daqmx::channels::ai_channels::named_scale;
use daqmx::codes;
use daqmx::error::{DaqmxError, MessageSource};
use daqmx::strings::CName;
use daqmx::types::Double;

fn c_chars(text: &str) -> Vec<i8> {
    let mut buffer: Vec<i8> = text.bytes().map(|b| b as i8).collect();
    buffer.resize(2048, 0);
    buffer
}

fn double(value: f64) -> Double {
    Double::from_bits(value.to_bits())
}

fn with_null(text: &str) -> Vec<u8> {
    let mut buffer = text.as_bytes().to_vec();
    buffer.push(0);
    buffer
}

fn probed(return_value: i32) -> StringReadEvent {
    StringReadEvent::Probed { return_value, message: vec![] }
}

fn filled(return_code: i32, buffer: Vec<u8>) -> StringReadEvent {
    StringReadEvent::Filled { return_code, message: vec![], buffer }
}

#[test]
fn terminal_config_has_the_drivers_codes() {
    let configs = [
        (AnalogTerminalConfig::Default, -1),
        (AnalogTerminalConfig::RSE, 10083),
        (AnalogTerminalConfig::NRSE, 10078),
        (AnalogTerminalConfig::Differential, 10106),
        (AnalogTerminalConfig::PseudoDifferential, 12529),
    ];
    for (config, code) in configs {
        assert_eq!(config.code(), code);
        assert_eq!(i32::from(config), code);
        assert_eq!(AnalogTerminalConfig::try_from(code), Ok(config));
    }
}

#[test]
fn terminal_config_default_is_default() {
    assert_eq!(AnalogTerminalConfig::default(), AnalogTerminalConfig::Default);
}

#[test]
fn terminal_config_of_an_unknown_code_is_an_unexpected_value() {
    for value in [0, 1, -2, 10084, i32::MIN, i32::MAX] {
        assert_eq!(
            AnalogTerminalConfig::try_from(value),
            Err(DaqmxError::UnexpectedValue("AnalogTerminalConfig".to_string(), value))
        );
    }
}

#[test]
fn ai_terminal_config_reads_the_code_unless_the_call_failed() {
    assert_eq!(ai_terminal_config(0, vec![], 10083), Ok(AnalogTerminalConfig::RSE));
    assert_eq!(
        ai_terminal_config(200010, c_chars("a remark"), 10106),
        Ok(AnalogTerminalConfig::Differential)
    );
    assert_eq!(
        ai_terminal_config(0, vec![], 5),
        Err(DaqmxError::UnexpectedValue("AnalogTerminalConfig".to_string(), 5))
    );
    assert_eq!(
        ai_terminal_config(-200170, c_chars("Physical channel specified does not exist"), 10083),
        Err(DaqmxError::DaqmxError(
            -200170,
            "Physical channel specified does not exist".to_string()
        ))
    );
}

#[test]
fn voltage_scale_has_the_drivers_unit_codes() {
    assert_eq!(VoltageScale::Volts.units(), 10348);
    assert_eq!(VoltageScale::CustomScale(None).units(), 10065);
    assert_eq!(
        VoltageScale::CustomScale(Some(CName::from_text("TestScale").unwrap())).units(),
        10065
    );
    assert_eq!(VoltageScale::FromTEDS.units(), 12516);
    assert_eq!(VoltageScale::Volts.units(), codes::VAL_VOLTS);
    assert_eq!(VoltageScale::CustomScale(None).units(), codes::VAL_FROM_CUSTOM_SCALE);
    assert_eq!(VoltageScale::FromTEDS.units(), codes::VAL_FROM_TEDS);
}

#[test]
fn voltage_scale_names_only_a_named_custom_scale() {
    assert_eq!(VoltageScale::Volts.custom_scale_name(), CName::empty());
    assert_eq!(VoltageScale::FromTEDS.custom_scale_name(), CName::empty());
    assert_eq!(VoltageScale::CustomScale(None).custom_scale_name(), CName::empty());
    assert_eq!(
        VoltageScale::CustomScale(Some(CName::from_text("TestScale").unwrap()))
            .custom_scale_name(),
        CName::from_text("TestScale").unwrap()
    );
}

#[test]
fn voltage_scale_is_read_from_a_unit_code() {
    assert_eq!(VoltageScale::try_from(10348), Ok(VoltageScale::Volts));
    assert_eq!(VoltageScale::try_from(10065), Ok(VoltageScale::CustomScale(None)));
    assert_eq!(VoltageScale::try_from(12516), Ok(VoltageScale::FromTEDS));
    assert_eq!(
        VoltageScale::try_from(10342),
        Err(DaqmxError::UnexpectedValue("VoltageScale".to_string(), 10342))
    );
    assert_eq!(
        VoltageScale::try_from(0),
        Err(DaqmxError::UnexpectedValue("VoltageScale".to_string(), 0))
    );
}

#[test]
fn voltage_scale_clone_is_equal() {
    let scales = [
        VoltageScale::Volts,
        VoltageScale::FromTEDS,
        VoltageScale::CustomScale(None),
        VoltageScale::CustomScale(Some(CName::from_text("TestScale").unwrap())),
    ];
    for scale in scales {
        assert_eq!(scale.clone(), scale);
    }
}

#[test]
fn builder_starts_with_the_defaults() {
    let builder = VoltageChannelBuilder::new("PXI1Slot2/ai0").unwrap();
    assert_eq!(builder.physical_channel.as_bytes().as_slice(), "PXI1Slot2/ai0".as_bytes());
    assert_eq!(builder.name, None);
    assert_eq!(f64::from_bits(builder.max.to_bits()), 5.0);
    assert_eq!(f64::from_bits(builder.min.to_bits()), -5.0);
    assert_eq!(builder.scale, VoltageScale::Volts);
    assert_eq!(builder.terminal_config, AnalogTerminalConfig::Default);
}

#[test]
fn builder_refuses_a_physical_channel_with_a_null() {
    match VoltageChannelBuilder::new("PXI1\0Slot2/ai0") {
        Err(DaqmxError::CStringError(error)) => {
            assert_eq!(error.nul_position(), 4);
            assert_eq!(error.into_vec(), "PXI1\0Slot2/ai0".as_bytes().to_vec());
        }
        other => panic!("expected a CStringError, got {:?}", other),
    }
}

#[test]
fn builder_takes_an_empty_physical_channel() {
    let builder = VoltageChannelBuilder::new("").unwrap();
    assert_eq!(builder.physical_channel, CName::empty());
}

#[test]
fn builder_name_sets_the_name_and_hands_the_builder_back() {
    let mut builder = VoltageChannelBuilder::new("PXI1Slot2/ai1").unwrap();
    builder.name("my name").unwrap().max = double(2.0);
    assert_eq!(builder.name, Some(CName::from_text("my name").unwrap()));
    assert_eq!(f64::from_bits(builder.max.to_bits()), 2.0);
    builder.name("other").unwrap();
    assert_eq!(builder.name, Some(CName::from_text("other").unwrap()));
}

#[test]
fn builder_name_with_a_null_changes_nothing() {
    let mut builder = VoltageChannelBuilder::new("PXI1Slot2/ai1").unwrap();
    builder.name("kept").unwrap();
    match builder.name("my\0name") {
        Err(DaqmxError::CStringError(error)) => assert_eq!(error.nul_position(), 2),
        other => panic!("expected a CStringError, got {:?}", other.map(|_| ())),
    }
    assert_eq!(builder.name, Some(CName::from_text("kept").unwrap()));
    assert_eq!(builder.physical_channel, CName::from_text("PXI1Slot2/ai1").unwrap());
}

#[test]
fn builder_request_of_the_defaults() {
    let request = VoltageChannelBuilder::new("PXI1Slot2/ai0").unwrap().add_to_task();
    assert_eq!(request.physical_channel, CName::from_text("PXI1Slot2/ai0").unwrap());
    assert_eq!(request.name_to_assign_to_channel, CName::empty());
    assert_eq!(request.terminal_config, -1);
    assert_eq!(f64::from_bits(request.min_val.to_bits()), -5.0);
    assert_eq!(f64::from_bits(request.max_val.to_bits()), 5.0);
    assert_eq!(request.units, 10348);
    assert_eq!(request.custom_scale_name, CName::empty());
}

#[test]
fn builder_request_of_a_custom_scale() {
    let mut builder = VoltageChannelBuilder::new("PXI1Slot2/ai1").unwrap();
    builder.name("my name").unwrap();
    builder.scale = VoltageScale::CustomScale(Some(CName::from_text("TestScale").unwrap()));
    builder.max = double(10.0);
    builder.min = double(-10.0);
    builder.terminal_config = AnalogTerminalConfig::RSE;
    let request = builder.add_to_task();
    assert_eq!(request.physical_channel, CName::from_text("PXI1Slot2/ai1").unwrap());
    assert_eq!(request.name_to_assign_to_channel, CName::from_text("my name").unwrap());
    assert_eq!(request.terminal_config, 10083);
    assert_eq!(f64::from_bits(request.min_val.to_bits()), -10.0);
    assert_eq!(f64::from_bits(request.max_val.to_bits()), 10.0);
    assert_eq!(request.units, 10065);
    assert_eq!(request.custom_scale_name, CName::from_text("TestScale").unwrap());
}

#[test]
fn builder_request_of_an_unnamed_custom_scale_and_of_teds() {
    let mut builder = VoltageChannelBuilder::new("Dev1/ai0").unwrap();
    builder.scale = VoltageScale::CustomScale(None);
    let request = builder.add_to_task();
    assert_eq!(request.units, 10065);
    assert_eq!(request.custom_scale_name, CName::empty());

    let mut builder = VoltageChannelBuilder::new("Dev1/ai0").unwrap();
    builder.scale = VoltageScale::FromTEDS;
    let request = builder.add_to_task();
    assert_eq!(request.units, 12516);
    assert_eq!(request.custom_scale_name, CName::empty());
}

#[test]
fn read_channel_property_gives_the_value_unless_the_call_failed() {
    assert_eq!(read_channel_property(0, vec![], 10.0f64), Ok(10.0));
    assert_eq!(read_channel_property(0, vec![], -7i32), Ok(-7));
    assert_eq!(read_channel_property(200010, c_chars("a remark"), 3u32), Ok(3));
    assert_eq!(
        read_channel_property(-200170, c_chars("No such channel"), 10.0f64),
        Err(DaqmxError::DaqmxError(-200170, "No such channel".to_string()))
    );
}

#[test]
fn probe_message_source_asks_only_for_a_failure() {
    assert_eq!(probe_message_source(0), MessageSource::NoText);
    assert_eq!(probe_message_source(14), MessageSource::NoText);
    assert_eq!(probe_message_source(i32::MAX), MessageSource::NoText);
    assert_eq!(probe_message_source(-1), MessageSource::ExtendedErrorInfo);
}

#[test]
fn required_size_is_the_value_unless_negative() {
    assert_eq!(required_size(0, vec![]), Ok(0));
    assert_eq!(required_size(14, vec![]), Ok(14));
    assert_eq!(required_size(i32::MAX, vec![]), Ok(i32::MAX as u32));
    assert_eq!(
        required_size(-200170, c_chars("No such channel")),
        Err(DaqmxError::DaqmxError(-200170, "No such channel".to_string()))
    );
}

#[test]
fn string_from_buffer_drops_the_last_byte() {
    assert_eq!(string_from_buffer(with_null("PXI1Slot2/ai1")), Ok("PXI1Slot2/ai1".to_string()));
    assert_eq!(string_from_buffer(vec![0]), Ok(String::new()));
    assert_eq!(string_from_buffer(vec![]), Ok(String::new()));
    // The last byte goes whatever it is, and a null further in front stays.
    assert_eq!(string_from_buffer(vec![97, 98, 99]), Ok("ab".to_string()));
    assert_eq!(string_from_buffer(vec![97, 0, 98, 0]), Ok("a\0b".to_string()));
}

#[test]
fn string_from_buffer_refuses_bytes_that_are_no_utf8() {
    assert!(matches!(string_from_buffer(vec![0xFF, 0]), Err(DaqmxError::Utf8Error(_))));
    assert!(matches!(string_from_buffer(vec![0xC3, 0]), Err(DaqmxError::Utf8Error(_))));
    // 0xC3 0xA9 is one character; cut in the middle it is none.
    assert_eq!(string_from_buffer(vec![0xC3, 0xA9, 0]), Ok("\u{e9}".to_string()));
    assert!(matches!(string_from_buffer(vec![0xC3, 0xA9]), Err(DaqmxError::Utf8Error(_))));
}

#[test]
fn string_read_runs_in_two_calls() {
    let state = StringRead::new();
    assert_eq!(state, StringRead::Probe);
    assert_eq!(state.message_source(14), MessageSource::NoText);
    let state = state.next(probed(14));
    assert_eq!(state, StringRead::Fill { buffer_size: 14 });
    assert_eq!(state.message_source(0), MessageSource::NoText);
    let state = state.next(filled(0, with_null("PXI1Slot2/ai1")));
    assert_eq!(state, StringRead::Done(Ok("PXI1Slot2/ai1".to_string())));
    assert_eq!(state.message_source(-1), MessageSource::NoText);
}

#[test]
fn string_read_fails_on_a_negative_probe() {
    let state = StringRead::new();
    assert_eq!(state.message_source(-200170), MessageSource::ExtendedErrorInfo);
    let state = state.next(StringReadEvent::Probed {
        return_value: -200170,
        message: c_chars("No such channel"),
    });
    assert_eq!(
        state,
        StringRead::Done(Err(DaqmxError::DaqmxError(-200170, "No such channel".to_string())))
    );
}

#[test]
fn string_read_reports_a_length_that_changed() {
    for code in [codes::ERROR_BUFFER_TOO_SMALL_FOR_STRING, codes::WARNING_STRING_TRUNCATED_TO_FIT_BUFFER]
    {
        let state = StringRead::Fill { buffer_size: 3 };
        assert_eq!(state.message_source(code), MessageSource::NoText);
        let state = state.next(filled(code, vec![97, 98, 0]));
        assert_eq!(state, StringRead::Done(Err(DaqmxError::StringPropertyLengthChanged)));
    }
}

#[test]
fn string_read_fails_on_a_failed_fill() {
    let state = StringRead::Fill { buffer_size: 3 };
    assert_eq!(state.message_source(-200088), MessageSource::ExtendedErrorInfo);
    let state = state.next(StringReadEvent::Filled {
        return_code: -200088,
        message: c_chars("Task specified is invalid"),
        buffer: vec![0, 0, 0],
    });
    assert_eq!(
        state,
        StringRead::Done(Err(DaqmxError::DaqmxError(
            -200088,
            "Task specified is invalid".to_string()
        )))
    );
}

#[test]
fn string_read_passes_another_warning_on_the_fill() {
    let state = StringRead::Fill { buffer_size: 3 };
    assert_eq!(state.message_source(200010), MessageSource::NoText);
    let state = state.next(filled(200010, vec![97, 98, 0]));
    assert_eq!(state, StringRead::Done(Ok("ab".to_string())));
}

#[test]
fn string_read_refuses_bytes_that_are_no_utf8() {
    let state = StringRead::Fill { buffer_size: 2 }.next(filled(0, vec![0xFF, 0]));
    assert!(matches!(state, StringRead::Done(Err(DaqmxError::Utf8Error(_)))));
}

#[test]
fn string_read_ignores_what_is_no_answer() {
    assert!(StringRead::Probe.answers(&probed(1)));
    assert!(!StringRead::Probe.answers(&filled(0, vec![])));
    assert!(StringRead::Fill { buffer_size: 1 }.answers(&filled(0, vec![])));
    assert!(!StringRead::Fill { buffer_size: 1 }.answers(&probed(1)));
    assert!(!StringRead::Done(Ok(String::new())).answers(&probed(1)));
    assert!(!StringRead::Done(Ok(String::new())).answers(&filled(0, vec![])));

    assert_eq!(StringRead::Probe.next(filled(0, vec![97, 0])), StringRead::Probe);
    assert_eq!(
        StringRead::Fill { buffer_size: 9 }.next(probed(2)),
        StringRead::Fill { buffer_size: 9 }
    );
    assert_eq!(
        StringRead::Done(Ok("x".to_string())).next(probed(2)),
        StringRead::Done(Ok("x".to_string()))
    );
    assert_eq!(
        StringRead::Done(Err(DaqmxError::StringPropertyLengthChanged)).next(filled(0, vec![0])),
        StringRead::Done(Err(DaqmxError::StringPropertyLengthChanged))
    );
}

#[test]
fn named_scale_is_the_custom_scale_of_that_name() {
    assert_eq!(
        named_scale("TestScale".to_string()),
        Ok(VoltageScale::CustomScale(Some(CName::from_text("TestScale").unwrap())))
    );
    match named_scale("Test\0Scale".to_string()) {
        Err(DaqmxError::CStringError(error)) => assert_eq!(error.nul_position(), 4),
        other => panic!("expected a CStringError, got {:?}", other),
    }
}

#[test]
fn scale_read_of_volts_ends_after_one_call() {
    let state = ScaleRead::new();
    assert_eq!(state, ScaleRead::Units);
    assert_eq!(state.message_source(0), MessageSource::NoText);
    assert_eq!(state.message_source(5), MessageSource::ErrorString);
    assert_eq!(state.message_source(-5), MessageSource::ExtendedErrorInfo);
    let state =
        state.next(ScaleReadEvent::Units { return_code: 0, message: vec![], value: 10348 });
    assert_eq!(state, ScaleRead::Done(Ok(VoltageScale::Volts)));
}

#[test]
fn scale_read_of_teds_ends_after_one_call() {
    let state = ScaleRead::new().next(ScaleReadEvent::Units {
        return_code: 0,
        message: vec![],
        value: 12516,
    });
    assert_eq!(state, ScaleRead::Done(Ok(VoltageScale::FromTEDS)));
}

#[test]
fn scale_read_of_a_custom_scale_reads_its_name() {
    let state = ScaleRead::new().next(ScaleReadEvent::Units {
        return_code: 0,
        message: vec![],
        value: 10065,
    });
    assert_eq!(state, ScaleRead::Name(StringRead::Probe));
    assert_eq!(state.message_source(10), MessageSource::NoText);
    assert_eq!(state.message_source(-10), MessageSource::ExtendedErrorInfo);
    let state = state.next(ScaleReadEvent::Name(probed(10)));
    assert_eq!(state, ScaleRead::Name(StringRead::Fill { buffer_size: 10 }));
    assert_eq!(state.message_source(200026), MessageSource::NoText);
    let state = state.next(ScaleReadEvent::Name(filled(0, with_null("TestScale"))));
    assert_eq!(
        state,
        ScaleRead::Done(Ok(VoltageScale::CustomScale(Some(
            CName::from_text("TestScale").unwrap()
        ))))
    );
    assert_eq!(state.message_source(-10), MessageSource::NoText);
}

#[test]
fn scale_read_fails_with_the_call_that_read_the_units() {
    let state = ScaleRead::new().next(ScaleReadEvent::Units {
        return_code: -200170,
        message: c_chars("No such channel"),
        value: 10348,
    });
    assert_eq!(
        state,
        ScaleRead::Done(Err(DaqmxError::DaqmxError(-200170, "No such channel".to_string())))
    );
}

#[test]
fn scale_read_fails_on_an_unknown_unit() {
    let state = ScaleRead::new().next(ScaleReadEvent::Units {
        return_code: 0,
        message: vec![],
        value: 10342,
    });
    assert_eq!(
        state,
        ScaleRead::Done(Err(DaqmxError::UnexpectedValue("VoltageScale".to_string(), 10342)))
    );
}

#[test]
fn scale_read_fails_with_the_read_of_the_name() {
    let state = ScaleRead::Name(StringRead::Probe).next(ScaleReadEvent::Name(
        StringReadEvent::Probed { return_value: -200088, message: c_chars("Invalid task") },
    ));
    assert_eq!(
        state,
        ScaleRead::Done(Err(DaqmxError::DaqmxError(-200088, "Invalid task".to_string())))
    );

    let state = ScaleRead::Name(StringRead::Fill { buffer_size: 4 })
        .next(ScaleReadEvent::Name(filled(-200228, vec![0, 0, 0, 0])));
    assert_eq!(state, ScaleRead::Done(Err(DaqmxError::StringPropertyLengthChanged)));
}

#[test]
fn scale_read_refuses_a_name_with_a_null() {
    let state = ScaleRead::Name(StringRead::Fill { buffer_size: 4 })
        .next(ScaleReadEvent::Name(filled(0, vec![97, 0, 98, 0])));
    match state {
        ScaleRead::Done(Err(DaqmxError::CStringError(error))) => {
            assert_eq!(error.nul_position(), 1);
            assert_eq!(error.into_vec(), vec![97u8, 0, 98]);
        }
        other => panic!("expected a CStringError, got {:?}", other),
    }
}

#[test]
fn scale_read_ignores_what_is_no_answer() {
    let units = || ScaleReadEvent::Units { return_code: 0, message: vec![], value: 10348 };
    assert_eq!(ScaleRead::Units.next(ScaleReadEvent::Name(probed(3))), ScaleRead::Units);
    assert_eq!(
        ScaleRead::Name(StringRead::Probe).next(units()),
        ScaleRead::Name(StringRead::Probe)
    );
    assert_eq!(
        ScaleRead::Name(StringRead::Probe).next(ScaleReadEvent::Name(filled(0, vec![0]))),
        ScaleRead::Name(StringRead::Probe)
    );
    assert_eq!(
        ScaleRead::Name(StringRead::Fill { buffer_size: 2 })
            .next(ScaleReadEvent::Name(probed(3))),
        ScaleRead::Name(StringRead::Fill { buffer_size: 2 })
    );
    assert_eq!(
        ScaleRead::Done(Ok(VoltageScale::Volts)).next(units()),
        ScaleRead::Done(Ok(VoltageScale::Volts))
    );
}

#[test]
fn builder_setters_chain_and_change_only_their_field() {
    let mut builder = VoltageChannelBuilder::new("Dev1/ai0").unwrap();
    builder
        .name("first")
        .unwrap()
        .range(double(-1.0), double(2.5))
        .unwrap()
        .scale(VoltageScale::FromTEDS)
        .unwrap()
        .terminal_config(AnalogTerminalConfig::NRSE)
        .unwrap();
    assert_eq!(builder.physical_channel, CName::from_text("Dev1/ai0").unwrap());
    assert_eq!(builder.name, Some(CName::from_text("first").unwrap()));
    assert_eq!(f64::from_bits(builder.min.to_bits()), -1.0);
    assert_eq!(f64::from_bits(builder.max.to_bits()), 2.5);
    assert_eq!(builder.scale, VoltageScale::FromTEDS);
    assert_eq!(builder.terminal_config, AnalogTerminalConfig::NRSE);

    builder.range(double(0.0), double(10.0)).unwrap();
    assert_eq!(builder.name, Some(CName::from_text("first").unwrap()));
    assert_eq!(f64::from_bits(builder.min.to_bits()), 0.0);
    assert_eq!(f64::from_bits(builder.max.to_bits()), 10.0);
    assert_eq!(builder.scale, VoltageScale::FromTEDS);
    assert_eq!(builder.terminal_config, AnalogTerminalConfig::NRSE);
}

#[test]
fn builder_range_takes_any_two_numbers() {
    let mut builder = VoltageChannelBuilder::new("Dev1/ai0").unwrap();
    assert!(builder.range(double(5.0), double(-5.0)).is_ok());
    let request = builder.add_to_task();
    assert_eq!(f64::from_bits(request.min_val.to_bits()), 5.0);
    assert_eq!(f64::from_bits(request.max_val.to_bits()), -5.0);
}
