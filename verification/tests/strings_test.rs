use daqmx::error::{c_name, DaqmxError};
use daqmx::strings::{find_nul, CName};

#[test]
fn find_nul_gives_the_first_null() {
    assert_eq!(find_nul(&vec![]), None);
    assert_eq!(find_nul(&vec![1, 2, 3]), None);
    assert_eq!(find_nul(&vec![0]), Some(0));
    assert_eq!(find_nul(&vec![7, 0, 9, 0]), Some(1));
    assert_eq!(find_nul(&vec![7, 8, 9, 0]), Some(3));
}

#[test]
fn c_name_takes_bytes_without_a_null() {
    let name = CName::new(vec![68, 101, 118, 49]).unwrap();
    assert_eq!(name.as_bytes(), &vec![68u8, 101, 118, 49]);
    assert_eq!(name.into_bytes(), vec![68u8, 101, 118, 49]);
}

#[test]
fn c_name_takes_bytes_that_are_no_utf8() {
    let name = CName::new(vec![255, 254]).unwrap();
    assert_eq!(name.as_bytes(), &vec![255u8, 254]);
}

#[test]
fn c_name_refuses_a_null_and_says_where() {
    let error = CName::new(vec![68, 0, 118, 0]).unwrap_err();
    assert_eq!(error.nul_position(), 1);
    assert_eq!(error.into_vec(), vec![68u8, 0, 118, 0]);

    let error = CName::new(vec![68, 101, 0]).unwrap_err();
    assert_eq!(error.nul_position(), 2);

    let error = CName::new(vec![0]).unwrap_err();
    assert_eq!(error.nul_position(), 0);
}

#[test]
fn c_name_from_text_takes_the_utf8_bytes() {
    let name = CName::from_text("PXI1Slot2/ai0").unwrap();
    assert_eq!(name.as_bytes().as_slice(), "PXI1Slot2/ai0".as_bytes());

    let name = CName::from_text("caf\u{e9}").unwrap();
    assert_eq!(name.as_bytes(), &vec![99u8, 97, 102, 0xC3, 0xA9]);
}

#[test]
fn c_name_from_text_refuses_a_null() {
    let error = CName::from_text("Dev1\0/ai0").unwrap_err();
    assert_eq!(error.nul_position(), 4);
    assert_eq!(error.into_vec(), "Dev1\0/ai0".as_bytes().to_vec());
}

#[test]
fn c_name_empty_is_empty() {
    assert_eq!(CName::empty().as_bytes(), &Vec::<u8>::new());
    assert_eq!(CName::empty(), CName::from_text("").unwrap());
}

#[test]
fn c_name_clone_is_equal() {
    let name = CName::from_text("TestScale").unwrap();
    let copy = name.clone();
    assert_eq!(name, copy);
    assert_eq!(copy.as_bytes().as_slice(), "TestScale".as_bytes());
}

#[test]
fn c_name_of_the_error_module_maps_the_error() {
    assert_eq!(c_name("Dev1/ai0"), Ok(CName::from_text("Dev1/ai0").unwrap()));
    match c_name("a\0") {
        Err(DaqmxError::CStringError(error)) => {
            assert_eq!(error.nul_position(), 1);
            assert_eq!(error.into_vec(), vec![97u8, 0]);
        }
        other => panic!("expected a CStringError, got {:?}", other),
    }
}
