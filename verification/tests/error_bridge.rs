use rest_dftd3::error::{decode_message, text_bytes, DFTD3Error, ErrorSink};

fn flagged_sink(ptr: usize, text: &[u8]) -> DFTD3Error {
    let mut error = DFTD3Error::new(ptr);
    error.observe(1, text.to_vec());
    error
}

#[test]
fn fresh_sink_is_clear_and_silent() {
    let mut error = DFTD3Error::new(17);
    assert!(!error.check());
    assert_eq!(error.get_message(), "");
    assert_eq!(error.get_c_ptr(), 17);
    assert_eq!(error.to_string(), "");
    assert_eq!(error.to_debug_string(), "DFTD3Error: No error");
}

#[test]
fn flagged_sink_speaks() {
    let error = flagged_sink(3, b"No entry for 'Hello' present\0garbage");
    assert!(error.check());
    assert_eq!(error.get_message(), "No entry for 'Hello' present");
    assert_eq!(error.to_string(), "DFTD3Error: No entry for 'Hello' present");
    assert_eq!(error.to_debug_string(), "DFTD3Error: No entry for 'Hello' present");
}

#[test]
fn local_failure_is_flagged_and_has_no_handle() {
    let mut error = DFTD3Error::local(String::from("bad input"));
    assert!(error.check());
    assert_eq!(error.get_message(), "bad input");
    assert_eq!(error.get_c_ptr(), 0);
    error.observe(0, Vec::new());
    assert!(error.check());
    assert_eq!(error.get_message(), "bad input");
}

#[test]
fn text_stops_at_first_nul() {
    assert_eq!(text_bytes(b"abc\0def"), b"abc".to_vec());
    assert_eq!(text_bytes(b"\0abc"), Vec::<u8>::new());
    assert_eq!(text_bytes(b""), Vec::<u8>::new());
    assert_eq!(text_bytes(b"abc"), b"abc".to_vec());
}

#[test]
fn text_is_capped_at_capacity() {
    let long = vec![b'x'; 600];
    let text = text_bytes(&long);
    assert_eq!(text.len(), 512);
    assert!(text.iter().all(|&b| b == b'x'));
    let exact = vec![b'y'; 512];
    assert_eq!(text_bytes(&exact).len(), 512);
}

#[test]
fn undecodable_text_is_replaced() {
    let error = flagged_sink(3, &[0xff, 0xfe, 0]);
    assert!(error.check());
    assert_eq!(error.get_message(), "Invalid UTF-8 in the message of the native error");
    assert!(decode_message(&[0xff, 0xfe, 0]).is_none());
    assert_eq!(decode_message("gr\u{fc}n\0".as_bytes()), Some(String::from("gr\u{fc}n")));
}

#[test]
fn bridge_hands_out_value_on_clear_sink() {
    let error = DFTD3Error::new(5);
    match error.bridge(42u32) {
        Ok(v) => assert_eq!(v, 42),
        Err(_) => panic!("a clear sink must give the value"),
    }
}

#[test]
fn bridge_hands_out_error_on_flagged_sink() {
    match flagged_sink(9, b"boom\0").bridge(42u32) {
        Ok(_) => panic!("a flagged sink must give the error"),
        Err(DFTD3Error::C(ErrorSink { ptr, status, buffer })) => {
            assert_eq!(ptr, 9);
            assert_eq!(status, 1);
            assert_eq!(buffer, b"boom\0".to_vec());
        }
        Err(DFTD3Error::Rust(_)) => panic!("decodable engine text stays a native error"),
    }
}

#[test]
fn bridge_folds_undecodable_text_into_local_failure() {
    match flagged_sink(9, &[0xc3, 0x28, 0]).bridge(()) {
        Err(DFTD3Error::Rust(msg)) => {
            assert_eq!(msg, "Invalid UTF-8 in the message of the native error")
        }
        _ => panic!("undecodable engine text must become a local failure"),
    }
    match DFTD3Error::local(String::from("early")).bridge(()) {
        Err(DFTD3Error::Rust(msg)) => assert_eq!(msg, "early"),
        _ => panic!("a local failure stays as it is"),
    }
}
