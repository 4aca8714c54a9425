use leadrscribe::device::{
    check_sample_format, init_outcome, pick_device, preferred_range, RateRange, SampleFormat,
};
use leadrscribe::events::RecorderError;

#[test]
fn accepted_sample_formats() {
    for f in [SampleFormat::U8, SampleFormat::I8, SampleFormat::I16, SampleFormat::I32, SampleFormat::F32] {
        assert!(check_sample_format(f).is_ok());
    }
    match check_sample_format(SampleFormat::F64) {
        Err(RecorderError::UnsupportedFormat(m)) => assert_eq!(m, "F64"),
        _ => panic!("F64 must be refused"),
    }
    assert!(check_sample_format(SampleFormat::U16).is_err());
}

#[test]
fn first_range_with_16k_preferred() {
    let ranges = [
        RateRange { min: 44100, max: 48000 },
        RateRange { min: 8000, max: 16000 },
        RateRange { min: 16000, max: 96000 },
    ];
    assert_eq!(preferred_range(&ranges), Some(1));
    assert_eq!(preferred_range(&ranges[..1]), None);
    assert_eq!(preferred_range(&[]), None);
}

#[test]
fn handshake_outcomes() {
    assert!(init_outcome(Some(Ok(()))).is_ok());
    match init_outcome(Some(Err(RecorderError::NoInputDevice))) {
        Err(RecorderError::NoInputDevice) => {}
        _ => panic!("error passed on"),
    }
    match init_outcome(None) {
        Err(RecorderError::Other(m)) => {
            assert_eq!(m, "Audio initialization timed out or failed unexpectedly")
        }
        _ => panic!("timeout gives Other"),
    }
}

#[test]
fn device_picked_by_exact_name() {
    let names = vec!["Built-in Mic".to_string(), "USB Mic".to_string(), "USB Mic".to_string()];
    assert_eq!(pick_device(&names, Some("USB Mic")), Some(1));
    assert_eq!(pick_device(&names, Some("usb mic")), None);
    assert_eq!(pick_device(&names, None), None);
    assert_eq!(pick_device(&Vec::new(), Some("USB Mic")), None);
}
