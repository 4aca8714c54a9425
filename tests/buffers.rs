use leadrscribe::capture::CaptureSession;
use leadrscribe::chunking::StreamingBuffer;
use leadrscribe::events::RecorderError;
use leadrscribe::vad::SmoothedVad;

#[test]
fn chunks_carry_overlap() {
    let mut b: StreamingBuffer<u16> = StreamingBuffer::new();
    assert!(b.add_segment(vec![1; 39999]).is_none());
    let (chunk, idx) = b.add_segment(vec![2; 1]).expect("chunk");
    assert_eq!(idx, 0);
    assert_eq!(chunk.len(), 40000);
    assert_eq!(b.overlap.len(), 4800);
    let (chunk, idx) = b.add_segment(vec![3; 40000]).expect("chunk");
    assert_eq!(idx, 1);
    assert_eq!(chunk.len(), 44800);
    assert_eq!(chunk[4799], 2);
    assert_eq!(b.current_chunk_index(), 2);
    b.add_segment(vec![4; 7999]);
    assert!(b.flush().is_none());
    b.add_segment(vec![4; 1]);
    let (chunk, idx) = b.flush().expect("final chunk");
    assert_eq!((chunk.len(), idx), (12800, 2));
    b.reset();
    assert_eq!(b.current_chunk_index(), 0);
}

#[test]
fn recorder_error_messages() {
    assert_eq!(RecorderError::NoInputDevice.message(), "No input device found");
    assert_eq!(
        RecorderError::UnsupportedFormat("U64".to_string()).message(),
        "Unsupported audio sample format: U64"
    );
    assert_eq!(RecorderError::Other("x".to_string()).message(), "Audio error: x");
}

#[test]
fn capture_emits_chunk_each_second() {
    let vad: SmoothedVad<f32> = SmoothedVad::new(0, 15, 1);
    let mut cap = CaptureSession::new(vad);
    assert!(cap.process_frame(&vec![0.3; 480], true).is_none());
    assert!(cap.processed_samples.is_empty());
    cap.start();
    let mut emitted = Vec::new();
    for _ in 0..40 {
        if let Some(c) = cap.process_frame(&vec![0.3; 480], true) {
            emitted.push(c.len());
        }
    }
    assert_eq!(emitted, vec![16320]);
    let (rest, all) = cap.stop();
    assert_eq!(rest.map(|r| r.len()), Some(40 * 480 - 16320));
    assert_eq!(all.len(), 40 * 480);
}

#[test]
fn capture_silence_keeps_nothing() {
    let vad: SmoothedVad<f32> = SmoothedVad::new(15, 15, 2);
    let mut cap = CaptureSession::new(vad);
    cap.start();
    for _ in 0..10 {
        assert!(cap.process_frame(&vec![0.0; 480], false).is_none());
    }
    let (rest, all) = cap.stop();
    assert!(rest.is_none());
    assert!(all.is_empty());
}
