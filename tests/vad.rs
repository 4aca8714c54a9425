use leadrscribe::vad::{SmoothedVad, VadFrame, VadSegmentEvent};

fn frame(v: f32) -> Vec<f32> {
    vec![v; 480]
}

#[test]
fn vad_onset_rejection() {
    let mut vad: SmoothedVad<f32> = SmoothedVad::new(15, 15, 2);
    assert!(!vad.push_frame(&frame(0.5), true).is_speech());
    for _ in 0..5 {
        assert!(!vad.push_frame(&frame(0.0), false).is_speech());
    }
    assert_eq!(vad.check_segment_boundary(), VadSegmentEvent::Silence);
}

#[test]
fn vad_onset_emits_prefill_and_current_frame() {
    let mut vad: SmoothedVad<f32> = SmoothedVad::new(2, 1, 2);
    vad.push_frame(&frame(0.1), false);
    vad.push_frame(&frame(0.2), true);
    match vad.push_frame(&frame(0.3), true) {
        VadFrame::Speech(c) => {
            assert_eq!(c.len(), 3 * 480);
            assert_eq!(c[0], 0.1);
            assert_eq!(c[480], 0.2);
            assert_eq!(c[960], 0.3);
        }
        VadFrame::Noise => panic!("onset expected"),
    }
    assert_eq!(vad.check_segment_boundary(), VadSegmentEvent::SpeechContinue);
    // one hangover frame is kept, the next silent frame ends speech
    assert!(vad.push_frame(&frame(0.0), false).is_speech());
    assert!(!vad.push_frame(&frame(0.0), false).is_speech());
}

#[test]
fn vad_never_emits_empty_chunk() {
    let mut vad: SmoothedVad<f32> = SmoothedVad::new(3, 2, 1);
    let pattern = [true, true, false, false, false, true, false, true, true];
    for v in pattern {
        if let VadFrame::Speech(c) = vad.push_frame(&frame(0.2), v) {
            assert!(!c.is_empty());
        }
    }
}

fn run_segment(speech_frames: usize) -> Vec<VadSegmentEvent> {
    let mut vad: SmoothedVad<f32> = SmoothedVad::new(0, 0, 1);
    // the onset frame itself does not count as segment speech
    vad.push_frame(&frame(0.5), true);
    vad.check_segment_boundary();
    for _ in 0..speech_frames {
        vad.push_frame(&frame(0.5), true);
        vad.check_segment_boundary();
    }
    let mut events = Vec::new();
    for _ in 0..50 {
        vad.push_frame(&frame(0.0), false);
        events.push(vad.check_segment_boundary());
    }
    events
}

#[test]
fn vad_boundary_at_minimum_segment_length() {
    let events = run_segment(67);
    for e in &events[..49] {
        assert_eq!(*e, VadSegmentEvent::Silence);
    }
    assert_eq!(events[49], VadSegmentEvent::SegmentComplete);
}

#[test]
fn vad_no_boundary_below_minimum_segment_length() {
    let events = run_segment(66);
    assert!(events.iter().all(|e| *e == VadSegmentEvent::Silence));
}

#[test]
fn vad_reset_clears_state() {
    let mut vad: SmoothedVad<f32> = SmoothedVad::new(1, 5, 1);
    assert!(vad.push_frame(&frame(0.5), true).is_speech());
    vad.reset();
    assert!(!vad.in_speech);
    assert!(vad.frame_buffer.is_empty());
    assert_eq!(vad.check_segment_boundary(), VadSegmentEvent::Silence);
}
