use leadrscribe::session::choose_final_text;
use leadrscribe::streaming::StreamingState;

fn second(v: f32) -> Vec<f32> {
    vec![v; 16000]
}

#[test]
fn streaming_short_utterance() {
    let mut c: StreamingState<f32> = StreamingState::new();
    c.start_recording();
    let job = c.on_speech_chunk(&second(0.1)).expect("first second triggers");
    assert_eq!(job.generation, 0);
    assert!(!job.is_windowed);
    assert_eq!(job.window.len(), 16000);
    assert_eq!(c.on_transcription(job.generation, job.is_windowed, ""), None);
    assert!(!c.is_transcribing);
    let job = c.on_speech_chunk(&second(0.2)).expect("second second triggers");
    assert_eq!(job.window.len(), 32000);
    assert_eq!(
        c.on_transcription(job.generation, job.is_windowed, "hello"),
        Some("hello".to_string())
    );
    c.stop_recording();
    assert_eq!(c.latest_text(), "hello");
    assert_eq!(choose_final_text(&c.latest_text()), Some("hello".to_string()));
}

#[test]
fn streaming_windowed() {
    let words: Vec<String> = (0..14).map(|i| format!("word{}", i)).collect();
    let mut c: StreamingState<f32> = StreamingState::new();
    c.start_recording();
    let mut previous = String::new();
    let mut saw_cutover = false;
    for k in 1..=14usize {
        let job = c.on_speech_chunk(&second(k as f32)).expect("each second triggers");
        let first = if k > 10 { k - 10 } else { 0 };
        let heard = words[first..k].join(" ");
        assert_eq!(job.is_windowed, k > 10);
        assert_eq!(job.window.len(), 16000 * (k - first));
        let shown = c
            .on_transcription(job.generation, job.is_windowed, &heard)
            .expect("non-empty result is shown");
        if job.is_windowed {
            saw_cutover = true;
            assert!(!c.committed_text.is_empty());
            assert!(shown.starts_with(&previous));
            assert!(shown.len() > previous.len());
        }
        previous = shown;
    }
    assert!(saw_cutover);
    assert_eq!(c.latest_text(), words.join(" "));
    assert!(c.audio_buffer.len() <= 192000);
    assert!(c.last_transcribed_len <= c.audio_buffer.len());
}

#[test]
fn streaming_window_boundary_exact() {
    let mut c: StreamingState<u8> = StreamingState::new();
    c.start_recording();
    c.is_transcribing = true;
    c.on_speech_chunk(&vec![1u8; 144000]);
    c.is_transcribing = false;
    c.committed_text = "earlier words".to_string();
    let job = c.on_speech_chunk(&vec![2u8; 16000]).expect("trigger");
    assert_eq!(c.audio_buffer.len(), 160000);
    assert!(!job.is_windowed);
    assert_eq!(job.prompt, None);
    assert_eq!(job.window.len(), 160000);
    c.latest_text = "previous text".to_string();
    c.on_transcription(job.generation, job.is_windowed, "new text");
    assert_eq!(c.committed_text, "earlier words");
    assert_eq!(c.latest_text(), "new text");
}

#[test]
fn streaming_window_boundary_one_over() {
    let mut c: StreamingState<u8> = StreamingState::new();
    c.start_recording();
    c.is_transcribing = true;
    c.on_speech_chunk(&vec![1u8; 144001]);
    c.is_transcribing = false;
    c.committed_text = "earlier words".to_string();
    let job = c.on_speech_chunk(&vec![2u8; 16000]).expect("trigger");
    assert!(job.is_windowed);
    assert_eq!(job.window.len(), 160000);
    assert_eq!(job.window[0], 1u8);
    assert_eq!(job.prompt, Some("earlier words".to_string()));
}

#[test]
fn streaming_trims_to_window_and_margin() {
    let mut c: StreamingState<u8> = StreamingState::new();
    c.start_recording();
    c.is_transcribing = true;
    c.on_speech_chunk(&vec![1u8; 200000]);
    c.is_transcribing = false;
    let job = c.on_speech_chunk(&vec![2u8; 16000]).expect("trigger");
    assert_eq!(c.audio_buffer.len(), 192000);
    assert_eq!(c.last_transcribed_len, 192000);
    assert!(job.is_windowed);
    assert_eq!(job.window.len(), 160000);
    assert_eq!(*job.window.last().unwrap(), 2u8);
}

#[test]
fn streaming_trigger_exact_and_below() {
    let mut c: StreamingState<u8> = StreamingState::new();
    c.start_recording();
    assert!(c.on_speech_chunk(&vec![0u8; 15999]).is_none());
    assert!(c.on_speech_chunk(&vec![0u8; 1]).is_some());
    assert_eq!(c.last_transcribed_len, 16000);
}

#[test]
fn streaming_single_slot_backpressure() {
    let mut c: StreamingState<u8> = StreamingState::new();
    c.start_recording();
    let first = c.on_speech_chunk(&vec![0u8; 16000]).expect("trigger");
    assert!(c.on_speech_chunk(&vec![0u8; 32000]).is_none());
    assert!(c.is_transcribing);
    assert_eq!(c.audio_buffer.len(), 48000);
    c.on_transcription(first.generation, first.is_windowed, "one");
    let second = c.on_speech_chunk(&vec![0u8; 1]).expect("slot free again");
    assert_eq!(second.generation, 1);
    assert_eq!(second.window.len(), 48001);
}

#[test]
fn streaming_stale_result_dropped() {
    let mut c: StreamingState<u8> = StreamingState::new();
    c.start_recording();
    c.generation = 5;
    c.latest_text = "newest".to_string();
    c.is_transcribing = true;
    assert_eq!(c.on_transcription(3, false, "old"), None);
    assert_eq!(c.latest_text(), "newest");
    assert!(c.is_transcribing);
    assert_eq!(c.on_transcription(4, false, "fresh"), Some("fresh".to_string()));
}

#[test]
fn streaming_ignores_chunks_outside_session() {
    let mut c: StreamingState<u8> = StreamingState::new();
    assert!(c.on_speech_chunk(&vec![0u8; 20000]).is_none());
    assert!(c.audio_buffer.is_empty());
    c.start_recording();
    c.stop_recording();
    assert!(c.on_speech_chunk(&vec![0u8; 20000]).is_none());
    assert!(c.audio_buffer.is_empty());
}

fn windowed_result(committed: &str, text: &str) -> String {
    let mut s: StreamingState<u8> = StreamingState::new();
    s.start_recording();
    s.latest_text = committed.to_string();
    s.on_transcription(0, true, text).expect("shown")
}

#[test]
fn streaming_state_merges_windowed_results() {
    assert_eq!(
        windowed_result("the quick brown fox jumps", "brown fox jumps over the lazy dog"),
        "the quick brown fox jumps over the lazy dog"
    );
    assert_eq!(windowed_result("hello world foo", "hello world foo"), "hello world foo");
    assert_eq!(
        windowed_result("Hello World Foo", "hello world foo bar baz"),
        "Hello World Foo bar baz"
    );
    let m = windowed_result("hello world", "foo bar");
    assert_eq!(m, "hello world foo bar");
    assert_eq!(windowed_result(&m, "foo bar"), m);
}

#[test]
fn streaming_state_drops_older_result_after_newer() {
    let mut s: StreamingState<u8> = StreamingState::new();
    s.start_recording();
    let a = s.on_speech_chunk(&vec![0u8; 16000]).expect("job 0");
    s.on_transcription(a.generation, a.is_windowed, "first");
    let b = s.on_speech_chunk(&vec![0u8; 16000]).expect("job 1");
    let c = {
        s.on_transcription(b.generation, b.is_windowed, "second");
        s.on_speech_chunk(&vec![0u8; 16000]).expect("job 2")
    };
    s.on_transcription(c.generation, c.is_windowed, "third");
    assert_eq!(s.on_transcription(a.generation, a.is_windowed, "late"), None);
    assert_eq!(s.latest_text(), "third");
}
