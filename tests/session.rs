use leadrscribe::session::{
    choose_final_text, combine_instructions, final_from_fallback, pad_short_recording,
    profile_to_consult,
    select_output, start_chime_timing, wants_rewrite, ChimeTiming, MicrophoneMode,
    RecordingState, StreamChange,
};
use leadrscribe::settings::OutputMode;

#[test]
fn recording_state_single_owner() {
    let mut st = RecordingState::Idle;
    assert!(st.try_start("transcribe"));
    assert!(!st.try_start("test"));
    assert!(!st.try_stop("test"));
    assert!(st.try_stop("transcribe"));
    assert!(matches!(st, RecordingState::Idle));
    assert!(!st.try_stop("transcribe"));
    assert!(st.try_start("test"));
    assert!(st.cancel());
    assert!(!st.cancel());
}

#[test]
fn final_text_needs_three_bytes() {
    assert_eq!(choose_final_text(""), None);
    assert_eq!(choose_final_text("ok"), None);
    assert_eq!(choose_final_text("yes"), Some("yes".to_string()));
    assert_eq!(choose_final_text("é!"), Some("é!".to_string()));
}

#[test]
fn instructions_combined() {
    assert_eq!(
        combine_instructions("", None),
        "Improve grammar, clarity, and professionalism while maintaining the original meaning."
    );
    assert_eq!(combine_instructions("", Some("Be brief")), "Be brief");
    assert_eq!(combine_instructions("Be formal", None), "Be formal");
    assert_eq!(
        combine_instructions("Be formal", Some("Be brief")),
        "Be formal\n\nAdditional context for this profile:\nBe brief"
    );
}

#[test]
fn none_profile_skipped() {
    assert_eq!(profile_to_consult(None), None);
    assert_eq!(profile_to_consult(Some(1)), None);
    assert_eq!(profile_to_consult(Some(4)), Some(4));
}

#[test]
fn short_recording_padded() {
    let padded = pad_short_recording(vec![0.5f32; 100], 0.0);
    assert_eq!(padded.len(), 20000);
    assert_eq!(padded[99], 0.5);
    assert_eq!(padded[100], 0.0);
    assert!(pad_short_recording(Vec::<f32>::new(), 0.0).is_empty());
    assert_eq!(pad_short_recording(vec![1u8; 16000], 0).len(), 16000);
    assert_eq!(pad_short_recording(vec![1u8; 15999], 0).len(), 20000);
}

#[test]
fn microphone_mode_changes() {
    assert_eq!(MicrophoneMode::AlwaysOn.stream_change(MicrophoneMode::OnDemand, true), StreamChange::Close);
    assert_eq!(MicrophoneMode::AlwaysOn.stream_change(MicrophoneMode::OnDemand, false), StreamChange::Keep);
    assert_eq!(MicrophoneMode::OnDemand.stream_change(MicrophoneMode::AlwaysOn, false), StreamChange::Open);
    assert_eq!(MicrophoneMode::OnDemand.stream_change(MicrophoneMode::OnDemand, true), StreamChange::Keep);
}

#[test]
fn output_selection() {
    assert!(wants_rewrite(OutputMode::Ghostwriter));
    assert!(!wants_rewrite(OutputMode::Transcript));
    assert_eq!(select_output("raw".to_string(), None), ("raw".to_string(), None));
    assert_eq!(
        select_output("raw".to_string(), Some(Ok("nice".to_string()))),
        ("nice".to_string(), Some("nice".to_string()))
    );
    assert_eq!(
        select_output("raw".to_string(), Some(Err("offline".to_string()))),
        ("raw".to_string(), None)
    );
    assert_eq!(start_chime_timing(true), ChimeTiming::BeforeStart);
    assert_eq!(start_chime_timing(false), ChimeTiming::AfterStart);
}

#[test]
fn fallback_result_decides_paste() {
    assert_eq!(final_from_fallback(Ok("hi there".to_string())), Some("hi there".to_string()));
    assert_eq!(final_from_fallback(Ok(String::new())), None);
    assert_eq!(final_from_fallback(Err("engine failed".to_string())), None);
}
