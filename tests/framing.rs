use leadrscribe::framing::FrameAssembler;

#[test]
fn frames_are_whole_and_remainder_kept() {
    let mut fa: FrameAssembler<i16> = FrameAssembler::new();
    assert!(fa.push(&vec![1; 300]).is_empty());
    let frames = fa.push(&vec![2; 1000]);
    assert_eq!(frames.len(), 2);
    assert!(frames.iter().all(|f| f.len() == 480));
    assert_eq!(frames[0][299], 1);
    assert_eq!(frames[0][300], 2);
    assert_eq!(fa.pending.len(), 340);
    let last = fa.finish(0).expect("remainder flushed");
    assert_eq!(last.len(), 480);
    assert_eq!(last[339], 2);
    assert_eq!(last[340], 0);
    assert!(fa.finish(0).is_none());
}

#[test]
fn exact_frame_leaves_nothing() {
    let mut fa: FrameAssembler<u8> = FrameAssembler::new();
    assert_eq!(fa.push(&vec![7; 480]).len(), 1);
    assert!(fa.pending.is_empty());
    assert!(fa.finish(0).is_none());
}
