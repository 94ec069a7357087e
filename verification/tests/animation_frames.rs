use vfd_marquee::animation::LoadingAnimation;

#[test]
fn marker_moves_one_position_per_frame() {
    let mut a = LoadingAnimation::new();
    assert_eq!(a.next_frame(), "*OOOOOOOOOOO");
    assert_eq!(a.next_frame(), "O*OOOOOOOOOO");
    assert_eq!(a.next_frame(), "OO*OOOOOOOOO");
}

#[test]
fn every_frame_has_exactly_one_marker() {
    let mut a = LoadingAnimation::new();
    for _ in 0..30 {
        let frame = a.next_frame();
        assert_eq!(frame.len(), 12);
        assert_eq!(frame.chars().filter(|c| *c == '*').count(), 1);
        assert_eq!(frame.chars().filter(|c| *c == 'O').count(), 11);
    }
}

#[test]
fn marker_wraps_after_the_last_position() {
    let mut a = LoadingAnimation::new();
    let mut last = String::new();
    for _ in 0..12 {
        last = a.next_frame();
    }
    assert_eq!(last, "OOOOOOOOOOO*");
    assert_eq!(a.next_frame(), "*OOOOOOOOOOO");
}
