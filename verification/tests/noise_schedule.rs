use stadium_eq::noise::{SubwindowSchedule, SubwindowStep, NUM_SUBWINDOWS, SUBWINDOW_LENGTH};

#[test]
fn first_update_initializes() {
    let mut s = SubwindowSchedule::new();
    assert!(!s.initialized());
    assert_eq!(s.advance(), SubwindowStep::Initialize);
    assert!(s.initialized());
    assert_eq!(s.frame_counter(), 1);
    assert_eq!(s.subwindow_counter(), 0);
}

#[test]
fn subwindow_rotates_after_twelve_frames() {
    let mut s = SubwindowSchedule::new();
    s.advance();
    for _ in 0..10 {
        assert_eq!(s.advance(), SubwindowStep::Accumulate);
    }
    assert_eq!(s.advance(), SubwindowStep::Rotate { slot: 0 });
    assert_eq!(s.frame_counter(), 0);
    assert_eq!(s.subwindow_counter(), 1);
}

#[test]
fn slots_cycle_through_ring() {
    let mut s = SubwindowSchedule::new();
    let mut slots = Vec::new();
    for n in 1..=(SUBWINDOW_LENGTH * NUM_SUBWINDOWS * 2) {
        let step = s.advance();
        if let SubwindowStep::Rotate { slot } = step {
            assert_eq!(n % SUBWINDOW_LENGTH, 0);
            slots.push(slot);
        }
        assert_eq!(s.frame_counter(), n % SUBWINDOW_LENGTH);
        assert_eq!(s.subwindow_counter(), (n / SUBWINDOW_LENGTH) % NUM_SUBWINDOWS);
    }
    assert_eq!(slots, vec![0, 1, 2, 3, 4, 5, 6, 7, 0, 1, 2, 3, 4, 5, 6, 7]);
}

#[test]
fn reset_returns_to_fresh() {
    let mut s = SubwindowSchedule::new();
    for _ in 0..30 {
        s.advance();
    }
    s.reset();
    assert!(!s.initialized());
    assert_eq!(s.frame_counter(), 0);
    assert_eq!(s.subwindow_counter(), 0);
    assert_eq!(s.advance(), SubwindowStep::Initialize);
}
